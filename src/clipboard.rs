//! Choice of the clipboard program, and the commands that copy a text with it.
use vstd::prelude::*;

use crate::views;

verus! {

/// A clipboard program that reads the text to copy on its standard input.
#[derive(Clone, Copy, Debug, PartialEq, Eq, Structural)]
pub enum Backend {
    /// `xsel -b -i`: the clipboard buffer, filled from the input.
    Xsel,
    /// `xclip -selection c`: the clipboard selection.
    Xclip,
}

impl Backend {
    pub open spec fn program_spec(self) -> Seq<char> {
        match self {
            Backend::Xsel => "xsel"@,
            Backend::Xclip => "xclip"@,
        }
    }

    pub open spec fn args_spec(self) -> Seq<Seq<char>> {
        match self {
            Backend::Xsel => seq!["-b"@, "-i"@],
            Backend::Xclip => seq!["-selection"@, "c"@],
        }
    }

    /// The name of the program.
    pub fn program(&self) -> (r: String)
        ensures
            r@ == self.program_spec(),
    {
        match self {
            Backend::Xsel => String::from_str("xsel"),
            Backend::Xclip => String::from_str("xclip"),
        }
    }

    /// The arguments that it is always called with.
    pub fn args(&self) -> (r: Vec<String>)
        ensures
            views(r@) == self.args_spec(),
    {
        let mut r: Vec<String> = Vec::new();
        match self {
            Backend::Xsel => {
                r.push(String::from_str("-b"));
                r.push(String::from_str("-i"));
            },
            Backend::Xclip => {
                r.push(String::from_str("-selection"));
                r.push(String::from_str("c"));
            },
        }
        proof {
            assert(views(r@) =~= self.args_spec());
        }
        r
    }
}

/// A program with its arguments, to be spawned.
pub struct CommandLine {
    pub program: String,
    pub args: Vec<String>,
}

/// The two processes of a copy: `producer` writes the text on its standard
/// output, which is the standard input of `consumer`.
pub struct Pipeline {
    pub producer: CommandLine,
    pub consumer: CommandLine,
}

/// The clipboard program chosen on this host, with its arguments.
pub struct Clipboard {
    cmd: String,
    args: Vec<String>,
}

impl Clipboard {
    pub closed spec fn spec_cmd(&self) -> Seq<char> {
        self.cmd@
    }

    pub closed spec fn spec_args(&self) -> Seq<Seq<char>> {
        views(self.args@)
    }

    /// This clipboard calls the program of `b` with the arguments of `b`.
    pub open spec fn is_backend(&self, b: Backend) -> bool {
        self.spec_cmd() == b.program_spec() && self.spec_args() == b.args_spec()
    }

    /// Chooses the clipboard program from what a probe of the search path
    /// found: `xsel` where it is there, else `xclip` where that is there,
    /// else none.
    pub fn new(xsel_found: bool, xclip_found: bool) -> (r: Option<Clipboard>)
        ensures
            r is Some <==> xsel_found || xclip_found,
            xsel_found ==> r->0.is_backend(Backend::Xsel),
            !xsel_found && xclip_found ==> r->0.is_backend(Backend::Xclip),
    {
        if xsel_found {
            Some(Clipboard::from_backend(Backend::Xsel))
        } else if xclip_found {
            Some(Clipboard::from_backend(Backend::Xclip))
        } else {
            None
        }
    }

    /// The clipboard that calls the program of `b`.
    pub fn from_backend(b: Backend) -> (r: Clipboard)
        ensures
            r.is_backend(b),
    {
        Clipboard { cmd: b.program(), args: b.args() }
    }

    /// The name of the program.
    pub fn cmd(&self) -> (r: &str)
        ensures
            r@ == self.spec_cmd(),
    {
        self.cmd.as_str()
    }

    /// The arguments of the program.
    pub fn args(&self) -> (r: &Vec<String>)
        ensures
            views(r@) == self.spec_args(),
    {
        &self.args
    }

    /// The processes that copy `input` to the clipboard: `echo -n input`,
    /// whose output, without a trailing newline, is piped into the clipboard
    /// program called with its arguments.
    pub fn run(self, input: String) -> (r: Pipeline)
        ensures
            r.producer.program@ == "echo"@,
            views(r.producer.args@) == seq!["-n"@, input@],
            r.consumer.program@ == self.spec_cmd(),
            views(r.consumer.args@) == self.spec_args(),
    {
        let mut echo_args: Vec<String> = Vec::new();
        echo_args.push(String::from_str("-n"));
        echo_args.push(input);
        proof {
            assert(views(echo_args@) =~= seq!["-n"@, input@]);
        }
        Pipeline {
            producer: CommandLine { program: String::from_str("echo"), args: echo_args },
            consumer: CommandLine { program: self.cmd, args: self.args },
        }
    }
}

} // verus!
