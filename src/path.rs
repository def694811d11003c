//! Resolution of the path to copy from the working directory and an
//! optional argument.
use vstd::prelude::*;

verus! {

/// Errors of path resolution.
#[derive(Clone, Copy, Debug, PartialEq, Eq, Structural)]
pub enum ResolveError {
    /// The parent was asked for, but the working directory holds no separator.
    NoSeparator,
}

pub open spec fn sep() -> char {
    '/'
}

/// `i` is the position of the last separator in `s`.
pub open spec fn is_last_sep(s: Seq<char>, i: int) -> bool {
    &&& 0 <= i < s.len()
    &&& s[i] == sep()
    &&& forall|j: int| i < j < s.len() ==> s[j] != sep()
}

pub open spec fn has_sep(s: Seq<char>) -> bool {
    exists|i: int| 0 <= i < s.len() && s[i] == sep()
}

/// The directory above `s`: `s` with its last separator and what follows it
/// removed, or the root where that separator is the first character.
pub open spec fn parent_spec(s: Seq<char>) -> Option<Seq<char>> {
    if has_sep(s) {
        let i = choose|i: int| is_last_sep(s, i);
        if i == 0 {
            Some(seq![sep()])
        } else {
            Some(s.subrange(0, i))
        }
    } else {
        None
    }
}

pub open spec fn is_absolute(p: Seq<char>) -> bool {
    p.len() > 0 && p[0] == sep()
}

/// Path joining: an absolute `p` replaces `base`; otherwise `p` is appended,
/// with a separator between the two where `base` is non-empty and does not
/// already end in one.
pub open spec fn join_spec(base: Seq<char>, p: Seq<char>) -> Seq<char> {
    if is_absolute(p) {
        p
    } else if base.len() == 0 || base.last() == sep() {
        base + p
    } else {
        base + seq![sep()] + p
    }
}

pub open spec fn current_token() -> Seq<char> {
    seq!['.']
}

pub open spec fn parent_token() -> Seq<char> {
    seq!['.', '.']
}

/// The path that the working directory `cwd` and the optional argument
/// `arg` resolve to.
pub open spec fn resolve_spec(cwd: Seq<char>, arg: Option<Seq<char>>) -> Result<
    Seq<char>,
    ResolveError,
> {
    match arg {
        None => Ok(cwd),
        Some(a) => if a == current_token() {
            Ok(cwd)
        } else if a == parent_token() {
            match parent_spec(cwd) {
                Some(p) => Ok(p),
                None => Err(ResolveError::NoSeparator),
            }
        } else {
            Ok(join_spec(cwd, a))
        },
    }
}

/// The characters of an optional argument.
pub open spec fn arg_view(arg: Option<&str>) -> Option<Seq<char>> {
    match arg {
        Some(a) => Some(a@),
        None => None,
    }
}

proof fn lemma_last_sep_unique(s: Seq<char>, i: int, k: int)
    requires
        is_last_sep(s, i),
        is_last_sep(s, k),
    ensures
        i == k,
{
}

/// The directory above `s`, or `None` where `s` holds no separator.
pub fn parent_of(s: &str) -> (r: Option<String>)
    ensures
        match r {
            Some(p) => parent_spec(s@) == Some(p@),
            None => parent_spec(s@) is None,
        },
{
    let n = s.unicode_len();
    let mut k: usize = n;
    while k > 0
        invariant
            k <= n,
            n == s@.len(),
            forall|j: int| k <= j < n ==> s@[j] != sep(),
        decreases k,
    {
        if s.get_char(k - 1) == '/' {
            let i: usize = k - 1;
            proof {
                assert(is_last_sep(s@, i as int));
                assert(has_sep(s@));
                let c = choose|c: int| is_last_sep(s@, c);
                lemma_last_sep_unique(s@, i as int, c);
            }
            if i == 0 {
                let root = String::from_str("/");
                proof {
                    reveal_strlit("/");
                    assert(root@ =~= seq![sep()]);
                }
                return Some(root);
            } else {
                return Some(String::from_str(s.substring_char(0, i)));
            }
        }
        k = k - 1;
    }
    None
}

/// `base` joined with `p`: `p` itself where it is absolute, else `p`
/// appended after a separator that is added only where `base` needs one.
pub fn join(base: &str, p: &str) -> (r: String)
    ensures
        r@ == join_spec(base@, p@),
{
    let pn = p.unicode_len();
    if pn > 0 && p.get_char(0) == '/' {
        return String::from_str(p);
    }
    let bn = base.unicode_len();
    let mut r = String::from_str(base);
    if bn > 0 && base.get_char(bn - 1) != '/' {
        r.append("/");
        proof {
            reveal_strlit("/");
        }
    }
    r.append(p);
    r
}

/// Whether `a` is the token `t`, compared character by character.
fn is_token(a: &str, t: &str) -> (r: bool)
    ensures
        r == (a@ == t@),
{
    let n = a.unicode_len();
    if n != t.unicode_len() {
        return false;
    }
    let mut i: usize = 0;
    while i < n
        invariant
            n == a@.len(),
            n == t@.len(),
            i <= n,
            a@.subrange(0, i as int) == t@.subrange(0, i as int),
        decreases n - i,
    {
        if a.get_char(i) != t.get_char(i) {
            return false;
        }
        proof {
            assert(a@.subrange(0, i + 1) =~= a@.subrange(0, i as int).push(a@[i as int]));
            assert(t@.subrange(0, i + 1) =~= t@.subrange(0, i as int).push(t@[i as int]));
        }
        i = i + 1;
    }
    proof {
        assert(a@ =~= a@.subrange(0, n as int));
        assert(t@ =~= t@.subrange(0, n as int));
    }
    true
}

/// The path to copy, from the working directory `cwd` and the optional
/// argument `arg`: `cwd` itself with no argument or with `.`, the parent of
/// `cwd` with `..`, and otherwise `cwd` joined with the argument.
pub fn get_cwd_name(cwd: &str, arg: Option<&str>) -> (r: Result<String, ResolveError>)
    ensures
        match r {
            Ok(p) => resolve_spec(cwd@, arg_view(arg)) == Ok::<Seq<char>, ResolveError>(p@),
            Err(e) => resolve_spec(cwd@, arg_view(arg)) == Err::<Seq<char>, ResolveError>(e),
        },
{
    match arg {
        None => Ok(String::from_str(cwd)),
        Some(a) => {
            proof {
                reveal_strlit(".");
                reveal_strlit("..");
            }
            if is_token(a, ".") {
                proof {
                    assert(a@ =~= current_token());
                }
                Ok(String::from_str(cwd))
            } else if is_token(a, "..") {
                proof {
                    assert(a@ =~= parent_token());
                }
                match parent_of(cwd) {
                    Some(p) => Ok(p),
                    None => Err(ResolveError::NoSeparator),
                }
            } else {
                proof {
                    assert(a@ != current_token()) by {
                        if a@ == current_token() {
                            assert(a@ =~= "."@);
                        }
                    }
                    assert(a@ != parent_token()) by {
                        if a@ == parent_token() {
                            assert(a@ =~= ".."@);
                        }
                    }
                }
                Ok(join(cwd, a))
            }
        },
    }
}

/// With no argument the resolved path is the working directory itself.
pub proof fn lemma_no_arg_is_cwd(cwd: Seq<char>)
    ensures
        resolve_spec(cwd, None) == Ok::<Seq<char>, ResolveError>(cwd),
{
}

/// With the argument `.` the resolved path is the working directory itself.
pub proof fn lemma_dot_is_cwd(cwd: Seq<char>)
    ensures
        resolve_spec(cwd, Some(seq!['.'])) == Ok::<Seq<char>, ResolveError>(cwd),
{
}

/// With the argument `..` the resolved path is the working directory with
/// its last separator and the segment after it removed, wherever that
/// separator is not the first character.
pub proof fn lemma_dotdot_drops_last_segment(cwd: Seq<char>, i: int)
    requires
        is_last_sep(cwd, i),
        i > 0,
    ensures
        resolve_spec(cwd, Some(seq!['.', '.'])) == Ok::<Seq<char>, ResolveError>(
            cwd.subrange(0, i),
        ),
{
    assert(has_sep(cwd));
    assert(seq!['.', '.'].len() != current_token().len());
    let c = choose|c: int| is_last_sep(cwd, c);
    lemma_last_sep_unique(cwd, i, c);
}

/// Any relative argument other than `.` and `..` is appended to the working
/// directory, after a separator where the directory does not end in one.
pub proof fn lemma_relative_arg_is_joined(cwd: Seq<char>, a: Seq<char>)
    requires
        !is_absolute(a),
        a != seq!['.'],
        a != seq!['.', '.'],
    ensures
        resolve_spec(cwd, Some(a)) == Ok::<Seq<char>, ResolveError>(
            if cwd.len() == 0 || cwd.last() == '/' {
                cwd + a
            } else {
                cwd + seq!['/'] + a
            },
        ),
{
}

} // verus!
