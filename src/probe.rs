//! Probing the executable search path for a program.
//!
//! The search path is a list of directories separated by `:`. A program is
//! on it when a file of its name stands in one of those directories. The
//! caller checks each candidate file that [`search_candidates`] lists and
//! hands what it found to [`is_program_in_path`].
use vstd::prelude::*;

use crate::views;

verus! {

pub open spec fn list_sep() -> char {
    ':'
}

/// The entries of a `:`-separated list, in order, empty ones included:
/// an empty list has one empty entry.
pub open spec fn split_spec(s: Seq<char>) -> Seq<Seq<char>>
    decreases s.len(),
{
    if s.len() == 0 {
        seq![Seq::<char>::empty()]
    } else {
        let rest = split_spec(s.drop_last());
        if s.last() == list_sep() {
            rest.push(Seq::<char>::empty())
        } else {
            rest.update(rest.len() - 1, rest.last().push(s.last()))
        }
    }
}

/// The file that stands for `program` in the directory `dir`.
pub open spec fn candidate_spec(dir: Seq<char>, program: Seq<char>) -> Seq<char> {
    dir + seq!['/'] + program
}

/// The files to look for, one per entry of the search path, in order; none
/// where the search path is not set.
pub open spec fn candidates_spec(path_var: Option<Seq<char>>, program: Seq<char>) -> Seq<
    Seq<char>,
> {
    match path_var {
        Some(pv) => split_spec(pv).map_values(|d: Seq<char>| candidate_spec(d, program)),
        None => Seq::empty(),
    }
}

pub open spec fn not_found_message(program: Seq<char>) -> Seq<char> {
    program + " not found !"@
}

/// The outcome of a probe for `program`, where `found[i]` tells whether the
/// `i`-th candidate file exists: the program's name where one does, else a
/// message that names it.
pub open spec fn probe_spec(program: Seq<char>, found: Seq<bool>) -> Result<Seq<char>, Seq<char>> {
    if found.contains(true) {
        Ok(program)
    } else {
        Err(not_found_message(program))
    }
}

/// `dir` is an entry of the search path `path_var`.
pub open spec fn on_search_path(path_var: Option<Seq<char>>, dir: Seq<char>) -> bool {
    match path_var {
        Some(pv) => split_spec(pv).contains(dir),
        None => false,
    }
}

pub proof fn lemma_split_len(s: Seq<char>)
    ensures
        split_spec(s).len() >= 1,
    decreases s.len(),
{
    if s.len() > 0 {
        lemma_split_len(s.drop_last());
    }
}

/// The entries of the `:`-separated list `s`.
pub fn split_search_path(s: &str) -> (r: Vec<String>)
    ensures
        views(r@) == split_spec(s@),
{
    let n = s.unicode_len();
    let mut done: Vec<String> = Vec::new();
    let mut start: usize = 0;
    let mut i: usize = 0;
    proof {
        assert(s@.subrange(0, 0) =~= Seq::<char>::empty());
        assert(views(done@).push(s@.subrange(0, 0)) =~= split_spec(s@.subrange(0, 0)));
    }
    while i < n
        invariant
            n == s@.len(),
            start <= i <= n,
            views(done@).push(s@.subrange(start as int, i as int)) == split_spec(
                s@.subrange(0, i as int),
            ),
        decreases n - i,
    {
        let c = s.get_char(i);
        let ghost pre = s@.subrange(0, i + 1);
        proof {
            assert(pre.drop_last() =~= s@.subrange(0, i as int));
            assert(pre.last() == c);
            lemma_split_len(pre.drop_last());
        }
        if c == ':' {
            let seg = String::from_str(s.substring_char(start, i));
            let ghost before = done@;
            done.push(seg);
            start = i + 1;
            proof {
                assert(s@.subrange(start as int, i + 1) =~= Seq::<char>::empty());
                assert(views(done@) =~= views(before).push(seg@));
                assert(views(done@).push(s@.subrange(start as int, i + 1)) =~= split_spec(pre));
            }
        } else {
            proof {
                let rest = split_spec(pre.drop_last());
                assert(s@.subrange(start as int, i + 1) =~= s@.subrange(start as int, i as int).push(c));
                assert(views(done@).push(s@.subrange(start as int, i + 1)) =~= rest.update(
                    rest.len() - 1,
                    rest.last().push(c),
                ));
            }
        }
        i = i + 1;
    }
    let last = String::from_str(s.substring_char(start, n));
    let ghost before = done@;
    done.push(last);
    proof {
        assert(s@.subrange(0, n as int) =~= s@);
        assert(views(done@) =~= views(before).push(last@));
    }
    done
}

/// The file that stands for `program` in the directory `dir`.
fn candidate(dir: &str, program: &str) -> (r: String)
    ensures
        r@ == candidate_spec(dir@, program@),
{
    let mut r = String::from_str(dir);
    r.append("/");
    proof {
        reveal_strlit("/");
    }
    r.append(program);
    r
}

/// The files to look for when probing the search path `path_var` (its value,
/// where it is set) for `program`: one per entry of the search path, in order.
pub fn search_candidates(path_var: Option<&str>, program: &str) -> (r: Vec<String>)
    ensures
        views(r@) == candidates_spec(
            match path_var {
                Some(pv) => Some(pv@),
                None => None,
            },
            program@,
        ),
{
    match path_var {
        None => {
            let r: Vec<String> = Vec::new();
            proof {
                assert(views(r@) =~= Seq::<Seq<char>>::empty());
            }
            r
        },
        Some(pv) => {
            let dirs = split_search_path(pv);
            let ghost want = split_spec(pv@).map_values(
                |d: Seq<char>| candidate_spec(d, program@),
            );
            let mut r: Vec<String> = Vec::new();
            let mut i: usize = 0;
            while i < dirs.len()
                invariant
                    views(dirs@) == split_spec(pv@),
                    want == split_spec(pv@).map_values(
                        |d: Seq<char>| candidate_spec(d, program@),
                    ),
                    i <= dirs@.len(),
                    views(r@) == want.subrange(0, i as int),
                decreases dirs@.len() - i,
            {
                let c = candidate(dirs[i].as_str(), program);
                let ghost before = r@;
                r.push(c);
                proof {
                    assert(dirs@[i as int]@ == views(dirs@)[i as int]);
                    assert(views(r@) =~= views(before).push(c@));
                    assert(views(r@) =~= want.subrange(0, i + 1));
                }
                i = i + 1;
            }
            proof {
                assert(want.subrange(0, i as int) =~= want);
            }
            r
        },
    }
}

/// The outcome of probing for `program`, where `found[i]` tells whether the
/// `i`-th file that [`search_candidates`] listed exists: `Ok` with the
/// program's name where any does, else `Err` with a message naming it.
pub fn is_program_in_path(program: &str, found: &Vec<bool>) -> (r: Result<String, String>)
    ensures
        match r {
            Ok(p) => probe_spec(program@, found@) == Ok::<Seq<char>, Seq<char>>(p@),
            Err(e) => probe_spec(program@, found@) == Err::<Seq<char>, Seq<char>>(e@),
        },
{
    let mut i: usize = 0;
    while i < found.len()
        invariant
            i <= found@.len(),
            forall|j: int| 0 <= j < i ==> !found@[j],
        decreases found@.len() - i,
    {
        if found[i] {
            proof {
                assert(found@.contains(true)) by {
                    assert(found@[i as int]);
                }
            }
            return Ok(String::from_str(program));
        }
        i = i + 1;
    }
    let mut msg = String::from_str(program);
    msg.append(" not found !");
    Err(msg)
}

/// Probing finds exactly the programs that stand in some directory of the
/// search path: given which files exist (`present`), the probe succeeds and
/// names the program if and only if a directory on the search path holds it.
pub proof fn lemma_probe_finds_present(
    path_var: Option<Seq<char>>,
    program: Seq<char>,
    present: Set<Seq<char>>,
)
    ensures
        ({
            let found = candidates_spec(path_var, program).map_values(
                |c: Seq<char>| present.contains(c),
            );
            if exists|d: Seq<char>|
                on_search_path(path_var, d) && present.contains(candidate_spec(d, program)) {
                probe_spec(program, found) == Ok::<Seq<char>, Seq<char>>(program)
            } else {
                probe_spec(program, found) is Err
            }
        }),
{
    let found = candidates_spec(path_var, program).map_values(
        |c: Seq<char>| present.contains(c),
    );
    if exists|d: Seq<char>|
        on_search_path(path_var, d) && present.contains(candidate_spec(d, program)) {
        let d = choose|d: Seq<char>|
            on_search_path(path_var, d) && present.contains(candidate_spec(d, program));
        let pv = path_var->0;
        let k = choose|k: int| 0 <= k < split_spec(pv).len() && split_spec(pv)[k] == d;
        assert(found[k]);
        assert(found.contains(true));
    } else {
        if found.contains(true) {
            let k = choose|k: int| 0 <= k < found.len() && found[k] == true;
            let pv = path_var->0;
            let d = split_spec(pv)[k];
            assert(on_search_path(path_var, d));
            assert(present.contains(candidate_spec(d, program)));
        }
    }
}

} // verus!
