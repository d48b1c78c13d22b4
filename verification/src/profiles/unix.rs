use crate::error::Error;
use crate::extractor::texts;
use crate::profiles::{candidate_views, Candidate, CandidateView};
use crate::text::{chars_of, pieces, split, stands_at, string_of, views};
use vstd::prelude::*;
use vstd::string::*;

verus! {

/// The file that lists the shells of a POSIX-like system.
pub const SHELLS_FILE_PATH: &'static str = "/etc/shells";

/// What reading the file that lists the shells gave.
pub enum Listing {
    /// There is no such file.
    Missing,
    /// The file could not be read.
    Unreadable(std::io::Error),
    /// What the file holds.
    Content(String),
}

/// Whether the last part of `path` is `name`.
pub open spec fn is_last_part(path: Seq<char>, name: Seq<char>) -> bool {
    ||| path == name
    ||| {
        &&& path.len() > name.len()
        &&& path[path.len() - name.len() - 1] == '/'
        &&& path.subrange(path.len() - name.len(), path.len() as int) == name
    }
}

/// Whether the shell at `path` is one of the C shells, which know no login option.
pub open spec fn is_c_shell(path: Seq<char>) -> bool {
    is_last_part(path, "tcsh"@) || is_last_part(path, "csh"@)
}

/// The arguments that make the shell at `path` run a command with the variables of an
/// interactive login: a shell that is not on a terminal is told to act as if it were.
pub open spec fn shell_args(path: Seq<char>, is_term: bool) -> Seq<Seq<char>> {
    if is_c_shell(path) {
        if is_term {
            seq!["-c"@]
        } else {
            seq!["-ic"@]
        }
    } else {
        if is_term {
            seq!["-l"@, "-c"@]
        } else {
            seq!["-i"@, "-l"@, "-c"@]
        }
    }
}

/// Whether a line of the file names a shell: it is not empty and no comment.
pub open spec fn names_shell(line: Seq<char>) -> bool {
    line.len() > 0 && line[0] != '#'
}

/// The shells that the lines name, in their order.
pub open spec fn listed(lines: Seq<Seq<char>>, is_term: bool) -> Seq<CandidateView>
    decreases lines.len(),
{
    if lines.len() == 0 {
        Seq::empty()
    } else {
        let before = listed(lines.drop_last(), is_term);
        let line = lines.last();
        if names_shell(line) {
            before.push(CandidateView { name: None, path: line, args: shell_args(line, is_term) })
        } else {
            before
        }
    }
}

/// Whether the last part of `path` is `name`.
fn ends_in(path: &[char], name: &str) -> (found: bool)
    ensures
        found == is_last_part(path@, name@),
{
    let name = chars_of(name);
    if name.len() == 0 {
        assert(path@.subrange(path@.len() as int, path@.len() as int) =~= name@);
        assert(path@.len() == 0 ==> path@ =~= name@);
        return path.len() == 0 || path[path.len() - 1] == '/';
    }
    if path.len() < name.len() {
        return false;
    }
    let whole = path.len() == name.len();
    let stands = stands_at(path, name.as_slice(), path.len() - name.len());
    proof {
        if whole {
            assert(path@.subrange(0, path@.len() as int) =~= path@);
        }
    }
    if whole {
        stands
    } else {
        stands && path[path.len() - name.len() - 1] == '/'
    }
}

/// The arguments for the shell at `path`.
fn args_for(path: &[char], is_term: bool) -> (args: Vec<String>)
    ensures
        texts(args@) == shell_args(path@, is_term),
{
    let mut args: Vec<String> = Vec::new();
    if ends_in(path, "tcsh") || ends_in(path, "csh") {
        if is_term {
            args.push(String::from_str("-c"));
        } else {
            args.push(String::from_str("-ic"));
        }
    } else {
        if !is_term {
            args.push(String::from_str("-i"));
        }
        args.push(String::from_str("-l"));
        args.push(String::from_str("-c"));
    }
    assert(texts(args@) =~= shell_args(path@, is_term));
    args
}

/// What `get` gives: the file of shells has to be there and readable, and then each of its
/// lines that names a shell gives a candidate.
pub open spec fn got(shells: Listing, is_term: bool, result: Result<Vec<Candidate>, Error>) -> bool {
    match shells {
        Listing::Missing => result matches Err(Error::NotFound(path)) && path@
            == SHELLS_FILE_PATH@,
        Listing::Unreadable(error) => result == Err::<Vec<Candidate>, Error>(Error::Io(error)),
        Listing::Content(text) => result matches Ok(list) && candidate_views(list@) == listed(
            pieces(text@, seq!['\n']),
            is_term,
        ),
    }
}

/// The shells that the file of shells lists, each with the arguments that make it run a
/// command. A line that is empty or begins with `#` names no shell.
pub fn get(shells: Listing, is_term: bool) -> (result: Result<Vec<Candidate>, Error>)
    ensures
        got(shells, is_term, result),
{
    let text = match shells {
        Listing::Missing => {
            return Err(Error::NotFound(String::from_str(SHELLS_FILE_PATH)));
        },
        Listing::Unreadable(error) => {
            return Err(Error::Io(error));
        },
        Listing::Content(text) => text,
    };
    let chars = chars_of(text.as_str());
    let mut newline: Vec<char> = Vec::new();
    newline.push('\n');
    assert(newline@ =~= seq!['\n']);
    let lines = split(chars.as_slice(), newline.as_slice());
    let ghost all = views(lines@);
    let mut list: Vec<Candidate> = Vec::new();
    let mut at: usize = 0;
    assert(candidate_views(list@) =~= Seq::empty());
    while at < lines.len()
        invariant
            at <= lines@.len(),
            all == views(lines@),
            candidate_views(list@) == listed(all.take(at as int), is_term),
        decreases lines@.len() - at,
    {
        let line = lines[at].as_slice();
        proof {
            assert(all[at as int] == line@);
            assert(all.take(at + 1).drop_last() =~= all.take(at as int));
            assert(all.take(at + 1).last() == line@);
        }
        if line.len() > 0 && line[0] != '#' {
            let ghost before = list@;
            let candidate = Candidate {
                name: None,
                path: string_of(line),
                args: args_for(line, is_term),
            };
            list.push(candidate);
            assert(candidate_views(list@) =~= candidate_views(before).push(candidate@));
        }
        at += 1;
    }
    assert(all.take(at as int) =~= all);
    Ok(list)
}

} // verus!
