//! The command tree and its builder.
//!
//! A line of input, split on single spaces, is parsed into a [`ShellCmd`]
//! tree. Operators are single-character tokens, scanned in a fixed priority
//! order: `;` binds loosest, then `|`, then `>`, then `<`. The builder splits
//! at the first occurrence of the highest-priority operator present and
//! recurses on both sides; redirection operators consume the token after them
//! as a file name and open it at build time.

use vstd::prelude::*;
use vstd::string::StrSliceExecFns;

use crate::sys;

verus! {

/// A token is the one-character symbol `c`.
pub open spec fn is_sym(t: Seq<char>, c: char) -> bool {
    t.len() == 1 && t[0] == c
}

/// A token is the word `cd`.
pub open spec fn is_cd_word(t: Seq<char>) -> bool {
    t.len() == 2 && t[0] == 'c' && t[1] == 'd'
}

/// A token is one of the four operators.
pub open spec fn is_operator(t: Seq<char>) -> bool {
    is_sym(t, ';') || is_sym(t, '|') || is_sym(t, '>') || is_sym(t, '<')
}

/// A blank input line: exactly one token, and it is empty.
pub open spec fn is_blank(t: Seq<Seq<char>>) -> bool {
    t.len() == 1 && t[0].len() == 0
}

/// The character sequences of a sequence of tokens.
pub open spec fn toks(args: Seq<String>) -> Seq<Seq<char>> {
    args.map_values(|s: String| s@)
}

/// Index of the first token equal to the symbol `c`, or `t.len()` if none
/// occurs.
pub open spec fn first_sym(t: Seq<Seq<char>>, c: char) -> nat
    decreases t.len(),
{
    if t.len() == 0 {
        0
    } else if is_sym(t[0], c) {
        0
    } else {
        1 + first_sym(t.drop_first(), c)
    }
}

/// Some token equals the symbol `c`.
pub open spec fn has_sym(t: Seq<Seq<char>>, c: char) -> bool {
    first_sym(t, c) < t.len()
}

/// `first_sym` is pinned down by the position of the first occurrence: if no
/// token before `k` is the symbol, and `k` is either the symbol's position or
/// the length, then `first_sym` equals `k`.
pub proof fn lemma_first_sym_is(t: Seq<Seq<char>>, c: char, k: int)
    requires
        0 <= k <= t.len(),
        forall|j: int| 0 <= j < k ==> !is_sym(#[trigger] t[j], c),
        k < t.len() ==> is_sym(t[k], c),
    ensures
        first_sym(t, c) == k,
    decreases t.len(),
{
    if t.len() == 0 {
    } else if is_sym(t[0], c) {
        assert(t[0] == t[0 as int]);
    } else {
        let t2 = t.drop_first();
        assert(forall|j: int| 0 <= j < k - 1 ==> #[trigger] t2[j] == t[j + 1]);
        if k - 1 < t2.len() {
            assert(t2[k - 1] == t[k]);
        }
        lemma_first_sym_is(t2, c, k - 1);
    }
}

/// The parsed form of one input line.
///
/// `Redir` owns the descriptor opened for its target file; `Exec` holds the
/// argument vector of the program to run; `List` runs its left side to
/// completion before its right side; `Pipe` runs both sides concurrently
/// with the left's standard output fed to the right's standard input.
#[derive(Debug)]
pub enum ShellCmd {
    Nothing,
    Exec { args: Vec<String> },
    Redir { command: Box<ShellCmd>, descriptor: rustix::fd::OwnedFd, readmode: bool },
    Pipe { left: Box<ShellCmd>, right: Box<ShellCmd> },
    Chdir { path: String },
    List { left: Box<ShellCmd>, right: Box<ShellCmd> },
}

/// A redirection target could not be opened; `code` is the raw `errno`
/// value the open call reported.
#[derive(Debug, PartialEq, Eq, Structural)]
pub struct BuildError {
    pub code: i32,
}

/// The command tree `c` is the parse of the token sequence `t`: the shape
/// the builder returns whenever every open it attempts succeeds. Descriptors
/// held by `Redir` nodes are not constrained; everything else is.
pub open spec fn is_build_of(c: ShellCmd, t: Seq<Seq<char>>) -> bool
    decreases t.len(),
{
    if is_blank(t) {
        c is Nothing
    } else if t.len() == 2 && is_cd_word(t[0]) {
        c matches ShellCmd::Chdir { path } && path@ == t[1]
    } else if has_sym(t, ';') {
        let i = first_sym(t, ';') as int;
        c matches ShellCmd::List { left, right } && is_build_of(*left, t.take(i))
            && is_build_of(*right, t.skip(i + 1))
    } else if has_sym(t, '|') {
        let i = first_sym(t, '|') as int;
        c matches ShellCmd::Pipe { left, right } && is_build_of(*left, t.take(i))
            && is_build_of(*right, t.skip(i + 1))
    } else if has_sym(t, '>') {
        let i = first_sym(t, '>') as int;
        c matches ShellCmd::Redir { command, readmode, .. } && readmode == false
            && is_build_of(*command, t.take(i))
    } else if has_sym(t, '<') {
        let i = first_sym(t, '<') as int;
        c matches ShellCmd::Redir { command, readmode, .. } && readmode == true
            && is_build_of(*command, t.take(i))
    } else {
        c matches ShellCmd::Exec { args } && toks(args@) == t
    }
}

/// Every redirection operator the builder would split at is followed by a
/// file-name token. On sequences outside this condition the build is not
/// defined (the original grammar presupposes the file name).
pub open spec fn targets_ok(t: Seq<Seq<char>>) -> bool
    decreases t.len(),
{
    if is_blank(t) {
        true
    } else if t.len() == 2 && is_cd_word(t[0]) {
        true
    } else if has_sym(t, ';') {
        let i = first_sym(t, ';') as int;
        targets_ok(t.take(i)) && targets_ok(t.skip(i + 1))
    } else if has_sym(t, '|') {
        let i = first_sym(t, '|') as int;
        targets_ok(t.take(i)) && targets_ok(t.skip(i + 1))
    } else if has_sym(t, '>') {
        let i = first_sym(t, '>') as int;
        i + 1 < t.len() && targets_ok(t.take(i))
    } else if has_sym(t, '<') {
        let i = first_sym(t, '<') as int;
        i + 1 < t.len() && targets_ok(t.take(i))
    } else {
        true
    }
}

/// Building the sequence `t` opens a redirection target somewhere in the
/// tree. Only such sequences can make the builder fail.
pub open spec fn reaches_open(t: Seq<Seq<char>>) -> bool
    decreases t.len(),
{
    if is_blank(t) {
        false
    } else if t.len() == 2 && is_cd_word(t[0]) {
        false
    } else if has_sym(t, ';') {
        let i = first_sym(t, ';') as int;
        reaches_open(t.take(i)) || reaches_open(t.skip(i + 1))
    } else if has_sym(t, '|') {
        let i = first_sym(t, '|') as int;
        reaches_open(t.take(i)) || reaches_open(t.skip(i + 1))
    } else if has_sym(t, '>') {
        true
    } else if has_sym(t, '<') {
        true
    } else {
        false
    }
}

/// Decides whether a token is the one-character symbol `c`.
fn token_is_sym(t: &String, c: char) -> (b: bool)
    ensures
        b == is_sym(t@, c),
{
    let s: &str = t.as_str();
    s.unicode_len() == 1 && s.get_char(0) == c
}

/// Decides whether a token is the word `cd`.
fn token_is_cd(t: &String) -> (b: bool)
    ensures
        b == is_cd_word(t@),
{
    let s: &str = t.as_str();
    s.unicode_len() == 2 && s.get_char(0) == 'c' && s.get_char(1) == 'd'
}

/// Decides whether a token is empty.
fn token_is_empty(t: &String) -> (b: bool)
    ensures
        b == (t@.len() == 0),
{
    t.as_str().unicode_len() == 0
}

/// First position in `args[lo..hi]` holding the symbol `c`.
fn find_sym(args: &[String], lo: usize, hi: usize, c: char) -> (r: Option<usize>)
    requires
        lo <= hi <= args@.len(),
    ensures
        match r {
            Some(i) => lo <= i < hi && is_sym(args@[i as int]@, c) && forall|j: int|
                lo <= j < i ==> !is_sym(#[trigger] args@[j]@, c),
            None => forall|j: int| lo <= j < hi ==> !is_sym(#[trigger] args@[j]@, c),
        },
{
    let mut i: usize = lo;
    while i < hi
        invariant
            lo <= i <= hi <= args@.len(),
            forall|j: int| lo <= j < i ==> !is_sym(#[trigger] args@[j]@, c),
        decreases hi - i,
    {
        if token_is_sym(&args[i], c) {
            return Some(i);
        }
        i = i + 1;
    }
    None
}

/// Builds the tree for the token range `args[lo..hi]`.
fn build_range(args: &[String], lo: usize, hi: usize) -> (r: Result<ShellCmd, BuildError>)
    requires
        lo <= hi <= args@.len(),
        targets_ok(toks(args@).subrange(lo as int, hi as int)),
    ensures
        ({
            let t = toks(args@).subrange(lo as int, hi as int);
            &&& (r matches Ok(c) ==> is_build_of(c, t))
            &&& (!reaches_open(t) ==> r is Ok)
            &&& (r is Err ==> reaches_open(t))
        }),
    decreases hi - lo,
{
    let ghost t = toks(args@).subrange(lo as int, hi as int);
    proof {
        assert(forall|j: int| 0 <= j < t.len() ==> #[trigger] t[j] == args@[lo + j]@);
    }
    // A blank line: one empty token.
    if hi - lo == 1 && token_is_empty(&args[lo]) {
        return Ok(ShellCmd::Nothing);
    }
    // `cd` with exactly one argument changes the interpreter's directory.
    if hi - lo == 2 && token_is_cd(&args[lo]) {
        let path = args[lo + 1].clone();
        return Ok(ShellCmd::Chdir { path });
    }
    if let Some(i) = find_sym(args, lo, hi, ';') {
        proof {
            lemma_first_sym_is(t, ';', i - lo);
            assert(t.take(i - lo) =~= toks(args@).subrange(lo as int, i as int));
            assert(t.skip(i - lo + 1) =~= toks(args@).subrange(i + 1, hi as int));
        }
        let left = build_range(args, lo, i)?;
        let right = build_range(args, i + 1, hi)?;
        return Ok(ShellCmd::List { left: Box::new(left), right: Box::new(right) });
    }
    proof {
        lemma_first_sym_is(t, ';', t.len() as int);
    }
    if let Some(i) = find_sym(args, lo, hi, '|') {
        proof {
            lemma_first_sym_is(t, '|', i - lo);
            assert(t.take(i - lo) =~= toks(args@).subrange(lo as int, i as int));
            assert(t.skip(i - lo + 1) =~= toks(args@).subrange(i + 1, hi as int));
        }
        let left = build_range(args, lo, i)?;
        let right = build_range(args, i + 1, hi)?;
        return Ok(ShellCmd::Pipe { left: Box::new(left), right: Box::new(right) });
    }
    proof {
        lemma_first_sym_is(t, '|', t.len() as int);
    }
    if let Some(i) = find_sym(args, lo, hi, '>') {
        proof {
            lemma_first_sym_is(t, '>', i - lo);
            assert(t.take(i - lo) =~= toks(args@).subrange(lo as int, i as int));
        }
        let command = build_range(args, lo, i)?;
        return match sys::open_descriptor_write(&args[i + 1]) {
            Ok(descriptor) => Ok(
                ShellCmd::Redir {
                    command: Box::new(command),
                    descriptor,
                    readmode: false,
                },
            ),
            Err(code) => Err(BuildError { code }),
        };
    }
    proof {
        lemma_first_sym_is(t, '>', t.len() as int);
    }
    if let Some(i) = find_sym(args, lo, hi, '<') {
        proof {
            lemma_first_sym_is(t, '<', i - lo);
            assert(t.take(i - lo) =~= toks(args@).subrange(lo as int, i as int));
        }
        let command = build_range(args, lo, i)?;
        return match sys::open_descriptor_read(&args[i + 1]) {
            Ok(descriptor) => Ok(
                ShellCmd::Redir {
                    command: Box::new(command),
                    descriptor,
                    readmode: true,
                },
            ),
            Err(code) => Err(BuildError { code }),
        };
    }
    proof {
        lemma_first_sym_is(t, '<', t.len() as int);
    }
    // No special form and no operator: the whole range is an argument vector.
    let mut v: Vec<String> = Vec::new();
    let mut idx: usize = lo;
    while idx < hi
        invariant
            lo <= idx <= hi <= args@.len(),
            v@.len() == idx - lo,
            forall|j: int| 0 <= j < v@.len() ==> #[trigger] v@[j] == args@[lo + j],
        decreases hi - idx,
    {
        v.push(args[idx].clone());
        idx = idx + 1;
    }
    proof {
        assert(toks(v@) =~= t);
    }
    Ok(ShellCmd::Exec { args: v })
}

/// Decides `targets_ok` for the token range `args[lo..hi]`.
fn targets_range(args: &[String], lo: usize, hi: usize) -> (b: bool)
    requires
        lo <= hi <= args@.len(),
    ensures
        b == targets_ok(toks(args@).subrange(lo as int, hi as int)),
    decreases hi - lo,
{
    let ghost t = toks(args@).subrange(lo as int, hi as int);
    proof {
        assert(forall|j: int| 0 <= j < t.len() ==> #[trigger] t[j] == args@[lo + j]@);
    }
    if hi - lo == 1 && token_is_empty(&args[lo]) {
        return true;
    }
    if hi - lo == 2 && token_is_cd(&args[lo]) {
        return true;
    }
    if let Some(i) = find_sym(args, lo, hi, ';') {
        proof {
            lemma_first_sym_is(t, ';', i - lo);
            assert(t.take(i - lo) =~= toks(args@).subrange(lo as int, i as int));
            assert(t.skip(i - lo + 1) =~= toks(args@).subrange(i + 1, hi as int));
        }
        return targets_range(args, lo, i) && targets_range(args, i + 1, hi);
    }
    proof {
        lemma_first_sym_is(t, ';', t.len() as int);
    }
    if let Some(i) = find_sym(args, lo, hi, '|') {
        proof {
            lemma_first_sym_is(t, '|', i - lo);
            assert(t.take(i - lo) =~= toks(args@).subrange(lo as int, i as int));
            assert(t.skip(i - lo + 1) =~= toks(args@).subrange(i + 1, hi as int));
        }
        return targets_range(args, lo, i) && targets_range(args, i + 1, hi);
    }
    proof {
        lemma_first_sym_is(t, '|', t.len() as int);
    }
    if let Some(i) = find_sym(args, lo, hi, '>') {
        proof {
            lemma_first_sym_is(t, '>', i - lo);
            assert(t.take(i - lo) =~= toks(args@).subrange(lo as int, i as int));
        }
        return i + 1 < hi && targets_range(args, lo, i);
    }
    proof {
        lemma_first_sym_is(t, '>', t.len() as int);
    }
    if let Some(i) = find_sym(args, lo, hi, '<') {
        proof {
            lemma_first_sym_is(t, '<', i - lo);
            assert(t.take(i - lo) =~= toks(args@).subrange(lo as int, i as int));
        }
        return i + 1 < hi && targets_range(args, lo, i);
    }
    proof {
        lemma_first_sym_is(t, '<', t.len() as int);
    }
    true
}

/// Decides whether [`ShellCmd::new`] is defined on `args`: every redirection
/// operator the builder would split at is followed by a file-name token.
pub fn targets_present(args: &[String]) -> (b: bool)
    ensures
        b == targets_ok(toks(args@)),
{
    proof {
        assert(toks(args@).subrange(0, args@.len() as int) =~= toks(args@));
    }
    targets_range(args, 0, args.len())
}

impl ShellCmd {
    /// Parses a token sequence into a command tree.
    ///
    /// The grammar: a single empty token is a blank line; `cd` with exactly
    /// one argument is a directory change; otherwise the sequence is split
    /// at the first `;`, else the first `|`, else the first `>`, else the
    /// first `<`; with no operator present it is a plain argument vector.
    /// A redirection opens its target file here, and the only failure is an
    /// open that the system refuses.
    pub fn new(args: &[String]) -> (r: Result<ShellCmd, BuildError>)
        requires
            targets_ok(toks(args@)),
        ensures
            r matches Ok(c) ==> is_build_of(c, toks(args@)),
            !reaches_open(toks(args@)) ==> r is Ok,
            r is Err ==> reaches_open(toks(args@)),
    {
        proof {
            assert(toks(args@).subrange(0, args@.len() as int) =~= toks(args@));
        }
        build_range(args, 0, args.len())
    }
}

} // verus!
