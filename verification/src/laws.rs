//! Laws of the builder's grammar, proved once and for all token sequences.

use vstd::prelude::*;

use crate::command::{
    has_sym, is_blank, is_build_of, is_cd_word, is_operator, is_sym, lemma_first_sym_is, toks,
    ShellCmd,
};

verus! {

/// If some token of `t` equals the symbol `c`, then `first_sym` lands
/// inside `t`.
pub proof fn lemma_has_sym(t: Seq<Seq<char>>, c: char)
    requires
        exists|i: int| 0 <= i < t.len() && is_sym(#[trigger] t[i], c),
    ensures
        has_sym(t, c),
    decreases t.len(),
{
    let i = choose|i: int| 0 <= i < t.len() && is_sym(#[trigger] t[i], c);
    if is_sym(t[0], c) {
    } else {
        assert(t.drop_first()[i - 1] == t[i]);
        lemma_has_sym(t.drop_first(), c);
    }
}

/// A sequence holding no operator token, other than the blank line and the
/// two-token `cd` form, parses to an `Execute` node whose arguments are the
/// input tokens unchanged. (The blank line itself parses to `Nothing`, so it
/// stands outside this law.)
pub proof fn lemma_plain_execute(c: ShellCmd, t: Seq<Seq<char>>)
    requires
        is_build_of(c, t),
        forall|j: int| 0 <= j < t.len() ==> !is_operator(#[trigger] t[j]),
        !is_blank(t),
        !(t.len() >= 1 && is_cd_word(t[0])),
    ensures
        c matches ShellCmd::Exec { args } && toks(args@) == t,
{
    lemma_first_sym_is(t, ';', t.len() as int);
    lemma_first_sym_is(t, '|', t.len() as int);
    lemma_first_sym_is(t, '>', t.len() as int);
    lemma_first_sym_is(t, '<', t.len() as int);
}

/// Splitting at `;`: when neither side holds a `;` of its own, the parse of
/// `l + [";"] + r` is a `List` whose sides are the parses of `l` and `r`.
/// (The one sequence of this shape that parses otherwise is `["cd", ";"]`,
/// which the two-token `cd` form captures first; it is left out here.)
pub proof fn lemma_sequence_split(c: ShellCmd, l: Seq<Seq<char>>, r: Seq<Seq<char>>)
    requires
        is_build_of(c, l + seq![seq![';']] + r),
        forall|j: int| 0 <= j < l.len() ==> !is_sym(#[trigger] l[j], ';'),
        forall|j: int| 0 <= j < r.len() ==> !is_sym(#[trigger] r[j], ';'),
        !(l.len() == 1 && is_cd_word(l[0]) && r.len() == 0),
    ensures
        c matches ShellCmd::List { left, right } && is_build_of(*left, l) && is_build_of(
            *right,
            r,
        ),
{
    let t = l + seq![seq![';']] + r;
    assert(t[l.len() as int] == seq![';']);
    assert(is_sym(t[l.len() as int], ';'));
    assert(forall|j: int| 0 <= j < l.len() ==> #[trigger] t[j] == l[j]);
    lemma_first_sym_is(t, ';', l.len() as int);
    assert(!is_blank(t));
    assert(t.take(l.len() as int) =~= l);
    assert(t.skip(l.len() as int + 1) =~= r);
}

/// Priority of `;` over `|`: a sequence holding both operators parses to a
/// `List` at the top, never a `Pipe`.
pub proof fn lemma_sequence_binds_loosest(c: ShellCmd, t: Seq<Seq<char>>)
    requires
        is_build_of(c, t),
        exists|i: int| 0 <= i < t.len() && is_sym(#[trigger] t[i], ';'),
        exists|i: int| 0 <= i < t.len() && is_sym(#[trigger] t[i], '|'),
    ensures
        c is List,
{
    lemma_has_sym(t, ';');
    let i = choose|i: int| 0 <= i < t.len() && is_sym(#[trigger] t[i], ';');
    assert(!is_blank(t));
    if t.len() == 2 && is_cd_word(t[0]) {
        let j = choose|j: int| 0 <= j < t.len() && is_sym(#[trigger] t[j], '|');
        assert(false);
    }
}

/// `cd` followed by exactly one token parses to a directory change holding
/// that token as its path.
pub proof fn lemma_cd_two_tokens(c: ShellCmd, t: Seq<Seq<char>>)
    requires
        is_build_of(c, t),
        t.len() == 2,
        is_cd_word(t[0]),
    ensures
        c matches ShellCmd::Chdir { path } && path@ == t[1],
{
}

/// `cd` with zero or more than one following token is no special form: with
/// no operator among the tokens it parses to an ordinary `Execute` node.
pub proof fn lemma_cd_other_arity(c: ShellCmd, t: Seq<Seq<char>>)
    requires
        is_build_of(c, t),
        t.len() >= 1,
        is_cd_word(t[0]),
        t.len() != 2,
        forall|j: int| 0 <= j < t.len() ==> !is_operator(#[trigger] t[j]),
    ensures
        c matches ShellCmd::Exec { args } && toks(args@) == t,
{
    lemma_first_sym_is(t, ';', t.len() as int);
    lemma_first_sym_is(t, '|', t.len() as int);
    lemma_first_sym_is(t, '>', t.len() as int);
    lemma_first_sym_is(t, '<', t.len() as int);
}

} // verus!
