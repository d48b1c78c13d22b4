use vstd::prelude::*;

verus! {

/// Stands between the name and the value of a variable.
pub const KEY_VALUE_SEP: &'static str = "||";

/// Stands after each variable.
pub const PAIR_SEP: &'static str = ";;";

/// Stands before the first variable and after the last one.
pub const MARKER: &'static str = "@@";

/// What the three literals are made of.
pub proof fn lemma_keys()
    ensures
        KEY_VALUE_SEP@ == seq!['|', '|'],
        PAIR_SEP@ == seq![';', ';'],
        MARKER@ == seq!['@', '@'],
{
    reveal_strlit("||");
    reveal_strlit(";;");
    reveal_strlit("@@");
    assert(KEY_VALUE_SEP@ =~= seq!['|', '|']);
    assert(PAIR_SEP@ =~= seq![';', ';']);
    assert(MARKER@ =~= seq!['@', '@']);
}

} // verus!
