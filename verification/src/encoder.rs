use crate::envmap::EnvironmentMap;
use crate::keys::{KEY_VALUE_SEP, MARKER, PAIR_SEP};
use crate::literal::{push_literal, render_bytes};
use vstd::prelude::*;
use vstd::utf8::*;

verus! {

/// A text on the wire: the bytes of its UTF-8 form as a literal array of integers.
pub open spec fn rendered(text: Seq<char>) -> Seq<char> {
    render_bytes(encode_utf8(text))
}

/// A variable on the wire: its name and its value, with the separator between them.
pub open spec fn pair_text(key: Seq<char>, value: Seq<char>) -> Seq<char> {
    rendered(key) + KEY_VALUE_SEP@ + rendered(value)
}

/// The variables on the wire, each followed by the pair separator.
pub open spec fn payload(pairs: Seq<(Seq<char>, Seq<char>)>) -> Seq<char>
    decreases pairs.len(),
{
    if pairs.len() == 0 {
        Seq::empty()
    } else {
        pair_text(pairs[0].0, pairs[0].1) + PAIR_SEP@ + payload(pairs.drop_first())
    }
}

/// The whole output: the payload between two markers.
pub open spec fn encoded(pairs: Seq<(Seq<char>, Seq<char>)>) -> Seq<char> {
    MARKER@ + payload(pairs) + MARKER@
}

/// Writes the variables as the extractor prints them: between two markers, each name and
/// value as a literal array of the integers of its bytes.
pub fn encode(vars: &EnvironmentMap) -> (output: String)
    requires
        vars.wf(),
    ensures
        output@ == encoded(vars.pairs()),
{
    let ghost pairs = vars.pairs();
    let mut output = String::new();
    output.append(MARKER);
    let count: usize = vars.len();
    let mut at: usize = 0;
    proof {
        assert(pairs.skip(0) =~= pairs);
    }
    while at < count
        invariant
            pairs == vars.pairs(),
            count == pairs.len(),
            at <= count,
            output@ + payload(pairs.skip(at as int)) == MARKER@ + payload(pairs),
        decreases count - at,
    {
        let ghost before = output@;
        let (key, value) = vars.entry(at);
        push_literal(&mut output, key.as_str().as_bytes());
        output.append(KEY_VALUE_SEP);
        push_literal(&mut output, value.as_str().as_bytes());
        output.append(PAIR_SEP);
        proof {
            let rest = pairs.skip(at as int);
            assert(rest[0] == pairs[at as int]);
            assert(rest.drop_first() =~= pairs.skip(at + 1));
            assert(output@ =~= before + pair_text(key@, value@) + PAIR_SEP@);
            assert(output@ + payload(pairs.skip(at + 1)) =~= before + payload(rest));
        }
        at += 1;
    }
    proof {
        assert(payload(pairs.skip(at as int)) =~= Seq::<char>::empty());
        assert(output@ =~= MARKER@ + payload(pairs));
    }
    output.append(MARKER);
    output
}

} // verus!
