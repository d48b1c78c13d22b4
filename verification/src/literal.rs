use crate::text::push_char;
use vstd::prelude::*;

verus! {

/// The decimal digit for `d`.
pub open spec fn digit(d: u8) -> char {
    ((48 + d) as u8) as char
}

/// A byte in decimal, without leading zeros.
pub open spec fn decimal(byte: u8) -> Seq<char> {
    if byte < 10 {
        seq![digit(byte)]
    } else if byte < 100 {
        seq![digit(byte / 10), digit(byte % 10)]
    } else {
        seq![digit(byte / 100), digit(byte / 10 % 10), digit(byte % 10)]
    }
}

/// The bytes in decimal, with a comma and a space between one and the next.
pub open spec fn items(bytes: Seq<u8>) -> Seq<char>
    decreases bytes.len(),
{
    if bytes.len() == 0 {
        Seq::empty()
    } else if bytes.len() == 1 {
        decimal(bytes[0])
    } else {
        items(bytes.drop_last()) + seq![',', ' '] + decimal(bytes.last())
    }
}

/// The bytes as a literal array of integers: `[80, 65, 84, 72]`.
pub open spec fn render_bytes(bytes: Seq<u8>) -> Seq<char> {
    seq!['['] + items(bytes) + seq![']']
}

/// Whether `c` is one of the characters that a literal array is written with.
pub open spec fn is_literal_char(c: char) -> bool {
    ('0' <= c && c <= '9') || c == '[' || c == ']' || c == ',' || c == ' '
}

/// Whether `text` is written with the characters of a literal array alone.
pub open spec fn is_plain(text: Seq<char>) -> bool {
    forall|i: int| 0 <= i < text.len() ==> is_literal_char(#[trigger] text[i])
}

/// A literal array holds no character but digits, brackets, commas and spaces.
pub proof fn lemma_render_bytes_plain(bytes: Seq<u8>)
    ensures
        is_plain(render_bytes(bytes)),
{
    lemma_items_plain(bytes);
}

proof fn lemma_items_plain(bytes: Seq<u8>)
    ensures
        is_plain(items(bytes)),
    decreases bytes.len(),
{
    if bytes.len() > 1 {
        lemma_items_plain(bytes.drop_last());
    }
}

/// What `serde_json` reads in `text` when it is asked for an array of bytes.
pub uninterp spec fn json_byte_array(text: Seq<char>) -> Option<Seq<u8>>;

/// `serde_json::from_str` for an array of bytes. The result is a function of the text
/// alone; a literal array as `render_bytes` writes it (JSON's own form for an array of
/// small numbers) is read back as the bytes it was written from.
#[verifier::external_body]
pub(crate) fn parse_byte_array(text: &str) -> (parsed: Option<Vec<u8>>)
    ensures
        match parsed {
            Some(bytes) => json_byte_array(text@) == Some(bytes@),
            None => json_byte_array(text@) is None,
        },
        forall|bytes: Seq<u8>|
            text@ == #[trigger] render_bytes(bytes) ==> parsed is Some && parsed->0@ == bytes,
{
    serde_json::from_str::<Vec<u8>>(text).ok()
}

/// Adds a byte in decimal at the end of `text`.
fn push_decimal(text: &mut String, byte: u8)
    ensures
        final(text)@ == old(text)@ + decimal(byte),
{
    let ghost before = text@;
    if byte >= 100 {
        push_char(text, (48 + byte / 100) as char);
    }
    if byte >= 10 {
        push_char(text, (48 + byte / 10 % 10) as char);
    }
    push_char(text, (48 + byte % 10) as char);
    assert(text@ =~= before + decimal(byte));
}

/// Adds the bytes as a literal array of integers at the end of `text`.
pub fn push_literal(text: &mut String, bytes: &[u8])
    ensures
        final(text)@ == old(text)@ + render_bytes(bytes@),
{
    let ghost before = text@;
    push_char(text, '[');
    let mut at: usize = 0;
    while at < bytes.len()
        invariant
            at <= bytes@.len(),
            text@ == before + seq!['['] + items(bytes@.take(at as int)),
        decreases bytes@.len() - at,
    {
        let ghost so_far = text@;
        if at > 0 {
            push_char(text, ',');
            push_char(text, ' ');
        }
        push_decimal(text, bytes[at]);
        proof {
            let taken = bytes@.take(at + 1);
            assert(taken.drop_last() =~= bytes@.take(at as int));
            assert(taken.last() == bytes@[at as int]);
            assert(text@ =~= before + seq!['['] + items(taken));
        }
        at += 1;
    }
    push_char(text, ']');
    proof {
        assert(bytes@.take(at as int) =~= bytes@);
        assert(text@ =~= before + render_bytes(bytes@));
    }
}

} // verus!
