use vstd::prelude::*;
use vstd::utf8::*;

verus! {

/// `core::str::Utf8Error`: why bytes are no text. It is carried, never looked into.
#[verifier::external_type_specification]
#[verifier::external_body]
pub struct ExUtf8Error(core::str::Utf8Error);

/// `String::push`: the character is added at the end.
#[verifier::external_body]
pub(crate) fn push_char(text: &mut String, c: char)
    ensures
        final(text)@ == old(text)@.push(c),
{
    text.push(c);
}

/// `std::str::from_utf8`: the text that the bytes encode, where they are valid UTF-8, and
/// an error where they are not.
#[verifier::external_body]
pub(crate) fn read_utf8(bytes: &[u8]) -> (read: Result<&str, core::str::Utf8Error>)
    ensures
        match read {
            Ok(text) => valid_utf8(bytes@) && text@ == decode_utf8(bytes@),
            Err(_) => !valid_utf8(bytes@),
        },
{
    core::str::from_utf8(bytes)
}

/// Whether `pattern` stands in `text` at position `at`. An empty pattern stands nowhere.
pub open spec fn occurs_at(text: Seq<char>, pattern: Seq<char>, at: int) -> bool {
    &&& pattern.len() > 0
    &&& 0 <= at
    &&& at + pattern.len() <= text.len()
    &&& text.subrange(at, at + pattern.len()) == pattern
}

/// Whether `at` is the leftmost position at which `pattern` stands in `text`.
pub open spec fn is_first_occurrence(text: Seq<char>, pattern: Seq<char>, at: int) -> bool {
    &&& occurs_at(text, pattern, at)
    &&& forall|before: int| 0 <= before < at ==> !occurs_at(text, pattern, before)
}

/// The leftmost position at which `pattern` stands in `text`, if it stands anywhere.
pub open spec fn first_occurrence(text: Seq<char>, pattern: Seq<char>) -> Option<int> {
    if exists|at: int| is_first_occurrence(text, pattern, at) {
        Some(choose|at: int| is_first_occurrence(text, pattern, at))
    } else {
        None
    }
}

/// The pieces of `text` between the occurrences of `pattern`, taken from left to right
/// without overlap. There is always one piece more than there are occurrences.
pub open spec fn pieces(text: Seq<char>, pattern: Seq<char>) -> Seq<Seq<char>>
    decreases text.len(),
{
    match first_occurrence(text, pattern) {
        Some(at) => seq![text.take(at)] + pieces(text.skip(at + pattern.len()), pattern),
        None => seq![text],
    }
}

/// How many times `pattern` occurs in `text`, counted from left to right without overlap.
pub open spec fn occurrences(text: Seq<char>, pattern: Seq<char>) -> nat {
    (pieces(text, pattern).len() - 1) as nat
}

/// The views of the pieces that a split hands out.
pub open spec fn views(pieces: Seq<Vec<char>>) -> Seq<Seq<char>> {
    pieces.map_values(|piece: Vec<char>| piece@)
}

/// An occurrence in the rest of a text after `from` is an occurrence in the text, `from` later.
pub proof fn lemma_occurs_at_skip(text: Seq<char>, pattern: Seq<char>, from: int, at: int)
    requires
        0 <= from <= text.len(),
        0 <= at,
    ensures
        occurs_at(text.skip(from), pattern, at) == occurs_at(text, pattern, from + at),
{
    if at + pattern.len() <= text.len() - from {
        assert(text.skip(from).subrange(at, at + pattern.len()) =~= text.subrange(
            from + at,
            from + at + pattern.len(),
        ));
    }
}

/// Where the first character of `pattern` stands nowhere in `head`, the leftmost occurrence
/// of `pattern` in `head + pattern + tail` is the one after `head`.
pub proof fn lemma_pieces_cut(head: Seq<char>, pattern: Seq<char>, tail: Seq<char>)
    requires
        pattern.len() > 0,
        forall|i: int| 0 <= i < head.len() ==> head[i] != pattern[0],
    ensures
        pieces(head + pattern + tail, pattern) == seq![head] + pieces(tail, pattern),
{
    let text = head + pattern + tail;
    let at = head.len() as int;
    assert(text.subrange(at, at + pattern.len()) =~= pattern);
    assert forall|before: int| 0 <= before < at implies !occurs_at(text, pattern, before) by {
        if occurs_at(text, pattern, before) {
            assert(text.subrange(before, before + pattern.len())[0] == text[before]);
            assert(text[before] == head[before]);
        }
    }
    assert(is_first_occurrence(text, pattern, at));
    let chosen = choose|c: int| is_first_occurrence(text, pattern, c);
    assert(chosen == at);
    assert(text.take(at) =~= head);
    assert(text.skip(at + pattern.len()) =~= tail);
}

/// Where the first character of `pattern` stands nowhere in `text`, nothing is cut.
pub proof fn lemma_pieces_whole(text: Seq<char>, pattern: Seq<char>)
    requires
        pattern.len() > 0 ==> forall|i: int| 0 <= i < text.len() ==> text[i] != pattern[0],
    ensures
        pieces(text, pattern) == seq![text],
{
    assert forall|at: int| !occurs_at(text, pattern, at) by {
        if occurs_at(text, pattern, at) {
            assert(text.subrange(at, at + pattern.len())[0] == text[at]);
        }
    }
}

/// Where the first character of `pattern` stands nowhere in the three texts, the text
/// `before + pattern + body + pattern + after` is cut into just these three.
pub proof fn lemma_pieces_between(
    before: Seq<char>,
    body: Seq<char>,
    after: Seq<char>,
    pattern: Seq<char>,
)
    requires
        pattern.len() > 0,
        forall|i: int| 0 <= i < before.len() ==> before[i] != pattern[0],
        forall|i: int| 0 <= i < body.len() ==> body[i] != pattern[0],
        forall|i: int| 0 <= i < after.len() ==> after[i] != pattern[0],
    ensures
        pieces(before + pattern + body + pattern + after, pattern) == seq![before, body, after],
{
    let inner = body + pattern + after;
    assert(pieces(inner, pattern) == seq![body, after]) by {
        lemma_pieces_whole(after, pattern);
        lemma_pieces_cut(body, pattern, after);
        assert(seq![body] + seq![after] =~= seq![body, after]);
    }
    assert(pieces(before + pattern + inner, pattern) == seq![before, body, after]) by {
        lemma_pieces_cut(before, pattern, inner);
        assert(seq![before] + seq![body, after] =~= seq![before, body, after]);
    }
    assert(before + pattern + inner =~= before + pattern + body + pattern + after);
}

/// The characters of a text, in order.
pub fn chars_of(text: &str) -> (chars: Vec<char>)
    ensures
        chars@ == text@,
{
    let mut chars: Vec<char> = Vec::new();
    for c in it: text.chars()
        invariant
            chars@ == it.seq().take(it.index()),
    {
        chars.push(c);
    }
    chars
}

/// The text made of `chars`.
pub fn string_of(chars: &[char]) -> (text: String)
    ensures
        text@ == chars@,
{
    let mut text = String::new();
    let mut at: usize = 0;
    while at < chars.len()
        invariant
            at <= chars@.len(),
            text@ == chars@.take(at as int),
        decreases chars@.len() - at,
    {
        push_char(&mut text, chars[at]);
        assert(text@ =~= chars@.take(at + 1));
        at += 1;
    }
    assert(chars@.take(at as int) =~= chars@);
    text
}

/// Whether `pattern` stands in `text` at position `at`.
pub fn stands_at(text: &[char], pattern: &[char], at: usize) -> (found: bool)
    ensures
        found == occurs_at(text@, pattern@, at as int),
{
    let width: usize = pattern.len();
    if width == 0 || width > text.len() || at > text.len() - width {
        return false;
    }
    let mut k: usize = 0;
    while k < width
        invariant
            width == pattern@.len(),
            at + width <= text@.len() <= usize::MAX,
            k <= width,
            forall|j: int| 0 <= j < k ==> text@[at + j] == pattern@[j],
        decreases width - k,
    {
        if text[at + k] != pattern[k] {
            assert(text@.subrange(at as int, at + width)[k as int] != pattern@[k as int]);
            return false;
        }
        k += 1;
    }
    assert(text@.subrange(at as int, at + width) =~= pattern@);
    true
}

/// The leftmost position at or after `from` at which `pattern` stands in `text`.
fn find_from(text: &[char], pattern: &[char], from: usize) -> (found: Option<usize>)
    requires
        from <= text@.len(),
    ensures
        match found {
            Some(at) => {
                &&& from <= at
                &&& at + pattern@.len() <= text@.len()
                &&& pattern@.len() > 0
                &&& first_occurrence(text@.skip(from as int), pattern@) == Some(at - from)
            },
            None => first_occurrence(text@.skip(from as int), pattern@) is None,
        },
{
    let ghost rest = text@.skip(from as int);
    let mut at: usize = from;
    while at < text.len()
        invariant
            from <= at <= text@.len(),
            rest == text@.skip(from as int),
            forall|before: int| 0 <= before < at - from ==> !occurs_at(rest, pattern@, before),
        decreases text@.len() - at,
    {
        if stands_at(text, pattern, at) {
            proof {
                lemma_occurs_at_skip(text@, pattern@, from as int, at - from);
                assert(is_first_occurrence(rest, pattern@, at - from));
                let chosen = choose|c: int| is_first_occurrence(rest, pattern@, c);
                assert(chosen == at - from);
            }
            return Some(at);
        }
        proof {
            lemma_occurs_at_skip(text@, pattern@, from as int, at - from);
        }
        at += 1;
    }
    assert forall|c: int| !is_first_occurrence(rest, pattern@, c) by {
        if occurs_at(rest, pattern@, c) {
            assert(c < at - from);
        }
    }
    None
}

/// A copy of the characters of `text` from `from` up to `to`.
fn copy_range(text: &[char], from: usize, to: usize) -> (piece: Vec<char>)
    requires
        from <= to <= text@.len(),
    ensures
        piece@ == text@.subrange(from as int, to as int),
{
    let mut piece: Vec<char> = Vec::new();
    let mut at: usize = from;
    while at < to
        invariant
            from <= at <= to <= text@.len(),
            piece@ == text@.subrange(from as int, at as int),
        decreases to - at,
    {
        piece.push(text[at]);
        proof {
            assert(piece@ =~= text@.subrange(from as int, at + 1));
        }
        at += 1;
    }
    piece
}

/// Cuts `text` at every occurrence of `pattern`, from left to right.
pub fn split(text: &[char], pattern: &[char]) -> (parts: Vec<Vec<char>>)
    ensures
        views(parts@) == pieces(text@, pattern@),
{
    let mut parts: Vec<Vec<char>> = Vec::new();
    let mut start: usize = 0;
    let end: usize = text.len();
    proof {
        assert(text@.skip(0) =~= text@);
        assert(views(parts@) + pieces(text@, pattern@) =~= pieces(text@, pattern@));
    }
    loop
        invariant_except_break
            start <= text@.len() == end,
            pieces(text@, pattern@) == views(parts@) + pieces(
                text@.skip(start as int),
                pattern@,
            ),
        ensures
            views(parts@) == pieces(text@, pattern@),
        decreases text@.len() - start,
    {
        let ghost before = parts@;
        let ghost rest = text@.skip(start as int);
        match find_from(text, pattern, start) {
            Some(at) => {
                let piece = copy_range(text, start, at);
                parts.push(piece);
                proof {
                    assert(piece@ == rest.take(at - start));
                    assert(text@.skip(at + pattern@.len()) =~= rest.skip(
                        at - start + pattern@.len(),
                    ));
                    assert(views(parts@) =~= views(before) + seq![piece@]);
                }
                start = at + pattern.len();
            },
            None => {
                let piece = copy_range(text, start, end);
                parts.push(piece);
                proof {
                    assert(piece@ == rest);
                    assert(views(parts@) =~= views(before) + seq![piece@]);
                }
                break;
            },
        }
    }
    parts
}

} // verus!
