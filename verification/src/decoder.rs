use crate::encoder::{encoded, pair_text, payload, rendered};
use crate::envmap::{map_of, EnvironmentMap};
use crate::error::Error;
use crate::keys::{lemma_keys, KEY_VALUE_SEP, MARKER, PAIR_SEP};
use crate::literal::{
    is_literal_char, is_plain, json_byte_array, lemma_render_bytes_plain, parse_byte_array,
    render_bytes,
};
use crate::text::{
    chars_of, lemma_pieces_between, lemma_pieces_cut, lemma_pieces_whole, occurrences, pieces,
    read_utf8, split, string_of, views,
};
use vstd::prelude::*;
use vstd::utf8::*;

verus! {

/// The text that one side of a pair stands for: what the literal array holds, read as
/// UTF-8. Nothing where the side is no array of bytes or the bytes are no text.
pub open spec fn value_of(text: Seq<char>) -> Option<Seq<char>> {
    match json_byte_array(text) {
        Some(bytes) => if valid_utf8(bytes) {
            Some(decode_utf8(bytes))
        } else {
            None
        },
        None => None,
    }
}

/// The variable that a candidate stands for: it has exactly two sides, and both are texts.
pub open spec fn pair_of(candidate: Seq<char>) -> Option<(Seq<char>, Seq<char>)> {
    let sides = pieces(candidate, KEY_VALUE_SEP@);
    if sides.len() != 2 {
        None
    } else {
        match (value_of(sides[0]), value_of(sides[1])) {
            (Some(key), Some(value)) => Some((key, value)),
            _ => None,
        }
    }
}

/// The mapping that the candidates give, taken in order: one that stands for no variable
/// is passed over, and a later variable replaces an earlier one of the same name.
pub open spec fn fill(candidates: Seq<Seq<char>>) -> Map<Seq<char>, Seq<char>>
    decreases candidates.len(),
{
    if candidates.len() == 0 {
        Map::empty()
    } else {
        let before = fill(candidates.drop_last());
        match pair_of(candidates.last()) {
            Some((key, value)) => before.insert(key, value),
            None => before,
        }
    }
}

/// The mapping that a captured output stands for. The marker has to occur exactly twice;
/// what stands before the first and after the second occurrence is passed over.
pub open spec fn decoded(stdout: Seq<char>) -> Option<Map<Seq<char>, Seq<char>>> {
    let segments = pieces(stdout, MARKER@);
    if segments.len() != 3 {
        None
    } else {
        Some(fill(pieces(segments[1], PAIR_SEP@)))
    }
}

/// Whether a text that was written on the wire is read back as it was.
pub open spec fn reads_back(text: Seq<char>) -> bool {
    value_of(rendered(text)) == Some(text)
}

/// Whether each name and each value of `pairs` is read back as it was written.
pub open spec fn all_read_back(pairs: Seq<(Seq<char>, Seq<char>)>) -> bool {
    forall|i: int|
        0 <= i < pairs.len() ==> reads_back(#[trigger] pairs[i].0) && reads_back(pairs[i].1)
}

/// Whether what a candidate was written from, if it is a written pair, is read back.
pub open spec fn candidate_reads_back(candidate: Seq<char>) -> bool {
    forall|key: Seq<char>, value: Seq<char>|
        candidate == #[trigger] pair_text(key, value) ==> reads_back(key) && reads_back(value)
}

/// A written text holds none of the characters of the three literals.
pub proof fn lemma_rendered_plain(text: Seq<char>)
    ensures
        is_plain(rendered(text)),
        forall|i: int|
            0 <= i < rendered(text).len() ==> {
                let c = #[trigger] rendered(text)[i];
                c != '|' && c != ';' && c != '@'
            },
{
    lemma_render_bytes_plain(encode_utf8(text));
    assert forall|i: int| 0 <= i < rendered(text).len() implies {
        let c = #[trigger] rendered(text)[i];
        c != '|' && c != ';' && c != '@'
    } by {
        assert(is_literal_char(rendered(text)[i]));
    }
}

/// The two sides of a written pair are the written name and the written value.
pub proof fn lemma_pair_text_sides(key: Seq<char>, value: Seq<char>)
    ensures
        pieces(pair_text(key, value), KEY_VALUE_SEP@) == seq![rendered(key), rendered(value)],
{
    lemma_keys();
    lemma_rendered_plain(key);
    lemma_rendered_plain(value);
    lemma_pieces_cut(rendered(key), KEY_VALUE_SEP@, rendered(value));
    lemma_pieces_whole(rendered(value), KEY_VALUE_SEP@);
}

/// A written pair holds no pair separator and no marker.
proof fn lemma_pair_text_chars(key: Seq<char>, value: Seq<char>)
    ensures
        forall|i: int|
            0 <= i < pair_text(key, value).len() ==> {
                let c = #[trigger] pair_text(key, value)[i];
                c != ';' && c != '@'
            },
{
    lemma_keys();
    lemma_rendered_plain(key);
    lemma_rendered_plain(value);
    let text = pair_text(key, value);
    let left = rendered(key).len() as int;
    assert forall|i: int| 0 <= i < text.len() implies {
        let c = #[trigger] text[i];
        c != ';' && c != '@'
    } by {
        if i < left {
            assert(text[i] == rendered(key)[i]);
        } else if i < left + 2 {
            assert(text[i] == KEY_VALUE_SEP@[i - left]);
        } else {
            assert(text[i] == rendered(value)[i - left - 2]);
        }
    }
}

/// The written pairs, one after the other.
pub open spec fn pair_texts(pairs: Seq<(Seq<char>, Seq<char>)>) -> Seq<Seq<char>> {
    Seq::new(pairs.len(), |i: int| pair_text(pairs[i].0, pairs[i].1))
}

/// A payload holds no marker.
proof fn lemma_payload_chars(pairs: Seq<(Seq<char>, Seq<char>)>)
    ensures
        forall|i: int| 0 <= i < payload(pairs).len() ==> #[trigger] payload(pairs)[i] != '@',
    decreases pairs.len(),
{
    lemma_keys();
    if pairs.len() > 0 {
        let head = pair_text(pairs[0].0, pairs[0].1);
        let rest = payload(pairs.drop_first());
        lemma_pair_text_chars(pairs[0].0, pairs[0].1);
        lemma_payload_chars(pairs.drop_first());
        let text = payload(pairs);
        assert forall|i: int| 0 <= i < text.len() implies #[trigger] text[i] != '@' by {
            if i < head.len() {
                assert(text[i] == head[i]);
            } else if i < head.len() + 2 {
                assert(text[i] == PAIR_SEP@[i - head.len()]);
            } else {
                assert(text[i] == rest[i - head.len() - 2]);
            }
        }
    }
}

/// The candidates of a payload are the written pairs and, after the last separator, an
/// empty one.
pub proof fn lemma_payload_candidates(pairs: Seq<(Seq<char>, Seq<char>)>)
    ensures
        pieces(payload(pairs), PAIR_SEP@) == pair_texts(pairs).push(Seq::empty()),
    decreases pairs.len(),
{
    lemma_keys();
    if pairs.len() == 0 {
        lemma_pieces_whole(Seq::<char>::empty(), PAIR_SEP@);
        assert(pair_texts(pairs).push(Seq::empty()) =~= seq![Seq::<char>::empty()]);
    } else {
        let head = pair_text(pairs[0].0, pairs[0].1);
        let rest = pairs.drop_first();
        lemma_pair_text_chars(pairs[0].0, pairs[0].1);
        lemma_pieces_cut(head, PAIR_SEP@, payload(rest));
        lemma_payload_candidates(rest);
        assert(seq![head] + pair_texts(rest).push(Seq::empty()) =~= pair_texts(pairs).push(
            Seq::empty(),
        ));
    }
}

/// The segments of a whole output: nothing, the payload, nothing.
pub proof fn lemma_encoded_segments(pairs: Seq<(Seq<char>, Seq<char>)>)
    ensures
        pieces(encoded(pairs), MARKER@) == seq![Seq::empty(), payload(pairs), Seq::empty()],
{
    lemma_keys();
    lemma_payload_chars(pairs);
    let empty = Seq::<char>::empty();
    lemma_pieces_between(empty, payload(pairs), empty, MARKER@);
    assert(empty + MARKER@ + payload(pairs) + MARKER@ + empty =~= encoded(pairs));
}

/// The written pairs give the mapping that the pairs stand for, where each name and value
/// is read back as it was written.
proof fn lemma_fill_pair_texts(pairs: Seq<(Seq<char>, Seq<char>)>)
    requires
        all_read_back(pairs),
    ensures
        fill(pair_texts(pairs)) == map_of(pairs),
    decreases pairs.len(),
{
    if pairs.len() > 0 {
        let front = pairs.drop_last();
        let last = pairs.last();
        assert forall|i: int| 0 <= i < front.len() implies reads_back(#[trigger] front[i].0)
            && reads_back(front[i].1) by {
            assert(front[i] == pairs[i]);
        }
        lemma_fill_pair_texts(front);
        assert(pair_texts(pairs).drop_last() =~= pair_texts(front));
        lemma_pair_text_sides(last.0, last.1);
        assert(reads_back(pairs[pairs.len() - 1].0) && reads_back(pairs[pairs.len() - 1].1));
        assert(pair_of(pair_text(last.0, last.1)) == Some((last.0, last.1)));
    }
}

/// Round trip: decoding what was encoded gives the mapping that the pairs stand for, where
/// the array parser reads each written name and value back as it was written.
pub proof fn lemma_decoded_encoded(pairs: Seq<(Seq<char>, Seq<char>)>)
    requires
        all_read_back(pairs),
    ensures
        decoded(encoded(pairs)) == Some(map_of(pairs)),
{
    lemma_keys();
    lemma_encoded_segments(pairs);
    lemma_payload_candidates(pairs);
    lemma_fill_pair_texts(pairs);
    let candidates = pair_texts(pairs).push(Seq::empty());
    assert(candidates.drop_last() =~= pair_texts(pairs));
    lemma_pieces_whole(Seq::<char>::empty(), KEY_VALUE_SEP@);
    assert(pair_of(candidates.last()) is None);
}

/// Whether the first character of the marker stands nowhere in `text`.
pub open spec fn is_unmarked(text: Seq<char>) -> bool {
    forall|i: int| 0 <= i < text.len() ==> text[i] != '@'
}

/// What stands around the two markers is passed over, whatever it is, as long as it
/// holds nothing of a marker: the mapping is the one that the candidates between the
/// markers give.
pub proof fn lemma_decoded_ignores_noise(before: Seq<char>, body: Seq<char>, after: Seq<char>)
    requires
        is_unmarked(before),
        is_unmarked(body),
        is_unmarked(after),
    ensures
        decoded(before + MARKER@ + body + MARKER@ + after) == Some(fill(pieces(body, PAIR_SEP@))),
        occurrences(before + MARKER@ + body + MARKER@ + after, MARKER@) == 2,
{
    lemma_keys();
    lemma_pieces_between(before, body, after, MARKER@);
}

/// A candidate that stands for no variable, because it has not exactly two sides or a
/// side that is no array of bytes or no text, is dropped: the mapping is the one that
/// the other candidates give.
pub proof fn lemma_fill_drops_malformed(candidates: Seq<Seq<char>>, at: int)
    requires
        0 <= at < candidates.len(),
        pair_of(candidates[at]) is None,
    ensures
        fill(candidates) == fill(candidates.remove(at)),
    decreases candidates.len(),
{
    let front = candidates.drop_last();
    if at == candidates.len() - 1 {
        assert(candidates.remove(at) =~= front);
    } else {
        lemma_fill_drops_malformed(front, at);
        let others = candidates.remove(at);
        assert(others.drop_last() =~= front.remove(at));
        assert(others.last() == candidates.last());
    }
}

/// Reads one side of a pair: a literal array of bytes that are valid UTF-8.
pub fn decode_value(text: &str) -> (value: Option<String>)
    ensures
        match value {
            Some(read) => value_of(text@) == Some(read@),
            None => value_of(text@) is None,
        },
        forall|written: Seq<char>| text@ == #[trigger] rendered(written) ==> reads_back(written),
{
    let parsed = parse_byte_array(text);
    proof {
        assert forall|written: Seq<char>| text@ == #[trigger] rendered(written) implies reads_back(
            written,
        ) by {
            assert(text@ == render_bytes(encode_utf8(written)));
            assert(json_byte_array(text@) == Some(encode_utf8(written)));
            encode_utf8_valid_utf8(written);
            encode_utf8_decode_utf8(written);
        }
    }
    match parsed {
        Some(bytes) => match read_utf8(bytes.as_slice()) {
            Ok(read) => Some(read.to_owned()),
            Err(_) => None,
        },
        None => None,
    }
}

/// Reads a candidate that is given by its characters.
fn decode_candidate(candidate: &[char]) -> (pair: Option<(String, String)>)
    ensures
        match pair {
            Some((key, value)) => pair_of(candidate@) == Some((key@, value@)),
            None => pair_of(candidate@) is None,
        },
        candidate_reads_back(candidate@),
{
    let separator = chars_of(KEY_VALUE_SEP);
    let sides = split(candidate, separator.as_slice());
    proof {
        assert(views(sides@).len() == sides@.len());
        assert forall|key: Seq<char>, value: Seq<char>|
            candidate@ == #[trigger] pair_text(key, value) implies sides@.len() == 2
            && sides@[0]@ == rendered(key) && sides@[1]@ == rendered(value) by {
            lemma_pair_text_sides(key, value);
            assert(views(sides@)[0] == sides@[0]@);
            assert(views(sides@)[1] == sides@[1]@);
        }
    }
    if sides.len() != 2 {
        return None;
    }
    proof {
        assert(views(sides@)[0] == sides@[0]@);
        assert(views(sides@)[1] == sides@[1]@);
    }
    let key_text = string_of(sides[0].as_slice());
    let value_text = string_of(sides[1].as_slice());
    let key = decode_value(key_text.as_str());
    let value = decode_value(value_text.as_str());
    match (key, value) {
        (Some(key), Some(value)) => Some((key, value)),
        _ => None,
    }
}

/// Reads one candidate of the payload: a name and a value with the separator between them.
pub fn decode_pair(pair: &str) -> (read: Option<(String, String)>)
    ensures
        match read {
            Some((key, value)) => pair_of(pair@) == Some((key@, value@)),
            None => pair_of(pair@) is None,
        },
{
    let chars = chars_of(pair);
    decode_candidate(chars.as_slice())
}

/// Reads the variables out of a captured output. The output has to hold the marker exactly
/// twice; what stands around the two markers is passed over, and so is each candidate
/// between them that is no well-formed pair.
pub fn decode(stdout: &str) -> (read: Result<EnvironmentMap, Error>)
    ensures
        match read {
            Ok(vars) => vars.wf() && decoded(stdout@) == Some(vars@),
            Err(error) => error == Error::NoExtractorOutput && decoded(stdout@) is None,
        },
        read is Ok <==> occurrences(stdout@, MARKER@) == 2,
        forall|pairs: Seq<(Seq<char>, Seq<char>)>|
            stdout@ == #[trigger] encoded(pairs) ==> decoded(stdout@) == Some(map_of(pairs)),
        forall|vars: EnvironmentMap|
            vars.wf() && stdout@ == encoded(#[trigger] vars.pairs()) ==> (read matches Ok(back)
                && back@ == vars@),
{
    let chars = chars_of(stdout);
    let marker = chars_of(MARKER);
    let segments = split(chars.as_slice(), marker.as_slice());
    assert(views(segments@).len() == segments@.len());
    if segments.len() != 3 {
        proof {
            assert forall|pairs: Seq<(Seq<char>, Seq<char>)>|
                stdout@ == #[trigger] encoded(pairs) implies false by {
                lemma_encoded_segments(pairs);
            }
            assert forall|vars: EnvironmentMap|
                vars.wf() && stdout@ == encoded(#[trigger] vars.pairs()) implies false by {
                lemma_encoded_segments(vars.pairs());
            }
        }
        return Err(Error::NoExtractorOutput);
    }
    assert(views(segments@)[1] == segments@[1]@);
    let separator = chars_of(PAIR_SEP);
    let candidates = split(segments[1].as_slice(), separator.as_slice());
    let ghost all = views(candidates@);
    let mut vars = EnvironmentMap::new();
    let mut at: usize = 0;
    while at < candidates.len()
        invariant
            at <= candidates@.len(),
            all == views(candidates@),
            vars.wf(),
            vars@ == fill(all.take(at as int)),
            forall|i: int| 0 <= i < at ==> candidate_reads_back(#[trigger] all[i]),
        decreases candidates@.len() - at,
    {
        proof {
            assert(all[at as int] == candidates@[at as int]@);
            assert(all.take(at + 1).drop_last() =~= all.take(at as int));
            assert(all.take(at + 1).last() == all[at as int]);
        }
        match decode_candidate(candidates[at].as_slice()) {
            Some((key, value)) => {
                vars.insert(key, value);
            },
            None => {},
        }
        at += 1;
    }
    proof {
        assert(all.take(at as int) =~= all);
        assert forall|pairs: Seq<(Seq<char>, Seq<char>)>|
            stdout@ == #[trigger] encoded(pairs) implies decoded(stdout@) == Some(
            map_of(pairs),
        ) by {
            lemma_encoded_segments(pairs);
            lemma_payload_candidates(pairs);
            assert forall|i: int| 0 <= i < pairs.len() implies reads_back(#[trigger] pairs[i].0)
                && reads_back(pairs[i].1) by {
                assert(all[i] == pair_text(pairs[i].0, pairs[i].1));
                assert(candidate_reads_back(all[i]));
            }
            lemma_decoded_encoded(pairs);
        }
        assert forall|written: EnvironmentMap|
            written.wf() && stdout@ == encoded(#[trigger] written.pairs()) implies vars@
            == written@ by {
            written.lemma_view();
            assert(decoded(stdout@) == Some(map_of(written.pairs())));
        }
    }
    Ok(vars)
}

} // verus!
