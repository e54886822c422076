//! The text of a cache file: an envelope around a payload.
//!
//! A file holds a JSON object with two members in this order: `timestamp`, the
//! second at which the payload was written, and `data`, the payload itself.
//! Spaces, tabs and line ends may stand between the tokens. The payload is
//! taken as it stands, from the first character behind the colon of `data` to
//! the last one before the closing brace, white space at its ends set aside.

use crate::services::cache_service::CachedData;
use crate::utils::text::{
    chars_of,
    decimal,
    lemma_decimal_reads_back,
    is_digit,
    number_in,
    number_value,
    push_decimal,
};
use vstd::prelude::*;
use vstd::string::StrSliceExecFns;
use vstd::string::StringExecFns;

verus! {

/// White space between the tokens of an envelope.
pub open spec fn is_space(c: char) -> bool {
    c == ' ' || c == '\n' || c == '\r' || c == '\t'
}

/// The first position at or behind `i` that holds no white space.
pub open spec fn skip_spaces(s: Seq<char>, i: int) -> int
    decreases s.len() - i,
{
    if 0 <= i < s.len() && is_space(s[i]) {
        skip_spaces(s, i + 1)
    } else {
        i
    }
}

/// The first position at or behind `i` that holds no digit.
pub open spec fn skip_digits(s: Seq<char>, i: int) -> int
    decreases s.len() - i,
{
    if 0 <= i < s.len() && is_digit(s[i]) {
        skip_digits(s, i + 1)
    } else {
        i
    }
}

/// The last position at or before `j` that has no white space just before it.
pub open spec fn trim_end(s: Seq<char>, j: int) -> int
    decreases j,
{
    if 0 < j <= s.len() && is_space(s[j - 1]) {
        trim_end(s, j - 1)
    } else {
        j
    }
}

/// Whether `lit` stands in `s` at position `i`.
pub open spec fn has_at(s: Seq<char>, i: int, lit: Seq<char>) -> bool {
    0 <= i && i + lit.len() <= s.len() && s.subrange(i, i + lit.len()) == lit
}

/// The name of the first member, in its quotes.
pub open spec fn timestamp_name() -> Seq<char> {
    "\"timestamp\""@
}

/// The name of the second member, in its quotes.
pub open spec fn data_name() -> Seq<char> {
    "\"data\""@
}

/// Where the tokens of an envelope stand in a text.
pub struct EnvelopeMarks {
    pub open_brace: int,
    pub first_name: int,
    pub first_colon: int,
    pub digits: int,
    pub digits_end: int,
    pub comma: int,
    pub second_name: int,
    pub second_colon: int,
    pub payload: int,
    pub payload_end: int,
    pub close_brace: int,
}

/// Where the tokens of an envelope would stand in `s`.
pub open spec fn envelope_marks(s: Seq<char>) -> EnvelopeMarks {
    let open_brace = skip_spaces(s, 0);
    let first_name = skip_spaces(s, open_brace + 1);
    let first_colon = skip_spaces(s, first_name + timestamp_name().len());
    let digits = skip_spaces(s, first_colon + 1);
    let digits_end = skip_digits(s, digits);
    let comma = skip_spaces(s, digits_end);
    let second_name = skip_spaces(s, comma + 1);
    let second_colon = skip_spaces(s, second_name + data_name().len());
    let payload = skip_spaces(s, second_colon + 1);
    let close_brace = trim_end(s, s.len() as int) - 1;
    let payload_end = trim_end(s, close_brace);
    EnvelopeMarks {
        open_brace,
        first_name,
        first_colon,
        digits,
        digits_end,
        comma,
        second_name,
        second_colon,
        payload,
        payload_end,
        close_brace,
    }
}

/// Whether `s` is an envelope: every token stands where it is due, the stamp
/// has at least one digit and fits 64 bits, and the payload is not empty.
pub open spec fn well_framed(s: Seq<char>) -> bool {
    let m = envelope_marks(s);
    &&& has_at(s, m.open_brace, "{"@)
    &&& has_at(s, m.first_name, timestamp_name())
    &&& has_at(s, m.first_colon, ":"@)
    &&& m.digits < m.digits_end
    &&& number_value(s.subrange(m.digits, m.digits_end)) <= u64::MAX
    &&& has_at(s, m.comma, ","@)
    &&& has_at(s, m.second_name, data_name())
    &&& has_at(s, m.second_colon, ":"@)
    &&& has_at(s, m.close_brace, "}"@)
    &&& m.payload < m.payload_end
}

/// The stamp and the payload that the text `content` holds, if it is an
/// envelope.
pub open spec fn parse_envelope(content: Seq<char>) -> Option<(u64, Seq<char>)> {
    let m = envelope_marks(content);
    if well_framed(content) {
        Some(
            (
                number_value(content.subrange(m.digits, m.digits_end)) as u64,
                content.subrange(m.payload, m.payload_end),
            ),
        )
    } else {
        None
    }
}

/// The text of the file that holds `data`, stamped `timestamp`.
pub open spec fn envelope_text(timestamp: u64, data: Seq<char>) -> Seq<char> {
    "{\n  \"timestamp\": "@ + decimal(timestamp as nat) + ",\n  \"data\": "@ + data + "\n}"@
}

proof fn lemma_spaces_run(s: Seq<char>, from: int, to: int)
    requires
        0 <= from <= to <= s.len(),
        forall|i: int| from <= i < to ==> is_space(#[trigger] s[i]),
        to == s.len() || !is_space(s[to]),
    ensures
        skip_spaces(s, from) == to,
    decreases to - from,
{
    if from < to {
        lemma_spaces_run(s, from + 1, to);
    }
}

proof fn lemma_digits_run(s: Seq<char>, from: int, to: int)
    requires
        0 <= from <= to <= s.len(),
        forall|i: int| from <= i < to ==> is_digit(#[trigger] s[i]),
        to == s.len() || !is_digit(s[to]),
    ensures
        skip_digits(s, from) == to,
    decreases to - from,
{
    if from < to {
        lemma_digits_run(s, from + 1, to);
    }
}

proof fn lemma_trailing_spaces(s: Seq<char>, from: int, to: int)
    requires
        0 <= from <= to <= s.len(),
        forall|i: int| from <= i < to ==> is_space(#[trigger] s[i]),
        from == 0 || !is_space(s[from - 1]),
    ensures
        trim_end(s, to) == from,
    decreases to - from,
{
    if from < to {
        lemma_trailing_spaces(s, from, to - 1);
    }
}

/// What [`encode_envelope`] writes, [`decode_envelope`] reads back: the same
/// stamp and the same payload, for every payload that is not empty and has no
/// white space at its ends.
pub proof fn law_envelope_round_trip(timestamp: u64, data: Seq<char>)
    requires
        data.len() > 0,
        !is_space(data[0]),
        !is_space(data.last()),
    ensures
        parse_envelope(envelope_text(timestamp, data)) == Some((timestamp, data)),
{
    reveal_strlit("{\n  \"timestamp\": ");
    reveal_strlit(",\n  \"data\": ");
    reveal_strlit("\n}");
    reveal_strlit("{");
    reveal_strlit("}");
    reveal_strlit(":");
    reveal_strlit(",");
    reveal_strlit("\"timestamp\"");
    reveal_strlit("\"data\"");
    let head = "{\n  \"timestamp\": "@;
    let digits = decimal(timestamp as nat);
    let middle = ",\n  \"data\": "@;
    let tail = "\n}"@;
    let s = envelope_text(timestamp, data);
    let k = digits.len() as int;
    let m = data.len() as int;
    lemma_decimal_reads_back(timestamp as nat);
    assert(head.len() == 17 && middle.len() == 12 && tail.len() == 2);
    assert(s.len() == 31 + k + m);
    assert forall|i: int| 0 <= i < 17 implies s[i] == head[i] by {}
    assert forall|i: int| 0 <= i < k implies s[17 + i] == digits[i] by {}
    assert forall|i: int| 0 <= i < 12 implies s[17 + k + i] == middle[i] by {}
    assert forall|i: int| 0 <= i < m implies s[29 + k + i] == data[i] by {}
    assert forall|i: int| 0 <= i < 2 implies s[29 + k + m + i] == tail[i] by {}
    assert(s[0] == '{' && s[1] == '\n' && s[2] == ' ' && s[3] == ' ' && s[4] == '"');
    assert(s[15] == ':' && s[16] == ' ');
    assert(is_digit(digits[0]) && s[17] == digits[0]);
    lemma_spaces_run(s, 0, 0);
    lemma_spaces_run(s, 1, 4);
    assert(s.subrange(0, 1) =~= "{"@);
    assert(s.subrange(4, 15) =~= timestamp_name()) by {
        assert forall|i: int| 0 <= i < 11 implies s.subrange(4, 15)[i] == timestamp_name()[i] by {
            assert(s[4 + i] == head[4 + i]);
        }
    }
    lemma_spaces_run(s, 15, 15);
    assert(s.subrange(15, 16) =~= ":"@);
    lemma_spaces_run(s, 16, 17);
    assert(s[17 + k] == middle[0] && middle[0] == ',');
    assert forall|i: int| 17 <= i < 17 + k implies is_digit(#[trigger] s[i]) by {
        assert(s[i] == digits[i - 17]);
    }
    lemma_digits_run(s, 17, 17 + k);
    assert(s.subrange(17, 17 + k) =~= digits);
    lemma_spaces_run(s, 17 + k, 17 + k);
    assert(s.subrange(17 + k, 18 + k) =~= ","@);
    assert(s[18 + k] == middle[1] && s[19 + k] == middle[2] && s[20 + k] == middle[3] && s[21
        + k] == middle[4]);
    lemma_spaces_run(s, 18 + k, 21 + k);
    assert(s.subrange(21 + k, 27 + k) =~= data_name()) by {
        assert forall|i: int| 0 <= i < 6 implies s.subrange(21 + k, 27 + k)[i] == data_name()[i] by {
            assert(s[17 + k + (4 + i)] == middle[4 + i]);
        }
    }
    assert(s[27 + k] == middle[10] && s[28 + k] == middle[11]);
    lemma_spaces_run(s, 27 + k, 27 + k);
    assert(s.subrange(27 + k, 28 + k) =~= ":"@);
    assert(s[29 + k] == data[0]);
    lemma_spaces_run(s, 28 + k, 29 + k);
    assert(s[29 + k + m] == tail[0] && s[30 + k + m] == tail[1]);
    lemma_trailing_spaces(s, 31 + k + m, 31 + k + m);
    assert(s.subrange(30 + k + m, 31 + k + m) =~= "}"@);
    assert(s[29 + k + (m - 1)] == data[m - 1]);
    lemma_trailing_spaces(s, 29 + k + m, 30 + k + m);
    assert(s.subrange(29 + k, 29 + k + m) =~= data);
    let marks = envelope_marks(s);
    assert(marks.open_brace == 0);
    assert(marks.first_name == 4);
    assert(marks.first_colon == 15);
    assert(marks.digits == 17);
    assert(marks.digits_end == 17 + k);
    assert(marks.comma == 17 + k);
    assert(marks.second_name == 21 + k);
    assert(marks.second_colon == 27 + k);
    assert(marks.payload == 29 + k);
    assert(marks.close_brace == 30 + k + m);
    assert(marks.payload_end == 29 + k + m);
}

/// Lays `data`, stamped `timestamp`, out as the text of a cache file.
pub fn encode_envelope(timestamp: u64, data: &str) -> (r: String)
    ensures
        r@ == envelope_text(timestamp, data@),
{
    let mut out = String::from_str("{\n  \"timestamp\": ");
    push_decimal(&mut out, timestamp);
    out.append(",\n  \"data\": ");
    out.append(data);
    out.append("\n}");
    out
}

fn space(c: char) -> (r: bool)
    ensures
        r == is_space(c),
{
    c == ' ' || c == '\n' || c == '\r' || c == '\t'
}

fn skip_spaces_in(v: &Vec<char>, start: usize) -> (r: usize)
    requires
        start <= v@.len(),
    ensures
        r == skip_spaces(v@, start as int),
        start <= r <= v@.len(),
{
    let mut i = start;
    while i < v.len() && space(v[i])
        invariant
            start <= i <= v@.len(),
            skip_spaces(v@, i as int) == skip_spaces(v@, start as int),
        decreases v@.len() - i,
    {
        i = i + 1;
    }
    i
}

fn skip_digits_in(v: &Vec<char>, start: usize) -> (r: usize)
    requires
        start <= v@.len(),
    ensures
        r == skip_digits(v@, start as int),
        start <= r <= v@.len(),
        forall|j: int| start <= j < r ==> is_digit(#[trigger] v@[j]),
{
    let mut i = start;
    while i < v.len() && '0' <= v[i] && v[i] <= '9'
        invariant
            start <= i <= v@.len(),
            skip_digits(v@, i as int) == skip_digits(v@, start as int),
            forall|j: int| start <= j < i ==> is_digit(#[trigger] v@[j]),
        decreases v@.len() - i,
    {
        i = i + 1;
    }
    i
}

fn trim_end_in(v: &Vec<char>, end: usize) -> (r: usize)
    requires
        end <= v@.len(),
    ensures
        r == trim_end(v@, end as int),
        r <= end,
{
    let mut j = end;
    while j > 0 && space(v[j - 1])
        invariant
            j <= end <= v@.len(),
            trim_end(v@, j as int) == trim_end(v@, end as int),
        decreases j,
    {
        j = j - 1;
    }
    j
}

fn has_literal(v: &Vec<char>, i: usize, lit: &str) -> (r: bool)
    requires
        i <= v@.len(),
    ensures
        r == has_at(v@, i as int, lit@),
{
    let l = chars_of(lit);
    if l.len() > v.len() - i {
        return false;
    }
    let mut k: usize = 0;
    while k < l.len()
        invariant
            k <= l.len(),
            l@ == lit@,
            i + l.len() <= v.len(),
            forall|j: int| 0 <= j < k ==> v@[i + j] == l@[j],
        decreases l@.len() - k,
    {
        if v[i + k] != l[k] {
            assert(v@.subrange(i as int, i + l@.len())[k as int] != l@[k as int]);
            return false;
        }
        k = k + 1;
    }
    assert(v@.subrange(i as int, i + l@.len()) =~= l@);
    true
}

/// Reads the text of a cache file: the stamp and the payload, if the text is
/// an envelope.
pub fn decode_envelope(content: &str) -> (r: Option<CachedData>)
    ensures
        match r {
            Some(found) => parse_envelope(content@) == Some((found.timestamp, found.data@)),
            None => parse_envelope(content@) is None,
        },
{
    proof {
        reveal_strlit("{");
        reveal_strlit("}");
        reveal_strlit(":");
        reveal_strlit(",");
        reveal_strlit("\"timestamp\"");
        reveal_strlit("\"data\"");
    }
    assert("{"@.len() == 1 && "}"@.len() == 1 && ":"@.len() == 1 && ","@.len() == 1);
    assert(timestamp_name().len() == 11 && data_name().len() == 6);
    let v = chars_of(content);
    let total = v.len();
    let ghost m = envelope_marks(v@);
    let open_brace = skip_spaces_in(&v, 0);
    if !has_literal(&v, open_brace, "{") {
        return None;
    }
    let first_name = skip_spaces_in(&v, open_brace + 1);
    if !has_literal(&v, first_name, "\"timestamp\"") {
        return None;
    }
    let first_colon = skip_spaces_in(&v, first_name + 11);
    if !has_literal(&v, first_colon, ":") {
        return None;
    }
    let digits = skip_spaces_in(&v, first_colon + 1);
    let digits_end = skip_digits_in(&v, digits);
    if digits_end == digits {
        return None;
    }
    let timestamp = match number_in(&v, digits, digits_end) {
        Some(n) => n,
        None => {
            return None;
        },
    };
    let comma = skip_spaces_in(&v, digits_end);
    if !has_literal(&v, comma, ",") {
        return None;
    }
    let second_name = skip_spaces_in(&v, comma + 1);
    if !has_literal(&v, second_name, "\"data\"") {
        return None;
    }
    let second_colon = skip_spaces_in(&v, second_name + 6);
    if !has_literal(&v, second_colon, ":") {
        return None;
    }
    let payload = skip_spaces_in(&v, second_colon + 1);
    let after = trim_end_in(&v, total);
    if after == 0 {
        return None;
    }
    let close_brace = after - 1;
    if !has_literal(&v, close_brace, "}") {
        return None;
    }
    let payload_end = trim_end_in(&v, close_brace);
    if payload >= payload_end {
        return None;
    }
    assert(m.payload == payload && m.payload_end == payload_end);
    assert(well_framed(v@));
    let data = content.substring_char(payload, payload_end).to_owned();
    Some(CachedData { timestamp, data })
}

} // verus!
