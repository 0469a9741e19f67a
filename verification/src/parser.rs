//! The parser of messages. A message carries a reading in one of two shapes:
//! the structured encoding, which names every channel, and the compact
//! encoding of three channels,
//! `BP:<systolic>/<diastolic>,HR:<heart rate>,SpO2:<saturation>`.
//!
//! A compact message has exactly three segments, separated by commas. Blanks
//! around a segment are ignored. Each number is a decimal numeral, with or
//! without one sign, that 32 bits hold. The structured encoding is decoded
//! by the caller, who hands in what came of it. A structured message opens
//! with a brace, which no compact message does; so a message that opens with
//! a brace and did not decode is reported as such, and not as a compact
//! message gone wrong.

use crate::models::{Field, VitalSigns, VitalSignsView};
use crate::text::{
    append_decimal, chars_of, decimal, find, find_char, is_blank, is_space, parse_i32_range,
    parse_i32_spec, starts_with, trim, trim_range,
};
use vstd::prelude::*;

verus! {

/// Why a message is no reading.
#[derive(Clone, Copy, Debug, PartialEq, Eq, Structural)]
pub enum ParseError {
    /// The message does not have exactly three segments.
    SegmentCount,
    /// A segment lacks its label, or the pressure segment its `/`.
    UnknownShape,
    /// The numeral of a channel writes no 32-bit integer.
    InvalidNumber(Field),
    /// The reading names no patient, or holds an extra channel twice.
    InvalidSample,
    /// The message opens like a structured one and does not decode.
    Undecodable,
}

impl ParseError {
    /// The sentence that reports the error.
    pub open spec fn message_spec(self) -> Seq<char> {
        match self {
            ParseError::SegmentCount => "expected three comma-separated segments"@,
            ParseError::UnknownShape => {
                "expected BP:<systolic>/<diastolic>,HR:<rate>,SpO2:<saturation>"@
            },
            ParseError::InvalidNumber(field) => "invalid number for "@ + field.name_spec(),
            ParseError::InvalidSample => "reading without a patient or with a repeated channel"@,
            ParseError::Undecodable => "structured message that does not decode"@,
        }
    }

    /// The sentence that reports the error.
    pub fn message(&self) -> (s: String)
        ensures
            s@ == self.message_spec(),
    {
        match self {
            ParseError::SegmentCount => "expected three comma-separated segments".to_owned(),
            ParseError::UnknownShape => {
                "expected BP:<systolic>/<diastolic>,HR:<rate>,SpO2:<saturation>".to_owned()
            },
            ParseError::InvalidNumber(field) => {
                let mut s = "invalid number for ".to_owned();
                s.append(field.name());
                s
            },
            ParseError::InvalidSample => {
                "reading without a patient or with a repeated channel".to_owned()
            },
            ParseError::Undecodable => "structured message that does not decode".to_owned(),
        }
    }
}

/// The four numbers of a compact message.
#[derive(Clone, Copy, Debug, PartialEq, Eq, Structural)]
pub struct Compact {
    pub systolic: i32,
    pub diastolic: i32,
    pub heart_rate: i32,
    pub oxygen_saturation: i32,
}

/// The three segments of a message: what stands before the first comma,
/// between the two commas, and after the second. `None` unless the message
/// holds exactly two commas.
pub open spec fn three_segments(text: Seq<char>) -> Option<(Seq<char>, Seq<char>, Seq<char>)> {
    let first = find(text, ',');
    let rest = text.skip(first + 1);
    let second = find(rest, ',');
    let last = rest.skip(second + 1);
    if first < text.len() && second < rest.len() && find(last, ',') == last.len() {
        Some((text.take(first), rest.take(second), last))
    } else {
        None
    }
}

/// What follows `label` in a segment that begins with it.
pub open spec fn after_label(segment: Seq<char>, label: Seq<char>) -> Option<Seq<char>> {
    if label.is_prefix_of(segment) {
        Some(segment.skip(label.len() as int))
    } else {
        None
    }
}

/// The numbers of the three bodies of a message, the labels taken off.
pub open spec fn parse_bodies(
    pressure: Seq<char>,
    rate: Seq<char>,
    saturation: Seq<char>,
) -> Result<Compact, ParseError> {
    let slash = find(pressure, '/');
    if slash >= pressure.len() {
        Err(ParseError::UnknownShape)
    } else {
        match parse_i32_spec(pressure.take(slash)) {
            None => Err(ParseError::InvalidNumber(Field::BloodPressureSystolic)),
            Some(systolic) => match parse_i32_spec(pressure.skip(slash + 1)) {
                None => Err(ParseError::InvalidNumber(Field::BloodPressureDiastolic)),
                Some(diastolic) => match parse_i32_spec(rate) {
                    None => Err(ParseError::InvalidNumber(Field::HeartRate)),
                    Some(heart_rate) => match parse_i32_spec(saturation) {
                        None => Err(ParseError::InvalidNumber(Field::OxygenSaturation)),
                        Some(oxygen_saturation) => Ok(
                            Compact { systolic, diastolic, heart_rate, oxygen_saturation },
                        ),
                    },
                },
            },
        }
    }
}

/// What a compact message says: its four numbers, or why it is none. The
/// number of segments is checked first, then the labels and the `/`, then
/// the numerals from left to right.
pub open spec fn parse_compact_spec(text: Seq<char>) -> Result<Compact, ParseError> {
    match three_segments(text) {
        None => Err(ParseError::SegmentCount),
        Some((s0, s1, s2)) => match (
            after_label(trim(s0), "BP:"@),
            after_label(trim(s1), "HR:"@),
            after_label(trim(s2), "SpO2:"@),
        ) {
            (Some(pressure), Some(rate), Some(saturation)) => parse_bodies(
                pressure,
                rate,
                saturation,
            ),
            _ => Err(ParseError::UnknownShape),
        },
    }
}

/// The compact message that carries the four numbers.
pub open spec fn compact_text(c: Compact) -> Seq<char> {
    "BP:"@ + decimal(c.systolic as int) + "/"@ + decimal(c.diastolic as int) + ",HR:"@ + decimal(
        c.heart_rate as int,
    ) + ",SpO2:"@ + decimal(c.oxygen_saturation as int)
}

/// The reading that a compact message stands for: its four channels, for
/// the given patient, and nothing else.
pub open spec fn compact_reading(patient_id: Seq<char>, c: Compact) -> VitalSignsView {
    VitalSignsView {
        patient_id,
        heart_rate: Some(c.heart_rate),
        blood_pressure_systolic: Some(c.systolic),
        blood_pressure_diastolic: Some(c.diastolic),
        oxygen_saturation: Some(c.oxygen_saturation),
        respiratory_rate: None,
        temperature: None,
        additional_params: Seq::empty(),
    }
}

/// The four numbers of a reading that has them all.
pub open spec fn compact_of(vitals: VitalSignsView) -> Option<Compact> {
    match (
        vitals.blood_pressure_systolic,
        vitals.blood_pressure_diastolic,
        vitals.heart_rate,
        vitals.oxygen_saturation,
    ) {
        (Some(systolic), Some(diastolic), Some(heart_rate), Some(oxygen_saturation)) => Some(
            Compact { systolic, diastolic, heart_rate, oxygen_saturation },
        ),
        _ => None,
    }
}

/// The body of the segment `s[lo..hi]`: the segment trimmed and its label
/// taken off, as positions in `s`.
fn body_range(s: &Vec<char>, lo: usize, hi: usize, label: &str) -> (body: Option<(usize, usize)>)
    requires
        lo <= hi <= s.len(),
    ensures
        match after_label(trim(s@.subrange(lo as int, hi as int)), label@) {
            Some(rest) => body matches Some((a, b)) && lo <= a <= b <= hi && s@.subrange(
                a as int,
                b as int,
            ) == rest,
            None => body is None,
        },
{
    let (a, b) = trim_range(s, lo, hi);
    let l = chars_of(label);
    if starts_with(s, a, b, &l) {
        assert(s@.subrange(a as int, b as int).skip(l.len() as int) =~= s@.subrange(
            a + l.len(),
            b as int,
        ));
        Some((a + l.len(), b))
    } else {
        None
    }
}

/// The numbers of the three bodies, given as positions in `s`.
fn parse_body_ranges(
    s: &Vec<char>,
    pressure: (usize, usize),
    rate: (usize, usize),
    saturation: (usize, usize),
) -> (result: Result<Compact, ParseError>)
    requires
        pressure.0 <= pressure.1 <= s.len(),
        rate.0 <= rate.1 <= s.len(),
        saturation.0 <= saturation.1 <= s.len(),
    ensures
        result == parse_bodies(
            s@.subrange(pressure.0 as int, pressure.1 as int),
            s@.subrange(rate.0 as int, rate.1 as int),
            s@.subrange(saturation.0 as int, saturation.1 as int),
        ),
{
    let ghost body = s@.subrange(pressure.0 as int, pressure.1 as int);
    let slash = find_char(s, pressure.0, pressure.1, '/');
    if slash == pressure.1 {
        return Err(ParseError::UnknownShape);
    }
    proof {
        assert(body.take(slash - pressure.0) =~= s@.subrange(pressure.0 as int, slash as int));
        assert(body.skip(slash - pressure.0 + 1) =~= s@.subrange(slash + 1, pressure.1 as int));
    }
    let systolic = match parse_i32_range(s, pressure.0, slash) {
        None => {
            return Err(ParseError::InvalidNumber(Field::BloodPressureSystolic));
        },
        Some(n) => n,
    };
    let diastolic = match parse_i32_range(s, slash + 1, pressure.1) {
        None => {
            return Err(ParseError::InvalidNumber(Field::BloodPressureDiastolic));
        },
        Some(n) => n,
    };
    let heart_rate = match parse_i32_range(s, rate.0, rate.1) {
        None => {
            return Err(ParseError::InvalidNumber(Field::HeartRate));
        },
        Some(n) => n,
    };
    let oxygen_saturation = match parse_i32_range(s, saturation.0, saturation.1) {
        None => {
            return Err(ParseError::InvalidNumber(Field::OxygenSaturation));
        },
        Some(n) => n,
    };
    Ok(Compact { systolic, diastolic, heart_rate, oxygen_saturation })
}

/// What follows position `from` in `t`, as a part of `t`.
proof fn skip_is_subrange(t: Seq<char>, from: int)
    requires
        0 <= from <= t.len(),
    ensures
        t.skip(from) == t.subrange(from, t.len() as int),
        t.take(from) == t.subrange(0, from),
        t.subrange(0, t.len() as int) == t,
{
    assert(t.skip(from) =~= t.subrange(from, t.len() as int));
    assert(t.take(from) =~= t.subrange(0, from));
    assert(t.subrange(0, t.len() as int) =~= t);
}

/// A part of what follows position `from` in `t`, as a part of `t`.
proof fn take_of_skip(t: Seq<char>, from: int, len: int)
    requires
        0 <= from,
        0 <= len,
        from + len <= t.len(),
    ensures
        t.skip(from).take(len) == t.subrange(from, from + len),
        t.skip(from).skip(len) == t.skip(from + len),
{
    assert(t.skip(from).take(len) =~= t.subrange(from, from + len));
    assert(t.skip(from).skip(len) =~= t.skip(from + len));
}

/// The positions of the two commas of a message that holds exactly two.
fn comma_positions(s: &Vec<char>) -> (commas: Option<(usize, usize)>)
    ensures
        match three_segments(s@) {
            Some(segments) => {
                &&& commas matches Some((first, second))
                &&& first < second < s.len()
                &&& segments.0 == s@.subrange(0, first as int)
                &&& segments.1 == s@.subrange(first + 1, second as int)
                &&& segments.2 == s@.subrange(second + 1, s.len() as int)
            },
            None => commas is None,
        },
{
    let n = s.len();
    proof {
        skip_is_subrange(s@, 0);
    }
    let first = find_char(s, 0, n, ',');
    if first == n {
        return None;
    }
    proof {
        skip_is_subrange(s@, first as int);
        skip_is_subrange(s@, first + 1);
    }
    let second = find_char(s, first + 1, n, ',');
    if second == n {
        return None;
    }
    proof {
        take_of_skip(s@, first + 1, second - first - 1);
        take_of_skip(s@, first + 1, second - first);
        skip_is_subrange(s@, second + 1);
    }
    let third = find_char(s, second + 1, n, ',');
    if third != n {
        return None;
    }
    Some((first, second))
}

/// Reads the four numbers of a compact message.
pub fn parse_compact_numbers(text: &str) -> (result: Result<Compact, ParseError>)
    ensures
        result == parse_compact_spec(text@),
{
    let s = chars_of(text);
    match comma_positions(&s) {
        None => Err(ParseError::SegmentCount),
        Some((first, second)) => {
            let pressure = body_range(&s, 0, first, "BP:");
            let rate = body_range(&s, first + 1, second, "HR:");
            let saturation = body_range(&s, second + 1, s.len(), "SpO2:");
            match (pressure, rate, saturation) {
                (Some(p), Some(r), Some(o)) => parse_body_ranges(&s, p, r, o),
                _ => Err(ParseError::UnknownShape),
            }
        },
    }
}

/// Reads a compact message as a reading of the given patient. The reading
/// holds the four channels of the message and nothing else. A message for
/// no patient is refused.
pub fn parse_compact(text: &str, patient_id: &str) -> (result: Result<VitalSigns, ParseError>)
    ensures
        parsed_view(result) == compact_message_spec(text@, patient_id@),
        result matches Ok(vitals) ==> vitals@.wf(),
{
    match parse_compact_numbers(text) {
        Err(e) => Err(e),
        Ok(c) => {
            if patient_id.unicode_len() == 0 {
                return Err(ParseError::InvalidSample);
            }
            let vitals = VitalSigns {
                patient_id: patient_id.to_owned(),
                heart_rate: Some(c.heart_rate),
                blood_pressure_systolic: Some(c.systolic),
                blood_pressure_diastolic: Some(c.diastolic),
                oxygen_saturation: Some(c.oxygen_saturation),
                respiratory_rate: None,
                temperature: None,
                additional_params: Vec::new(),
            };
            assert(vitals@.additional_params =~= Seq::empty());
            assert(vitals@.param_names() =~= Seq::empty());
            Ok(vitals)
        },
    }
}

/// Writes the compact message of a reading. `None` when the reading lacks
/// one of the four channels that the format carries.
pub fn encode_compact(vitals: &VitalSigns) -> (message: Option<String>)
    ensures
        match compact_of(vitals@) {
            Some(c) => message matches Some(s) && s@ == compact_text(c),
            None => message is None,
        },
{
    match (
        vitals.blood_pressure_systolic,
        vitals.blood_pressure_diastolic,
        vitals.heart_rate,
        vitals.oxygen_saturation,
    ) {
        (Some(systolic), Some(diastolic), Some(heart_rate), Some(oxygen_saturation)) => {
            let mut s = "BP:".to_owned();
            append_decimal(&mut s, systolic as i64);
            s.append("/");
            append_decimal(&mut s, diastolic as i64);
            s.append(",HR:");
            append_decimal(&mut s, heart_rate as i64);
            s.append(",SpO2:");
            append_decimal(&mut s, oxygen_saturation as i64);
            Some(s)
        },
        _ => None,
    }
}

/// What a compact message says as a reading of the given patient. A
/// message for no patient is refused.
pub open spec fn compact_message_spec(text: Seq<char>, patient_id: Seq<char>) -> Result<
    VitalSignsView,
    ParseError,
> {
    match parse_compact_spec(text) {
        Ok(c) => if patient_id.len() > 0 {
            Ok(compact_reading(patient_id, c))
        } else {
            Err(ParseError::InvalidSample)
        },
        Err(e) => Err(e),
    }
}

/// The first character of `s` that is no blank, if there is one.
pub open spec fn first_mark(s: Seq<char>) -> Option<char>
    decreases s.len(),
{
    if s.len() == 0 {
        None
    } else if is_space(s[0]) {
        first_mark(s.drop_first())
    } else {
        Some(s[0])
    }
}

/// The message opens like a structured one: with a brace, after blanks or
/// none.
pub open spec fn looks_structured(text: Seq<char>) -> bool {
    first_mark(text) == Some('{')
}

/// What a message says, given what the structured decoding made of it. A
/// decoded reading stands if it is well formed. A message that did not
/// decode is refused if it opens like a structured one, and is read as a
/// compact message of the given patient otherwise.
pub open spec fn parse_message_spec(
    text: Seq<char>,
    decoded: Option<VitalSignsView>,
    patient_id: Seq<char>,
) -> Result<VitalSignsView, ParseError> {
    match decoded {
        Some(vitals) => if vitals.wf() {
            Ok(vitals)
        } else {
            Err(ParseError::InvalidSample)
        },
        None => if looks_structured(text) {
            Err(ParseError::Undecodable)
        } else {
            compact_message_spec(text, patient_id)
        },
    }
}

/// The view of the outcome of parsing.
pub open spec fn parsed_view(result: Result<VitalSigns, ParseError>) -> Result<
    VitalSignsView,
    ParseError,
> {
    match result {
        Ok(vitals) => Ok(vitals@),
        Err(e) => Err(e),
    }
}

/// Whether the message opens like a structured one.
fn opens_with_brace(text: &str) -> (b: bool)
    ensures
        b == looks_structured(text@),
{
    let s = chars_of(text);
    let n = s.len();
    let mut i: usize = 0;
    assert(s@.skip(0) =~= text@);
    while i < n && is_blank(s[i])
        invariant
            i <= n,
            n == s.len(),
            first_mark(text@) == first_mark(s@.skip(i as int)),
        decreases n - i,
    {
        assert(s@.skip(i as int).drop_first() =~= s@.skip(i + 1));
        i += 1;
    }
    i < n && s[i] == '{'
}

/// Reads a message. `decoded` is what the structured decoding made of the
/// message: the reading, or `None` if the message did not decode. A message
/// that did not decode is refused as undecodable if it opens with a brace,
/// and is read as a compact message of the patient `patient_id` otherwise.
/// Every reading that comes out is well formed.
pub fn parse_message(text: &str, decoded: Option<VitalSigns>, patient_id: &str) -> (result: Result<
    VitalSigns,
    ParseError,
>)
    ensures
        parsed_view(result) == parse_message_spec(
            text@,
            match decoded {
                Some(vitals) => Some(vitals@),
                None => None,
            },
            patient_id@,
        ),
        result matches Ok(vitals) ==> vitals@.wf(),
{
    match decoded {
        Some(vitals) => {
            if vitals.is_well_formed() {
                Ok(vitals)
            } else {
                Err(ParseError::InvalidSample)
            }
        },
        None => {
            if opens_with_brace(text) {
                Err(ParseError::Undecodable)
            } else {
                parse_compact(text, patient_id)
            }
        },
    }
}

} // verus!
