//! Resolving a relative attribute to an offset: a count of seconds.
//!
//! The grammar of durations is `tasklib`'s. Its parser reads every count into
//! 32 bits and multiplies without a check, so a text is handed to it only if
//! none of its counts has more than [`COUNT_DIGITS`] digits. What the parser
//! recognises is taken back in ISO-8601 spelling, read field by field, and
//! summed in arithmetic that cannot overflow.

use crate::record::{Attribute, AttributeModel, AttributeName, RecordModel, TaskRecord};
use crate::spelling::{is_decimal_digit, is_digit, seconds_of_spelling, spelled_seconds};
use tasklib::prelude::{Duration, UdaValue};
use vstd::prelude::*;
use vstd::string::*;
use vstd::utf8::encode_utf8;

verus! {

/// Why an attribute does not resolve to an offset.
#[derive(Clone, Copy, Debug, PartialEq, Eq, Structural)]
pub enum Failure {
    /// The attribute holds a value that is no text, such as a number.
    NotText,
    /// The text does not spell a duration.
    NotADuration,
    /// A count in the text has more than [`COUNT_DIGITS`] digits, or the
    /// duration is longer than `u32::MAX` seconds.
    OutOfRange,
}

/// An attribute that did not resolve: its name, what it holds as written,
/// and why that is no offset.
#[derive(Debug, PartialEq, Eq)]
pub struct ParseError {
    pub attribute: AttributeName,
    pub raw: String,
    pub reason: Failure,
}

/// The mathematical value of a [`ParseError`].
pub struct ParseErrorModel {
    pub attribute: AttributeName,
    pub raw: Seq<char>,
    pub reason: Failure,
}

impl View for ParseError {
    type V = ParseErrorModel;

    open spec fn view(&self) -> ParseErrorModel {
        ParseErrorModel { attribute: self.attribute, raw: self.raw@, reason: self.reason }
    }
}

/// The offsets that the two relative attributes of a task resolve to.
#[derive(Clone, Copy, Debug, PartialEq, Eq, Structural)]
pub struct Offsets {
    pub untilrel: Option<u32>,
    pub waitrel: Option<u32>,
}

/// The longest count, in decimal digits, with which a text is parsed.
pub const COUNT_DIGITS: usize = 6;

/// The duration that `tasklib` reads from `text`, in ISO-8601 spelling, or
/// `None` where it reads none.
pub uninterp spec fn parsed_duration(text: Seq<char>) -> Option<Seq<u8>>;

/// `UdaValue::as_uda_duration` on a text, its result spelled out by the
/// `Display` of `tasklib`'s `Duration`.
///
/// Trusted: what comes back depends on the text alone, and the parser does
/// not panic on a text in which no more than [`COUNT_DIGITS`] digits stand in
/// a row. Every count then fits in 32 bits, and so does what the parser makes
/// of it: its product with the days of its unit, 730 at most, and in the ISO
/// form the sum of the days of the years and the days. Adding the zero
/// duration drops the text that a parsed duration remembers, so that
/// `Display` spells the counts.
#[verifier::external_body]
fn parse_duration(text: &str) -> (spelled: Option<Vec<u8>>)
    requires
        counts_are_short(text.spec_bytes()),
    ensures
        spelled matches Some(bytes) ==> parsed_duration(text@) == Some(bytes@),
        spelled is None ==> parsed_duration(text@) is None,
{
    match UdaValue::from(text).as_uda_duration() {
        Ok(UdaValue::Duration(read)) => Some((read + Duration::default()).to_string().into_bytes()),
        _ => None,
    }
}

/// How many decimal digits stand directly before position `end`.
pub open spec fn run_before(bytes: Seq<u8>, end: int) -> nat
    decreases end,
{
    if 0 < end <= bytes.len() && is_digit(bytes[end - 1]) {
        1 + run_before(bytes, end - 1)
    } else {
        0
    }
}

/// No count in `bytes` has more than [`COUNT_DIGITS`] digits.
pub open spec fn counts_are_short(bytes: Seq<u8>) -> bool {
    forall|end: int| 0 <= end <= bytes.len() ==> #[trigger] run_before(bytes, end) <= COUNT_DIGITS
}

/// Tests whether no count in `text` has more than [`COUNT_DIGITS`] digits.
pub fn has_short_counts(text: &str) -> (ok: bool)
    ensures
        ok == counts_are_short(text.spec_bytes()),
{
    let bytes = text.as_bytes();
    let mut run: usize = 0;
    let mut at: usize = 0;
    while at < bytes.len()
        invariant
            bytes@ == text.spec_bytes(),
            at <= bytes.len(),
            run == run_before(bytes@, at as int),
            forall|end: int| 0 <= end <= at ==> #[trigger] run_before(bytes@, end) <= COUNT_DIGITS,
        decreases bytes.len() - at,
    {
        if is_decimal_digit(bytes[at]) {
            run = run + 1;
        } else {
            run = 0;
        }
        at = at + 1;
        if run > COUNT_DIGITS {
            assert(run_before(bytes@, at as int) > COUNT_DIGITS);
            return false;
        }
    }
    true
}

/// The offset that a text stands for.
pub open spec fn text_seconds(text: Seq<char>) -> Result<u32, Failure> {
    if !counts_are_short(encode_utf8(text)) {
        Err(Failure::OutOfRange)
    } else {
        match parsed_duration(text) {
            None => Err(Failure::NotADuration),
            Some(spelled) => spelled_seconds(spelled),
        }
    }
}

/// The offset that the attribute `name` resolves to where it holds `held`:
/// none where it is absent, an error where it holds anything but the text of
/// a duration.
pub open spec fn resolved(name: AttributeName, held: AttributeModel) -> Result<
    Option<u32>,
    ParseErrorModel,
> {
    match held {
        AttributeModel::Absent => Ok(None),
        AttributeModel::Text(text) => match text_seconds(text) {
            Ok(seconds) => Ok(Some(seconds)),
            Err(reason) => Err(ParseErrorModel { attribute: name, raw: text, reason }),
        },
        AttributeModel::Other(value) => Err(
            ParseErrorModel { attribute: name, raw: value, reason: Failure::NotText },
        ),
    }
}

/// The offsets of a record. Where both attributes fail, the error is that of
/// `untilrel`.
pub open spec fn resolved_offsets(m: RecordModel) -> Result<Offsets, ParseErrorModel> {
    match resolved(AttributeName::Untilrel, m.untilrel) {
        Err(error) => Err(error),
        Ok(untilrel) => match resolved(AttributeName::Waitrel, m.waitrel) {
            Err(error) => Err(error),
            Ok(waitrel) => Ok(Offsets { untilrel, waitrel }),
        },
    }
}

/// Resolves a text to the offset it stands for.
pub fn parse_offset(text: &str) -> (read: Result<u32, Failure>)
    ensures
        read == text_seconds(text@),
{
    if !has_short_counts(text) {
        return Err(Failure::OutOfRange);
    }
    match parse_duration(text) {
        None => Err(Failure::NotADuration),
        Some(spelled) => seconds_of_spelling(spelled.as_slice()),
    }
}

/// Resolves what the attribute `name` holds.
pub fn resolve(name: AttributeName, held: &Attribute) -> (found: Result<Option<u32>, ParseError>)
    ensures
        match found {
            Ok(offset) => resolved(name, held@) == Ok::<Option<u32>, ParseErrorModel>(offset),
            Err(error) => resolved(name, held@) == Err::<Option<u32>, ParseErrorModel>(error@),
        },
{
    match held {
        Attribute::Absent => Ok(None),
        Attribute::Text(text) => match parse_offset(text.as_str()) {
            Ok(seconds) => Ok(Some(seconds)),
            Err(reason) => Err(ParseError { attribute: name, raw: text.clone(), reason }),
        },
        Attribute::Other(value) => Err(
            ParseError { attribute: name, raw: value.clone(), reason: Failure::NotText },
        ),
    }
}

/// Resolves the two relative attributes of a record, `untilrel` first.
pub fn resolve_offsets(record: &TaskRecord) -> (found: Result<Offsets, ParseError>)
    ensures
        match found {
            Ok(offsets) => resolved_offsets(record@) == Ok::<Offsets, ParseErrorModel>(offsets),
            Err(error) => resolved_offsets(record@) == Err::<Offsets, ParseErrorModel>(error@),
        },
{
    let untilrel = match resolve(AttributeName::Untilrel, record.untilrel()) {
        Ok(offset) => offset,
        Err(error) => {
            return Err(error);
        },
    };
    let waitrel = match resolve(AttributeName::Waitrel, record.waitrel()) {
        Ok(offset) => offset,
        Err(error) => {
            return Err(error);
        },
    };
    Ok(Offsets { untilrel, waitrel })
}

} // verus!
