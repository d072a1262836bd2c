//! The reject taxonomy and the decode errors of the typed field codecs.

use vstd::prelude::*;
use vstd::string::*;
use crate::decimal::{lemma_decimal_digits, render_u32, u32_to_decimal};
use crate::text::{ascii_chars, ascii_to_string};

verus! {

/// `core::fmt::Error` of std, as an opaque value that is carried through.
#[verifier::external_type_specification]
#[verifier::external_body]
pub struct ExFmtError(core::fmt::Error);

/// Why a message is rejected. The codes are those of the FIX session
/// protocol and go on the wire.
#[derive(Debug, Copy, Clone, PartialEq, Eq, Structural, Hash, PartialOrd, Ord)]
pub enum Reject {
    InvalidTagNumber,
    RequiredTagMissing,
    TagNotDefinedForThisMessageType,
    UnsupportedMessageType,
    TagSpecifiedWithoutAValue,
    ValueIsIncorrect,
    ConditionallyRequiredFieldMissing,
    IncorrectDataFormatForValue,
    CompIDProblem,
    SendingTimeAccuracyProblem,
    InvalidMsgType,
    TagAppearsMoreThanOnce,
    SpecifiedOutOfRequiredOrder,
    RepeatingGroupFieldsOutOfOrder,
    IncorrectNumInGroupCountForRepeatingGroup,
}

impl Reject {
    /// The session-protocol code of each reason.
    pub open spec fn spec_code(self) -> u32 {
        match self {
            Reject::InvalidTagNumber => 0,
            Reject::RequiredTagMissing => 1,
            Reject::TagNotDefinedForThisMessageType => 2,
            Reject::UnsupportedMessageType => 3,
            Reject::TagSpecifiedWithoutAValue => 4,
            Reject::ValueIsIncorrect => 5,
            Reject::ConditionallyRequiredFieldMissing => 6,
            Reject::IncorrectDataFormatForValue => 7,
            Reject::CompIDProblem => 8,
            Reject::SendingTimeAccuracyProblem => 9,
            Reject::InvalidMsgType => 11,
            Reject::TagAppearsMoreThanOnce => 13,
            Reject::SpecifiedOutOfRequiredOrder => 14,
            Reject::RepeatingGroupFieldsOutOfOrder => 15,
            Reject::IncorrectNumInGroupCountForRepeatingGroup => 16,
        }
    }

    /// The code that goes on the wire for this reason.
    #[verifier::when_used_as_spec(spec_code)]
    pub fn code(self) -> (c: u32)
        ensures
            c == self.spec_code(),
    {
        match self {
            Reject::InvalidTagNumber => 0,
            Reject::RequiredTagMissing => 1,
            Reject::TagNotDefinedForThisMessageType => 2,
            Reject::UnsupportedMessageType => 3,
            Reject::TagSpecifiedWithoutAValue => 4,
            Reject::ValueIsIncorrect => 5,
            Reject::ConditionallyRequiredFieldMissing => 6,
            Reject::IncorrectDataFormatForValue => 7,
            Reject::CompIDProblem => 8,
            Reject::SendingTimeAccuracyProblem => 9,
            Reject::InvalidMsgType => 11,
            Reject::TagAppearsMoreThanOnce => 13,
            Reject::SpecifiedOutOfRequiredOrder => 14,
            Reject::RepeatingGroupFieldsOutOfOrder => 15,
            Reject::IncorrectNumInGroupCountForRepeatingGroup => 16,
        }
    }
}

/// No two reasons share a code.
pub proof fn lemma_reject_codes_distinct(a: Reject, b: Reject)
    requires
        a.spec_code() == b.spec_code(),
    ensures
        a == b,
{
}

/// What a parse error says: its description and the text it could not read.
pub struct ParseErrorView {
    pub description: Seq<char>,
    pub value_parsed: Seq<char>,
}

/// `text` between round brackets.
pub open spec fn bracketed(text: Seq<char>) -> Seq<char> {
    "("@ + text + ")"@
}

fn bracket(text: &str) -> (s: String)
    ensures
        s@ == bracketed(text@),
{
    let mut s = String::from_str("(");
    s.append(text);
    s.append(")");
    s
}

/// A payload that is neither `Y` nor `N`.
#[derive(Debug)]
pub struct FixBooleanParseError {
    description: String,
    value_parsed: String,
}

impl View for FixBooleanParseError {
    type V = ParseErrorView;

    closed spec fn view(&self) -> ParseErrorView {
        ParseErrorView { description: self.description@, value_parsed: self.value_parsed@ }
    }
}

impl FixBooleanParseError {
    /// The description of the error for the text `value`.
    pub open spec fn describe(value: Seq<char>) -> Seq<char> {
        "Boolean could not be parsed:"@ + value
    }

    /// The error for the text `value`.
    pub fn new(value: String) -> (e: FixBooleanParseError)
        ensures
            e@.value_parsed == value@,
            e@.description == Self::describe(value@),
    {
        let mut description = String::from_str("Boolean could not be parsed:");
        description.append(value.as_str());
        FixBooleanParseError { description, value_parsed: value }
    }

    /// The description of the error.
    pub fn description(&self) -> (d: &str)
        ensures
            d@ == self@.description,
    {
        self.description.as_str()
    }

    /// The text that could not be read.
    pub fn value_parsed(&self) -> (v: &str)
        ensures
            v@ == self@.value_parsed,
    {
        self.value_parsed.as_str()
    }

    /// The description between round brackets.
    pub fn to_string(&self) -> (s: String)
        ensures
            s@ == bracketed(self@.description),
    {
        bracket(self.description.as_str())
    }
}

/// A payload that is no decimal integer of 32 bits.
#[derive(Debug)]
pub struct FixIntParseError {
    description: String,
    value_parsed: String,
}

impl View for FixIntParseError {
    type V = ParseErrorView;

    closed spec fn view(&self) -> ParseErrorView {
        ParseErrorView { description: self.description@, value_parsed: self.value_parsed@ }
    }
}

impl FixIntParseError {
    /// The description of the error for the text `value`.
    pub open spec fn describe(value: Seq<char>) -> Seq<char> {
        "Integer could not be parsed:"@ + value
    }

    /// The error for the text `value`.
    pub fn new(value: String) -> (e: FixIntParseError)
        ensures
            e@.value_parsed == value@,
            e@.description == Self::describe(value@),
    {
        let mut description = String::from_str("Integer could not be parsed:");
        description.append(value.as_str());
        FixIntParseError { description, value_parsed: value }
    }

    /// The description of the error.
    pub fn description(&self) -> (d: &str)
        ensures
            d@ == self@.description,
    {
        self.description.as_str()
    }

    /// The text that could not be read.
    pub fn value_parsed(&self) -> (v: &str)
        ensures
            v@ == self@.value_parsed,
    {
        self.value_parsed.as_str()
    }

    /// The description between round brackets.
    pub fn to_string(&self) -> (s: String)
        ensures
            s@ == bracketed(self@.description),
    {
        bracket(self.description.as_str())
    }
}

/// Why a typed codec could not read a payload.
#[derive(Debug)]
pub enum FixError {
    /// A formatting failure; the codecs of this library report none.
    Error(core::fmt::Error),
    /// The payload is not well-formed UTF-8.
    FromUtf8Error(std::string::FromUtf8Error),
    /// The payload is no boolean.
    BooleanParseError(FixBooleanParseError),
    /// The payload is no integer.
    IntError(FixIntParseError),
    /// The payload is no timestamp.
    TimeParseError(time::ParseError),
}

/// What a reject says.
pub struct RejectView {
    pub reject_reason: Reject,
    pub description: Seq<char>,
    pub ref_tag_id: u32,
    pub is_business_reject: bool,
}

/// One protocol violation: the reason, a description, the offending tag, and
/// whether it is reported as a business reject or as a session reject.
#[derive(Debug)]
pub struct MessageRejectError {
    reject_reason: Reject,
    description: String,
    ref_tag_id: u32,
    id_business_reject: bool,
}

impl View for MessageRejectError {
    type V = RejectView;

    closed spec fn view(&self) -> RejectView {
        RejectView {
            reject_reason: self.reject_reason,
            description: self.description@,
            ref_tag_id: self.ref_tag_id,
            is_business_reject: self.id_business_reject,
        }
    }
}

/// The session reject for a field that is not there.
pub open spec fn missing_field_reject(tag: u32) -> RejectView {
    RejectView {
        reject_reason: Reject::ConditionallyRequiredFieldMissing,
        description: "Conditionally Required Field Missing "@ + ascii_chars(render_u32(tag)),
        ref_tag_id: tag,
        is_business_reject: false,
    }
}

/// The session reject for a field whose payload cannot be read.
pub open spec fn bad_format_reject(tag: u32) -> RejectView {
    RejectView {
        reject_reason: Reject::IncorrectDataFormatForValue,
        description: "Incorrect data format for value"@,
        ref_tag_id: tag,
        is_business_reject: false,
    }
}

impl MessageRejectError {
    /// A session reject.
    pub fn new_message_reject_error(err: String, reject_reason: Reject, ref_tag_id: u32) -> (e:
        MessageRejectError)
        ensures
            e@ == (RejectView {
                reject_reason,
                description: err@,
                ref_tag_id,
                is_business_reject: false,
            }),
    {
        MessageRejectError { description: err, reject_reason, ref_tag_id, id_business_reject: false }
    }

    /// A business reject.
    pub fn new_business_message_reject_error(
        err: String,
        reject_reason: Reject,
        ref_tag_id: u32,
    ) -> (e: MessageRejectError)
        ensures
            e@ == (RejectView {
                reject_reason,
                description: err@,
                ref_tag_id,
                is_business_reject: true,
            }),
    {
        MessageRejectError { description: err, reject_reason, ref_tag_id, id_business_reject: true }
    }

    /// The session reject for the missing field `tag`.
    pub fn conditionally_required_field_missing(tag: u32) -> (e: MessageRejectError)
        ensures
            e@ == missing_field_reject(tag),
    {
        let digits = u32_to_decimal(tag);
        proof {
            lemma_decimal_digits(tag as nat);
        }
        let number = ascii_to_string(digits);
        let mut description = String::from_str("Conditionally Required Field Missing ");
        description.append(number.as_str());
        Self::new_message_reject_error(description, Reject::ConditionallyRequiredFieldMissing, tag)
    }

    /// The session reject for the unreadable value of the field `tag`.
    pub fn incorrect_data_format_for_value(tag: u32) -> (e: MessageRejectError)
        ensures
            e@ == bad_format_reject(tag),
    {
        Self::new_message_reject_error(
            String::from_str("Incorrect data format for value"),
            Reject::IncorrectDataFormatForValue,
            tag,
        )
    }

    /// The reason of the reject.
    pub fn reject_reason(&self) -> (r: Reject)
        ensures
            r == self@.reject_reason,
    {
        self.reject_reason
    }

    /// The offending tag.
    pub fn ref_tag_id(&self) -> (t: &u32)
        ensures
            *t == self@.ref_tag_id,
    {
        &self.ref_tag_id
    }

    /// Whether this is a business reject rather than a session reject.
    pub fn is_business_reject(&self) -> (b: bool)
        ensures
            b == self@.is_business_reject,
    {
        self.id_business_reject
    }

    /// The description of the error.
    pub fn description(&self) -> (d: &str)
        ensures
            d@ == self@.description,
    {
        self.description.as_str()
    }

    /// The description between round brackets.
    pub fn to_string(&self) -> (s: String)
        ensures
            s@ == bracketed(self@.description),
    {
        bracket(self.description.as_str())
    }
}

} // verus!
