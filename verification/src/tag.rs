//! The tag registry: the well-known tags by name and number, and the section
//! of a message (header, body or trailer) that a tag belongs to.

use vstd::prelude::*;

verus! {

/// The well-known tags. The variants stand in ascending order of their
/// numbers, so the derived order is the numeric one.
#[derive(Debug, Copy, Clone, PartialEq, Eq, Structural, Hash, PartialOrd, Ord)]
#[allow(dead_code)]
pub enum Tags {
    BeginSeqNo,
    BeginString,
    BodyLength,
    CheckSum,
    EndSeqNo,
    MsgSeqNum,
    MsgType,
    NewSeqNo,
    PossDupFlag,
    RefSeqNum,
    SenderCompID,
    SenderSubID,
    SendingTime,
    TargetCompID,
    TargetSubID,
    Text,
    Signature,
    SecureDataLen,
    SecureData,
    SignatureLength,
    PossResend,
    EncryptMethod,
    HeartBtInt,
    TestReqID,
    OnBehalfOfCompID,
    OnBehalfOfSubID,
    OrigSendingTime,
    GapFillFlag,
    DeliverToCompID,
    DeliverToSubID,
    ResetSeqNumFlag,
    SenderLocationID,
    TargetLocationID,
    OnBehalfOfLocationID,
    DeliverToLocationID,
    XMLDataLen,
    XMLData,
    MessageEncoding,
    LastMsgSeqNumProcessed,
    OnBehalfOfSendingTime,
    RefID,
    RefMsgType,
    SessionRejectReason,
    BusinessRejectReason,
    NoHops,
    HopCompID,
    HopSendingTime,
    HopRefID,
    ApplVerID,
    CstmApplVerID,
    DefaultApplVerID,
    ApplExtID,
}

/// The numbers of the tags that belong to the header of a message.
pub open spec fn header_tags() -> Set<u32> {
    set![
        8u32, 9u32, 35u32, 49u32, 56u32, 115u32, 128u32, 90u32, 34u32, 50u32,
        142u32, 57u32, 143u32, 116u32, 144u32, 129u32, 145u32, 43u32, 97u32, 52u32,
        122u32, 212u32, 213u32, 347u32, 369u32, 370u32, 1128u32, 1129u32, 627u32, 1156u32,
        91u32, 628u32, 629u32, 630u32,
    ]
}

/// The numbers of the tags that belong to the trailer of a message.
pub open spec fn trailer_tags() -> Set<u32> {
    set![93u32, 89u32, 10u32]
}

/// Whether `tag` belongs to the body: it is in neither of the other sections.
pub open spec fn is_body_tag(tag: u32) -> bool {
    !header_tags().contains(tag) && !trailer_tags().contains(tag)
}

impl Tags {
    /// The number of each well-known tag.
    pub open spec fn spec_to_num(&self) -> u32 {
        match self {
            Tags::BeginSeqNo => 7,
            Tags::BeginString => 8,
            Tags::BodyLength => 9,
            Tags::CheckSum => 10,
            Tags::EndSeqNo => 16,
            Tags::MsgSeqNum => 34,
            Tags::MsgType => 35,
            Tags::NewSeqNo => 36,
            Tags::PossDupFlag => 43,
            Tags::RefSeqNum => 45,
            Tags::SenderCompID => 49,
            Tags::SenderSubID => 50,
            Tags::SendingTime => 52,
            Tags::TargetCompID => 56,
            Tags::TargetSubID => 57,
            Tags::Text => 58,
            Tags::Signature => 89,
            Tags::SecureDataLen => 90,
            Tags::SecureData => 91,
            Tags::SignatureLength => 93,
            Tags::PossResend => 97,
            Tags::EncryptMethod => 98,
            Tags::HeartBtInt => 108,
            Tags::TestReqID => 112,
            Tags::OnBehalfOfCompID => 115,
            Tags::OnBehalfOfSubID => 116,
            Tags::OrigSendingTime => 122,
            Tags::GapFillFlag => 123,
            Tags::DeliverToCompID => 128,
            Tags::DeliverToSubID => 129,
            Tags::ResetSeqNumFlag => 141,
            Tags::SenderLocationID => 142,
            Tags::TargetLocationID => 143,
            Tags::OnBehalfOfLocationID => 144,
            Tags::DeliverToLocationID => 145,
            Tags::XMLDataLen => 212,
            Tags::XMLData => 213,
            Tags::MessageEncoding => 347,
            Tags::LastMsgSeqNumProcessed => 369,
            Tags::OnBehalfOfSendingTime => 370,
            Tags::RefID => 371,
            Tags::RefMsgType => 372,
            Tags::SessionRejectReason => 373,
            Tags::BusinessRejectReason => 380,
            Tags::NoHops => 627,
            Tags::HopCompID => 628,
            Tags::HopSendingTime => 629,
            Tags::HopRefID => 630,
            Tags::ApplVerID => 1128,
            Tags::CstmApplVerID => 1129,
            Tags::DefaultApplVerID => 1137,
            Tags::ApplExtID => 1156,
        }
    }

    /// The well-known tag with the number `num`, if there is one.
    pub fn from_number(num: u32) -> (r: Option<Tags>)
        ensures
            match r {
                Some(tag) => tag.spec_to_num() == num,
                None => forall|tag: Tags| tag.spec_to_num() != num,
            },
    {
        match num {
            7 => Some(Tags::BeginSeqNo),
            8 => Some(Tags::BeginString),
            9 => Some(Tags::BodyLength),
            10 => Some(Tags::CheckSum),
            16 => Some(Tags::EndSeqNo),
            34 => Some(Tags::MsgSeqNum),
            35 => Some(Tags::MsgType),
            36 => Some(Tags::NewSeqNo),
            43 => Some(Tags::PossDupFlag),
            45 => Some(Tags::RefSeqNum),
            49 => Some(Tags::SenderCompID),
            50 => Some(Tags::SenderSubID),
            52 => Some(Tags::SendingTime),
            56 => Some(Tags::TargetCompID),
            57 => Some(Tags::TargetSubID),
            58 => Some(Tags::Text),
            89 => Some(Tags::Signature),
            90 => Some(Tags::SecureDataLen),
            91 => Some(Tags::SecureData),
            93 => Some(Tags::SignatureLength),
            97 => Some(Tags::PossResend),
            98 => Some(Tags::EncryptMethod),
            108 => Some(Tags::HeartBtInt),
            112 => Some(Tags::TestReqID),
            115 => Some(Tags::OnBehalfOfCompID),
            116 => Some(Tags::OnBehalfOfSubID),
            122 => Some(Tags::OrigSendingTime),
            123 => Some(Tags::GapFillFlag),
            128 => Some(Tags::DeliverToCompID),
            129 => Some(Tags::DeliverToSubID),
            141 => Some(Tags::ResetSeqNumFlag),
            142 => Some(Tags::SenderLocationID),
            143 => Some(Tags::TargetLocationID),
            144 => Some(Tags::OnBehalfOfLocationID),
            145 => Some(Tags::DeliverToLocationID),
            212 => Some(Tags::XMLDataLen),
            213 => Some(Tags::XMLData),
            347 => Some(Tags::MessageEncoding),
            369 => Some(Tags::LastMsgSeqNumProcessed),
            370 => Some(Tags::OnBehalfOfSendingTime),
            371 => Some(Tags::RefID),
            372 => Some(Tags::RefMsgType),
            373 => Some(Tags::SessionRejectReason),
            380 => Some(Tags::BusinessRejectReason),
            627 => Some(Tags::NoHops),
            628 => Some(Tags::HopCompID),
            629 => Some(Tags::HopSendingTime),
            630 => Some(Tags::HopRefID),
            1128 => Some(Tags::ApplVerID),
            1129 => Some(Tags::CstmApplVerID),
            1137 => Some(Tags::DefaultApplVerID),
            1156 => Some(Tags::ApplExtID),
            _ => None,
        }
    }

    /// The number of this tag.
    #[verifier::when_used_as_spec(spec_to_num)]
    pub fn to_num(&self) -> (num: u32)
        ensures
            num == self.spec_to_num(),
    {
        match self {
            Tags::BeginSeqNo => 7,
            Tags::BeginString => 8,
            Tags::BodyLength => 9,
            Tags::CheckSum => 10,
            Tags::EndSeqNo => 16,
            Tags::MsgSeqNum => 34,
            Tags::MsgType => 35,
            Tags::NewSeqNo => 36,
            Tags::PossDupFlag => 43,
            Tags::RefSeqNum => 45,
            Tags::SenderCompID => 49,
            Tags::SenderSubID => 50,
            Tags::SendingTime => 52,
            Tags::TargetCompID => 56,
            Tags::TargetSubID => 57,
            Tags::Text => 58,
            Tags::Signature => 89,
            Tags::SecureDataLen => 90,
            Tags::SecureData => 91,
            Tags::SignatureLength => 93,
            Tags::PossResend => 97,
            Tags::EncryptMethod => 98,
            Tags::HeartBtInt => 108,
            Tags::TestReqID => 112,
            Tags::OnBehalfOfCompID => 115,
            Tags::OnBehalfOfSubID => 116,
            Tags::OrigSendingTime => 122,
            Tags::GapFillFlag => 123,
            Tags::DeliverToCompID => 128,
            Tags::DeliverToSubID => 129,
            Tags::ResetSeqNumFlag => 141,
            Tags::SenderLocationID => 142,
            Tags::TargetLocationID => 143,
            Tags::OnBehalfOfLocationID => 144,
            Tags::DeliverToLocationID => 145,
            Tags::XMLDataLen => 212,
            Tags::XMLData => 213,
            Tags::MessageEncoding => 347,
            Tags::LastMsgSeqNumProcessed => 369,
            Tags::OnBehalfOfSendingTime => 370,
            Tags::RefID => 371,
            Tags::RefMsgType => 372,
            Tags::SessionRejectReason => 373,
            Tags::BusinessRejectReason => 380,
            Tags::NoHops => 627,
            Tags::HopCompID => 628,
            Tags::HopSendingTime => 629,
            Tags::HopRefID => 630,
            Tags::ApplVerID => 1128,
            Tags::CstmApplVerID => 1129,
            Tags::DefaultApplVerID => 1137,
            Tags::ApplExtID => 1156,
        }
    }
}

impl From<Tags> for u32 {
    fn from(tag: Tags) -> (num: u32) {
        tag.to_num()
    }
}

impl vstd::std_specs::convert::FromSpecImpl<Tags> for u32 {
    open spec fn obeys_from_spec() -> bool {
        true
    }

    open spec fn from_spec(tag: Tags) -> u32 {
        tag.spec_to_num()
    }
}

/// The section queries on a tag number.
pub trait Tag {
    fn is_trailer(&self) -> bool;

    fn is_header(&self) -> bool;
}

impl Tag for u32 {
    fn is_trailer(&self) -> (r: bool)
        ensures
            r == trailer_tags().contains(*self),
    {
        if let Some(tag) = Tags::from_number(*self) {
            let result = match tag {
                Tags::SignatureLength => true,
                Tags::Signature => true,
                Tags::CheckSum => true,
                _ => false,
            };
            return result;
        }
        proof {
            if trailer_tags().contains(*self) {
                lemma_section_tags_are_named(*self);
            }
        }
        false
    }

    fn is_header(&self) -> (r: bool)
        ensures
            r == header_tags().contains(*self),
    {
        if let Some(tag) = Tags::from_number(*self) {
            let result = match tag {
                Tags::BeginString => true,
                Tags::BodyLength => true,
                Tags::MsgType => true,
                Tags::SenderCompID => true,
                Tags::TargetCompID => true,
                Tags::OnBehalfOfCompID => true,
                Tags::DeliverToCompID => true,
                Tags::SecureDataLen => true,
                Tags::MsgSeqNum => true,
                Tags::SenderSubID => true,
                Tags::SenderLocationID => true,
                Tags::TargetSubID => true,
                Tags::TargetLocationID => true,
                Tags::OnBehalfOfSubID => true,
                Tags::OnBehalfOfLocationID => true,
                Tags::DeliverToSubID => true,
                Tags::DeliverToLocationID => true,
                Tags::PossDupFlag => true,
                Tags::PossResend => true,
                Tags::SendingTime => true,
                Tags::OrigSendingTime => true,
                Tags::XMLDataLen => true,
                Tags::XMLData => true,
                Tags::MessageEncoding => true,
                Tags::LastMsgSeqNumProcessed => true,
                Tags::OnBehalfOfSendingTime => true,
                Tags::ApplVerID => true,
                Tags::CstmApplVerID => true,
                Tags::NoHops => true,
                Tags::ApplExtID => true,
                Tags::SecureData => true,
                Tags::HopCompID => true,
                Tags::HopSendingTime => true,
                Tags::HopRefID => true,
                _ => false,
            };
            return result;
        }
        proof {
            if header_tags().contains(*self) {
                lemma_section_tags_are_named(*self);
            }
        }
        false
    }
}

/// Every number of a header or trailer tag is that of a well-known tag.
pub proof fn lemma_section_tags_are_named(num: u32)
    requires
        header_tags().contains(num) || trailer_tags().contains(num),
    ensures
        exists|tag: Tags| tag.spec_to_num() == num,
{
    if num == 8 {
        assert(Tags::BeginString.spec_to_num() == num);
    } else if num == 9 {
        assert(Tags::BodyLength.spec_to_num() == num);
    } else if num == 35 {
        assert(Tags::MsgType.spec_to_num() == num);
    } else if num == 49 {
        assert(Tags::SenderCompID.spec_to_num() == num);
    } else if num == 56 {
        assert(Tags::TargetCompID.spec_to_num() == num);
    } else if num == 115 {
        assert(Tags::OnBehalfOfCompID.spec_to_num() == num);
    } else if num == 128 {
        assert(Tags::DeliverToCompID.spec_to_num() == num);
    } else if num == 90 {
        assert(Tags::SecureDataLen.spec_to_num() == num);
    } else if num == 34 {
        assert(Tags::MsgSeqNum.spec_to_num() == num);
    } else if num == 50 {
        assert(Tags::SenderSubID.spec_to_num() == num);
    } else if num == 142 {
        assert(Tags::SenderLocationID.spec_to_num() == num);
    } else if num == 57 {
        assert(Tags::TargetSubID.spec_to_num() == num);
    } else if num == 143 {
        assert(Tags::TargetLocationID.spec_to_num() == num);
    } else if num == 116 {
        assert(Tags::OnBehalfOfSubID.spec_to_num() == num);
    } else if num == 144 {
        assert(Tags::OnBehalfOfLocationID.spec_to_num() == num);
    } else if num == 129 {
        assert(Tags::DeliverToSubID.spec_to_num() == num);
    } else if num == 145 {
        assert(Tags::DeliverToLocationID.spec_to_num() == num);
    } else if num == 43 {
        assert(Tags::PossDupFlag.spec_to_num() == num);
    } else if num == 97 {
        assert(Tags::PossResend.spec_to_num() == num);
    } else if num == 52 {
        assert(Tags::SendingTime.spec_to_num() == num);
    } else if num == 122 {
        assert(Tags::OrigSendingTime.spec_to_num() == num);
    } else if num == 212 {
        assert(Tags::XMLDataLen.spec_to_num() == num);
    } else if num == 213 {
        assert(Tags::XMLData.spec_to_num() == num);
    } else if num == 347 {
        assert(Tags::MessageEncoding.spec_to_num() == num);
    } else if num == 369 {
        assert(Tags::LastMsgSeqNumProcessed.spec_to_num() == num);
    } else if num == 370 {
        assert(Tags::OnBehalfOfSendingTime.spec_to_num() == num);
    } else if num == 1128 {
        assert(Tags::ApplVerID.spec_to_num() == num);
    } else if num == 1129 {
        assert(Tags::CstmApplVerID.spec_to_num() == num);
    } else if num == 627 {
        assert(Tags::NoHops.spec_to_num() == num);
    } else if num == 1156 {
        assert(Tags::ApplExtID.spec_to_num() == num);
    } else if num == 91 {
        assert(Tags::SecureData.spec_to_num() == num);
    } else if num == 628 {
        assert(Tags::HopCompID.spec_to_num() == num);
    } else if num == 629 {
        assert(Tags::HopSendingTime.spec_to_num() == num);
    } else if num == 630 {
        assert(Tags::HopRefID.spec_to_num() == num);
    } else if num == 93 {
        assert(Tags::SignatureLength.spec_to_num() == num);
    } else if num == 89 {
        assert(Tags::Signature.spec_to_num() == num);
    } else if num == 10 {
        assert(Tags::CheckSum.spec_to_num() == num);
    }
}

/// No two well-known tags share a number.
pub proof fn lemma_tag_numbers_distinct(a: Tags, b: Tags)
    requires
        a.spec_to_num() == b.spec_to_num(),
    ensures
        a == b,
{
}

/// Every tag belongs to exactly one of header, body and trailer.
pub proof fn lemma_one_section(tag: u32)
    ensures
        ({
            let header = header_tags().contains(tag);
            let trailer = trailer_tags().contains(tag);
            let body = is_body_tag(tag);
            ||| header && !trailer && !body
            ||| !header && trailer && !body
            ||| !header && !trailer && body
        }),
{
}

} // verus!
