//! The wire unit `tag=value`: its byte form, and the way back from bytes.

use vstd::prelude::*;
use vstd::slice::{slice_subrange, slice_to_vec};
use vstd::string::*;
use crate::decimal::{
    decimal_to_u32, is_digit, lemma_decimal_digits, parse_u32, render_u32, u32_to_decimal,
};

verus! {

/// The byte `=` between a tag and its value.
pub const SEPARATOR: u8 = 0x3d;

/// What a tag-value pair holds: the tag, the undecoded value and the byte
/// form of the whole.
pub struct TagValueView {
    pub tag: u32,
    pub value: Seq<u8>,
    pub bytes: Seq<u8>,
}

/// The byte form of a field: the tag in decimal, `=`, the value; no
/// delimiter follows.
pub open spec fn encode(tag: u32, value: Seq<u8>) -> Seq<u8> {
    render_u32(tag) + seq![0x3du8] + value
}

/// Whether the first `=` of `raw` stands at `i`.
pub open spec fn separator_at(raw: Seq<u8>, i: int) -> bool {
    &&& 0 <= i < raw.len()
    &&& raw[i] == 0x3d
    &&& forall|j: int| 0 <= j < i ==> raw[j] != 0x3d
}

/// Whether `raw` holds a `=`.
pub open spec fn has_separator(raw: Seq<u8>) -> bool {
    exists|i: int| separator_at(raw, i)
}

/// Where the first `=` of `raw` stands.
pub open spec fn separator_index(raw: Seq<u8>) -> int {
    choose|i: int| separator_at(raw, i)
}

/// The pair that the bytes `raw` denote: what stands before the first `=` is
/// the tag number, all that follows it the value, and `raw` itself is kept as
/// the byte form. `None` where there is no `=` or no tag number before it.
pub open spec fn decode(raw: Seq<u8>) -> Option<TagValueView> {
    if has_separator(raw) {
        let i = separator_index(raw);
        match parse_u32(raw.take(i)) {
            Some(tag) => Some(TagValueView { tag, value: raw.skip(i + 1), bytes: raw }),
            None => None,
        }
    } else {
        None
    }
}

/// What `parse` reports for bytes that denote no pair.
pub open spec fn failure_text(raw: Seq<u8>) -> Seq<char> {
    if has_separator(raw) {
        "TagValue.parse: tag is not a number"@
    } else {
        "TagValue.parse: '=' not found"@
    }
}

/// The first `=` stands at one place only.
pub proof fn lemma_separator_unique(raw: Seq<u8>, i: int, j: int)
    requires
        separator_at(raw, i),
        separator_at(raw, j),
    ensures
        i == j,
{
}

/// Decoding the byte form of a tag and a value gives them back.
pub proof fn lemma_decode_encode(tag: u32, value: Seq<u8>)
    ensures
        decode(encode(tag, value)) == Some(
            TagValueView { tag, value, bytes: encode(tag, value) },
        ),
{
    let digits = render_u32(tag);
    let raw = encode(tag, value);
    let n = digits.len() as int;
    lemma_decimal_digits(tag as nat);
    assert(forall|j: int| 0 <= j < n ==> is_digit(#[trigger] raw[j]));
    lemma_separator_unique(raw, n, separator_index(raw));
    assert(raw.take(n) =~= digits);
    assert(raw.skip(n + 1) =~= value);
}

/// One field of a message as it goes on the wire.
pub struct TagValue {
    tag: u32,
    value: Vec<u8>,
    bytes: Vec<u8>,
}

impl View for TagValue {
    type V = TagValueView;

    closed spec fn view(&self) -> TagValueView {
        TagValueView { tag: self.tag, value: self.value@, bytes: self.bytes@ }
    }
}

/// The byte form of `tag` and `value`.
fn encode_bytes(tag: u32, value: &[u8]) -> (bytes: Vec<u8>)
    ensures
        bytes@ == encode(tag, value@),
{
    let mut bytes: Vec<u8> = u32_to_decimal(tag);
    bytes.push(SEPARATOR);
    let mut rest = slice_to_vec(value);
    bytes.append(&mut rest);
    bytes
}

impl TagValue {
    /// What an unset pair holds: tag 0 and no bytes at all.
    pub open spec fn spec_empty() -> TagValueView {
        TagValueView { tag: 0, value: Seq::empty(), bytes: Seq::empty() }
    }

    /// The invariant of a pair: its byte form denotes its tag and value. The
    /// unset pair, which has no byte form yet, is the one exception.
    pub open spec fn wf(&self) -> bool {
        self@ == Self::spec_empty() || decode(self@.bytes) == Some(self@)
    }

    /// Whether the pair is the one that `new` makes from `tag` and `value`.
    pub open spec fn holds(&self, tag: u32, value: Seq<u8>) -> bool {
        self@ == (TagValueView { tag, value, bytes: encode(tag, value) })
    }

    /// The unset pair.
    pub fn empty() -> (tv: TagValue)
        ensures
            tv@ == Self::spec_empty(),
            tv.wf(),
    {
        TagValue { tag: 0, value: Vec::new(), bytes: Vec::new() }
    }

    /// The tag of the pair.
    pub fn tag(&self) -> (tag: u32)
        ensures
            tag == self@.tag,
    {
        self.tag
    }

    /// The undecoded value of the pair.
    pub fn value(&self) -> (value: &[u8])
        ensures
            value@ == self@.value,
    {
        self.value.as_slice()
    }

    /// The byte form of the pair.
    pub fn bytes(&self) -> (bytes: &[u8])
        ensures
            bytes@ == self@.bytes,
    {
        self.bytes.as_slice()
    }

    /// The pair of `tag_val` and `value`, with their byte form.
    pub fn new(tag_val: u32, value: &[u8]) -> (tv: TagValue)
        ensures
            tv.holds(tag_val, value@),
            tv.wf(),
    {
        proof {
            lemma_decode_encode(tag_val, value@);
        }
        TagValue { tag: tag_val, value: slice_to_vec(value), bytes: encode_bytes(tag_val, value) }
    }

    /// Overwrites the pair with `tag_val` and `value` and their byte form.
    pub fn init(&mut self, tag_val: u32, value: &[u8])
        ensures
            final(self).holds(tag_val, value@),
            final(self).wf(),
    {
        proof {
            lemma_decode_encode(tag_val, value@);
        }
        self.value = slice_to_vec(value);
        self.bytes = encode_bytes(tag_val, value);
        self.tag = tag_val;
    }

    /// Reads the bytes of one field, without its delimiter, as a pair. The
    /// error says whether the `=` or the tag number before it is missing.
    pub fn parse(raw_bytes: &[u8]) -> (r: Result<TagValue, String>)
        ensures
            match r {
                Ok(tv) => decode(raw_bytes@) == Some(tv@) && tv.wf(),
                Err(e) => decode(raw_bytes@) is None && e@ == failure_text(raw_bytes@),
            },
    {
        let mut sep_index: usize = 0;
        while sep_index < raw_bytes.len() && raw_bytes[sep_index] != SEPARATOR
            invariant
                sep_index <= raw_bytes@.len(),
                forall|j: int| 0 <= j < sep_index ==> raw_bytes@[j] != 0x3d,
            decreases raw_bytes@.len() - sep_index,
        {
            sep_index = sep_index + 1;
        }
        if sep_index == raw_bytes.len() {
            return Err(String::from_str("TagValue.parse: '=' not found"));
        }
        proof {
            assert(separator_at(raw_bytes@, sep_index as int));
            lemma_separator_unique(raw_bytes@, sep_index as int, separator_index(raw_bytes@));
        }
        let tag_num = match decimal_to_u32(slice_subrange(raw_bytes, 0, sep_index)) {
            Some(num) => num,
            None => {
                return Err(String::from_str("TagValue.parse: tag is not a number"));
            },
        };
        let value = slice_to_vec(slice_subrange(raw_bytes, sep_index + 1, raw_bytes.len()));
        Ok(TagValue { tag: tag_num, value, bytes: slice_to_vec(raw_bytes) })
    }

    /// The length of the byte form.
    pub fn len(self) -> (n: usize)
        ensures
            n == self@.bytes.len(),
    {
        self.bytes.len()
    }
}

} // verus!
