//! The contracts between a field map and the values that are read from and
//! written to its fields.

use vstd::prelude::*;
use crate::error::FixError;
use crate::tag_value::TagValue;

verus! {

/// Writes a field value as the bytes that go on the wire.
pub trait FieldValueWriter {
    /// The wire bytes of this value.
    spec fn written(&self) -> Seq<u8>;

    fn write(&self) -> (bytes: Vec<u8>)
        ensures
            bytes@ == self.written(),
    ;
}

/// Reads a field value from the bytes of a field, into the receiver.
pub trait FieldValueReader: Sized {
    /// Whether `bytes` can be read into this receiver.
    spec fn accepts(&self, bytes: Seq<u8>) -> bool;

    /// Whether `after` is this receiver once `bytes` have been read into it.
    spec fn holds_read(&self, bytes: Seq<u8>, after: &Self) -> bool;

    fn read(&mut self, value: &[u8]) -> (r: Result<(), FixError>)
        ensures
            r is Ok <==> old(self).accepts(value@),
            r is Ok ==> old(self).holds_read(value@, final(self)),
    ;
}

/// A value that can be both written to and read from raw bytes.
pub trait FieldValue: FieldValueWriter + FieldValueReader {

}

/// A value that knows the tag of the field it is written to.
pub trait FieldWriter: FieldValueWriter {
    /// The tag of the field.
    spec fn spec_tag(&self) -> u32;

    fn tag(&self) -> (tag: u32)
        ensures
            tag == self.spec_tag(),
    ;
}

/// A typed field of a message: it names its tag, writes and reads its value.
pub trait FieldInterface: FieldWriter + FieldValueReader {

}

/// Writes a repeating group as a run of tag-value pairs.
pub trait FieldGroupWriter {
    fn tag(&self) -> u32;

    fn write(&self) -> Vec<TagValue>;
}

/// Reads a repeating group from the front of a run of tag-value pairs and
/// returns the pairs that follow it.
pub trait FieldGroupReader {
    fn tag(&self) -> u32;

    fn read<'a>(&self, tag_value: &'a [TagValue]) -> Result<&'a [TagValue], FixError>;
}

/// A typed repeating group of a message.
pub trait FieldGroup {
    fn tag(&self) -> u32;

    fn write(&self) -> Vec<TagValue>;

    fn read<'a>(&self, tag_value: &'a [TagValue]) -> Result<&'a [TagValue], FixError>;
}

} // verus!
