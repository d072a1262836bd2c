//! The string codec: the UTF-8 bytes of the text, unchanged.

use vstd::prelude::*;
use vstd::slice::slice_to_vec;
use vstd::string::*;
use vstd::utf8::{
    decode_utf8, encode_utf8, encode_utf8_decode_utf8, encode_utf8_valid_utf8, valid_utf8,
};
use crate::error::FixError;
use crate::field::{FieldValueReader, FieldValueWriter};
use crate::text::string_from_utf8;

verus! {

impl FieldValueReader for String {
    open spec fn accepts(&self, bytes: Seq<u8>) -> bool {
        valid_utf8(bytes)
    }

    open spec fn holds_read(&self, bytes: Seq<u8>, after: &Self) -> bool {
        after@ == decode_utf8(bytes)
    }

    fn read(&mut self, value: &[u8]) -> (r: Result<(), FixError>)
        ensures
            r is Err ==> *final(self) == *old(self),
            r is Err ==> r->Err_0 is FromUtf8Error,
    {
        let values = slice_to_vec(value);
        match string_from_utf8(values) {
            Ok(s) => {
                *self = s;
            },
            Err(err) => {
                return Err(FixError::FromUtf8Error(err));
            },
        }
        Ok(())
    }
}

impl FieldValueWriter for String {
    open spec fn written(&self) -> Seq<u8> {
        encode_utf8(self@)
    }

    fn write(&self) -> (bytes: Vec<u8>) {
        self.as_str().as_bytes_vec()
    }
}

/// Reading what was written for a string gives a string of the same text,
/// whatever the receiver held before.
pub proof fn lemma_string_round_trip(v: String, before: String, after: String)
    ensures
        before.accepts(v.written()),
        before.holds_read(v.written(), &after) <==> after@ == v@,
{
    encode_utf8_valid_utf8(v@);
    encode_utf8_decode_utf8(v@);
}

} // verus!
