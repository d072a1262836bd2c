//! The integer codec: an optional sign, then decimal digits.

use vstd::prelude::*;
use vstd::slice::slice_to_vec;
use vstd::utf8::{decode_utf8, valid_utf8};
use crate::decimal::{
    all_digits, decimal_to_i32, i32_to_decimal, is_digit, lemma_parse_render_i32, parse_i32,
    render_i32,
};
use crate::error::{FixError, FixIntParseError};
use crate::field::{FieldValueReader, FieldValueWriter};
use crate::text::{is_ascii_bytes, lemma_ascii_is_utf8, string_from_utf8};

verus! {

/// Text that denotes an integer is ASCII, and so well-formed UTF-8.
pub proof fn lemma_integer_text_is_utf8(bytes: Seq<u8>)
    requires
        parse_i32(bytes) is Some,
    ensures
        is_ascii_bytes(bytes),
        valid_utf8(bytes),
{
    let signed = bytes.len() > 0 && (bytes[0] == 0x2b || bytes[0] == 0x2d);
    let body = if signed {
        bytes.skip(1)
    } else {
        bytes
    };
    assert forall|i: int| 0 <= i < bytes.len() implies #[trigger] bytes[i] < 0x80 by {
        if signed && i > 0 {
            assert(is_digit(body[i - 1]));
        } else if !signed {
            assert(is_digit(body[i]));
        }
    }
    lemma_ascii_is_utf8(bytes);
}

impl FieldValueReader for i32 {
    open spec fn accepts(&self, bytes: Seq<u8>) -> bool {
        parse_i32(bytes) is Some
    }

    open spec fn holds_read(&self, bytes: Seq<u8>, after: &Self) -> bool {
        parse_i32(bytes) == Some(*after)
    }

    fn read(&mut self, value: &[u8]) -> (r: Result<(), FixError>)
        ensures
            r is Err ==> *final(self) == *old(self),
            match r {
                Ok(_) => true,
                Err(FixError::FromUtf8Error(_)) => !valid_utf8(value@),
                Err(FixError::IntError(e)) => {
                    &&& valid_utf8(value@)
                    &&& e@.value_parsed == decode_utf8(value@)
                    &&& e@.description == FixIntParseError::describe(decode_utf8(value@))
                },
                Err(_) => false,
            },
    {
        proof {
            if parse_i32(value@) is Some {
                lemma_integer_text_is_utf8(value@);
            }
        }
        let values = slice_to_vec(value);
        let number_string = match string_from_utf8(values) {
            Ok(s) => s,
            Err(err) => {
                return Err(FixError::FromUtf8Error(err));
            },
        };
        match decimal_to_i32(value) {
            Some(number) => {
                *self = number;
            },
            None => {
                return Err(FixError::IntError(FixIntParseError::new(number_string)));
            },
        }
        Ok(())
    }
}

impl FieldValueWriter for i32 {
    open spec fn written(&self) -> Seq<u8> {
        render_i32(*self)
    }

    fn write(&self) -> (bytes: Vec<u8>) {
        i32_to_decimal(*self)
    }
}

/// Reading what was written for an integer gives that integer, whatever the
/// receiver held before.
pub proof fn lemma_int_round_trip(v: i32, before: i32, after: i32)
    ensures
        before.accepts(v.written()),
        before.holds_read(v.written(), &after) <==> after == v,
{
    lemma_parse_render_i32(v);
}

} // verus!
