//! The boolean codec: `Y` for true, `N` for false.

use vstd::prelude::*;
use vstd::slice::slice_to_vec;
use vstd::utf8::{decode_utf8, valid_utf8};
use crate::error::{FixBooleanParseError, FixError};
use crate::field::{FieldValueReader, FieldValueWriter};
use crate::text::{lemma_ascii_is_utf8, string_from_utf8};

verus! {

/// The byte `Y`.
pub const YES: u8 = 0x59;

/// The byte `N`.
pub const NO: u8 = 0x4e;

/// The wire form of a boolean.
pub open spec fn bool_text(v: bool) -> Seq<u8> {
    if v {
        seq![0x59u8]
    } else {
        seq![0x4eu8]
    }
}

impl FieldValueReader for bool {
    open spec fn accepts(&self, bytes: Seq<u8>) -> bool {
        bytes =~= bool_text(true) || bytes =~= bool_text(false)
    }

    open spec fn holds_read(&self, bytes: Seq<u8>, after: &Self) -> bool {
        bytes =~= bool_text(*after)
    }

    fn read(&mut self, value: &[u8]) -> (r: Result<(), FixError>)
        ensures
            r is Err ==> *final(self) == *old(self),
            match r {
                Ok(_) => true,
                Err(FixError::FromUtf8Error(_)) => !valid_utf8(value@),
                Err(FixError::BooleanParseError(e)) => {
                    &&& valid_utf8(value@)
                    &&& e@.value_parsed == decode_utf8(value@)
                    &&& e@.description == FixBooleanParseError::describe(decode_utf8(value@))
                },
                Err(_) => false,
            },
    {
        proof {
            if old(self).accepts(value@) {
                lemma_ascii_is_utf8(value@);
            }
        }
        let values = slice_to_vec(value);
        let bool_string = match string_from_utf8(values) {
            Ok(s) => s,
            Err(err) => {
                return Err(FixError::FromUtf8Error(err));
            },
        };
        if value.len() == 1 && value[0] == YES {
            *self = true;
        } else if value.len() == 1 && value[0] == NO {
            *self = false;
        } else {
            return Err(FixError::BooleanParseError(FixBooleanParseError::new(bool_string)));
        }
        Ok(())
    }
}

impl FieldValueWriter for bool {
    open spec fn written(&self) -> Seq<u8> {
        bool_text(*self)
    }

    fn write(&self) -> (bytes: Vec<u8>) {
        let mut bytes: Vec<u8> = Vec::new();
        if *self {
            bytes.push(YES);
        } else {
            bytes.push(NO);
        }
        bytes
    }
}

/// Reading what was written for a boolean gives that boolean, whatever the
/// receiver held before.
pub proof fn lemma_bool_round_trip(v: bool, before: bool, after: bool)
    ensures
        before.accepts(v.written()),
        before.holds_read(v.written(), &after) <==> after == v,
{
    assert(bool_text(true)[0] != bool_text(false)[0]);
}

} // verus!
