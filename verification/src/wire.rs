//! The flat wire record that envelopes are encoded as.
//!
//! The wire format is a flat structured object: a list of key/value fields
//! holding the version discriminant under the reserved key `_version` (its
//! value the 1-based chain position as a decimal string) beside the payload
//! fields of the active version shape. Byte-level encoding of such a record
//! is the external serialization layer's concern; the codecs in this crate
//! read and write [`WireObject`] values.

use vstd::prelude::*;
use crate::numeric::{dec_val, is_digits, parse_u32};

verus! {

/// A scalar wire value. Numbers are carried as their decimal text, which
/// keeps the record exact whatever the external layer's number type is.
#[derive(Clone, Debug, PartialEq, Eq)]
pub enum WireValue {
    /// An explicit null.
    Null,
    /// A boolean.
    Bool(bool),
    /// A number, as decimal text.
    Num(String),
    /// A text string.
    Str(String),
}

/// One field of a wire record.
#[derive(Clone, Debug, PartialEq, Eq)]
pub struct WireField {
    /// The field's key.
    pub key: String,
    /// The field's value.
    pub value: WireValue,
}

/// A flat wire record: the fields in writing order.
#[derive(Clone, Debug, PartialEq, Eq)]
pub struct WireObject {
    /// The fields in writing order.
    pub fields: Vec<WireField>,
}

/// A decode-time error: the record cannot be read as any envelope variant.
/// Migration failures are not decode errors; a fallible transparent codec
/// folds the two into its own uniform error type.
#[derive(Clone, Copy, Debug, PartialEq, Eq, Structural)]
pub enum DecodeError {
    /// The record has no `_version` field.
    MissingVersion,
    /// The `_version` value is not a decimal string.
    MalformedVersion,
    /// The `_version` value is no position of the chain; the tag read is
    /// carried along.
    UnknownVersion(u32),
    /// A required field of the selected version shape is absent.
    MissingField,
    /// A field of the selected version shape holds the wrong kind of value.
    WrongFieldKind,
}

/// The value under `key`, taking the first field with that key.
pub open spec fn lookup(fields: Seq<WireField>, key: Seq<char>) -> Option<WireValue>
    decreases fields.len(),
{
    if fields.len() == 0 {
        None
    } else if fields[0].key@ == key {
        Some(fields[0].value)
    } else {
        lookup(fields.drop_first(), key)
    }
}

/// The version tag of a record: the value under `_version`, which must be
/// a string of decimal digits no larger than `u32::MAX`.
pub open spec fn wire_tag_spec(fields: Seq<WireField>) -> Result<u32, DecodeError> {
    match lookup(fields, "_version"@) {
        None => Err(DecodeError::MissingVersion),
        Some(v) => match v {
            WireValue::Str(s) => if s@.len() > 0 && is_digits(s@) && dec_val(s@) <= u32::MAX {
                Ok(dec_val(s@) as u32)
            } else {
                Err(DecodeError::MalformedVersion)
            },
            _ => Err(DecodeError::MalformedVersion),
        },
    }
}

impl WireObject {
    /// Look up the value under `key`: the first field with that key wins.
    pub fn get<'a>(&'a self, key: &str) -> (r: Option<&'a WireValue>)
        ensures
            match r {
                Some(v) => lookup(self.fields@, key@) == Some(*v),
                None => lookup(self.fields@, key@) is None,
            },
    {
        let k = String::from_str(key);
        let n = self.fields.len();
        let mut i: usize = 0;
        proof {
            assert(self.fields@.skip(0) =~= self.fields@);
        }
        while i < n
            invariant
                0 <= i <= n,
                n == self.fields@.len(),
                k@ == key@,
                lookup(self.fields@, key@) == lookup(self.fields@.skip(i as int), key@),
            decreases n - i,
        {
            proof {
                assert(self.fields@.skip(i as int)[0] == self.fields@[i as int]);
                assert(self.fields@.skip(i as int).drop_first() =~= self.fields@.skip(
                    i as int + 1,
                ));
            }
            if self.fields[i].key == k {
                return Some(&self.fields[i].value);
            }
            i = i + 1;
        }
        proof {
            assert(self.fields@.skip(n as int) =~= Seq::<WireField>::empty());
        }
        None
    }

    /// Read the version tag of this record.
    pub fn tag(&self) -> (r: Result<u32, DecodeError>)
        ensures
            r == wire_tag_spec(self.fields@),
    {
        match self.get("_version") {
            None => Err(DecodeError::MissingVersion),
            Some(WireValue::Str(s)) => match parse_u32(s.as_str()) {
                Some(t) => Ok(t),
                None => Err(DecodeError::MalformedVersion),
            },
            Some(_) => Err(DecodeError::MalformedVersion),
        }
    }
}

} // verus!
