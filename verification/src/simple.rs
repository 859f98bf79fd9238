//! The smallest worked chain in total mode: two versions, one added field.
//!
//! Version 2 added an integer field beside the original string field; the
//! edge from version 1 fills it with zero.

use vstd::prelude::*;
use crate::envelope::Envelope2;
use crate::migrate::{Migration, Project};
use crate::numeric::{dec_int_seq, dec_int_val, format_i64, is_dec_int, parse_i64};
use crate::wire::{lookup, wire_tag_spec, DecodeError, WireField, WireObject, WireValue};

verus! {

/// Version 1 of the record: one string field.
#[derive(Clone, Debug, PartialEq, Eq)]
pub struct V1 {
    pub field: String,
}

/// Version 2 (current) of the record: an integer field beside it.
#[derive(Clone, Debug, PartialEq, Eq)]
pub struct V2 {
    pub field: String,
    pub new_field: i32,
}

/// The domain type consumers operate on.
#[derive(Clone, Debug, PartialEq, Eq)]
pub struct MyType {
    pub field: String,
    pub new_field: i32,
}

/// The envelope of this chain.
pub type MyTypeVersions = Envelope2<V1, V2>;

impl Migration<V2> for V1 {
    /// The new field starts at zero for migrated records.
    open spec fn migrate_spec(self) -> V2 {
        V2 { field: self.field, new_field: 0 }
    }

    fn migrate(self) -> V2 {
        V2 { field: self.field, new_field: 0 }
    }
}

impl Migration<MyType> for V2 {
    open spec fn migrate_spec(self) -> MyType {
        MyType { field: self.field, new_field: self.new_field }
    }

    fn migrate(self) -> MyType {
        MyType { field: self.field, new_field: self.new_field }
    }
}

impl Project<MyType> for V2 {
    open spec fn project_spec(d: MyType) -> V2 {
        V2 { field: d.field, new_field: d.new_field }
    }

    fn project(d: &MyType) -> V2 {
        V2 { field: d.field.clone(), new_field: d.new_field }
    }
}

/// Decode a wire record into this chain's envelope.
pub fn decode_mytype(w: &WireObject) -> (r: Result<MyTypeVersions, DecodeError>)
    ensures
        ({
            let fs = w.fields@;
            match wire_tag_spec(fs) {
                Err(e) => r == Err::<MyTypeVersions, DecodeError>(e),
                Ok(t) => if t == 1 {
                    match lookup(fs, "field"@) {
                        Some(WireValue::Str(s)) => r matches Ok(Envelope2::V1(v1)) && v1.field@
                            == s@,
                        Some(_) => r == Err::<MyTypeVersions, DecodeError>(
                            DecodeError::WrongFieldKind,
                        ),
                        None => r == Err::<MyTypeVersions, DecodeError>(DecodeError::MissingField),
                    }
                } else if t == 2 {
                    match lookup(fs, "field"@) {
                        Some(WireValue::Str(s)) => match lookup(fs, "new_field"@) {
                            Some(WireValue::Num(v)) => if is_dec_int(v@) && i32::MIN <= dec_int_val(
                                v@,
                            ) <= i32::MAX {
                                r matches Ok(Envelope2::V2(v2)) && v2.field@ == s@ && v2.new_field
                                    == dec_int_val(v@)
                            } else {
                                r == Err::<MyTypeVersions, DecodeError>(DecodeError::WrongFieldKind)
                            },
                            Some(_) => r == Err::<MyTypeVersions, DecodeError>(
                                DecodeError::WrongFieldKind,
                            ),
                            None => r == Err::<MyTypeVersions, DecodeError>(
                                DecodeError::MissingField,
                            ),
                        },
                        Some(_) => r == Err::<MyTypeVersions, DecodeError>(
                            DecodeError::WrongFieldKind,
                        ),
                        None => r == Err::<MyTypeVersions, DecodeError>(DecodeError::MissingField),
                    }
                } else {
                    r == Err::<MyTypeVersions, DecodeError>(DecodeError::UnknownVersion(t))
                },
            }
        }),
{
    let tag = match w.tag() {
        Ok(t) => t,
        Err(e) => {
            return Err(e);
        },
    };
    if tag == 1 {
        match w.get("field") {
            Some(WireValue::Str(s)) => Ok(Envelope2::V1(V1 { field: s.clone() })),
            Some(_) => Err(DecodeError::WrongFieldKind),
            None => Err(DecodeError::MissingField),
        }
    } else if tag == 2 {
        let field = match w.get("field") {
            Some(WireValue::Str(s)) => s.clone(),
            Some(_) => {
                return Err(DecodeError::WrongFieldKind);
            },
            None => {
                return Err(DecodeError::MissingField);
            },
        };
        match w.get("new_field") {
            Some(WireValue::Num(v)) => match parse_i64(v.as_str()) {
                Some(x) => {
                    if i32::MIN as i64 <= x && x <= i32::MAX as i64 {
                        Ok(Envelope2::V2(V2 { field, new_field: x as i32 }))
                    } else {
                        Err(DecodeError::WrongFieldKind)
                    }
                },
                None => Err(DecodeError::WrongFieldKind),
            },
            Some(_) => Err(DecodeError::WrongFieldKind),
            None => Err(DecodeError::MissingField),
        }
    } else {
        Err(DecodeError::UnknownVersion(tag))
    }
}

/// Encode this chain's envelope as a wire record.
pub fn encode_mytype(e: &MyTypeVersions) -> (w: WireObject)
    ensures
        ({
            let fs = w.fields@;
            match *e {
                Envelope2::V1(v1) => {
                    &&& fs.len() == 2
                    &&& fs[0].key@ == "_version"@
                    &&& fs[0].value matches WireValue::Str(s) && s@ == "1"@
                    &&& fs[1].key@ == "field"@
                    &&& fs[1].value matches WireValue::Str(s) && s@ == v1.field@
                },
                Envelope2::V2(v2) => {
                    &&& fs.len() == 3
                    &&& fs[0].key@ == "_version"@
                    &&& fs[0].value matches WireValue::Str(s) && s@ == "2"@
                    &&& fs[1].key@ == "field"@
                    &&& fs[1].value matches WireValue::Str(s) && s@ == v2.field@
                    &&& fs[2].key@ == "new_field"@
                    &&& fs[2].value matches WireValue::Num(v) && v@ == dec_int_seq(
                        v2.new_field as int,
                    )
                },
            }
        }),
{
    let mut fields: Vec<WireField> = Vec::new();
    match e {
        Envelope2::V1(v1) => {
            fields.push(
                WireField {
                    key: String::from_str("_version"),
                    value: WireValue::Str(String::from_str("1")),
                },
            );
            fields.push(
                WireField {
                    key: String::from_str("field"),
                    value: WireValue::Str(v1.field.clone()),
                },
            );
        },
        Envelope2::V2(v2) => {
            fields.push(
                WireField {
                    key: String::from_str("_version"),
                    value: WireValue::Str(String::from_str("2")),
                },
            );
            fields.push(
                WireField {
                    key: String::from_str("field"),
                    value: WireValue::Str(v2.field.clone()),
                },
            );
            fields.push(
                WireField {
                    key: String::from_str("new_field"),
                    value: WireValue::Num(format_i64(v2.new_field as i64)),
                },
            );
        },
    }
    WireObject { fields }
}

/// Round trip of this chain: writing a domain value back as an envelope and
/// converting it again returns the same value.
pub proof fn lemma_mytype_round_trip(d: MyType)
    ensures
        MyTypeVersions::from_domain_spec(d).into_domain_spec::<MyType>() == d,
{
}

} // verus!
