//! A worked chain in fallible mode: a person record of two versions.
//!
//! Version 1 carried the age as a string; version 2 stores it as a small
//! integer and adds a verification flag. The edge from version 1 parses the
//! age text and fails when it is not a number that fits — so conversion to
//! the domain type returns a result. Transparent bridging is on, with
//! decode and migration failures folded into [`PersonWireError`]. The
//! envelope goes under the custom name [`PersonEnvelope`].

use vstd::prelude::*;
use crate::envelope::Envelope2;
use crate::migrate::{Project, TryMigration};
use crate::numeric::{dec_seq, dec_val, format_u64, is_digits, parse_u8};
use crate::wire::{lookup, wire_tag_spec, DecodeError, WireField, WireObject, WireValue};

verus! {

/// Version 1 of the person record: the age as text.
#[derive(Clone, Debug, PartialEq, Eq)]
pub struct PersonV1 {
    pub name: String,
    pub age: String,
}

/// Version 2 (current) of the person record.
#[derive(Clone, Debug, PartialEq, Eq)]
pub struct PersonV2 {
    pub name: String,
    pub age: u8,
    pub verified: bool,
}

/// The domain type consumers operate on.
#[derive(Clone, Debug, PartialEq, Eq)]
pub struct Person {
    pub name: String,
    pub age: u8,
    pub verified: bool,
}

/// The migration error of the person chain.
#[derive(Clone, Copy, Debug, PartialEq, Eq, Structural)]
pub enum PersonError {
    /// The version 1 age text is not a number that fits.
    InvalidAge,
}

/// The uniform failure type of the transparent person codec.
#[derive(Clone, Copy, Debug, PartialEq, Eq, Structural)]
pub enum PersonWireError {
    Decode(DecodeError),
    Migration(PersonError),
}

/// The envelope of the person chain, under its custom name.
pub type PersonEnvelope = Envelope2<PersonV1, PersonV2>;

/// Whether age text denotes an age that fits: a non-empty digit string no
/// larger than `u8::MAX`.
pub open spec fn valid_age(age: Seq<char>) -> bool {
    age.len() > 0 && is_digits(age) && 0 <= dec_val(age) <= u8::MAX
}

impl TryMigration<PersonV2, PersonError> for PersonV1 {
    /// The age text becomes a number; anyone migrated from version 1 starts
    /// unverified.
    open spec fn try_migrate_spec(self) -> Result<PersonV2, PersonError> {
        if valid_age(self.age@) {
            Ok(PersonV2 { name: self.name, age: dec_val(self.age@) as u8, verified: false })
        } else {
            Err(PersonError::InvalidAge)
        }
    }

    fn try_migrate(self) -> Result<PersonV2, PersonError> {
        match parse_u8(self.age.as_str()) {
            Some(age) => Ok(PersonV2 { name: self.name, age, verified: false }),
            None => Err(PersonError::InvalidAge),
        }
    }
}

impl TryMigration<Person, PersonError> for PersonV2 {
    /// The final edge cannot fail: the current shape is the domain shape.
    open spec fn try_migrate_spec(self) -> Result<Person, PersonError> {
        Ok(Person { name: self.name, age: self.age, verified: self.verified })
    }

    fn try_migrate(self) -> Result<Person, PersonError> {
        Ok(Person { name: self.name, age: self.age, verified: self.verified })
    }
}

impl Project<Person> for PersonV2 {
    open spec fn project_spec(d: Person) -> PersonV2 {
        PersonV2 { name: d.name, age: d.age, verified: d.verified }
    }

    fn project(d: &Person) -> PersonV2 {
        PersonV2 { name: d.name.clone(), age: d.age, verified: d.verified }
    }
}

/// Decode a wire record into the person envelope. Version 1 requires `name`
/// and `age` strings; version 2 requires a `name` string, an `age` number
/// that fits in a `u8`, and a `verified` boolean.
pub fn decode_person(w: &WireObject) -> (r: Result<PersonEnvelope, DecodeError>)
    ensures
        ({
            let fs = w.fields@;
            match wire_tag_spec(fs) {
                Err(e) => r == Err::<PersonEnvelope, DecodeError>(e),
                Ok(t) => if t == 1 {
                    match lookup(fs, "name"@) {
                        Some(WireValue::Str(s)) => match lookup(fs, "age"@) {
                            Some(WireValue::Str(a)) => r matches Ok(Envelope2::V1(v1)) && v1.name@
                                == s@ && v1.age@ == a@,
                            Some(_) => r == Err::<PersonEnvelope, DecodeError>(
                                DecodeError::WrongFieldKind,
                            ),
                            None => r == Err::<PersonEnvelope, DecodeError>(
                                DecodeError::MissingField,
                            ),
                        },
                        Some(_) => r == Err::<PersonEnvelope, DecodeError>(
                            DecodeError::WrongFieldKind,
                        ),
                        None => r == Err::<PersonEnvelope, DecodeError>(DecodeError::MissingField),
                    }
                } else if t == 2 {
                    match lookup(fs, "name"@) {
                        Some(WireValue::Str(s)) => match lookup(fs, "age"@) {
                            Some(WireValue::Num(a)) => if valid_age(a@) {
                                match lookup(fs, "verified"@) {
                                    Some(WireValue::Bool(b)) => r matches Ok(Envelope2::V2(v2))
                                        && v2.name@ == s@ && v2.age == dec_val(a@) && v2.verified
                                        == b,
                                    Some(_) => r == Err::<PersonEnvelope, DecodeError>(
                                        DecodeError::WrongFieldKind,
                                    ),
                                    None => r == Err::<PersonEnvelope, DecodeError>(
                                        DecodeError::MissingField,
                                    ),
                                }
                            } else {
                                r == Err::<PersonEnvelope, DecodeError>(DecodeError::WrongFieldKind)
                            },
                            Some(_) => r == Err::<PersonEnvelope, DecodeError>(
                                DecodeError::WrongFieldKind,
                            ),
                            None => r == Err::<PersonEnvelope, DecodeError>(
                                DecodeError::MissingField,
                            ),
                        },
                        Some(_) => r == Err::<PersonEnvelope, DecodeError>(
                            DecodeError::WrongFieldKind,
                        ),
                        None => r == Err::<PersonEnvelope, DecodeError>(DecodeError::MissingField),
                    }
                } else {
                    r == Err::<PersonEnvelope, DecodeError>(DecodeError::UnknownVersion(t))
                },
            }
        }),
{
    let tag = match w.tag() {
        Ok(t) => t,
        Err(e) => {
            return Err(e);
        },
    };
    if tag == 1 {
        let name = match w.get("name") {
            Some(WireValue::Str(s)) => s.clone(),
            Some(_) => {
                return Err(DecodeError::WrongFieldKind);
            },
            None => {
                return Err(DecodeError::MissingField);
            },
        };
        match w.get("age") {
            Some(WireValue::Str(a)) => Ok(Envelope2::V1(PersonV1 { name, age: a.clone() })),
            Some(_) => Err(DecodeError::WrongFieldKind),
            None => Err(DecodeError::MissingField),
        }
    } else if tag == 2 {
        let name = match w.get("name") {
            Some(WireValue::Str(s)) => s.clone(),
            Some(_) => {
                return Err(DecodeError::WrongFieldKind);
            },
            None => {
                return Err(DecodeError::MissingField);
            },
        };
        let age = match w.get("age") {
            Some(WireValue::Num(a)) => match parse_u8(a.as_str()) {
                Some(age) => age,
                None => {
                    return Err(DecodeError::WrongFieldKind);
                },
            },
            Some(_) => {
                return Err(DecodeError::WrongFieldKind);
            },
            None => {
                return Err(DecodeError::MissingField);
            },
        };
        match w.get("verified") {
            Some(WireValue::Bool(b)) => Ok(
                Envelope2::V2(PersonV2 { name, age, verified: *b }),
            ),
            Some(_) => Err(DecodeError::WrongFieldKind),
            None => Err(DecodeError::MissingField),
        }
    } else {
        Err(DecodeError::UnknownVersion(tag))
    }
}

/// Encode the person envelope as a wire record.
pub fn encode_person(e: &PersonEnvelope) -> (w: WireObject)
    ensures
        ({
            let fs = w.fields@;
            match *e {
                Envelope2::V1(v1) => {
                    &&& fs.len() == 3
                    &&& fs[0].key@ == "_version"@
                    &&& fs[0].value matches WireValue::Str(s) && s@ == "1"@
                    &&& fs[1].key@ == "name"@
                    &&& fs[1].value matches WireValue::Str(s) && s@ == v1.name@
                    &&& fs[2].key@ == "age"@
                    &&& fs[2].value matches WireValue::Str(s) && s@ == v1.age@
                },
                Envelope2::V2(v2) => {
                    &&& fs.len() == 4
                    &&& fs[0].key@ == "_version"@
                    &&& fs[0].value matches WireValue::Str(s) && s@ == "2"@
                    &&& fs[1].key@ == "name"@
                    &&& fs[1].value matches WireValue::Str(s) && s@ == v2.name@
                    &&& fs[2].key@ == "age"@
                    &&& fs[2].value matches WireValue::Num(a) && a@ == dec_seq(v2.age as nat)
                    &&& fs[3].key@ == "verified"@
                    &&& fs[3].value == WireValue::Bool(v2.verified)
                },
            }
        }),
{
    let mut fields: Vec<WireField> = Vec::new();
    match e {
        Envelope2::V1(v1) => {
            fields.push(
                WireField {
                    key: String::from_str("_version"),
                    value: WireValue::Str(String::from_str("1")),
                },
            );
            fields.push(
                WireField { key: String::from_str("name"), value: WireValue::Str(v1.name.clone()) },
            );
            fields.push(
                WireField { key: String::from_str("age"), value: WireValue::Str(v1.age.clone()) },
            );
        },
        Envelope2::V2(v2) => {
            fields.push(
                WireField {
                    key: String::from_str("_version"),
                    value: WireValue::Str(String::from_str("2")),
                },
            );
            fields.push(
                WireField { key: String::from_str("name"), value: WireValue::Str(v2.name.clone()) },
            );
            fields.push(
                WireField {
                    key: String::from_str("age"),
                    value: WireValue::Num(format_u64(v2.age as u64)),
                },
            );
            fields.push(
                WireField {
                    key: String::from_str("verified"),
                    value: WireValue::Bool(v2.verified),
                },
            );
        },
    }
    WireObject { fields }
}

/// Transparent output: write a domain value straight to a wire record,
/// always tagged with the current version.
pub fn serialize_person(d: &Person) -> (w: WireObject)
    ensures
        ({
            let fs = w.fields@;
            &&& fs.len() == 4
            &&& fs[0].key@ == "_version"@
            &&& fs[0].value matches WireValue::Str(s) && s@ == "2"@
            &&& fs[1].key@ == "name"@
            &&& fs[1].value matches WireValue::Str(s) && s@ == d.name@
            &&& fs[2].key@ == "age"@
            &&& fs[2].value matches WireValue::Num(a) && a@ == dec_seq(d.age as nat)
            &&& fs[3].key@ == "verified"@
            &&& fs[3].value == WireValue::Bool(d.verified)
        }),
{
    let env = PersonEnvelope::from_domain(d);
    encode_person(&env)
}

/// Transparent input: read a domain value straight from a wire record,
/// migrating whatever version the record holds. Decode failures and
/// migration failures come back on the one uniform channel.
pub fn deserialize_person(w: &WireObject) -> (r: Result<Person, PersonWireError>)
    ensures
        ({
            let fs = w.fields@;
            match wire_tag_spec(fs) {
                Err(e) => r == Err::<Person, PersonWireError>(PersonWireError::Decode(e)),
                Ok(t) => if t == 1 {
                    match lookup(fs, "name"@) {
                        Some(WireValue::Str(s)) => match lookup(fs, "age"@) {
                            Some(WireValue::Str(a)) => if valid_age(a@) {
                                r matches Ok(d) && d.name@ == s@ && d.age == dec_val(a@)
                                    && d.verified == false
                            } else {
                                r == Err::<Person, PersonWireError>(
                                    PersonWireError::Migration(PersonError::InvalidAge),
                                )
                            },
                            Some(_) => r == Err::<Person, PersonWireError>(
                                PersonWireError::Decode(DecodeError::WrongFieldKind),
                            ),
                            None => r == Err::<Person, PersonWireError>(
                                PersonWireError::Decode(DecodeError::MissingField),
                            ),
                        },
                        Some(_) => r == Err::<Person, PersonWireError>(
                            PersonWireError::Decode(DecodeError::WrongFieldKind),
                        ),
                        None => r == Err::<Person, PersonWireError>(
                            PersonWireError::Decode(DecodeError::MissingField),
                        ),
                    }
                } else if t == 2 {
                    match lookup(fs, "name"@) {
                        Some(WireValue::Str(s)) => match lookup(fs, "age"@) {
                            Some(WireValue::Num(a)) => if valid_age(a@) {
                                match lookup(fs, "verified"@) {
                                    Some(WireValue::Bool(b)) => r matches Ok(d) && d.name@ == s@
                                        && d.age == dec_val(a@) && d.verified == b,
                                    Some(_) => r == Err::<Person, PersonWireError>(
                                        PersonWireError::Decode(DecodeError::WrongFieldKind),
                                    ),
                                    None => r == Err::<Person, PersonWireError>(
                                        PersonWireError::Decode(DecodeError::MissingField),
                                    ),
                                }
                            } else {
                                r == Err::<Person, PersonWireError>(
                                    PersonWireError::Decode(DecodeError::WrongFieldKind),
                                )
                            },
                            Some(_) => r == Err::<Person, PersonWireError>(
                                PersonWireError::Decode(DecodeError::WrongFieldKind),
                            ),
                            None => r == Err::<Person, PersonWireError>(
                                PersonWireError::Decode(DecodeError::MissingField),
                            ),
                        },
                        Some(_) => r == Err::<Person, PersonWireError>(
                            PersonWireError::Decode(DecodeError::WrongFieldKind),
                        ),
                        None => r == Err::<Person, PersonWireError>(
                            PersonWireError::Decode(DecodeError::MissingField),
                        ),
                    }
                } else {
                    r == Err::<Person, PersonWireError>(
                        PersonWireError::Decode(DecodeError::UnknownVersion(t)),
                    )
                },
            }
        }),
{
    match decode_person(w) {
        Ok(env) => match env.try_into_domain() {
            Ok(d) => Ok(d),
            Err(e) => Err(PersonWireError::Migration(e)),
        },
        Err(e) => Err(PersonWireError::Decode(e)),
    }
}

/// Round trip of the person chain: writing a domain value back as an
/// envelope and converting it again returns the same value.
pub proof fn lemma_person_round_trip(d: Person)
    ensures
        PersonEnvelope::from_domain_spec(d).try_into_domain_spec::<Person, PersonError>()
            == Ok::<Person, PersonError>(d),
{
}

} // verus!
