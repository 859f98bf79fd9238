//! A worked chain in total mode: a user record of two versions.
//!
//! Version 1 held a single `name`; version 2 renamed it to `full_name` and
//! added an optional `email`. The domain type matches the latest shape. The
//! edge from version 1 sets the email to `None`; every edge is total, so
//! conversion to the domain type cannot fail. Transparent bridging is on:
//! [`serialize_user`] and [`deserialize_user`] go straight between domain
//! values and wire records, with the envelope hidden inside.

use vstd::prelude::*;
use crate::envelope::Envelope2;
use crate::migrate::{Migration, Project};
use crate::wire::{lookup, wire_tag_spec, DecodeError, WireField, WireObject, WireValue};

verus! {

/// Version 1 of the user record: a bare name.
#[derive(Clone, Debug, PartialEq, Eq)]
pub struct V1 {
    pub name: String,
}

/// Version 2 (current) of the user record.
#[derive(Clone, Debug, PartialEq, Eq)]
pub struct V2 {
    pub full_name: String,
    pub email: Option<String>,
}

/// The domain type consumers operate on.
#[derive(Clone, Debug, PartialEq, Eq)]
pub struct User {
    pub full_name: String,
    pub email: Option<String>,
}

/// The envelope of the user chain: one variant per version, tagged by
/// position.
pub type UserVersions = Envelope2<V1, V2>;

impl Migration<V2> for V1 {
    /// The name carries over as the full name; no email was recorded.
    open spec fn migrate_spec(self) -> V2 {
        V2 { full_name: self.name, email: None }
    }

    fn migrate(self) -> V2 {
        V2 { full_name: self.name, email: None }
    }
}

impl Migration<User> for V2 {
    open spec fn migrate_spec(self) -> User {
        User { full_name: self.full_name, email: self.email }
    }

    fn migrate(self) -> User {
        User { full_name: self.full_name, email: self.email }
    }
}

impl Project<User> for V2 {
    open spec fn project_spec(d: User) -> V2 {
        V2 { full_name: d.full_name, email: d.email }
    }

    fn project(d: &User) -> V2 {
        V2 {
            full_name: d.full_name.clone(),
            email: match &d.email {
                Some(e) => Some(e.clone()),
                None => None,
            },
        }
    }
}

/// Decode a wire record into the user envelope. The tag selects the shape;
/// a tag outside the chain is refused, never defaulted. Version 1 requires
/// a `name` string; version 2 requires a `full_name` string and takes an
/// absent or null `email` as `None`.
pub fn decode_user(w: &WireObject) -> (r: Result<UserVersions, DecodeError>)
    ensures
        ({
            let fs = w.fields@;
            match wire_tag_spec(fs) {
                Err(e) => r == Err::<UserVersions, DecodeError>(e),
                Ok(t) => if t == 1 {
                    match lookup(fs, "name"@) {
                        Some(WireValue::Str(s)) => r matches Ok(Envelope2::V1(v1)) && v1.name@
                            == s@,
                        Some(_) => r == Err::<UserVersions, DecodeError>(
                            DecodeError::WrongFieldKind,
                        ),
                        None => r == Err::<UserVersions, DecodeError>(DecodeError::MissingField),
                    }
                } else if t == 2 {
                    match lookup(fs, "full_name"@) {
                        Some(WireValue::Str(s)) => match lookup(fs, "email"@) {
                            Some(WireValue::Str(em)) => r matches Ok(Envelope2::V2(v2))
                                && v2.full_name@ == s@ && (v2.email matches Some(e) && e@
                                == em@),
                            Some(WireValue::Null) => r matches Ok(Envelope2::V2(v2))
                                && v2.full_name@ == s@ && v2.email is None,
                            None => r matches Ok(Envelope2::V2(v2)) && v2.full_name@ == s@
                                && v2.email is None,
                            Some(_) => r == Err::<UserVersions, DecodeError>(
                                DecodeError::WrongFieldKind,
                            ),
                        },
                        Some(_) => r == Err::<UserVersions, DecodeError>(
                            DecodeError::WrongFieldKind,
                        ),
                        None => r == Err::<UserVersions, DecodeError>(DecodeError::MissingField),
                    }
                } else {
                    r == Err::<UserVersions, DecodeError>(DecodeError::UnknownVersion(t))
                },
            }
        }),
{
    let tag = match w.tag() {
        Ok(t) => t,
        Err(e) => {
            return Err(e);
        },
    };
    if tag == 1 {
        match w.get("name") {
            Some(WireValue::Str(s)) => Ok(Envelope2::V1(V1 { name: s.clone() })),
            Some(_) => Err(DecodeError::WrongFieldKind),
            None => Err(DecodeError::MissingField),
        }
    } else if tag == 2 {
        let full_name = match w.get("full_name") {
            Some(WireValue::Str(s)) => s.clone(),
            Some(_) => {
                return Err(DecodeError::WrongFieldKind);
            },
            None => {
                return Err(DecodeError::MissingField);
            },
        };
        let email = match w.get("email") {
            Some(WireValue::Str(s)) => Some(s.clone()),
            Some(WireValue::Null) => None,
            Some(_) => {
                return Err(DecodeError::WrongFieldKind);
            },
            None => None,
        };
        Ok(Envelope2::V2(V2 { full_name, email }))
    } else {
        Err(DecodeError::UnknownVersion(tag))
    }
}

/// Encode the user envelope as a wire record: the `_version` tag first,
/// then the active shape's fields, flat beside it.
pub fn encode_user(e: &UserVersions) -> (w: WireObject)
    ensures
        ({
            let fs = w.fields@;
            match *e {
                Envelope2::V1(v1) => {
                    &&& fs.len() == 2
                    &&& fs[0].key@ == "_version"@
                    &&& fs[0].value matches WireValue::Str(s) && s@ == "1"@
                    &&& fs[1].key@ == "name"@
                    &&& fs[1].value matches WireValue::Str(s) && s@ == v1.name@
                },
                Envelope2::V2(v2) => {
                    &&& fs.len() == 3
                    &&& fs[0].key@ == "_version"@
                    &&& fs[0].value matches WireValue::Str(s) && s@ == "2"@
                    &&& fs[1].key@ == "full_name"@
                    &&& fs[1].value matches WireValue::Str(s) && s@ == v2.full_name@
                    &&& fs[2].key@ == "email"@
                    &&& (match v2.email {
                        Some(em) => fs[2].value matches WireValue::Str(s) && s@ == em@,
                        None => fs[2].value is Null,
                    })
                },
            }
        }),
{
    let mut fields: Vec<WireField> = Vec::new();
    match e {
        Envelope2::V1(v1) => {
            fields.push(
                WireField {
                    key: String::from_str("_version"),
                    value: WireValue::Str(String::from_str("1")),
                },
            );
            fields.push(WireField { key: String::from_str("name"), value: WireValue::Str(v1.name.clone()) });
        },
        Envelope2::V2(v2) => {
            fields.push(
                WireField {
                    key: String::from_str("_version"),
                    value: WireValue::Str(String::from_str("2")),
                },
            );
            fields.push(
                WireField {
                    key: String::from_str("full_name"),
                    value: WireValue::Str(v2.full_name.clone()),
                },
            );
            let email_value = match &v2.email {
                Some(em) => WireValue::Str(em.clone()),
                None => WireValue::Null,
            };
            fields.push(WireField { key: String::from_str("email"), value: email_value });
        },
    }
    WireObject { fields }
}

/// Transparent output: write a domain value straight to a wire record. The
/// record is always tagged with the current version, and its payload fields
/// are exactly the latest shape's projection of the domain value.
pub fn serialize_user(d: &User) -> (w: WireObject)
    ensures
        ({
            let fs = w.fields@;
            &&& fs.len() == 3
            &&& fs[0].key@ == "_version"@
            &&& fs[0].value matches WireValue::Str(s) && s@ == "2"@
            &&& fs[1].key@ == "full_name"@
            &&& fs[1].value matches WireValue::Str(s) && s@ == d.full_name@
            &&& fs[2].key@ == "email"@
            &&& (match d.email {
                Some(em) => fs[2].value matches WireValue::Str(s) && s@ == em@,
                None => fs[2].value is Null,
            })
        }),
{
    let env = UserVersions::from_domain(d);
    encode_user(&env)
}

/// Transparent input: read a domain value straight from a wire record,
/// migrating whatever version the record holds; no envelope is visible to
/// the caller.
pub fn deserialize_user(w: &WireObject) -> (r: Result<User, DecodeError>)
    ensures
        ({
            let fs = w.fields@;
            match wire_tag_spec(fs) {
                Err(e) => r == Err::<User, DecodeError>(e),
                Ok(t) => if t == 1 {
                    match lookup(fs, "name"@) {
                        Some(WireValue::Str(s)) => r matches Ok(d) && d.full_name@ == s@
                            && d.email is None,
                        Some(_) => r == Err::<User, DecodeError>(DecodeError::WrongFieldKind),
                        None => r == Err::<User, DecodeError>(DecodeError::MissingField),
                    }
                } else if t == 2 {
                    match lookup(fs, "full_name"@) {
                        Some(WireValue::Str(s)) => match lookup(fs, "email"@) {
                            Some(WireValue::Str(em)) => r matches Ok(d) && d.full_name@ == s@
                                && (d.email matches Some(e) && e@ == em@),
                            Some(WireValue::Null) => r matches Ok(d) && d.full_name@ == s@
                                && d.email is None,
                            None => r matches Ok(d) && d.full_name@ == s@ && d.email is None,
                            Some(_) => r == Err::<User, DecodeError>(DecodeError::WrongFieldKind),
                        },
                        Some(_) => r == Err::<User, DecodeError>(DecodeError::WrongFieldKind),
                        None => r == Err::<User, DecodeError>(DecodeError::MissingField),
                    }
                } else {
                    r == Err::<User, DecodeError>(DecodeError::UnknownVersion(t))
                },
            }
        }),
{
    match decode_user(w) {
        Ok(env) => Ok(env.into_domain()),
        Err(e) => Err(e),
    }
}

/// Round trip of the user chain: writing a domain value back as an envelope
/// and converting it again returns the same value.
pub proof fn lemma_user_round_trip(d: User)
    ensures
        UserVersions::from_domain_spec(d).into_domain_spec::<User>() == d,
{
}

} // verus!
