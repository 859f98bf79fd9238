//! A worked chain in total mode with a renamed envelope: an account record.
//!
//! Version 1 held only the username; version 2 added an active flag, set to
//! true for migrated records. The envelope goes under the custom name
//! [`AccountEnvelope`] rather than the default one derived from the domain
//! type's name.

use vstd::prelude::*;
use crate::envelope::Envelope2;
use crate::migrate::{Migration, Project};
use crate::wire::{lookup, wire_tag_spec, DecodeError, WireField, WireObject, WireValue};

verus! {

/// Version 1 of the account record: a bare username.
#[derive(Clone, Debug, PartialEq, Eq)]
pub struct AccountV1 {
    pub username: String,
}

/// Version 2 (current) of the account record.
#[derive(Clone, Debug, PartialEq, Eq)]
pub struct AccountV2 {
    pub username: String,
    pub is_active: bool,
}

/// The domain type consumers operate on.
#[derive(Clone, Debug, PartialEq, Eq)]
pub struct Account {
    pub username: String,
    pub is_active: bool,
}

/// The envelope of the account chain, under its custom name.
pub type AccountEnvelope = Envelope2<AccountV1, AccountV2>;

impl Migration<AccountV2> for AccountV1 {
    /// A record migrated from version 1 counts as active.
    open spec fn migrate_spec(self) -> AccountV2 {
        AccountV2 { username: self.username, is_active: true }
    }

    fn migrate(self) -> AccountV2 {
        AccountV2 { username: self.username, is_active: true }
    }
}

impl Migration<Account> for AccountV2 {
    open spec fn migrate_spec(self) -> Account {
        Account { username: self.username, is_active: self.is_active }
    }

    fn migrate(self) -> Account {
        Account { username: self.username, is_active: self.is_active }
    }
}

impl Project<Account> for AccountV2 {
    open spec fn project_spec(d: Account) -> AccountV2 {
        AccountV2 { username: d.username, is_active: d.is_active }
    }

    fn project(d: &Account) -> AccountV2 {
        AccountV2 { username: d.username.clone(), is_active: d.is_active }
    }
}

/// Decode a wire record into the account envelope.
pub fn decode_account(w: &WireObject) -> (r: Result<AccountEnvelope, DecodeError>)
    ensures
        ({
            let fs = w.fields@;
            match wire_tag_spec(fs) {
                Err(e) => r == Err::<AccountEnvelope, DecodeError>(e),
                Ok(t) => if t == 1 {
                    match lookup(fs, "username"@) {
                        Some(WireValue::Str(s)) => r matches Ok(Envelope2::V1(v1)) && v1.username@
                            == s@,
                        Some(_) => r == Err::<AccountEnvelope, DecodeError>(
                            DecodeError::WrongFieldKind,
                        ),
                        None => r == Err::<AccountEnvelope, DecodeError>(DecodeError::MissingField),
                    }
                } else if t == 2 {
                    match lookup(fs, "username"@) {
                        Some(WireValue::Str(s)) => match lookup(fs, "is_active"@) {
                            Some(WireValue::Bool(b)) => r matches Ok(Envelope2::V2(v2))
                                && v2.username@ == s@ && v2.is_active == b,
                            Some(_) => r == Err::<AccountEnvelope, DecodeError>(
                                DecodeError::WrongFieldKind,
                            ),
                            None => r == Err::<AccountEnvelope, DecodeError>(
                                DecodeError::MissingField,
                            ),
                        },
                        Some(_) => r == Err::<AccountEnvelope, DecodeError>(
                            DecodeError::WrongFieldKind,
                        ),
                        None => r == Err::<AccountEnvelope, DecodeError>(DecodeError::MissingField),
                    }
                } else {
                    r == Err::<AccountEnvelope, DecodeError>(DecodeError::UnknownVersion(t))
                },
            }
        }),
{
    let tag = match w.tag() {
        Ok(t) => t,
        Err(e) => {
            return Err(e);
        },
    };
    if tag == 1 {
        match w.get("username") {
            Some(WireValue::Str(s)) => Ok(Envelope2::V1(AccountV1 { username: s.clone() })),
            Some(_) => Err(DecodeError::WrongFieldKind),
            None => Err(DecodeError::MissingField),
        }
    } else if tag == 2 {
        let username = match w.get("username") {
            Some(WireValue::Str(s)) => s.clone(),
            Some(_) => {
                return Err(DecodeError::WrongFieldKind);
            },
            None => {
                return Err(DecodeError::MissingField);
            },
        };
        match w.get("is_active") {
            Some(WireValue::Bool(b)) => Ok(
                Envelope2::V2(AccountV2 { username, is_active: *b }),
            ),
            Some(_) => Err(DecodeError::WrongFieldKind),
            None => Err(DecodeError::MissingField),
        }
    } else {
        Err(DecodeError::UnknownVersion(tag))
    }
}

/// Encode the account envelope as a wire record.
pub fn encode_account(e: &AccountEnvelope) -> (w: WireObject)
    ensures
        ({
            let fs = w.fields@;
            match *e {
                Envelope2::V1(v1) => {
                    &&& fs.len() == 2
                    &&& fs[0].key@ == "_version"@
                    &&& fs[0].value matches WireValue::Str(s) && s@ == "1"@
                    &&& fs[1].key@ == "username"@
                    &&& fs[1].value matches WireValue::Str(s) && s@ == v1.username@
                },
                Envelope2::V2(v2) => {
                    &&& fs.len() == 3
                    &&& fs[0].key@ == "_version"@
                    &&& fs[0].value matches WireValue::Str(s) && s@ == "2"@
                    &&& fs[1].key@ == "username"@
                    &&& fs[1].value matches WireValue::Str(s) && s@ == v2.username@
                    &&& fs[2].key@ == "is_active"@
                    &&& fs[2].value == WireValue::Bool(v2.is_active)
                },
            }
        }),
{
    let mut fields: Vec<WireField> = Vec::new();
    match e {
        Envelope2::V1(v1) => {
            fields.push(
                WireField {
                    key: String::from_str("_version"),
                    value: WireValue::Str(String::from_str("1")),
                },
            );
            fields.push(
                WireField {
                    key: String::from_str("username"),
                    value: WireValue::Str(v1.username.clone()),
                },
            );
        },
        Envelope2::V2(v2) => {
            fields.push(
                WireField {
                    key: String::from_str("_version"),
                    value: WireValue::Str(String::from_str("2")),
                },
            );
            fields.push(
                WireField {
                    key: String::from_str("username"),
                    value: WireValue::Str(v2.username.clone()),
                },
            );
            fields.push(
                WireField {
                    key: String::from_str("is_active"),
                    value: WireValue::Bool(v2.is_active),
                },
            );
        },
    }
    WireObject { fields }
}

/// Round trip of the account chain: writing a domain value back as an
/// envelope and converting it again returns the same value.
pub proof fn lemma_account_round_trip(d: Account)
    ensures
        AccountEnvelope::from_domain_spec(d).into_domain_spec::<Account>() == d,
{
}

} // verus!
