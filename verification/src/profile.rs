//! A worked chain of three versions in fallible mode: a profile record.
//!
//! Version 1 held one display name; version 2 split it into given and
//! family names; version 3 added an optional preferred name. The edge from
//! version 1 splits the display name at its first space and fails when
//! there is none — the family name would be missing. The later edges are
//! total. The envelope and wire codec cover all three versions.

use vstd::prelude::*;
use crate::envelope::Envelope3;
use crate::migrate::{Migration, Project};
use crate::wire::{lookup, wire_tag_spec, DecodeError, WireField, WireObject, WireValue};

verus! {

/// Version 1 of the profile record: one display name.
#[derive(Clone, Debug, PartialEq, Eq)]
pub struct ProfileV1 {
    pub display_name: String,
}

/// Version 2 of the profile record: the name split in two.
#[derive(Clone, Debug, PartialEq, Eq)]
pub struct ProfileV2 {
    pub given_name: String,
    pub family_name: String,
}

/// Version 3 (current) of the profile record.
#[derive(Clone, Debug, PartialEq, Eq)]
pub struct ProfileV3 {
    pub given_name: String,
    pub family_name: String,
    pub preferred: Option<String>,
}

/// The domain type consumers operate on.
#[derive(Clone, Debug, PartialEq, Eq)]
pub struct Profile {
    pub given_name: String,
    pub family_name: String,
    pub preferred: Option<String>,
}

/// The migration error of the profile chain.
#[derive(Clone, Copy, Debug, PartialEq, Eq, Structural)]
pub enum ProfileError {
    /// The display name has no space, so no family name can be split off.
    MissingFamilyName,
}

/// The envelope of the profile chain.
pub type ProfileVersions = Envelope3<ProfileV1, ProfileV2, ProfileV3>;

/// The position of the first space of `s`, or `s.len()` when there is none.
pub open spec fn split_point(s: Seq<char>) -> int
    decreases s.len(),
{
    if s.len() == 0 {
        0
    } else if s[0] == ' ' {
        0
    } else {
        1 + split_point(s.drop_first())
    }
}

/// The split point is never negative.
proof fn lemma_split_point_nonneg(s: Seq<char>)
    ensures
        split_point(s) >= 0,
    decreases s.len(),
{
    if s.len() > 0 && s[0] != ' ' {
        lemma_split_point_nonneg(s.drop_first());
    }
}

/// If no space stands before position `i`, the split point is at least `i`;
/// a space at `i` pins it there, and a spaceless string puts it at the end.
proof fn lemma_split_point_advance(s: Seq<char>, i: int)
    requires
        0 <= i <= s.len(),
        forall|j: int| 0 <= j < i ==> s[j] != ' ',
    ensures
        split_point(s) >= i,
        i < s.len() && s[i] == ' ' ==> split_point(s) == i,
        i == s.len() ==> split_point(s) == i,
    decreases i,
{
    if i == 0 {
        lemma_split_point_nonneg(s);
    } else {
        assert(s[0] != ' ');
        assert(forall|j: int|
            0 <= j < i - 1 ==> s.drop_first()[j] == s[j + 1] && s[j + 1] != ' ');
        lemma_split_point_advance(s.drop_first(), i - 1);
        if i < s.len() {
            assert(s.drop_first()[i - 1] == s[i]);
        }
    }
}

/// The edge from version 1: split the display name at its first space into
/// given and family names; fail when there is no space.
pub fn profile_v1_to_v2(v1: ProfileV1) -> (r: Result<ProfileV2, ProfileError>)
    ensures
        ({
            let s = v1.display_name@;
            let sp = split_point(s);
            if sp == s.len() {
                r == Err::<ProfileV2, ProfileError>(ProfileError::MissingFamilyName)
            } else {
                r matches Ok(v2) && v2.given_name@ == s.take(sp) && v2.family_name@ == s.skip(
                    sp + 1,
                )
            }
        }),
{
    let s = v1.display_name.as_str();
    let n = s.unicode_len();
    let mut i: usize = 0;
    while i < n
        invariant
            0 <= i <= n,
            n == s@.len(),
            s@ == v1.display_name@,
            forall|j: int| 0 <= j < i ==> s@[j] != ' ',
        decreases n - i,
    {
        if s.get_char(i) == ' ' {
            proof {
                lemma_split_point_advance(s@, i as int);
            }
            let given = s.substring_char(0, i);
            let family = s.substring_char(i + 1, n);
            proof {
                assert(given@ =~= s@.take(i as int));
                assert(family@ =~= s@.skip(i as int + 1));
            }
            return Ok(
                ProfileV2 {
                    given_name: String::from_str(given),
                    family_name: String::from_str(family),
                },
            );
        }
        i = i + 1;
    }
    proof {
        lemma_split_point_advance(s@, n as int);
    }
    Err(ProfileError::MissingFamilyName)
}

impl Migration<ProfileV3> for ProfileV2 {
    /// The names carry over; no preferred name was recorded.
    open spec fn migrate_spec(self) -> ProfileV3 {
        ProfileV3 { given_name: self.given_name, family_name: self.family_name, preferred: None }
    }

    fn migrate(self) -> ProfileV3 {
        ProfileV3 { given_name: self.given_name, family_name: self.family_name, preferred: None }
    }
}

impl Project<Profile> for ProfileV3 {
    open spec fn project_spec(d: Profile) -> ProfileV3 {
        ProfileV3 {
            given_name: d.given_name,
            family_name: d.family_name,
            preferred: d.preferred,
        }
    }

    fn project(d: &Profile) -> ProfileV3 {
        ProfileV3 {
            given_name: d.given_name.clone(),
            family_name: d.family_name.clone(),
            preferred: match &d.preferred {
                Some(p) => Some(p.clone()),
                None => None,
            },
        }
    }
}

/// Convert a profile envelope to the domain type: the composed fallible
/// migration from whatever version it holds, strictly in ascending order,
/// failing fast when the version 1 split fails.
pub fn profile_to_domain(e: ProfileVersions) -> (r: Result<Profile, ProfileError>)
    ensures
        ({
            match e {
                Envelope3::V1(v1) => {
                    let s = v1.display_name@;
                    let sp = split_point(s);
                    if sp == s.len() {
                        r == Err::<Profile, ProfileError>(ProfileError::MissingFamilyName)
                    } else {
                        r matches Ok(d) && d.given_name@ == s.take(sp) && d.family_name@ == s.skip(
                            sp + 1,
                        ) && d.preferred is None
                    }
                },
                Envelope3::V2(v2) => r == Ok::<Profile, ProfileError>(
                    Profile {
                        given_name: v2.given_name,
                        family_name: v2.family_name,
                        preferred: None,
                    },
                ),
                Envelope3::V3(v3) => r == Ok::<Profile, ProfileError>(
                    Profile {
                        given_name: v3.given_name,
                        family_name: v3.family_name,
                        preferred: v3.preferred,
                    },
                ),
            }
        }),
{
    let v3 = match e {
        Envelope3::V1(v1) => {
            match profile_v1_to_v2(v1) {
                Ok(v2) => v2.migrate(),
                Err(e) => {
                    return Err(e);
                },
            }
        },
        Envelope3::V2(v2) => v2.migrate(),
        Envelope3::V3(v3) => v3,
    };
    Ok(
        Profile {
            given_name: v3.given_name,
            family_name: v3.family_name,
            preferred: v3.preferred,
        },
    )
}

/// Decode a wire record into the profile envelope.
pub fn decode_profile(w: &WireObject) -> (r: Result<ProfileVersions, DecodeError>)
    ensures
        ({
            let fs = w.fields@;
            match wire_tag_spec(fs) {
                Err(e) => r == Err::<ProfileVersions, DecodeError>(e),
                Ok(t) => if t == 1 {
                    match lookup(fs, "display_name"@) {
                        Some(WireValue::Str(s)) => r matches Ok(Envelope3::V1(v1))
                            && v1.display_name@ == s@,
                        Some(_) => r == Err::<ProfileVersions, DecodeError>(
                            DecodeError::WrongFieldKind,
                        ),
                        None => r == Err::<ProfileVersions, DecodeError>(DecodeError::MissingField),
                    }
                } else if t == 2 {
                    match lookup(fs, "given_name"@) {
                        Some(WireValue::Str(g)) => match lookup(fs, "family_name"@) {
                            Some(WireValue::Str(f)) => r matches Ok(Envelope3::V2(v2))
                                && v2.given_name@ == g@ && v2.family_name@ == f@,
                            Some(_) => r == Err::<ProfileVersions, DecodeError>(
                                DecodeError::WrongFieldKind,
                            ),
                            None => r == Err::<ProfileVersions, DecodeError>(
                                DecodeError::MissingField,
                            ),
                        },
                        Some(_) => r == Err::<ProfileVersions, DecodeError>(
                            DecodeError::WrongFieldKind,
                        ),
                        None => r == Err::<ProfileVersions, DecodeError>(DecodeError::MissingField),
                    }
                } else if t == 3 {
                    match lookup(fs, "given_name"@) {
                        Some(WireValue::Str(g)) => match lookup(fs, "family_name"@) {
                            Some(WireValue::Str(f)) => match lookup(fs, "preferred"@) {
                                Some(WireValue::Str(p)) => r matches Ok(Envelope3::V3(v3))
                                    && v3.given_name@ == g@ && v3.family_name@ == f@ && (
                                v3.preferred matches Some(q) && q@ == p@),
                                Some(WireValue::Null) => r matches Ok(Envelope3::V3(v3))
                                    && v3.given_name@ == g@ && v3.family_name@ == f@
                                    && v3.preferred is None,
                                None => r matches Ok(Envelope3::V3(v3)) && v3.given_name@ == g@
                                    && v3.family_name@ == f@ && v3.preferred is None,
                                Some(_) => r == Err::<ProfileVersions, DecodeError>(
                                    DecodeError::WrongFieldKind,
                                ),
                            },
                            Some(_) => r == Err::<ProfileVersions, DecodeError>(
                                DecodeError::WrongFieldKind,
                            ),
                            None => r == Err::<ProfileVersions, DecodeError>(
                                DecodeError::MissingField,
                            ),
                        },
                        Some(_) => r == Err::<ProfileVersions, DecodeError>(
                            DecodeError::WrongFieldKind,
                        ),
                        None => r == Err::<ProfileVersions, DecodeError>(DecodeError::MissingField),
                    }
                } else {
                    r == Err::<ProfileVersions, DecodeError>(DecodeError::UnknownVersion(t))
                },
            }
        }),
{
    let tag = match w.tag() {
        Ok(t) => t,
        Err(e) => {
            return Err(e);
        },
    };
    if tag == 1 {
        match w.get("display_name") {
            Some(WireValue::Str(s)) => Ok(Envelope3::V1(ProfileV1 { display_name: s.clone() })),
            Some(_) => Err(DecodeError::WrongFieldKind),
            None => Err(DecodeError::MissingField),
        }
    } else if tag == 2 {
        let given_name = match w.get("given_name") {
            Some(WireValue::Str(g)) => g.clone(),
            Some(_) => {
                return Err(DecodeError::WrongFieldKind);
            },
            None => {
                return Err(DecodeError::MissingField);
            },
        };
        match w.get("family_name") {
            Some(WireValue::Str(f)) => Ok(
                Envelope3::V2(ProfileV2 { given_name, family_name: f.clone() }),
            ),
            Some(_) => Err(DecodeError::WrongFieldKind),
            None => Err(DecodeError::MissingField),
        }
    } else if tag == 3 {
        let given_name = match w.get("given_name") {
            Some(WireValue::Str(g)) => g.clone(),
            Some(_) => {
                return Err(DecodeError::WrongFieldKind);
            },
            None => {
                return Err(DecodeError::MissingField);
            },
        };
        let family_name = match w.get("family_name") {
            Some(WireValue::Str(f)) => f.clone(),
            Some(_) => {
                return Err(DecodeError::WrongFieldKind);
            },
            None => {
                return Err(DecodeError::MissingField);
            },
        };
        let preferred = match w.get("preferred") {
            Some(WireValue::Str(p)) => Some(p.clone()),
            Some(WireValue::Null) => None,
            Some(_) => {
                return Err(DecodeError::WrongFieldKind);
            },
            None => None,
        };
        Ok(Envelope3::V3(ProfileV3 { given_name, family_name, preferred }))
    } else {
        Err(DecodeError::UnknownVersion(tag))
    }
}

/// Encode the profile envelope as a wire record.
pub fn encode_profile(e: &ProfileVersions) -> (w: WireObject)
    ensures
        ({
            let fs = w.fields@;
            match *e {
                Envelope3::V1(v1) => {
                    &&& fs.len() == 2
                    &&& fs[0].key@ == "_version"@
                    &&& fs[0].value matches WireValue::Str(s) && s@ == "1"@
                    &&& fs[1].key@ == "display_name"@
                    &&& fs[1].value matches WireValue::Str(s) && s@ == v1.display_name@
                },
                Envelope3::V2(v2) => {
                    &&& fs.len() == 3
                    &&& fs[0].key@ == "_version"@
                    &&& fs[0].value matches WireValue::Str(s) && s@ == "2"@
                    &&& fs[1].key@ == "given_name"@
                    &&& fs[1].value matches WireValue::Str(s) && s@ == v2.given_name@
                    &&& fs[2].key@ == "family_name"@
                    &&& fs[2].value matches WireValue::Str(s) && s@ == v2.family_name@
                },
                Envelope3::V3(v3) => {
                    &&& fs.len() == 4
                    &&& fs[0].key@ == "_version"@
                    &&& fs[0].value matches WireValue::Str(s) && s@ == "3"@
                    &&& fs[1].key@ == "given_name"@
                    &&& fs[1].value matches WireValue::Str(s) && s@ == v3.given_name@
                    &&& fs[2].key@ == "family_name"@
                    &&& fs[2].value matches WireValue::Str(s) && s@ == v3.family_name@
                    &&& fs[3].key@ == "preferred"@
                    &&& (match v3.preferred {
                        Some(p) => fs[3].value matches WireValue::Str(s) && s@ == p@,
                        None => fs[3].value is Null,
                    })
                },
            }
        }),
{
    let mut fields: Vec<WireField> = Vec::new();
    match e {
        Envelope3::V1(v1) => {
            fields.push(
                WireField {
                    key: String::from_str("_version"),
                    value: WireValue::Str(String::from_str("1")),
                },
            );
            fields.push(
                WireField {
                    key: String::from_str("display_name"),
                    value: WireValue::Str(v1.display_name.clone()),
                },
            );
        },
        Envelope3::V2(v2) => {
            fields.push(
                WireField {
                    key: String::from_str("_version"),
                    value: WireValue::Str(String::from_str("2")),
                },
            );
            fields.push(
                WireField {
                    key: String::from_str("given_name"),
                    value: WireValue::Str(v2.given_name.clone()),
                },
            );
            fields.push(
                WireField {
                    key: String::from_str("family_name"),
                    value: WireValue::Str(v2.family_name.clone()),
                },
            );
        },
        Envelope3::V3(v3) => {
            fields.push(
                WireField {
                    key: String::from_str("_version"),
                    value: WireValue::Str(String::from_str("3")),
                },
            );
            fields.push(
                WireField {
                    key: String::from_str("given_name"),
                    value: WireValue::Str(v3.given_name.clone()),
                },
            );
            fields.push(
                WireField {
                    key: String::from_str("family_name"),
                    value: WireValue::Str(v3.family_name.clone()),
                },
            );
            let preferred_value = match &v3.preferred {
                Some(p) => WireValue::Str(p.clone()),
                None => WireValue::Null,
            };
            fields.push(
                WireField { key: String::from_str("preferred"), value: preferred_value },
            );
        },
    }
    WireObject { fields }
}

/// Round trip of the profile chain: projecting a domain value onto the
/// latest shape and converting it again returns the same value.
pub proof fn lemma_profile_round_trip(d: Profile)
    ensures
        ({
            let v3 = ProfileV3::project_spec(d);
            Profile {
                given_name: v3.given_name,
                family_name: v3.family_name,
                preferred: v3.preferred,
            } == d
        }),
{
}

} // verus!
