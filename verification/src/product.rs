//! A worked chain in fallible mode: a product record of two versions.
//!
//! Version 1 priced the product as a decimal number on the wire; version 2
//! stores integer cents. The edge from version 1 parses the price text into
//! cents and fails when it denotes no cent amount or does not fit — so
//! conversion to the domain type returns a result, and transparent bridging
//! folds migration failures and decode failures into one error channel,
//! [`ProductWireError`].

use vstd::prelude::*;
use crate::envelope::Envelope2;
use crate::migrate::{Project, TryMigration};
use crate::numeric::{cents_of, dec_int_seq, dec_int_val, format_i64, is_dec_int, parse_cents, parse_i64};
use crate::wire::{lookup, wire_tag_spec, DecodeError, WireField, WireObject, WireValue};

verus! {

/// Version 1 of the product record: the price as decimal number text.
#[derive(Clone, Debug, PartialEq, Eq)]
pub struct ProductV1 {
    pub name: String,
    pub price: String,
}

/// Version 2 (current) of the product record: the price in integer cents.
#[derive(Clone, Debug, PartialEq, Eq)]
pub struct ProductV2 {
    pub name: String,
    pub price_cents: i64,
}

/// The domain type consumers operate on.
#[derive(Clone, Debug, PartialEq, Eq)]
pub struct Product {
    pub name: String,
    pub price_cents: i64,
}

/// The migration error of the product chain.
#[derive(Clone, Copy, Debug, PartialEq, Eq, Structural)]
pub enum ProductError {
    /// The version 1 price text denotes no cent amount that fits.
    InvalidPrice,
}

/// The uniform failure type of the transparent product codec: decode
/// failures and migration failures share one channel.
#[derive(Clone, Copy, Debug, PartialEq, Eq, Structural)]
pub enum ProductWireError {
    Decode(DecodeError),
    Migration(ProductError),
}

/// The envelope of the product chain.
pub type ProductVersions = Envelope2<ProductV1, ProductV2>;

/// The outcome of the version 1 edge on a price text: the cent amount when
/// the text denotes one that fits in an `i64`, the migration error
/// otherwise.
pub open spec fn spec_price_cents(price: Seq<char>) -> Result<i64, ProductError> {
    match cents_of(price) {
        Some(c) => if i64::MIN <= c <= i64::MAX {
            Ok(c as i64)
        } else {
            Err(ProductError::InvalidPrice)
        },
        None => Err(ProductError::InvalidPrice),
    }
}

impl TryMigration<ProductV2, ProductError> for ProductV1 {
    /// The price text becomes integer cents; a text that denotes no cent
    /// amount, or one out of range, fails the edge.
    open spec fn try_migrate_spec(self) -> Result<ProductV2, ProductError> {
        match spec_price_cents(self.price@) {
            Ok(c) => Ok(ProductV2 { name: self.name, price_cents: c }),
            Err(e) => Err(e),
        }
    }

    fn try_migrate(self) -> Result<ProductV2, ProductError> {
        match parse_cents(self.price.as_str()) {
            Some(c) => Ok(ProductV2 { name: self.name, price_cents: c }),
            None => Err(ProductError::InvalidPrice),
        }
    }
}

impl TryMigration<Product, ProductError> for ProductV2 {
    /// The final edge cannot fail: the current shape is the domain shape.
    open spec fn try_migrate_spec(self) -> Result<Product, ProductError> {
        Ok(Product { name: self.name, price_cents: self.price_cents })
    }

    fn try_migrate(self) -> Result<Product, ProductError> {
        Ok(Product { name: self.name, price_cents: self.price_cents })
    }
}

impl Project<Product> for ProductV2 {
    open spec fn project_spec(d: Product) -> ProductV2 {
        ProductV2 { name: d.name, price_cents: d.price_cents }
    }

    fn project(d: &Product) -> ProductV2 {
        ProductV2 { name: d.name.clone(), price_cents: d.price_cents }
    }
}

/// Decode a wire record into the product envelope. Version 1 requires a
/// `name` string and a `price` number; version 2 requires a `name` string
/// and a `price_cents` number holding a decimal integer that fits.
pub fn decode_product(w: &WireObject) -> (r: Result<ProductVersions, DecodeError>)
    ensures
        ({
            let fs = w.fields@;
            match wire_tag_spec(fs) {
                Err(e) => r == Err::<ProductVersions, DecodeError>(e),
                Ok(t) => if t == 1 {
                    match lookup(fs, "name"@) {
                        Some(WireValue::Str(s)) => match lookup(fs, "price"@) {
                            Some(WireValue::Num(p)) => r matches Ok(Envelope2::V1(v1)) && v1.name@
                                == s@ && v1.price@ == p@,
                            Some(_) => r == Err::<ProductVersions, DecodeError>(
                                DecodeError::WrongFieldKind,
                            ),
                            None => r == Err::<ProductVersions, DecodeError>(
                                DecodeError::MissingField,
                            ),
                        },
                        Some(_) => r == Err::<ProductVersions, DecodeError>(
                            DecodeError::WrongFieldKind,
                        ),
                        None => r == Err::<ProductVersions, DecodeError>(DecodeError::MissingField),
                    }
                } else if t == 2 {
                    match lookup(fs, "name"@) {
                        Some(WireValue::Str(s)) => match lookup(fs, "price_cents"@) {
                            Some(WireValue::Num(p)) => if is_dec_int(p@) && i64::MIN <= dec_int_val(
                                p@,
                            ) <= i64::MAX {
                                r matches Ok(Envelope2::V2(v2)) && v2.name@ == s@ && v2.price_cents
                                    == dec_int_val(p@)
                            } else {
                                r == Err::<ProductVersions, DecodeError>(DecodeError::WrongFieldKind)
                            },
                            Some(_) => r == Err::<ProductVersions, DecodeError>(
                                DecodeError::WrongFieldKind,
                            ),
                            None => r == Err::<ProductVersions, DecodeError>(
                                DecodeError::MissingField,
                            ),
                        },
                        Some(_) => r == Err::<ProductVersions, DecodeError>(
                            DecodeError::WrongFieldKind,
                        ),
                        None => r == Err::<ProductVersions, DecodeError>(DecodeError::MissingField),
                    }
                } else {
                    r == Err::<ProductVersions, DecodeError>(DecodeError::UnknownVersion(t))
                },
            }
        }),
{
    let tag = match w.tag() {
        Ok(t) => t,
        Err(e) => {
            return Err(e);
        },
    };
    if tag == 1 {
        let name = match w.get("name") {
            Some(WireValue::Str(s)) => s.clone(),
            Some(_) => {
                return Err(DecodeError::WrongFieldKind);
            },
            None => {
                return Err(DecodeError::MissingField);
            },
        };
        match w.get("price") {
            Some(WireValue::Num(p)) => Ok(Envelope2::V1(ProductV1 { name, price: p.clone() })),
            Some(_) => Err(DecodeError::WrongFieldKind),
            None => Err(DecodeError::MissingField),
        }
    } else if tag == 2 {
        let name = match w.get("name") {
            Some(WireValue::Str(s)) => s.clone(),
            Some(_) => {
                return Err(DecodeError::WrongFieldKind);
            },
            None => {
                return Err(DecodeError::MissingField);
            },
        };
        match w.get("price_cents") {
            Some(WireValue::Num(p)) => match parse_i64(p.as_str()) {
                Some(c) => Ok(Envelope2::V2(ProductV2 { name, price_cents: c })),
                None => Err(DecodeError::WrongFieldKind),
            },
            Some(_) => Err(DecodeError::WrongFieldKind),
            None => Err(DecodeError::MissingField),
        }
    } else {
        Err(DecodeError::UnknownVersion(tag))
    }
}

/// Encode the product envelope as a wire record: the `_version` tag first,
/// then the active shape's fields, flat beside it.
pub fn encode_product(e: &ProductVersions) -> (w: WireObject)
    ensures
        ({
            let fs = w.fields@;
            match *e {
                Envelope2::V1(v1) => {
                    &&& fs.len() == 3
                    &&& fs[0].key@ == "_version"@
                    &&& fs[0].value matches WireValue::Str(s) && s@ == "1"@
                    &&& fs[1].key@ == "name"@
                    &&& fs[1].value matches WireValue::Str(s) && s@ == v1.name@
                    &&& fs[2].key@ == "price"@
                    &&& fs[2].value matches WireValue::Num(p) && p@ == v1.price@
                },
                Envelope2::V2(v2) => {
                    &&& fs.len() == 3
                    &&& fs[0].key@ == "_version"@
                    &&& fs[0].value matches WireValue::Str(s) && s@ == "2"@
                    &&& fs[1].key@ == "name"@
                    &&& fs[1].value matches WireValue::Str(s) && s@ == v2.name@
                    &&& fs[2].key@ == "price_cents"@
                    &&& fs[2].value matches WireValue::Num(p) && p@ == dec_int_seq(
                        v2.price_cents as int,
                    )
                },
            }
        }),
{
    let mut fields: Vec<WireField> = Vec::new();
    match e {
        Envelope2::V1(v1) => {
            fields.push(
                WireField {
                    key: String::from_str("_version"),
                    value: WireValue::Str(String::from_str("1")),
                },
            );
            fields.push(
                WireField { key: String::from_str("name"), value: WireValue::Str(v1.name.clone()) },
            );
            fields.push(
                WireField {
                    key: String::from_str("price"),
                    value: WireValue::Num(v1.price.clone()),
                },
            );
        },
        Envelope2::V2(v2) => {
            fields.push(
                WireField {
                    key: String::from_str("_version"),
                    value: WireValue::Str(String::from_str("2")),
                },
            );
            fields.push(
                WireField { key: String::from_str("name"), value: WireValue::Str(v2.name.clone()) },
            );
            fields.push(
                WireField {
                    key: String::from_str("price_cents"),
                    value: WireValue::Num(format_i64(v2.price_cents)),
                },
            );
        },
    }
    WireObject { fields }
}

/// Transparent output: write a domain value straight to a wire record,
/// always tagged with the current version.
pub fn serialize_product(d: &Product) -> (w: WireObject)
    ensures
        ({
            let fs = w.fields@;
            &&& fs.len() == 3
            &&& fs[0].key@ == "_version"@
            &&& fs[0].value matches WireValue::Str(s) && s@ == "2"@
            &&& fs[1].key@ == "name"@
            &&& fs[1].value matches WireValue::Str(s) && s@ == d.name@
            &&& fs[2].key@ == "price_cents"@
            &&& fs[2].value matches WireValue::Num(p) && p@ == dec_int_seq(d.price_cents as int)
        }),
{
    let env = ProductVersions::from_domain(d);
    encode_product(&env)
}

/// Transparent input: read a domain value straight from a wire record,
/// migrating whatever version the record holds. Decode failures and
/// migration failures come back on the one uniform channel.
pub fn deserialize_product(w: &WireObject) -> (r: Result<Product, ProductWireError>)
    ensures
        ({
            let fs = w.fields@;
            match wire_tag_spec(fs) {
                Err(e) => r == Err::<Product, ProductWireError>(ProductWireError::Decode(e)),
                Ok(t) => if t == 1 {
                    match lookup(fs, "name"@) {
                        Some(WireValue::Str(s)) => match lookup(fs, "price"@) {
                            Some(WireValue::Num(p)) => match spec_price_cents(p@) {
                                Ok(c) => r matches Ok(d) && d.name@ == s@ && d.price_cents == c,
                                Err(e) => r == Err::<Product, ProductWireError>(
                                    ProductWireError::Migration(e),
                                ),
                            },
                            Some(_) => r == Err::<Product, ProductWireError>(
                                ProductWireError::Decode(DecodeError::WrongFieldKind),
                            ),
                            None => r == Err::<Product, ProductWireError>(
                                ProductWireError::Decode(DecodeError::MissingField),
                            ),
                        },
                        Some(_) => r == Err::<Product, ProductWireError>(
                            ProductWireError::Decode(DecodeError::WrongFieldKind),
                        ),
                        None => r == Err::<Product, ProductWireError>(
                            ProductWireError::Decode(DecodeError::MissingField),
                        ),
                    }
                } else if t == 2 {
                    match lookup(fs, "name"@) {
                        Some(WireValue::Str(s)) => match lookup(fs, "price_cents"@) {
                            Some(WireValue::Num(p)) => if is_dec_int(p@) && i64::MIN <= dec_int_val(
                                p@,
                            ) <= i64::MAX {
                                r matches Ok(d) && d.name@ == s@ && d.price_cents == dec_int_val(p@)
                            } else {
                                r == Err::<Product, ProductWireError>(
                                    ProductWireError::Decode(DecodeError::WrongFieldKind),
                                )
                            },
                            Some(_) => r == Err::<Product, ProductWireError>(
                                ProductWireError::Decode(DecodeError::WrongFieldKind),
                            ),
                            None => r == Err::<Product, ProductWireError>(
                                ProductWireError::Decode(DecodeError::MissingField),
                            ),
                        },
                        Some(_) => r == Err::<Product, ProductWireError>(
                            ProductWireError::Decode(DecodeError::WrongFieldKind),
                        ),
                        None => r == Err::<Product, ProductWireError>(
                            ProductWireError::Decode(DecodeError::MissingField),
                        ),
                    }
                } else {
                    r == Err::<Product, ProductWireError>(
                        ProductWireError::Decode(DecodeError::UnknownVersion(t)),
                    )
                },
            }
        }),
{
    match decode_product(w) {
        Ok(env) => match env.try_into_domain() {
            Ok(d) => Ok(d),
            Err(e) => Err(ProductWireError::Migration(e)),
        },
        Err(e) => Err(ProductWireError::Decode(e)),
    }
}

/// Round trip of the product chain: writing a domain value back as an
/// envelope and converting it again returns the same value.
pub proof fn lemma_product_round_trip(d: Product)
    ensures
        ProductVersions::from_domain_spec(d).try_into_domain_spec::<Product, ProductError>()
            == Ok::<Product, ProductError>(d),
{
}

} // verus!
