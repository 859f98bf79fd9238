//! A worked chain of three versions in fallible mode: a catalog item.
//!
//! Version 1 priced the item as a decimal number on the wire; version 2
//! stores signed integer cents; version 3 stores unsigned cents and adds a
//! stock-keeping code derived from the name. The edge from version 1 fails
//! when the price text denotes no cent amount that fits; the edge from
//! version 2 fails when the cents are negative or the name yields no
//! code characters. Composition fails fast: an envelope at version 2 with a
//! negative price is refused by that edge alone, and the version 3 edge is
//! never consulted.

use vstd::prelude::*;
use crate::envelope::Envelope3;
use crate::migrate::Project;
use crate::numeric::{cents_of, parse_cents};

verus! {

/// Version 1 of the item record: the price as decimal number text.
#[derive(Clone, Debug, PartialEq, Eq)]
pub struct ItemV1 {
    pub name: String,
    pub price: String,
}

/// Version 2 of the item record: the price in signed integer cents.
#[derive(Clone, Debug, PartialEq, Eq)]
pub struct ItemV2 {
    pub name: String,
    pub price_cents: i64,
}

/// Version 3 (current) of the item record: unsigned cents and a
/// stock-keeping code.
#[derive(Clone, Debug, PartialEq, Eq)]
pub struct ItemV3 {
    pub name: String,
    pub price_cents: u64,
    pub sku: String,
}

/// The domain type consumers operate on.
#[derive(Clone, Debug, PartialEq, Eq)]
pub struct Item {
    pub name: String,
    pub price_cents: u64,
    pub sku: String,
}

/// The migration error of the item chain. Each variant names the edge it
/// comes from.
#[derive(Clone, Copy, Debug, PartialEq, Eq, Structural)]
pub enum ItemError {
    /// The version 1 price text denotes no cent amount that fits.
    InvalidPrice,
    /// The version 2 cents are negative.
    NegativePrice,
    /// The name yields no character for the stock-keeping code.
    NoSkuChars,
}

/// The envelope of the item chain.
pub type ItemVersions = Envelope3<ItemV1, ItemV2, ItemV3>;

/// Whether `c` may stand in a stock-keeping code: an ASCII letter or digit.
pub open spec fn is_sku_char(c: char) -> bool {
    (48 <= c as int <= 57) || (65 <= c as int <= 90) || (97 <= c as int <= 122)
}

/// The stock-keeping code derived from a name: its code characters, in
/// order, everything else dropped.
pub open spec fn sku_of(name: Seq<char>) -> Seq<char>
    decreases name.len(),
{
    if name.len() == 0 {
        Seq::empty()
    } else if is_sku_char(name[0]) {
        seq![name[0]] + sku_of(name.drop_first())
    } else {
        sku_of(name.drop_first())
    }
}

/// Derive the stock-keeping code of a name.
pub fn derive_sku(name: &str) -> (r: String)
    ensures
        r@ == sku_of(name@),
{
    let n = name.unicode_len();
    let mut out = String::new();
    let mut i: usize = 0;
    proof {
        assert(name@.skip(0) =~= name@);
    }
    while i < n
        invariant
            0 <= i <= n,
            n == name@.len(),
            out@ + sku_of(name@.skip(i as int)) == sku_of(name@),
        decreases n - i,
    {
        proof {
            assert(name@.skip(i as int).drop_first() =~= name@.skip(i as int + 1));
            assert(name@.skip(i as int)[0] == name@[i as int]);
        }
        let c = name.get_char(i);
        let code = c as u32;
        if (code >= 48 && code <= 57) || (code >= 65 && code <= 90) || (code >= 97 && code
            <= 122) {
            let piece = name.substring_char(i, i + 1);
            proof {
                assert(piece@ =~= seq![name@[i as int]]);
            }
            out.append(piece);
        }
        proof {
            assert(out@ + sku_of(name@.skip(i as int + 1)) =~= sku_of(name@));
        }
        i = i + 1;
    }
    proof {
        assert(name@.skip(n as int) =~= Seq::<char>::empty());
        assert(out@ + sku_of(name@.skip(n as int)) =~= out@);
    }
    out
}

/// The edge from version 1: the price text becomes signed cents, failing on
/// text that denotes no cent amount that fits.
pub fn item_v1_to_v2(v1: ItemV1) -> (r: Result<ItemV2, ItemError>)
    ensures
        ({
            match cents_of(v1.price@) {
                Some(c) => if i64::MIN <= c <= i64::MAX {
                    r matches Ok(v2) && v2.name == v1.name && v2.price_cents == c
                } else {
                    r == Err::<ItemV2, ItemError>(ItemError::InvalidPrice)
                },
                None => r == Err::<ItemV2, ItemError>(ItemError::InvalidPrice),
            }
        }),
{
    match parse_cents(v1.price.as_str()) {
        Some(c) => Ok(ItemV2 { name: v1.name, price_cents: c }),
        None => Err(ItemError::InvalidPrice),
    }
}

/// The edge from version 2: the cents must be non-negative, and the name
/// must yield a non-empty stock-keeping code.
pub fn item_v2_to_v3(v2: ItemV2) -> (r: Result<ItemV3, ItemError>)
    ensures
        v2.price_cents < 0 ==> r == Err::<ItemV3, ItemError>(ItemError::NegativePrice),
        v2.price_cents >= 0 && sku_of(v2.name@).len() == 0 ==> r == Err::<ItemV3, ItemError>(
            ItemError::NoSkuChars,
        ),
        v2.price_cents >= 0 && sku_of(v2.name@).len() > 0 ==> (r matches Ok(v3) && v3.name
            == v2.name && v3.price_cents == v2.price_cents && v3.sku@ == sku_of(v2.name@)),
{
    if v2.price_cents < 0 {
        return Err(ItemError::NegativePrice);
    }
    let sku = derive_sku(v2.name.as_str());
    if sku.as_str().is_empty() {
        return Err(ItemError::NoSkuChars);
    }
    Ok(ItemV3 { name: v2.name, price_cents: v2.price_cents as u64, sku })
}

/// The final edge: the current shape is the domain shape.
pub fn item_v3_to_domain(v3: ItemV3) -> (r: Result<Item, ItemError>)
    ensures
        r == Ok::<Item, ItemError>(Item { name: v3.name, price_cents: v3.price_cents, sku: v3.sku }),
{
    Ok(Item { name: v3.name, price_cents: v3.price_cents, sku: v3.sku })
}

impl Project<Item> for ItemV3 {
    open spec fn project_spec(d: Item) -> ItemV3 {
        ItemV3 { name: d.name, price_cents: d.price_cents, sku: d.sku }
    }

    fn project(d: &Item) -> ItemV3 {
        ItemV3 { name: d.name.clone(), price_cents: d.price_cents, sku: d.sku.clone() }
    }
}

/// Convert an item envelope to the domain type: the composed fallible
/// migration from whatever version it holds, strictly in ascending order,
/// failing fast at the first failing edge. An envelope at version 2 whose
/// cents are negative is refused by the version 2 edge, and no later edge
/// bears on the result.
pub fn item_to_domain(e: ItemVersions) -> (r: Result<Item, ItemError>)
    ensures
        ({
            match e {
                Envelope3::V1(v1) => match cents_of(v1.price@) {
                    None => r == Err::<Item, ItemError>(ItemError::InvalidPrice),
                    Some(c) => if !(i64::MIN <= c <= i64::MAX) {
                        r == Err::<Item, ItemError>(ItemError::InvalidPrice)
                    } else if c < 0 {
                        r == Err::<Item, ItemError>(ItemError::NegativePrice)
                    } else if sku_of(v1.name@).len() == 0 {
                        r == Err::<Item, ItemError>(ItemError::NoSkuChars)
                    } else {
                        r matches Ok(d) && d.name == v1.name && d.price_cents == c && d.sku@
                            == sku_of(v1.name@)
                    },
                },
                Envelope3::V2(v2) => if v2.price_cents < 0 {
                    r == Err::<Item, ItemError>(ItemError::NegativePrice)
                } else if sku_of(v2.name@).len() == 0 {
                    r == Err::<Item, ItemError>(ItemError::NoSkuChars)
                } else {
                    r matches Ok(d) && d.name == v2.name && d.price_cents == v2.price_cents
                        && d.sku@ == sku_of(v2.name@)
                },
                Envelope3::V3(v3) => r == Ok::<Item, ItemError>(
                    Item { name: v3.name, price_cents: v3.price_cents, sku: v3.sku },
                ),
            }
        }),
{
    match e {
        Envelope3::V1(v1) => {
            let v2 = match item_v1_to_v2(v1) {
                Ok(v2) => v2,
                Err(e) => {
                    return Err(e);
                },
            };
            let v3 = match item_v2_to_v3(v2) {
                Ok(v3) => v3,
                Err(e) => {
                    return Err(e);
                },
            };
            item_v3_to_domain(v3)
        },
        Envelope3::V2(v2) => {
            let v3 = match item_v2_to_v3(v2) {
                Ok(v3) => v3,
                Err(e) => {
                    return Err(e);
                },
            };
            item_v3_to_domain(v3)
        },
        Envelope3::V3(v3) => item_v3_to_domain(v3),
    }
}

/// Round trip of the item chain: projecting a domain value onto the latest
/// shape and applying the final edge's stated result returns the same
/// value.
pub proof fn lemma_item_round_trip(d: Item)
    ensures
        ({
            let v3 = ItemV3::project_spec(d);
            Item { name: v3.name, price_cents: v3.price_cents, sku: v3.sku } == d
        }),
{
}

/// Wrap a domain value for output: always the latest variant.
pub fn item_from_domain(d: &Item) -> (r: ItemVersions)
    ensures
        r == ItemVersions::from_domain_spec(*d),
        r.version_spec() == 3,
{
    ItemVersions::from_domain(d)
}

} // verus!
