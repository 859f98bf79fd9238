//! Tagged envelopes over a chain of version shapes.
//!
//! An envelope is a sum type with exactly one variant per version shape,
//! tagged by the shape's 1-based position in the chain. [`Envelope2`] and
//! [`Envelope3`] cover chains of length two and three; a longer chain takes
//! the same shape with more variants. The conversions compose the supplied
//! migration edges strictly in ascending order, fail fast in fallible mode,
//! and always write back through the latest variant.

use vstd::prelude::*;
use crate::migrate::{Migration, Project, TryMigration};

verus! {

/// The envelope of a chain of two version shapes `A` (position 1) and
/// `B` (position 2, the latest).
#[derive(Clone, Debug, PartialEq, Eq)]
pub enum Envelope2<A, B> {
    V1(A),
    V2(B),
}

impl<A, B> Envelope2<A, B> {
    /// The current (latest) version position of this chain.
    pub const CURRENT: u32 = 2;

    /// The 1-based chain position of the active variant.
    pub open spec fn version_spec(self) -> u32 {
        match self {
            Envelope2::V1(_) => 1,
            Envelope2::V2(_) => 2,
        }
    }

    /// Return the 1-based chain position of the active variant.
    pub fn version(&self) -> (v: u32)
        ensures
            v == self.version_spec(),
    {
        match self {
            Envelope2::V1(_) => 1,
            Envelope2::V2(_) => 2,
        }
    }

    /// Whether the active variant is the latest one.
    pub fn is_current(&self) -> (r: bool)
        ensures
            r == (self.version_spec() == Self::CURRENT),
    {
        match self {
            Envelope2::V1(_) => false,
            Envelope2::V2(_) => true,
        }
    }

    /// The domain value that the composed total migration reaches from this
    /// envelope: from position 1, edge `A -> B` then edge `B -> D`; from
    /// position 2, the single edge `B -> D`.
    pub open spec fn into_domain_spec<D>(self) -> D where A: Migration<B>, B: Migration<D> {
        match self {
            Envelope2::V1(a) => a.migrate_spec().migrate_spec(),
            Envelope2::V2(b) => b.migrate_spec(),
        }
    }

    /// Convert to the domain type in total mode, composing the edges
    /// strictly in ascending order.
    pub fn into_domain<D>(self) -> (d: D) where A: Migration<B>, B: Migration<D>
        ensures
            d == self.into_domain_spec::<D>(),
    {
        match self {
            Envelope2::V1(a) => a.migrate().migrate(),
            Envelope2::V2(b) => b.migrate(),
        }
    }

    /// The outcome that the composed fallible migration reaches from this
    /// envelope: the first failing edge short-circuits the rest.
    pub open spec fn try_into_domain_spec<D, E>(self) -> Result<D, E> where
        A: TryMigration<B, E>,
        B: TryMigration<D, E>,
    {
        match self {
            Envelope2::V1(a) => match a.try_migrate_spec() {
                Ok(b) => b.try_migrate_spec(),
                Err(e) => Err(e),
            },
            Envelope2::V2(b) => b.try_migrate_spec(),
        }
    }

    /// Convert to the domain type in fallible mode: edges run strictly in
    /// ascending order and the first error is returned at once, without
    /// running any later edge.
    pub fn try_into_domain<D, E>(self) -> (r: Result<D, E>) where
        A: TryMigration<B, E>,
        B: TryMigration<D, E>,
        ensures
            r == self.try_into_domain_spec::<D, E>(),
    {
        match self {
            Envelope2::V1(a) => match a.try_migrate() {
                Ok(b) => b.try_migrate(),
                Err(e) => Err(e),
            },
            Envelope2::V2(b) => b.try_migrate(),
        }
    }

    /// The envelope that a domain value is written back as: always the
    /// latest variant, wrapping the backward projection.
    pub open spec fn from_domain_spec<D>(d: D) -> Self where B: Project<D> {
        Envelope2::V2(B::project_spec(d))
    }

    /// Wrap a domain value for output. The result is always tagged with the
    /// current version, whatever the domain value holds.
    pub fn from_domain<D>(d: &D) -> (r: Self) where B: Project<D>
        ensures
            r == Self::from_domain_spec(*d),
            r.version_spec() == Self::CURRENT,
    {
        Envelope2::V2(B::project(d))
    }
}

/// The envelope of a chain of three version shapes `A` (position 1),
/// `B` (position 2) and `C` (position 3, the latest).
#[derive(Clone, Debug, PartialEq, Eq)]
pub enum Envelope3<A, B, C> {
    V1(A),
    V2(B),
    V3(C),
}

impl<A, B, C> Envelope3<A, B, C> {
    /// The current (latest) version position of this chain.
    pub const CURRENT: u32 = 3;

    /// The 1-based chain position of the active variant.
    pub open spec fn version_spec(self) -> u32 {
        match self {
            Envelope3::V1(_) => 1,
            Envelope3::V2(_) => 2,
            Envelope3::V3(_) => 3,
        }
    }

    /// Return the 1-based chain position of the active variant.
    pub fn version(&self) -> (v: u32)
        ensures
            v == self.version_spec(),
    {
        match self {
            Envelope3::V1(_) => 1,
            Envelope3::V2(_) => 2,
            Envelope3::V3(_) => 3,
        }
    }

    /// Whether the active variant is the latest one.
    pub fn is_current(&self) -> (r: bool)
        ensures
            r == (self.version_spec() == Self::CURRENT),
    {
        match self {
            Envelope3::V1(_) => false,
            Envelope3::V2(_) => false,
            Envelope3::V3(_) => true,
        }
    }

    /// The domain value that the composed total migration reaches from this
    /// envelope, hopping one edge at a time in ascending order.
    pub open spec fn into_domain_spec<D>(self) -> D where
        A: Migration<B>,
        B: Migration<C>,
        C: Migration<D>,
    {
        match self {
            Envelope3::V1(a) => a.migrate_spec().migrate_spec().migrate_spec(),
            Envelope3::V2(b) => b.migrate_spec().migrate_spec(),
            Envelope3::V3(c) => c.migrate_spec(),
        }
    }

    /// Convert to the domain type in total mode, composing the edges
    /// strictly in ascending order.
    pub fn into_domain<D>(self) -> (d: D) where
        A: Migration<B>,
        B: Migration<C>,
        C: Migration<D>,
        ensures
            d == self.into_domain_spec::<D>(),
    {
        match self {
            Envelope3::V1(a) => a.migrate().migrate().migrate(),
            Envelope3::V2(b) => b.migrate().migrate(),
            Envelope3::V3(c) => c.migrate(),
        }
    }

    /// The outcome that the composed fallible migration reaches from this
    /// envelope: the first failing edge short-circuits the rest.
    pub open spec fn try_into_domain_spec<D, E>(self) -> Result<D, E> where
        A: TryMigration<B, E>,
        B: TryMigration<C, E>,
        C: TryMigration<D, E>,
    {
        match self {
            Envelope3::V1(a) => match a.try_migrate_spec() {
                Ok(b) => match b.try_migrate_spec() {
                    Ok(c) => c.try_migrate_spec(),
                    Err(e) => Err(e),
                },
                Err(e) => Err(e),
            },
            Envelope3::V2(b) => match b.try_migrate_spec() {
                Ok(c) => c.try_migrate_spec(),
                Err(e) => Err(e),
            },
            Envelope3::V3(c) => c.try_migrate_spec(),
        }
    }

    /// Convert to the domain type in fallible mode: edges run strictly in
    /// ascending order and the first error is returned at once, without
    /// running any later edge.
    pub fn try_into_domain<D, E>(self) -> (r: Result<D, E>) where
        A: TryMigration<B, E>,
        B: TryMigration<C, E>,
        C: TryMigration<D, E>,
        ensures
            r == self.try_into_domain_spec::<D, E>(),
    {
        match self {
            Envelope3::V1(a) => match a.try_migrate() {
                Ok(b) => match b.try_migrate() {
                    Ok(c) => c.try_migrate(),
                    Err(e) => Err(e),
                },
                Err(e) => Err(e),
            },
            Envelope3::V2(b) => match b.try_migrate() {
                Ok(c) => c.try_migrate(),
                Err(e) => Err(e),
            },
            Envelope3::V3(c) => c.try_migrate(),
        }
    }

    /// The envelope that a domain value is written back as: always the
    /// latest variant, wrapping the backward projection.
    pub open spec fn from_domain_spec<D>(d: D) -> Self where C: Project<D> {
        Envelope3::V3(C::project_spec(d))
    }

    /// Wrap a domain value for output. The result is always tagged with the
    /// current version, whatever the domain value holds.
    pub fn from_domain<D>(d: &D) -> (r: Self) where C: Project<D>
        ensures
            r == Self::from_domain_spec(*d),
            r.version_spec() == Self::CURRENT,
    {
        Envelope3::V3(C::project(d))
    }
}

/// Conversion is strictly sequential: converting a chain of two shapes from
/// position 1 is the edge out of position 1 followed by the conversion from
/// position 2 — no step is skipped or reordered.
pub proof fn lemma_sequential2<A, B, D>(a: A) where A: Migration<B>, B: Migration<D>
    ensures
        Envelope2::<A, B>::V1(a).into_domain_spec::<D>() == Envelope2::<A, B>::V2(
            a.migrate_spec(),
        ).into_domain_spec::<D>(),
{
}

/// Fallible conversion is strictly sequential and fail-fast: from position 1
/// it takes the edge out of position 1, and on failure that error is the
/// result — the later edge has no bearing on it.
pub proof fn lemma_try_sequential2<A, B, D, E>(a: A) where
    A: TryMigration<B, E>,
    B: TryMigration<D, E>,

    ensures
        (match a.try_migrate_spec() {
            Ok(b) => Envelope2::<A, B>::V1(a).try_into_domain_spec::<D, E>()
                == Envelope2::<A, B>::V2(b).try_into_domain_spec::<D, E>(),
            Err(e) => Envelope2::<A, B>::V1(a).try_into_domain_spec::<D, E>() == Err::<D, E>(e),
        }),
{
}

/// Conversion of a chain of three shapes is strictly sequential: from either
/// historical position it takes one edge and then converts from the next.
pub proof fn lemma_sequential3<A, B, C, D>(a: A, b: B) where
    A: Migration<B>,
    B: Migration<C>,
    C: Migration<D>,

    ensures
        Envelope3::<A, B, C>::V1(a).into_domain_spec::<D>() == Envelope3::<A, B, C>::V2(
            a.migrate_spec(),
        ).into_domain_spec::<D>(),
        Envelope3::<A, B, C>::V2(b).into_domain_spec::<D>() == Envelope3::<A, B, C>::V3(
            b.migrate_spec(),
        ).into_domain_spec::<D>(),
{
}

/// Fallible conversion of a chain of three shapes is strictly sequential and
/// fail-fast: the first failing edge is the result, and no edge beyond it
/// bears on the outcome.
pub proof fn lemma_try_sequential3<A, B, C, D, E>(a: A, b: B) where
    A: TryMigration<B, E>,
    B: TryMigration<C, E>,
    C: TryMigration<D, E>,

    ensures
        (match a.try_migrate_spec() {
            Ok(b2) => Envelope3::<A, B, C>::V1(a).try_into_domain_spec::<D, E>()
                == Envelope3::<A, B, C>::V2(b2).try_into_domain_spec::<D, E>(),
            Err(e) => Envelope3::<A, B, C>::V1(a).try_into_domain_spec::<D, E>() == Err::<D, E>(
                e,
            ),
        }),
        (match b.try_migrate_spec() {
            Ok(c) => Envelope3::<A, B, C>::V2(b).try_into_domain_spec::<D, E>()
                == Envelope3::<A, B, C>::V3(c).try_into_domain_spec::<D, E>(),
            Err(e) => Envelope3::<A, B, C>::V2(b).try_into_domain_spec::<D, E>() == Err::<D, E>(
                e,
            ),
        }),
{
}

/// Round trip of a chain of two shapes in total mode: writing a domain value
/// back and converting it again returns the same value, provided the
/// projection onto the latest shape loses nothing that the final edge reads
/// back.
pub proof fn lemma_round_trip2<A, B, D>(d: D) where A: Migration<B>, B: Migration<D> + Project<D>
    requires
        B::project_spec(d).migrate_spec() == d,
    ensures
        Envelope2::<A, B>::from_domain_spec(d).into_domain_spec::<D>() == d,
{
}

/// Round trip of a chain of two shapes in fallible mode, under the same
/// lossless-projection condition.
pub proof fn lemma_try_round_trip2<A, B, D, E>(d: D) where
    A: TryMigration<B, E>,
    B: TryMigration<D, E> + Project<D>,

    requires
        B::project_spec(d).try_migrate_spec() == Ok::<D, E>(d),
    ensures
        Envelope2::<A, B>::from_domain_spec(d).try_into_domain_spec::<D, E>() == Ok::<D, E>(d),
{
}

/// Round trip of a chain of three shapes in total mode, under the same
/// lossless-projection condition.
pub proof fn lemma_round_trip3<A, B, C, D>(d: D) where
    A: Migration<B>,
    B: Migration<C>,
    C: Migration<D> + Project<D>,

    requires
        C::project_spec(d).migrate_spec() == d,
    ensures
        Envelope3::<A, B, C>::from_domain_spec(d).into_domain_spec::<D>() == d,
{
}

/// Round trip of a chain of three shapes in fallible mode, under the same
/// lossless-projection condition.
pub proof fn lemma_try_round_trip3<A, B, C, D, E>(d: D) where
    A: TryMigration<B, E>,
    B: TryMigration<C, E>,
    C: TryMigration<D, E> + Project<D>,

    requires
        C::project_spec(d).try_migrate_spec() == Ok::<D, E>(d),
    ensures
        Envelope3::<A, B, C>::from_domain_spec(d).try_into_domain_spec::<D, E>() == Ok::<D, E>(d),
{
}

} // verus!
