//! Migration edges between adjacent version shapes.
//!
//! The integrator supplies one edge per adjacent pair of shapes in the
//! chain, a forward edge from the latest shape to the domain type, and a
//! backward projection from the domain type to the latest shape. Each trait
//! pairs the executable edge with a specification function, so that the
//! composed conversions of an envelope can state their result exactly.

use vstd::prelude::*;

verus! {

/// A total migration edge from `Self` to `Next`: one hop of a chain in
/// infallible mode, or the final hop onto the domain type.
pub trait Migration<Next>: Sized {
    /// The value this edge maps `self` to.
    spec fn migrate_spec(self) -> Next;

    /// Perform the migration.
    fn migrate(self) -> (r: Next)
        ensures
            r == self.migrate_spec(),
    ;
}

/// A fallible migration edge from `Self` to `Next` with error type `E`: one
/// hop of a chain in fallible mode, or the final hop onto the domain type.
pub trait TryMigration<Next, E>: Sized {
    /// The outcome this edge maps `self` to.
    spec fn try_migrate_spec(self) -> Result<Next, E>;

    /// Perform the migration, or fail.
    fn try_migrate(self) -> (r: Result<Next, E>)
        ensures
            r == self.try_migrate_spec(),
    ;
}

/// The backward projection of the domain type `D` onto `Self`, the latest
/// version shape. It is total by construction: the current state is always
/// representable in the current shape.
pub trait Project<D>: Sized {
    /// The shape value that `d` projects to.
    spec fn project_spec(d: D) -> Self;

    /// Perform the projection.
    fn project(d: &D) -> (r: Self)
        ensures
            r == Self::project_spec(*d),
    ;
}

} // verus!
