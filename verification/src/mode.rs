//! A payload tagged with the mode it is executed under.
//!
//! The same block-processing code serves a dry run, the production of a new
//! block and the validation of a finished one.  [`ExecutionTypes`] carries the
//! payload of such a run together with its mode; [`ExecutionKind`] is the mode
//! alone.

use vstd::prelude::*;

use crate::block::{Block, PartialFuelBlock};
use crate::primitives::BlockId;

verus! {

/// The mode of an execution, without a payload.
#[derive(Debug, Clone, Copy, PartialEq, Eq, Structural)]
pub enum ExecutionKind {
    /// Speculative execution; nothing is committed.
    DryRun,
    /// A new block is being produced.
    Production,
    /// A finished block is being checked.
    Validation,
}

/// A payload tagged with its execution mode.
///
/// A dry run and a production carry a `P`, a validation carries a `V`.
#[derive(Debug, Clone, Copy)]
pub enum ExecutionTypes<P, V> {
    /// Dry run: a `P` is executed speculatively.
    DryRun(P),
    /// Production: a `P` is being built into a new block.
    Production(P),
    /// Validation: a `V` is being checked.
    Validation(V),
}

/// The tagged payload whose type does not depend on the mode.
pub type ExecutionType<T> = ExecutionTypes<T, T>;

/// Where the execution of a block starts: production and dry run start from
/// a block under construction, validation from a finished block.
pub type ExecutionBlock = ExecutionTypes<PartialFuelBlock, Block>;

impl<P, V> ExecutionTypes<P, V> {
    /// The mode this value is tagged with.
    pub open spec fn kind(self) -> ExecutionKind {
        match self {
            ExecutionTypes::DryRun(_) => ExecutionKind::DryRun,
            ExecutionTypes::Production(_) => ExecutionKind::Production,
            ExecutionTypes::Validation(_) => ExecutionKind::Validation,
        }
    }

    /// Whether the payload is the production type `P`.
    pub open spec fn holds_production(self) -> bool {
        self.kind() != ExecutionKind::Validation
    }

    /// The production payload of a dry run or a production.
    pub open spec fn production(self) -> P
        recommends
            self.holds_production(),
    {
        match self {
            ExecutionTypes::DryRun(p) => p,
            ExecutionTypes::Production(p) => p,
            ExecutionTypes::Validation(_) => arbitrary(),
        }
    }

    /// The payload of a validation.
    pub open spec fn validation(self) -> V
        recommends
            !self.holds_production(),
    {
        match self {
            ExecutionTypes::Validation(v) => v,
            _ => arbitrary(),
        }
    }

    /// Applies `f` to the payload of a dry run or a production and keeps the
    /// mode; a validation passes through unchanged.
    pub fn map_p<Q, F>(self, f: F) -> (mapped: ExecutionTypes<Q, V>) where F: FnOnce(P) -> Q
        requires
            self.holds_production() ==> f.requires((self.production(),)),
        ensures
            mapped.kind() == self.kind(),
            self.holds_production() ==> f.ensures((self.production(),), mapped.production()),
            !self.holds_production() ==> mapped.validation() == self.validation(),
    {
        match self {
            ExecutionTypes::DryRun(p) => ExecutionTypes::DryRun(f(p)),
            ExecutionTypes::Production(p) => ExecutionTypes::Production(f(p)),
            ExecutionTypes::Validation(v) => ExecutionTypes::Validation(v),
        }
    }

    /// Applies `f` to the payload of a validation and keeps the mode; a dry
    /// run and a production pass through unchanged.
    pub fn map_v<W, F>(self, f: F) -> (mapped: ExecutionTypes<P, W>) where F: FnOnce(V) -> W
        requires
            !self.holds_production() ==> f.requires((self.validation(),)),
        ensures
            mapped.kind() == self.kind(),
            !self.holds_production() ==> f.ensures((self.validation(),), mapped.validation()),
            self.holds_production() ==> mapped.production() == self.production(),
    {
        match self {
            ExecutionTypes::DryRun(p) => ExecutionTypes::DryRun(p),
            ExecutionTypes::Production(p) => ExecutionTypes::Production(p),
            ExecutionTypes::Validation(v) => ExecutionTypes::Validation(f(v)),
        }
    }

    /// The same mode around a shared borrow of the payload.
    pub fn as_ref(&self) -> (borrowed: ExecutionTypes<&P, &V>)
        ensures
            borrowed.kind() == self.kind(),
            self.holds_production() ==> *borrowed.production() == self.production(),
            !self.holds_production() ==> *borrowed.validation() == self.validation(),
    {
        match *self {
            ExecutionTypes::DryRun(ref p) => ExecutionTypes::DryRun(p),
            ExecutionTypes::Production(ref p) => ExecutionTypes::Production(p),
            ExecutionTypes::Validation(ref v) => ExecutionTypes::Validation(v),
        }
    }

    /// The same mode around a mutable borrow of the payload.
    ///
    /// What is written through the borrow becomes the payload of `self`; the
    /// mode of `self` cannot change.
    pub fn as_mut(&mut self) -> (borrowed: ExecutionTypes<&mut P, &mut V>)
        ensures
            borrowed.kind() == old(self).kind(),
            final(self).kind() == old(self).kind(),
            old(self).holds_production() ==> {
                &&& *borrowed.production() == old(self).production()
                &&& final(self).production() == *final(borrowed.production())
            },
            !old(self).holds_production() ==> {
                &&& *borrowed.validation() == old(self).validation()
                &&& final(self).validation() == *final(borrowed.validation())
            },
    {
        match *self {
            ExecutionTypes::DryRun(ref mut p) => ExecutionTypes::DryRun(p),
            ExecutionTypes::Production(ref mut p) => ExecutionTypes::Production(p),
            ExecutionTypes::Validation(ref mut v) => ExecutionTypes::Validation(v),
        }
    }

    /// The mode of this value; the payload stays where it is.
    pub fn to_kind(&self) -> (kind: ExecutionKind)
        ensures
            kind == self.kind(),
    {
        match self {
            ExecutionTypes::DryRun(_) => ExecutionKind::DryRun,
            ExecutionTypes::Production(_) => ExecutionKind::Production,
            ExecutionTypes::Validation(_) => ExecutionKind::Validation,
        }
    }
}

impl<P> ExecutionTypes<P, Block> {
    /// The identifier of the block under validation; a dry run and a
    /// production have no finished block and give `None`.
    pub fn id(&self) -> (id: Option<BlockId>)
        ensures
            id == match *self {
                ExecutionTypes::Validation(block) => Some(block.id),
                _ => None,
            },
    {
        match self {
            ExecutionTypes::DryRun(_) => None,
            ExecutionTypes::Production(_) => None,
            ExecutionTypes::Validation(v) => Some(v.id()),
        }
    }
}

impl<T> ExecutionTypes<T, T> {
    /// The payload, whatever the mode.
    pub open spec fn payload(self) -> T {
        match self {
            ExecutionTypes::DryRun(t) => t,
            ExecutionTypes::Production(t) => t,
            ExecutionTypes::Validation(t) => t,
        }
    }

    /// The value with the mode of `self` and `g` applied to its payload.
    pub open spec fn mapped_by<U>(self, g: spec_fn(T) -> U) -> ExecutionType<U> {
        self.kind().wrapped(g(self.payload()))
    }

    /// Applies `f` to the payload and keeps the mode.
    pub fn map<U, F>(self, f: F) -> (mapped: ExecutionType<U>) where F: FnOnce(T) -> U
        requires
            f.requires((self.payload(),)),
        ensures
            mapped.kind() == self.kind(),
            f.ensures((self.payload(),), mapped.payload()),
    {
        match self {
            ExecutionTypes::DryRun(p) => ExecutionTypes::DryRun(f(p)),
            ExecutionTypes::Production(p) => ExecutionTypes::Production(f(p)),
            ExecutionTypes::Validation(v) => ExecutionTypes::Validation(f(v)),
        }
    }

    /// Applies `f` to the payload.  Where `f` gives a value, it is returned
    /// under the mode of `self`; where `f` gives none, so does this.
    pub fn filter_map<U, F>(self, f: F) -> (mapped: Option<ExecutionType<U>>) where
        F: FnOnce(T) -> Option<U>,

        requires
            f.requires((self.payload(),)),
        ensures
            match mapped {
                Some(m) => m.kind() == self.kind() && f.ensures(
                    (self.payload(),),
                    Some(m.payload()),
                ),
                None => f.ensures((self.payload(),), None),
            },
    {
        match self {
            ExecutionTypes::DryRun(p) => match f(p) {
                Some(u) => Some(ExecutionTypes::DryRun(u)),
                None => None,
            },
            ExecutionTypes::Production(p) => match f(p) {
                Some(u) => Some(ExecutionTypes::Production(u)),
                None => None,
            },
            ExecutionTypes::Validation(v) => match f(v) {
                Some(u) => Some(ExecutionTypes::Validation(u)),
                None => None,
            },
        }
    }

    /// The payload without its mode.
    pub fn into_inner(self) -> (inner: T)
        ensures
            inner == self.payload(),
    {
        match self {
            ExecutionTypes::DryRun(t) => t,
            ExecutionTypes::Production(t) => t,
            ExecutionTypes::Validation(t) => t,
        }
    }

    /// The mode and the payload, apart.
    pub fn split(self) -> (parts: (ExecutionKind, T))
        ensures
            parts == (self.kind(), self.payload()),
    {
        let kind = self.to_kind();
        (kind, self.into_inner())
    }
}

impl<T> core::ops::Deref for ExecutionTypes<T, T> {
    type Target = T;

    /// A shared borrow of the payload, whatever the mode.
    fn deref(&self) -> (inner: &T)
        ensures
            *inner == self.payload(),
    {
        match self {
            ExecutionTypes::DryRun(p) => p,
            ExecutionTypes::Production(p) => p,
            ExecutionTypes::Validation(v) => v,
        }
    }
}

impl<T> ExecutionTypes<T, T> {
    /// A mutable borrow of the payload, whatever the mode.  What is written
    /// through it becomes the payload; the mode stays.
    pub fn deref_mut(&mut self) -> (inner: &mut T)
        ensures
            *inner == old(self).payload(),
            final(self).kind() == old(self).kind(),
            final(self).payload() == *final(inner),
    {
        match self {
            ExecutionTypes::DryRun(p) => p,
            ExecutionTypes::Production(p) => p,
            ExecutionTypes::Validation(v) => v,
        }
    }
}

impl ExecutionKind {
    /// The value of mode `self` that holds `t`.
    pub open spec fn wrapped<T>(self, t: T) -> ExecutionType<T> {
        match self {
            ExecutionKind::DryRun => ExecutionTypes::DryRun(t),
            ExecutionKind::Production => ExecutionTypes::Production(t),
            ExecutionKind::Validation => ExecutionTypes::Validation(t),
        }
    }

    /// Tags `t` with this mode.  Every tagged value of one payload type can be
    /// made this way.
    pub fn wrap<T>(self, t: T) -> (wrapped: ExecutionType<T>)
        ensures
            wrapped == self.wrapped(t),
    {
        match self {
            ExecutionKind::DryRun => ExecutionTypes::DryRun(t),
            ExecutionKind::Production => ExecutionTypes::Production(t),
            ExecutionKind::Validation => ExecutionTypes::Validation(t),
        }
    }
}

/// Splitting undoes wrapping: a payload tagged with a mode splits into that
/// mode and that payload.
pub proof fn lemma_split_after_wrap<T>(kind: ExecutionKind, t: T)
    ensures
        (kind.wrapped(t).kind(), kind.wrapped(t).payload()) == (kind, t),
{
}

/// Mapping keeps the mode and applies the function to the payload: the
/// payload after the mapping is the function's value on the payload before
/// it.
pub proof fn lemma_payload_after_map<T, U>(m: ExecutionType<T>, g: spec_fn(T) -> U)
    ensures
        m.mapped_by(g).kind() == m.kind(),
        m.mapped_by(g).payload() == g(m.payload()),
{
}

/// Where every result that `f` can give on the payload of `m` is `g` of it,
/// whatever `map` returns for `m` and `f` is `m.mapped_by(g)`.
pub proof fn lemma_map_follows_function<T, U, F: FnOnce(T) -> U>(
    m: ExecutionType<T>,
    f: F,
    g: spec_fn(T) -> U,
    mapped: ExecutionType<U>,
)
    requires
        forall|u: U| f.ensures((m.payload(),), u) ==> u == g(m.payload()),
        mapped.kind() == m.kind(),
        f.ensures((m.payload(),), mapped.payload()),
    ensures
        mapped == m.mapped_by(g),
{
}

} // verus!
