//! The non-empty collection family: an arbitrary container wrapped with
//! the guarantee that it holds at least one element.
//!
//! The emptiness check is defined against a minimal capability — "does
//! iterating the container yield anything" — captured by the [`Emptiness`]
//! trait, so one wrapper serves ordered sequences, sets, double-ended
//! queues and key/value maps alike. The wrapper never transforms the
//! container: construction stores it as given, element order and identity
//! included, and unwrapping hands it back.

use vstd::prelude::*;
use std::collections::{BTreeMap, BTreeSet, HashMap, HashSet, VecDeque};
use crate::errors::SequenceContentError;

verus! {

/// The one capability the non-empty wrapper needs from a container: an
/// emptiness predicate at the specification level, and an executable
/// check proved to decide exactly that predicate.
pub trait Emptiness: Sized {
    /// Whether iterating the container would yield no element.
    spec fn is_empty_spec(&self) -> bool;

    /// Decides whether the container is empty.
    fn check_empty(&self) -> (r: bool)
        ensures
            r == self.is_empty_spec(),
    ;
}

impl<T> Emptiness for Vec<T> {
    open spec fn is_empty_spec(&self) -> bool {
        self@.len() == 0
    }

    fn check_empty(&self) -> (r: bool) {
        self.len() == 0
    }
}

impl<T> Emptiness for VecDeque<T> {
    open spec fn is_empty_spec(&self) -> bool {
        self@.len() == 0
    }

    fn check_empty(&self) -> (r: bool) {
        self.len() == 0
    }
}

impl<T> Emptiness for HashSet<T> {
    open spec fn is_empty_spec(&self) -> bool {
        self@.is_empty()
    }

    fn check_empty(&self) -> (r: bool) {
        self.is_empty()
    }
}

impl<T> Emptiness for BTreeSet<T> {
    open spec fn is_empty_spec(&self) -> bool {
        self@.is_empty()
    }

    fn check_empty(&self) -> (r: bool) {
        self.is_empty()
    }
}

impl<K, V> Emptiness for HashMap<K, V> {
    open spec fn is_empty_spec(&self) -> bool {
        self@.is_empty()
    }

    fn check_empty(&self) -> (r: bool) {
        self.is_empty()
    }
}

impl<K, V> Emptiness for BTreeMap<K, V> {
    open spec fn is_empty_spec(&self) -> bool {
        self@.is_empty()
    }

    fn check_empty(&self) -> (r: bool) {
        self.is_empty()
    }
}

/// A container that is known to hold at least one element.
#[derive(Debug, Clone, PartialEq, Eq, Hash)]
pub struct NonEmptyCollection<C> {
    inner: C,
}

impl<C> NonEmptyCollection<C> {
    /// The wrapped container.
    pub closed spec fn spec_inner(self) -> C {
        self.inner
    }

    /// Two wrappers around the same container are the same value.
    pub proof fn lemma_extensional(a: Self, b: Self)
        requires
            a.spec_inner() == b.spec_inner(),
        ensures
            a == b,
    {
    }

    /// Wraps `collection` without checking it. The caller is responsible
    /// for the container being non-empty; an empty one is wrapped all the
    /// same and the wrapper will not hold [`NonEmptyCollection::wf`].
    /// This is the explicit escape hatch, not a general bypass.
    pub fn new_unchecked(collection: C) -> (r: Self)
        ensures
            r.spec_inner() == collection,
    {
        NonEmptyCollection { inner: collection }
    }

    /// Consumes the wrapper and returns the original container, exactly
    /// as it was handed in.
    pub fn into_inner(self) -> (r: C)
        ensures
            r == self.spec_inner(),
    {
        self.inner
    }
}

impl<C: Emptiness> NonEmptyCollection<C> {
    /// The invariant: the wrapped container yields at least one element.
    pub open spec fn wf(self) -> bool {
        !self.spec_inner().is_empty_spec()
    }

    /// The validation gate, as a specification-level function: the result
    /// of constructing from `collection`.
    pub closed spec fn spec_new(collection: C) -> Result<Self, SequenceContentError> {
        if collection.is_empty_spec() {
            Err(SequenceContentError::Empty)
        } else {
            Ok(NonEmptyCollection { inner: collection })
        }
    }

    /// Collection emptiness: construction fails with `Empty` exactly when
    /// the container yields no element, and otherwise wraps the container
    /// as given.
    pub proof fn lemma_emptiness_gate(collection: C)
        ensures
            collection.is_empty_spec() ==> Self::spec_new(collection) == Err::<
                Self,
                SequenceContentError,
            >(SequenceContentError::Empty),
            !collection.is_empty_spec() ==> (Self::spec_new(collection) matches Ok(v)
                && v.spec_inner() == collection && v.wf()),
    {
    }

    /// Serialization symmetry, at the value level: a wrapper that holds
    /// its invariant re-enters the validation gate unchanged, so parsing
    /// back a transparently serialized container restores the original.
    pub proof fn lemma_revalidate(x: Self)
        requires
            x.wf(),
        ensures
            Self::spec_new(x.spec_inner()) == Ok::<Self, SequenceContentError>(x),
    {
    }

    /// Creates a new non-empty collection, failing with
    /// [`SequenceContentError::Empty`] exactly when iterating `collection`
    /// yields no element.
    pub fn new(collection: C) -> (r: Result<Self, SequenceContentError>)
        ensures
            r == Self::spec_new(collection),
            collection.is_empty_spec() ==> r == Err::<Self, _>(SequenceContentError::Empty),
            !collection.is_empty_spec() ==> (r matches Ok(v) && v.spec_inner() == collection
                && v.wf()),
    {
        if collection.check_empty() {
            Err(SequenceContentError::Empty)
        } else {
            Ok(NonEmptyCollection { inner: collection })
        }
    }
}

/// A non-empty ordered set backed by a B-tree.
pub type NonEmptyBTreeSet<T> = NonEmptyCollection<BTreeSet<T>>;

/// A non-empty hash set.
pub type NonEmptyHashSet<T> = NonEmptyCollection<HashSet<T>>;

/// A non-empty vector.
pub type NonEmptyVec<T> = NonEmptyCollection<Vec<T>>;

/// A non-empty double-ended queue.
pub type NonEmptyVecDeque<T> = NonEmptyCollection<VecDeque<T>>;

/// A non-empty sorted B-tree map.
pub type NonEmptyBTreeMap<K, V> = NonEmptyCollection<BTreeMap<K, V>>;

/// A non-empty hash map.
pub type NonEmptyHashMap<K, V> = NonEmptyCollection<HashMap<K, V>>;

} // verus!
