//! Scope-function helpers under their alternative names: [`Apply`] plays
//! the role of [`crate::scope_functions::Also`] and [`Run`] the role of
//! [`crate::scope_functions::Let`], alongside the same conditional
//! keepers and the same `repeat`. Both spellings are part of the public
//! surface; callers pick whichever reads better at the call site.

use vstd::prelude::*;

verus! {

/// Calls `block` with a mutable borrow of the value and returns the value
/// the borrow ends at.
pub trait Apply: Sized {
    fn apply<F: FnOnce(&mut Self)>(self, block: F) -> (r: Self)
        requires
            forall|m: &mut Self| mut_ref_current(m) == self ==> call_requires(block, (m,)),
        ensures
            exists|m: &mut Self|
                mut_ref_current(m) == self && mut_ref_future(m) == r && call_ensures(
                    block,
                    (m,),
                    (),
                ),
    ;
}

impl<T> Apply for T {
    fn apply<F: FnOnce(&mut Self)>(self, block: F) -> (r: Self) {
        let mut value = self;
        block(&mut value);
        value
    }
}

/// Calls `block` with the value as its argument and returns the block's
/// result.
pub trait Run {
    fn run<R, F: FnOnce(Self) -> R>(self, block: F) -> (r: R) where Self: Sized
        requires
            call_requires(block, (self,)),
        ensures
            call_ensures(block, (self,), r),
    ;
}

impl<T> Run for T {
    fn run<R, F: FnOnce(Self) -> R>(self, block: F) -> (r: R) {
        block(self)
    }
}

/// Keeps the value only if it satisfies the given predicate.
pub trait TakeIf: Sized {
    fn take_if<F: FnOnce(&Self) -> bool>(self, predicate: F) -> (r: Option<Self>)
        requires
            call_requires(predicate, (&self,)),
        ensures
            match r {
                Some(v) => v == self && call_ensures(predicate, (&self,), true),
                None => call_ensures(predicate, (&self,), false),
            },
    ;
}

impl<T> TakeIf for T {
    fn take_if<F: FnOnce(&Self) -> bool>(self, predicate: F) -> (r: Option<Self>) {
        if predicate(&self) {
            Some(self)
        } else {
            None
        }
    }
}

/// Keeps the value only if it does not satisfy the given predicate.
pub trait TakeUnless: Sized {
    fn take_unless<F: FnOnce(&Self) -> bool>(self, predicate: F) -> (r: Option<Self>)
        requires
            call_requires(predicate, (&self,)),
        ensures
            match r {
                Some(v) => v == self && call_ensures(predicate, (&self,), false),
                None => call_ensures(predicate, (&self,), true),
            },
    ;
}

impl<T> TakeUnless for T {
    fn take_unless<F: FnOnce(&Self) -> bool>(self, predicate: F) -> (r: Option<Self>) {
        if !predicate(&self) {
            Some(self)
        } else {
            None
        }
    }
}

/// Calls `action` once for each index from `0` up to (excluding) `times`,
/// in increasing order.
pub fn repeat<F: FnMut(usize)>(times: usize, mut action: F)
    requires
        forall|i: usize| i < times ==> call_requires(action, (i,)),
{
    let mut index: usize = 0;
    while index < times
        invariant
            forall|i: usize| i < times ==> call_requires(action, (i,)),
        decreases times - index,
    {
        action(index);
        index += 1;
    }
}

} // verus!
