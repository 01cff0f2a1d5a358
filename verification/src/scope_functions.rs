//! Scope-function helpers: small combinators for working with a value in
//! a dedicated scope — inspect or adjust it and pass it along, transform
//! it, or keep it only under a condition. Each combinator's contract ties
//! its result to the contract of the closure it was given.

use vstd::prelude::*;

verus! {

/// Calls `block` with a mutable borrow of the value and returns the value
/// the borrow ends at.
pub trait Also: Sized {
    fn also<F: FnOnce(&mut Self)>(self, block: F) -> (r: Self)
        requires
            forall|m: &mut Self| mut_ref_current(m) == self ==> call_requires(block, (m,)),
        ensures
            exists|m: &mut Self|
                mut_ref_current(m) == self && mut_ref_future(m) == r && call_ensures(
                    block,
                    (m,),
                    (),
                ),
    ;
}

impl<T> Also for T {
    fn also<F: FnOnce(&mut Self)>(self, block: F) -> (r: Self) {
        let mut value = self;
        block(&mut value);
        value
    }
}

/// Calls `block` with the value as its argument and returns the block's
/// result.
pub trait Let {
    fn let_do<R, F: FnOnce(Self) -> R>(self, block: F) -> (r: R) where Self: Sized
        requires
            call_requires(block, (self,)),
        ensures
            call_ensures(block, (self,), r),
    ;
}

impl<T> Let for T {
    fn let_do<R, F: FnOnce(Self) -> R>(self, block: F) -> (r: R) {
        block(self)
    }
}

/// Keeps the value only if it satisfies the given predicate.
pub trait TakeIf: Sized {
    fn take_if<F: FnOnce(&Self) -> bool>(self, predicate: F) -> (r: Option<Self>)
        requires
            call_requires(predicate, (&self,)),
        ensures
            match r {
                Some(v) => v == self && call_ensures(predicate, (&self,), true),
                None => call_ensures(predicate, (&self,), false),
            },
    ;
}

impl<T> TakeIf for T {
    fn take_if<F: FnOnce(&Self) -> bool>(self, predicate: F) -> (r: Option<Self>) {
        if predicate(&self) {
            Some(self)
        } else {
            None
        }
    }
}

/// Keeps the value only if it does not satisfy the given predicate.
pub trait TakeUnless: Sized {
    fn take_unless<F: FnOnce(&Self) -> bool>(self, predicate: F) -> (r: Option<Self>)
        requires
            call_requires(predicate, (&self,)),
        ensures
            match r {
                Some(v) => v == self && call_ensures(predicate, (&self,), false),
                None => call_ensures(predicate, (&self,), true),
            },
    ;
}

impl<T> TakeUnless for T {
    fn take_unless<F: FnOnce(&Self) -> bool>(self, predicate: F) -> (r: Option<Self>) {
        if !predicate(&self) {
            Some(self)
        } else {
            None
        }
    }
}

/// Calls `action` once for each index from `0` up to (excluding) `times`,
/// in increasing order.
pub fn repeat<F: FnMut(usize)>(times: usize, mut action: F)
    requires
        forall|i: usize| i < times ==> call_requires(action, (i,)),
{
    let mut index: usize = 0;
    while index < times
        invariant
            forall|i: usize| i < times ==> call_requires(action, (i,)),
        decreases times - index,
    {
        action(index);
        index += 1;
    }
}

} // verus!
