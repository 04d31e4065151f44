//! A short run of commands, held without allocation.

use vstd::prelude::*;

verus! {

/// Up to three items in order. Enough for what one control cycle emits
/// toward one receiver.
#[derive(Debug)]
pub struct Batch<T> {
    first: Option<T>,
    second: Option<T>,
    third: Option<T>,
}

impl<T> View for Batch<T> {
    type V = Seq<T>;

    /// The items, in the order to handle them.
    closed spec fn view(&self) -> Seq<T> {
        match (self.first, self.second, self.third) {
            (Some(a), Some(b), Some(c)) => seq![a, b, c],
            (Some(a), Some(b), None) => seq![a, b],
            (Some(a), None, _) => seq![a],
            _ => Seq::empty(),
        }
    }
}

impl<T> Batch<T> {
    /// No slot is filled behind an empty one.
    #[verifier::type_invariant]
    spec fn packed(self) -> bool {
        &&& self.second is Some ==> self.first is Some
        &&& self.third is Some ==> self.second is Some
    }
}

impl<T: Copy> Batch<T> {
    /// A batch without items.
    pub fn empty() -> (batch: Batch<T>)
        ensures
            batch@ == Seq::<T>::empty(),
    {
        Batch { first: None, second: None, third: None }
    }

    /// A batch of one item.
    pub fn one(a: T) -> (batch: Batch<T>)
        ensures
            batch@ == seq![a],
    {
        Batch { first: Some(a), second: None, third: None }
    }

    /// A batch of two items.
    pub fn two(a: T, b: T) -> (batch: Batch<T>)
        ensures
            batch@ == seq![a, b],
    {
        Batch { first: Some(a), second: Some(b), third: None }
    }

    /// A batch of three items.
    pub fn three(a: T, b: T, c: T) -> (batch: Batch<T>)
        ensures
            batch@ == seq![a, b, c],
    {
        Batch { first: Some(a), second: Some(b), third: Some(c) }
    }

    /// Number of items.
    pub fn len(&self) -> (len: usize)
        ensures
            len == self@.len(),
            len <= 3,
    {
        proof {
            use_type_invariant(self);
        }
        if self.first.is_none() {
            0
        } else if self.second.is_none() {
            1
        } else if self.third.is_none() {
            2
        } else {
            3
        }
    }

    /// The item at `index`, counting from 0, or `None` behind the last.
    pub fn get(&self, index: usize) -> (item: Option<T>)
        ensures
            index < self@.len() ==> item == Some(self@[index as int]),
            index >= self@.len() ==> item is None,
    {
        proof {
            use_type_invariant(self);
        }
        if index == 0 {
            self.first
        } else if index == 1 {
            self.second
        } else if index == 2 {
            self.third
        } else {
            None
        }
    }
}

} // verus!
