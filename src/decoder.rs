//! The lenient array decoder: a queue of untyped JSON elements, each
//! converted to `T` once, on the way out.
use std::collections::VecDeque;
use std::marker::PhantomData;
use vstd::prelude::*;

use crate::json::{convert_value, json_array_of, parse_array};
use crate::slots::{dense_of, slot_of, survivors};

verus! {

/// Why a decoder could not be built.
#[derive(Debug, Clone, Copy, PartialEq, Eq, Structural)]
pub enum DecodeError {
    /// The text is not well-formed JSON, or its top level is not an array.
    MalformedInput,
}

/// An intermediate step between a JSON array and a `Vec<T>` that drops the
/// elements that fail to convert to `T` instead of failing the whole array.
///
/// The queue holds the elements not yet converted, in the array's order.
pub struct FilterParsedJsonVec<T>(pub VecDeque<serde_json::Value>, pub PhantomData<T>);

/// A decoder is viewed as the elements not yet converted, in the array's
/// order.
impl<T> View for FilterParsedJsonVec<T> {
    type V = Seq<serde_json::Value>;

    open spec fn view(&self) -> Seq<serde_json::Value> {
        self.0@
    }
}

impl<T> FilterParsedJsonVec<T> {
    /// A decoder over the given elements, in the given order.
    pub fn from_values(values: VecDeque<serde_json::Value>) -> (r: Self)
        ensures
            r@ == values@,
    {
        FilterParsedJsonVec(values, PhantomData)
    }

    /// Builds a decoder from JSON text whose top level is an array; no
    /// element is converted yet. Fails exactly where the text is not
    /// well-formed JSON or its top level is not an array.
    pub fn from_json_str(text: &str) -> (r: Result<Self, DecodeError>)
        ensures
            r is Ok <==> json_array_of(text@) is Some,
            r is Ok ==> r->Ok_0@ == json_array_of(text@)->Some_0,
            r is Err ==> r->Err_0 == DecodeError::MalformedInput,
    {
        match parse_array(text) {
            Ok(values) => Ok(Self::from_values(values)),
            Err(_) => Err(DecodeError::MalformedInput),
        }
    }

    /// The number of elements not yet converted.
    pub fn len(&self) -> (r: usize)
        ensures
            r == self@.len(),
    {
        self.0.len()
    }
}

impl<T: serde::de::DeserializeOwned> FilterParsedJsonVec<T> {
    /// Takes the next element off the queue and converts it: `None` once
    /// the queue is drained, else `Some` of the element's slot, which is
    /// `Some` of the value where the conversion succeeded and `None` where
    /// it failed. The queue never rewinds.
    pub fn next(&mut self) -> (r: Option<Option<T>>)
        ensures
            r is None <==> old(self)@.len() == 0,
            r is None ==> final(self)@ == old(self)@,
            r is Some ==> final(self)@ == old(self)@.drop_first(),
    {
        match self.0.pop_front() {
            Some(v) => Some(slot_of(convert_value(v))),
            None => None,
        }
    }

    /// Converts every remaining element, in order, and returns one slot per
    /// element; the queue is drained.
    pub fn take_slots(&mut self) -> (r: Vec<Option<T>>)
        ensures
            r@.len() == old(self)@.len(),
            final(self)@.len() == 0,
    {
        let ghost start = self@;
        let mut out: Vec<Option<T>> = Vec::new();
        while self.0.len() > 0
            invariant
                out@.len() + self@.len() == start.len(),
            decreases self@.len(),
        {
            match self.next() {
                Some(slot) => out.push(slot),
                None => {},
            }
        }
        out
    }

    /// Converts every remaining element and keeps the successes, in the
    /// order of the array; the queue is drained, so a second call returns
    /// nothing.
    pub fn drain_dense(&mut self) -> (r: Vec<T>)
        ensures
            exists|slots: Seq<Option<T>>|
                slots.len() == old(self)@.len() && r@ == survivors(slots),
            r@.len() <= old(self)@.len(),
            old(self)@.len() == 0 ==> r@.len() == 0,
            final(self)@.len() == 0,
    {
        let slots = self.take_slots();
        let ghost s = slots@;
        let r = dense_of(slots);
        proof {
            crate::slots::lemma_survivors_no_longer(s);
        }
        r
    }

    /// Converts every element and keeps the successes, in the order of the
    /// array.
    pub fn into_vec(self) -> (r: Vec<T>)
        ensures
            exists|slots: Seq<Option<T>>|
                slots.len() == self@.len() && r@ == survivors(slots),
            r@.len() <= self@.len(),
    {
        let mut d = self;
        d.drain_dense()
    }
}

} // verus!
