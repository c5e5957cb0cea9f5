//! A value with a label attached. The label is metadata: it travels with the
//! value and never takes part in what the value is.

use vstd::prelude::*;
use std::fmt::Debug;
use std::ops::{Deref, DerefMut};
use crate::render::{debug_text, tagged_text, write_tagged};

verus! {

/// A payload of type `V` together with a label of type `T`.
pub struct Tag<T, V> {
    pub value: V,
    pub tag: T,
}

impl<T, V> Deref for Tag<T, V> {
    type Target = V;

    /// The payload, read through the wrapper.
    fn deref(&self) -> (payload: &V)
        ensures
            *payload == self.value,
    {
        &self.value
    }
}

impl<T, V> DerefMut for Tag<T, V> {
    /// The payload, open to change; the label is out of reach through it.
    fn deref_mut(&mut self) -> (payload: &mut V)
        ensures
            *payload == old(self).value,
            final(self).value == *final(payload),
            final(self).tag == old(self).tag,
    {
        &mut self.value
    }
}

impl<T, V> Tag<T, V> {
    /// The label, leaving the payload alone.
    pub fn tag(this: &Self) -> (label: &T)
        ensures
            *label == this.tag,
    {
        &this.tag
    }

    /// The label, open to change; the payload is out of reach through it.
    pub fn tag_mut(this: &mut Self) -> (label: &mut T)
        ensures
            *label == old(this).tag,
            final(this).value == old(this).value,
            final(this).tag == *final(label),
    {
        &mut this.tag
    }
}

impl<T: Debug, V: Debug> Tag<T, V> {
    /// Whether `text` is a line that stands for a tagged value: payload and
    /// label, each written in some way.
    pub open spec fn described_by(text: Seq<char>) -> bool {
        exists|value: Seq<char>, tag: Seq<char>| text == #[trigger] tagged_text(value, tag)
    }

    /// A line that stands for this value and its label in diagnostics, each
    /// written by its own `Debug`; none where either `Debug` reports an
    /// error.
    pub fn describe(&self) -> (text: Option<String>)
        ensures
            text matches Some(line) ==> Self::described_by(line@),
    {
        match (debug_text(&self.value), debug_text(&self.tag)) {
            (Some(value), Some(tag)) => {
                let line = write_tagged(value.as_str(), tag.as_str());
                assert(line@ == tagged_text(value@, tag@));
                Some(line)
            },
            _ => None,
        }
    }
}

impl<T: Clone, V: Clone> Clone for Tag<T, V> {
    /// Duplicates payload and label, each by its own `clone`.
    fn clone(&self) -> (duplicate: Self)
        ensures
            cloned(self.value, duplicate.value),
            cloned(self.tag, duplicate.tag),
    {
        Tag { value: self.value.clone(), tag: self.tag.clone() }
    }
}

/// Attaching a label is available on every value.
pub trait Tagged<T>: Sized {
    /// Wrap `self` with `tag`.
    fn tagged(self, tag: T) -> (wrapped: Tag<T, Self>)
        ensures
            wrapped.value == self,
            wrapped.tag == tag,
    {
        Tag { value: self, tag }
    }
}

impl<T: Sized, V> Tagged<T> for V {
}

} // verus!
