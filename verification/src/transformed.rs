//! The transformation stream: staged tokens first, then the next raw item,
//! decoded.
use crate::buffer::PushbackBuffer;
use crate::model::StreamState;
use crate::Stream;
use crate::UnRead;
use vstd::prelude::*;
use vstd::std_specs::iter::IteratorSpec;

verus! {

/// A stream of tokens `U`, decoded on demand from the raw items `T` of a
/// producer `I` by a transform `F`, with pushback.
#[verifier::reject_recursive_types(T)]
#[verifier::reject_recursive_types(U)]
#[verifier::reject_recursive_types(E)]
pub struct Transformed<I, T, U, E, F> where I: Iterator<Item = T>, F: FnMut(T) -> Result<U, E> {
    iter: I,
    transform: F,
    backing_store: PushbackBuffer<U>,
}

impl<I, T, U, E, F> Transformed<I, T, U, E, F> where
    I: Iterator<Item = T>,
    F: FnMut(T) -> Result<U, E>,
 {
    /// The producer of raw items.
    pub closed spec fn source(self) -> I {
        self.iter
    }

    /// The function that decodes a raw item.
    pub closed spec fn transform(self) -> F {
        self.transform
    }

    /// The transform accepts every raw item, so a pull can never hand it one
    /// that it is not defined on. A function without a precondition makes a
    /// well-formed stream.
    pub open spec fn well_formed(self) -> bool {
        forall|raw: T| call_requires(self.transform(), (raw,))
    }

    /// A stream over `iter` with nothing staged.
    pub fn new(iter: I, transform: F) -> (r: Self)
        ensures
            r.source() == iter,
            r.transform() == transform,
            r.staged() == Seq::<U>::empty(),
    {
        Transformed { iter, transform, backing_store: PushbackBuffer::new() }
    }

    /// A stream over `iter` with `backing_store` already pushed back: its last
    /// token is delivered first.
    pub fn with_backing_store(iter: I, transform: F, backing_store: Vec<U>) -> (r: Self)
        ensures
            r.source() == iter,
            r.transform() == transform,
            r.staged() == backing_store@.reverse(),
    {
        Transformed { iter, transform, backing_store: PushbackBuffer::from_tokens(backing_store) }
    }

    /// This stream is ready for a pull through [`Stream`] exactly when it is
    /// well-formed.
    pub proof fn lemma_ready_iff_well_formed(self)
        ensures
            self.ready() <==> self.well_formed(),
    {
    }

    /// The staged tokens, to look at.
    pub fn backing_store(&self) -> (r: &PushbackBuffer<U>)
        ensures
            r@ == self.staged(),
    {
        &self.backing_store
    }

    /// Pulls the next token: a staged one if there is any, else the next raw
    /// item as the transform decodes it, else `None`.
    ///
    /// A staged token is delivered without touching the producer or the
    /// transform. What the producer does is known only as far as it keeps the
    /// iterator laws; for one that does, the pull is a step of the model.
    pub fn next(&mut self) -> (r: Option<Result<U, E>>)
        requires
            old(self).well_formed(),
        ensures
            final(self).well_formed(),
            final(self).transform() == old(self).transform(),
            old(self).staged().len() > 0 ==> {
                &&& r == Some(Ok::<U, E>(old(self).staged()[0]))
                &&& final(self).staged() == old(self).staged().drop_first()
                &&& final(self).source() == old(self).source()
            },
            old(self).staged().len() == 0 ==> {
                &&& final(self).staged() == old(self).staged()
                &&& r matches Some(decoded) ==> exists|raw: T|
                    call_ensures(old(self).transform(), (raw,), decoded)
            },
            old(self).source().obeys_prophetic_iter_laws() ==> {
                let before = StreamState {
                    staged: old(self).staged(),
                    raw: old(self).source().remaining(),
                };
                let after = StreamState {
                    staged: final(self).staged(),
                    raw: final(self).source().remaining(),
                };
                &&& final(self).source().obeys_prophetic_iter_laws()
                &&& after == before.after_pull()
                &&& before.may_yield(old(self).transform(), r)
            },
    {
        // Unfolds `well_formed` for the call of the transform below.
        assert(self.transform() == self.transform);
        if self.backing_store.is_empty() {
            match self.iter.next() {
                Some(raw) => Some((self.transform)(raw)),
                None => None,
            }
        } else {
            match self.backing_store.pop_next() {
                Some(token) => Some(Ok(token)),
                None => None,
            }
        }
    }
}

impl<I, T, U, E, F> Stream<U, E> for Transformed<I, T, U, E, F> where
    I: Iterator<Item = T>,
    F: FnMut(T) -> Result<U, E>,
 {
    open spec fn ready(&self) -> bool {
        self.well_formed()
    }

    /// The same pull as [`Transformed::next`], with the same contract.
    fn pull(&mut self) -> (r: Option<Result<U, E>>)
        ensures
            final(self).transform() == old(self).transform(),
            old(self).staged().len() > 0 ==> {
                &&& r == Some(Ok::<U, E>(old(self).staged()[0]))
                &&& final(self).staged() == old(self).staged().drop_first()
                &&& final(self).source() == old(self).source()
            },
            old(self).staged().len() == 0 ==> {
                &&& final(self).staged() == old(self).staged()
                &&& r matches Some(decoded) ==> exists|raw: T|
                    call_ensures(old(self).transform(), (raw,), decoded)
            },
            old(self).source().obeys_prophetic_iter_laws() ==> {
                let before = StreamState {
                    staged: old(self).staged(),
                    raw: old(self).source().remaining(),
                };
                let after = StreamState {
                    staged: final(self).staged(),
                    raw: final(self).source().remaining(),
                };
                &&& final(self).source().obeys_prophetic_iter_laws()
                &&& after == before.after_pull()
                &&& before.may_yield(old(self).transform(), r)
            },
    {
        self.next()
    }
}

impl<I, T, U, E, F> UnRead<U> for Transformed<I, T, U, E, F> where
    I: Iterator<Item = T>,
    F: FnMut(T) -> Result<U, E>,
 {
    closed spec fn staged(&self) -> Seq<U> {
        self.backing_store@
    }

    fn unread(&mut self, token: U)
        ensures
            final(self).source() == old(self).source(),
            final(self).transform() == old(self).transform(),
    {
        self.backing_store.push_one(token);
    }

    fn unread_from_tokens(&mut self, tokens: Vec<U>)
        ensures
            final(self).source() == old(self).source(),
            final(self).transform() == old(self).transform(),
    {
        self.backing_store.push_many(tokens);
    }
}

} // verus!
