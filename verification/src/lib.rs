//! Pushback-capable token streams.
//!
//! A [`Transformed`] stream pulls raw items from a producer, decodes each one
//! with a fallible transform, and lets the consumer push tokens back so that
//! they are delivered again before any further raw item is touched.
use vstd::prelude::*;
use vstd::std_specs::iter::IteratorSpec;

pub mod buffer;
pub mod model;
pub mod never_error;
mod transformed;

pub use transformed::Transformed;

verus! {

/// The identity function.
pub fn ident<X>(x: X) -> (r: X)
    ensures
        r == x,
{
    x
}

/// A source of tokens `TK` whose decoding may fail with `E`: anything that can
/// be pulled for the next result until it gives `None`.
pub trait Stream<TK, E> {
    /// What a pull needs of the stream; every pull keeps it.
    spec fn ready(&self) -> bool;

    /// Pulls the next token, the error of a failed decode, or `None` at the
    /// end of the stream.
    fn pull(&mut self) -> (r: Option<Result<TK, E>>)
        requires
            old(self).ready(),
        ensures
            final(self).ready(),
    ;
}

/// Every iterator over results is a stream. What it yields is known as far as
/// it keeps the iterator laws.
impl<S, TK, E> Stream<TK, E> for S where S: Iterator<Item = Result<TK, E>> {
    open spec fn ready(&self) -> bool {
        true
    }

    fn pull(&mut self) -> (r: Option<Result<TK, E>>)
        ensures
            S::obeys_prophetic_iter_laws(old(self)) ==> {
                &&& S::obeys_prophetic_iter_laws(final(self))
                &&& if S::remaining(old(self)).len() > 0 {
                    &&& r == Some(S::remaining(old(self))[0])
                    &&& S::remaining(final(self)) == S::remaining(old(self)).drop_first()
                } else {
                    &&& r is None
                    &&& S::remaining(final(self)) == S::remaining(old(self))
                }
            },
    {
        self.next()
    }
}

/// A [`Stream`] whose error can be handed to another thread and shared there.
pub trait SendSyncStream<TK, E>: Stream<TK, E> {
}

impl<S, TK, E> SendSyncStream<TK, E> for S where E: Send + Sync + 'static, S: Stream<TK, E> {
}

/// Pushback: what is handed to these methods is what the stream delivers next.
pub trait UnRead<U> {
    /// The tokens staged for redelivery, the next one to deliver first.
    spec fn staged(&self) -> Seq<U>;

    /// Pushes one token back: it is delivered next, ahead of anything staged
    /// before.
    fn unread(&mut self, token: U)
        ensures
            final(self).staged() == seq![token] + old(self).staged(),
    ;

    /// Pushes a run of tokens back, first to last. They are delivered last to
    /// first, and after them whatever was staged before.
    fn unread_from_tokens(&mut self, tokens: Vec<U>)
        ensures
            final(self).staged() == tokens@.reverse() + old(self).staged(),
    ;
}

} // verus!
