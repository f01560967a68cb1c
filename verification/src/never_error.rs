//! An adapter for producers that cannot fail.
use vstd::prelude::*;
use vstd::std_specs::iter::IteratorSpec;
use vstd::std_specs::iter::IteratorSpecImpl;

verus! {

/// The error of a stream that has none to report. The adapter below names it
/// as its error type and never makes one.
#[derive(Debug, PartialEq, Eq, Structural)]
pub struct InvalidState;

impl InvalidState {
    /// The text that describes this error.
    pub fn message(&self) -> (r: String)
        ensures
            r@ == "invalid state"@,
    {
        "invalid state".to_owned()
    }
}

/// What the adapter hands out when its producer has `raw` left to yield: the
/// first raw item as a success, or `None` when there is none.
pub open spec fn lifted_head<T>(raw: Seq<T>) -> Option<Result<T, InvalidState>> {
    if raw.len() > 0 {
        Some(Ok(raw[0]))
    } else {
        None
    }
}

/// What the producer has left after the adapter pulled once.
pub open spec fn rest_after_pull<T>(raw: Seq<T>) -> Seq<T> {
    if raw.len() > 0 {
        raw.drop_first()
    } else {
        raw
    }
}

/// What the producer has left after the adapter pulled `n` times.
pub open spec fn rest_after_pulls<T>(raw: Seq<T>, n: nat) -> Seq<T>
    decreases n,
{
    if n == 0 {
        raw
    } else {
        rest_after_pulls(rest_after_pull(raw), (n - 1) as nat)
    }
}

/// The adapter is faithful. Over a producer that has `raw` left to yield, the
/// pull number `k` (counting from zero) gives `Ok` of the raw item number `k`,
/// and every pull from the length of `raw` on gives `None`: the adapter hands
/// out each raw item once, in order, as a success, and then ends.
pub proof fn lemma_adapter_is_faithful<T>(raw: Seq<T>, k: nat)
    ensures
        k < raw.len() ==> lifted_head(rest_after_pulls(raw, k)) == Some(
            Ok::<T, InvalidState>(raw[k as int]),
        ),
        k >= raw.len() ==> lifted_head(rest_after_pulls(raw, k)) is None,
        k <= raw.len() ==> rest_after_pulls(raw, k) == raw.skip(k as int),
        k >= raw.len() ==> rest_after_pulls(raw, k) == Seq::<T>::empty(),
    decreases k,
{
    if k == 0 {
        assert(raw.skip(0) =~= raw);
        if raw.len() == 0 {
            assert(raw =~= Seq::<T>::empty());
        }
    } else {
        let rest = rest_after_pull(raw);
        lemma_adapter_is_faithful(rest, (k - 1) as nat);
        if raw.len() > 0 {
            if k <= raw.len() {
                assert(rest.skip(k - 1) =~= raw.skip(k as int));
            }
        } else {
            assert(rest =~= Seq::<T>::empty());
        }
    }
}

/// Presents a producer that cannot fail as a producer of results, each of
/// them a success.
#[verifier::reject_recursive_types(T)]
pub struct Iter<I, T>(I) where I: Iterator<Item = T>;

impl<I, T> Iter<I, T> where I: Iterator<Item = T> {
    /// The wrapped producer.
    pub closed spec fn source(self) -> I {
        self.0
    }

    /// Wraps `iter`.
    pub fn new(iter: I) -> (r: Self)
        ensures
            r.source() == iter,
    {
        Iter(iter)
    }
}

impl<I, T> Iterator for Iter<I, T> where I: Iterator<Item = T> {
    type Item = Result<T, InvalidState>;

    /// Pulls the next raw item and wraps it in `Ok`; `None` when the producer
    /// gives none. No pull returns an error.
    fn next(&mut self) -> (r: Option<Result<T, InvalidState>>)
        ensures
            r matches Some(item) ==> item is Ok,
            old(self).source().obeys_prophetic_iter_laws() ==> {
                &&& final(self).source().obeys_prophetic_iter_laws()
                &&& r == lifted_head(old(self).source().remaining())
                &&& final(self).source().remaining() == rest_after_pull(
                    old(self).source().remaining(),
                )
            },
    {
        match self.0.next() {
            Some(raw) => Some(Ok(raw)),
            None => None,
        }
    }
}

/// The adapter's contract stands on `next` itself, over what its producer has
/// left; through the prophetic interface it claims nothing.
impl<I, T> IteratorSpecImpl for Iter<I, T> where I: Iterator<Item = T> {
    open spec fn obeys_prophetic_iter_laws(&self) -> bool {
        false
    }

    open spec fn remaining(&self) -> Seq<Self::Item> {
        Seq::empty()
    }

    open spec fn will_return_none(&self) -> bool {
        false
    }

    open spec fn decrease(&self) -> Option<nat> {
        None
    }

    open spec fn initial_value_relation(&self, init: &Self) -> bool {
        true
    }

    open spec fn peek(&self, index: int) -> Option<Self::Item> {
        None
    }
}

} // verus!
