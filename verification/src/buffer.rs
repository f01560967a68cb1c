//! The staging area for tokens that were pushed back.
use std::collections::VecDeque;
use vstd::prelude::*;

verus! {

/// Tokens waiting to be delivered again.
///
/// The view lists them in delivery order: `self@[0]` is the token that the
/// next `pop_next` hands out.
#[derive(Debug)]
pub struct PushbackBuffer<U> {
    store: VecDeque<U>,
}

impl<U> View for PushbackBuffer<U> {
    type V = Seq<U>;

    closed spec fn view(&self) -> Seq<U> {
        self.store@.reverse()
    }
}

/// Reversing a sequence after appending `x` puts `x` in front.
proof fn lemma_reverse_push<U>(s: Seq<U>, x: U)
    ensures
        s.push(x).reverse() == seq![x] + s.reverse(),
{
    assert(s.push(x).reverse() =~= seq![x] + s.reverse());
}

/// Reversing a concatenation reverses the parts and swaps them.
proof fn lemma_reverse_concat<U>(s: Seq<U>, t: Seq<U>)
    ensures
        (s + t).reverse() == t.reverse() + s.reverse(),
{
    assert((s + t).reverse() =~= t.reverse() + s.reverse());
}

impl<U> PushbackBuffer<U> {
    /// An empty buffer.
    pub fn new() -> (r: Self)
        ensures
            r@ == Seq::<U>::empty(),
    {
        let r = PushbackBuffer { store: VecDeque::new() };
        assert(r.store@.reverse() =~= Seq::<U>::empty());
        r
    }

    /// A buffer seeded with `tokens`; the last of them is delivered first.
    pub fn from_tokens(tokens: Vec<U>) -> (r: Self)
        ensures
            r@ == tokens@.reverse(),
    {
        let mut r = Self::new();
        r.push_many(tokens);
        assert(tokens@.reverse() + Seq::<U>::empty() =~= tokens@.reverse());
        r
    }

    /// True when nothing is staged.
    pub fn is_empty(&self) -> (r: bool)
        ensures
            r == (self@.len() == 0),
    {
        self.store.len() == 0
    }

    /// The number of staged tokens.
    pub fn len(&self) -> (r: usize)
        ensures
            r == self@.len(),
    {
        self.store.len()
    }

    /// Stages `token` ahead of everything already staged.
    pub fn push_one(&mut self, token: U)
        ensures
            final(self)@ == seq![token] + old(self)@,
    {
        proof {
            lemma_reverse_push(self.store@, token);
        }
        self.store.push_back(token);
    }

    /// Stages a whole run of tokens, first to last, each ahead of the one
    /// before it: afterwards they come out last to first, and then whatever
    /// was staged before.
    pub fn push_many(&mut self, tokens: Vec<U>)
        ensures
            final(self)@ == tokens@.reverse() + old(self)@,
    {
        let ghost before = self.store@;
        for token in it: tokens
            invariant
                it.seq() == tokens@,
                self.store@ == before + tokens@.take(it.index()),
        {
            assert(tokens@.take(it.index() + 1) =~= tokens@.take(it.index()).push(token));
            assert(before + tokens@.take(it.index()).push(token) =~= (before + tokens@.take(
                it.index(),
            )).push(token));
            self.store.push_back(token);
        }
        proof {
            assert(tokens@.take(tokens@.len() as int) =~= tokens@);
            lemma_reverse_concat(before, tokens@);
        }
    }

    /// Removes and returns the next token to deliver, or `None` when the
    /// buffer is empty.
    pub fn pop_next(&mut self) -> (r: Option<U>)
        ensures
            match r {
                Some(token) => {
                    &&& old(self)@.len() > 0
                    &&& token == old(self)@[0]
                    &&& final(self)@ == old(self)@.drop_first()
                },
                None => {
                    &&& old(self)@.len() == 0
                    &&& final(self)@ == old(self)@
                },
            },
    {
        let ghost before = self.store@;
        let r = self.store.pop_back();
        proof {
            if r is Some {
                assert(before.subrange(0, before.len() - 1).reverse() =~= before.reverse().drop_first());
            }
        }
        r
    }
}

} // verus!
