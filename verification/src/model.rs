//! The mathematical model of a stream: what is staged for redelivery and what
//! the producer has yet to yield.
use vstd::prelude::*;

verus! {

/// A stream at one moment.
pub struct StreamState<T, U> {
    /// Tokens that were pushed back, in delivery order.
    pub staged: Seq<U>,
    /// Raw items that the producer has yet to yield, in order.
    pub raw: Seq<T>,
}

impl<T, U> StreamState<T, U> {
    /// Nothing is staged and the producer has run dry.
    pub open spec fn exhausted(self) -> bool {
        self.staged.len() == 0 && self.raw.len() == 0
    }

    /// The state that one pull leaves behind: a staged token is taken if there
    /// is one, else one raw item is consumed if there is one.
    pub open spec fn after_pull(self) -> Self {
        if self.staged.len() > 0 {
            StreamState { staged: self.staged.drop_first(), raw: self.raw }
        } else if self.raw.len() > 0 {
            StreamState { staged: self.staged, raw: self.raw.drop_first() }
        } else {
            self
        }
    }

    /// The state that `n` pulls in a row leave behind.
    pub open spec fn after_pulls(self, n: nat) -> Self
        decreases n,
    {
        if n == 0 {
            self
        } else {
            self.after_pull().after_pulls((n - 1) as nat)
        }
    }

    /// Whether a pull in this state may return `out`, given the transform that
    /// decodes raw items. A staged token comes back as it is; a raw item comes
    /// back as whatever the transform may make of it; an exhausted stream gives
    /// `None`.
    pub open spec fn may_yield<E, F: FnMut(T) -> Result<U, E>>(
        self,
        transform: F,
        out: Option<Result<U, E>>,
    ) -> bool {
        if self.staged.len() > 0 {
            out == Some(Ok::<U, E>(self.staged[0]))
        } else if self.raw.len() > 0 {
            out matches Some(decoded) && call_ensures(transform, (self.raw[0],), decoded)
        } else {
            out is None
        }
    }

    /// The state after one token was pushed back.
    pub open spec fn after_unread(self, token: U) -> Self {
        StreamState { staged: seq![token] + self.staged, raw: self.raw }
    }

    /// The state after a run of tokens was pushed back in one call.
    pub open spec fn after_unread_many(self, tokens: Seq<U>) -> Self {
        StreamState { staged: tokens.reverse() + self.staged, raw: self.raw }
    }
}

/// Pulling `k` times while at least `k` tokens are staged takes those `k`
/// tokens and leaves the producer where it was.
pub proof fn lemma_pulls_drain_staged<T, U>(state: StreamState<T, U>, k: nat)
    requires
        k <= state.staged.len(),
    ensures
        state.after_pulls(k) == (StreamState { staged: state.staged.skip(k as int), raw: state.raw }),
    decreases k,
{
    if k == 0 {
        assert(state.staged.skip(0) =~= state.staged);
    } else {
        let next = state.after_pull();
        lemma_pulls_drain_staged(next, (k - 1) as nat);
        assert(next.staged.skip(k - 1) =~= state.staged.skip(k as int));
    }
}

/// End of stream is final. Once a pull has given `None`, the stream is
/// exhausted, and as long as nothing is pushed back every later pull leaves it
/// so and can give nothing but `None`.
pub proof fn lemma_end_of_stream_is_final<T, U, E, F: FnMut(T) -> Result<U, E>>(
    state: StreamState<T, U>,
    transform: F,
    n: nat,
    out: Option<Result<U, E>>,
)
    requires
        state.may_yield(transform, None::<Result<U, E>>),
    ensures
        state.exhausted(),
        state.after_pulls(n) == state,
        state.after_pulls(n).may_yield(transform, out) <==> out is None,
    decreases n,
{
    if n > 0 {
        lemma_end_of_stream_is_final(state, transform, (n - 1) as nat, out);
    }
}

/// Staged tokens come first. While a token is staged, a pull gives exactly
/// that token, whatever the transform is, and leaves the producer's raw items
/// untouched.
pub proof fn lemma_staged_token_comes_first<T, U, E, F: FnMut(T) -> Result<U, E>>(
    state: StreamState<T, U>,
    transform: F,
    out: Option<Result<U, E>>,
)
    requires
        state.staged.len() > 0,
    ensures
        state.may_yield(transform, out) <==> out == Some(Ok::<U, E>(state.staged[0])),
        state.after_pull().raw == state.raw,
        state.after_pull().staged == state.staged.drop_first(),
{
}

/// Pushing one token back and pulling returns that token and restores the
/// stream: the producer's position and the tokens staged before are as they
/// were.
pub proof fn lemma_unread_round_trip<T, U, E, F: FnMut(T) -> Result<U, E>>(
    state: StreamState<T, U>,
    token: U,
    transform: F,
    out: Option<Result<U, E>>,
)
    ensures
        state.after_unread(token).may_yield(transform, out) <==> out == Some(Ok::<U, E>(token)),
        state.after_unread(token).after_pull() == state,
{
    assert((seq![token] + state.staged).drop_first() =~= state.staged);
}

/// Pushing a run back in one call is the same as pushing its tokens back one
/// by one, first to last.
pub proof fn lemma_unread_many_is_repeated_unread<T, U>(
    state: StreamState<T, U>,
    tokens: Seq<U>,
    token: U,
)
    ensures
        state.after_unread_many(Seq::<U>::empty()) == state,
        state.after_unread_many(tokens.push(token)) == state.after_unread_many(tokens).after_unread(
            token,
        ),
{
    assert(Seq::<U>::empty().reverse() + state.staged =~= state.staged);
    assert(tokens.push(token).reverse() + state.staged =~= seq![token] + (tokens.reverse()
        + state.staged));
}

/// Pushback reverses. After a run of tokens is pushed back in one call, the
/// pull number `k` (counting from zero) gives the token `k` places from the
/// end of the run, and once the whole run has been pulled the stream is as it
/// was before the pushback.
pub proof fn lemma_unread_many_replays_reversed<T, U, E, F: FnMut(T) -> Result<U, E>>(
    state: StreamState<T, U>,
    tokens: Seq<U>,
    k: nat,
    transform: F,
    out: Option<Result<U, E>>,
)
    requires
        k < tokens.len(),
    ensures
        state.after_unread_many(tokens).after_pulls(k).may_yield(transform, out) <==> out == Some(
            Ok::<U, E>(tokens[tokens.len() - 1 - k]),
        ),
        state.after_unread_many(tokens).after_pulls(tokens.len()) == state,
{
    let pushed = state.after_unread_many(tokens);
    lemma_pulls_drain_staged(pushed, k);
    lemma_pulls_drain_staged(pushed, tokens.len());
    assert(pushed.staged.skip(tokens.len() as int) =~= state.staged);
    assert(pushed.staged.skip(k as int)[0] == tokens[tokens.len() - 1 - k]);
}

/// The transform's result is relayed. With nothing staged and a raw item at
/// hand, a pull gives exactly what the transform may return for that item, be
/// it a token or an error, and consumes the item: it is neither staged nor
/// offered to the transform again.
pub proof fn lemma_decode_result_is_relayed<T, U, E, F: FnMut(T) -> Result<U, E>>(
    state: StreamState<T, U>,
    transform: F,
    out: Option<Result<U, E>>,
)
    requires
        state.staged.len() == 0,
        state.raw.len() > 0,
    ensures
        state.may_yield(transform, out) <==> (out matches Some(decoded) && call_ensures(
            transform,
            (state.raw[0],),
            decoded,
        )),
        state.after_pull().raw == state.raw.drop_first(),
        state.after_pull().staged == state.staged,
{
}

/// A decode error comes out once. If the transform can only fail with `error`
/// on the raw item at hand, the pull that consumes that item gives
/// `Err(error)`, and the pull after it looks at the item that follows.
pub proof fn lemma_decode_error_comes_out_once<T, U, E, F: FnMut(T) -> Result<U, E>>(
    state: StreamState<T, U>,
    transform: F,
    error: E,
    out: Option<Result<U, E>>,
)
    requires
        state.staged.len() == 0,
        state.raw.len() > 0,
        forall|decoded: Result<U, E>|
            call_ensures(transform, (state.raw[0],), decoded) ==> decoded == Err::<U, E>(error),
        state.may_yield(transform, out),
    ensures
        out == Some(Err::<U, E>(error)),
        state.after_pull().staged.len() == 0,
        state.after_pull().raw == state.raw.skip(1),
{
    assert(state.raw.drop_first() =~= state.raw.skip(1));
}

} // verus!
