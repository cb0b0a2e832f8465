//! A body that enforces a cumulative ceiling on the data bytes it yields.

use vstd::prelude::*;
use crate::body::{step_data_len, step_is_data, Body, Frame, PollFrame};
use crate::size_hint::SizeHint;

verus! {

/// An error returned when body length exceeds the configured limit.
#[derive(Clone, Copy, Debug)]
pub struct LengthLimitError;

impl LengthLimitError {
    /// The error's message, for display.
    pub fn message(&self) -> (r: &'static str)
        ensures
            r@ == "length limit exceeded"@,
    {
        "length limit exceeded"
    }
}

/// The error channel of a [`Limited`] body: the dedicated length-limit error,
/// or the wrapped body's own error, kept introspectable as what it was.
#[derive(Clone, Copy, Debug)]
pub enum LimitedError<E> {
    /// A data frame would have pushed the cumulative byte count past the
    /// configured limit.
    Limit(LengthLimitError),
    /// The wrapped body failed.
    Inner(E),
}

/// The budget left after one poll outcome is accounted against `rem`: a data
/// frame that fits is paid for, one that does not zeroes the budget, and
/// anything else leaves it alone.
pub open spec fn budget_step<E>(p: PollFrame<E>, rem: nat) -> nat {
    match p {
        PollFrame::Frame(Frame::Data(d)) => if d@.len() > rem {
            0
        } else {
            (rem - d@.len()) as nat
        },
        _ => rem,
    }
}

/// The budget left after the first `i` outcomes of `s` are accounted against
/// an initial budget of `rem`.
pub open spec fn budget_after<E>(s: Seq<PollFrame<E>>, rem: nat, i: int) -> nat
    decreases i,
{
    if i <= 0 {
        rem
    } else {
        budget_step(s[i - 1], budget_after(s, rem, i - 1))
    }
}

/// One poll outcome as a [`Limited`] body passes it on with `rem` budget
/// left: a data frame that fits, a trailer frame, a pending signal and the
/// end of the stream pass unchanged; a data frame over the budget becomes the
/// length-limit error; an inner error moves into the unified channel.
pub open spec fn limit_step<E>(p: PollFrame<E>, rem: nat) -> PollFrame<LimitedError<E>> {
    match p {
        PollFrame::Pending => PollFrame::Pending,
        PollFrame::End => PollFrame::End,
        PollFrame::Frame(Frame::Data(d)) => if d@.len() > rem {
            PollFrame::Fail(LimitedError::Limit(LengthLimitError))
        } else {
            PollFrame::Frame(Frame::Data(d))
        },
        PollFrame::Frame(Frame::Trailers(t)) => PollFrame::Frame(Frame::Trailers(t)),
        PollFrame::Fail(e) => PollFrame::Fail(LimitedError::Inner(e)),
    }
}

/// The outcomes of a [`Limited`] body wrapping outcomes `s` with an initial
/// budget of `rem` data bytes.
pub open spec fn limit_steps<E>(s: Seq<PollFrame<E>>, rem: nat) -> Seq<
    PollFrame<LimitedError<E>>,
> {
    Seq::new(s.len(), |i: int| limit_step(s[i], budget_after(s, rem, i)))
}

/// Accounting commutes with dropping the first outcome.
proof fn lemma_budget_shift<E>(s: Seq<PollFrame<E>>, rem: nat, i: int)
    requires
        s.len() > 0,
        0 <= i < s.len(),
    ensures
        budget_after(s.drop_first(), budget_step(s[0], rem), i) == budget_after(s, rem, i + 1),
    decreases i,
{
    if i == 0 {
        assert(budget_after(s, rem, 1) == budget_step(s[0], budget_after(s, rem, 0)));
    } else {
        lemma_budget_shift(s, rem, i - 1);
        assert(s.drop_first()[i - 1] == s[i]);
        assert(budget_after(s.drop_first(), budget_step(s[0], rem), i) == budget_step(
            s.drop_first()[i - 1],
            budget_after(s.drop_first(), budget_step(s[0], rem), i - 1),
        ));
        assert(budget_after(s, rem, i + 1) == budget_step(s[i], budget_after(s, rem, i)));
    }
}

/// Limiting commutes with dropping the first outcome.
proof fn lemma_limit_steps_shift<E>(s: Seq<PollFrame<E>>, rem: nat)
    requires
        s.len() > 0,
    ensures
        limit_steps(s, rem).drop_first() == limit_steps(s.drop_first(), budget_step(s[0], rem)),
{
    assert forall|i: int| 0 <= i < s.len() - 1 implies limit_steps(s.drop_first(), budget_step(s[0], rem))[i]
        == limit_steps(s, rem).drop_first()[i] by {
        lemma_budget_shift(s, rem, i);
    }
    assert(limit_steps(s, rem).drop_first() =~= limit_steps(
        s.drop_first(),
        budget_step(s[0], rem),
    ));
}

/// The lower bound a [`Limited`] body reports: the wrapped body's, capped at
/// the budget `n`.
pub open spec fn capped_lower(lower: u64, n: u64) -> u64 {
    if lower >= n {
        n
    } else {
        lower
    }
}

/// The upper bound a [`Limited`] body reports: the budget `n` when the
/// wrapped body's lower bound already meets it (the hint is then exact), else
/// the wrapped body's upper bound capped at `n`, or `n` itself when the
/// wrapped body reports none.
pub open spec fn capped_upper(lower: u64, upper: Option<u64>, n: u64) -> u64 {
    if lower >= n {
        n
    } else {
        match upper {
            Some(m) => if n < m {
                n
            } else {
                m
            },
            None => n,
        }
    }
}

/// Combine a wrapped body's advisory bounds with a remaining budget: the
/// pointwise minimum, reported exact when the wrapped lower bound already
/// meets the budget.
pub fn bounded_size_hint(lower: u64, upper: Option<u64>, remaining: u64) -> (r: SizeHint)
    requires
        upper matches Some(m) ==> lower <= m,
    ensures
        r.spec_lower() == capped_lower(lower, remaining),
        r.spec_upper() == Some(capped_upper(lower, upper, remaining)),
        r.wf(),
{
    let mut hint = SizeHint::new();
    if lower >= remaining {
        hint.set_exact(remaining);
    } else {
        match upper {
            Some(m) => {
                hint.set_upper(if remaining < m { remaining } else { m });
            },
            None => {
                hint.set_upper(remaining);
            },
        }
        hint.set_lower(lower);
    }
    hint
}

/// Decide whether a data frame of `len` bytes may pass a remaining budget:
/// whether it passes, and the budget left after it (zeroed when it does not
/// pass).
pub fn admit_data(remaining: usize, len: usize) -> (r: (bool, usize))
    ensures
        r.0 == (len <= remaining),
        len <= remaining ==> r.1 == remaining - len,
        len > remaining ==> r.1 == 0,
{
    if len > remaining {
        (false, 0)
    } else {
        (true, remaining - len)
    }
}

/// A length-limited body.
///
/// This body will return an error if more than the configured number of
/// bytes are returned on polling the wrapped body. Trailer frames are free;
/// a data frame that would push the cumulative count past the budget is
/// discarded whole and replaced by the length-limit error, with the budget
/// zeroed.
#[derive(Clone, Copy, Debug)]
pub struct Limited<B> {
    /// The data bytes the body may still pass through.
    pub remaining: usize,
    /// The wrapped body.
    pub inner: B,
}

impl<B> Limited<B> {
    /// Create a new `Limited` that lets at most `limit` cumulative data
    /// bytes of `inner` through.
    pub fn new(inner: B, limit: usize) -> (r: Limited<B>)
        ensures
            r.remaining == limit,
            r.inner == inner,
    {
        Limited { remaining: limit, inner }
    }
}

impl<B, E> Body<LimitedError<E>> for Limited<B> where B: Body<E> {
    open spec fn steps(&self) -> Seq<PollFrame<LimitedError<E>>> {
        limit_steps(self.inner.steps(), self.remaining as nat)
    }

    open spec fn inv(&self) -> bool {
        self.inner.inv()
    }

    open spec fn hint_lower(&self) -> u64 {
        capped_lower(self.inner.hint_lower(), self.remaining as u64)
    }

    open spec fn hint_upper(&self) -> Option<u64> {
        Some(capped_upper(self.inner.hint_lower(), self.inner.hint_upper(), self.remaining as u64))
    }

    open spec fn end_spec(&self) -> bool {
        self.inner.end_spec()
    }

    proof fn end_stream_sound(&self) {
        self.inner.end_stream_sound();
        assert forall|i: int| 0 <= i < self.steps().len() implies !step_is_data(self.steps()[i]) by {
            assert(!step_is_data(self.inner.steps()[i]));
        }
    }

    proof fn hint_wf(&self) {
        self.inner.hint_wf();
    }

    fn poll_frame(&mut self) -> (r: PollFrame<LimitedError<E>>)
        ensures
            final(self).remaining <= old(self).remaining,
            old(self).inner.steps().len() > 0 ==> final(self).inner.steps() == old(
                self,
            ).inner.steps().drop_first() && final(self).remaining as nat == budget_step(
                old(self).inner.steps()[0],
                old(self).remaining as nat,
            ),
            old(self).inner.steps().len() == 0 ==> final(self).inner.steps() == old(
                self,
            ).inner.steps() && final(self).remaining == old(self).remaining,
    {
        let ghost s0 = self.inner.steps();
        let ghost rem0 = self.remaining as nat;
        let inner_poll = self.inner.poll_frame();
        let r = match inner_poll {
            PollFrame::Pending => PollFrame::Pending,
            PollFrame::End => PollFrame::End,
            PollFrame::Fail(e) => PollFrame::Fail(LimitedError::Inner(e)),
            PollFrame::Frame(f) => match f {
                Frame::Data(d) => {
                    if d.len() > self.remaining {
                        self.remaining = 0;
                        PollFrame::Fail(LimitedError::Limit(LengthLimitError))
                    } else {
                        self.remaining = self.remaining - d.len();
                        PollFrame::Frame(Frame::Data(d))
                    }
                },
                Frame::Trailers(t) => PollFrame::Frame(Frame::Trailers(t)),
            },
        };
        proof {
            if s0.len() > 0 {
                assert(budget_after(s0, rem0, 0) == rem0);
                assert(self.remaining as nat == budget_step(s0[0], rem0));
                lemma_limit_steps_shift(s0, rem0);
                assert(self.steps() =~= old(self).steps().drop_first());
            } else {
                assert(self.steps() =~= old(self).steps());
            }
        }
        r
    }

    fn is_end_stream(&self) -> (r: bool) {
        self.inner.is_end_stream()
    }

    fn size_hint(&self) -> (r: SizeHint) {
        proof {
            self.inner.hint_wf();
        }
        let hint = self.inner.size_hint();
        bounded_size_hint(hint.lower(), hint.upper(), self.remaining as u64)
    }
}

/// The total data bytes among the outcomes of `s`.
pub open spec fn total_data<E>(s: Seq<PollFrame<E>>) -> nat
    decreases s.len(),
{
    if s.len() == 0 {
        0
    } else {
        step_data_len(s[0]) + total_data(s.drop_first())
    }
}

/// A poll outcome as it leaves a [`Limited`] body whose budget it does not
/// touch: unchanged, except that an inner error moves into the unified
/// channel.
pub open spec fn wrap_limited<E>(p: PollFrame<E>) -> PollFrame<LimitedError<E>> {
    match p {
        PollFrame::Pending => PollFrame::Pending,
        PollFrame::End => PollFrame::End,
        PollFrame::Frame(f) => PollFrame::Frame(f),
        PollFrame::Fail(e) => PollFrame::Fail(LimitedError::Inner(e)),
    }
}

/// Law: a body whose total data bytes fit the budget passes through a
/// [`Limited`] body unchanged — every frame, pending signal and end signal is
/// forwarded as it is, and an inner error only moves into the unified
/// channel. The wrapped stream then ends exactly where the inner one does.
pub proof fn lemma_under_limit_transparent<E>(s: Seq<PollFrame<E>>, rem: nat)
    requires
        total_data(s) <= rem,
    ensures
        limit_steps(s, rem) == s.map_values(|p: PollFrame<E>| wrap_limited(p)),
    decreases s.len(),
{
    if s.len() == 0 {
        assert(limit_steps(s, rem) =~= s.map_values(|p: PollFrame<E>| wrap_limited(p)));
    } else {
        assert(total_data(s) == step_data_len(s[0]) + total_data(s.drop_first()));
        lemma_under_limit_transparent(s.drop_first(), budget_step(s[0], rem));
        lemma_limit_steps_shift(s, rem);
        assert(budget_after(s, rem, 0) == rem);
        assert forall|i: int| 0 <= i < s.len() implies limit_steps(s, rem)[i] == wrap_limited(
            s[i],
        ) by {
            if i > 0 {
                assert(limit_steps(s, rem)[i] == limit_steps(s, rem).drop_first()[i - 1]);
                assert(limit_steps(s.drop_first(), budget_step(s[0], rem))[i - 1] == s.drop_first()
                    .map_values(|p: PollFrame<E>| wrap_limited(p))[i - 1]);
            }
        }
        assert(limit_steps(s, rem) =~= s.map_values(|p: PollFrame<E>| wrap_limited(p)));
    }
}

/// The cumulative data bytes among the first `i` outcomes of `s`.
pub open spec fn prefix_data<E>(s: Seq<PollFrame<E>>, i: int) -> nat
    decreases i,
{
    if i <= 0 {
        0
    } else {
        prefix_data(s, i - 1) + step_data_len(s[i - 1])
    }
}

/// The cumulative data byte count only grows along the stream.
pub proof fn lemma_prefix_data_monotone<E>(s: Seq<PollFrame<E>>, i: int, j: int)
    requires
        0 <= i <= j,
    ensures
        prefix_data(s, i) <= prefix_data(s, j),
    decreases j,
{
    if i < j {
        lemma_prefix_data_monotone(s, i, j - 1);
    }
}

/// While the cumulative data bytes stay within the budget, the budget left is
/// the initial budget minus the bytes already passed.
proof fn lemma_budget_while_under<E>(s: Seq<PollFrame<E>>, rem: nat, i: int)
    requires
        0 <= i,
        prefix_data(s, i) <= rem,
    ensures
        budget_after(s, rem, i) == rem - prefix_data(s, i),
    decreases i,
{
    if i > 0 {
        assert(prefix_data(s, i) == prefix_data(s, i - 1) + step_data_len(s[i - 1]));
        lemma_budget_while_under(s, rem, i - 1);
    }
}

/// Law: against a budget the body's data exceeds, a [`Limited`] body yields
/// every outcome whose cumulative prefix of data bytes stays within the
/// budget unchanged, then replaces the first boundary-crossing data frame by
/// the length-limit error. Nothing of that frame is delivered.
pub proof fn lemma_over_limit_fails<E>(s: Seq<PollFrame<E>>, rem: nat, k: int)
    requires
        0 <= k < s.len(),
        step_is_data(s[k]),
        prefix_data(s, k) <= rem,
        prefix_data(s, k + 1) > rem,
    ensures
        forall|i: int| 0 <= i < k ==> limit_steps(s, rem)[i] == wrap_limited(s[i]),
        limit_steps(s, rem)[k] == PollFrame::Fail(LimitedError::<E>::Limit(LengthLimitError)),
        budget_after(s, rem, k + 1) == 0,
        forall|i: int|
            k < i < s.len() && step_data_len(s[i]) > 0 ==> limit_steps(s, rem)[i]
                == PollFrame::Fail(LimitedError::<E>::Limit(LengthLimitError)),
{
    lemma_budget_while_under(s, rem, k);
    assert(prefix_data(s, k + 1) == prefix_data(s, k) + step_data_len(s[k]));
    assert forall|i: int| 0 <= i < k implies limit_steps(s, rem)[i] == wrap_limited(s[i]) by {
        lemma_prefix_data_monotone(s, i + 1, k);
        lemma_budget_while_under(s, rem, i);
        assert(prefix_data(s, i + 1) == prefix_data(s, i) + step_data_len(s[i]));
    }
    assert forall|i: int|
        k < i < s.len() && step_data_len(s[i]) > 0 implies limit_steps(s, rem)[i]
        == PollFrame::Fail(LimitedError::<E>::Limit(LengthLimitError)) by {
        lemma_budget_nonincreasing(s, rem, k + 1, i);
    }
}

/// Law: trailer frames are never counted against the budget and always pass
/// through unchanged, whatever budget is left — including a budget of zero.
/// `wrap_limited` forwards a frame exactly as it is.
pub proof fn lemma_trailers_pass_through<E>(s: Seq<PollFrame<E>>, rem: nat, i: int)
    requires
        0 <= i < s.len(),
        s[i] matches PollFrame::Frame(Frame::Trailers(_)),
    ensures
        limit_steps(s, rem)[i] == wrap_limited(s[i]),
        limit_steps(s, rem)[i] matches PollFrame::Frame(f) && PollFrame::<E>::Frame(f) == s[i],
        budget_after(s, rem, i + 1) == budget_after(s, rem, i),
{
    assert(budget_after(s, rem, i + 1) == budget_step(s[i], budget_after(s, rem, i)));
}

/// The budget never grows as outcomes are accounted.
pub proof fn lemma_budget_nonincreasing<E>(s: Seq<PollFrame<E>>, rem: nat, i: int, j: int)
    requires
        0 <= i <= j,
    ensures
        budget_after(s, rem, j) <= budget_after(s, rem, i),
    decreases j,
{
    if i < j {
        lemma_budget_nonincreasing(s, rem, i, j - 1);
    }
}

/// Order on optional upper bounds, a missing bound counting as unbounded.
pub open spec fn upper_le(a: Option<u64>, b: Option<u64>) -> bool {
    match b {
        None => true,
        Some(vb) => a matches Some(va) && va <= vb,
    }
}

/// Law: the upper bound a [`Limited`] body reports never exceeds its
/// remaining budget — and so never the limit it was created with, since the
/// budget starts there and never grows.
pub proof fn lemma_limited_upper_within_budget<B: Body<E>, E>(l: &Limited<B>)
    ensures
        l.hint_upper() matches Some(u) && u <= l.remaining as u64,
{
}

/// Law: as long as the wrapped body's own upper bound does not grow and the
/// budget does not grow, the upper bound a [`Limited`] body reports does not
/// grow either.
pub proof fn lemma_limited_upper_monotonic<B: Body<E>, E>(before: &Limited<B>, after: &Limited<B>)
    requires
        before.inv(),
        after.inv(),
        after.remaining <= before.remaining,
        upper_le(after.inner.hint_upper(), before.inner.hint_upper()),
    ensures
        after.hint_upper() matches Some(ua) && before.hint_upper() matches Some(ub) && ua <= ub,
{
    before.inner.hint_wf();
    after.inner.hint_wf();
}

} // verus!
