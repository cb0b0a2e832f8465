//! A body that is one of two concrete body types, fixed at construction.

use vstd::prelude::*;
use crate::body::{Body, PollFrame};
use crate::size_hint::SizeHint;

verus! {

/// Sum type with two cases, `Left` and `Right`, used if a body can be one of
/// two distinct types. Which case is populated is fixed at construction and
/// never changes.
#[derive(Clone, Copy, Debug)]
pub enum Either<L, R> {
    /// A value of type `L`.
    Left(L),
    /// A value of type `R`.
    Right(R),
}

/// The error channel of an [`Either`] body: the two cases' distinct error
/// types, unified in one type that keeps each error introspectable as the
/// concrete error it came from.
#[derive(Clone, Copy, Debug)]
pub enum EitherError<EL, ER> {
    /// An error of the left body.
    Left(EL),
    /// An error of the right body.
    Right(ER),
}

/// A left body's poll outcome, with its error moved into the unified channel.
pub open spec fn wrap_left<EL, ER>(p: PollFrame<EL>) -> PollFrame<EitherError<EL, ER>> {
    match p {
        PollFrame::Pending => PollFrame::Pending,
        PollFrame::End => PollFrame::End,
        PollFrame::Frame(f) => PollFrame::Frame(f),
        PollFrame::Fail(e) => PollFrame::Fail(EitherError::Left(e)),
    }
}

/// A right body's poll outcome, with its error moved into the unified channel.
pub open spec fn wrap_right<EL, ER>(p: PollFrame<ER>) -> PollFrame<EitherError<EL, ER>> {
    match p {
        PollFrame::Pending => PollFrame::Pending,
        PollFrame::End => PollFrame::End,
        PollFrame::Frame(f) => PollFrame::Frame(f),
        PollFrame::Fail(e) => PollFrame::Fail(EitherError::Right(e)),
    }
}

impl<L> Either<L, L> {
    /// Convert [`Either`] into the inner type, if both `Left` and `Right` are
    /// of the same type: the populated value comes back exactly, whichever
    /// case holds it.
    pub fn into_inner(self) -> (r: L)
        ensures
            r == match self {
                Either::Left(left) => left,
                Either::Right(right) => right,
            },
    {
        match self {
            Either::Left(left) => left,
            Either::Right(right) => right,
        }
    }
}

impl<L, R, EL, ER> Body<EitherError<EL, ER>> for Either<L, R> where
    L: Body<EL>,
    R: Body<ER>,
{
    /// Pure dispatch: the populated case's outcomes, errors unified.
    open spec fn steps(&self) -> Seq<PollFrame<EitherError<EL, ER>>> {
        match self {
            Either::Left(left) => left.steps().map_values(|p: PollFrame<EL>| wrap_left::<EL, ER>(p)),
            Either::Right(right) => right.steps().map_values(
                |p: PollFrame<ER>| wrap_right::<EL, ER>(p),
            ),
        }
    }

    open spec fn inv(&self) -> bool {
        match self {
            Either::Left(left) => left.inv(),
            Either::Right(right) => right.inv(),
        }
    }

    open spec fn hint_lower(&self) -> u64 {
        match self {
            Either::Left(left) => left.hint_lower(),
            Either::Right(right) => right.hint_lower(),
        }
    }

    open spec fn hint_upper(&self) -> Option<u64> {
        match self {
            Either::Left(left) => left.hint_upper(),
            Either::Right(right) => right.hint_upper(),
        }
    }

    open spec fn end_spec(&self) -> bool {
        match self {
            Either::Left(left) => left.end_spec(),
            Either::Right(right) => right.end_spec(),
        }
    }

    proof fn end_stream_sound(&self) {
        match self {
            Either::Left(left) => left.end_stream_sound(),
            Either::Right(right) => right.end_stream_sound(),
        }
    }

    proof fn hint_wf(&self) {
        match self {
            Either::Left(left) => left.hint_wf(),
            Either::Right(right) => right.hint_wf(),
        }
    }

    fn poll_frame(&mut self) -> (r: PollFrame<EitherError<EL, ER>>) {
        let r = match self {
            Either::Left(left) => match left.poll_frame() {
                PollFrame::Pending => PollFrame::Pending,
                PollFrame::End => PollFrame::End,
                PollFrame::Frame(f) => PollFrame::Frame(f),
                PollFrame::Fail(e) => PollFrame::Fail(EitherError::Left(e)),
            },
            Either::Right(right) => match right.poll_frame() {
                PollFrame::Pending => PollFrame::Pending,
                PollFrame::End => PollFrame::End,
                PollFrame::Frame(f) => PollFrame::Frame(f),
                PollFrame::Fail(e) => PollFrame::Fail(EitherError::Right(e)),
            },
        };
        proof {
            if old(self).steps().len() > 0 {
                assert(self.steps() =~= old(self).steps().drop_first());
            } else {
                assert(self.steps() =~= old(self).steps());
            }
        }
        r
    }

    fn is_end_stream(&self) -> (r: bool) {
        match self {
            Either::Left(left) => left.is_end_stream(),
            Either::Right(right) => right.is_end_stream(),
        }
    }

    fn size_hint(&self) -> (r: SizeHint) {
        match self {
            Either::Left(left) => left.size_hint(),
            Either::Right(right) => right.size_hint(),
        }
    }
}

/// Law: a body wrapped in `Either::Left` yields exactly the outcomes of the
/// body itself — the same frames, the same pending and end signals — with
/// each error merely moved into the unified channel, where it stays
/// introspectable as the error it was. The end-of-stream hint and the size
/// bounds pass through untouched.
pub proof fn lemma_left_transparent<L, R, EL, ER>(e: &Either<L, R>, b: &L) where
    L: Body<EL>,
    R: Body<ER>,

    requires
        e == Either::Left::<L, R>(*b),
    ensures
        Body::<EitherError<EL, ER>>::steps(e) == b.steps().map_values(
            |p: PollFrame<EL>| wrap_left::<EL, ER>(p),
        ),
        Body::<EitherError<EL, ER>>::end_spec(e) == b.end_spec(),
        Body::<EitherError<EL, ER>>::hint_lower(e) == b.hint_lower(),
        Body::<EitherError<EL, ER>>::hint_upper(e) == b.hint_upper(),
{
}

/// Law: a body wrapped in `Either::Right` yields exactly the outcomes of the
/// body itself, as [`lemma_left_transparent`] states for the left case.
pub proof fn lemma_right_transparent<L, R, EL, ER>(e: &Either<L, R>, b: &R) where
    L: Body<EL>,
    R: Body<ER>,

    requires
        e == Either::Right::<L, R>(*b),
    ensures
        Body::<EitherError<EL, ER>>::steps(e) == b.steps().map_values(
            |p: PollFrame<ER>| wrap_right::<EL, ER>(p),
        ),
        Body::<EitherError<EL, ER>>::end_spec(e) == b.end_spec(),
        Body::<EitherError<EL, ER>>::hint_lower(e) == b.hint_lower(),
        Body::<EitherError<EL, ER>>::hint_upper(e) == b.hint_upper(),
{
}

} // verus!
