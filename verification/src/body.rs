//! The body interface: frames, poll outcomes, and the [`Body`] trait.

use vstd::prelude::*;
use crate::size_hint::SizeHint;

verus! {

/// One unit of production from a body: either a chunk of data bytes or a
/// map of trailing metadata, never both.
#[derive(Debug, Clone, PartialEq, Eq)]
pub enum Frame {
    /// A chunk of data bytes.
    Data(Vec<u8>),
    /// Trailing metadata: an ordered list of key/value entries.
    Trailers(Vec<(Vec<u8>, Vec<u8>)>),
}

impl Frame {
    /// Wrap a data chunk in a frame.
    pub fn data(chunk: Vec<u8>) -> (r: Frame)
        ensures
            r == Frame::Data(chunk),
    {
        Frame::Data(chunk)
    }

    /// Wrap trailing metadata in a frame.
    pub fn trailers(map: Vec<(Vec<u8>, Vec<u8>)>) -> (r: Frame)
        ensures
            r == Frame::Trailers(map),
    {
        Frame::Trailers(map)
    }

    /// Whether this frame carries data.
    pub fn is_data(&self) -> (r: bool)
        ensures
            r == (self matches Frame::Data(_)),
    {
        match self {
            Frame::Data(_) => true,
            Frame::Trailers(_) => false,
        }
    }

    /// Whether this frame carries trailing metadata.
    pub fn is_trailers(&self) -> (r: bool)
        ensures
            r == (self matches Frame::Trailers(_)),
    {
        match self {
            Frame::Data(_) => false,
            Frame::Trailers(_) => true,
        }
    }

    /// Unwrap the data chunk, or hand the frame back if it carries trailers.
    pub fn into_data(self) -> (r: Result<Vec<u8>, Frame>)
        ensures
            r == match self {
                Frame::Data(d) => Ok::<Vec<u8>, Frame>(d),
                Frame::Trailers(_) => Err::<Vec<u8>, Frame>(self),
            },
    {
        match self {
            Frame::Data(d) => Ok(d),
            f => Err(f),
        }
    }

    /// Unwrap the trailers, or hand the frame back if it carries data.
    pub fn into_trailers(self) -> (r: Result<Vec<(Vec<u8>, Vec<u8>)>, Frame>)
        ensures
            r == match self {
                Frame::Trailers(t) => Ok::<Vec<(Vec<u8>, Vec<u8>)>, Frame>(t),
                Frame::Data(_) => Err::<Vec<(Vec<u8>, Vec<u8>)>, Frame>(self),
            },
    {
        match self {
            Frame::Trailers(t) => Ok(t),
            f => Err(f),
        }
    }
}

/// The outcome of asking a body for its next frame.
#[derive(Debug, Clone, PartialEq, Eq)]
pub enum PollFrame<E> {
    /// No frame is ready yet; ask again once the producer can make progress.
    Pending,
    /// The body is exhausted: no frame will follow.
    End,
    /// The next frame.
    Frame(Frame),
    /// The body failed; the stream is over.
    Fail(E),
}

/// Whether a poll outcome carries a data frame.
pub open spec fn step_is_data<E>(p: PollFrame<E>) -> bool {
    p matches PollFrame::Frame(Frame::Data(_))
}

/// The number of data bytes a poll outcome carries.
pub open spec fn step_data_len<E>(p: PollFrame<E>) -> nat {
    match p {
        PollFrame::Frame(Frame::Data(d)) => d@.len(),
        _ => 0,
    }
}

/// A pull-based producer of frames with error type `E`.
///
/// A body is modelled by [`Body::steps`], the sequence of poll outcomes it
/// has yet to yield: each call of [`Body::poll_frame`] returns the head of
/// that sequence and leaves the tail; an exhausted body keeps answering
/// [`PollFrame::End`].
pub trait Body<E>: Sized {
    /// The poll outcomes this body will yield, in order.
    spec fn steps(&self) -> Seq<PollFrame<E>>;

    /// The body's internal well-formedness.
    spec fn inv(&self) -> bool;

    /// The lower bound the body reports on its remaining data bytes.
    spec fn hint_lower(&self) -> u64;

    /// The upper bound the body reports on its remaining data bytes.
    spec fn hint_upper(&self) -> Option<u64>;

    /// Whether the body reports that no further frame will ever be produced.
    spec fn end_spec(&self) -> bool;

    /// The end-of-stream hint is conservative: when it is set, no data frame
    /// is left among the body's outcomes.
    proof fn end_stream_sound(&self)
        requires
            self.inv(),
            self.end_spec(),
        ensures
            forall|i: int| 0 <= i < self.steps().len() ==> !step_is_data(self.steps()[i]),
    ;

    /// The reported bounds are consistent: the lower one never exceeds a
    /// present upper one.
    proof fn hint_wf(&self)
        requires
            self.inv(),
        ensures
            self.hint_upper() matches Some(u) ==> self.hint_lower() <= u,
    ;

    /// Produce the next poll outcome: the head of [`Body::steps`], or
    /// [`PollFrame::End`] once the sequence is exhausted.
    fn poll_frame(&mut self) -> (r: PollFrame<E>)
        requires
            old(self).inv(),
        ensures
            final(self).inv(),
            old(self).steps().len() > 0 ==> r == old(self).steps()[0]
                && final(self).steps() == old(self).steps().drop_first(),
            old(self).steps().len() == 0 ==> r == PollFrame::<E>::End
                && final(self).steps() == old(self).steps(),
    ;

    /// A non-blocking hint that no further frame will ever be produced.
    fn is_end_stream(&self) -> (r: bool)
        requires
            self.inv(),
        ensures
            r == self.end_spec(),
    ;

    /// The advisory bounds on the remaining data bytes.
    fn size_hint(&self) -> (r: SizeHint)
        requires
            self.inv(),
        ensures
            r.spec_lower() == self.hint_lower(),
            r.spec_upper() == self.hint_upper(),
    ;
}

} // verus!
