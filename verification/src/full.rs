//! A body that yields one data frame holding a fixed chunk.

use vstd::prelude::*;
use crate::body::{Body, Frame, PollFrame};
use crate::size_hint::SizeHint;

verus! {

/// A body made of a single chunk of data bytes, yielded as one frame.
///
/// An empty chunk makes an immediately exhausted body. The error type `E` is
/// free: a `Full` never fails.
#[derive(Debug)]
pub struct Full<E> {
    /// The chunk not yet yielded, if any.
    pub chunk: Option<Vec<u8>>,
    /// Marker tying the body to its (never produced) error type.
    pub error: core::marker::PhantomData<E>,
}

impl<E> Full<E> {
    /// A body that yields `chunk` as one data frame, or nothing when `chunk`
    /// is empty.
    pub fn new(chunk: Vec<u8>) -> (r: Full<E>)
        ensures
            chunk@.len() > 0 ==> r.chunk == Some(chunk),
            chunk@.len() == 0 ==> r.chunk is None,
    {
        if chunk.len() > 0 {
            Full { chunk: Some(chunk), error: core::marker::PhantomData }
        } else {
            Full { chunk: None, error: core::marker::PhantomData }
        }
    }
}

impl<E> Body<E> for Full<E> {
    open spec fn steps(&self) -> Seq<PollFrame<E>> {
        match self.chunk {
            Some(d) => seq![PollFrame::Frame(Frame::Data(d))],
            None => Seq::empty(),
        }
    }

    open spec fn inv(&self) -> bool {
        true
    }

    open spec fn hint_lower(&self) -> u64 {
        match self.chunk {
            Some(d) => d@.len() as u64,
            None => 0,
        }
    }

    open spec fn hint_upper(&self) -> Option<u64> {
        Some(self.hint_lower())
    }

    open spec fn end_spec(&self) -> bool {
        self.chunk is None
    }

    proof fn end_stream_sound(&self) {
    }

    proof fn hint_wf(&self) {
    }

    fn poll_frame(&mut self) -> (r: PollFrame<E>) {
        match self.chunk.take() {
            Some(d) => PollFrame::Frame(Frame::Data(d)),
            None => PollFrame::End,
        }
    }

    fn is_end_stream(&self) -> (r: bool) {
        self.chunk.is_none()
    }

    fn size_hint(&self) -> (r: SizeHint) {
        match &self.chunk {
            Some(d) => SizeHint::with_exact(d.len() as u64),
            None => SizeHint::with_exact(0),
        }
    }
}

} // verus!
