//! A body that yields a fixed script of poll outcomes.

use vstd::prelude::*;
use crate::body::{Body, PollFrame};
use crate::size_hint::SizeHint;

verus! {

/// A body driven by an explicit script: each poll yields the next scripted
/// outcome, and `End` once the script is used up.
///
/// It reports no bound on its remaining bytes (lower bound zero, no upper
/// bound), like a producer wrapping an arbitrary stream.
#[derive(Clone, Debug)]
pub struct ScriptBody<E> {
    /// The outcomes not yet yielded, front first.
    pub script: Vec<PollFrame<E>>,
}

impl<E> ScriptBody<E> {
    /// A body that yields exactly the outcomes of `script`, in order.
    pub fn new(script: Vec<PollFrame<E>>) -> (r: ScriptBody<E>)
        ensures
            r.script == script,
    {
        ScriptBody { script }
    }
}

impl<E> Body<E> for ScriptBody<E> {
    open spec fn steps(&self) -> Seq<PollFrame<E>> {
        self.script@
    }

    open spec fn inv(&self) -> bool {
        true
    }

    open spec fn hint_lower(&self) -> u64 {
        0
    }

    open spec fn hint_upper(&self) -> Option<u64> {
        None
    }

    open spec fn end_spec(&self) -> bool {
        self.script@.len() == 0
    }

    proof fn end_stream_sound(&self) {
    }

    proof fn hint_wf(&self) {
    }

    fn poll_frame(&mut self) -> (r: PollFrame<E>) {
        if self.script.len() > 0 {
            let r = self.script.remove(0);
            proof {
                assert(self.script@ =~= old(self).script@.drop_first());
            }
            r
        } else {
            PollFrame::End
        }
    }

    fn is_end_stream(&self) -> (r: bool) {
        self.script.len() == 0
    }

    fn size_hint(&self) -> (r: SizeHint) {
        SizeHint::new()
    }
}

} // verus!
