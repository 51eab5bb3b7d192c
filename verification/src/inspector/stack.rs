//! The call stack of a running session: one frame per call that has been
//! entered and has not yet returned.

use vstd::prelude::*;

verus! {

/// One call in progress.
#[derive(Debug, Clone, PartialEq, Eq)]
pub struct CallFrame {
    /// The name of the called function.
    pub function: String,
    /// A summary of the arguments it was called with, where there were any.
    pub args: Option<String>,
    /// How many calls were in progress when this one was entered.
    pub depth: usize,
}

/// Every frame sits at the depth that is its position in the stack.
pub open spec fn frames_in_order(frames: Seq<CallFrame>) -> bool {
    forall|i: int| 0 <= i < frames.len() ==> (#[trigger] frames[i]).depth == i
}

/// Tracks call frames: pushed on call entry, popped on return, dropped
/// together when a session unwinds.
#[derive(Debug)]
pub struct CallStackInspector {
    frames: Vec<CallFrame>,
}

impl CallStackInspector {
    /// The frames, outermost call first.
    pub closed spec fn frames(&self) -> Seq<CallFrame> {
        self.frames@
    }

    /// Holds of every stack: each frame sits at its depth.
    #[verifier::type_invariant]
    pub open spec fn wf(&self) -> bool {
        frames_in_order(self.frames())
    }

    /// An empty stack.
    pub fn new() -> (r: Self)
        ensures
            r.frames() == Seq::<CallFrame>::empty(),
            r.wf(),
    {
        CallStackInspector { frames: Vec::new() }
    }

    /// The number of calls in progress.
    pub fn depth(&self) -> (d: usize)
        ensures
            d == self.frames().len(),
    {
        self.frames.len()
    }

    /// The frames as they stand, outermost call first, each at the depth
    /// that is its position.
    pub fn get_stack(&self) -> (r: &Vec<CallFrame>)
        ensures
            r@ == self.frames(),
            frames_in_order(r@),
    {
        proof {
            use_type_invariant(self);
        }
        &self.frames
    }

    /// Records the entry into `function`: a new innermost frame at the
    /// current depth.
    pub fn push(self, function: String, args: Option<String>) -> (r: Self)
        ensures
            r.frames() == self.frames().push(
                CallFrame { function, args, depth: self.frames().len() as usize },
            ),
            r.wf(),
    {
        proof {
            use_type_invariant(&self);
        }
        let mut frames = self.frames;
        let depth = frames.len();
        frames.push(CallFrame { function, args, depth });
        CallStackInspector { frames }
    }

    /// Records a return: the innermost frame leaves the stack and is handed
    /// back. On an empty stack nothing changes.
    pub fn pop(self) -> (r: (Self, Option<CallFrame>))
        ensures
            self.frames().len() == 0 ==> r.1 is None && r.0.frames() == self.frames(),
            self.frames().len() > 0 ==> r.1 == Some(self.frames().last()) && r.0.frames()
                == self.frames().drop_last(),
            r.0.wf(),
    {
        proof {
            use_type_invariant(&self);
        }
        let mut frames = self.frames;
        let top = frames.pop();
        (CallStackInspector { frames }, top)
    }

    /// Drops every frame, as when a session completes or unwinds.
    pub fn clear(self) -> (r: Self)
        ensures
            r.frames() == Seq::<CallFrame>::empty(),
            r.wf(),
    {
        CallStackInspector { frames: Vec::new() }
    }
}

} // verus!
