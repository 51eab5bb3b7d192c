//! The engine that drives one call under breakpoints, as a state machine:
//! the host reports what happens, the controller answers each pause, and
//! the engine says what the host does next.

use crate::error::DebuggerError;
use crate::inspector::stack::{frames_in_order, CallFrame, CallStackInspector};
use crate::runtime::input::{check_call_args, spec_is_call_args};
use vstd::prelude::*;
use vstd::string::*;

verus! {

/// Where the engine stands in the life of a call.
#[derive(Debug, Clone, Copy, PartialEq, Eq, Structural)]
pub enum EngineState {
    /// Nothing has been asked of the engine yet.
    Idle,
    /// The host is executing.
    Running,
    /// A breakpointed call was entered; the host waits for a decision.
    PausedAtBreakpoint,
    /// The call returned; its result is held.
    Completed,
    /// The controller aborted at a pause; there is no result.
    Aborted,
    /// The host failed during the call; its error is held.
    Failed,
}

/// The controller's answer to a pause.
#[derive(Debug, Clone, Copy, PartialEq, Eq, Structural)]
pub enum Decision {
    Continue,
    Abort,
}

/// What the host does after an event.
#[derive(Debug, Clone, Copy, PartialEq, Eq, Structural)]
pub enum EngineAction {
    /// Carry on executing.
    Proceed,
    /// Hold the call that was just entered and ask the controller.
    Pause,
    /// Abandon the call without completing it.
    Unwind,
    /// Nothing is left to execute.
    Finish,
}

/// What can happen to an engine.
#[derive(Debug)]
pub enum EngineEvent {
    /// The caller asks for `function` to be executed; `args`, where given,
    /// is the text of a JSON array. This is the entry into `function`.
    Start { function: String, args: Option<String> },
    /// The host entered a nested call.
    CallEntered { function: String, args: Option<String> },
    /// The host returned from a nested call.
    CallReturned,
    /// The controller answered a pause.
    Decided(Decision),
    /// The executed function returned; `result` is its formatted outcome.
    Returned { result: String },
    /// The host failed: a trap, or the budget ran out.
    HostFailed { payload: String, budget_exceeded: bool },
}

/// The engine as a mathematical value.
#[verifier::ext_equal]
pub struct EngineModel {
    /// The names at which the engine pauses.
    pub breakpoints: Seq<Seq<char>>,
    pub state: EngineState,
    /// The calls in progress, outermost first.
    pub frames: Seq<CallFrame>,
    /// The formatted result of a completed call.
    pub result: Option<String>,
    /// The error of a failed call.
    pub failure: Option<DebuggerError>,
}

/// The error that a host failure stands for.
pub open spec fn spec_host_error(payload: String, budget_exceeded: bool) -> DebuggerError {
    if budget_exceeded {
        DebuggerError::BudgetExceeded(payload)
    } else {
        DebuggerError::Execution(payload)
    }
}

/// The name of the function that `event` enters, where it enters one.
pub open spec fn entered(event: EngineEvent) -> Option<Seq<char>> {
    match event {
        EngineEvent::Start { function, .. } => Some(function@),
        EngineEvent::CallEntered { function, .. } => Some(function@),
        _ => None,
    }
}

/// How many of `events` enter the function `name`.
pub open spec fn entries_of(events: Seq<EngineEvent>, name: Seq<char>) -> nat
    decreases events.len(),
{
    if events.len() == 0 {
        0
    } else {
        entries_of(events.drop_last(), name) + if entered(events.last()) == Some(name) {
            1nat
        } else {
            0nat
        }
    }
}

/// Every event is the entry into a nested call or the return from one.
pub open spec fn is_call_traffic(events: Seq<EngineEvent>) -> bool {
    forall|i: int|
        0 <= i < events.len() ==> (#[trigger] events[i]) is CallEntered || events[i]
            is CallReturned
}

impl EngineModel {
    /// `name` is in the breakpoint set, by exact match.
    pub open spec fn is_breakpoint(self, name: Seq<char>) -> bool {
        self.breakpoints.contains(name)
    }

    /// The stack is non-empty exactly while a call is in progress, frames
    /// sit at their depth, and a result or an error is held exactly in the
    /// state that produces it.
    pub open spec fn wf(self) -> bool {
        &&& frames_in_order(self.frames)
        &&& (self.state == EngineState::Running || self.state
            == EngineState::PausedAtBreakpoint) <==> self.frames.len() > 0
        &&& self.result is Some <==> self.state == EngineState::Completed
        &&& self.failure is Some <==> self.state == EngineState::Failed
    }

    /// Whether `event` can happen in this state.
    pub open spec fn accepts(self, event: EngineEvent) -> bool {
        match event {
            EngineEvent::Start { function, args } => self.state == EngineState::Idle && (
            args matches Some(a) ==> spec_is_call_args(a@)),
            EngineEvent::CallEntered { .. } => self.state == EngineState::Running,
            EngineEvent::CallReturned => self.state == EngineState::Running && self.frames.len()
                > 1,
            EngineEvent::Decided(_) => self.state == EngineState::PausedAtBreakpoint,
            EngineEvent::Returned { .. } => self.state == EngineState::Running,
            EngineEvent::HostFailed { .. } => self.state == EngineState::Running,
        }
    }

    /// The engine after the entry into `function`: a new innermost frame,
    /// and a pause where the name is a breakpoint.
    pub open spec fn enter(self, function: String, args: Option<String>) -> EngineModel {
        EngineModel {
            state: if self.is_breakpoint(function@) {
                EngineState::PausedAtBreakpoint
            } else {
                EngineState::Running
            },
            frames: self.frames.push(
                CallFrame { function, args, depth: self.frames.len() as usize },
            ),
            ..self
        }
    }

    /// The engine after `event`. An event that cannot happen changes
    /// nothing.
    pub open spec fn step(self, event: EngineEvent) -> EngineModel {
        if !self.accepts(event) {
            self
        } else {
            match event {
                EngineEvent::Start { function, args } => self.enter(function, args),
                EngineEvent::CallEntered { function, args } => self.enter(function, args),
                EngineEvent::CallReturned => EngineModel {
                    frames: self.frames.drop_last(),
                    ..self
                },
                EngineEvent::Decided(Decision::Continue) => EngineModel {
                    state: EngineState::Running,
                    ..self
                },
                EngineEvent::Decided(Decision::Abort) => EngineModel {
                    state: EngineState::Aborted,
                    frames: Seq::empty(),
                    ..self
                },
                EngineEvent::Returned { result } => EngineModel {
                    state: EngineState::Completed,
                    frames: Seq::empty(),
                    result: Some(result),
                    ..self
                },
                EngineEvent::HostFailed { payload, budget_exceeded } => EngineModel {
                    state: EngineState::Failed,
                    frames: Seq::empty(),
                    failure: Some(spec_host_error(payload, budget_exceeded)),
                    ..self
                },
            }
        }
    }

    /// What the host does after an event that can happen.
    pub open spec fn action(self, event: EngineEvent) -> EngineAction {
        match event {
            EngineEvent::Start { function, .. } => self.action_on_entry(function@),
            EngineEvent::CallEntered { function, .. } => self.action_on_entry(function@),
            EngineEvent::CallReturned => EngineAction::Proceed,
            EngineEvent::Decided(Decision::Continue) => EngineAction::Proceed,
            EngineEvent::Decided(Decision::Abort) => EngineAction::Unwind,
            EngineEvent::Returned { .. } => EngineAction::Finish,
            EngineEvent::HostFailed { .. } => EngineAction::Finish,
        }
    }

    /// What the host does after the entry into `function`.
    pub open spec fn action_on_entry(self, function: Seq<char>) -> EngineAction {
        if self.is_breakpoint(function) {
            EngineAction::Pause
        } else {
            EngineAction::Proceed
        }
    }

    /// The engine after the host produced `events` one by one, with a
    /// controller that answers every pause with `Continue`.
    pub open spec fn run_continuing(self, events: Seq<EngineEvent>) -> EngineModel
        decreases events.len(),
    {
        if events.len() == 0 {
            self
        } else {
            let after = self.run_continuing(events.drop_last()).step(events.last());
            if after.state == EngineState::PausedAtBreakpoint {
                after.step(EngineEvent::Decided(Decision::Continue))
            } else {
                after
            }
        }
    }

    /// How often the engine paused on the way through `events`, with a
    /// controller that answers every pause with `Continue`.
    pub open spec fn pauses_continuing(self, events: Seq<EngineEvent>) -> nat
        decreases events.len(),
    {
        if events.len() == 0 {
            0
        } else {
            let after = self.run_continuing(events.drop_last()).step(events.last());
            self.pauses_continuing(events.drop_last()) + if after.state
                == EngineState::PausedAtBreakpoint {
                1nat
            } else {
                0nat
            }
        }
    }

    /// How many of `events` enter a function whose name is a breakpoint.
    pub open spec fn breakpoint_entries(self, events: Seq<EngineEvent>) -> nat
        decreases events.len(),
    {
        if events.len() == 0 {
            0
        } else {
            self.breakpoint_entries(events.drop_last()) + if entered(events.last()) matches Some(
                name,
            ) && self.is_breakpoint(name) {
                1nat
            } else {
                0nat
            }
        }
    }

    /// From `Idle`, a call whose arguments are accepted and whose host goes
    /// through any sequence of nested entries and returns keeps the engine
    /// running, pausing once for every entry into a breakpointed function
    /// and never otherwise, and completes with the result when the function
    /// returns.
    pub proof fn lemma_pauses_once_per_breakpoint_entry(
        self,
        function: String,
        args: Option<String>,
        calls: Seq<EngineEvent>,
        result: String,
    )
        requires
            self.state == EngineState::Idle,
            args matches Some(a) ==> spec_is_call_args(a@),
            is_call_traffic(calls),
        ensures
            ({
                let events = seq![EngineEvent::Start { function, args }] + calls;
                let end = self.run_continuing(events);
                &&& end.state == EngineState::Running
                &&& end.breakpoints == self.breakpoints
                &&& self.pauses_continuing(events) == self.breakpoint_entries(events)
                &&& end.step(EngineEvent::Returned { result }).state == EngineState::Completed
                &&& end.step(EngineEvent::Returned { result }).result == Some(result)
                &&& self.pauses_continuing(events.push(EngineEvent::Returned { result }))
                    == self.breakpoint_entries(events)
            }),
        decreases calls.len(),
    {
        let start = EngineEvent::Start { function, args };
        let events = seq![start] + calls;
        if calls.len() == 0 {
            assert(self.pauses_continuing(events.drop_last()) == 0);
            assert(self.breakpoint_entries(events.drop_last()) == 0);
        } else {
            self.lemma_pauses_once_per_breakpoint_entry(function, args, calls.drop_last(), result);
            assert(events.drop_last() =~= seq![start] + calls.drop_last());
        }
        let whole = events.push(EngineEvent::Returned { result });
        assert(whole.drop_last() =~= events);
    }

    /// Where `name` is the only breakpoint that `events` ever enter, the
    /// entries into breakpointed functions are the entries into `name`.
    pub proof fn lemma_single_breakpoint_entries(self, events: Seq<EngineEvent>, name: Seq<char>)
        requires
            self.is_breakpoint(name),
            forall|i: int|
                0 <= i < events.len() ==> (entered(#[trigger] events[i]) matches Some(other)
                    ==> (self.is_breakpoint(other) ==> other == name)),
        ensures
            self.breakpoint_entries(events) == entries_of(events, name),
        decreases events.len(),
    {
        if events.len() > 0 {
            self.lemma_single_breakpoint_entries(events.drop_last(), name);
        }
    }
}

/// Drives one call: holds the breakpoint set, the state, the call stack and,
/// once the call has ended, its result or its error.
#[derive(Debug)]
pub struct DebuggerEngine {
    breakpoints: Vec<String>,
    state: EngineState,
    stack: CallStackInspector,
    result: Option<String>,
    failure: Option<DebuggerError>,
}

impl View for DebuggerEngine {
    type V = EngineModel;

    closed spec fn view(&self) -> EngineModel {
        EngineModel {
            breakpoints: self.breakpoints@.map_values(|s: String| s@),
            state: self.state,
            frames: self.stack.frames(),
            result: self.result,
            failure: self.failure,
        }
    }
}

impl DebuggerEngine {
    #[verifier::type_invariant]
    spec fn inv(&self) -> bool {
        self@.wf()
    }

    /// An idle engine over the given breakpoint set.
    pub fn new(breakpoints: Vec<String>) -> (r: Self)
        ensures
            r@.state == EngineState::Idle,
            r@.breakpoints == breakpoints@.map_values(|s: String| s@),
            r@.frames.len() == 0,
            r@.result is None,
            r@.failure is None,
            r@.wf(),
    {
        let stack = CallStackInspector::new();
        DebuggerEngine { breakpoints, state: EngineState::Idle, stack, result: None, failure: None }
    }

    /// The state the engine is in.
    pub fn state(&self) -> (s: EngineState)
        ensures
            s == self@.state,
            self@.wf(),
    {
        proof {
            use_type_invariant(self);
        }
        self.state
    }

    /// The formatted result: present exactly when the call has completed.
    pub fn result(&self) -> (r: &Option<String>)
        ensures
            *r == self@.result,
            r is Some <==> self@.state == EngineState::Completed,
    {
        proof {
            use_type_invariant(self);
        }
        &self.result
    }

    /// The host's error: present exactly when the call has failed.
    pub fn failure(&self) -> (r: &Option<DebuggerError>)
        ensures
            *r == self@.failure,
            r is Some <==> self@.state == EngineState::Failed,
    {
        proof {
            use_type_invariant(self);
        }
        &self.failure
    }

    /// The calls in progress, outermost first.
    pub fn call_stack(&self) -> (r: &Vec<CallFrame>)
        ensures
            r@ == self@.frames,
            frames_in_order(r@),
    {
        self.stack.get_stack()
    }

    /// Whether the engine pauses at `name`: the name is in the breakpoint
    /// set, letter for letter.
    pub fn is_breakpoint(&self, name: &String) -> (r: bool)
        ensures
            r == self@.is_breakpoint(name@),
    {
        let ghost names = self.breakpoints@.map_values(|s: String| s@);
        let mut i: usize = 0;
        while i < self.breakpoints.len()
            invariant
                i <= self.breakpoints@.len(),
                names == self.breakpoints@.map_values(|s: String| s@),
                forall|j: int| 0 <= j < i ==> #[trigger] names[j] != name@,
            decreases self.breakpoints@.len() - i,
        {
            if self.breakpoints[i] == *name {
                assert(names[i as int] == name@);
                return true;
            }
            i = i + 1;
        }
        false
    }

    /// Enters `function`: a new innermost frame, and a pause where the name
    /// is a breakpoint.
    fn enter(self, function: String, args: Option<String>) -> (r: (
        DebuggerEngine,
        Result<EngineAction, DebuggerError>,
    ))
        requires
            self@.state == EngineState::Idle || self@.state == EngineState::Running,
        ensures
            r.0@ =~= self@.enter(function, args),
            r.0@.wf(),
            r.1 == Ok::<EngineAction, DebuggerError>(self@.action_on_entry(function@)),
    {
        proof {
            use_type_invariant(&self);
        }
        let pause = self.is_breakpoint(&function);
        let DebuggerEngine { breakpoints, state, stack, result, failure } = self;
        let stack = stack.push(function, args);
        let (state, action) = if pause {
            (EngineState::PausedAtBreakpoint, EngineAction::Pause)
        } else {
            (EngineState::Running, EngineAction::Proceed)
        };
        (DebuggerEngine { breakpoints, state, stack, result, failure }, Ok(action))
    }

    /// Takes in one event. An event that can happen in the current state
    /// moves the engine as `EngineModel::step` says and yields the action
    /// for the host. Any other event leaves the engine as it was and is
    /// refused: call arguments that are not a JSON array with `ArgsParse`
    /// carrying them, everything else with `PreconditionViolation`.
    pub fn step(self, event: EngineEvent) -> (r: (DebuggerEngine, Result<EngineAction, DebuggerError>))
        ensures
            r.0@ =~= self@.step(event),
            r.0@.wf(),
            self@.accepts(event) ==> r.1 == Ok::<EngineAction, DebuggerError>(
                self@.action(event),
            ),
            !self@.accepts(event) ==> r.1 is Err,
            !self@.accepts(event) ==> (r.1->Err_0 is ArgsParse <==> (self@.state
                == EngineState::Idle && event is Start)),
            !self@.accepts(event) ==> (r.1->Err_0 is PreconditionViolation <==> !(self@.state
                == EngineState::Idle && event is Start)),
            !self@.accepts(event) && self@.state == EngineState::Idle ==> (event matches EngineEvent::Start {
                args: Some(a),
                ..
            } ==> (r.1 matches Err(DebuggerError::ArgsParse(t)) && t@ == a@)),
    {
        proof {
            use_type_invariant(&self);
        }
        match event {
            EngineEvent::Start { function, args } => {
                if self.state != EngineState::Idle {
                    return (self, Err(refusal()));
                }
                if let Some(a) = &args {
                    if let Err(e) = check_call_args(a.as_str()) {
                        return (self, Err(e));
                    }
                }
                self.enter(function, args)
            },
            EngineEvent::CallEntered { function, args } => {
                if self.state != EngineState::Running {
                    return (self, Err(refusal()));
                }
                self.enter(function, args)
            },
            EngineEvent::CallReturned => {
                if self.state != EngineState::Running || self.stack.depth() <= 1 {
                    return (self, Err(refusal()));
                }
                let DebuggerEngine { breakpoints, state, stack, result, failure } = self;
                let (stack, _) = stack.pop();
                (
                    DebuggerEngine { breakpoints, state, stack, result, failure },
                    Ok(EngineAction::Proceed),
                )
            },
            EngineEvent::Decided(decision) => {
                if self.state != EngineState::PausedAtBreakpoint {
                    return (self, Err(refusal()));
                }
                let DebuggerEngine { breakpoints, state, stack, result, failure } = self;
                match decision {
                    Decision::Continue => {
                        (
                            DebuggerEngine {
                                breakpoints,
                                state: EngineState::Running,
                                stack,
                                result,
                                failure,
                            },
                            Ok(EngineAction::Proceed),
                        )
                    },
                    Decision::Abort => {
                        let stack = stack.clear();
                        (
                            DebuggerEngine {
                                breakpoints,
                                state: EngineState::Aborted,
                                stack,
                                result,
                                failure,
                            },
                            Ok(EngineAction::Unwind),
                        )
                    },
                }
            },
            EngineEvent::Returned { result: outcome } => {
                if self.state != EngineState::Running {
                    return (self, Err(refusal()));
                }
                let DebuggerEngine { breakpoints, state, stack, result, failure } = self;
                let stack = stack.clear();
                (
                    DebuggerEngine {
                        breakpoints,
                        state: EngineState::Completed,
                        stack,
                        result: Some(outcome),
                        failure,
                    },
                    Ok(EngineAction::Finish),
                )
            },
            EngineEvent::HostFailed { payload, budget_exceeded } => {
                if self.state != EngineState::Running {
                    return (self, Err(refusal()));
                }
                let DebuggerEngine { breakpoints, state, stack, result, failure } = self;
                let stack = stack.clear();
                let error = if budget_exceeded {
                    DebuggerError::BudgetExceeded(payload)
                } else {
                    DebuggerError::Execution(payload)
                };
                (
                    DebuggerEngine {
                        breakpoints,
                        state: EngineState::Failed,
                        stack,
                        result,
                        failure: Some(error),
                    },
                    Ok(EngineAction::Finish),
                )
            },
        }
    }
}

/// The error for an event that cannot happen in the engine's state.
fn refusal() -> (e: DebuggerError)
    ensures
        e is PreconditionViolation,
{
    DebuggerError::PreconditionViolation("event not allowed in this state".to_owned())
}

} // verus!
