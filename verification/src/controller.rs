//! Controller: the event-loop state machine.
//!
//! Each iteration of the dashboard's cooperative loop polls the keyboard,
//! takes at most one pending reading from the reader task, and decides what
//! follows: keep running and render, or terminate. The decision, and how the
//! reading history changes, is the verified `step`; the polling, channel and
//! drawing around it are unverified plumbing.

use vstd::prelude::*;

use crate::history::push_spec;
use crate::history::Reading;
use crate::history::ReadingHistory;

verus! {

/// The two states of the event loop.
#[derive(Clone, Copy, PartialEq, Eq, Structural, Debug)]
pub enum ControlState {
    Running,
    Terminating,
}

/// What one poll of the keyboard yielded.
#[derive(Clone, Copy, PartialEq, Eq, Structural, Debug)]
pub enum KeyPoll {
    /// The quit key was pressed.
    Quit,
    /// Some other key was pressed.
    Other,
    /// No key arrived within the poll timeout.
    NoKey,
}

/// What the loop must do after a step.
#[derive(Clone, Copy, PartialEq, Eq, Structural, Debug)]
pub enum StepAction {
    /// Draw the current history and iterate again.
    Render,
    /// Restore the terminal and exit; nothing is read, polled or drawn again.
    Cleanup,
    /// The loop is already past its end; nothing happens.
    Idle,
}

/// One step of the event loop: the next state, the new history contents, and
/// the action owed. In the running state the quit key terminates the loop at
/// once, with the history untouched and nothing rendered; any other poll
/// result applies the pending reading (when there is one) and renders. In
/// the terminating state nothing changes and nothing is rendered.
pub open spec fn step_spec(
    st: ControlState,
    key: KeyPoll,
    incoming: Option<Reading>,
    h: Seq<Reading>,
    cap: nat,
) -> (ControlState, Seq<Reading>, StepAction) {
    if st is Terminating {
        (ControlState::Terminating, h, StepAction::Idle)
    } else if key is Quit {
        (ControlState::Terminating, h, StepAction::Cleanup)
    } else {
        let h2 = match incoming {
            Some(r) => push_spec(h, cap, r),
            None => h,
        };
        (ControlState::Running, h2, StepAction::Render)
    }
}

/// The event loop's state: where the loop stands, and the reading history it
/// exclusively owns.
pub struct Controller {
    state: ControlState,
    history: ReadingHistory,
}

impl Controller {
    /// Where the loop stands.
    pub closed spec fn state_spec(&self) -> ControlState {
        self.state
    }

    /// The readings currently held, oldest first.
    pub closed spec fn hist(&self) -> Seq<Reading> {
        self.history@
    }

    /// The capacity of the reading history.
    pub closed spec fn cap(&self) -> nat {
        self.history.cap()
    }

    /// Invariant: the history never holds more than its capacity.
    pub open spec fn wf(&self) -> bool {
        1 <= self.cap() && self.hist().len() <= self.cap()
    }

    /// A running controller with an empty history of the given capacity.
    pub fn new(capacity: usize) -> (c: Self)
        requires
            1 <= capacity,
        ensures
            c.wf(),
            c.state_spec() is Running,
            c.hist() == Seq::<Reading>::empty(),
            c.cap() == capacity,
    {
        Controller { state: ControlState::Running, history: ReadingHistory::new(capacity) }
    }

    /// Apply one iteration of the event loop to the controller.
    pub fn step(&mut self, key: KeyPoll, incoming: Option<Reading>) -> (a: StepAction)
        requires
            old(self).wf(),
        ensures
            final(self).wf(),
            final(self).cap() == old(self).cap(),
            (final(self).state_spec(), final(self).hist(), a) == step_spec(
                old(self).state_spec(),
                key,
                incoming,
                old(self).hist(),
                old(self).cap(),
            ),
    {
        match self.state {
            ControlState::Terminating => StepAction::Idle,
            ControlState::Running => {
                if matches!(key, KeyPoll::Quit) {
                    self.state = ControlState::Terminating;
                    StepAction::Cleanup
                } else {
                    if let Some(r) = incoming {
                        self.history.push(r);
                    }
                    StepAction::Render
                }
            },
        }
    }

    /// Read-only view of the history for rendering, oldest first.
    pub fn snapshot(&self) -> (s: &Vec<Reading>)
        ensures
            s@ == self.hist(),
    {
        self.history.snapshot()
    }
}

/// Quit control law: in the running state the quit key moves the loop to the
/// terminating state with the history untouched and the terminal restore as
/// the only action owed; and the terminating state is absorbing — no step
/// out of it renders, changes the history, or leaves it.
pub proof fn lemma_quit_control(key: KeyPoll, incoming: Option<Reading>, h: Seq<Reading>, cap: nat)
    ensures
        step_spec(ControlState::Running, KeyPoll::Quit, incoming, h, cap) == (
            (ControlState::Terminating, h, StepAction::Cleanup)
        ),
        step_spec(ControlState::Terminating, key, incoming, h, cap) == (
            (ControlState::Terminating, h, StepAction::Idle)
        ),
{
}

} // verus!
