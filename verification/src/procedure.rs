//! The attachment procedure as a state machine.
//!
//! The procedure never touches the window manager itself. It names the next
//! [`Request`], the caller performs it and hands back the [`Reply`], and the
//! procedure decides from that what comes next:
//!
//! 1. look up the shell root by its class;
//! 2. send it the message that makes it create the compositing host, waiting a
//!    bounded time and ignoring what comes of it;
//! 3. walk the top-level windows in the window manager's order, asking each for
//!    a child of the icon-view class;
//! 4. at a window that has such a child, ask for the compositing host that
//!    follows that window; if there is none, go on with the next window;
//! 5. at the first window for which a host is found, stop walking and make
//!    that host the parent of the target window.
//!
//! A missing shell root, a notification that fails and a host that cannot be
//! found are no errors: the procedure goes on, and where the enumeration runs
//! out before a host is found it ends and the target window stays as it was.

use crate::handle::WindowHandle;
use crate::protocol::{Reply, Request, WindowClass, NOTIFY_TIMEOUT_MS, SPAWN_HOST_MESSAGE};
use vstd::prelude::*;

verus! {

/// Where the procedure stands.
#[derive(Clone, Copy, Debug, PartialEq, Eq, Hash, Structural)]
pub enum Phase {
    /// The shell root is being looked up.
    ResolvingShell,
    /// The shell root `root`, which may be null, is being notified.
    Notifying { root: WindowHandle },
    /// The next top-level window is being taken from the enumeration.
    Enumerating,
    /// The top-level window `window` is being asked for an icon-view child.
    ProbingIconView { window: WindowHandle },
    /// `window` has an icon-view child; the compositing host after it is being
    /// looked up.
    ProbingHost { window: WindowHandle },
    /// The target is being made a child of `container`.
    Reparenting { container: WindowHandle },
    /// The procedure has ended after asking for the target to be made a child
    /// of `container`.
    Attached { container: WindowHandle },
    /// The procedure has ended without finding a compositing host: the
    /// enumeration ran out. The target was not touched.
    NotFound,
}

/// The procedure's state as a plain value: the model that the contracts of
/// [`Procedure`] speak of.
#[derive(Clone, Copy, Debug, PartialEq, Eq, Hash, Structural)]
pub struct State {
    /// The window to attach.
    pub target: WindowHandle,
    /// How far the procedure has come.
    pub phase: Phase,
}

impl State {
    /// The state in which the procedure for `target` begins.
    pub open spec fn initial(target: WindowHandle) -> State {
        State { target, phase: Phase::ResolvingShell }
    }

    /// What holds of every state that the procedure reaches: the target is a
    /// window, and so is a container that the target is given to.
    pub open spec fn sound(self) -> bool {
        &&& !self.target.absent()
        &&& match self.phase {
            Phase::Reparenting { container } => !container.absent(),
            Phase::Attached { container } => !container.absent(),
            _ => true,
        }
    }

    /// Whether the procedure has ended.
    pub open spec fn finished(self) -> bool {
        self.phase is Attached || self.phase is NotFound
    }

    /// The request that the procedure waits to have answered; `None` once it
    /// has ended.
    pub open spec fn pending(self) -> Option<Request> {
        match self.phase {
            Phase::ResolvingShell => Some(Request::FindWindow { class: WindowClass::ShellRoot }),
            Phase::Notifying { root } => Some(
                Request::SendMessage {
                    to: root,
                    message: SPAWN_HOST_MESSAGE,
                    timeout_ms: NOTIFY_TIMEOUT_MS,
                },
            ),
            Phase::Enumerating => Some(Request::NextWindow),
            Phase::ProbingIconView { window } => Some(
                Request::FindChild { parent: window, class: WindowClass::IconView },
            ),
            Phase::ProbingHost { window } => Some(
                Request::FindSibling { after: window, class: WindowClass::CompositingHost },
            ),
            Phase::Reparenting { container } => Some(
                Request::SetParent { child: self.target, parent: container },
            ),
            Phase::Attached { .. } => None,
            Phase::NotFound => None,
        }
    }

    /// Whether the walk over the top-level windows is over: a compositing host
    /// has been found, or the enumeration has run out.
    pub open spec fn past_walk(self) -> bool {
        ||| self.phase is Reparenting
        ||| self.phase is Attached
        ||| self.phase is NotFound
    }

    /// Whether `reply` answers the pending request.
    pub open spec fn accepts(self, reply: Reply) -> bool {
        match self.pending() {
            Some(request) => request.answered_by(reply),
            None => false,
        }
    }

    /// The state after `reply` has been handed in. A reply that does not answer
    /// the pending request changes nothing.
    pub open spec fn next(self, reply: Reply) -> State {
        let phase = match (self.phase, reply) {
            (Phase::ResolvingShell, Reply::Found(root)) => Phase::Notifying { root },
            (Phase::Notifying { .. }, Reply::Performed) => Phase::Enumerating,
            (Phase::Enumerating, Reply::Window(window)) => Phase::ProbingIconView { window },
            (Phase::Enumerating, Reply::NoMoreWindows) => Phase::NotFound,
            (Phase::ProbingIconView { window }, Reply::Found(child)) => if child.absent() {
                Phase::Enumerating
            } else {
                Phase::ProbingHost { window }
            },
            (Phase::ProbingHost { .. }, Reply::Found(host)) => if host.absent() {
                Phase::Enumerating
            } else {
                Phase::Reparenting { container: host }
            },
            (Phase::Reparenting { container }, Reply::Performed) => Phase::Attached { container },
            (phase, _) => phase,
        };
        State { target: self.target, phase }
    }
}

/// Why a reply was turned away.
#[derive(Clone, Copy, Debug, PartialEq, Eq, Hash, Structural)]
pub enum StepError {
    /// The procedure has ended and waits for no reply.
    Finished,
    /// The reply is of another kind than the pending request asks for.
    UnexpectedReply,
}

/// One run of the attachment procedure for one target window.
///
/// Every value of this type is in a state that the procedure can reach: see
/// [`State::sound`].
#[derive(Clone, Copy, Debug)]
pub struct Procedure {
    state: State,
}

impl View for Procedure {
    type V = State;

    closed spec fn view(&self) -> State {
        self.state
    }
}

impl Procedure {
    #[verifier::type_invariant]
    spec fn reachable(self) -> bool {
        self@.sound()
    }

    /// Starts the procedure for `target`, which must be the handle of an
    /// existing window.
    pub fn begin(target: WindowHandle) -> (procedure: Self)
        requires
            !target.absent(),
        ensures
            procedure@ == State::initial(target),
    {
        Procedure { state: State { target, phase: Phase::ResolvingShell } }
    }

    /// Takes the answer to the pending request and returns the request that is
    /// pending next, or `None` if the procedure has ended with this reply.
    ///
    /// A reply that does not answer the pending request is turned away and
    /// leaves the procedure where it was.
    pub fn step(&mut self, reply: Reply) -> (result: Result<Option<Request>, StepError>)
        ensures
            final(self)@ == old(self)@.next(reply),
            final(self)@.sound(),
            match result {
                Ok(request) => old(self)@.accepts(reply) && request == final(self)@.pending(),
                Err(StepError::Finished) => old(self)@.finished() && final(self)@ == old(self)@,
                Err(StepError::UnexpectedReply) => {
                    &&& !old(self)@.finished()
                    &&& !old(self)@.accepts(reply)
                    &&& final(self)@ == old(self)@
                },
            },
    {
        proof {
            use_type_invariant(&*self);
        }
        let next = match (self.state.phase, reply) {
            (Phase::ResolvingShell, Reply::Found(root)) => Phase::Notifying { root },
            (Phase::Notifying { .. }, Reply::Performed) => Phase::Enumerating,
            (Phase::Enumerating, Reply::Window(window)) => Phase::ProbingIconView { window },
            (Phase::Enumerating, Reply::NoMoreWindows) => Phase::NotFound,
            (Phase::ProbingIconView { window }, Reply::Found(child)) => {
                if child.is_null() {
                    Phase::Enumerating
                } else {
                    Phase::ProbingHost { window }
                }
            },
            (Phase::ProbingHost { .. }, Reply::Found(host)) => {
                if host.is_null() {
                    Phase::Enumerating
                } else {
                    Phase::Reparenting { container: host }
                }
            },
            (Phase::Reparenting { container }, Reply::Performed) => Phase::Attached { container },
            (Phase::Attached { .. }, _) => {
                return Err(StepError::Finished);
            },
            (Phase::NotFound, _) => {
                return Err(StepError::Finished);
            },
            _ => {
                return Err(StepError::UnexpectedReply);
            },
        };
        self.state.phase = next;
        Ok(self.pending())
    }

    /// The request that waits to be answered; `None` once the procedure has
    /// ended.
    pub fn pending(&self) -> (request: Option<Request>)
        ensures
            request == self@.pending(),
            self@.sound(),
    {
        proof {
            use_type_invariant(self);
        }
        match self.state.phase {
            Phase::ResolvingShell => Some(Request::FindWindow { class: WindowClass::ShellRoot }),
            Phase::Notifying { root } => Some(
                Request::SendMessage {
                    to: root,
                    message: SPAWN_HOST_MESSAGE,
                    timeout_ms: NOTIFY_TIMEOUT_MS,
                },
            ),
            Phase::Enumerating => Some(Request::NextWindow),
            Phase::ProbingIconView { window } => Some(
                Request::FindChild { parent: window, class: WindowClass::IconView },
            ),
            Phase::ProbingHost { window } => Some(
                Request::FindSibling { after: window, class: WindowClass::CompositingHost },
            ),
            Phase::Reparenting { container } => Some(
                Request::SetParent { child: self.state.target, parent: container },
            ),
            Phase::Attached { .. } => None,
            Phase::NotFound => None,
        }
    }

    /// The window that the procedure attaches. It is never the null handle.
    pub fn target(&self) -> (target: WindowHandle)
        ensures
            target == self@.target,
            !target.absent(),
    {
        proof {
            use_type_invariant(self);
        }
        self.state.target
    }

    /// Where the procedure stands.
    pub fn phase(&self) -> (phase: Phase)
        ensures
            phase == self@.phase,
            self@.sound(),
    {
        proof {
            use_type_invariant(self);
        }
        self.state.phase
    }

    /// Whether the procedure has ended.
    pub fn is_finished(&self) -> (finished: bool)
        ensures
            finished == self@.finished(),
    {
        match self.state.phase {
            Phase::Attached { .. } => true,
            Phase::NotFound => true,
            _ => false,
        }
    }

    /// The container that the target was given to: `Some` once the procedure
    /// has ended with the request to re-parent the target, `None` before that
    /// and when it ended without one. The container is never the null handle.
    pub fn container(&self) -> (container: Option<WindowHandle>)
        ensures
            (container == match self@.phase {
                Phase::Attached { container } => Some(container),
                _ => None,
            }),
            container matches Some(window) ==> !window.absent(),
    {
        proof {
            use_type_invariant(self);
        }
        match self.state.phase {
            Phase::Attached { container } => Some(container),
            _ => None,
        }
    }
}

/// A procedure begun for a window is in a sound state, and every reply leaves
/// it in one, with the same target.
pub proof fn lemma_sound_throughout(state: State, reply: Reply)
    ensures
        !state.target.absent() ==> State::initial(state.target).sound(),
        state.next(reply).target == state.target,
        state.sound() ==> state.next(reply).sound(),
{
}

/// The walk ends at the first window after which a compositing host is found,
/// and nowhere else short of the end of the enumeration. A window without an
/// icon-view child is passed over, and so is one with such a child and no host
/// after it. The host is looked up only after a window that has just reported
/// an icon-view child. Once the walk is over the procedure takes no further
/// window from the enumeration and makes no further lookup.
pub proof fn lemma_walk_ends_at_container(state: State, reply: Reply)
    ensures
        state.phase is ProbingIconView && reply is Found && reply->Found_0.absent()
            ==> state.next(reply).phase == Phase::Enumerating,
        state.phase is ProbingIconView && reply is Found && !reply->Found_0.absent()
            ==> state.next(reply).phase == (Phase::ProbingHost {
            window: state.phase->ProbingIconView_window,
        }),
        state.phase is ProbingHost && reply is Found && reply->Found_0.absent() ==> state.next(
            reply,
        ).phase == Phase::Enumerating,
        state.phase is ProbingHost && reply is Found && !reply->Found_0.absent() ==> state.next(
            reply,
        ).phase == (Phase::Reparenting { container: reply->Found_0 }),
        state.accepts(reply) && state.next(reply).phase is ProbingHost ==> {
            &&& state.phase is ProbingIconView
            &&& state.next(reply).phase->ProbingHost_window == state.phase->ProbingIconView_window
            &&& reply is Found
            &&& !reply->Found_0.absent()
        },
        state.accepts(reply) && state.next(reply).past_walk() && !state.past_walk() ==> {
            ||| state.phase is Enumerating && reply is NoMoreWindows
            ||| state.phase is ProbingHost && reply is Found && !reply->Found_0.absent()
        },
        state.past_walk() ==> {
            &&& state.next(reply).past_walk()
            &&& !(state.next(reply).pending() == Some(Request::NextWindow))
            &&& (!(state.next(reply).pending() matches Some(Request::FindChild { .. })))
            &&& (!(state.next(reply).pending() matches Some(Request::FindSibling { .. })))
        },
{
}

/// The procedure asks for a window to be given a parent in one situation only:
/// the lookup of the compositing host has just found a window. The child is
/// then the target and the parent is the window found, which is not the null
/// handle.
pub proof fn lemma_reparent_needs_container(state: State, reply: Reply)
    requires
        state.accepts(reply),
    ensures
        (state.next(reply).pending() matches Some(Request::SetParent { child, parent }) ==> {
            &&& state.phase is ProbingHost
            &&& reply == Reply::Found(parent)
            &&& !parent.absent()
            &&& child == state.target
        }),
{
}

/// In a sound state a pending request to give a window a parent names the
/// target as the child and a window, not the null handle, as the parent.
pub proof fn lemma_pending_reparent_has_container(state: State)
    requires
        state.sound(),
    ensures
        (state.pending() matches Some(Request::SetParent { child, parent }) ==> {
            &&& child == state.target
            &&& !child.absent()
            &&& !parent.absent()
        }),
{
}

/// The shell is notified whether the shell root `root` was found or not. Every
/// request to notify carries the fixed message and the fixed bound on the
/// wait. Once the request is answered the procedure goes on to the
/// enumeration: the answer says nothing of what came of the message.
pub proof fn lemma_notification_carries_timeout(state: State, root: WindowHandle)
    ensures
        state.phase is ResolvingShell ==> state.next(Reply::Found(root)).phase
            == (Phase::Notifying { root }),
        (state.pending() matches Some(Request::SendMessage { to, message, timeout_ms }) ==> {
            &&& state.phase == (Phase::Notifying { root: to })
            &&& message == SPAWN_HOST_MESSAGE
            &&& timeout_ms == NOTIFY_TIMEOUT_MS
        }),
        state.phase is Notifying ==> state.next(Reply::Performed).phase == Phase::Enumerating,
{
}

} // verus!
