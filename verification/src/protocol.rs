//! What the procedure asks of the window manager, and what it is told.

use crate::handle::WindowHandle;
use vstd::prelude::*;

verus! {

/// The message that asks the shell root to create its compositing host. The
/// shell does not document it.
pub const SPAWN_HOST_MESSAGE: u32 = 0x052C;

/// How long the sender of [`SPAWN_HOST_MESSAGE`] may wait for the shell, in
/// milliseconds.
pub const NOTIFY_TIMEOUT_MS: u32 = 1000;

/// The window classes by which the shell's windows are recognised.
#[derive(Clone, Copy, Debug, PartialEq, Eq, Hash, Structural)]
pub enum WindowClass {
    /// The primary window of the desktop manager process.
    ShellRoot,
    /// The window that hosts the grid of desktop icons.
    IconView,
    /// The hidden window behind the desktop icons.
    CompositingHost,
}

impl WindowClass {
    /// The class name that the window manager knows the class by.
    pub open spec fn class_name(self) -> Seq<char> {
        match self {
            WindowClass::ShellRoot => "Progman"@,
            WindowClass::IconView => "SHELLDLL_DefView"@,
            WindowClass::CompositingHost => "WorkerW"@,
        }
    }

    /// The class name that the window manager knows the class by.
    pub fn name(self) -> (name: &'static str)
        ensures
            name@ == self.class_name(),
    {
        match self {
            WindowClass::ShellRoot => "Progman",
            WindowClass::IconView => "SHELLDLL_DefView",
            WindowClass::CompositingHost => "WorkerW",
        }
    }
}

/// One request to the window manager.
///
/// The caller performs the request and answers with the [`Reply`] that the
/// variant names.
#[derive(Clone, Copy, Debug, PartialEq, Eq, Hash, Structural)]
pub enum Request {
    /// Look up a top-level window by its class. Answered by [`Reply::Found`].
    FindWindow { class: WindowClass },
    /// Send `message` to the window `to` and wait for it at most `timeout_ms`
    /// milliseconds. Whether the message arrived is of no interest. Answered by
    /// [`Reply::Performed`] once the wait is over, whatever came of it.
    SendMessage { to: WindowHandle, message: u32, timeout_ms: u32 },
    /// Take the next window from the enumeration of top-level windows; the
    /// first such request starts the enumeration. Answered by
    /// [`Reply::Window`] or, when no window is left, [`Reply::NoMoreWindows`].
    NextWindow,
    /// Look up a direct child of `parent` by its class. Answered by
    /// [`Reply::Found`].
    FindChild { parent: WindowHandle, class: WindowClass },
    /// Look up, by its class, a top-level window that follows `after` in the
    /// window manager's order. Answered by [`Reply::Found`].
    FindSibling { after: WindowHandle, class: WindowClass },
    /// Make `parent` the parent of `child`. Whether this took effect is of no
    /// interest. Answered by [`Reply::Performed`].
    SetParent { child: WindowHandle, parent: WindowHandle },
}

impl Request {
    /// Whether `reply` is of the kind that answers this request.
    pub open spec fn answered_by(self, reply: Reply) -> bool {
        match self {
            Request::FindWindow { .. } => reply is Found,
            Request::FindChild { .. } => reply is Found,
            Request::FindSibling { .. } => reply is Found,
            Request::SendMessage { .. } => reply is Performed,
            Request::SetParent { .. } => reply is Performed,
            Request::NextWindow => reply is Window || reply is NoMoreWindows,
        }
    }
}

/// The answer to a [`Request`].
#[derive(Clone, Copy, Debug, PartialEq, Eq, Hash, Structural)]
pub enum Reply {
    /// The window that a lookup found, or the null handle if it found none or
    /// failed.
    Found(WindowHandle),
    /// A request without a result has been carried out or has failed.
    Performed,
    /// The next top-level window of the enumeration.
    Window(WindowHandle),
    /// The enumeration has no further window.
    NoMoreWindows,
}

} // verus!
