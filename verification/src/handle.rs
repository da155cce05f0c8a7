//! Window identifiers.

use vstd::prelude::*;

verus! {

/// The identifier that the window manager gives to a window.
///
/// The value is opaque: nothing is read from it but whether it is the null
/// identifier, which the window manager uses for "no window". A handle is a
/// weak reference. Holding one keeps no window alive.
#[derive(Clone, Copy, Debug, PartialEq, Eq, Hash, Structural)]
pub struct WindowHandle {
    /// The pointer-sized value that the window manager uses; `0` is the null
    /// identifier.
    pub raw: isize,
}

impl WindowHandle {
    /// Whether this is the null identifier.
    pub open spec fn absent(self) -> bool {
        self.raw == 0
    }

    /// The null identifier.
    pub fn null() -> (handle: Self)
        ensures
            handle == (WindowHandle { raw: 0 }),
    {
        WindowHandle { raw: 0 }
    }

    /// The handle with the given pointer-sized value.
    ///
    /// This is where an identifier that came from a windowing toolkit or from
    /// the operating system enters the library. Both sides use the same
    /// pointer-sized value for the same window.
    pub fn from_raw(raw: isize) -> (handle: Self)
        ensures
            handle == (WindowHandle { raw }),
    {
        WindowHandle { raw }
    }

    /// The pointer-sized value of the handle, to hand back to the operating
    /// system.
    pub fn as_raw(self) -> (raw: isize)
        ensures
            raw == self.raw,
    {
        self.raw
    }

    /// Whether this is the null identifier.
    pub fn is_null(self) -> (null: bool)
        ensures
            null == self.absent(),
    {
        self.raw == 0
    }
}

} // verus!
