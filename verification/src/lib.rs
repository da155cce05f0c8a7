//! Attaching an application window behind the desktop icons.
//!
//! The desktop shell keeps a hidden window directly behind the icon layer. A
//! window that becomes a child of that hidden window renders as a live
//! wallpaper. The shell publishes no handle for it: it has to be found by its
//! position next to the window that hosts the icons.
//!
//! This crate holds the decisions of that search and none of the operating
//! system calls. [`procedure::Procedure`] says which window-manager request
//! comes next and takes the answer to it; the caller performs the requests.
//! [`desktop`] runs the same procedure against a recorded window list.

pub mod desktop;
pub mod handle;
pub mod parentage;
pub mod procedure;
pub mod protocol;
