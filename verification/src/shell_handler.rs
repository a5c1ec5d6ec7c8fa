use vstd::prelude::*;

verus! {

/// The connection between a platform window and the window state it drives.
pub enum WindowConnection<W> {
    /// The platform has not connected the window yet.
    Waiting,
    /// The window is connected and receives events.
    Connected(W),
    /// The window has been destroyed.
    Closed,
}

impl<W> WindowConnection<W> {
    /// A window that is not connected yet.
    pub fn new() -> (c: Self)
        ensures
            c is Waiting,
    {
        WindowConnection::Waiting
    }

    /// The platform connected the window: from now on `window` receives its
    /// events. A window connects once, and never after it was destroyed.
    pub fn connect(&mut self, window: W)
        requires
            *old(self) is Waiting,
        ensures
            *final(self) == WindowConnection::Connected(window),
    {
        *self = WindowConnection::Connected(window);
    }

    /// The platform destroyed the window.
    pub fn destroy(&mut self)
        ensures
            *final(self) is Closed,
    {
        *self = WindowConnection::Closed;
    }

    /// Whether events reach a window.
    pub fn is_connected(&self) -> (b: bool)
        ensures
            b == (*self is Connected),
    {
        match self {
            WindowConnection::Connected(_) => true,
            _ => false,
        }
    }

    /// The connected window, if any.
    pub fn window(&self) -> (w: Option<&W>)
        ensures
            match *self {
                WindowConnection::Connected(x) => w == Some(&x),
                _ => w is None,
            },
    {
        match self {
            WindowConnection::Connected(w) => Some(w),
            _ => None,
        }
    }
}

} // verus!
