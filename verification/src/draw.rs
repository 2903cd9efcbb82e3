use vstd::prelude::*;

verus! {

/// Proof of an open drawing session. The underlying primitive stream is a
/// single global resource: at most one token exists per lock, it is handed
/// out by `begin` and must be given back to `end`, so sessions are strictly
/// nested and never concurrent.
#[derive(Debug)]
pub struct DrawSession {
    /// Kept private to this crate so a session cannot be forged.
    pub(crate) opened: bool,
}

/// The mutual-exclusion state of the drawing primitive stream. Beginning a
/// second session while one is open is a precondition violation, not a
/// recoverable error; ending a session requires the token `begin` returned,
/// which guarantees exactly-once release.
#[derive(Debug)]
pub struct DrawLock {
    pub open: bool,
}

impl DrawLock {
    /// A fresh lock with no open session.
    pub fn new() -> (r: Self)
        ensures
            !r.open,
    {
        DrawLock { open: false }
    }

    pub fn is_open(&self) -> (r: bool)
        ensures
            r == self.open,
    {
        self.open
    }

    /// Opens the unique drawing session. The caller must hold the lock
    /// closed; the returned token is the obligation to call `end`.
    pub fn begin(&mut self) -> (r: DrawSession)
        requires
            !old(self).open,
        ensures
            final (self).open,
    {
        self.open = true;
        DrawSession { opened: true }
    }

    /// Closes the drawing session, consuming its token; the lock is free
    /// again afterwards.
    pub fn end(&mut self, session: DrawSession)
        requires
            old(self).open,
        ensures
            !final (self).open,
    {
        let _ = session;
        self.open = false;
    }
}

impl Default for DrawLock {
    /// The default lock has no open session.
    fn default() -> (r: Self)
        ensures
            !r.open,
    {
        DrawLock { open: false }
    }
}

} // verus!
