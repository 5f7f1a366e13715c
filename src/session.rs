use vstd::prelude::*;

use crate::error::SessionError;

verus! {

/// Holds the one established session of the process. It is installed at most
/// once and never replaced; after it is closed every use is refused with
/// `SessionClosed`.
pub struct SessionSlot<S> {
    session: Option<S>,
    closed: bool,
}

impl<S> SessionSlot<S> {
    /// The installed session, while the slot is open.
    pub closed spec fn held(&self) -> Option<S> {
        self.session
    }

    /// Whether the slot has been closed.
    pub closed spec fn is_closed(&self) -> bool {
        self.closed
    }

    /// A closed slot holds nothing.
    pub open spec fn wf(&self) -> bool {
        self.is_closed() ==> self.held() is None
    }

    pub fn new() -> (r: SessionSlot<S>)
        ensures
            r.wf(),
            r.held() is None,
            !r.is_closed(),
    {
        SessionSlot { session: None, closed: false }
    }

    /// Installs the session into an empty slot. A slot that already holds one
    /// refuses with `AlreadyInitialized`, a closed one with `SessionClosed`,
    /// and stays as it was.
    pub fn install(&mut self, session: S) -> (r: Result<(), SessionError>)
        requires
            old(self).wf(),
        ensures
            final(self).wf(),
            old(self).is_closed() ==> r == Err::<(), SessionError>(SessionError::SessionClosed)
                && *final(self) == *old(self),
            !old(self).is_closed() && old(self).held() is Some ==> r == Err::<(), SessionError>(
                SessionError::AlreadyInitialized,
            ) && *final(self) == *old(self),
            !old(self).is_closed() && old(self).held() is None ==> r is Ok && final(self).held()
                == Some(session) && !final(self).is_closed(),
    {
        if self.closed {
            return Err(SessionError::SessionClosed);
        }
        if self.session.is_some() {
            return Err(SessionError::AlreadyInitialized);
        }
        self.session = Some(session);
        Ok(())
    }

    /// The installed session, while the slot is open.
    pub fn get(&self) -> (r: Result<&S, SessionError>)
        requires
            self.wf(),
        ensures
            self.is_closed() ==> r == Err::<&S, SessionError>(SessionError::SessionClosed),
            !self.is_closed() && self.held() is None ==> r == Err::<&S, SessionError>(
                SessionError::NotInitialized,
            ),
            !self.is_closed() && self.held() is Some ==> r is Ok && *r->Ok_0 == self.held()->0,
    {
        if self.closed {
            return Err(SessionError::SessionClosed);
        }
        match &self.session {
            Some(s) => Ok(s),
            None => Err(SessionError::NotInitialized),
        }
    }

    /// Takes the session out for shutdown and closes the slot; this succeeds
    /// once only. An empty slot refuses with `NotInitialized` and stays open.
    pub fn close(&mut self) -> (r: Result<S, SessionError>)
        requires
            old(self).wf(),
        ensures
            final(self).wf(),
            old(self).is_closed() ==> r == Err::<S, SessionError>(SessionError::SessionClosed)
                && final(self).is_closed(),
            !old(self).is_closed() && old(self).held() is None ==> r == Err::<S, SessionError>(
                SessionError::NotInitialized,
            ) && *final(self) == *old(self),
            !old(self).is_closed() && old(self).held() is Some ==> r == Ok::<S, SessionError>(
                old(self).held()->0,
            ) && final(self).is_closed(),
    {
        if self.closed {
            return Err(SessionError::SessionClosed);
        }
        match self.session.take() {
            Some(s) => {
                self.closed = true;
                Ok(s)
            },
            None => Err(SessionError::NotInitialized),
        }
    }
}

} // verus!
