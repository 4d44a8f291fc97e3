//! The session registry: the one place that holds the writable half of the
//! open connection, and so the sole record of whether a session is active.
use vstd::prelude::*;
use crate::codec::{encode_samples, samples_le};
use crate::error::SessionError;

verus! {

/// Holds the writable half of at most one open connection.
///
/// The registry starts out uninitialised; the first session to start
/// initialises it for good. Afterwards it is either empty (no session is
/// active) or holds exactly one writer.
pub struct SessionRegistry<W> {
    slot: Option<Option<W>>,
}

impl<W> SessionRegistry<W> {
    /// Whether a session has ever been started with this registry.
    pub closed spec fn initialized(&self) -> bool {
        self.slot is Some
    }

    /// The writer of the active session, if any.
    pub closed spec fn active(&self) -> Option<W> {
        match self.slot {
            Some(Some(w)) => Some(w),
            _ => None,
        }
    }

    /// The registry once its active writer, if any, has been removed.
    pub closed spec fn emptied(&self) -> Self {
        SessionRegistry {
            slot: match self.slot {
                Some(_) => Some(None),
                None => None,
            },
        }
    }

    /// What a send finds: the active writer, or why there is none.
    pub open spec fn lookup(&self) -> Result<W, SessionError> {
        if !self.initialized() {
            Err(SessionError::NotInitialized)
        } else {
            match self.active() {
                Some(w) => Ok(w),
                None => Err(SessionError::SessionNotActive),
            }
        }
    }

    /// A registry in which no session has ever started.
    pub fn new() -> (r: Self)
        ensures
            !r.initialized(),
            r.active() is None,
    {
        SessionRegistry { slot: None }
    }

    /// Whether a session is active.
    pub fn is_active(&self) -> (r: bool)
        ensures
            r == self.active() is Some,
    {
        match &self.slot {
            Some(Some(_)) => true,
            _ => false,
        }
    }

    /// Stores the writer of a newly opened connection. A writer that was
    /// already stored is handed back, so that its connection can be closed
    /// rather than left behind.
    pub fn install(&mut self, writer: W) -> (prev: Option<W>)
        ensures
            final(self).initialized(),
            final(self).active() == Some(writer),
            prev == old(self).active(),
    {
        let prev = match self.slot.take() {
            Some(inner) => inner,
            None => None,
        };
        self.slot = Some(Some(writer));
        prev
    }

    /// Removes the active writer, if any, and hands it to the caller, which
    /// closes its connection. With no session active this changes nothing.
    pub fn take(&mut self) -> (r: Option<W>)
        ensures
            r == old(self).active(),
            final(self).active() is None,
            final(self).initialized() == old(self).initialized(),
            *final(self) == old(self).emptied(),
    {
        match &mut self.slot {
            Some(inner) => inner.take(),
            None => None,
        }
    }

    /// The writer to send on, or why there is none.
    pub fn writer(&self) -> (r: Result<&W, SessionError>)
        ensures
            r is Ok <==> self.active() is Some,
            r matches Ok(w) ==> self.lookup() == Ok::<W, SessionError>(*w),
            r matches Err(e) ==> self.lookup() == Err::<W, SessionError>(e),
    {
        match &self.slot {
            None => Err(SessionError::NotInitialized),
            Some(None) => Err(SessionError::SessionNotActive),
            Some(Some(w)) => Ok(w),
        }
    }

    /// Everything a send of `samples` needs: the writer to send on and the
    /// bytes of the one binary frame to write, or why nothing may be sent.
    pub fn prepare_send(&self, samples: &[i16]) -> (r: Result<(&W, Vec<u8>), SessionError>)
        requires
            2 * samples@.len() <= usize::MAX,
        ensures
            r is Ok <==> self.active() is Some,
            r matches Ok((w, bytes)) ==> self.lookup() == Ok::<W, SessionError>(*w)
                && bytes@ == samples_le(samples@),
            r matches Err(e) ==> self.lookup() == Err::<W, SessionError>(e),
    {
        let w = self.writer()?;
        Ok((w, encode_samples(samples)))
    }
}

/// No send can reach the wire before a session has been started: every send
/// on such a registry is refused as uninitialised, and stopping does not
/// change that.
pub proof fn lemma_no_send_before_start<W>(reg: SessionRegistry<W>)
    requires
        !reg.initialized(),
    ensures
        reg.lookup() == Err::<W, SessionError>(SessionError::NotInitialized),
        reg.emptied().lookup() == Err::<W, SessionError>(SessionError::NotInitialized),
{
}

/// A registry with an active session has been initialised, so a send on it
/// goes to the active writer.
pub proof fn lemma_active_is_initialized<W>(reg: SessionRegistry<W>)
    ensures
        reg.active() is Some ==> reg.initialized(),
        !reg.initialized() ==> reg.active() is None,
        reg.active() matches Some(w) ==> reg.lookup() == Ok::<W, SessionError>(w),
{
}

/// Stopping is idempotent: a second stop changes nothing, a stop with no
/// session active leaves the registry as it was, and after a stop no
/// session is active.
pub proof fn lemma_stop_idempotent<W>(reg: SessionRegistry<W>)
    ensures
        reg.emptied().emptied() == reg.emptied(),
        reg.emptied().active() is None,
        reg.emptied().initialized() == reg.initialized(),
        reg.active() is None ==> reg.emptied() == reg,
{
}

} // verus!
