//! The registry of local terminals.

use vstd::prelude::*;
use vstd::utf8::encode_utf8;
use crate::pty::session::{PtyDimensions, PtySession};
use crate::pty::types::{CreatePtyResponse, PtyError};
use crate::registry::SessionRegistry;
use crate::session_id::{is_session_id, session_id_or_new};

verus! {

/// Keeps the local terminals by identifier.
pub struct PtyManager<H> {
    sessions: SessionRegistry<PtySession<H>>,
}

impl<H> PtyManager<H> {
    /// The registry obeys its invariant.
    pub closed spec fn wf(&self) -> bool {
        self.sessions.wf()
    }

    /// The terminals by identifier.
    pub closed spec fn view(&self) -> Map<Seq<char>, PtySession<H>> {
        self.sessions@
    }

    /// How many sessions are registered.
    pub closed spec fn count(&self) -> nat {
        self.sessions.count()
    }

    /// A manager without terminals.
    pub fn new() -> (manager: PtyManager<H>)
        ensures
            manager.wf(),
            manager@ == Map::<Seq<char>, PtySession<H>>::empty(),
            manager.count() == 0,
    {
        PtyManager { sessions: SessionRegistry::new() }
    }

    /// A fresh identifier for a terminal that is about to be created.
    pub fn new_session_id() -> (id: String)
        ensures
            is_session_id(id@),
    {
        session_id_or_new(None)
    }

    /// Registers a terminal that was created, under its identifier, and
    /// says what the caller is told of it.
    pub fn create_session(&mut self, session: PtySession<H>) -> (response: CreatePtyResponse)
        requires
            old(self).wf(),
        ensures
            final(self).wf(),
            final(self)@ == old(self)@.insert(session.pty_id@, session),
            final(self).count() == old(self).count() + (if old(self)@.contains_key(session.pty_id@) {
                0nat
            } else {
                1nat
            }),
            response.pty_id@ == session.pty_id@,
            response.pid == session.pid,
            response.shell@ == session.shell@,
    {
        let response = CreatePtyResponse {
            pty_id: session.pty_id.clone(),
            pid: session.pid,
            shell: session.shell.clone(),
        };
        let id = session.pty_id.clone();
        let _ = self.sessions.insert(id, session);
        response
    }

    /// Looks up the terminal to write to, and the bytes to write.
    pub fn write_to_session(&self, pty_id: &str, data: &str) -> (target: Result<
        (&PtySession<H>, Vec<u8>),
        PtyError,
    >)
        requires
            self.wf(),
        ensures
            match target {
                Ok((session, bytes)) => self@.contains_key(pty_id@) && *session == self@[pty_id@]
                    && bytes@ == encode_utf8(data@),
                Err(PtyError::SessionNotFound(id)) => !self@.contains_key(pty_id@) && id@
                    == pty_id@,
                Err(_) => false,
            },
    {
        match self.sessions.get(pty_id) {
            Some(session) => Ok((session, session.write(data))),
            None => Err(PtyError::SessionNotFound(String::from_str(pty_id))),
        }
    }

    /// Looks up the terminal to resize, and the size to give it.
    pub fn resize_session(&self, pty_id: &str, cols: u16, rows: u16) -> (target: Result<
        (&PtySession<H>, PtyDimensions),
        PtyError,
    >)
        requires
            self.wf(),
        ensures
            match target {
                Ok((session, size)) => self@.contains_key(pty_id@) && *session == self@[pty_id@]
                    && size == (PtyDimensions { rows, cols, pixel_width: 0, pixel_height: 0 }),
                Err(PtyError::SessionNotFound(id)) => !self@.contains_key(pty_id@) && id@
                    == pty_id@,
                Err(_) => false,
            },
    {
        match self.sessions.get(pty_id) {
            Some(session) => Ok((session, session.resize(cols, rows))),
            None => Err(PtyError::SessionNotFound(String::from_str(pty_id))),
        }
    }

    /// Releases the identifier and hands the terminal back to be torn
    /// down; an identifier that is not registered is an error and changes
    /// nothing.
    pub fn close_session(&mut self, pty_id: &str) -> (closed: Result<PtySession<H>, PtyError>)
        requires
            old(self).wf(),
        ensures
            final(self).wf(),
            final(self)@ == old(self)@.remove(pty_id@),
            !final(self)@.contains_key(pty_id@),
            final(self).count() == old(self).count() - (if closed is Ok {
                1nat
            } else {
                0nat
            }),
            match closed {
                Ok(session) => old(self)@.contains_key(pty_id@) && session == old(self)@[pty_id@],
                Err(PtyError::SessionNotFound(id)) => {
                    &&& !old(self)@.contains_key(pty_id@)
                    &&& final(self)@ == old(self)@
                    &&& id@ == pty_id@
                },
                Err(_) => false,
            },
    {
        match self.sessions.remove(pty_id) {
            Some(session) => Ok(session),
            None => Err(PtyError::SessionNotFound(String::from_str(pty_id))),
        }
    }

    /// The identifiers of the registered terminals, each once.
    pub fn list_sessions(&self) -> (ids: Vec<String>)
        requires
            self.wf(),
        ensures
            ids@.len() == self.count(),
            forall|i: int| 0 <= i < ids@.len() ==> self@.contains_key(#[trigger] ids@[i]@),
            forall|id: Seq<char>| #[trigger]
                self@.contains_key(id) ==> exists|i: int|
                    0 <= i < ids@.len() && #[trigger] ids@[i]@ == id,
            forall|i: int, j: int|
                0 <= i < j < ids@.len() ==> #[trigger] ids@[i]@ != #[trigger] ids@[j]@,
    {
        self.sessions.ids()
    }
}

impl<H> Default for PtyManager<H> {
    fn default() -> (manager: Self)
        ensures
            manager.wf(),
            manager@ == Map::<Seq<char>, PtySession<H>>::empty(),
    {
        Self::new()
    }
}

} // verus!
