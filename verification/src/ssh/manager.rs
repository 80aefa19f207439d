//! The registry of remote shells.

use vstd::prelude::*;
use crate::registry::SessionRegistry;
use crate::session_id::{is_session_id, session_id_or_new};
use crate::ssh::session::{SshCommand, SshSession};
use crate::ssh::types::{CreateSshResponse, SshConfig, SshError};

verus! {

/// Keeps the remote shells by identifier.
pub struct SshManager<H> {
    sessions: SessionRegistry<SshSession<H>>,
}

impl<H> SshManager<H> {
    /// The registry obeys its invariant.
    pub closed spec fn wf(&self) -> bool {
        self.sessions.wf()
    }

    /// The remote shells by identifier.
    pub closed spec fn view(&self) -> Map<Seq<char>, SshSession<H>> {
        self.sessions@
    }

    /// How many sessions are registered.
    pub closed spec fn count(&self) -> nat {
        self.sessions.count()
    }

    /// A manager without sessions.
    pub fn new() -> (manager: SshManager<H>)
        ensures
            manager.wf(),
            manager@ == Map::<Seq<char>, SshSession<H>>::empty(),
            manager.count() == 0,
    {
        SshManager { sessions: SessionRegistry::new() }
    }

    /// Registers a shell that was started, under a fresh identifier.
    pub fn create_session(&mut self, config: SshConfig, handle: H) -> (response: CreateSshResponse)
        requires
            old(self).wf(),
        ensures
            final(self).wf(),
            is_session_id(response.session_id@),
            final(self)@.contains_key(response.session_id@),
            final(self)@[response.session_id@].config == config,
            final(self)@[response.session_id@].handle == handle,
            final(self)@.remove(response.session_id@) == old(self)@.remove(response.session_id@),
            final(self).count() == old(self).count() + (if old(self)@.contains_key(
                response.session_id@,
            ) {
                0nat
            } else {
                1nat
            }),
            response.host@ == config.host@,
            response.username@ == config.username@,
    {
        self.create_session_with_id(None, config, handle)
    }

    /// Registers a shell that was started, under the identifier given or
    /// else a fresh one, and says what the caller is told of it.
    pub fn create_session_with_id(
        &mut self,
        session_id: Option<String>,
        config: SshConfig,
        handle: H,
    ) -> (response: CreateSshResponse)
        requires
            old(self).wf(),
        ensures
            final(self).wf(),
            match session_id {
                Some(id) => response.session_id@ == id@,
                None => is_session_id(response.session_id@),
            },
            final(self)@.contains_key(response.session_id@),
            final(self)@[response.session_id@].session_id@ == response.session_id@,
            final(self)@[response.session_id@].config == config,
            final(self)@[response.session_id@].handle == handle,
            final(self)@.remove(response.session_id@) == old(self)@.remove(response.session_id@),
            final(self).count() == old(self).count() + (if old(self)@.contains_key(
                response.session_id@,
            ) {
                0nat
            } else {
                1nat
            }),
            response.host@ == config.host@,
            response.username@ == config.username@,
    {
        let id = session_id_or_new(session_id);
        let response = CreateSshResponse {
            session_id: id.clone(),
            host: config.host.clone(),
            username: config.username.clone(),
        };
        let session = SshSession::new(id.clone(), config, handle);
        let _ = self.sessions.insert(id, session);
        proof {
            let key = response.session_id@;
            assert(old(self)@.insert(key, session).remove(key) =~= old(self)@.remove(key));
        }
        response
    }

    /// Looks up the shell to write to, and the command to hand to its I/O
    /// loop.
    pub fn write_to_session(&self, session_id: &str, data: &str) -> (target: Result<
        (&SshSession<H>, SshCommand),
        SshError,
    >)
        requires
            self.wf(),
        ensures
            match target {
                Ok((session, SshCommand::Write(text))) => self@.contains_key(session_id@)
                    && *session == self@[session_id@] && text@ == data@,
                Ok(_) => false,
                Err(SshError::SessionNotFound(id)) => !self@.contains_key(session_id@) && id@
                    == session_id@,
                Err(_) => false,
            },
    {
        match self.sessions.get(session_id) {
            Some(session) => Ok((session, session.write(data))),
            None => Err(SshError::SessionNotFound(String::from_str(session_id))),
        }
    }

    /// Looks up the shell to resize, and the command to hand to its I/O
    /// loop.
    pub fn resize_session(&self, session_id: &str, cols: u16, rows: u16) -> (target: Result<
        (&SshSession<H>, SshCommand),
        SshError,
    >)
        requires
            self.wf(),
        ensures
            match target {
                Ok((session, command)) => self@.contains_key(session_id@) && *session
                    == self@[session_id@] && command == SshCommand::Resize(cols, rows),
                Err(SshError::SessionNotFound(id)) => !self@.contains_key(session_id@) && id@
                    == session_id@,
                Err(_) => false,
            },
    {
        match self.sessions.get(session_id) {
            Some(session) => Ok((session, session.resize(cols, rows))),
            None => Err(SshError::SessionNotFound(String::from_str(session_id))),
        }
    }

    /// Releases the identifier and hands the session back to be torn
    /// down; an identifier that is not registered is an error and changes
    /// nothing.
    pub fn close_session(&mut self, session_id: &str) -> (closed: Result<SshSession<H>, SshError>)
        requires
            old(self).wf(),
        ensures
            final(self).wf(),
            final(self)@ == old(self)@.remove(session_id@),
            !final(self)@.contains_key(session_id@),
            final(self).count() == old(self).count() - (if closed is Ok {
                1nat
            } else {
                0nat
            }),
            match closed {
                Ok(session) => old(self)@.contains_key(session_id@) && session == old(
                    self,
                )@[session_id@],
                Err(SshError::SessionNotFound(id)) => {
                    &&& !old(self)@.contains_key(session_id@)
                    &&& final(self)@ == old(self)@
                    &&& id@ == session_id@
                },
                Err(_) => false,
            },
    {
        match self.sessions.remove(session_id) {
            Some(session) => Ok(session),
            None => Err(SshError::SessionNotFound(String::from_str(session_id))),
        }
    }

    /// The identifiers of the registered shells, each once.
    pub fn list_sessions(&self) -> (ids: Vec<String>)
        requires
            self.wf(),
        ensures
            ids@.len() == self.count(),
            forall|i: int| 0 <= i < ids@.len() ==> self@.contains_key(#[trigger] ids@[i]@),
            forall|id: Seq<char>| #[trigger]
                self@.contains_key(id) ==> exists|i: int|
                    0 <= i < ids@.len() && #[trigger] ids@[i]@ == id,
            forall|i: int, j: int|
                0 <= i < j < ids@.len() ==> #[trigger] ids@[i]@ != #[trigger] ids@[j]@,
    {
        self.sessions.ids()
    }
}

impl<H> Default for SshManager<H> {
    fn default() -> (manager: Self)
        ensures
            manager.wf(),
            manager@ == Map::<Seq<char>, SshSession<H>>::empty(),
    {
        Self::new()
    }
}

} // verus!
