//! The slot that holds an endpoint's live session, or nothing.

use vstd::prelude::*;
use crate::error::{ErrorKind, ProxyError};

verus! {

/// Names a live session. The program around the core keeps the session
/// itself and finds it again by this number.
pub type SessionId = u64;

/// At most one session: the one the endpoint runs on, while it runs.
#[derive(Debug)]
pub struct ClientHolder {
    client: Option<SessionId>,
}

impl View for ClientHolder {
    type V = Option<SessionId>;

    closed spec fn view(&self) -> Option<SessionId> {
        self.client
    }
}

impl Clone for ClientHolder {
    fn clone(&self) -> (copy: ClientHolder)
        ensures
            copy@ == self@,
    {
        ClientHolder { client: self.client }
    }
}

impl ClientHolder {
    /// An empty slot.
    pub fn new() -> (holder: ClientHolder)
        ensures
            holder@ is None,
    {
        ClientHolder { client: None }
    }

    /// The session held; `ServerNotRunning` where the slot is empty.
    pub fn get(&self, name: &str) -> (r: Result<SessionId, ProxyError>)
        ensures
            match r {
                Ok(session) => self@ == Some(session),
                Err(e) => self@ is None && e.is_of(ErrorKind::ServerNotRunning, name@),
            },
    {
        match self.client {
            Some(session) => Ok(session),
            None => Err(ProxyError::server_not_running(name)),
        }
    }

    /// Puts `client` in the slot.
    pub fn set(&mut self, client: SessionId)
        ensures
            final(self)@ == Some(client),
    {
        self.client = Some(client);
    }

    /// Empties the slot.
    pub fn clear(&mut self)
        ensures
            final(self)@ is None,
    {
        self.client = None;
    }

    /// `ServerAlreadyRunning` where the slot holds a session.
    pub fn ensure_not_running(&self, name: &str) -> (r: Result<(), ProxyError>)
        ensures
            match r {
                Ok(()) => self@ is None,
                Err(e) => self@ is Some && e.is_of(ErrorKind::ServerAlreadyRunning, name@),
            },
    {
        if self.client.is_some() {
            return Err(ProxyError::server_already_running(name));
        }
        Ok(())
    }

    /// `ServerNotRunning` where the slot is empty.
    pub fn ensure_running(&self, name: &str) -> (r: Result<(), ProxyError>)
        ensures
            match r {
                Ok(()) => self@ is Some,
                Err(e) => self@ is None && e.is_of(ErrorKind::ServerNotRunning, name@),
            },
    {
        if self.client.is_none() {
            return Err(ProxyError::server_not_running(name));
        }
        Ok(())
    }
}

} // verus!
