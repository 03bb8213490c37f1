//! The decisions of the connection manager: which role a manager plays, and what each step of
//! an exchange with the server does with what the network handed back.
//!
//! The manager is generic over its network handles: `L` is the listener of a server,
//! `S` the shared table of connected clients and `C` the durable connection of a client.
//! Whoever drives the network opens, locks and awaits them; this module decides.
use vstd::prelude::*;
use crate::errors::TackboardError;
use crate::types::ServerResponse;

verus! {

/// What a connection manager holds, seen from outside.
pub struct ManagerView<L, S, C> {
    pub path: Seq<char>,
    pub listener: Option<L>,
    pub connected_clients: S,
    pub connection: Option<C>,
}

/// What a client manager holds: no listener, and its durable connection.
pub open spec fn client_view<L, S, C>(path: Seq<char>, clients: S, conn: C) -> ManagerView<L, S, C> {
    ManagerView { path, listener: None, connected_clients: clients, connection: Some(conn) }
}

/// What a server manager holds: its listener, and no durable connection.
pub open spec fn server_view<L, S, C>(path: Seq<char>, clients: S, listener: L) -> ManagerView<L, S, C> {
    ManagerView { path, listener: Some(listener), connected_clients: clients, connection: None }
}

/// What a manager without a role holds: neither a listener nor a durable connection.
pub open spec fn roleless_view<L, S, C>(path: Seq<char>, clients: S) -> ManagerView<L, S, C> {
    ManagerView { path, listener: None, connected_clients: clients, connection: None }
}

/// The connection on which a request goes out, or why there is none.
pub open spec fn connection_answer<L, S, C>(v: ManagerView<L, S, C>) -> Result<C, TackboardError> {
    match v.connection {
        Some(conn) => Ok(conn),
        None => Err(TackboardError::InvalidRequest),
    }
}

/// The listener from which a client is accepted, or why there is none.
pub open spec fn listener_answer<L, S, C>(v: ManagerView<L, S, C>) -> Result<L, TackboardError> {
    match v.listener {
        Some(listener) => Ok(listener),
        None => Err(TackboardError::InvalidRequest),
    }
}

/// Manages the server side (a listener and its clients) or the client side (one durable
/// connection to the server) of the publish/subscribe system.
pub struct ConnectionManager<L, S, C> {
    path: String,
    listener: Option<L>,
    connected_clients: S,
    durable_client_connection: Option<C>,
}

impl<L, S, C> View for ConnectionManager<L, S, C> {
    type V = ManagerView<L, S, C>;

    closed spec fn view(&self) -> ManagerView<L, S, C> {
        ManagerView {
            path: self.path@,
            listener: self.listener,
            connected_clients: self.connected_clients,
            connection: self.durable_client_connection,
        }
    }
}

impl<L: Clone, S: Clone, C: Clone> Clone for ConnectionManager<L, S, C> {
    /// A copy of the manager: the same path and role, each handle cloned.
    fn clone(&self) -> (res: Self)
        ensures
            res@.path == self@.path,
            cloned::<S>(self@.connected_clients, res@.connected_clients),
            self@.listener is None ==> res@.listener is None,
            self@.listener is Some ==> res@.listener is Some
                && cloned::<L>(self@.listener->0, res@.listener->0),
            self@.connection is None ==> res@.connection is None,
            self@.connection is Some ==> res@.connection is Some
                && cloned::<C>(self@.connection->0, res@.connection->0),
    {
        ConnectionManager {
            path: self.path.clone(),
            listener: self.listener.clone(),
            connected_clients: self.connected_clients.clone(),
            durable_client_connection: self.durable_client_connection.clone(),
        }
    }
}

impl<L, S: Default, C> Default for ConnectionManager<L, S, C> {
    /// A manager with no role yet: an empty path, no listener and no durable connection.
    fn default() -> (res: Self)
        ensures
            res@.path == Seq::<char>::empty(),
            res@.listener is None,
            res@.connection is None,
            call_ensures(S::default, (), res@.connected_clients),
    {
        ConnectionManager {
            path: String::new(),
            listener: None,
            connected_clients: S::default(),
            durable_client_connection: None,
        }
    }
}

impl<L, S, C> ConnectionManager<L, S, C> {
    /// A manager for `path` with no role yet: no listener and no durable connection.
    pub fn new(path: String, clients: S) -> (m: Self)
        ensures
            m@ == roleless_view::<L, S, C>(path@, clients),
    {
        ConnectionManager { path, listener: None, connected_clients: clients, durable_client_connection: None }
    }

    /// A client manager for the server at `path`, from the outcome of connecting to it.
    /// A failed connection is a network error; a client manager has no listener.
    pub fn create_client(
        path: String,
        connected: Result<C, std::io::Error>,
        clients: S,
    ) -> (res: Result<Self, TackboardError>)
        ensures
            match connected {
                Ok(conn) => res matches Ok(m) && m@ == client_view::<L, S, C>(path@, clients, conn),
                Err(e) => res == Err::<Self, TackboardError>(TackboardError::Io(e)),
            },
    {
        match connected {
            Ok(conn) => Ok(ConnectionManager {
                path,
                listener: None,
                connected_clients: clients,
                durable_client_connection: Some(conn),
            }),
            Err(e) => Err(TackboardError::Io(e)),
        }
    }

    /// A server manager bound at `path`, from the outcome of binding the listener.
    /// A failed bind is a network error; a server manager has no durable connection.
    pub fn create_listener(
        path: String,
        bound: Result<L, std::io::Error>,
        clients: S,
    ) -> (res: Result<Self, TackboardError>)
        ensures
            match bound {
                Ok(listener) => res matches Ok(m) && m@ == server_view::<L, S, C>(path@, clients, listener),
                Err(e) => res == Err::<Self, TackboardError>(TackboardError::Io(e)),
            },
    {
        match bound {
            Ok(listener) => Ok(ConnectionManager {
                path,
                listener: Some(listener),
                connected_clients: clients,
                durable_client_connection: None,
            }),
            Err(e) => Err(TackboardError::Io(e)),
        }
    }

    /// The durable connection on which a request is sent and its reply awaited.
    /// Without one the request is invalid.
    pub fn durable_connection(&self) -> (res: Result<&C, TackboardError>)
        ensures
            match res {
                Ok(conn) => connection_answer(self@) == Ok::<C, TackboardError>(*conn),
                Err(e) => connection_answer(self@) == Err::<C, TackboardError>(e),
            },
    {
        match &self.durable_client_connection {
            Some(conn) => Ok(conn),
            None => Err(TackboardError::InvalidRequest),
        }
    }

    /// The durable connection on which a request is sent and every reply handed on.
    /// Only a client manager has one.
    pub fn listening_connection(&self) -> (conn: &C)
        requires
            self@.connection is Some,
        ensures
            Some(*conn) == self@.connection,
    {
        match &self.durable_client_connection {
            Some(conn) => conn,
            None => {
                proof {
                    assert(false);
                }
                vstd::pervasive::unreached()
            },
        }
    }

    /// The listener from which the next client is accepted.
    /// Without one the request is invalid.
    pub fn accept_listener(&self) -> (res: Result<&L, TackboardError>)
        ensures
            match res {
                Ok(listener) => listener_answer(self@) == Ok::<L, TackboardError>(*listener),
                Err(e) => listener_answer(self@) == Err::<L, TackboardError>(e),
            },
    {
        match &self.listener {
            Some(listener) => Ok(listener),
            None => Err(TackboardError::InvalidRequest),
        }
    }

    /// The shared table of connected clients.
    pub fn connected_clients(&self) -> (clients: &S)
        ensures
            *clients == self@.connected_clients,
    {
        &self.connected_clients
    }
}

/// A client accepted, or the network error that stopped it.
pub open spec fn accepted_answer<T>(accepted: Result<T, std::io::Error>) -> Result<T, TackboardError> {
    match accepted {
        Ok(t) => Ok(t),
        Err(e) => Err(TackboardError::Io(e)),
    }
}

/// What one accept on a manager answers: the refusal when it has no listener, and otherwise
/// the client that its listener accepted, or the network error that stopped it.
pub open spec fn accept_answer<L, S, C, T>(
    v: ManagerView<L, S, C>,
    accepted: Result<T, std::io::Error>,
) -> Result<T, TackboardError> {
    match listener_answer(v) {
        Err(e) => Err(e),
        Ok(_) => accepted_answer(accepted),
    }
}

/// The outcome of accepting a client: a failure to accept is a network error.
pub fn accept_outcome<T>(accepted: Result<T, std::io::Error>) -> (res: Result<T, TackboardError>)
    ensures
        res == accepted_answer(accepted),
{
    match accepted {
        Ok(t) => Ok(t),
        Err(e) => Err(TackboardError::Io(e)),
    }
}

} // verus!
