//! The lifecycle of the connection to the presence transport.
//!
//! The manager does no I/O: it is told how each connect or publish attempt
//! went and keeps the state that follows.
use vstd::prelude::*;

verus! {

/// Whether the transport is connected.
#[derive(Clone, Copy, Debug, PartialEq, Eq, Structural)]
pub enum ConnectionState {
    Disconnected,
    Connected,
}

/// Why a transport operation is to be retried.
#[derive(Clone, Copy, Debug, PartialEq, Eq, Structural)]
pub enum TransportError {
    ConnectFailed,
    PublishFailed,
    NotConnected,
}

/// Owner of the connection state.
pub struct ConnectionManager {
    state: ConnectionState,
}

impl View for ConnectionManager {
    type V = ConnectionState;

    closed spec fn view(&self) -> ConnectionState {
        self.state
    }
}

impl ConnectionManager {
    /// A manager that is not connected yet.
    pub fn new() -> (r: ConnectionManager)
        ensures
            r@ == ConnectionState::Disconnected,
    {
        ConnectionManager { state: ConnectionState::Disconnected }
    }

    /// The current state.
    pub fn state(&self) -> (r: ConnectionState)
        ensures
            r == self@,
    {
        self.state
    }

    /// Whether a connect attempt is owed before anything can be published.
    pub fn needs_connect(&self) -> (r: bool)
        ensures
            r == (self@ == ConnectionState::Disconnected),
    {
        self.state == ConnectionState::Disconnected
    }

    /// Takes the outcome of a connect attempt, which is made only while
    /// disconnected. `Ok(true)` reports a fresh connection, `Ok(false)` one
    /// that was already there.
    pub fn ensure_connected(&mut self, connect_succeeded: bool) -> (r: Result<bool, TransportError>)
        ensures
            old(self)@ == ConnectionState::Connected ==> final(self)@ == ConnectionState::Connected
                && r == Ok::<bool, TransportError>(false),
            old(self)@ == ConnectionState::Disconnected && connect_succeeded ==> final(self)@
                == ConnectionState::Connected && r == Ok::<bool, TransportError>(true),
            old(self)@ == ConnectionState::Disconnected && !connect_succeeded ==> final(self)@
                == ConnectionState::Disconnected && r == Err::<bool, TransportError>(
                TransportError::ConnectFailed,
            ),
    {
        match self.state {
            ConnectionState::Connected => Ok(false),
            ConnectionState::Disconnected => {
                if connect_succeeded {
                    self.state = ConnectionState::Connected;
                    Ok(true)
                } else {
                    Err(TransportError::ConnectFailed)
                }
            },
        }
    }

    /// Takes the outcome of a publish; a failed one drops the connection.
    pub fn publish_result(&mut self, delivered: bool) -> (r: Result<(), TransportError>)
        ensures
            old(self)@ == ConnectionState::Disconnected ==> final(self)@
                == ConnectionState::Disconnected && r == Err::<(), TransportError>(
                TransportError::NotConnected,
            ),
            old(self)@ == ConnectionState::Connected && delivered ==> final(self)@
                == ConnectionState::Connected && r == Ok::<(), TransportError>(()),
            old(self)@ == ConnectionState::Connected && !delivered ==> final(self)@
                == ConnectionState::Disconnected && r == Err::<(), TransportError>(
                TransportError::PublishFailed,
            ),
    {
        match self.state {
            ConnectionState::Disconnected => Err(TransportError::NotConnected),
            ConnectionState::Connected => {
                if delivered {
                    Ok(())
                } else {
                    self.state = ConnectionState::Disconnected;
                    Err(TransportError::PublishFailed)
                }
            },
        }
    }

    /// Drops the connection, as when the observed application went away.
    pub fn connection_lost(&mut self)
        ensures
            final(self)@ == ConnectionState::Disconnected,
    {
        self.state = ConnectionState::Disconnected;
    }
}

} // verus!
