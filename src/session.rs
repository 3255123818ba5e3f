//! The lifecycle of one serial line: created without a line, connected once
//! the line has been opened, and released on disconnect.
//!
//! The session decides; the caller performs the I/O. To connect, the caller
//! opens a line with `info` and hands the outcome to `connect`. For an
//! exchange, the caller asks `line` for the open line (or the no-device
//! error), writes the request, reads the response and hands what it read to
//! the framing functions.
use crate::config::SerialCom;
use vstd::prelude::*;

verus! {

/// What the library reports on its own account; errors of the line itself
/// come from whoever performs the I/O.
#[derive(Clone, Copy, Debug, PartialEq, Eq, Structural)]
pub enum SerialError {
    /// An exchange was asked of a session that holds no open line.
    NoDevice,
    /// A text response was shorter than its two-byte terminator.
    ShortResponse,
}

/// A serial session over a line handle of type `P`.
pub struct SerialStatus<P> {
    /// The open line; `None` before a successful connect and after disconnect.
    pub port: Option<P>,
    /// The parameters the line is opened with.
    pub info: SerialCom,
}

impl<P> SerialStatus<P> {
    /// Whether the session holds an open line.
    pub open spec fn connected(&self) -> bool {
        self.port is Some
    }

    /// A session over `config` that holds no line.
    pub open spec fn fresh(config: SerialCom) -> Self {
        SerialStatus { port: None, info: config }
    }

    /// This session, holding line `handle`.
    pub open spec fn with_line(self, handle: P) -> Self {
        SerialStatus { port: Some(handle), info: self.info }
    }

    /// This session, without a line.
    pub open spec fn released(self) -> Self {
        SerialStatus { port: None, info: self.info }
    }

    /// Builds a session over `config`; no I/O is done and no line is held.
    pub fn new(config: SerialCom) -> (r: Self)
        ensures
            r == Self::fresh(config),
    {
        SerialStatus { port: None, info: config }
    }

    /// Takes the outcome of opening a line with `self.info`. On success the
    /// session holds the line; on failure the open error is handed back
    /// unchanged and the session is dropped.
    pub fn connect<E>(self, opened: Result<P, E>) -> (r: Result<Self, E>)
        ensures
            opened is Ok ==> r == Ok::<Self, E>(self.with_line(opened->Ok_0)),
            opened is Err ==> r == Err::<Self, E>(opened->Err_0),
    {
        match opened {
            Ok(handle) => Ok(SerialStatus { port: Some(handle), info: self.info }),
            Err(e) => Err(e),
        }
    }

    /// Whether the session holds an open line. This only reads the session,
    /// so any number of readers may ask at once.
    pub fn is_connected(&self) -> (r: bool)
        ensures
            r == self.connected(),
    {
        self.port.is_some()
    }

    /// The open line for an exchange, or `NoDevice` when the session holds
    /// none; in that case no I/O should be attempted.
    pub fn line(&self) -> (r: Result<&P, SerialError>)
        ensures
            self.port is None ==> r == Err::<&P, SerialError>(SerialError::NoDevice),
            self.port is Some ==> (r is Ok && *r->Ok_0 == self.port->Some_0),
    {
        match &self.port {
            Some(handle) => Ok(handle),
            None => Err(SerialError::NoDevice),
        }
    }

    /// Ends the session's use of the line: the handle is dropped, which
    /// closes it, and the session reports not connected.
    pub fn disconnect(self) -> (r: Self)
        ensures
            r == self.released(),
    {
        SerialStatus { port: None, info: self.info }
    }
}

/// A fresh session is not connected, a successful connect makes any session
/// connected, and a disconnect makes any session not connected; none of them
/// changes the parameters.
pub proof fn lemma_lifecycle<P>(config: SerialCom, s: SerialStatus<P>, handle: P)
    ensures
        !SerialStatus::<P>::fresh(config).connected(),
        SerialStatus::<P>::fresh(config).info == config,
        s.with_line(handle).connected(),
        s.with_line(handle).info == s.info,
        !s.released().connected(),
        s.released().info == s.info,
{
}

} // verus!
