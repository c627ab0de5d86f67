//! Requests to a program that is running.

use vstd::prelude::*;

#[allow(unused_imports)]
use crate::strings::opt_view;

verus! {

/// A request.
#[derive(Copy, Clone, Debug, PartialEq, Eq, Structural)]
pub enum Request {
    Reload,
    Shutdown,
}

/// The response to a request.
#[derive(Debug)]
pub struct Response {
    pub message: Option<String>,
    pub code: ResponseCode,
}

/// What came of a request.
#[derive(Copy, Clone, Debug, PartialEq, Eq, Structural)]
pub enum ResponseCode {
    Success,
    InternalError,
    RequestUnrecognized,
}

impl ResponseCode {
    /// The name of the code.
    pub open spec fn name(&self) -> Seq<char> {
        match self {
            ResponseCode::Success => "SUCCESS"@,
            ResponseCode::InternalError => "INTERNAL_ERROR"@,
            ResponseCode::RequestUnrecognized => "REQUEST_UNRECOGNIZED"@,
        }
    }

    /// Returns the name of the code.
    pub fn as_str(&self) -> (r: &'static str)
        ensures
            r@ == self.name(),
    {
        match self {
            ResponseCode::Success => "SUCCESS",
            ResponseCode::InternalError => "INTERNAL_ERROR",
            ResponseCode::RequestUnrecognized => "REQUEST_UNRECOGNIZED",
        }
    }
}

impl Default for ResponseCode {
    fn default() -> (r: Self)
        ensures
            r == ResponseCode::Success,
    {
        ResponseCode::Success
    }
}

impl Default for Response {
    fn default() -> (r: Self)
        ensures
            r == (Response { message: None, code: ResponseCode::Success }),
    {
        Response { message: None, code: ResponseCode::Success }
    }
}

impl Response {
    /// Makes a response.
    pub fn new(code: ResponseCode, message: Option<String>) -> (r: Self)
        ensures
            r == (Response { message, code }),
    {
        Response { message, code }
    }

    /// Tells success and failure apart.
    pub fn result(self) -> (r: Result<Self, Self>)
        ensures
            r == (if self.code == ResponseCode::Success {
                Ok(self)
            } else {
                Err(self)
            }),
    {
        match self.code {
            ResponseCode::Success => Ok(self),
            _ => Err(self),
        }
    }

    /// Returns the message, or else the name of the code.
    pub fn text(&self) -> (r: &str)
        ensures
            r@ == match self.message {
                Some(message) => message@,
                None => self.code.name(),
            },
    {
        match &self.message {
            Some(message) => message.as_str(),
            None => self.code.as_str(),
        }
    }
}

/// What came of a connection.
#[derive(Copy, Clone, Debug, PartialEq, Eq, Structural)]
pub enum Connection {
    /// No more connections come.
    Closed,
    /// The connection could not be accepted.
    AcceptFailed,
    /// The request could not be received.
    ReadFailed,
    /// What was received is not a request.
    Unrecognized,
    Received(Request),
}

/// What follows a connection.
#[derive(Debug)]
pub enum ServerStep {
    Stop,
    /// The connection is given up.
    Skip,
    /// The connection is answered and closed.
    Respond(Response),
    /// The request is passed on.
    Pass(Request),
}

/// Decides what follows a connection. Only the end of the connections, and not a failure of one,
/// ends the server.
pub fn serve(connection: Connection) -> (r: ServerStep)
    ensures
        match connection {
            Connection::Closed => r is Stop,
            Connection::AcceptFailed => r is Skip,
            Connection::ReadFailed => r is Skip,
            Connection::Unrecognized => r matches ServerStep::Respond(response) && response.code
                == ResponseCode::RequestUnrecognized && opt_view(response.message) == Some(
                "request unrecognized"@,
            ),
            Connection::Received(request) => r == ServerStep::Pass(request),
        },
{
    match connection {
        Connection::Closed => ServerStep::Stop,
        Connection::AcceptFailed => ServerStep::Skip,
        Connection::ReadFailed => ServerStep::Skip,
        Connection::Unrecognized => ServerStep::Respond(
            Response::new(
                ResponseCode::RequestUnrecognized,
                Some("request unrecognized".to_owned()),
            ),
        ),
        Connection::Received(request) => ServerStep::Pass(request),
    }
}

} // verus!
