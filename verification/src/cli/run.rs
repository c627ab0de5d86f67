//! Running the program.

use vstd::prelude::*;

use super::ipc::{Request, Response, ResponseCode};
#[allow(unused_imports)]
use crate::strings::opt_view;

verus! {

/// What has happened.
#[derive(Copy, Clone, Debug, PartialEq, Eq, Structural)]
pub enum Event {
    /// The connection to Twitter has ended, or has failed.
    Disconnected,
    /// The user has asked to quit.
    Signal,
    /// A request has come.
    Ipc(Request),
}

/// What to do.
#[derive(Copy, Clone, Debug, PartialEq, Eq, Structural)]
pub enum Action {
    /// Connect again.
    Reset,
    /// Shut down and quit.
    Quit,
    /// Replace the manifest by what its file holds, and respond.
    Reload,
    /// Shut down, respond and quit.
    Shutdown,
}

/// Decides what to do.
pub fn handle(event: Event) -> (r: Action)
    ensures
        r == match event {
            Event::Disconnected => Action::Reset,
            Event::Signal => Action::Quit,
            Event::Ipc(Request::Reload) => Action::Reload,
            Event::Ipc(Request::Shutdown) => Action::Shutdown,
        },
{
    match event {
        Event::Disconnected => Action::Reset,
        Event::Signal => Action::Quit,
        Event::Ipc(Request::Reload) => Action::Reload,
        Event::Ipc(Request::Shutdown) => Action::Shutdown,
    }
}

/// What follows an action.
#[derive(Copy, Clone, Debug, PartialEq, Eq, Structural)]
pub enum After {
    /// Wait for the next event.
    Continue,
    /// Quit.
    Exit,
    /// Quit with the error of the action.
    Fail,
}

/// Decides what follows an action, and what to respond to the request for it, if there is one. An
/// error ends the program, whatever was done.
pub fn finish(action: Action, succeeded: bool) -> (r: (After, Option<Response>))
    ensures
        r.0 == (if !succeeded {
            After::Fail
        } else {
            match action {
                Action::Reset | Action::Reload => After::Continue,
                Action::Quit | Action::Shutdown => After::Exit,
            }
        }),
        match (action, r.1) {
            (Action::Reset, response) => response is None,
            (Action::Quit, response) => response is None,
            (_, None) => false,
            (_, Some(response)) => if succeeded {
                response == (Response { message: None, code: ResponseCode::Success })
            } else {
                &&& response.code == ResponseCode::InternalError
                &&& opt_view(response.message) == Some(
                    if action == Action::Reload {
                        "failed to reload the manifest"@
                    } else {
                        "error occured during shutdown"@
                    },
                )
            },
        },
{
    let after = if !succeeded {
        After::Fail
    } else {
        match action {
            Action::Reset | Action::Reload => After::Continue,
            Action::Quit | Action::Shutdown => After::Exit,
        }
    };
    let message = match action {
        Action::Reset | Action::Quit => return (after, None),
        Action::Reload => "failed to reload the manifest",
        Action::Shutdown => "error occured during shutdown",
    };
    let response = if succeeded {
        Response::new(ResponseCode::Success, None)
    } else {
        Response::new(ResponseCode::InternalError, Some(message.to_owned()))
    };
    (after, Some(response))
}

} // verus!
