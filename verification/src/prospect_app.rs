//! What an application answers when handed an input event, and the event
//! loop's decision on that answer.

use vstd::prelude::*;

verus! {

/// An application's answer to one input event.
#[derive(Clone, Copy, Debug, PartialEq, Eq, Structural)]
pub enum ProcessResponse {
    /// Close the window and end the event loop.
    CloseApp,
    /// Let the engine apply its default handling (it exits on escape).
    ProspectProcess,
    /// The event is consumed; the engine does nothing more with it.
    DontProcess,
}

/// The event loop's decision: whether the loop exits after this event, given
/// the application's answer and whether the event was the escape key going
/// down.
pub fn should_exit(response: ProcessResponse, escape_pressed: bool) -> (r: bool)
    ensures
        r == (response == ProcessResponse::CloseApp || (response == ProcessResponse::ProspectProcess
            && escape_pressed)),
{
    match response {
        ProcessResponse::CloseApp => true,
        ProcessResponse::ProspectProcess => escape_pressed,
        ProcessResponse::DontProcess => false,
    }
}

} // verus!
