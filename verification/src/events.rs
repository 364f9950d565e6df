use vstd::prelude::*;

verus! {

/// What to do with one item of Docker's event stream.
#[derive(Debug)]
pub enum EventAction {
    /// Send this text to every listener.
    Broadcast(String),
    /// Report this error and go on.
    Report(String),
}

/// Decides what an item of Docker's event stream becomes: an event (given by
/// its debug text) is broadcast as `Message: <event>`, an error (given by
/// its text) is reported as `Error: <error>`.
pub fn docker_event_action(item: Result<String, String>) -> (r: EventAction)
    ensures
        match item {
            Ok(event) => r matches EventAction::Broadcast(m) && m@ == "Message: "@ + event@,
            Err(e) => r matches EventAction::Report(m) && m@ == "Error: "@ + e@,
        },
{
    match item {
        Ok(event) => EventAction::Broadcast("Message: ".to_owned().concat(event.as_str())),
        Err(e) => EventAction::Report("Error: ".to_owned().concat(e.as_str())),
    }
}

} // verus!
