//! What a caller makes of the outcome of its command: the checks behind the
//! typed requests of the device handle.

use vstd::prelude::*;
use crate::error::Error;
use crate::protocol::{Message, Profile, Settings};

verus! {

/// What a request returns for what came out of its reply channel: the
/// outcome that the engine delivered, or, where the channel was abandoned
/// because the engine is gone, the error that says so.
pub fn outcome_of_wait(received: Option<Result<Message, Error>>) -> (r: Result<Message, Error>)
    ensures
        match received {
            Some(outcome) => r == outcome,
            None => r == Err::<Message, Error>(Error::CommandSendError),
        },
{
    match received {
        Some(outcome) => outcome,
        None => Err(Error::CommandSendError),
    }
}

/// What a command without reply returns for whether it could be queued.
pub fn outcome_of_send(queued: bool) -> (r: Result<(), Error>)
    ensures
        queued ==> r == Ok::<(), Error>(()),
        !queued ==> r == Err::<(), Error>(Error::CommandSendError),
{
    if queued {
        Ok(())
    } else {
        Err(Error::CommandSendError)
    }
}

/// The settings in the reply to a request for them. A failure report
/// becomes a command error, any other message is unexpected.
pub fn get_settings(reply: Message) -> (r: Result<Settings, Error>)
    ensures
        match reply {
            Message::Settings(root) => r == Ok::<Settings, Error>(root.settings),
            Message::Error(e) => r == Err::<Settings, Error>(Error::CommandError(e.error, e.msg)),
            _ => r == Err::<Settings, Error>(Error::UnexpectedResponse(reply)),
        },
{
    match reply {
        Message::Settings(root) => Ok(root.settings),
        Message::Error(e) => Err(Error::CommandError(e.error, e.msg)),
        other => Err(Error::UnexpectedResponse(other)),
    }
}

/// The names in the reply to a request for the list of profiles; no name
/// where the device sent no list. A failure report becomes a command error,
/// any other message is unexpected.
pub fn get_profiles(reply: Message) -> (r: Result<Vec<String>, Error>)
    ensures
        match reply {
            Message::Profiles(p) => match p.profiles {
                Some(names) => r == Ok::<Vec<String>, Error>(names),
                None => r is Ok && r->Ok_0@ == Seq::<String>::empty(),
            },
            Message::Error(e) => r == Err::<Vec<String>, Error>(
                Error::CommandError(e.error, e.msg),
            ),
            _ => r == Err::<Vec<String>, Error>(Error::UnexpectedResponse(reply)),
        },
{
    match reply {
        Message::Profiles(p) => match p.profiles {
            Some(names) => Ok(names),
            None => Ok(Vec::new()),
        },
        Message::Error(e) => Err(Error::CommandError(e.error, e.msg)),
        other => Err(Error::UnexpectedResponse(other)),
    }
}

/// The profile in the reply to a request for one. A failure report becomes
/// a command error, any other message is unexpected.
pub fn get_profile(reply: Message) -> (r: Result<Profile, Error>)
    ensures
        match reply {
            Message::Profile(root) => r == Ok::<Profile, Error>(root.profile),
            Message::Error(e) => r == Err::<Profile, Error>(Error::CommandError(e.error, e.msg)),
            _ => r == Err::<Profile, Error>(Error::UnexpectedResponse(reply)),
        },
{
    match reply {
        Message::Profile(root) => Ok(root.profile),
        Message::Error(e) => Err(Error::CommandError(e.error, e.msg)),
        other => Err(Error::UnexpectedResponse(other)),
    }
}

/// Whether a subscriber to events alone is shown this message.
pub fn is_event(m: &Message) -> (b: bool)
    ensures
        b == (m is Event),
{
    match m {
        Message::Event(_) => true,
        _ => false,
    }
}

} // verus!
