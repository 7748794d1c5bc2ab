//! Decoding a record into a message: the shapes in their fixed order.

use vstd::prelude::*;
use crate::decode::{
    as_object, device_error_of, event_of, found, heartbeat_of, lookup_once, profiles_of,
    repeated_key_is_no_event, twice_is_repeated,
    read_device_error, read_event, read_heartbeat, read_profiles, read_saved, saved_of, Found,
};
use crate::error::Error;
use crate::json::{json_of_text, parse_json, Json};
use crate::protocol::{Message, MessageView, ProfileRoot, ProfileView, SettingsRoot, SettingsView};
use crate::records::{profile_of, read_profile, read_settings, settings_of};

verus! {

/// The profile that an object carries under `profile`, where that key
/// stands once.
pub open spec fn profile_root_of(f: Seq<(String, Json)>) -> Option<ProfileView> {
    match found(f, "profile"@) {
        Found::Once(Json::Object(inner)) => profile_of(inner@),
        _ => None,
    }
}

/// The settings that an object carries under `settings`, where that key
/// stands once.
pub open spec fn settings_root_of(f: Seq<(String, Json)>) -> Option<SettingsView> {
    match found(f, "settings"@) {
        Found::Once(Json::Object(inner)) => settings_of(inner@),
        _ => None,
    }
}

/// The message that a JSON value is: for an object, the first shape that
/// fits, in the order failure, heartbeat, acknowledgement, event, list of
/// profiles, profile, settings; `None` where none fits or the value is no
/// object.
pub open spec fn message_of(j: Json) -> Option<MessageView> {
    match as_object(j) {
        None => None,
        Some(f) => if device_error_of(f) is Some {
            Some(MessageView::Error(device_error_of(f)->0))
        } else if heartbeat_of(f) is Some {
            Some(MessageView::Heartbeat(heartbeat_of(f)->0))
        } else if saved_of(f) is Some {
            Some(MessageView::Saved(saved_of(f)->0))
        } else if event_of(f) is Some {
            Some(MessageView::Event(event_of(f)->0))
        } else if profiles_of(f) is Some {
            Some(MessageView::Profiles(profiles_of(f)->0))
        } else if profile_root_of(f) is Some {
            Some(MessageView::Profile(profile_root_of(f)->0))
        } else if settings_root_of(f) is Some {
            Some(MessageView::Settings(settings_root_of(f)->0))
        } else {
            None
        },
    }
}

/// The shapes a record can have, named after the messages.
#[derive(Debug, Clone, Copy, PartialEq, Eq)]
pub enum Shape {
    Error,
    Heartbeat,
    Saved,
    Event,
    Profiles,
    Profile,
    Settings,
}

/// The order in which the shapes are tried. It is part of the protocol: a
/// record that fits two shapes is the one that stands first here.
pub open spec fn shape_order() -> Seq<Shape> {
    seq![
        Shape::Error,
        Shape::Heartbeat,
        Shape::Saved,
        Shape::Event,
        Shape::Profiles,
        Shape::Profile,
        Shape::Settings,
    ]
}

/// Whether the members of an object fit a shape.
pub open spec fn fits(f: Seq<(String, Json)>, shape: Shape) -> bool {
    match shape {
        Shape::Error => device_error_of(f) is Some,
        Shape::Heartbeat => heartbeat_of(f) is Some,
        Shape::Saved => saved_of(f) is Some,
        Shape::Event => event_of(f) is Some,
        Shape::Profiles => profiles_of(f) is Some,
        Shape::Profile => profile_root_of(f) is Some,
        Shape::Settings => settings_root_of(f) is Some,
    }
}

/// The message that the members of an object are when read by one shape.
pub open spec fn read_as(f: Seq<(String, Json)>, shape: Shape) -> Option<MessageView> {
    match shape {
        Shape::Error => match device_error_of(f) {
            Some(e) => Some(MessageView::Error(e)),
            None => None,
        },
        Shape::Heartbeat => match heartbeat_of(f) {
            Some(h) => Some(MessageView::Heartbeat(h)),
            None => None,
        },
        Shape::Saved => match saved_of(f) {
            Some(s) => Some(MessageView::Saved(s)),
            None => None,
        },
        Shape::Event => match event_of(f) {
            Some(e) => Some(MessageView::Event(e)),
            None => None,
        },
        Shape::Profiles => match profiles_of(f) {
            Some(p) => Some(MessageView::Profiles(p)),
            None => None,
        },
        Shape::Profile => match profile_root_of(f) {
            Some(p) => Some(MessageView::Profile(p)),
            None => None,
        },
        Shape::Settings => match settings_root_of(f) {
            Some(s) => Some(MessageView::Settings(s)),
            None => None,
        },
    }
}

impl Shape {
    /// The place of a shape in the order of trial, from 0.
    pub fn priority(&self) -> (p: usize)
        ensures
            p < shape_order().len(),
            shape_order()[p as int] == *self,
    {
        match self {
            Shape::Error => 0,
            Shape::Heartbeat => 1,
            Shape::Saved => 2,
            Shape::Event => 3,
            Shape::Profiles => 4,
            Shape::Profile => 5,
            Shape::Settings => 6,
        }
    }
}

/// What a record says where it is JSON and has the shape of no message.
pub open spec fn no_shape_text() -> Seq<char> {
    "data did not match any variant of untagged enum Message"@
}

/// What a record decodes to: the message that it is, or the cause why it is
/// none. Where it is not JSON, the cause is the parser's complaint; where it
/// is JSON of no message's shape, the fixed text that says so.
pub open spec fn message_of_text(text: Seq<char>) -> Result<MessageView, Seq<char>> {
    match json_of_text(text) {
        Ok(j) => match message_of(j) {
            Some(m) => Ok(m),
            None => Err(no_shape_text()),
        },
        Err(words) => Err(words),
    }
}

/// Reads the profile under `profile`.
fn read_profile_root(f: &Vec<(String, Json)>) -> (r: Option<ProfileRoot>)
    ensures
        match r {
            Some(p) => profile_root_of(f@) == Some(p.profile@),
            None => profile_root_of(f@) is None,
        },
{
    match lookup_once(f, "profile") {
        Some(Json::Object(inner)) => {
            let profile = read_profile(inner)?;
            Some(ProfileRoot { profile })
        },
        _ => None,
    }
}

/// Reads the settings under `settings`.
fn read_settings_root(f: &Vec<(String, Json)>) -> (r: Option<SettingsRoot>)
    ensures
        match r {
            Some(s) => settings_root_of(f@) == Some(s.settings@),
            None => settings_root_of(f@) is None,
        },
{
    match lookup_once(f, "settings") {
        Some(Json::Object(inner)) => {
            let settings = read_settings(inner)?;
            Some(SettingsRoot { settings })
        },
        _ => None,
    }
}

impl Message {
    /// The shape that a message was read by.
    pub fn shape(&self) -> (s: Shape)
        ensures
            s == match *self {
                Message::Error(_) => Shape::Error,
                Message::Heartbeat(_) => Shape::Heartbeat,
                Message::Saved(_) => Shape::Saved,
                Message::Event(_) => Shape::Event,
                Message::Profiles(_) => Shape::Profiles,
                Message::Profile(_) => Shape::Profile,
                Message::Settings(_) => Shape::Settings,
            },
    {
        match self {
            Message::Error(_) => Shape::Error,
            Message::Heartbeat(_) => Shape::Heartbeat,
            Message::Saved(_) => Shape::Saved,
            Message::Event(_) => Shape::Event,
            Message::Profiles(_) => Shape::Profiles,
            Message::Profile(_) => Shape::Profile,
            Message::Settings(_) => Shape::Settings,
        }
    }

    /// Reads a message out of a JSON value: the first shape that fits. A
    /// shape does not fit an object that repeats one of the keys it reads.
    pub fn from_json(j: &Json) -> (r: Option<Message>)
        ensures
            match r {
                Some(m) => message_of(*j) == Some(m@),
                None => message_of(*j) is None,
            },
    {
        match j {
            Json::Object(f) => {
                if let Some(e) = read_device_error(f) {
                    return Some(Message::Error(e));
                }
                if let Some(h) = read_heartbeat(f) {
                    return Some(Message::Heartbeat(h));
                }
                if let Some(s) = read_saved(f) {
                    return Some(Message::Saved(s));
                }
                if let Some(e) = read_event(f) {
                    return Some(Message::Event(e));
                }
                if let Some(p) = read_profiles(f) {
                    return Some(Message::Profiles(p));
                }
                if let Some(p) = read_profile_root(f) {
                    return Some(Message::Profile(p));
                }
                if let Some(s) = read_settings_root(f) {
                    return Some(Message::Settings(s));
                }
                None
            },
            _ => None,
        }
    }

    /// Turns the outcome of parsing a record into the outcome of decoding
    /// it: the message that the value is; a parse error with the fixed cause
    /// where the value has the shape of no message; a parse error with the
    /// parser's words where there is no value.
    pub fn from_parsed(parsed: Result<Json, String>) -> (r: Result<Message, Error>)
        ensures
            match (parsed, r) {
                (Ok(j), Ok(m)) => message_of(j) == Some(m@),
                (Ok(j), Err(e)) => message_of(j) is None && e is ParseError
                    && e->ParseError_0@ == no_shape_text(),
                (Err(words), Ok(_)) => false,
                (Err(words), Err(e)) => e == Error::ParseError(words),
            },
    {
        match parsed {
            Ok(j) => match Message::from_json(&j) {
                Some(m) => Ok(m),
                None => Err(
                    Error::ParseError(
                        "data did not match any variant of untagged enum Message".to_owned(),
                    ),
                ),
            },
            Err(words) => Err(Error::ParseError(words)),
        }
    }

    /// Decodes a record. Succeeds exactly where the record is JSON and has
    /// the shape of a message, with that message; every failure is a parse
    /// error that holds the cause.
    ///
    /// The shapes are held against the value that the parser reads, and the
    /// parser keeps the later of two members with the same key. So a record
    /// whose text repeats a key is read as if only the later member stood
    /// there, while a value built by hand that repeats a key fits no shape
    /// that reads the key (see `from_json`).
    pub fn try_from(value: &str) -> (r: Result<Message, Error>)
        ensures
            match r {
                Ok(m) => message_of_text(value@) == Ok::<MessageView, Seq<char>>(m@),
                Err(e) => e is ParseError && message_of_text(value@) == Err::<
                    MessageView,
                    Seq<char>,
                >(e->ParseError_0@),
            },
    {
        Message::from_parsed(parse_json(value))
    }
}

/// Whether a shape reads a key at the top of a record. An event reads every
/// key, for it allows no key but its own four.
pub open spec fn reads_key(shape: Shape, key: Seq<char>) -> bool {
    match shape {
        Shape::Error => key == "error"@ || key == "msg"@,
        Shape::Heartbeat => key == "idle"@,
        Shape::Saved => key == "saved"@,
        Shape::Event => true,
        Shape::Profiles => key == "profiles"@ || key == "current"@,
        Shape::Profile => key == "profile"@,
        Shape::Settings => key == "settings"@,
    }
}

/// A record that repeats a key does not fit a shape that reads that key,
/// whatever the two values are. It may still fit a shape that does not read
/// the key.
pub proof fn repeated_key_does_not_fit(f: Seq<(String, Json)>, shape: Shape, i: int, j: int)
    requires
        0 <= i < j < f.len(),
        f[i].0@ == f[j].0@,
        reads_key(shape, f[i].0@),
    ensures
        !fits(f, shape),
{
    twice_is_repeated(f, f[i].0@, i, j);
    if shape is Event {
        repeated_key_is_no_event(f, i, j);
    }
}

/// The first shape that fits decides: a record that fits a shape, and none
/// of those that stand before it in the order of trial, is the message read
/// by that shape, whatever later shapes it fits as well.
pub proof fn first_fit_decides(j: Json, place: int)
    requires
        as_object(j) is Some,
        0 <= place < shape_order().len(),
        fits(as_object(j)->0, shape_order()[place]),
        forall|before: int| 0 <= before < place ==> !fits(as_object(j)->0, shape_order()[before]),
    ensures
        message_of(j) is Some,
        message_of(j) == read_as(as_object(j)->0, shape_order()[place]),
{
    let f = as_object(j)->0;
    if place >= 1 {
        assert(!fits(f, shape_order()[0]));
    }
    if place >= 2 {
        assert(!fits(f, shape_order()[1]));
    }
    if place >= 3 {
        assert(!fits(f, shape_order()[2]));
    }
    if place >= 4 {
        assert(!fits(f, shape_order()[3]));
    }
    if place >= 5 {
        assert(!fits(f, shape_order()[4]));
    }
    if place >= 6 {
        assert(!fits(f, shape_order()[5]));
    }
}

/// A value that is no object, or an object that fits no shape, is no
/// message.
pub proof fn no_fit_no_message(j: Json)
    requires
        as_object(j) is Some ==> forall|place: int|
            0 <= place < shape_order().len() ==> !fits(as_object(j)->0, shape_order()[place]),
    ensures
        message_of(j) is None,
{
    if as_object(j) is Some {
        let f = as_object(j)->0;
        assert(!fits(f, shape_order()[0]));
        assert(!fits(f, shape_order()[1]));
        assert(!fits(f, shape_order()[2]));
        assert(!fits(f, shape_order()[3]));
        assert(!fits(f, shape_order()[4]));
        assert(!fits(f, shape_order()[5]));
        assert(!fits(f, shape_order()[6]));
    }
}

/// A record with a text under `error`, and under `msg` a text, null or
/// nothing, is a failure report, whatever other shape it also has.
pub proof fn failure_shape_comes_first(j: Json)
    requires
        as_object(j) is Some,
        device_error_of(as_object(j)->0) is Some,
    ensures
        message_of(j) == Some(MessageView::Error(device_error_of(as_object(j)->0)->0)),
{
}

} // verus!
