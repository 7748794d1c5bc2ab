//! Reading a message out of a JSON value. The wire carries no tag, so the
//! shapes are tried in a fixed order and the first that fits is taken.

use vstd::prelude::*;
use crate::json::Json;
use crate::protocol::{
    text_view, texts_view, DeviceError, DeviceErrorView, Event, EventView, Heartbeat, KeyEvent,
    KeyEventView, Profiles, ProfilesView, Saved,
};

verus! {

/// What a search for a key among the members of an object comes to.
#[derive(Debug, PartialEq, Eq)]
pub enum Found<T> {
    /// No member has the key.
    Missing,
    /// One member has the key, with this value.
    Once(T),
    /// Two members or more have the key.
    Repeated,
}

/// What a search for a key among the members of an object finds: the value
/// of the one member that has the key, or that none has it, or that several
/// have it. A key that stands twice is never read: no shape fits an object
/// that repeats one of the shape's keys.
pub open spec fn found(fields: Seq<(String, Json)>, key: Seq<char>) -> Found<Json>
    decreases fields.len(),
{
    if fields.len() == 0 {
        Found::Missing
    } else {
        let before = found(fields.drop_last(), key);
        if fields.last().0@ == key {
            match before {
                Found::Missing => Found::Once(fields.last().1),
                _ => Found::Repeated,
            }
        } else {
            before
        }
    }
}

/// A text, where the value is one.
pub open spec fn as_text(j: Json) -> Option<Seq<char>> {
    match j {
        Json::Text(s) => Some(s@),
        _ => None,
    }
}

/// A boolean, where the value is one.
pub open spec fn as_flag(j: Json) -> Option<bool> {
    match j {
        Json::Bool(b) => Some(b),
        _ => None,
    }
}

/// A non-negative integer up to `max`, where the value is one.
pub open spec fn as_uint(j: Json, max: u64) -> Option<u64> {
    match j {
        Json::Number(Some(n)) => if n <= max {
            Some(n)
        } else {
            None
        },
        _ => None,
    }
}

/// An integer from 0 to 255, where the value is one.
pub open spec fn as_u8(j: Json) -> Option<u8> {
    match as_uint(j, 0xff) {
        Some(n) => Some(n as u8),
        None => None,
    }
}

/// An integer from 0 to 2^32 - 1, where the value is one.
pub open spec fn as_u32(j: Json) -> Option<u32> {
    match as_uint(j, 0xffff_ffff) {
        Some(n) => Some(n as u32),
        None => None,
    }
}

/// The members, where the value is an object.
pub open spec fn as_object(j: Json) -> Option<Seq<(String, Json)>> {
    match j {
        Json::Object(fields) => Some(fields@),
        _ => None,
    }
}

/// A member that must be there and read: `None` where it is missing, stands
/// twice or does not read.
pub open spec fn required<T>(m: Found<Json>, read: spec_fn(Json) -> Option<T>) -> Option<T> {
    match m {
        Found::Once(j) => read(j),
        _ => None,
    }
}

/// A member that may be missing or null, which both give `Some(None)`; the
/// outer `None` where it stands twice, or is there and does not read.
pub open spec fn optional<T>(m: Found<Json>, read: spec_fn(Json) -> Option<T>) -> Option<
    Option<T>,
> {
    match m {
        Found::Missing => Some(None),
        Found::Repeated => None,
        Found::Once(Json::Null) => Some(None),
        Found::Once(j) => match read(j) {
            Some(v) => Some(Some(v)),
            None => None,
        },
    }
}

/// A member that may be missing, which gives `Some(None)`, but must read
/// where it is there: the outer `None` where it does not, or stands twice.
pub open spec fn strict<T>(m: Found<Json>, read: spec_fn(Json) -> Option<T>) -> Option<
    Option<T>,
> {
    match m {
        Found::Missing => Some(None),
        Found::Repeated => None,
        Found::Once(j) => match read(j) {
            Some(v) => Some(Some(v)),
            None => None,
        },
    }
}

/// Every item of a list read: `None` where one of them does not read.
pub open spec fn each<T>(items: Seq<Json>, read: spec_fn(Json) -> Option<T>) -> Option<Seq<T>> {
    if forall|i: int| 0 <= i < items.len() ==> read(#[trigger] items[i]) is Some {
        Some(Seq::new(items.len(), |i: int| read(items[i])->0))
    } else {
        None
    }
}

/// A list read item by item, where the value is an array.
pub open spec fn as_list<T>(j: Json, read: spec_fn(Json) -> Option<T>) -> Option<Seq<T>> {
    match j {
        Json::Array(items) => each(items@, read),
        _ => None,
    }
}

/// The text under a key that must be there.
pub open spec fn text_at(fields: Seq<(String, Json)>, key: Seq<char>) -> Option<Seq<char>> {
    required(found(fields, key), |j: Json| as_text(j))
}

/// The text under a key that may be missing or hold null.
pub open spec fn opt_text_at(fields: Seq<(String, Json)>, key: Seq<char>) -> Option<
    Option<Seq<char>>,
> {
    optional(found(fields, key), |j: Json| as_text(j))
}

/// The boolean under a key that must be there.
pub open spec fn flag_at(fields: Seq<(String, Json)>, key: Seq<char>) -> Option<bool> {
    required(found(fields, key), |j: Json| as_flag(j))
}

/// The boolean under a key that may be missing or hold null.
pub open spec fn opt_flag_at(fields: Seq<(String, Json)>, key: Seq<char>) -> Option<
    Option<bool>,
> {
    optional(found(fields, key), |j: Json| as_flag(j))
}

/// The integer from 0 to 255 under a key that must be there.
pub open spec fn u8_at(fields: Seq<(String, Json)>, key: Seq<char>) -> Option<u8> {
    required(found(fields, key), |j: Json| as_u8(j))
}

/// The integer from 0 to 255 under a key that may be missing or hold null.
pub open spec fn opt_u8_at(fields: Seq<(String, Json)>, key: Seq<char>) -> Option<Option<u8>> {
    optional(found(fields, key), |j: Json| as_u8(j))
}

/// The integer from 0 to 2^32 - 1 under a key that must be there.
pub open spec fn u32_at(fields: Seq<(String, Json)>, key: Seq<char>) -> Option<u32> {
    required(found(fields, key), |j: Json| as_u32(j))
}

/// The integer from 0 to 2^32 - 1 under a key that may be missing or hold
/// null.
pub open spec fn opt_u32_at(fields: Seq<(String, Json)>, key: Seq<char>) -> Option<
    Option<u32>,
> {
    optional(found(fields, key), |j: Json| as_u32(j))
}

/// Searches the members of an object for a key.
pub fn lookup<'a>(fields: &'a Vec<(String, Json)>, key: &str) -> (r: Found<&'a Json>)
    ensures
        match r {
            Found::Missing => found(fields@, key@) is Missing,
            Found::Once(j) => found(fields@, key@) == Found::Once(*j),
            Found::Repeated => found(fields@, key@) is Repeated,
        },
{
    let wanted = key.to_owned();
    let mut so_far: Found<&'a Json> = Found::Missing;
    let mut i: usize = 0;
    while i < fields.len()
        invariant
            i <= fields.len(),
            wanted@ == key@,
            match so_far {
                Found::Missing => found(fields@.take(i as int), key@) is Missing,
                Found::Once(j) => found(fields@.take(i as int), key@) == Found::Once(*j),
                Found::Repeated => found(fields@.take(i as int), key@) is Repeated,
            },
        decreases fields.len() - i,
    {
        proof {
            assert(fields@.take(i + 1).drop_last() =~= fields@.take(i as int));
        }
        if fields[i].0 == wanted {
            so_far = match so_far {
                Found::Missing => Found::Once(&fields[i].1),
                _ => Found::Repeated,
            };
        }
        i += 1;
    }
    proof {
        assert(fields@.take(i as int) =~= fields@);
    }
    so_far
}

/// Searches the members of an object for a key that must stand there once.
pub fn lookup_once<'a>(fields: &'a Vec<(String, Json)>, key: &str) -> (r: Option<&'a Json>)
    ensures
        match r {
            Some(j) => found(fields@, key@) == Found::Once(*j),
            None => !(found(fields@, key@) is Once),
        },
{
    match lookup(fields, key) {
        Found::Once(j) => Some(j),
        _ => None,
    }
}

/// A key that two members have is found repeated.
pub proof fn twice_is_repeated(fields: Seq<(String, Json)>, key: Seq<char>, i: int, j: int)
    requires
        0 <= i < j < fields.len(),
        fields[i].0@ == key,
        fields[j].0@ == key,
    ensures
        found(fields, key) is Repeated,
    decreases fields.len(),
{
    let before = fields.drop_last();
    if j == fields.len() - 1 {
        present_is_not_missing(before, key, i);
    } else {
        twice_is_repeated(before, key, i, j);
    }
}

/// A key that a member has is not found missing.
pub proof fn present_is_not_missing(fields: Seq<(String, Json)>, key: Seq<char>, i: int)
    requires
        0 <= i < fields.len(),
        fields[i].0@ == key,
    ensures
        !(found(fields, key) is Missing),
    decreases fields.len(),
{
    if i < fields.len() - 1 {
        present_is_not_missing(fields.drop_last(), key, i);
    }
}

/// Reads a text.
pub fn read_text(j: &Json) -> (r: Option<String>)
    ensures
        text_view(r) == as_text(*j),
{
    match j {
        Json::Text(s) => Some(s.clone()),
        _ => None,
    }
}

/// Reads a boolean.
pub fn read_flag(j: &Json) -> (r: Option<bool>)
    ensures
        r == as_flag(*j),
{
    match j {
        Json::Bool(b) => Some(*b),
        _ => None,
    }
}

/// Reads a non-negative integer up to `max`.
pub fn read_uint(j: &Json, max: u64) -> (r: Option<u64>)
    ensures
        r == as_uint(*j, max),
{
    match j {
        Json::Number(Some(n)) => if *n <= max {
            Some(*n)
        } else {
            None
        },
        _ => None,
    }
}

/// Reads an integer from 0 to 255.
pub fn read_u8(j: &Json) -> (r: Option<u8>)
    ensures
        r == as_u8(*j),
{
    match read_uint(j, 0xff) {
        Some(n) => Some(n as u8),
        None => None,
    }
}

/// Reads an integer from 0 to 2^32 - 1.
pub fn read_u32(j: &Json) -> (r: Option<u32>)
    ensures
        r == as_u32(*j),
{
    match read_uint(j, 0xffff_ffff) {
        Some(n) => Some(n as u32),
        None => None,
    }
}

/// Reads a text that must be there.
pub fn get_text(fields: &Vec<(String, Json)>, key: &str) -> (r: Option<String>)
    ensures
        text_view(r) == text_at(fields@, key@),
{
    match lookup_once(fields, key) {
        Some(j) => read_text(j),
        None => None,
    }
}

/// Reads a text that may be missing or null.
pub fn get_opt_text(fields: &Vec<(String, Json)>, key: &str) -> (r: Option<Option<String>>)
    ensures
        match r {
            Some(t) => opt_text_at(fields@, key@) == Some(text_view(t)),
            None => opt_text_at(fields@, key@) is None,
        },
{
    match lookup(fields, key) {
        Found::Missing => Some(None),
        Found::Repeated => None,
        Found::Once(Json::Null) => Some(None),
        Found::Once(j) => match read_text(j) {
            Some(t) => Some(Some(t)),
            None => None,
        },
    }
}

/// Reads a boolean that must be there.
pub fn get_flag(fields: &Vec<(String, Json)>, key: &str) -> (r: Option<bool>)
    ensures
        r == flag_at(fields@, key@),
{
    match lookup_once(fields, key) {
        Some(j) => read_flag(j),
        None => None,
    }
}

/// Reads a boolean that may be missing or null.
pub fn get_opt_flag(fields: &Vec<(String, Json)>, key: &str) -> (r: Option<Option<bool>>)
    ensures
        r == opt_flag_at(fields@, key@),
{
    match lookup(fields, key) {
        Found::Missing => Some(None),
        Found::Repeated => None,
        Found::Once(Json::Null) => Some(None),
        Found::Once(j) => match read_flag(j) {
            Some(t) => Some(Some(t)),
            None => None,
        },
    }
}

/// Reads an integer from 0 to 255 that must be there.
pub fn get_u8(fields: &Vec<(String, Json)>, key: &str) -> (r: Option<u8>)
    ensures
        r == u8_at(fields@, key@),
{
    match lookup_once(fields, key) {
        Some(j) => read_u8(j),
        None => None,
    }
}

/// Reads an integer from 0 to 255 that may be missing or null.
pub fn get_opt_u8(fields: &Vec<(String, Json)>, key: &str) -> (r: Option<Option<u8>>)
    ensures
        r == opt_u8_at(fields@, key@),
{
    match lookup(fields, key) {
        Found::Missing => Some(None),
        Found::Repeated => None,
        Found::Once(Json::Null) => Some(None),
        Found::Once(j) => match read_u8(j) {
            Some(t) => Some(Some(t)),
            None => None,
        },
    }
}

/// Reads an integer from 0 to 2^32 - 1 that must be there.
pub fn get_u32(fields: &Vec<(String, Json)>, key: &str) -> (r: Option<u32>)
    ensures
        r == u32_at(fields@, key@),
{
    match lookup_once(fields, key) {
        Some(j) => read_u32(j),
        None => None,
    }
}

/// Reads an integer from 0 to 2^32 - 1 that may be missing or null.
pub fn get_opt_u32(fields: &Vec<(String, Json)>, key: &str) -> (r: Option<Option<u32>>)
    ensures
        r == opt_u32_at(fields@, key@),
{
    match lookup(fields, key) {
        Found::Missing => Some(None),
        Found::Repeated => None,
        Found::Once(Json::Null) => Some(None),
        Found::Once(j) => match read_u32(j) {
            Some(t) => Some(Some(t)),
            None => None,
        },
    }
}

/// The failure that an object with these members reports, where it has the
/// shape of one: a text under `error`, and under `msg` a text, null or
/// nothing.
pub open spec fn device_error_of(fields: Seq<(String, Json)>) -> Option<DeviceErrorView> {
    let error = text_at(fields, "error"@);
    let msg = opt_text_at(fields, "msg"@);
    if error is Some && msg is Some {
        Some(DeviceErrorView { error: error->0, msg: msg->0 })
    } else {
        None
    }
}

/// Reads a device failure.
pub fn read_device_error(fields: &Vec<(String, Json)>) -> (r: Option<DeviceError>)
    ensures
        match r {
            Some(e) => device_error_of(fields@) == Some(e@),
            None => device_error_of(fields@) is None,
        },
{
    let error = get_text(fields, "error")?;
    let msg = get_opt_text(fields, "msg")?;
    Some(DeviceError { error, msg })
}

/// The heartbeat in an object: an integer below 2^64 under `idle`.
pub open spec fn heartbeat_of(fields: Seq<(String, Json)>) -> Option<Heartbeat> {
    match required(found(fields, "idle"@), |j: Json| as_uint(j, u64::MAX)) {
        Some(idle) => Some(Heartbeat { idle }),
        None => None,
    }
}

/// Reads a heartbeat.
pub fn read_heartbeat(fields: &Vec<(String, Json)>) -> (r: Option<Heartbeat>)
    ensures
        r == heartbeat_of(fields@),
{
    let idle = read_uint(lookup_once(fields, "idle")?, u64::MAX)?;
    Some(Heartbeat { idle })
}

/// The acknowledgement in an object: a boolean under `saved`.
pub open spec fn saved_of(fields: Seq<(String, Json)>) -> Option<Saved> {
    match flag_at(fields, "saved"@) {
        Some(saved) => Some(Saved { saved }),
        None => None,
    }
}

/// Reads the acknowledgement of a save or load.
pub fn read_saved(fields: &Vec<(String, Json)>) -> (r: Option<Saved>)
    ensures
        r == saved_of(fields@),
{
    let saved = get_flag(fields, "saved")?;
    Some(Saved { saved })
}

/// Whether a key may stand in an event: `p`, `ks`, `kd` or `ku`.
pub open spec fn is_event_key(key: Seq<char>) -> bool {
    key == "p"@ || key == "ks"@ || key == "kd"@ || key == "ku"@
}

/// The state of the four keys: bit `i` of the number under `ks` says whether
/// key `i` is down; without that number none is.
pub open spec fn key_states(ks: Option<u32>) -> Seq<bool> {
    match ks {
        Some(n) => seq![n & 1 != 0, n & 2 != 0, n & 4 != 0, n & 8 != 0],
        None => seq![false, false, false, false],
    }
}

/// The event in an object. Every key is one of `p`, `ks`, `kd`, `ku`, and
/// none stands twice; `p` holds an integer below 2^64, the others one below
/// 2^32. With `p` it is a
/// position, whatever else is there; else a key going down with `kd`, else
/// one going up with `ku`. The key's number keeps its low eight bits.
pub open spec fn event_of(fields: Seq<(String, Json)>) -> Option<EventView> {
    let p = strict(found(fields, "p"@), |j: Json| as_uint(j, u64::MAX));
    let ks = strict(found(fields, "ks"@), |j: Json| as_u32(j));
    let kd = strict(found(fields, "kd"@), |j: Json| as_u32(j));
    let ku = strict(found(fields, "ku"@), |j: Json| as_u32(j));
    if !(forall|i: int| 0 <= i < fields.len() ==> is_event_key((#[trigger] fields[i]).0@)) {
        None
    } else if p is None || ks is None || kd is None || ku is None {
        None
    } else if p->0 is Some {
        Some(EventView::Position(p->0->0))
    } else if kd->0 is Some {
        Some(
            EventView::Key(
                KeyEventView::Down { keys: key_states(ks->0), id: (kd->0->0 % 256) as u8 },
            ),
        )
    } else if ku->0 is Some {
        Some(
            EventView::Key(KeyEventView::Up { keys: key_states(ks->0), id: (ku->0->0 % 256) as u8 }),
        )
    } else {
        None
    }
}

/// Reads an integer below 2^32 that may be missing but not null.
fn get_strict_u32(fields: &Vec<(String, Json)>, key: &str) -> (r: Option<Option<u32>>)
    ensures
        r == strict(found(fields@, key@), |j: Json| as_u32(j)),
{
    match lookup(fields, key) {
        Found::Missing => Some(None),
        Found::Repeated => None,
        Found::Once(j) => match read_u32(j) {
            Some(n) => Some(Some(n)),
            None => None,
        },
    }
}

/// Tells whether every key of an object may stand in an event.
fn only_event_keys(fields: &Vec<(String, Json)>) -> (r: bool)
    ensures
        r == (forall|i: int| 0 <= i < fields@.len() ==> is_event_key((#[trigger] fields@[i]).0@)),
{
    let p = "p".to_owned();
    let ks = "ks".to_owned();
    let kd = "kd".to_owned();
    let ku = "ku".to_owned();
    let mut i: usize = 0;
    while i < fields.len()
        invariant
            i <= fields.len(),
            p@ == "p"@,
            ks@ == "ks"@,
            kd@ == "kd"@,
            ku@ == "ku"@,
            forall|k: int| 0 <= k < i ==> is_event_key((#[trigger] fields@[k]).0@),
        decreases fields.len() - i,
    {
        let key = &fields[i].0;
        if !(*key == p || *key == ks || *key == kd || *key == ku) {
            assert(!is_event_key(fields@[i as int].0@));
            return false;
        }
        i += 1;
    }
    true
}

/// Reads an event.
pub fn read_event(fields: &Vec<(String, Json)>) -> (r: Option<Event>)
    ensures
        match r {
            Some(e) => event_of(fields@) == Some(e@),
            None => event_of(fields@) is None,
        },
{
    if !only_event_keys(fields) {
        return None;
    }
    let p = match lookup(fields, "p") {
        Found::Missing => None,
        Found::Repeated => {
            return None;
        },
        Found::Once(j) => Some(read_uint(j, u64::MAX)?),
    };
    let ks = get_strict_u32(fields, "ks")?;
    let kd = get_strict_u32(fields, "kd")?;
    let ku = get_strict_u32(fields, "ku")?;
    if let Some(position) = p {
        return Some(Event::Position(position));
    }
    let keys: [bool; 4] = match ks {
        Some(n) => [n & 1 != 0, n & 2 != 0, n & 4 != 0, n & 8 != 0],
        None => [false, false, false, false],
    };
    assert(keys@ =~= key_states(ks));
    if let Some(n) = kd {
        Some(Event::Key(KeyEvent::Down { keys, id: (n % 256) as u8 }))
    } else if let Some(n) = ku {
        Some(Event::Key(KeyEvent::Up { keys, id: (n % 256) as u8 }))
    } else {
        None
    }
}

/// An object in which a key stands twice is no event, whatever the key and
/// whatever the two values.
pub proof fn repeated_key_is_no_event(fields: Seq<(String, Json)>, i: int, j: int)
    requires
        0 <= i < j < fields.len(),
        fields[i].0@ == fields[j].0@,
    ensures
        event_of(fields) is None,
{
    let key = fields[i].0@;
    twice_is_repeated(fields, key, i, j);
    if !is_event_key(key) {
        assert(!is_event_key(fields[i].0@));
    }
}

/// Reads a list of texts.
pub fn read_texts(j: &Json) -> (r: Option<Vec<String>>)
    ensures
        match r {
            Some(v) => as_list(*j, |x: Json| as_text(x)) == Some(texts_view(v@)),
            None => as_list(*j, |x: Json| as_text(x)) is None,
        },
{
    match j {
        Json::Array(items) => {
            let mut out: Vec<String> = Vec::new();
            let mut i: usize = 0;
            while i < items.len()
                invariant
                    *j == Json::Array(*items),
                    i <= items.len(),
                    out.len() == i,
                    forall|k: int| 0 <= k < i ==> as_text(#[trigger] items@[k]) == Some(out@[k]@),
                decreases items.len() - i,
            {
                match read_text(&items[i]) {
                    Some(t) => out.push(t),
                    None => {
                        assert(as_text(items@[i as int]) is None);
                        return None;
                    },
                }
                i += 1;
            }
            assert(texts_view(out@) =~= Seq::new(items@.len(), |i: int| as_text(items@[i])->0));
            Some(out)
        },
        _ => None,
    }
}

/// The list of profiles in an object: a text under `current`, and under
/// `profiles` a list of texts, null or nothing.
pub open spec fn profiles_of(fields: Seq<(String, Json)>) -> Option<ProfilesView> {
    let profiles = optional(
        found(fields, "profiles"@),
        |j: Json| as_list(j, |x: Json| as_text(x)),
    );
    let current = text_at(fields, "current"@);
    if profiles is Some && current is Some {
        Some(ProfilesView { profiles: profiles->0, current_profile: current->0 })
    } else {
        None
    }
}

/// Reads the list of profiles.
pub fn read_profiles(fields: &Vec<(String, Json)>) -> (r: Option<Profiles>)
    ensures
        match r {
            Some(p) => profiles_of(fields@) == Some(p@),
            None => profiles_of(fields@) is None,
        },
{
    let profiles = match lookup(fields, "profiles") {
        Found::Missing => None,
        Found::Repeated => {
            return None;
        },
        Found::Once(Json::Null) => None,
        Found::Once(j) => Some(read_texts(j)?),
    };
    let current_profile = get_text(fields, "current")?;
    Some(Profiles { profiles, current_profile })
}

} // verus!
