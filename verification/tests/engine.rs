use bongoknob::handle::{
    get_profile, get_profiles, get_settings, is_event, outcome_of_send, outcome_of_wait,
};
use bongoknob::{
    Action, Command, CorrelationQueue, DeviceError, Engine, EngineState, Error, Event, Heartbeat,
    Inbox, Message, Profiles, ReadOutcome, Saved, SerialError, Settings, SettingsRoot, Step,
};

fn saved(b: bool) -> Message {
    Message::Saved(Saved { saved: b })
}

#[test]
fn queue_is_first_in_first_out() {
    let mut q: CorrelationQueue<u32> = CorrelationQueue::new();
    assert!(q.is_empty());
    assert_eq!(q.pop_oldest(), None);
    q.push(1);
    q.push(2);
    q.push(3);
    assert_eq!(q.len(), 3);
    assert_eq!(q.pop_oldest(), Some(1));
    assert_eq!(q.pop_newest(), Some(3));
    assert_eq!(q.pop_oldest(), Some(2));
    assert_eq!(q.pop_oldest(), None);
    assert_eq!(q.pop_newest(), None);
}

#[test]
fn replies_go_out_in_send_order() {
    let mut e: Engine<u32> = Engine::new();
    e.submit(&Command::GetSettings, Some(10));
    e.submit(&Command::Save, None);
    e.submit(&Command::GetProfiles, Some(11));
    e.submit(&Command::GetProfile("x".to_string()), Some(12));
    let replies = vec![
        saved(true),
        Message::Error(DeviceError { error: "bad".to_string(), msg: Some("oops".to_string()) }),
        saved(false),
    ];
    let actions = e.dispatch_all(replies);
    assert_eq!(
        actions,
        vec![
            Action::Deliver(10, Ok(saved(true))),
            Action::Deliver(
                11,
                Err(Error::CommandError("bad".to_string(), Some("oops".to_string())))
            ),
            Action::Deliver(12, Ok(saved(false))),
        ]
    );
    assert!(e.waiting.is_empty());
}

#[test]
fn unsolicited_messages_are_published_and_leave_the_queue() {
    let mut e: Engine<u32> = Engine::new();
    e.submit(&Command::GetSettings, Some(10));
    let beat = Message::Heartbeat(Heartbeat { idle: 5 });
    let event = Message::Event(Event::Position(3));
    assert_eq!(e.dispatch(beat.clone()), Action::Publish(beat));
    assert_eq!(e.dispatch(event.clone()), Action::Publish(event));
    assert_eq!(e.waiting.len(), 1);
    assert_eq!(e.dispatch(saved(true)), Action::Deliver(10, Ok(saved(true))));
}

#[test]
fn stray_reply_is_dropped_and_leaves_no_trace() {
    let mut e: Engine<u32> = Engine::new();
    assert_eq!(e.dispatch(saved(true)), Action::Discard(saved(true)));
    assert!(e.waiting.is_empty());
    e.submit(&Command::GetSettings, Some(10));
    assert_eq!(e.dispatch(saved(false)), Action::Deliver(10, Ok(saved(false))));
}

#[test]
fn stray_device_error_is_reported() {
    let mut e: Engine<u32> = Engine::new();
    let m = Message::Error(DeviceError { error: "hot".to_string(), msg: None });
    assert_eq!(e.dispatch(m), Action::Report(Error::DeviceError("hot".to_string(), None)));
}

#[test]
fn one_read_with_two_records_gives_two_actions() {
    let mut e: Engine<u32> = Engine::new();
    e.submit(&Command::GetSettings, Some(10));
    let actions = e.on_read(ReadOutcome::Data(b"{\"p\": 42}\n{\"saved\":true}\n{\"idle\"".to_vec()));
    assert_eq!(
        actions,
        vec![
            Action::Publish(Message::Event(Event::Position(42))),
            Action::Deliver(10, Ok(saved(true))),
        ]
    );
    assert_eq!(e.framer.pending(), 7);
    let actions = e.on_read(ReadOutcome::Data(b":1}\n".to_vec()));
    assert_eq!(actions, vec![Action::Publish(Message::Heartbeat(Heartbeat { idle: 1 }))]);
}

#[test]
fn malformed_records_are_reported_and_change_nothing() {
    let mut e: Engine<u32> = Engine::new();
    e.submit(&Command::GetSettings, Some(10));
    let actions = e.on_read(ReadOutcome::Data(b"nonsense\n\xff\xfe\n{}\n".to_vec()));
    assert_eq!(actions.len(), 3);
    assert!(matches!(actions[0], Action::Report(Error::ParseError(_))));
    assert_eq!(
        actions[1],
        Action::Report(Error::SerialError(SerialError::ErrorReading("Invalid String".to_string())))
    );
    assert_eq!(
        actions[2],
        Action::Report(Error::ParseError(
            "data did not match any variant of untagged enum Message".to_string()
        ))
    );
    assert_eq!(e.waiting.len(), 1);
}

#[test]
fn utf8_is_really_decoded() {
    let mut e: Engine<u32> = Engine::new();
    e.submit(&Command::GetSettings, Some(10));
    let action = e.handle_record("{\"error\":\"zu heiß\"}\n".as_bytes().to_vec());
    assert_eq!(
        action,
        Action::Deliver(10, Err(Error::CommandError("zu heiß".to_string(), None)))
    );
}

#[test]
fn timeout_and_failed_read_keep_the_engine_running() {
    let mut e: Engine<u32> = Engine::new();
    assert_eq!(e.on_read(ReadOutcome::TimedOut), vec![]);
    assert_eq!(
        e.on_read(ReadOutcome::Failed("broken pipe".to_string())),
        vec![Action::Report(Error::SerialError(SerialError::ErrorReading(
            "broken pipe".to_string()
        )))]
    );
    assert_eq!(e.state, EngineState::Running);
}

#[test]
fn inbox_decides_the_next_step() {
    let mut e: Engine<u32> = Engine::new();
    assert_eq!(e.on_inbox(Inbox::Empty), Step::Idle);
    assert_eq!(
        e.on_inbox(Inbox::Command(Command::GetSettings, Some(4))),
        Step::Write(b"{\"settings\":\"?\"}\n".to_vec())
    );
    assert_eq!(e.waiting.len(), 1);
    assert_eq!(e.on_inbox(Inbox::Command(Command::Save, None)), Step::Write(b"{\"save\":true}\n".to_vec()));
    assert_eq!(e.waiting.len(), 1);
    assert_eq!(e.state, EngineState::Running);
    assert_eq!(e.on_inbox(Inbox::Closed), Step::Stop);
    assert_eq!(e.state, EngineState::Draining);
}

#[test]
fn failed_write_gives_the_destination_back() {
    let mut e: Engine<u32> = Engine::new();
    e.submit(&Command::GetSettings, Some(1));
    e.submit(&Command::GetProfiles, Some(2));
    assert_eq!(e.write_failed(true), Some(2));
    assert_eq!(e.write_failed(false), None);
    assert_eq!(e.waiting.len(), 1);
    assert_eq!(e.dispatch(saved(true)), Action::Deliver(1, Ok(saved(true))));
    assert_eq!(e.write_failed(true), None);
}

#[test]
fn closed_command_channel_abandons_every_waiting_caller() {
    let mut e: Engine<u32> = Engine::new();
    e.submit(&Command::GetSettings, Some(1));
    e.submit(&Command::GetProfiles, Some(2));
    assert_eq!(e.on_inbox(Inbox::Closed), Step::Stop);
    assert_eq!(e.drain(), vec![1, 2]);
    assert!(e.waiting.is_empty());
    assert_eq!(e.state, EngineState::Draining);
    // The caller behind an abandoned destination receives nothing, which it
    // reads as the engine being gone.
    assert_eq!(outcome_of_wait(None), Err(Error::CommandSendError));
}

#[test]
fn abandoned_reply_channel_is_a_send_error() {
    assert_eq!(outcome_of_wait(None), Err(Error::CommandSendError));
    assert_eq!(outcome_of_wait(Some(Ok(saved(true)))), Ok(saved(true)));
    assert_eq!(
        outcome_of_wait(Some(Err(Error::CommandError("e".to_string(), None)))),
        Err(Error::CommandError("e".to_string(), None))
    );
    assert_eq!(outcome_of_send(true), Ok(()));
    assert_eq!(outcome_of_send(false), Err(Error::CommandSendError));
}

#[test]
fn typed_requests_check_the_shape_of_the_reply() {
    let mut s = Settings::default();
    s.debug = Some(true);
    let settings = Message::Settings(SettingsRoot { settings: s.clone() });
    let profiles = Message::Profiles(Profiles {
        profiles: Some(vec!["a".to_string()]),
        current_profile: "a".to_string(),
    });
    let no_list = Message::Profiles(Profiles { profiles: None, current_profile: "a".to_string() });
    let failure = Message::Error(DeviceError { error: "no".to_string(), msg: None });
    assert_eq!(get_settings(settings.clone()), Ok(s));
    assert_eq!(get_settings(profiles.clone()), Err(Error::UnexpectedResponse(profiles.clone())));
    assert_eq!(get_settings(failure.clone()), Err(Error::CommandError("no".to_string(), None)));
    assert_eq!(get_profiles(profiles), Ok(vec!["a".to_string()]));
    assert_eq!(get_profiles(no_list), Ok(vec![]));
    assert_eq!(get_profiles(settings.clone()), Err(Error::UnexpectedResponse(settings.clone())));
    assert_eq!(get_profile(settings.clone()), Err(Error::UnexpectedResponse(settings)));
    assert_eq!(get_profile(failure), Err(Error::CommandError("no".to_string(), None)));
    assert!(is_event(&Message::Event(Event::Position(1))));
    assert!(!is_event(&saved(true)));
}

#[test]
fn test_commands() {
    // The device is played by hand: it answers the first request with its
    // settings and the second, for a profile it does not have, with a failure.
    let mut e: Engine<u32> = Engine::new();
    assert_eq!(
        e.on_inbox(Inbox::Command(Command::GetSettings, Some(1))),
        Step::Write(b"{\"settings\":\"?\"}\n".to_vec())
    );
    let mut actions = e.on_read(ReadOutcome::Data(b"{\"settings\":{\"debug\":false}}\n".to_vec()));
    assert_eq!(actions.len(), 1);
    match actions.remove(0) {
        Action::Deliver(1, outcome) => {
            get_settings(outcome_of_wait(Some(outcome)).unwrap()).unwrap();
        }
        other => panic!("no reply: {:?}", other),
    }
    let step = e.on_inbox(Inbox::Command(
        Command::GetProfile("This should not exist!*!*!*!!*".to_string()),
        Some(2),
    ));
    assert_eq!(step, Step::Write(b"{\"profile\":\"This should not exist!*!*!*!!*\"}\n".to_vec()));
    let mut actions =
        e.on_read(ReadOutcome::Data(b"{\"error\":\"profile not found\"}\n".to_vec()));
    assert_eq!(actions.len(), 1);
    let outcome = match actions.remove(0) {
        Action::Deliver(2, outcome) => outcome_of_wait(Some(outcome)).and_then(get_profile),
        other => panic!("no reply: {:?}", other),
    };
    assert!(matches!(outcome, Err(Error::CommandError(_, _))));
}

#[test]
fn written_bytes_are_one_record() {
    let mut e: Engine<u32> = Engine::new();
    let bytes = e.submit(&Command::SetProfile("two\nlines\r\nand \u{7f} é".to_string()), None);
    assert_eq!(bytes.last(), Some(&b'\n'));
    assert_eq!(bytes.iter().filter(|b| **b == b'\n').count(), 1);
    assert!(!bytes.contains(&b'\r'));
    let mut device_side = bongoknob::LineFramer::new();
    assert_eq!(device_side.feed(&bytes), vec![bytes.clone()]);
    assert_eq!(device_side.pending(), 0);
}
