use bongoknob::decode::{lookup, lookup_once, read_event, Found};
use bongoknob::{
    Audio, Color, DeviceError, Error, Event, Heartbeat, Json, KeyDef, KeyEvent, KeyPress, Message,
    MidiSettings, Profiles, Saved, Shape,
};

fn text(s: &str) -> Json {
    Json::Text(s.to_string())
}

fn num(n: u64) -> Json {
    Json::Number(Some(n))
}

fn members(list: Vec<(&str, Json)>) -> Vec<(String, Json)> {
    list.into_iter().map(|(k, v)| (k.to_string(), v)).collect()
}

fn object(list: Vec<(&str, Json)>) -> Json {
    Json::Object(members(list))
}

fn null_colors() -> Vec<(&'static str, Json)> {
    vec![
        ("pointer", Json::Null),
        ("primary", Json::Null),
        ("secondary", Json::Null),
        ("buttonAIdle", Json::Null),
        ("buttonBIdle", Json::Null),
        ("buttonCIdle", Json::Null),
        ("buttonDIdle", Json::Null),
        ("buttonAPress", Json::Null),
        ("buttonBPress", Json::Null),
        ("buttonCPress", Json::Null),
        ("buttonDPress", Json::Null),
    ]
}

#[test]
fn decodes_device_error_with_detail() {
    let m = Message::try_from("{\"error\":\"bad\",\"msg\":\"oops\"}").unwrap();
    assert_eq!(
        m,
        Message::Error(DeviceError { error: "bad".to_string(), msg: Some("oops".to_string()) })
    );
}

#[test]
fn decodes_device_error_without_detail() {
    let m = Message::try_from("{\"error\":\"bad\"}").unwrap();
    assert_eq!(m, Message::Error(DeviceError { error: "bad".to_string(), msg: None }));
    let m = Message::try_from("{\"error\":\"bad\",\"msg\":null}").unwrap();
    assert_eq!(m, Message::Error(DeviceError { error: "bad".to_string(), msg: None }));
}

#[test]
fn device_error_wins_over_every_other_shape() {
    let m = Message::try_from(
        "{\"idle\":3,\"saved\":true,\"current\":\"a\",\"settings\":{},\"error\":\"bad\",\"msg\":\"oops\"}",
    )
    .unwrap();
    assert_eq!(
        m,
        Message::Error(DeviceError { error: "bad".to_string(), msg: Some("oops".to_string()) })
    );
}

#[test]
fn device_error_with_detail_of_wrong_type_is_not_an_error_shape() {
    let m = Message::try_from("{\"error\":\"bad\",\"msg\":5,\"idle\":1}").unwrap();
    assert_eq!(m, Message::Heartbeat(Heartbeat { idle: 1 }));
}

#[test]
fn shapes_are_tried_in_order() {
    let m = Message::try_from("{\"idle\":3,\"saved\":true,\"current\":\"a\"}").unwrap();
    assert_eq!(m, Message::Heartbeat(Heartbeat { idle: 3 }));
    let m = Message::try_from("{\"saved\":true,\"current\":\"a\",\"settings\":{}}").unwrap();
    assert_eq!(m, Message::Saved(Saved { saved: true }));
    let m = Message::try_from("{\"current\":\"a\",\"settings\":{}}").unwrap();
    assert_eq!(
        m,
        Message::Profiles(Profiles { profiles: None, current_profile: "a".to_string() })
    );
}

#[test]
fn decodes_heartbeat_and_saved() {
    assert_eq!(
        Message::try_from("{\"idle\":18446744073709551615}").unwrap(),
        Message::Heartbeat(Heartbeat { idle: u64::MAX })
    );
    assert_eq!(
        Message::try_from("{\"saved\":false}").unwrap(),
        Message::Saved(Saved { saved: false })
    );
}

#[test]
fn decodes_position_event() {
    let m = Message::try_from("{\"p\": 42}").unwrap();
    assert_eq!(m, Message::Event(Event::Position(42)));
}

#[test]
fn position_wins_over_keys() {
    let m = Message::try_from("{\"kd\": 5, \"p\": 42, \"ks\": 1}").unwrap();
    assert_eq!(m, Message::Event(Event::Position(42)));
}

#[test]
fn decodes_key_down_without_key_states() {
    let m = Message::try_from("{\"kd\": 5}").unwrap();
    assert_eq!(m, Message::Event(Event::Key(KeyEvent::Down { keys: [false; 4], id: 5 })));
}

#[test]
fn decodes_key_down_with_third_key_held() {
    let m = Message::try_from("{\"ks\": 4, \"kd\": 5}").unwrap();
    assert_eq!(
        m,
        Message::Event(Event::Key(KeyEvent::Down { keys: [false, false, true, false], id: 5 }))
    );
}

#[test]
fn decodes_key_up_and_keeps_low_bits_of_id() {
    let m = Message::try_from("{\"ks\": 9, \"ku\": 258}").unwrap();
    assert_eq!(
        m,
        Message::Event(Event::Key(KeyEvent::Up { keys: [true, false, false, true], id: 2 }))
    );
}

#[test]
fn key_down_wins_over_key_up() {
    let m = Message::try_from("{\"ku\": 1, \"kd\": 2}").unwrap();
    assert_eq!(m, Message::Event(Event::Key(KeyEvent::Down { keys: [false; 4], id: 2 })));
}

#[test]
fn event_with_unknown_key_is_no_event() {
    assert!(matches!(Message::try_from("{\"p\": 42, \"x\": 1}"), Err(Error::ParseError(_))));
    assert!(matches!(Message::try_from("{\"ks\": 3}"), Err(Error::ParseError(_))));
    assert!(matches!(Message::try_from("{\"kd\": 4294967296}"), Err(Error::ParseError(_))));
    assert!(matches!(Message::try_from("{\"kd\": -1}"), Err(Error::ParseError(_))));
    assert!(matches!(Message::try_from("{\"kd\": null}"), Err(Error::ParseError(_))));
}

#[test]
fn rejects_text_that_is_not_json() {
    assert!(matches!(Message::try_from("{\"p\": "), Err(Error::ParseError(_))));
    assert!(matches!(Message::try_from(""), Err(Error::ParseError(_))));
}

#[test]
fn rejects_json_that_is_no_message() {
    let fixed = "data did not match any variant of untagged enum Message".to_string();
    assert_eq!(Message::try_from("{}"), Err(Error::ParseError(fixed.clone())));
    assert_eq!(Message::try_from("[1,2]"), Err(Error::ParseError(fixed.clone())));
    assert_eq!(Message::try_from("42"), Err(Error::ParseError(fixed.clone())));
    assert_eq!(Message::try_from("{\"idle\":1.5}"), Err(Error::ParseError(fixed)));
}

#[test]
fn record_may_end_in_newline() {
    let m = Message::try_from("{\"p\": 42}\n").unwrap();
    assert_eq!(m, Message::Event(Event::Position(42)));
}

#[test]
fn parser_is_really_called() {
    // Escapes and nesting are the parser's work: none of it is in the text as given.
    let m = Message::try_from("{\"error\":\"a\\u0041\\n\",\"msg\":\"\\\"\"}").unwrap();
    assert_eq!(
        m,
        Message::Error(DeviceError { error: "aA\n".to_string(), msg: Some("\"".to_string()) })
    );
}

#[test]
fn a_key_that_stands_twice_is_no_event() {
    assert_eq!(Message::from_json(&object(vec![("p", num(1)), ("p", num(2))])), None);
    assert_eq!(Message::from_json(&object(vec![("p", num(1)), ("p", num(1))])), None);
    assert_eq!(Message::from_json(&object(vec![("kd", num(1)), ("ks", num(0)), ("kd", num(1))])), None);
    assert_eq!(Message::from_json(&object(vec![("ku", num(1)), ("ku", num(2))])), None);
    assert_eq!(Message::from_json(&object(vec![("p", num(1)), ("ks", num(1)), ("ks", num(2))])), None);
    assert_eq!(read_event(&members(vec![("p", num(1)), ("p", num(2))])), None);
    assert_eq!(read_event(&members(vec![("p", num(2))])), Some(Event::Position(2)));
}

#[test]
fn a_key_that_stands_twice_fits_no_shape_that_reads_it() {
    assert_eq!(Message::from_json(&object(vec![("idle", num(1)), ("idle", num(2))])), None);
    assert_eq!(
        Message::from_json(&object(vec![("saved", Json::Bool(true)), ("saved", Json::Bool(true))])),
        None
    );
    assert_eq!(
        Message::from_json(&object(vec![("error", text("a")), ("msg", text("b")), ("msg", text("c"))])),
        None
    );
    assert_eq!(
        Message::from_json(&object(vec![("current", text("a")), ("current", text("a"))])),
        None
    );
    assert_eq!(
        Message::from_json(&object(vec![("settings", object(vec![])), ("settings", object(vec![]))])),
        None
    );
    // Inside a record as at its top.
    let twice = object(vec![("debug", Json::Bool(true)), ("debug", Json::Bool(false))]);
    assert_eq!(Message::from_json(&object(vec![("settings", twice)])), None);
    let mut colours = null_colors();
    colours.push(("pointer", Json::Null));
    assert_eq!(Message::from_json(&object(vec![("profile", object(colours))])), None);
}

#[test]
fn a_repeated_key_does_not_hurt_a_shape_that_does_not_read_it() {
    // The failure report reads `error` and refuses the record; the heartbeat
    // does not read it and fits.
    let j = object(vec![("error", text("a")), ("error", text("b")), ("idle", num(7))]);
    assert_eq!(Message::from_json(&j), Some(Message::Heartbeat(Heartbeat { idle: 7 })));
    let j = object(vec![("x", num(1)), ("x", num(2)), ("saved", Json::Bool(false))]);
    assert_eq!(Message::from_json(&j), Some(Message::Saved(Saved { saved: false })));
}

#[test]
fn parser_keeps_the_later_of_two_members() {
    // The parser folds a repeated key before any shape is tried: the value
    // it hands on holds the key once, with the later member.
    assert_eq!(Message::try_from("{\"p\":1,\"p\":2}"), Ok(Message::Event(Event::Position(2))));
}

#[test]
fn lookup_tells_missing_once_and_repeated() {
    let f = members(vec![("a", num(1)), ("b", num(2)), ("a", num(3))]);
    assert_eq!(lookup(&f, "a"), Found::Repeated);
    assert_eq!(lookup(&f, "b"), Found::Once(&num(2)));
    assert_eq!(lookup(&f, "c"), Found::Missing);
    assert_eq!(lookup_once(&f, "a"), None);
    assert_eq!(lookup_once(&f, "b"), Some(&num(2)));
    assert_eq!(lookup_once(&f, "c"), None);
}

#[test]
fn from_json_rejects_what_is_no_object() {
    assert_eq!(Message::from_json(&Json::Null), None);
    assert_eq!(Message::from_json(&Json::Array(vec![text("bad")])), None);
    assert_eq!(Message::from_json(&object(vec![])), None);
}

#[test]
fn from_parsed_keeps_the_words_of_the_parser() {
    assert_eq!(
        Message::from_parsed(Err("expected value".to_string())),
        Err(Error::ParseError("expected value".to_string()))
    );
    assert_eq!(
        Message::from_parsed(Ok(object(vec![("saved", Json::Bool(true))]))),
        Ok(Message::Saved(Saved { saved: true }))
    );
}

#[test]
fn decodes_profiles() {
    let m = Message::try_from("{\"profiles\":[\"a\",\"b\"],\"current\":\"b\"}").unwrap();
    assert_eq!(
        m,
        Message::Profiles(Profiles {
            profiles: Some(vec!["a".to_string(), "b".to_string()]),
            current_profile: "b".to_string(),
        })
    );
    assert!(matches!(
        Message::try_from("{\"profiles\":[\"a\",1],\"current\":\"b\"}"),
        Err(Error::ParseError(_))
    ));
}

#[test]
fn decodes_settings() {
    let m = Message::try_from(
        "{\"settings\":{\"debug\":true,\"ledMaxBrightness\":150,\"deviceName\":\"knob\",\
         \"midiUsb\":{\"in\":true,\"out\":false,\"thru\":true,\"route\":false,\"nano\":true},\
         \"idleTimeout\":70000,\"other\":[1]}}",
    )
    .unwrap();
    match m {
        Message::Settings(root) => {
            let s = root.settings;
            assert_eq!(s.debug, Some(true));
            assert_eq!(s.led_max_brightness, Some(150));
            assert_eq!(s.device_name, Some("knob".to_string()));
            assert_eq!(
                s.midi_usb,
                Some(MidiSettings { input: true, out: false, thru: true, route: false, nano: true })
            );
            assert_eq!(s.midi2, None);
            assert_eq!(s.idle_timeout, Some(70000));
            assert_eq!(s.max_velocity, None);
            assert_eq!(s.serial_number, None);
        }
        other => panic!("not settings: {:?}", other),
    }
}

#[test]
fn settings_member_out_of_range_is_no_settings() {
    assert!(matches!(
        Message::try_from("{\"settings\":{\"ledMaxBrightness\":256}}"),
        Err(Error::ParseError(_))
    ));
    assert!(matches!(
        Message::try_from("{\"settings\":{\"midi2\":{\"in\":true}}}"),
        Err(Error::ParseError(_))
    ));
    assert!(matches!(Message::try_from("{\"settings\":5}"), Err(Error::ParseError(_))));
}

#[test]
fn decodes_profile() {
    let mut members = null_colors();
    members[0] = ("pointer", num(0x01_0a_0b_0c));
    members[1] = ("primary", Json::Array(vec![num(1), num(2), num(255)]));
    members.push(("version", num(2)));
    members.push(("name", text("GRASSY HOPPER")));
    members.push(("attractDistance", num(70000)));
    members.push((
        "keys",
        Json::Array(vec![object(vec![(
            "pressed",
            Json::Array(vec![object(vec![("type", text("midi"))])]),
        )])]),
    ));
    members.push((
        "knob",
        Json::Array(vec![object(vec![
            ("valueMin", num(0)),
            ("valueMax", num(127)),
            ("angleMin", num(0)),
            ("angleMax", num(255)),
            ("wrap", Json::Bool(false)),
            ("step", num(1)),
            ("keyState", num(0)),
            (
                "haptic",
                object(vec![
                    ("mode", num(1)),
                    ("startPos", num(0)),
                    ("endPos", num(127)),
                    ("detentCount", num(20)),
                    ("vernier", num(5)),
                    ("kxForce", Json::Bool(true)),
                    ("outputRamp", num(5000)),
                    ("detentStrength", num(3)),
                ]),
            ),
            ("type", text("cc")),
            ("channel", num(1)),
            ("cc", num(7)),
        ])]),
    ));
    members.push((
        "audio",
        object(vec![
            ("clickType", text("soft")),
            ("keyClickType", text("hard")),
            ("clickLevel", num(9)),
        ]),
    ));
    let j = object(vec![("profile", object(members))]);
    match Message::from_json(&j) {
        Some(Message::Profile(root)) => {
            let p = root.profile;
            assert_eq!(p.version, Some(2));
            assert_eq!(p.name, Some("GRASSY HOPPER".to_string()));
            assert_eq!(p.desc, None);
            assert_eq!(p.pointer, Some(Color { r: 0x0a, g: 0x0b, b: 0x0c }));
            assert_eq!(p.primary, Some(Color { r: 1, g: 2, b: 255 }));
            assert_eq!(p.secondary, None);
            assert_eq!(p.attract_distance, Some(70000));
            assert_eq!(
                p.keys,
                Some(vec![KeyDef { pressed: vec![KeyPress { key_type: "midi".to_string() }] }])
            );
            let knob = p.knob.unwrap();
            assert_eq!(knob.len(), 1);
            assert_eq!(knob[0].value_max, 127);
            assert_eq!(knob[0].haptic.output_ramp, 5000);
            assert_eq!(knob[0].knob_type, "cc".to_string());
            assert_eq!(
                p.audio,
                Some(Audio {
                    click_type: "soft".to_string(),
                    key_click_type: "hard".to_string(),
                    click_level: 9,
                })
            );
        }
        other => panic!("not a profile: {:?}", other),
    }
}

#[test]
fn profile_needs_every_colour_member() {
    let mut members = null_colors();
    members.pop();
    let j = object(vec![("profile", object(members))]);
    assert_eq!(Message::from_json(&j), None);
}

#[test]
fn colour_list_has_exactly_three_bytes() {
    for bad in [
        Json::Array(vec![num(1), num(2)]),
        Json::Array(vec![num(1), num(2), num(3), num(4)]),
        Json::Array(vec![num(1), num(2), num(256)]),
        text("red"),
        Json::Number(None),
    ] {
        let mut members = null_colors();
        members[2] = ("secondary", bad);
        let j = object(vec![("profile", object(members))]);
        assert_eq!(Message::from_json(&j), None);
    }
}

#[test]
fn decodes_profile_from_text() {
    let m = Message::try_from(
        "{\"profile\":{\"pointer\":16711680,\"primary\":[0,255,0],\"secondary\":null,\
         \"buttonAIdle\":null,\"buttonBIdle\":null,\"buttonCIdle\":null,\"buttonDIdle\":null,\
         \"buttonAPress\":null,\"buttonBPress\":null,\"buttonCPress\":null,\"buttonDPress\":null,\
         \"guiEnable\":true}}",
    )
    .unwrap();
    match m {
        Message::Profile(root) => {
            assert_eq!(root.profile.pointer, Some(Color { r: 255, g: 0, b: 0 }));
            assert_eq!(root.profile.primary, Some(Color { r: 0, g: 255, b: 0 }));
            assert_eq!(root.profile.gui_enable, Some(true));
        }
        other => panic!("not a profile: {:?}", other),
    }
}

#[test]
fn unsolicited_messages_are_heartbeats_and_events() {
    assert!(Message::Heartbeat(Heartbeat { idle: 0 }).is_unsolicited());
    assert!(Message::Event(Event::Position(1)).is_unsolicited());
    assert!(!Message::Saved(Saved { saved: true }).is_unsolicited());
    assert!(!Message::Error(DeviceError { error: "e".to_string(), msg: None }).is_unsolicited());
}

#[test]
fn draws_the_four_keys() {
    assert_eq!(KeyEvent::Down { keys: [true, false, false, true], id: 1 }.pretty_print(), "[XOOX]");
    assert_eq!(KeyEvent::Up { keys: [false; 4], id: 1 }.pretty_print(), "[OOOO]");
}

#[test]
fn describes_events() {
    assert_eq!(Event::Position(42).describe(), "Position: 42");
    assert_eq!(
        Event::Key(KeyEvent::Down { keys: [false, true, false, false], id: 2 }).describe(),
        "[DOWN] Key: 2, State: [OXOO]"
    );
    assert_eq!(
        KeyEvent::Up { keys: [true, true, true, true], id: 255 }.describe(),
        "[UP] Key: 255, State: [XXXX]"
    );
}

#[test]
fn shapes_have_a_fixed_order_of_trial() {
    let order = [
        Shape::Error,
        Shape::Heartbeat,
        Shape::Saved,
        Shape::Event,
        Shape::Profiles,
        Shape::Profile,
        Shape::Settings,
    ];
    for (place, shape) in order.iter().enumerate() {
        assert_eq!(shape.priority(), place);
    }
    // A record that fits every shape but the event's is read by the first.
    let every = "{\"error\":\"e\",\"idle\":1,\"saved\":true,\"current\":\"c\",\"settings\":{}}";
    assert_eq!(Message::try_from(every).unwrap().shape(), Shape::Error);
    let from_saved = "{\"saved\":true,\"current\":\"c\",\"settings\":{}}";
    assert_eq!(Message::try_from(from_saved).unwrap().shape(), Shape::Saved);
    let from_profiles = "{\"current\":\"c\",\"settings\":{}}";
    assert_eq!(Message::try_from(from_profiles).unwrap().shape(), Shape::Profiles);
    assert_eq!(Message::try_from("{\"settings\":{}}").unwrap().shape(), Shape::Settings);
    assert_eq!(Message::try_from("{\"p\":1}").unwrap().shape(), Shape::Event);
}
