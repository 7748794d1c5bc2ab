use bongoknob::encode::{enclose, put};
use bongoknob::text::decimal;
use bongoknob::{Command, MessageDetails, MidiSettings, ScreenData, Settings};

fn parsed(text: &str) -> serde_json::Value {
    serde_json::from_str(text).unwrap()
}

fn object(members: Vec<(&str, serde_json::Value)>) -> serde_json::Value {
    let mut map = serde_json::Map::new();
    for (k, v) in members {
        map.insert(k.to_string(), v);
    }
    serde_json::Value::Object(map)
}

fn text(s: &str) -> serde_json::Value {
    serde_json::Value::String(s.to_string())
}

#[test]
fn encodes_get_settings() {
    assert_eq!(Command::GetSettings.to_string(), "{\"settings\":\"?\"}");
    assert_eq!(
        parsed(&Command::GetSettings.to_string()),
        object(vec![("settings", text("?"))])
    );
}

#[test]
fn encodes_the_commands_without_arguments() {
    assert_eq!(Command::GetProfiles.to_string(), "{\"profiles\":\"#all\"}");
    assert_eq!(Command::Save.to_string(), "{\"save\":true}");
    assert_eq!(Command::Load.to_string(), "{\"load\":true}");
    assert_eq!(Command::Recalibrate.to_string(), "{\"recalibrate\":true}");
}

#[test]
fn encodes_profile_names_with_escapes() {
    assert_eq!(
        Command::GetProfile("GRASSY HOPPER".to_string()).to_string(),
        "{\"profile\":\"GRASSY HOPPER\"}"
    );
    let odd = "a\"b\\c\nd\u{1}é";
    let encoded = Command::SetProfile(odd.to_string()).to_string();
    assert_eq!(encoded, "{\"current\":\"a\\\"b\\\\c\\nd\\u0001é\"}");
    assert_eq!(parsed(&encoded), object(vec![("current", text(odd))]));
}

#[test]
fn encodes_screen_content() {
    let encoded = Command::SetScreen(ScreenData {
        title: Some("T".to_string()),
        data1: Some("one".to_string()),
        data2: None,
        data3: Some("three".to_string()),
        data4: None,
    })
    .to_string();
    assert_eq!(
        encoded,
        "{\"screen\":{\"data1\":\"one\",\"data2\":null,\"data3\":\"three\",\"data4\":null,\"title\":\"T\"}}"
    );
    assert_eq!(
        parsed(&encoded),
        object(vec![(
            "screen",
            object(vec![
                ("title", text("T")),
                ("data1", text("one")),
                ("data2", serde_json::Value::Null),
                ("data3", text("three")),
                ("data4", serde_json::Value::Null),
            ])
        )])
    );
}

#[test]
fn encodes_screen_message_with_duration_in_seconds() {
    let encoded = Command::ShowMessage(MessageDetails {
        title: Some("Hello".to_string()),
        text: None,
        duration_ms: Some(1500),
    })
    .to_string();
    assert_eq!(encoded, "{\"screen\":{\"duration\":1.5,\"text\":null,\"title\":\"Hello\"}}");
    let value = parsed(&encoded);
    assert_eq!(value["screen"]["duration"].as_f64(), Some(1.5));
    assert_eq!(value["screen"]["title"], text("Hello"));
    assert_eq!(value["screen"]["text"], serde_json::Value::Null);
}

#[test]
fn durations_are_written_as_serde_json_writes_the_float() {
    let samples =
        [(1500u32, 1.5f32), (2000, 2.0), (250, 0.25), (100, 0.1), (7, 0.007), (60000, 60.0)];
    for (ms, seconds) in samples {
        let record = Command::ShowMessage(MessageDetails {
            title: None,
            text: None,
            duration_ms: Some(ms),
        })
        .to_string();
        let by_float = serde_json::to_string(&seconds).unwrap();
        assert_eq!(
            record,
            format!("{{\"screen\":{{\"duration\":{},\"text\":null,\"title\":null}}}}", by_float)
        );
    }
}

#[test]
fn encodes_short_and_missing_durations() {
    let with = |d: Option<u32>| {
        Command::ShowMessage(MessageDetails { title: None, text: None, duration_ms: d }).to_string()
    };
    assert_eq!(with(Some(7)), "{\"screen\":{\"duration\":0.007,\"text\":null,\"title\":null}}");
    assert_eq!(with(Some(0)), "{\"screen\":{\"duration\":0.0,\"text\":null,\"title\":null}}");
    assert_eq!(with(Some(2000)), "{\"screen\":{\"duration\":2.0,\"text\":null,\"title\":null}}");
    assert_eq!(with(Some(1250)), "{\"screen\":{\"duration\":1.25,\"text\":null,\"title\":null}}");
    assert_eq!(with(Some(100)), "{\"screen\":{\"duration\":0.1,\"text\":null,\"title\":null}}");
    assert_eq!(with(Some(10)), "{\"screen\":{\"duration\":0.01,\"text\":null,\"title\":null}}");
    assert_eq!(with(Some(1001)), "{\"screen\":{\"duration\":1.001,\"text\":null,\"title\":null}}");
    assert_eq!(
        with(Some(599999000)),
        "{\"screen\":{\"duration\":599999.0,\"text\":null,\"title\":null}}"
    );
    assert_eq!(
        with(Some(u32::MAX)),
        "{\"screen\":{\"duration\":4294967.295,\"text\":null,\"title\":null}}"
    );
    assert_eq!(with(None), "{\"screen\":{\"duration\":null,\"text\":null,\"title\":null}}");
}

#[test]
fn default_settings_hold_nothing() {
    let s = Settings::default();
    assert_eq!(s.debug, None);
    assert_eq!(s.device_name, None);
    assert_eq!(s.midi_usb, None);
    assert_eq!(s.idle_timeout, None);
    assert_eq!(
        MidiSettings::default(),
        MidiSettings { input: false, out: false, thru: false, route: false, nano: false }
    );
}

#[test]
fn encodes_empty_settings() {
    assert_eq!(Command::SetSettings(Settings::default()).to_string(), "{\"settings\":{}}");
}

#[test]
fn encodes_only_the_settings_that_are_there() {
    let mut s = Settings::default();
    s.led_max_brightness = Some(150);
    s.device_orientation = Some(1);
    let encoded = Command::SetSettings(s).to_string();
    assert_eq!(encoded, "{\"settings\":{\"deviceOrientation\":1,\"ledMaxBrightness\":150}}");
}

#[test]
fn encodes_every_setting() {
    let midi = MidiSettings { input: true, out: false, thru: true, route: false, nano: true };
    let s = Settings {
        debug: Some(false),
        led_max_brightness: Some(255),
        max_velocity: Some(0),
        max_voltage: Some(12),
        device_orientation: Some(3),
        device_name: Some("my \"knob\"".to_string()),
        wifi_enabled: Some(true),
        serial_number: Some("SN1".to_string()),
        firmware_version: Some("1.2.3".to_string()),
        midi_usb: Some(midi),
        midi2: Some(midi),
        sysex_id: Some(100),
        idle_timeout: Some(4294967295),
    };
    let encoded = Command::SetSettings(s).to_string();
    let midi_value = object(vec![
        ("in", serde_json::Value::Bool(true)),
        ("out", serde_json::Value::Bool(false)),
        ("thru", serde_json::Value::Bool(true)),
        ("route", serde_json::Value::Bool(false)),
        ("nano", serde_json::Value::Bool(true)),
    ]);
    let expected = object(vec![(
        "settings",
        object(vec![
            ("debug", serde_json::Value::Bool(false)),
            ("ledMaxBrightness", serde_json::Value::from(255u64)),
            ("maxVelocity", serde_json::Value::from(0u64)),
            ("maxVoltage", serde_json::Value::from(12u64)),
            ("deviceOrientation", serde_json::Value::from(3u64)),
            ("deviceName", text("my \"knob\"")),
            ("wifiEnabled", serde_json::Value::Bool(true)),
            ("serialNumber", text("SN1")),
            ("firmwareVersion", text("1.2.3")),
            ("midiUsb", midi_value.clone()),
            ("midi2", midi_value),
            ("sysexId", serde_json::Value::from(100u64)),
            ("idleTimeout", serde_json::Value::from(4294967295u64)),
        ]),
    )]);
    assert_eq!(parsed(&encoded), expected);
    // The members stand in the order of their keys, as serde_json writes a map.
    assert_eq!(encoded, expected.to_string());
}

#[test]
fn writes_numbers_in_decimal() {
    assert_eq!(decimal(0), "0");
    assert_eq!(decimal(9), "9");
    assert_eq!(decimal(10), "10");
    assert_eq!(decimal(150), "150");
    assert_eq!(decimal(u64::MAX), "18446744073709551615");
}

#[test]
fn members_are_joined_by_commas() {
    let mut out = String::new();
    put(&mut out, "\"a\":", None);
    assert_eq!(out, "");
    put(&mut out, "\"b\":", Some("1".to_string()));
    assert_eq!(out, "\"b\":1");
    put(&mut out, "\"c\":", None);
    put(&mut out, "\"d\":", Some("\"x\"".to_string()));
    assert_eq!(out, "\"b\":1,\"d\":\"x\"");
    assert_eq!(enclose("{", &out, "}"), "{\"b\":1,\"d\":\"x\"}");
}

fn escaped_by_hand(c: char) -> String {
    match c {
        '"' => "\\\"".to_string(),
        '\\' => "\\\\".to_string(),
        '\u{8}' => "\\b".to_string(),
        '\t' => "\\t".to_string(),
        '\n' => "\\n".to_string(),
        '\u{c}' => "\\f".to_string(),
        '\r' => "\\r".to_string(),
        c if (c as u32) < 0x20 => format!("\\u00{:02x}", c as u32),
        c => c.to_string(),
    }
}

#[test]
fn every_character_is_escaped_as_stated() {
    let mut samples: Vec<char> = (0u8..=0x7f).map(char::from).collect();
    samples.extend(['\u{80}', '\u{9f}', 'é', 'ß', '\u{2028}', '\u{2029}', '\u{ffff}', '\u{1f600}']);
    for c in samples {
        let name = format!("a{}b", c);
        let expected = format!("{{\"profile\":\"a{}b\"}}", escaped_by_hand(c));
        assert_eq!(Command::GetProfile(name).to_string(), expected);
    }
    assert_eq!(Command::GetProfile(String::new()).to_string(), "{\"profile\":\"\"}");
    assert_eq!(
        Command::SetProfile("\u{1}\u{1f}\u{7f}".to_string()).to_string(),
        "{\"current\":\"\\u0001\\u001f\u{7f}\"}"
    );
}

#[test]
fn no_record_holds_a_control_character() {
    let nasty = "line one\nline two\r\n\ttabbed\u{0}\u{1b}[0m".to_string();
    let mut settings = Settings::default();
    settings.device_name = Some(nasty.clone());
    settings.serial_number = Some(nasty.clone());
    let commands = vec![
        Command::GetProfile(nasty.clone()),
        Command::SetProfile(nasty.clone()),
        Command::ShowMessage(MessageDetails {
            title: Some(nasty.clone()),
            text: Some(nasty.clone()),
            duration_ms: Some(10),
        }),
        Command::SetScreen(ScreenData {
            title: Some(nasty.clone()),
            data1: Some(nasty.clone()),
            data2: Some(nasty.clone()),
            data3: None,
            data4: Some(nasty.clone()),
        }),
        Command::SetSettings(settings),
    ];
    for command in commands {
        let record = command.to_string();
        assert!(record.chars().all(|c| c as u32 >= 0x20), "{:?}", record);
        let value = parsed(&record);
        assert_eq!(value.as_object().map(|o| o.len()), Some(1));
    }
}
