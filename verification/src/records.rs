//! Reading the two large records, a profile and the settings, out of the
//! members of a JSON object.

use vstd::prelude::*;
use crate::decode::{
    as_list, as_object, as_u8, flag_at, get_flag, get_opt_flag, get_opt_text, get_opt_u32,
    get_opt_u8, get_text, get_u32, get_u8, found, lookup, lookup_once, opt_flag_at, opt_text_at,
    opt_u32_at, opt_u8_at, Found, optional, read_u8, required, text_at, u32_at, u8_at,
};
use crate::json::Json;
use crate::protocol::{
    key_defs_view, knobs_view, Audio, AudioView, Color, Haptic, KeyDef, KeyPress, Knob, KnobView,
    MidiSettings, Profile, ProfileView, Settings, SettingsView,
};

verus! {

/// The colour that a number packs: red in bits 16 to 23, green in bits 8 to
/// 15, blue in bits 0 to 7; higher bits are dropped.
pub open spec fn color_of_bits(v: u64) -> Color {
    Color { r: ((v >> 16) & 0xff) as u8, g: ((v >> 8) & 0xff) as u8, b: (v & 0xff) as u8 }
}

/// A colour: null for none, a packed number, or a list of exactly three
/// integers from 0 to 255 (red, green, blue). The outer `None` for anything
/// else.
pub open spec fn as_color(j: Json) -> Option<Option<Color>> {
    match j {
        Json::Null => Some(None),
        Json::Number(Some(v)) => Some(Some(color_of_bits(v))),
        Json::Array(items) => if items@.len() == 3 && as_u8(items@[0]) is Some && as_u8(
            items@[1],
        ) is Some && as_u8(items@[2]) is Some {
            Some(
                Some(
                    Color {
                        r: as_u8(items@[0])->0,
                        g: as_u8(items@[1])->0,
                        b: as_u8(items@[2])->0,
                    },
                ),
            )
        } else {
            None
        },
        _ => None,
    }
}

/// A colour under a key that must be there, once, though it may hold null.
pub open spec fn color_at(fields: Seq<(String, Json)>, key: Seq<char>) -> Option<Option<Color>> {
    match found(fields, key) {
        Found::Once(j) => as_color(j),
        _ => None,
    }
}

/// Reads a colour.
pub fn read_color(j: &Json) -> (r: Option<Option<Color>>)
    ensures
        r == as_color(*j),
{
    match j {
        Json::Null => Some(None),
        Json::Number(Some(n)) => {
            let v: u64 = *n;
            assert((v >> 16) & 0xff <= 0xff && (v >> 8) & 0xff <= 0xff && v & 0xff <= 0xff)
                by (bit_vector);
            Some(
                Some(
                    Color {
                        r: ((v >> 16) & 0xff) as u8,
                        g: ((v >> 8) & 0xff) as u8,
                        b: (v & 0xff) as u8,
                    },
                ),
            )
        },
        Json::Array(items) => {
            if items.len() != 3 {
                return None;
            }
            let r = read_u8(&items[0])?;
            let g = read_u8(&items[1])?;
            let b = read_u8(&items[2])?;
            Some(Some(Color { r, g, b }))
        },
        _ => None,
    }
}

/// Reads a colour under a key that must be there.
pub fn get_color(fields: &Vec<(String, Json)>, key: &str) -> (r: Option<Option<Color>>)
    ensures
        r == color_at(fields@, key@),
{
    match lookup_once(fields, key) {
        Some(j) => read_color(j),
        None => None,
    }
}

/// The haptic response in a value: an object with all eight members.
pub open spec fn as_haptic(j: Json) -> Option<Haptic> {
    match as_object(j) {
        None => None,
        Some(f) => {
            let mode = u8_at(f, "mode"@);
            let start_pos = u8_at(f, "startPos"@);
            let end_pos = u8_at(f, "endPos"@);
            let detent_count = u8_at(f, "detentCount"@);
            let vernier = u8_at(f, "vernier"@);
            let kx_force = flag_at(f, "kxForce"@);
            let output_ramp = u32_at(f, "outputRamp"@);
            let detent_strength = u8_at(f, "detentStrength"@);
            if mode is Some && start_pos is Some && end_pos is Some && detent_count is Some
                && vernier is Some && kx_force is Some && output_ramp is Some
                && detent_strength is Some {
                Some(
                    Haptic {
                        mode: mode->0,
                        start_pos: start_pos->0,
                        end_pos: end_pos->0,
                        detent_count: detent_count->0,
                        vernier: vernier->0,
                        kx_force: kx_force->0,
                        output_ramp: output_ramp->0,
                        detent_strength: detent_strength->0,
                    },
                )
            } else {
                None
            }
        },
    }
}

/// Reads a haptic response.
pub fn read_haptic(j: &Json) -> (r: Option<Haptic>)
    ensures
        r == as_haptic(*j),
{
    match j {
        Json::Object(f) => {
            let mode = get_u8(f, "mode")?;
            let start_pos = get_u8(f, "startPos")?;
            let end_pos = get_u8(f, "endPos")?;
            let detent_count = get_u8(f, "detentCount")?;
            let vernier = get_u8(f, "vernier")?;
            let kx_force = get_flag(f, "kxForce")?;
            let output_ramp = get_u32(f, "outputRamp")?;
            let detent_strength = get_u8(f, "detentStrength")?;
            Some(
                Haptic {
                    mode,
                    start_pos,
                    end_pos,
                    detent_count,
                    vernier,
                    kx_force,
                    output_ramp,
                    detent_strength,
                },
            )
        },
        _ => None,
    }
}

/// The knob mode in a value: an object with all eleven members.
pub open spec fn as_knob(j: Json) -> Option<KnobView> {
    match as_object(j) {
        None => None,
        Some(f) => {
            let value_min = u8_at(f, "valueMin"@);
            let value_max = u8_at(f, "valueMax"@);
            let angle_min = u8_at(f, "angleMin"@);
            let angle_max = u8_at(f, "angleMax"@);
            let wrap = flag_at(f, "wrap"@);
            let step = u8_at(f, "step"@);
            let key_state = u8_at(f, "keyState"@);
            let haptic = required(found(f, "haptic"@), |x: Json| as_haptic(x));
            let knob_type = text_at(f, "type"@);
            let channel = u8_at(f, "channel"@);
            let cc = u8_at(f, "cc"@);
            if value_min is Some && value_max is Some && angle_min is Some && angle_max is Some
                && wrap is Some && step is Some && key_state is Some && haptic is Some
                && knob_type is Some && channel is Some && cc is Some {
                Some(
                    KnobView {
                        value_min: value_min->0,
                        value_max: value_max->0,
                        angle_min: angle_min->0,
                        angle_max: angle_max->0,
                        wrap: wrap->0,
                        step: step->0,
                        key_state: key_state->0,
                        haptic: haptic->0,
                        knob_type: knob_type->0,
                        channel: channel->0,
                        cc: cc->0,
                    },
                )
            } else {
                None
            }
        },
    }
}

/// Reads a knob mode.
pub fn read_knob(j: &Json) -> (r: Option<Knob>)
    ensures
        match r {
            Some(k) => as_knob(*j) == Some(k@),
            None => as_knob(*j) is None,
        },
{
    match j {
        Json::Object(f) => {
            let value_min = get_u8(f, "valueMin")?;
            let value_max = get_u8(f, "valueMax")?;
            let angle_min = get_u8(f, "angleMin")?;
            let angle_max = get_u8(f, "angleMax")?;
            let wrap = get_flag(f, "wrap")?;
            let step = get_u8(f, "step")?;
            let key_state = get_u8(f, "keyState")?;
            let haptic = read_haptic(lookup_once(f, "haptic")?)?;
            let knob_type = get_text(f, "type")?;
            let channel = get_u8(f, "channel")?;
            let cc = get_u8(f, "cc")?;
            Some(
                Knob {
                    value_min,
                    value_max,
                    angle_min,
                    angle_max,
                    wrap,
                    step,
                    key_state,
                    haptic,
                    knob_type,
                    channel,
                    cc,
                },
            )
        },
        _ => None,
    }
}

/// Reads a list of knob modes.
pub fn read_knobs(j: &Json) -> (r: Option<Vec<Knob>>)
    ensures
        match r {
            Some(v) => as_list(*j, |x: Json| as_knob(x)) == Some(knobs_view(v@)),
            None => as_list(*j, |x: Json| as_knob(x)) is None,
        },
{
    match j {
        Json::Array(items) => {
            let mut out: Vec<Knob> = Vec::new();
            let mut i: usize = 0;
            while i < items.len()
                invariant
                    *j == Json::Array(*items),
                    i <= items.len(),
                    out.len() == i,
                    forall|k: int| 0 <= k < i ==> as_knob(#[trigger] items@[k]) == Some(out@[k]@),
                decreases items.len() - i,
            {
                match read_knob(&items[i]) {
                    Some(t) => out.push(t),
                    None => {
                        assert(as_knob(items@[i as int]) is None);
                        return None;
                    },
                }
                i += 1;
            }
            assert(knobs_view(out@) =~= Seq::new(items@.len(), |i: int| as_knob(items@[i])->0));
            Some(out)
        },
        _ => None,
    }
}

/// The action in a value: an object with a text under `type`.
pub open spec fn as_key_press(j: Json) -> Option<Seq<char>> {
    match as_object(j) {
        Some(f) => text_at(f, "type"@),
        None => None,
    }
}

/// The actions of one key in a value: an object with a list of actions under
/// `pressed`.
pub open spec fn as_key_def(j: Json) -> Option<Seq<Seq<char>>> {
    match as_object(j) {
        Some(f) => required(
            found(f, "pressed"@),
            |x: Json| as_list(x, |y: Json| as_key_press(y)),
        ),
        None => None,
    }
}

/// Reads an action.
pub fn read_key_press(j: &Json) -> (r: Option<KeyPress>)
    ensures
        match r {
            Some(k) => as_key_press(*j) == Some(k@),
            None => as_key_press(*j) is None,
        },
{
    match j {
        Json::Object(f) => {
            let key_type = get_text(f, "type")?;
            Some(KeyPress { key_type })
        },
        _ => None,
    }
}

/// Reads the actions of one key.
pub fn read_key_def(j: &Json) -> (r: Option<KeyDef>)
    ensures
        match r {
            Some(k) => as_key_def(*j) == Some(k@),
            None => as_key_def(*j) is None,
        },
{
    match j {
        Json::Object(f) => {
            let list = lookup_once(f, "pressed")?;
            match list {
                Json::Array(items) => {
                    let mut pressed: Vec<KeyPress> = Vec::new();
                    let mut i: usize = 0;
                    while i < items.len()
                        invariant
                            *j == Json::Object(*f),
                            found(f@, "pressed"@) == Found::Once(*list),
                            *list == Json::Array(*items),
                            i <= items.len(),
                            pressed.len() == i,
                            forall|k: int|
                                0 <= k < i ==> as_key_press(#[trigger] items@[k]) == Some(
                                    pressed@[k]@,
                                ),
                        decreases items.len() - i,
                    {
                        match read_key_press(&items[i]) {
                            Some(t) => pressed.push(t),
                            None => {
                                assert(as_key_press(items@[i as int]) is None);
                                return None;
                            },
                        }
                        i += 1;
                    }
                    let def = KeyDef { pressed };
                    assert(def@ =~= Seq::new(
                        items@.len(),
                        |i: int| as_key_press(items@[i])->0,
                    ));
                    Some(def)
                },
                _ => None,
            }
        },
        _ => None,
    }
}

/// Reads a list of key definitions.
pub fn read_key_defs(j: &Json) -> (r: Option<Vec<KeyDef>>)
    ensures
        match r {
            Some(v) => as_list(*j, |x: Json| as_key_def(x)) == Some(key_defs_view(v@)),
            None => as_list(*j, |x: Json| as_key_def(x)) is None,
        },
{
    match j {
        Json::Array(items) => {
            let mut out: Vec<KeyDef> = Vec::new();
            let mut i: usize = 0;
            while i < items.len()
                invariant
                    *j == Json::Array(*items),
                    i <= items.len(),
                    out.len() == i,
                    forall|k: int|
                        0 <= k < i ==> as_key_def(#[trigger] items@[k]) == Some(out@[k]@),
                decreases items.len() - i,
            {
                match read_key_def(&items[i]) {
                    Some(t) => out.push(t),
                    None => {
                        assert(as_key_def(items@[i as int]) is None);
                        return None;
                    },
                }
                i += 1;
            }
            assert(key_defs_view(out@) =~= Seq::new(
                items@.len(),
                |i: int| as_key_def(items@[i])->0,
            ));
            Some(out)
        },
        _ => None,
    }
}

/// The click sounds in a value: an object with all three members.
pub open spec fn as_audio(j: Json) -> Option<AudioView> {
    match as_object(j) {
        None => None,
        Some(f) => {
            let click_type = text_at(f, "clickType"@);
            let key_click_type = text_at(f, "keyClickType"@);
            let click_level = u8_at(f, "clickLevel"@);
            if click_type is Some && key_click_type is Some && click_level is Some {
                Some(
                    AudioView {
                        click_type: click_type->0,
                        key_click_type: key_click_type->0,
                        click_level: click_level->0,
                    },
                )
            } else {
                None
            }
        },
    }
}

/// Reads the click sounds.
pub fn read_audio(j: &Json) -> (r: Option<Audio>)
    ensures
        match r {
            Some(a) => as_audio(*j) == Some(a@),
            None => as_audio(*j) is None,
        },
{
    match j {
        Json::Object(f) => {
            let click_type = get_text(f, "clickType")?;
            let key_click_type = get_text(f, "keyClickType")?;
            let click_level = get_u8(f, "clickLevel")?;
            Some(Audio { click_type, key_click_type, click_level })
        },
        _ => None,
    }
}

/// The routing switches in a value: an object with all five members.
pub open spec fn as_midi(j: Json) -> Option<MidiSettings> {
    match as_object(j) {
        None => None,
        Some(f) => {
            let input = flag_at(f, "in"@);
            let out = flag_at(f, "out"@);
            let thru = flag_at(f, "thru"@);
            let route = flag_at(f, "route"@);
            let nano = flag_at(f, "nano"@);
            if input is Some && out is Some && thru is Some && route is Some && nano is Some {
                Some(
                    MidiSettings {
                        input: input->0,
                        out: out->0,
                        thru: thru->0,
                        route: route->0,
                        nano: nano->0,
                    },
                )
            } else {
                None
            }
        },
    }
}

/// Reads the routing switches of a MIDI port.
pub fn read_midi(j: &Json) -> (r: Option<MidiSettings>)
    ensures
        r == as_midi(*j),
{
    match j {
        Json::Object(f) => {
            let input = get_flag(f, "in")?;
            let out = get_flag(f, "out")?;
            let thru = get_flag(f, "thru")?;
            let route = get_flag(f, "route")?;
            let nano = get_flag(f, "nano")?;
            Some(MidiSettings { input, out, thru, route, nano })
        },
        _ => None,
    }
}

/// Reads the routing switches under a key; they may be missing or null.
pub fn get_opt_midi(fields: &Vec<(String, Json)>, key: &str) -> (r: Option<Option<MidiSettings>>)
    ensures
        r == optional(found(fields@, key@), |x: Json| as_midi(x)),
{
    match lookup(fields, key) {
        Found::Missing => Some(None),
        Found::Repeated => None,
        Found::Once(Json::Null) => Some(None),
        Found::Once(j) => match read_midi(j) {
            Some(m) => Some(Some(m)),
            None => None,
        },
    }
}

/// The settings in the members of an object: every member may be missing or
/// null, and must read where it is there.
pub open spec fn settings_of(f: Seq<(String, Json)>) -> Option<SettingsView> {
    let debug = opt_flag_at(f, "debug"@);
    let led_max_brightness = opt_u8_at(f, "ledMaxBrightness"@);
    let max_velocity = opt_u8_at(f, "maxVelocity"@);
    let max_voltage = opt_u8_at(f, "maxVoltage"@);
    let device_orientation = opt_u8_at(f, "deviceOrientation"@);
    let device_name = opt_text_at(f, "deviceName"@);
    let wifi_enabled = opt_flag_at(f, "wifiEnabled"@);
    let serial_number = opt_text_at(f, "serialNumber"@);
    let firmware_version = opt_text_at(f, "firmwareVersion"@);
    let midi_usb = optional(found(f, "midiUsb"@), |x: Json| as_midi(x));
    let midi2 = optional(found(f, "midi2"@), |x: Json| as_midi(x));
    let sysex_id = opt_u8_at(f, "sysexId"@);
    let idle_timeout = opt_u32_at(f, "idleTimeout"@);
    if debug is Some && led_max_brightness is Some && max_velocity is Some && max_voltage is Some
        && device_orientation is Some && device_name is Some && wifi_enabled is Some
        && serial_number is Some && firmware_version is Some && midi_usb is Some && midi2 is Some
        && sysex_id is Some && idle_timeout is Some {
        Some(
            SettingsView {
                debug: debug->0,
                led_max_brightness: led_max_brightness->0,
                max_velocity: max_velocity->0,
                max_voltage: max_voltage->0,
                device_orientation: device_orientation->0,
                device_name: device_name->0,
                wifi_enabled: wifi_enabled->0,
                serial_number: serial_number->0,
                firmware_version: firmware_version->0,
                midi_usb: midi_usb->0,
                midi2: midi2->0,
                sysex_id: sysex_id->0,
                idle_timeout: idle_timeout->0,
            },
        )
    } else {
        None
    }
}

/// Reads the settings.
pub fn read_settings(f: &Vec<(String, Json)>) -> (r: Option<Settings>)
    ensures
        match r {
            Some(s) => settings_of(f@) == Some(s@),
            None => settings_of(f@) is None,
        },
{
    let debug = get_opt_flag(f, "debug")?;
    let led_max_brightness = get_opt_u8(f, "ledMaxBrightness")?;
    let max_velocity = get_opt_u8(f, "maxVelocity")?;
    let max_voltage = get_opt_u8(f, "maxVoltage")?;
    let device_orientation = get_opt_u8(f, "deviceOrientation")?;
    let device_name = get_opt_text(f, "deviceName")?;
    let wifi_enabled = get_opt_flag(f, "wifiEnabled")?;
    let serial_number = get_opt_text(f, "serialNumber")?;
    let firmware_version = get_opt_text(f, "firmwareVersion")?;
    let midi_usb = get_opt_midi(f, "midiUsb")?;
    let midi2 = get_opt_midi(f, "midi2")?;
    let sysex_id = get_opt_u8(f, "sysexId")?;
    let idle_timeout = get_opt_u32(f, "idleTimeout")?;
    Some(
        Settings {
            debug,
            led_max_brightness,
            max_velocity,
            max_voltage,
            device_orientation,
            device_name,
            wifi_enabled,
            serial_number,
            firmware_version,
            midi_usb,
            midi2,
            sysex_id,
            idle_timeout,
        },
    )
}

/// The profile in the members of an object. The eleven colours must be
/// there, though each may hold null; every other member may be missing or
/// null, and must read where it is there.
pub open spec fn profile_of(f: Seq<(String, Json)>) -> Option<ProfileView> {
    let version = opt_u8_at(f, "version"@);
    let name = opt_text_at(f, "name"@);
    let desc = opt_text_at(f, "desc"@);
    let profile_tag = opt_text_at(f, "profileTag"@);
    let led_enable = opt_flag_at(f, "ledEnable"@);
    let led_brightness = opt_u8_at(f, "ledBrightness"@);
    let led_mode = opt_u8_at(f, "ledMode"@);
    let pointer = color_at(f, "pointer"@);
    let primary = color_at(f, "primary"@);
    let secondary = color_at(f, "secondary"@);
    let attract_distance = opt_u32_at(f, "attractDistance"@);
    let feedback_strength = opt_u32_at(f, "feedbackStrength"@);
    let bounce_strength = opt_u32_at(f, "bounceStrength"@);
    let haptic_click_strength = opt_u32_at(f, "hapticClickStrength"@);
    let button_a_idle = color_at(f, "buttonAIdle"@);
    let button_b_idle = color_at(f, "buttonBIdle"@);
    let button_c_idle = color_at(f, "buttonCIdle"@);
    let button_d_idle = color_at(f, "buttonDIdle"@);
    let button_a_press = color_at(f, "buttonAPress"@);
    let button_b_press = color_at(f, "buttonBPress"@);
    let button_c_press = color_at(f, "buttonCPress"@);
    let button_d_press = color_at(f, "buttonDPress"@);
    let keys = optional(found(f, "keys"@), |x: Json| as_list(x, |y: Json| as_key_def(y)));
    let knob = optional(found(f, "knob"@), |x: Json| as_list(x, |y: Json| as_knob(y)));
    let gui_enable = opt_flag_at(f, "guiEnable"@);
    let audio = optional(found(f, "audio"@), |x: Json| as_audio(x));
    if version is Some && name is Some && desc is Some && profile_tag is Some && led_enable is Some
        && led_brightness is Some && led_mode is Some && pointer is Some && primary is Some
        && secondary is Some && attract_distance is Some && feedback_strength is Some
        && bounce_strength is Some && haptic_click_strength is Some && button_a_idle is Some
        && button_b_idle is Some && button_c_idle is Some && button_d_idle is Some
        && button_a_press is Some && button_b_press is Some && button_c_press is Some
        && button_d_press is Some && keys is Some && knob is Some && gui_enable is Some
        && audio is Some {
        Some(
            ProfileView {
                version: version->0,
                name: name->0,
                desc: desc->0,
                profile_tag: profile_tag->0,
                led_enable: led_enable->0,
                led_brightness: led_brightness->0,
                led_mode: led_mode->0,
                pointer: pointer->0,
                primary: primary->0,
                secondary: secondary->0,
                attract_distance: attract_distance->0,
                feedback_strength: feedback_strength->0,
                bounce_strength: bounce_strength->0,
                haptic_click_strength: haptic_click_strength->0,
                button_a_idle: button_a_idle->0,
                button_b_idle: button_b_idle->0,
                button_c_idle: button_c_idle->0,
                button_d_idle: button_d_idle->0,
                button_a_press: button_a_press->0,
                button_b_press: button_b_press->0,
                button_c_press: button_c_press->0,
                button_d_press: button_d_press->0,
                keys: keys->0,
                knob: knob->0,
                gui_enable: gui_enable->0,
                audio: audio->0,
            },
        )
    } else {
        None
    }
}

/// Reads a profile.
pub fn read_profile(f: &Vec<(String, Json)>) -> (r: Option<Profile>)
    ensures
        match r {
            Some(p) => profile_of(f@) == Some(p@),
            None => profile_of(f@) is None,
        },
{
    let version = get_opt_u8(f, "version")?;
    let name = get_opt_text(f, "name")?;
    let desc = get_opt_text(f, "desc")?;
    let profile_tag = get_opt_text(f, "profileTag")?;
    let led_enable = get_opt_flag(f, "ledEnable")?;
    let led_brightness = get_opt_u8(f, "ledBrightness")?;
    let led_mode = get_opt_u8(f, "ledMode")?;
    let pointer = get_color(f, "pointer")?;
    let primary = get_color(f, "primary")?;
    let secondary = get_color(f, "secondary")?;
    let attract_distance = get_opt_u32(f, "attractDistance")?;
    let feedback_strength = get_opt_u32(f, "feedbackStrength")?;
    let bounce_strength = get_opt_u32(f, "bounceStrength")?;
    let haptic_click_strength = get_opt_u32(f, "hapticClickStrength")?;
    let button_a_idle = get_color(f, "buttonAIdle")?;
    let button_b_idle = get_color(f, "buttonBIdle")?;
    let button_c_idle = get_color(f, "buttonCIdle")?;
    let button_d_idle = get_color(f, "buttonDIdle")?;
    let button_a_press = get_color(f, "buttonAPress")?;
    let button_b_press = get_color(f, "buttonBPress")?;
    let button_c_press = get_color(f, "buttonCPress")?;
    let button_d_press = get_color(f, "buttonDPress")?;
    let keys = match lookup(f, "keys") {
        Found::Missing => None,
        Found::Repeated => {
            return None;
        },
        Found::Once(Json::Null) => None,
        Found::Once(j) => Some(read_key_defs(j)?),
    };
    let knob = match lookup(f, "knob") {
        Found::Missing => None,
        Found::Repeated => {
            return None;
        },
        Found::Once(Json::Null) => None,
        Found::Once(j) => Some(read_knobs(j)?),
    };
    let gui_enable = get_opt_flag(f, "guiEnable")?;
    let audio = match lookup(f, "audio") {
        Found::Missing => None,
        Found::Repeated => {
            return None;
        },
        Found::Once(Json::Null) => None,
        Found::Once(j) => Some(read_audio(j)?),
    };
    Some(
        Profile {
            version,
            name,
            desc,
            profile_tag,
            led_enable,
            led_brightness,
            led_mode,
            pointer,
            primary,
            secondary,
            attract_distance,
            feedback_strength,
            bounce_strength,
            haptic_click_strength,
            button_a_idle,
            button_b_idle,
            button_c_idle,
            button_d_idle,
            button_a_press,
            button_b_press,
            button_c_press,
            button_d_press,
            keys,
            knob,
            gui_enable,
            audio,
        },
    )
}

} // verus!
