//! Writing a command as the record the device expects: one JSON object,
//! members in the order of their keys.

use vstd::prelude::*;
use crate::json::{json_quoted, quote, quoted_has_no_control};
use crate::protocol::{
    text_view, Command, CommandView, MessageDetails, MessageDetailsView, MidiSettings,
    ScreenData, ScreenDataView, Settings, SettingsView,
};
use crate::text::{
    decimal, decimal_has_no_control, decimal_text, digit, digit_has_no_control, digit_text, flag,
    flag_has_no_control, flag_text, no_control,
};

verus! {

/// A text as a JSON string literal, or `null` where there is none.
pub open spec fn quoted_or_null(text: Option<Seq<char>>) -> Seq<char> {
    match text {
        Some(t) => json_quoted(t),
        None => "null"@,
    }
}

/// The thousandths of a second behind the decimal point: one digit at
/// least, and no zero at the end beyond it.
pub open spec fn fraction_text(thousandths: nat) -> Seq<char> {
    if thousandths % 10 != 0 {
        digit_text(thousandths / 100 % 10) + digit_text(thousandths / 10 % 10) + digit_text(
            thousandths % 10,
        )
    } else if thousandths / 10 % 10 != 0 {
        digit_text(thousandths / 100 % 10) + digit_text(thousandths / 10 % 10)
    } else {
        digit_text(thousandths / 100 % 10)
    }
}

/// A duration in milliseconds as a JSON number of seconds, as in `1.5` for
/// 1500 and `2.0` for 2000, or `null` where there is none.
pub open spec fn seconds_text(duration_ms: Option<u32>) -> Seq<char> {
    match duration_ms {
        Some(ms) => decimal_text(ms as nat / 1000) + "."@ + fraction_text(ms as nat % 1000),
        None => "null"@,
    }
}

/// The routing switches of a MIDI port as a JSON object.
pub open spec fn midi_text(m: MidiSettings) -> Seq<char> {
    "{\"in\":"@ + flag_text(m.input) + ",\"nano\":"@ + flag_text(m.nano) + ",\"out\":"@
        + flag_text(m.out) + ",\"route\":"@ + flag_text(m.route) + ",\"thru\":"@ + flag_text(
        m.thru,
    ) + "}"@
}

/// The members written so far, with one more: its key with the colon, then
/// its value, after a comma where it is not the first. A member without a
/// value is left out.
pub open spec fn with_member(so_far: Seq<char>, key: Seq<char>, value: Option<Seq<char>>) -> Seq<
    char,
> {
    match value {
        None => so_far,
        Some(v) => if so_far.len() == 0 {
            key + v
        } else {
            so_far + ","@ + key + v
        },
    }
}

/// A flag as the value of a member, where there is one.
pub open spec fn flag_value(v: Option<bool>) -> Option<Seq<char>> {
    match v {
        Some(b) => Some(flag_text(b)),
        None => None,
    }
}

/// A small number as the value of a member, where there is one.
pub open spec fn byte_value(v: Option<u8>) -> Option<Seq<char>> {
    match v {
        Some(n) => Some(decimal_text(n as nat)),
        None => None,
    }
}

/// A number as the value of a member, where there is one.
pub open spec fn word_value(v: Option<u32>) -> Option<Seq<char>> {
    match v {
        Some(n) => Some(decimal_text(n as nat)),
        None => None,
    }
}

/// A text as the value of a member, where there is one.
pub open spec fn text_value(v: Option<Seq<char>>) -> Option<Seq<char>> {
    match v {
        Some(t) => Some(json_quoted(t)),
        None => None,
    }
}

/// The routing switches as the value of a member, where there are any.
pub open spec fn midi_value(v: Option<MidiSettings>) -> Option<Seq<char>> {
    match v {
        Some(m) => Some(midi_text(m)),
        None => None,
    }
}

/// The members of a settings object: those that have a value, in the order
/// of their keys, with commas between them.
pub open spec fn settings_members(s: SettingsView) -> Seq<char> {
    let m = with_member(Seq::empty(), "\"debug\":"@, flag_value(s.debug));
    let m = with_member(m, "\"deviceName\":"@, text_value(s.device_name));
    let m = with_member(m, "\"deviceOrientation\":"@, byte_value(s.device_orientation));
    let m = with_member(m, "\"firmwareVersion\":"@, text_value(s.firmware_version));
    let m = with_member(m, "\"idleTimeout\":"@, word_value(s.idle_timeout));
    let m = with_member(m, "\"ledMaxBrightness\":"@, byte_value(s.led_max_brightness));
    let m = with_member(m, "\"maxVelocity\":"@, byte_value(s.max_velocity));
    let m = with_member(m, "\"maxVoltage\":"@, byte_value(s.max_voltage));
    let m = with_member(m, "\"midi2\":"@, midi_value(s.midi2));
    let m = with_member(m, "\"midiUsb\":"@, midi_value(s.midi_usb));
    let m = with_member(m, "\"serialNumber\":"@, text_value(s.serial_number));
    let m = with_member(m, "\"sysexId\":"@, byte_value(s.sysex_id));
    with_member(m, "\"wifiEnabled\":"@, flag_value(s.wifi_enabled))
}

/// The screen message as the object under `screen`.
pub open spec fn message_details_text(m: MessageDetailsView) -> Seq<char> {
    "{\"duration\":"@ + seconds_text(m.duration_ms) + ",\"text\":"@ + quoted_or_null(m.text)
        + ",\"title\":"@ + quoted_or_null(m.title) + "}"@
}

/// The screen content as the object under `screen`.
pub open spec fn screen_data_text(s: ScreenDataView) -> Seq<char> {
    "{\"data1\":"@ + quoted_or_null(s.data1) + ",\"data2\":"@ + quoted_or_null(s.data2)
        + ",\"data3\":"@ + quoted_or_null(s.data3) + ",\"data4\":"@ + quoted_or_null(s.data4)
        + ",\"title\":"@ + quoted_or_null(s.title) + "}"@
}

/// The record for a command.
pub open spec fn command_text(c: CommandView) -> Seq<char> {
    match c {
        CommandView::GetProfiles => "{\"profiles\":\"#all\"}"@,
        CommandView::GetProfile(name) => "{\"profile\":"@ + json_quoted(name) + "}"@,
        CommandView::SetProfile(name) => "{\"current\":"@ + json_quoted(name) + "}"@,
        CommandView::GetSettings => "{\"settings\":\"?\"}"@,
        CommandView::Save => "{\"save\":true}"@,
        CommandView::Load => "{\"load\":true}"@,
        CommandView::Recalibrate => "{\"recalibrate\":true}"@,
        CommandView::ShowMessage(m) => "{\"screen\":"@ + message_details_text(m) + "}"@,
        CommandView::SetScreen(s) => "{\"screen\":"@ + screen_data_text(s) + "}"@,
        CommandView::SetSettings(s) => "{\"settings\":{"@ + settings_members(s) + "}}"@,
    }
}

/// Puts a text between two others: an opening, what stands inside as it is
/// written, and a closing.
pub fn enclose(opening: &str, inside: &str, closing: &str) -> (r: String)
    ensures
        r@ == opening@ + inside@ + closing@,
{
    let mut out = opening.to_owned();
    out.append(inside);
    out.append(closing);
    out
}

/// A text as a JSON string literal, or `null`, holds no control character.
pub proof fn quoted_or_null_has_no_control(text: Option<Seq<char>>)
    ensures
        no_control(quoted_or_null(text)),
{
    reveal_strlit("null");
    if text is Some {
        quoted_has_no_control(text->0);
    }
}

/// A duration as it is written holds no control character.
pub proof fn seconds_have_no_control(duration_ms: Option<u32>)
    ensures
        no_control(seconds_text(duration_ms)),
{
    reveal_strlit("null");
    reveal_strlit(".");
    if duration_ms is Some {
        let ms = duration_ms->0 as nat;
        decimal_has_no_control(ms / 1000);
        digit_has_no_control((ms % 1000) / 100 % 10);
        digit_has_no_control((ms % 1000) / 10 % 10);
        digit_has_no_control((ms % 1000) % 10);
    }
}

/// The routing switches as they are written hold no control character.
pub proof fn midi_has_no_control(m: MidiSettings)
    ensures
        no_control(midi_text(m)),
{
    reveal_strlit("{\"in\":");
    reveal_strlit(",\"nano\":");
    reveal_strlit(",\"out\":");
    reveal_strlit(",\"route\":");
    reveal_strlit(",\"thru\":");
    reveal_strlit("}");
    flag_has_no_control(m.input);
    flag_has_no_control(m.nano);
    flag_has_no_control(m.out);
    flag_has_no_control(m.route);
    flag_has_no_control(m.thru);
}

/// A member added to members without control characters, with a key and a
/// value without them, leaves them without.
pub proof fn member_adds_no_control(so_far: Seq<char>, key: Seq<char>, value: Option<Seq<char>>)
    requires
        no_control(so_far),
        no_control(key),
        value is Some ==> no_control(value->0),
    ensures
        no_control(with_member(so_far, key, value)),
{
    reveal_strlit(",");
}

/// The value of a member as it is written holds no control character.
pub proof fn values_have_no_control(
    flag: Option<bool>,
    byte: Option<u8>,
    word: Option<u32>,
    text: Option<Seq<char>>,
    midi: Option<MidiSettings>,
)
    ensures
        flag is Some ==> no_control(flag_value(flag)->0),
        byte is Some ==> no_control(byte_value(byte)->0),
        word is Some ==> no_control(word_value(word)->0),
        text is Some ==> no_control(text_value(text)->0),
        midi is Some ==> no_control(midi_value(midi)->0),
{
    if flag is Some {
        flag_has_no_control(flag->0);
    }
    if byte is Some {
        decimal_has_no_control(byte->0 as nat);
    }
    if word is Some {
        decimal_has_no_control(word->0 as nat);
    }
    if text is Some {
        quoted_has_no_control(text->0);
    }
    if midi is Some {
        midi_has_no_control(midi->0);
    }
}

/// The members of a settings object hold no control character.
pub proof fn settings_members_have_no_control(s: SettingsView)
    ensures
        no_control(settings_members(s)),
{
    reveal_strlit("\"debug\":");
    reveal_strlit("\"deviceName\":");
    reveal_strlit("\"deviceOrientation\":");
    reveal_strlit("\"firmwareVersion\":");
    reveal_strlit("\"idleTimeout\":");
    reveal_strlit("\"ledMaxBrightness\":");
    reveal_strlit("\"maxVelocity\":");
    reveal_strlit("\"maxVoltage\":");
    reveal_strlit("\"midi2\":");
    reveal_strlit("\"midiUsb\":");
    reveal_strlit("\"serialNumber\":");
    reveal_strlit("\"sysexId\":");
    reveal_strlit("\"wifiEnabled\":");
    values_have_no_control(s.debug, s.device_orientation, s.idle_timeout, s.device_name, s.midi2);
    values_have_no_control(
        s.wifi_enabled,
        s.led_max_brightness,
        None,
        s.firmware_version,
        s.midi_usb,
    );
    values_have_no_control(None, s.max_velocity, None, s.serial_number, None);
    values_have_no_control(None, s.max_voltage, None, None, None);
    values_have_no_control(None, s.sysex_id, None, None, None);
    let m0 = with_member(Seq::empty(), "\"debug\":"@, flag_value(s.debug));
    member_adds_no_control(Seq::empty(), "\"debug\":"@, flag_value(s.debug));
    let m1 = with_member(m0, "\"deviceName\":"@, text_value(s.device_name));
    member_adds_no_control(m0, "\"deviceName\":"@, text_value(s.device_name));
    let m2 = with_member(m1, "\"deviceOrientation\":"@, byte_value(s.device_orientation));
    member_adds_no_control(m1, "\"deviceOrientation\":"@, byte_value(s.device_orientation));
    let m3 = with_member(m2, "\"firmwareVersion\":"@, text_value(s.firmware_version));
    member_adds_no_control(m2, "\"firmwareVersion\":"@, text_value(s.firmware_version));
    let m4 = with_member(m3, "\"idleTimeout\":"@, word_value(s.idle_timeout));
    member_adds_no_control(m3, "\"idleTimeout\":"@, word_value(s.idle_timeout));
    let m5 = with_member(m4, "\"ledMaxBrightness\":"@, byte_value(s.led_max_brightness));
    member_adds_no_control(m4, "\"ledMaxBrightness\":"@, byte_value(s.led_max_brightness));
    let m6 = with_member(m5, "\"maxVelocity\":"@, byte_value(s.max_velocity));
    member_adds_no_control(m5, "\"maxVelocity\":"@, byte_value(s.max_velocity));
    let m7 = with_member(m6, "\"maxVoltage\":"@, byte_value(s.max_voltage));
    member_adds_no_control(m6, "\"maxVoltage\":"@, byte_value(s.max_voltage));
    let m8 = with_member(m7, "\"midi2\":"@, midi_value(s.midi2));
    member_adds_no_control(m7, "\"midi2\":"@, midi_value(s.midi2));
    let m9 = with_member(m8, "\"midiUsb\":"@, midi_value(s.midi_usb));
    member_adds_no_control(m8, "\"midiUsb\":"@, midi_value(s.midi_usb));
    let m10 = with_member(m9, "\"serialNumber\":"@, text_value(s.serial_number));
    member_adds_no_control(m9, "\"serialNumber\":"@, text_value(s.serial_number));
    let m11 = with_member(m10, "\"sysexId\":"@, byte_value(s.sysex_id));
    member_adds_no_control(m10, "\"sysexId\":"@, byte_value(s.sysex_id));
    member_adds_no_control(m11, "\"wifiEnabled\":"@, flag_value(s.wifi_enabled));
}

/// A screen message as it is written holds no control character.
pub proof fn message_details_have_no_control(m: MessageDetailsView)
    ensures
        no_control(message_details_text(m)),
{
    reveal_strlit("{\"duration\":");
    reveal_strlit(",\"text\":");
    reveal_strlit(",\"title\":");
    reveal_strlit("}");
    seconds_have_no_control(m.duration_ms);
    quoted_or_null_has_no_control(m.text);
    quoted_or_null_has_no_control(m.title);
}

/// Screen content as it is written holds no control character.
pub proof fn screen_data_has_no_control(s: ScreenDataView)
    ensures
        no_control(screen_data_text(s)),
{
    reveal_strlit("{\"data1\":");
    reveal_strlit(",\"data2\":");
    reveal_strlit(",\"data3\":");
    reveal_strlit(",\"data4\":");
    reveal_strlit(",\"title\":");
    reveal_strlit("}");
    quoted_or_null_has_no_control(s.data1);
    quoted_or_null_has_no_control(s.data2);
    quoted_or_null_has_no_control(s.data3);
    quoted_or_null_has_no_control(s.data4);
    quoted_or_null_has_no_control(s.title);
}

/// The record for a command holds no control character, whatever the texts
/// in the command: no line feed and no carriage return stands in it, so the
/// newline written behind it is the only one.
pub proof fn command_has_no_control(c: CommandView)
    ensures
        no_control(command_text(c)),
{
    reveal_strlit("{\"profiles\":\"#all\"}");
    reveal_strlit("{\"profile\":");
    reveal_strlit("{\"current\":");
    reveal_strlit("{\"settings\":\"?\"}");
    reveal_strlit("{\"save\":true}");
    reveal_strlit("{\"load\":true}");
    reveal_strlit("{\"recalibrate\":true}");
    reveal_strlit("{\"screen\":");
    reveal_strlit("{\"settings\":{");
    reveal_strlit("}");
    reveal_strlit("}}");
    match c {
        CommandView::GetProfile(name) => quoted_has_no_control(name),
        CommandView::SetProfile(name) => quoted_has_no_control(name),
        CommandView::ShowMessage(m) => message_details_have_no_control(m),
        CommandView::SetScreen(s) => screen_data_has_no_control(s),
        CommandView::SetSettings(s) => settings_members_have_no_control(s),
        _ => {},
    }
}

/// Writes a text as a JSON string literal, or `null`.
fn write_quoted_or_null(out: &mut String, text: &Option<String>)
    ensures
        final(out)@ == old(out)@ + quoted_or_null(text_view(*text)),
{
    match text {
        Some(t) => {
            let q = quote(t.as_str());
            out.append(q.as_str());
        },
        None => {
            out.append("null");
        },
    }
}

/// Writes a duration as seconds with three decimals, or `null`.
fn write_seconds(out: &mut String, duration_ms: Option<u32>)
    ensures
        final(out)@ == old(out)@ + seconds_text(duration_ms),
{
    match duration_ms {
        Some(ms) => {
            let ms: u64 = ms as u64;
            let whole = decimal(ms / 1000);
            let thousandths: u64 = ms % 1000;
            let ghost before = out@;
            out.append(whole.as_str());
            out.append(".");
            out.append(digit(thousandths / 100));
            if thousandths % 100 != 0 {
                out.append(digit(thousandths / 10));
            }
            if thousandths % 10 != 0 {
                out.append(digit(thousandths));
            }
            assert(out@ =~= before + seconds_text(duration_ms));
        },
        None => {
            out.append("null");
        },
    }
}

/// Writes the routing switches of a MIDI port.
fn midi(m: &MidiSettings) -> (r: String)
    ensures
        r@ == midi_text(*m),
{
    let mut out = "{\"in\":".to_owned();
    out.append(flag(m.input));
    out.append(",\"nano\":");
    out.append(flag(m.nano));
    out.append(",\"out\":");
    out.append(flag(m.out));
    out.append(",\"route\":");
    out.append(flag(m.route));
    out.append(",\"thru\":");
    out.append(flag(m.thru));
    out.append("}");
    out
}

/// Adds a member to the members written so far, where it has a value: `key`
/// is the key in quotes with the colon, `value` the value as it is written.
pub fn put(out: &mut String, key: &str, value: Option<String>)
    ensures
        final(out)@ == with_member(old(out)@, key@, text_view(value)),
{
    match value {
        None => {},
        Some(v) => {
            let ghost before = out@;
            if !out.as_str().is_empty() {
                out.append(",");
            }
            out.append(key);
            out.append(v.as_str());
            assert(out@ =~= with_member(before, key@, Some(v@)));
        },
    }
}

/// Writes a flag as the value of a member.
fn flag_member(v: Option<bool>) -> (r: Option<String>)
    ensures
        text_view(r) == flag_value(v),
{
    match v {
        Some(b) => Some(flag(b).to_owned()),
        None => None,
    }
}

/// Writes a small number as the value of a member.
fn byte_member(v: Option<u8>) -> (r: Option<String>)
    ensures
        text_view(r) == byte_value(v),
{
    match v {
        Some(n) => Some(decimal(n as u64)),
        None => None,
    }
}

/// Writes a number as the value of a member.
fn word_member(v: Option<u32>) -> (r: Option<String>)
    ensures
        text_view(r) == word_value(v),
{
    match v {
        Some(n) => Some(decimal(n as u64)),
        None => None,
    }
}

/// Writes a text as the value of a member.
fn text_member(v: &Option<String>) -> (r: Option<String>)
    ensures
        text_view(r) == text_value(text_view(*v)),
{
    match v {
        Some(t) => Some(quote(t.as_str())),
        None => None,
    }
}

/// Writes the routing switches as the value of a member.
fn midi_member(v: &Option<MidiSettings>) -> (r: Option<String>)
    ensures
        text_view(r) == midi_value(*v),
{
    match v {
        Some(m) => Some(midi(m)),
        None => None,
    }
}

/// Writes the members of a settings object.
fn write_settings_members(s: &Settings) -> (r: String)
    ensures
        r@ == settings_members(s@),
{
    let mut out = String::new();
    put(&mut out, "\"debug\":", flag_member(s.debug));
    put(&mut out, "\"deviceName\":", text_member(&s.device_name));
    put(&mut out, "\"deviceOrientation\":", byte_member(s.device_orientation));
    put(&mut out, "\"firmwareVersion\":", text_member(&s.firmware_version));
    put(&mut out, "\"idleTimeout\":", word_member(s.idle_timeout));
    put(&mut out, "\"ledMaxBrightness\":", byte_member(s.led_max_brightness));
    put(&mut out, "\"maxVelocity\":", byte_member(s.max_velocity));
    put(&mut out, "\"maxVoltage\":", byte_member(s.max_voltage));
    put(&mut out, "\"midi2\":", midi_member(&s.midi2));
    put(&mut out, "\"midiUsb\":", midi_member(&s.midi_usb));
    put(&mut out, "\"serialNumber\":", text_member(&s.serial_number));
    put(&mut out, "\"sysexId\":", byte_member(s.sysex_id));
    put(&mut out, "\"wifiEnabled\":", flag_member(s.wifi_enabled));
    out
}

/// Writes a screen message as the object under `screen`.
fn write_message_details(m: &MessageDetails) -> (r: String)
    ensures
        r@ == message_details_text(m@),
{
    let mut out = "{\"duration\":".to_owned();
    write_seconds(&mut out, m.duration_ms);
    out.append(",\"text\":");
    write_quoted_or_null(&mut out, &m.text);
    out.append(",\"title\":");
    write_quoted_or_null(&mut out, &m.title);
    out.append("}");
    out
}

/// Writes screen content as the object under `screen`.
fn write_screen_data(s: &ScreenData) -> (r: String)
    ensures
        r@ == screen_data_text(s@),
{
    let mut out = "{\"data1\":".to_owned();
    write_quoted_or_null(&mut out, &s.data1);
    out.append(",\"data2\":");
    write_quoted_or_null(&mut out, &s.data2);
    out.append(",\"data3\":");
    write_quoted_or_null(&mut out, &s.data3);
    out.append(",\"data4\":");
    write_quoted_or_null(&mut out, &s.data4);
    out.append(",\"title\":");
    write_quoted_or_null(&mut out, &s.title);
    out.append("}");
    out
}

impl Command {
    /// Writes the command as the record the device expects, without the
    /// newline that ends it. Every command has a record, and no record holds
    /// a control character: a line feed in a name or a text is written as
    /// the two characters of its escape.
    pub fn to_string(&self) -> (r: String)
        ensures
            r@ == command_text(self@),
            no_control(r@),
    {
        proof {
            command_has_no_control(self@);
        }
        match self {
            Command::GetProfiles => "{\"profiles\":\"#all\"}".to_owned(),
            Command::GetProfile(name) => enclose(
                "{\"profile\":",
                quote(name.as_str()).as_str(),
                "}",
            ),
            Command::SetProfile(name) => enclose(
                "{\"current\":",
                quote(name.as_str()).as_str(),
                "}",
            ),
            Command::GetSettings => "{\"settings\":\"?\"}".to_owned(),
            Command::Save => "{\"save\":true}".to_owned(),
            Command::Load => "{\"load\":true}".to_owned(),
            Command::Recalibrate => "{\"recalibrate\":true}".to_owned(),
            Command::ShowMessage(m) => enclose(
                "{\"screen\":",
                write_message_details(m).as_str(),
                "}",
            ),
            Command::SetScreen(s) => enclose("{\"screen\":", write_screen_data(s).as_str(), "}"),
            Command::SetSettings(s) => enclose(
                "{\"settings\":{",
                write_settings_members(s).as_str(),
                "}}",
            ),
        }
    }
}

} // verus!
