//! The records exchanged with the device, and the mathematical view of each.

use vstd::prelude::*;

verus! {

/// The view of an optional text.
pub open spec fn text_view(text: Option<String>) -> Option<Seq<char>> {
    match text {
        Some(s) => Some(s@),
        None => None,
    }
}

/// The view of a list of texts.
pub open spec fn texts_view(texts: Seq<String>) -> Seq<Seq<char>> {
    Seq::new(texts.len(), |i: int| texts[i]@)
}

/// A failure reported by the device.
#[derive(Debug, Clone, PartialEq, Eq)]
pub struct DeviceError {
    pub error: String,
    pub msg: Option<String>,
}

pub struct DeviceErrorView {
    pub error: Seq<char>,
    pub msg: Option<Seq<char>>,
}

impl View for DeviceError {
    type V = DeviceErrorView;

    open spec fn view(&self) -> DeviceErrorView {
        DeviceErrorView { error: self.error@, msg: text_view(self.msg) }
    }
}

/// The liveness signal the device sends unasked.
#[derive(Debug, Clone, Copy, PartialEq, Eq)]
pub struct Heartbeat {
    pub idle: u64,
}

/// The acknowledgement of a save or load.
#[derive(Debug, Clone, Copy, PartialEq, Eq)]
pub struct Saved {
    pub saved: bool,
}

/// A key going down or up, with the state of the four keys at that moment.
#[derive(Debug, Clone, Copy, PartialEq, Eq)]
pub enum KeyEvent {
    Down { keys: [bool; 4], id: u8 },
    Up { keys: [bool; 4], id: u8 },
}

pub enum KeyEventView {
    Down { keys: Seq<bool>, id: u8 },
    Up { keys: Seq<bool>, id: u8 },
}

impl View for KeyEvent {
    type V = KeyEventView;

    open spec fn view(&self) -> KeyEventView {
        match *self {
            KeyEvent::Down { keys, id } => KeyEventView::Down { keys: keys@, id },
            KeyEvent::Up { keys, id } => KeyEventView::Up { keys: keys@, id },
        }
    }
}

/// `X` for a key that is down, `O` for one that is up.
pub open spec fn key_mark(down: bool) -> Seq<char> {
    if down {
        "X"@
    } else {
        "O"@
    }
}

/// The four keys in square brackets, first key first.
pub open spec fn keys_text(keys: Seq<bool>) -> Seq<char> {
    "["@ + key_mark(keys[0]) + key_mark(keys[1]) + key_mark(keys[2]) + key_mark(keys[3]) + "]"@
}

impl KeyEvent {
    /// The state of the four keys at this event.
    pub open spec fn spec_keys(&self) -> Seq<bool> {
        match *self {
            KeyEvent::Down { keys, id } => keys@,
            KeyEvent::Up { keys, id } => keys@,
        }
    }

    /// Draws the four keys: `[XOOO]` where only the first is down.
    pub fn pretty_print(&self) -> (r: String)
        ensures
            r@ == keys_text(self.spec_keys()),
    {
        let keys: &[bool; 4] = match self {
            KeyEvent::Down { keys, id: _ } => keys,
            KeyEvent::Up { keys, id: _ } => keys,
        };
        let mut out = "[".to_owned();
        out.append(if keys[0] { "X" } else { "O" });
        out.append(if keys[1] { "X" } else { "O" });
        out.append(if keys[2] { "X" } else { "O" });
        out.append(if keys[3] { "X" } else { "O" });
        out.append("]");
        out
    }
}

impl KeyEvent {
    /// The event for a reader: the direction, the key's number and the four
    /// keys, as in `[DOWN] Key: 2, State: [OXOO]`.
    pub open spec fn description(&self) -> Seq<char> {
        match *self {
            KeyEvent::Down { keys, id } => "[DOWN] Key: "@ + crate::text::decimal_text(id as nat)
                + ", State: "@ + keys_text(keys@),
            KeyEvent::Up { keys, id } => "[UP] Key: "@ + crate::text::decimal_text(id as nat)
                + ", State: "@ + keys_text(keys@),
        }
    }

    /// Describes the event for a reader.
    pub fn describe(&self) -> (r: String)
        ensures
            r@ == self.description(),
    {
        let mut out = match self {
            KeyEvent::Down { keys: _, id: _ } => "[DOWN] Key: ".to_owned(),
            KeyEvent::Up { keys: _, id: _ } => "[UP] Key: ".to_owned(),
        };
        let id: u8 = match self {
            KeyEvent::Down { keys: _, id } => *id,
            KeyEvent::Up { keys: _, id } => *id,
        };
        out.append(crate::text::decimal(id as u64).as_str());
        out.append(", State: ");
        out.append(self.pretty_print().as_str());
        out
    }
}

/// An input event the device sends unasked.
#[derive(Debug, Clone, Copy, PartialEq, Eq)]
pub enum Event {
    Position(u64),
    Key(KeyEvent),
}

pub enum EventView {
    Position(u64),
    Key(KeyEventView),
}

impl View for Event {
    type V = EventView;

    open spec fn view(&self) -> EventView {
        match *self {
            Event::Position(p) => EventView::Position(p),
            Event::Key(k) => EventView::Key(k@),
        }
    }
}

impl Event {
    /// The event for a reader: `Position: ` and the number, or the key event.
    pub open spec fn description(&self) -> Seq<char> {
        match *self {
            Event::Position(p) => "Position: "@ + crate::text::decimal_text(p as nat),
            Event::Key(k) => k.description(),
        }
    }

    /// Describes the event for a reader.
    pub fn describe(&self) -> (r: String)
        ensures
            r@ == self.description(),
    {
        match self {
            Event::Position(p) => {
                let mut out = "Position: ".to_owned();
                out.append(crate::text::decimal(*p).as_str());
                out
            },
            Event::Key(k) => k.describe(),
        }
    }
}

/// The names of the stored profiles and the one in use.
#[derive(Debug, Clone, PartialEq, Eq)]
pub struct Profiles {
    pub profiles: Option<Vec<String>>,
    pub current_profile: String,
}

pub struct ProfilesView {
    pub profiles: Option<Seq<Seq<char>>>,
    pub current_profile: Seq<char>,
}

impl View for Profiles {
    type V = ProfilesView;

    open spec fn view(&self) -> ProfilesView {
        ProfilesView {
            profiles: match self.profiles {
                Some(names) => Some(texts_view(names@)),
                None => None,
            },
            current_profile: self.current_profile@,
        }
    }
}

/// A colour of the LED ring.
#[derive(Debug, Clone, Copy, PartialEq, Eq)]
pub struct Color {
    pub r: u8,
    pub g: u8,
    pub b: u8,
}

/// One action bound to a key.
#[derive(Debug, Clone, PartialEq, Eq)]
pub struct KeyPress {
    pub key_type: String,
}

impl View for KeyPress {
    type V = Seq<char>;

    open spec fn view(&self) -> Seq<char> {
        self.key_type@
    }
}

/// The actions bound to one key.
#[derive(Debug, Clone, PartialEq, Eq)]
pub struct KeyDef {
    pub pressed: Vec<KeyPress>,
}

impl View for KeyDef {
    type V = Seq<Seq<char>>;

    open spec fn view(&self) -> Seq<Seq<char>> {
        Seq::new(self.pressed@.len(), |i: int| self.pressed@[i]@)
    }
}

/// The haptic response of a knob mode.
#[derive(Debug, Clone, Copy, PartialEq, Eq)]
pub struct Haptic {
    pub mode: u8,
    pub start_pos: u8,
    pub end_pos: u8,
    pub detent_count: u8,
    pub vernier: u8,
    pub kx_force: bool,
    pub output_ramp: u32,
    pub detent_strength: u8,
}

/// One mode of the knob.
#[derive(Debug, Clone, PartialEq, Eq)]
pub struct Knob {
    pub value_min: u8,
    pub value_max: u8,
    pub angle_min: u8,
    pub angle_max: u8,
    pub wrap: bool,
    pub step: u8,
    pub key_state: u8,
    pub haptic: Haptic,
    pub knob_type: String,
    pub channel: u8,
    pub cc: u8,
}

pub struct KnobView {
    pub value_min: u8,
    pub value_max: u8,
    pub angle_min: u8,
    pub angle_max: u8,
    pub wrap: bool,
    pub step: u8,
    pub key_state: u8,
    pub haptic: Haptic,
    pub knob_type: Seq<char>,
    pub channel: u8,
    pub cc: u8,
}

impl View for Knob {
    type V = KnobView;

    open spec fn view(&self) -> KnobView {
        KnobView {
            value_min: self.value_min,
            value_max: self.value_max,
            angle_min: self.angle_min,
            angle_max: self.angle_max,
            wrap: self.wrap,
            step: self.step,
            key_state: self.key_state,
            haptic: self.haptic,
            knob_type: self.knob_type@,
            channel: self.channel,
            cc: self.cc,
        }
    }
}

/// The click sounds of a profile.
#[derive(Debug, Clone, PartialEq, Eq)]
pub struct Audio {
    pub click_type: String,
    pub key_click_type: String,
    pub click_level: u8,
}

pub struct AudioView {
    pub click_type: Seq<char>,
    pub key_click_type: Seq<char>,
    pub click_level: u8,
}

impl View for Audio {
    type V = AudioView;

    open spec fn view(&self) -> AudioView {
        AudioView {
            click_type: self.click_type@,
            key_click_type: self.key_click_type@,
            click_level: self.click_level,
        }
    }
}

/// A full profile: LEDs, haptics, keys, knob modes and audio.
#[derive(Debug, Clone, PartialEq, Eq)]
pub struct Profile {
    pub version: Option<u8>,
    pub name: Option<String>,
    pub desc: Option<String>,
    pub profile_tag: Option<String>,
    pub led_enable: Option<bool>,
    pub led_brightness: Option<u8>,
    pub led_mode: Option<u8>,
    pub pointer: Option<Color>,
    pub primary: Option<Color>,
    pub secondary: Option<Color>,
    pub attract_distance: Option<u32>,
    pub feedback_strength: Option<u32>,
    pub bounce_strength: Option<u32>,
    pub haptic_click_strength: Option<u32>,
    pub button_a_idle: Option<Color>,
    pub button_b_idle: Option<Color>,
    pub button_c_idle: Option<Color>,
    pub button_d_idle: Option<Color>,
    pub button_a_press: Option<Color>,
    pub button_b_press: Option<Color>,
    pub button_c_press: Option<Color>,
    pub button_d_press: Option<Color>,
    pub keys: Option<Vec<KeyDef>>,
    pub knob: Option<Vec<Knob>>,
    pub gui_enable: Option<bool>,
    pub audio: Option<Audio>,
}

pub struct ProfileView {
    pub version: Option<u8>,
    pub name: Option<Seq<char>>,
    pub desc: Option<Seq<char>>,
    pub profile_tag: Option<Seq<char>>,
    pub led_enable: Option<bool>,
    pub led_brightness: Option<u8>,
    pub led_mode: Option<u8>,
    pub pointer: Option<Color>,
    pub primary: Option<Color>,
    pub secondary: Option<Color>,
    pub attract_distance: Option<u32>,
    pub feedback_strength: Option<u32>,
    pub bounce_strength: Option<u32>,
    pub haptic_click_strength: Option<u32>,
    pub button_a_idle: Option<Color>,
    pub button_b_idle: Option<Color>,
    pub button_c_idle: Option<Color>,
    pub button_d_idle: Option<Color>,
    pub button_a_press: Option<Color>,
    pub button_b_press: Option<Color>,
    pub button_c_press: Option<Color>,
    pub button_d_press: Option<Color>,
    pub keys: Option<Seq<Seq<Seq<char>>>>,
    pub knob: Option<Seq<KnobView>>,
    pub gui_enable: Option<bool>,
    pub audio: Option<AudioView>,
}

/// The view of a list of key definitions.
pub open spec fn key_defs_view(keys: Seq<KeyDef>) -> Seq<Seq<Seq<char>>> {
    Seq::new(keys.len(), |i: int| keys[i]@)
}

/// The view of a list of knob modes.
pub open spec fn knobs_view(knobs: Seq<Knob>) -> Seq<KnobView> {
    Seq::new(knobs.len(), |i: int| knobs[i]@)
}

impl View for Profile {
    type V = ProfileView;

    open spec fn view(&self) -> ProfileView {
        ProfileView {
            version: self.version,
            name: text_view(self.name),
            desc: text_view(self.desc),
            profile_tag: text_view(self.profile_tag),
            led_enable: self.led_enable,
            led_brightness: self.led_brightness,
            led_mode: self.led_mode,
            pointer: self.pointer,
            primary: self.primary,
            secondary: self.secondary,
            attract_distance: self.attract_distance,
            feedback_strength: self.feedback_strength,
            bounce_strength: self.bounce_strength,
            haptic_click_strength: self.haptic_click_strength,
            button_a_idle: self.button_a_idle,
            button_b_idle: self.button_b_idle,
            button_c_idle: self.button_c_idle,
            button_d_idle: self.button_d_idle,
            button_a_press: self.button_a_press,
            button_b_press: self.button_b_press,
            button_c_press: self.button_c_press,
            button_d_press: self.button_d_press,
            keys: match self.keys {
                Some(k) => Some(key_defs_view(k@)),
                None => None,
            },
            knob: match self.knob {
                Some(k) => Some(knobs_view(k@)),
                None => None,
            },
            gui_enable: self.gui_enable,
            audio: match self.audio {
                Some(a) => Some(a@),
                None => None,
            },
        }
    }
}

/// A profile as the device sends it: under the key `profile`.
#[derive(Debug, Clone, PartialEq, Eq)]
pub struct ProfileRoot {
    pub profile: Profile,
}

/// The routing switches of one MIDI port.
#[derive(Debug, Clone, Copy, PartialEq, Eq)]
pub struct MidiSettings {
    pub input: bool,
    pub out: bool,
    pub thru: bool,
    pub route: bool,
    pub nano: bool,
}

impl Default for MidiSettings {
    fn default() -> (m: MidiSettings)
        ensures
            m == (MidiSettings { input: false, out: false, thru: false, route: false, nano: false }),
    {
        MidiSettings { input: false, out: false, thru: false, route: false, nano: false }
    }
}

/// The device settings; a field that is `None` is absent from the record.
#[derive(Debug, Clone, PartialEq, Eq)]
pub struct Settings {
    pub debug: Option<bool>,
    pub led_max_brightness: Option<u8>,
    pub max_velocity: Option<u8>,
    pub max_voltage: Option<u8>,
    pub device_orientation: Option<u8>,
    pub device_name: Option<String>,
    pub wifi_enabled: Option<bool>,
    pub serial_number: Option<String>,
    pub firmware_version: Option<String>,
    pub midi_usb: Option<MidiSettings>,
    pub midi2: Option<MidiSettings>,
    pub sysex_id: Option<u8>,
    pub idle_timeout: Option<u32>,
}

pub struct SettingsView {
    pub debug: Option<bool>,
    pub led_max_brightness: Option<u8>,
    pub max_velocity: Option<u8>,
    pub max_voltage: Option<u8>,
    pub device_orientation: Option<u8>,
    pub device_name: Option<Seq<char>>,
    pub wifi_enabled: Option<bool>,
    pub serial_number: Option<Seq<char>>,
    pub firmware_version: Option<Seq<char>>,
    pub midi_usb: Option<MidiSettings>,
    pub midi2: Option<MidiSettings>,
    pub sysex_id: Option<u8>,
    pub idle_timeout: Option<u32>,
}

impl View for Settings {
    type V = SettingsView;

    open spec fn view(&self) -> SettingsView {
        SettingsView {
            debug: self.debug,
            led_max_brightness: self.led_max_brightness,
            max_velocity: self.max_velocity,
            max_voltage: self.max_voltage,
            device_orientation: self.device_orientation,
            device_name: text_view(self.device_name),
            wifi_enabled: self.wifi_enabled,
            serial_number: text_view(self.serial_number),
            firmware_version: text_view(self.firmware_version),
            midi_usb: self.midi_usb,
            midi2: self.midi2,
            sysex_id: self.sysex_id,
            idle_timeout: self.idle_timeout,
        }
    }
}

impl Default for Settings {
    fn default() -> (s: Settings)
        ensures
            s@ == Settings::empty_view(),
    {
        Settings {
            debug: None,
            led_max_brightness: None,
            max_velocity: None,
            max_voltage: None,
            device_orientation: None,
            device_name: None,
            wifi_enabled: None,
            serial_number: None,
            firmware_version: None,
            midi_usb: None,
            midi2: None,
            sysex_id: None,
            idle_timeout: None,
        }
    }
}

impl Settings {
    /// The settings record with every field absent.
    pub open spec fn empty_view() -> SettingsView {
        SettingsView {
            debug: None,
            led_max_brightness: None,
            max_velocity: None,
            max_voltage: None,
            device_orientation: None,
            device_name: None,
            wifi_enabled: None,
            serial_number: None,
            firmware_version: None,
            midi_usb: None,
            midi2: None,
            sysex_id: None,
            idle_timeout: None,
        }
    }
}

/// The settings as the device sends them: under the key `settings`.
#[derive(Debug, Clone, PartialEq, Eq)]
pub struct SettingsRoot {
    pub settings: Settings,
}

/// A message to show on the screen for a while.
#[derive(Debug, Clone, PartialEq, Eq)]
pub struct MessageDetails {
    pub title: Option<String>,
    pub text: Option<String>,
    /// How long the message stays, in milliseconds.
    pub duration_ms: Option<u32>,
}

pub struct MessageDetailsView {
    pub title: Option<Seq<char>>,
    pub text: Option<Seq<char>>,
    pub duration_ms: Option<u32>,
}

impl View for MessageDetails {
    type V = MessageDetailsView;

    open spec fn view(&self) -> MessageDetailsView {
        MessageDetailsView {
            title: text_view(self.title),
            text: text_view(self.text),
            duration_ms: self.duration_ms,
        }
    }
}

/// A screen message as the device takes it: under the key `screen`.
#[derive(Debug, Clone, PartialEq, Eq)]
pub struct SetMessage {
    pub screen: MessageDetails,
}

/// A title and four lines of text for the screen.
#[derive(Debug, Clone, PartialEq, Eq)]
pub struct ScreenData {
    pub title: Option<String>,
    pub data1: Option<String>,
    pub data2: Option<String>,
    pub data3: Option<String>,
    pub data4: Option<String>,
}

pub struct ScreenDataView {
    pub title: Option<Seq<char>>,
    pub data1: Option<Seq<char>>,
    pub data2: Option<Seq<char>>,
    pub data3: Option<Seq<char>>,
    pub data4: Option<Seq<char>>,
}

impl View for ScreenData {
    type V = ScreenDataView;

    open spec fn view(&self) -> ScreenDataView {
        ScreenDataView {
            title: text_view(self.title),
            data1: text_view(self.data1),
            data2: text_view(self.data2),
            data3: text_view(self.data3),
            data4: text_view(self.data4),
        }
    }
}

/// Screen content as the device takes it: under the key `screen`.
#[derive(Debug, Clone, PartialEq, Eq)]
pub struct SetScreen {
    pub screen: ScreenData,
}

/// A record from the device. The wire carries no tag: a record is the first
/// of these, in this order, whose shape it has.
#[derive(Debug, Clone, PartialEq, Eq)]
pub enum Message {
    Error(DeviceError),
    Heartbeat(Heartbeat),
    Saved(Saved),
    Event(Event),
    Profiles(Profiles),
    Profile(ProfileRoot),
    Settings(SettingsRoot),
}

pub enum MessageView {
    Error(DeviceErrorView),
    Heartbeat(Heartbeat),
    Saved(Saved),
    Event(EventView),
    Profiles(ProfilesView),
    Profile(ProfileView),
    Settings(SettingsView),
}

impl View for Message {
    type V = MessageView;

    open spec fn view(&self) -> MessageView {
        match *self {
            Message::Error(e) => MessageView::Error(e@),
            Message::Heartbeat(h) => MessageView::Heartbeat(h),
            Message::Saved(s) => MessageView::Saved(s),
            Message::Event(e) => MessageView::Event(e@),
            Message::Profiles(p) => MessageView::Profiles(p@),
            Message::Profile(p) => MessageView::Profile(p.profile@),
            Message::Settings(s) => MessageView::Settings(s.settings@),
        }
    }
}

impl Message {
    /// Whether the device sends this message unasked: a heartbeat or an event.
    pub open spec fn spec_is_unsolicited(&self) -> bool {
        self is Heartbeat || self is Event
    }

    /// Whether the device sends this message unasked, rather than in reply to
    /// a command.
    #[verifier::when_used_as_spec(spec_is_unsolicited)]
    pub fn is_unsolicited(&self) -> (b: bool)
        ensures
            b == self.spec_is_unsolicited(),
    {
        match self {
            Message::Heartbeat(_) => true,
            Message::Event(_) => true,
            _ => false,
        }
    }
}

/// A request to the device.
#[derive(Debug, Clone, PartialEq, Eq)]
pub enum Command {
    GetProfiles,
    GetProfile(String),
    SetProfile(String),
    GetSettings,
    Save,
    Load,
    Recalibrate,
    ShowMessage(MessageDetails),
    SetScreen(ScreenData),
    SetSettings(Settings),
}

pub enum CommandView {
    GetProfiles,
    GetProfile(Seq<char>),
    SetProfile(Seq<char>),
    GetSettings,
    Save,
    Load,
    Recalibrate,
    ShowMessage(MessageDetailsView),
    SetScreen(ScreenDataView),
    SetSettings(SettingsView),
}

impl View for Command {
    type V = CommandView;

    open spec fn view(&self) -> CommandView {
        match *self {
            Command::GetProfiles => CommandView::GetProfiles,
            Command::GetProfile(name) => CommandView::GetProfile(name@),
            Command::SetProfile(name) => CommandView::SetProfile(name@),
            Command::GetSettings => CommandView::GetSettings,
            Command::Save => CommandView::Save,
            Command::Load => CommandView::Load,
            Command::Recalibrate => CommandView::Recalibrate,
            Command::ShowMessage(m) => CommandView::ShowMessage(m@),
            Command::SetScreen(s) => CommandView::SetScreen(s@),
            Command::SetSettings(s) => CommandView::SetSettings(s@),
        }
    }
}

} // verus!
