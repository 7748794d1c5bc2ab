//! Driver logic for a USB knob controller that speaks newline-delimited JSON
//! over a serial line: record framing, message decoding, command encoding and
//! the correlation of replies with the commands that asked for them.

pub mod decode;
pub mod discovery;
pub mod encode;
pub mod engine;
pub mod error;
pub mod framer;
pub mod handle;
pub mod json;
pub mod message;
pub mod protocol;
pub mod queue;
pub mod records;
pub mod text;

pub use crate::discovery::{AvailableDevice, PortInfo};
pub use crate::engine::{Action, Engine, EngineState, Inbox, ReadOutcome, Step};
pub use crate::error::{Error, SerialError};
pub use crate::framer::LineFramer;
pub use crate::json::Json;
pub use crate::message::Shape;
pub use crate::protocol::{
    Audio, Color, Command, DeviceError, Event, Haptic, Heartbeat, KeyDef, KeyEvent, KeyPress, Knob,
    Message, MessageDetails, MidiSettings, Profile, ProfileRoot, Profiles, Saved, ScreenData,
    SetMessage, SetScreen, Settings, SettingsRoot,
};
pub use crate::queue::CorrelationQueue;
