use vstd::prelude::*;

verus! {

/// Which way audio data travels through a stream.
#[derive(Debug, Clone, Copy, PartialEq, Eq, Structural)]
pub enum Direction {
    /// Out of the device, for example through a speaker.
    Output,
    /// Into the device, for example from a microphone.
    Input,
}

impl Direction {
    /// The service code of the direction.
    pub open spec fn spec_code(self) -> i32 {
        match self {
            Direction::Output => 0,
            Direction::Input => 1,
        }
    }

    /// The codes that name a direction.
    pub open spec fn is_code(val: i32) -> bool {
        0 <= val <= 1
    }

    /// The direction that a defined code names.
    pub open spec fn spec_from(val: i32) -> Direction {
        if val == 0 {
            Direction::Output
        } else {
            Direction::Input
        }
    }

    pub fn to_i32(&self) -> (r: i32)
        ensures
            r == self.spec_code(),
    {
        match self {
            Direction::Output => 0,
            Direction::Input => 1,
        }
    }

    /// The direction of a code reported by the service; any other code is a
    /// broken promise of the service and is refused.
    pub fn from_i32(val: i32) -> (r: Direction)
        requires
            Direction::is_code(val),
        ensures
            r == Direction::spec_from(val),
            r.spec_code() == val,
    {
        if val == 0 {
            Direction::Output
        } else {
            Direction::Input
        }
    }

    /// The direction of a code, or `None` when the code names none.
    pub fn try_from_i32(val: i32) -> (r: Option<Direction>)
        ensures
            r == (if Direction::is_code(val) {
                Some(Direction::spec_from(val))
            } else {
                None
            }),
    {
        if 0 <= val && val <= 1 {
            Some(Direction::from_i32(val))
        } else {
            None
        }
    }
}

/// The sample format of a stream.
#[derive(Debug, Clone, Copy, PartialEq, Eq, Structural)]
pub enum Format {
    /// Left to the service to choose.
    Unspecified,
    /// Signed 16-bit samples.
    I16,
    /// 32-bit floating-point samples, nominally in `[-1, 1)`.
    F32,
}

impl Format {
    /// The service code of the format.
    pub open spec fn spec_code(self) -> i32 {
        match self {
            Format::Unspecified => 0,
            Format::I16 => 1,
            Format::F32 => 2,
        }
    }

    /// The codes that name a format.
    pub open spec fn is_code(val: i32) -> bool {
        0 <= val <= 2
    }

    /// The format that a defined code names.
    pub open spec fn spec_from(val: i32) -> Format {
        if val == 0 {
            Format::Unspecified
        } else if val == 1 {
            Format::I16
        } else {
            Format::F32
        }
    }

    /// Bytes per sample; none for an unspecified format.
    pub open spec fn spec_sample_size(self) -> i32 {
        match self {
            Format::Unspecified => 0,
            Format::I16 => 2,
            Format::F32 => 4,
        }
    }

    pub fn to_i32(&self) -> (r: i32)
        ensures
            r == self.spec_code(),
    {
        match self {
            Format::Unspecified => 0,
            Format::I16 => 1,
            Format::F32 => 2,
        }
    }

    /// The format of a code reported by the service; any other code is refused.
    pub fn from_i32(val: i32) -> (r: Format)
        requires
            Format::is_code(val),
        ensures
            r == Format::spec_from(val),
            r.spec_code() == val,
    {
        if val == 0 {
            Format::Unspecified
        } else if val == 1 {
            Format::I16
        } else {
            Format::F32
        }
    }

    /// The format of a code, or `None` when the code names none.
    pub fn try_from_i32(val: i32) -> (r: Option<Format>)
        ensures
            r == (if Format::is_code(val) {
                Some(Format::spec_from(val))
            } else {
                None
            }),
    {
        if 0 <= val && val <= 2 {
            Some(Format::from_i32(val))
        } else {
            None
        }
    }

    /// Bytes per sample: 2 for `I16`, 4 for `F32`, 0 when unspecified.
    pub fn sample_size(&self) -> (r: i32)
        ensures
            r == self.spec_sample_size(),
            0 <= r <= 4,
    {
        match self {
            Format::Unspecified => 0,
            Format::I16 => 2,
            Format::F32 => 4,
        }
    }
}

/// Whether a stream has its device to itself.
#[derive(Debug, Clone, Copy, PartialEq, Eq, Structural)]
pub enum SharingMode {
    /// The only stream on its device, with the lowest latency.
    Exclusive,
    /// Mixed with other streams by the service.
    Shared,
}

impl SharingMode {
    /// The service code of the sharing mode.
    pub open spec fn spec_code(self) -> i32 {
        match self {
            SharingMode::Exclusive => 0,
            SharingMode::Shared => 1,
        }
    }

    /// The codes that name a sharing mode.
    pub open spec fn is_code(val: i32) -> bool {
        0 <= val <= 1
    }

    /// The sharing mode that a defined code names.
    pub open spec fn spec_from(val: i32) -> SharingMode {
        if val == 0 {
            SharingMode::Exclusive
        } else {
            SharingMode::Shared
        }
    }

    pub fn to_i32(&self) -> (r: i32)
        ensures
            r == self.spec_code(),
    {
        match self {
            SharingMode::Exclusive => 0,
            SharingMode::Shared => 1,
        }
    }

    /// The sharing mode of a code reported by the service; any other code is refused.
    pub fn from_i32(val: i32) -> (r: SharingMode)
        requires
            SharingMode::is_code(val),
        ensures
            r == SharingMode::spec_from(val),
            r.spec_code() == val,
    {
        if val == 0 {
            SharingMode::Exclusive
        } else {
            SharingMode::Shared
        }
    }

    /// The sharing mode of a code, or `None` when the code names none.
    pub fn try_from_i32(val: i32) -> (r: Option<SharingMode>)
        ensures
            r == (if SharingMode::is_code(val) {
                Some(SharingMode::spec_from(val))
            } else {
                None
            }),
    {
        if 0 <= val && val <= 1 {
            Some(SharingMode::from_i32(val))
        } else {
            None
        }
    }
}

/// What the sound is for; guides volume and routing decisions.
#[derive(Debug, Clone, Copy, PartialEq, Eq, Structural)]
pub enum Usage {
    /// Streaming media, music, video, podcasts.
    Media,
    /// Voice over IP, telephony.
    VoiceCommunication,
    /// Busy tones, DTMF and other telephony signals.
    VoiceCommunicationSignalling,
    /// Demands the user's attention.
    Alarm,
    /// A message arrived or another background event happened.
    Notification,
    /// The phone rings.
    NotificationRingtone,
    /// Draws attention, for example when the battery is low.
    NotificationEvent,
    /// Screen readers.
    AssistanceAccessibility,
    /// Driving or navigation directions.
    AssistanceNavigationGuidance,
    /// User interface sounds and beeps.
    AssistanceSonification,
    /// Game audio and sound effects.
    Game,
    /// Spoken answers to the user's queries.
    Assistant,
    /// Emergency sounds; needs a privileged permission.
    Emergency,
    /// Safety alerts; needs a privileged permission.
    Safety,
    /// Vehicle status alerts; needs a privileged permission.
    VehicleStatus,
    /// Traffic announcements; needs a privileged permission.
    Announcement,
}

impl Usage {
    /// The service code of the usage.
    pub open spec fn spec_code(self) -> i32 {
        match self {
            Usage::Media => 1,
            Usage::VoiceCommunication => 2,
            Usage::VoiceCommunicationSignalling => 3,
            Usage::Alarm => 4,
            Usage::Notification => 5,
            Usage::NotificationRingtone => 6,
            Usage::NotificationEvent => 10,
            Usage::AssistanceAccessibility => 11,
            Usage::AssistanceNavigationGuidance => 12,
            Usage::AssistanceSonification => 13,
            Usage::Game => 14,
            Usage::Assistant => 16,
            Usage::Emergency => 1000,
            Usage::Safety => 1001,
            Usage::VehicleStatus => 1002,
            Usage::Announcement => 1003,
        }
    }

    pub fn to_i32(&self) -> (r: i32)
        ensures
            r == self.spec_code(),
    {
        match self {
            Usage::Media => 1,
            Usage::VoiceCommunication => 2,
            Usage::VoiceCommunicationSignalling => 3,
            Usage::Alarm => 4,
            Usage::Notification => 5,
            Usage::NotificationRingtone => 6,
            Usage::NotificationEvent => 10,
            Usage::AssistanceAccessibility => 11,
            Usage::AssistanceNavigationGuidance => 12,
            Usage::AssistanceSonification => 13,
            Usage::Game => 14,
            Usage::Assistant => 16,
            Usage::Emergency => 1000,
            Usage::Safety => 1001,
            Usage::VehicleStatus => 1002,
            Usage::Announcement => 1003,
        }
    }
}

/// The capture source and recording configuration of an input stream.
#[derive(Debug, Clone, Copy, PartialEq, Eq, Structural)]
pub enum InputPreset {
    /// When no other preset applies.
    Generic,
    /// Recording video.
    Camcorder,
    /// Speech recognition.
    VoiceRecognition,
    /// Telephony or voice messages.
    VoiceCommunication,
    /// Input with no effects and no automatic gain control.
    Unprocessed,
    /// Real-time processing for live performance, with minimal latency.
    VoicePerformance,
}

impl InputPreset {
    /// The service code of the preset.
    pub open spec fn spec_code(self) -> i32 {
        match self {
            InputPreset::Generic => 1,
            InputPreset::Camcorder => 5,
            InputPreset::VoiceRecognition => 6,
            InputPreset::VoiceCommunication => 7,
            InputPreset::Unprocessed => 9,
            InputPreset::VoicePerformance => 10,
        }
    }

    pub fn to_i32(&self) -> (r: i32)
        ensures
            r == self.spec_code(),
    {
        match self {
            InputPreset::Generic => 1,
            InputPreset::Camcorder => 5,
            InputPreset::VoiceRecognition => 6,
            InputPreset::VoiceCommunication => 7,
            InputPreset::Unprocessed => 9,
            InputPreset::VoicePerformance => 10,
        }
    }
}

/// What kind of content a stream carries.
#[derive(Debug, Clone, Copy, PartialEq, Eq, Structural)]
pub enum ContentType {
    /// Spoken voice, audio books.
    Speech,
    /// Pre-recorded or live music.
    Music,
    /// A movie or video soundtrack.
    Movie,
    /// Sounds that accompany a user action, such as clicks.
    Sonification,
}

impl ContentType {
    /// The service code of the content type.
    pub open spec fn spec_code(self) -> i32 {
        match self {
            ContentType::Speech => 1,
            ContentType::Music => 2,
            ContentType::Movie => 3,
            ContentType::Sonification => 4,
        }
    }

    pub fn to_i32(&self) -> (r: i32)
        ensures
            r == self.spec_code(),
    {
        match self {
            ContentType::Speech => 1,
            ContentType::Music => 2,
            ContentType::Movie => 3,
            ContentType::Sonification => 4,
        }
    }
}

/// Who may capture the audio of a stream.
#[derive(Debug, Clone, Copy, PartialEq, Eq, Structural)]
pub enum AllowedCapturePolicy {
    /// Any application.
    AllowCaptureByAll,
    /// System applications only.
    AllowCaptureBySystem,
    /// Nobody, not even system applications.
    AllowCaptureByNone,
}

impl AllowedCapturePolicy {
    /// The service code of the policy.
    pub open spec fn spec_code(self) -> i32 {
        match self {
            AllowedCapturePolicy::AllowCaptureByAll => 1,
            AllowedCapturePolicy::AllowCaptureBySystem => 2,
            AllowedCapturePolicy::AllowCaptureByNone => 3,
        }
    }

    pub fn to_i32(&self) -> (r: i32)
        ensures
            r == self.spec_code(),
    {
        match self {
            AllowedCapturePolicy::AllowCaptureByAll => 1,
            AllowedCapturePolicy::AllowCaptureBySystem => 2,
            AllowedCapturePolicy::AllowCaptureByNone => 3,
        }
    }
}

/// The trade-off between latency and power that a stream asks for.
#[derive(Debug, Clone, Copy, PartialEq, Eq, Structural)]
pub enum PerformanceMode {
    /// No particular needs; the default.
    Normal,
    /// Battery life matters more than latency (output only).
    PowerSaving,
    /// Latency matters more than battery life.
    LowLatency,
}

impl PerformanceMode {
    /// The service code of the mode.
    pub open spec fn spec_code(self) -> i32 {
        match self {
            PerformanceMode::Normal => 10,
            PerformanceMode::PowerSaving => 11,
            PerformanceMode::LowLatency => 12,
        }
    }

    /// The mode of any code: codes that name no mode fall back to `Normal`.
    pub open spec fn spec_from(val: i32) -> PerformanceMode {
        if val == 11 {
            PerformanceMode::PowerSaving
        } else if val == 12 {
            PerformanceMode::LowLatency
        } else {
            PerformanceMode::Normal
        }
    }

    pub fn to_i32(&self) -> (r: i32)
        ensures
            r == self.spec_code(),
    {
        match self {
            PerformanceMode::Normal => 10,
            PerformanceMode::PowerSaving => 11,
            PerformanceMode::LowLatency => 12,
        }
    }

    /// The mode of a code reported by the service, tolerating codes added later.
    pub fn from_i32(val: i32) -> (r: PerformanceMode)
        ensures
            r == PerformanceMode::spec_from(val),
    {
        match val {
            11 => PerformanceMode::PowerSaving,
            12 => PerformanceMode::LowLatency,
            _ => PerformanceMode::Normal,
        }
    }
}

/// What a data callback asks for next.
#[derive(Debug, Clone, Copy, PartialEq, Eq, Structural)]
pub enum CallbackResult {
    /// Keep calling the callback.
    Continue,
    /// Stop calling it; the stream still has to be paused or stopped.
    Stop,
}

impl CallbackResult {
    /// The code handed back to the service: 0 to continue, 1 to stop.
    pub open spec fn spec_code(self) -> i32 {
        match self {
            CallbackResult::Continue => 0,
            CallbackResult::Stop => 1,
        }
    }

    pub fn to_i32(&self) -> (r: i32)
        ensures
            r == self.spec_code(),
    {
        match self {
            CallbackResult::Continue => 0,
            CallbackResult::Stop => 1,
        }
    }
}

/// A frame position and the time at which it was presented.
#[derive(Debug, Clone, Copy, PartialEq, Eq, Structural)]
pub struct Timestamp {
    pub frame_position: i64,
    pub time_nanos: i64,
}

} // verus!
