use vstd::prelude::*;

use crate::error::{error_of, Error};
use crate::state::StreamState;
use crate::stream::{AAudioStream, StreamProperties};
use crate::types::{
    AllowedCapturePolicy, ContentType, Direction, Format, InputPreset, PerformanceMode,
    SharingMode, Usage,
};

verus! {

/// The options asked for when opening a stream. `None` leaves an option to
/// the service, which settles it at open time.
#[derive(Debug, Clone, Copy, PartialEq, Eq, Structural)]
pub struct StreamConfig {
    pub device_id: Option<i32>,
    pub sample_rate: Option<i32>,
    pub channel_count: Option<i32>,
    pub format: Option<Format>,
    pub sharing_mode: Option<SharingMode>,
    pub direction: Option<Direction>,
    pub buffer_capacity_in_frames: Option<i32>,
    pub performance_mode: Option<PerformanceMode>,
    pub usage: Option<Usage>,
    pub content_type: Option<ContentType>,
    pub input_preset: Option<InputPreset>,
    pub allowed_capture_policy: Option<AllowedCapturePolicy>,
    pub session_id: Option<i32>,
    pub privacy_sensitive: Option<bool>,
    pub frames_per_data_callback: Option<i32>,
}

impl StreamConfig {
    /// The configuration in which every option is left to the service.
    pub open spec fn spec_unspecified() -> StreamConfig {
        StreamConfig {
            device_id: None,
            sample_rate: None,
            channel_count: None,
            format: None,
            sharing_mode: None,
            direction: None,
            buffer_capacity_in_frames: None,
            performance_mode: None,
            usage: None,
            content_type: None,
            input_preset: None,
            allowed_capture_policy: None,
            session_id: None,
            privacy_sensitive: None,
            frames_per_data_callback: None,
        }
    }

    /// A configuration in which every option is left to the service.
    pub fn unspecified() -> (r: StreamConfig)
        ensures
            r == StreamConfig::spec_unspecified(),
    {
        StreamConfig {
            device_id: None,
            sample_rate: None,
            channel_count: None,
            format: None,
            sharing_mode: None,
            direction: None,
            buffer_capacity_in_frames: None,
            performance_mode: None,
            usage: None,
            content_type: None,
            input_preset: None,
            allowed_capture_policy: None,
            session_id: None,
            privacy_sensitive: None,
            frames_per_data_callback: None,
        }
    }
}

/// Gathers the options of a stream and the callbacks that will drive it, then
/// hands both to the stream that the service opens.
pub struct AAudioStreamBuilder<D, E> {
    config: StreamConfig,
    callbacks: Option<(D, E)>,
}

impl<D, E> AAudioStreamBuilder<D, E> {
    pub closed spec fn spec_config(&self) -> StreamConfig {
        self.config
    }

    pub closed spec fn spec_callbacks(&self) -> Option<(D, E)> {
        self.callbacks
    }

    /// A builder that leaves every option to the service and has no callbacks.
    pub fn new() -> (r: Self)
        ensures
            r.spec_config() == StreamConfig::spec_unspecified(),
            r.spec_callbacks() is None,
    {
        AAudioStreamBuilder { config: StreamConfig::unspecified(), callbacks: None }
    }

    /// The options gathered so far.
    pub fn config(&self) -> (r: StreamConfig)
        ensures
            r == self.spec_config(),
    {
        self.config
    }

    /// The callbacks registered so far.
    pub fn callbacks(&self) -> (r: Option<&(D, E)>)
        ensures
            r is Some == self.spec_callbacks() is Some,
            r is Some ==> *(r->Some_0) == self.spec_callbacks()->Some_0,
    {
        match &self.callbacks {
            Some(pair) => Some(pair),
            None => None,
        }
    }

    /// Registers the data and error callbacks of the stream. A pair registered
    /// before is dropped here and replaced, so none is ever leaked.
    pub fn set_callbacks(self, data_callback: D, error_callback: E) -> (r: Self)
        ensures
            r.spec_config() == self.spec_config(),
            r.spec_callbacks() == Some((data_callback, error_callback)),
    {
        let mut b = self;
        b.callbacks = Some((data_callback, error_callback));
        b
    }

    /// Asks for a device by its id; 0 leaves it to the service.
    pub fn set_device_id(self, device_id: i32) -> (r: Self)
        ensures
            r.spec_config() == (StreamConfig { device_id: Some(device_id), ..self.spec_config() }),
            r.spec_callbacks() == self.spec_callbacks(),
    {
        let mut b = self;
        b.config.device_id = Some(device_id);
        b
    }

    /// Asks for a sample rate in Hertz.
    pub fn set_sample_rate(self, sample_rate: i32) -> (r: Self)
        ensures
            r.spec_config() == (StreamConfig {
                sample_rate: Some(sample_rate),
                ..self.spec_config()
            }),
            r.spec_callbacks() == self.spec_callbacks(),
    {
        let mut b = self;
        b.config.sample_rate = Some(sample_rate);
        b
    }

    /// Asks for a number of channels.
    pub fn set_channel_count(self, channel_count: i32) -> (r: Self)
        ensures
            r.spec_config() == (StreamConfig {
                channel_count: Some(channel_count),
                ..self.spec_config()
            }),
            r.spec_callbacks() == self.spec_callbacks(),
    {
        let mut b = self;
        b.config.channel_count = Some(channel_count);
        b
    }

    /// Asks for a sample format.
    pub fn set_format(self, format: Format) -> (r: Self)
        ensures
            r.spec_config() == (StreamConfig { format: Some(format), ..self.spec_config() }),
            r.spec_callbacks() == self.spec_callbacks(),
    {
        let mut b = self;
        b.config.format = Some(format);
        b
    }

    /// Asks for a sharing mode.
    pub fn set_sharing_mode(self, sharing_mode: SharingMode) -> (r: Self)
        ensures
            r.spec_config() == (StreamConfig {
                sharing_mode: Some(sharing_mode),
                ..self.spec_config()
            }),
            r.spec_callbacks() == self.spec_callbacks(),
    {
        let mut b = self;
        b.config.sharing_mode = Some(sharing_mode);
        b
    }

    /// Asks for a direction.
    pub fn set_direction(self, direction: Direction) -> (r: Self)
        ensures
            r.spec_config() == (StreamConfig { direction: Some(direction), ..self.spec_config() }),
            r.spec_callbacks() == self.spec_callbacks(),
    {
        let mut b = self;
        b.config.direction = Some(direction);
        b
    }

    /// Asks for a buffer capacity in frames; 0 leaves it to the service.
    pub fn set_buffer_capacity_in_frames(self, num_frames: i32) -> (r: Self)
        ensures
            r.spec_config() == (StreamConfig {
                buffer_capacity_in_frames: Some(num_frames),
                ..self.spec_config()
            }),
            r.spec_callbacks() == self.spec_callbacks(),
    {
        let mut b = self;
        b.config.buffer_capacity_in_frames = Some(num_frames);
        b
    }

    /// Asks for a performance mode.
    pub fn set_performance_mode(self, mode: PerformanceMode) -> (r: Self)
        ensures
            r.spec_config() == (StreamConfig {
                performance_mode: Some(mode),
                ..self.spec_config()
            }),
            r.spec_callbacks() == self.spec_callbacks(),
    {
        let mut b = self;
        b.config.performance_mode = Some(mode);
        b
    }

    /// States what the stream is used for.
    pub fn set_usage(self, usage: Usage) -> (r: Self)
        ensures
            r.spec_config() == (StreamConfig { usage: Some(usage), ..self.spec_config() }),
            r.spec_callbacks() == self.spec_callbacks(),
    {
        let mut b = self;
        b.config.usage = Some(usage);
        b
    }

    /// States what kind of content the stream carries.
    pub fn set_content_type(self, content_type: ContentType) -> (r: Self)
        ensures
            r.spec_config() == (StreamConfig {
                content_type: Some(content_type),
                ..self.spec_config()
            }),
            r.spec_callbacks() == self.spec_callbacks(),
    {
        let mut b = self;
        b.config.content_type = Some(content_type);
        b
    }

    /// Asks for an input preset.
    pub fn set_input_preset(self, input_preset: InputPreset) -> (r: Self)
        ensures
            r.spec_config() == (StreamConfig {
                input_preset: Some(input_preset),
                ..self.spec_config()
            }),
            r.spec_callbacks() == self.spec_callbacks(),
    {
        let mut b = self;
        b.config.input_preset = Some(input_preset);
        b
    }

    /// States who may capture the stream's audio.
    pub fn set_allowed_capture_policy(self, policy: AllowedCapturePolicy) -> (r: Self)
        ensures
            r.spec_config() == (StreamConfig {
                allowed_capture_policy: Some(policy),
                ..self.spec_config()
            }),
            r.spec_callbacks() == self.spec_callbacks(),
    {
        let mut b = self;
        b.config.allowed_capture_policy = Some(policy);
        b
    }

    /// Asks the service to allocate a session id at open time: the same as
    /// setting the session id 0.
    pub fn allocate_session_id(self) -> (r: Self)
        ensures
            r.spec_config() == (StreamConfig { session_id: Some(0i32), ..self.spec_config() }),
            r.spec_callbacks() == self.spec_callbacks(),
    {
        self.set_session_id(0)
    }

    /// Asks for no session id: the same as setting the session id -1.
    pub fn remove_session_id(self) -> (r: Self)
        ensures
            r.spec_config() == (StreamConfig { session_id: Some(-1i32), ..self.spec_config() }),
            r.spec_callbacks() == self.spec_callbacks(),
    {
        self.set_session_id(-1)
    }

    /// Asks for a session id: one allocated before, 0 to allocate a new one,
    /// -1 for none.
    pub fn set_session_id(self, session_id: i32) -> (r: Self)
        ensures
            r.spec_config() == (StreamConfig {
                session_id: Some(session_id),
                ..self.spec_config()
            }),
            r.spec_callbacks() == self.spec_callbacks(),
    {
        let mut b = self;
        b.config.session_id = Some(session_id);
        b
    }

    /// Marks an input stream as privacy sensitive, or not.
    pub fn set_privacy_sensitive(self, privacy_sensitive: bool) -> (r: Self)
        ensures
            r.spec_config() == (StreamConfig {
                privacy_sensitive: Some(privacy_sensitive),
                ..self.spec_config()
            }),
            r.spec_callbacks() == self.spec_callbacks(),
    {
        let mut b = self;
        b.config.privacy_sensitive = Some(privacy_sensitive);
        b
    }

    /// Asks for a number of frames per data callback; 0 leaves it to the service.
    pub fn set_frames_per_data_callback(self, num_frames: i32) -> (r: Self)
        ensures
            r.spec_config() == (StreamConfig {
                frames_per_data_callback: Some(num_frames),
                ..self.spec_config()
            }),
            r.spec_callbacks() == self.spec_callbacks(),
    {
        let mut b = self;
        b.config.frames_per_data_callback = Some(num_frames);
        b
    }

    /// Takes the service's answer to an open request. On success the stream
    /// takes over the callbacks and starts out `Open`, with the properties the
    /// service settled on; on failure the callbacks are dropped with the builder.
    pub fn open_stream(self, result: i32, properties: StreamProperties) -> (r: Result<
        AAudioStream<D, E>,
        Error,
    >)
        ensures
            result < 0 ==> r is Err && r->Err_0 == error_of(result as int),
            result >= 0 ==> r is Ok,
            r is Ok ==> r->Ok_0.spec_properties() == properties,
            r is Ok ==> r->Ok_0.spec_callbacks() == self.spec_callbacks(),
            r is Ok ==> r->Ok_0.spec_state() == StreamState::Open,
            r is Ok ==> !r->Ok_0.spec_released(),
    {
        if result < 0 {
            return Err(Error::from_code(result));
        }
        Ok(AAudioStream::opened(properties, self.callbacks))
    }
}

} // verus!
