use vstd::prelude::*;

verus! {

/// The lifecycle state of a stream, as the service reports it.
#[derive(Debug, Clone, Copy, PartialEq, Eq, Structural)]
pub enum StreamState {
    Uninitialized,
    Unknown,
    Open,
    Starting,
    Started,
    Pausing,
    Paused,
    Flushing,
    Flushed,
    Stopping,
    Stopped,
    Closing,
    Closed,
    Disconnected,
}

impl StreamState {
    /// The service code of the state.
    pub open spec fn spec_code(self) -> i32 {
        match self {
            StreamState::Uninitialized => 0,
            StreamState::Unknown => 1,
            StreamState::Open => 2,
            StreamState::Starting => 3,
            StreamState::Started => 4,
            StreamState::Pausing => 5,
            StreamState::Paused => 6,
            StreamState::Flushing => 7,
            StreamState::Flushed => 8,
            StreamState::Stopping => 9,
            StreamState::Stopped => 10,
            StreamState::Closing => 11,
            StreamState::Closed => 12,
            StreamState::Disconnected => 13,
        }
    }

    /// The codes that name a state.
    pub open spec fn is_code(val: i32) -> bool {
        0 <= val <= 13
    }

    /// The state that a defined code names.
    pub open spec fn spec_from(val: i32) -> StreamState {
        if val == 0 {
            StreamState::Uninitialized
        } else if val == 1 {
            StreamState::Unknown
        } else if val == 2 {
            StreamState::Open
        } else if val == 3 {
            StreamState::Starting
        } else if val == 4 {
            StreamState::Started
        } else if val == 5 {
            StreamState::Pausing
        } else if val == 6 {
            StreamState::Paused
        } else if val == 7 {
            StreamState::Flushing
        } else if val == 8 {
            StreamState::Flushed
        } else if val == 9 {
            StreamState::Stopping
        } else if val == 10 {
            StreamState::Stopped
        } else if val == 11 {
            StreamState::Closing
        } else if val == 12 {
            StreamState::Closed
        } else {
            StreamState::Disconnected
        }
    }

    pub fn to_i32(&self) -> (r: i32)
        ensures
            r == self.spec_code(),
    {
        match self {
            StreamState::Uninitialized => 0,
            StreamState::Unknown => 1,
            StreamState::Open => 2,
            StreamState::Starting => 3,
            StreamState::Started => 4,
            StreamState::Pausing => 5,
            StreamState::Paused => 6,
            StreamState::Flushing => 7,
            StreamState::Flushed => 8,
            StreamState::Stopping => 9,
            StreamState::Stopped => 10,
            StreamState::Closing => 11,
            StreamState::Closed => 12,
            StreamState::Disconnected => 13,
        }
    }

    /// The state of a code reported by the service; any other code is a broken
    /// promise of the service and is refused.
    pub fn from_i32(val: i32) -> (r: StreamState)
        requires
            StreamState::is_code(val),
        ensures
            r == StreamState::spec_from(val),
            r.spec_code() == val,
    {
        match val {
            0 => StreamState::Uninitialized,
            1 => StreamState::Unknown,
            2 => StreamState::Open,
            3 => StreamState::Starting,
            4 => StreamState::Started,
            5 => StreamState::Pausing,
            6 => StreamState::Paused,
            7 => StreamState::Flushing,
            8 => StreamState::Flushed,
            9 => StreamState::Stopping,
            10 => StreamState::Stopped,
            11 => StreamState::Closing,
            12 => StreamState::Closed,
            _ => StreamState::Disconnected,
        }
    }

    /// The state of a code, or `None` when the code names none.
    pub fn try_from_i32(val: i32) -> (r: Option<StreamState>)
        ensures
            r == (if StreamState::is_code(val) {
                Some(StreamState::spec_from(val))
            } else {
                None
            }),
    {
        if 0 <= val && val <= 13 {
            Some(StreamState::from_i32(val))
        } else {
            None
        }
    }
}

/// A transition that the owner of a stream asks the service for.
#[derive(Debug, Clone, Copy, PartialEq, Eq, Structural)]
pub enum Request {
    Start,
    Pause,
    Flush,
    Stop,
    Release,
}

impl Request {
    /// The state that a stream is in once the service has accepted the request
    /// and before the transition completes.
    pub open spec fn transient(self) -> StreamState {
        match self {
            Request::Start => StreamState::Starting,
            Request::Pause => StreamState::Pausing,
            Request::Flush => StreamState::Flushing,
            Request::Stop => StreamState::Stopping,
            Request::Release => StreamState::Closing,
        }
    }

    /// The state in which the transition ends.
    pub open spec fn settled(self) -> StreamState {
        match self {
            Request::Start => StreamState::Started,
            Request::Pause => StreamState::Paused,
            Request::Flush => StreamState::Flushed,
            Request::Stop => StreamState::Stopped,
            Request::Release => StreamState::Closing,
        }
    }

    /// Whether the request only makes sense for a stream that plays out.
    pub open spec fn output_only(self) -> bool {
        self == Request::Pause || self == Request::Flush
    }
}

} // verus!
