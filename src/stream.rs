use vstd::prelude::*;

use crate::error::{error_of, Error};
use crate::state::{Request, StreamState};
use crate::types::{Direction, Format, Timestamp};

verus! {

/// What the service settled on when it opened a stream.
#[derive(Debug, Clone, Copy, PartialEq, Eq, Structural)]
pub struct StreamProperties {
    pub direction: Direction,
    pub format: Format,
    pub channel_count: u32,
    pub buffer_capacity_in_frames: i32,
}

impl StreamProperties {
    /// Bytes in one frame: one sample for each channel.
    pub open spec fn frame_bytes(self) -> int {
        self.channel_count as int * self.format.spec_sample_size() as int
    }

    /// Bytes in one frame: one sample for each channel.
    pub fn bytes_per_frame(&self) -> (r: u64)
        ensures
            r as int == self.frame_bytes(),
    {
        let size = self.format.sample_size();
        proof {
            assert(0 <= self.channel_count as int * size as int <= 4 * 0xffff_ffff) by (nonlinear_arith)
                requires
                    0 <= size <= 4,
                    0 <= self.channel_count <= 0xffff_ffff,
            ;
        }
        (self.channel_count as u64) * (size as u64)
    }
}

/// The outcome of a request given the stream's properties, whether it was
/// released, and the state last observed.
pub open spec fn request_check(
    properties: StreamProperties,
    released: bool,
    state: StreamState,
    req: Request,
) -> Result<(), Error> {
    if req.output_only() && properties.direction == Direction::Input {
        Err(Error::Unimplemented)
    } else if released {
        Err(Error::InvalidState)
    } else if state == StreamState::Disconnected && req != Request::Release {
        Err(Error::Disconnected)
    } else if req == Request::Flush && !(state == StreamState::Pausing || state
        == StreamState::Paused) {
        Err(Error::InvalidState)
    } else {
        Ok(())
    }
}

/// The state recorded once the service has accepted a request.
pub open spec fn state_after_request(state: StreamState, req: Request) -> StreamState {
    if req == Request::Release {
        StreamState::Closing
    } else if state == req.settled() {
        state
    } else {
        req.transient()
    }
}

/// The outcome of a blocking transfer of `num_frames` frames for which the
/// service reported `result`.
pub open spec fn transfer_outcome(num_frames: i32, result: i32) -> Result<u32, Error> {
    if result < 0 {
        Err(error_of(result as int))
    } else if result > num_frames {
        Err(Error::OutOfRange)
    } else {
        Ok(result as u32)
    }
}

/// Whether a timestamp query may go to the service, given the state last
/// observed.
pub open spec fn timestamp_check(state: StreamState) -> Result<(), Error> {
    if state == StreamState::Started {
        Ok(())
    } else {
        Err(Error::InvalidState)
    }
}

/// The outcome of a timestamp query for which the service reported `result`,
/// with `ts` written when it succeeded.
pub open spec fn timestamp_outcome(result: i32, ts: Timestamp) -> Result<Timestamp, Error> {
    if result < 0 {
        Err(error_of(result as int))
    } else {
        Ok(ts)
    }
}

/// The buffer size in force after the service answered `result` to a new size,
/// for a stream of the given capacity. A size above the capacity is a broken
/// promise of the service and is reported as `OutOfRange`.
pub open spec fn buffer_size_outcome(capacity: i32, result: i32) -> Result<i32, Error> {
    if result < 0 {
        Err(error_of(result as int))
    } else if result > capacity {
        Err(Error::OutOfRange)
    } else {
        Ok(result)
    }
}

/// An open stream: the properties it was opened with, the callbacks it owns,
/// and what its owner has learned of its state.
///
/// The stream owns its callbacks for its whole life and drops them once, with
/// itself.
pub struct AAudioStream<D, E> {
    properties: StreamProperties,
    callbacks: Option<(D, E)>,
    state: StreamState,
    released: bool,
}

impl<D, E> AAudioStream<D, E> {
    pub closed spec fn spec_properties(&self) -> StreamProperties {
        self.properties
    }

    pub closed spec fn spec_callbacks(&self) -> Option<(D, E)> {
        self.callbacks
    }

    /// The state last observed or implied by an accepted request.
    pub closed spec fn spec_state(&self) -> StreamState {
        self.state
    }

    /// Whether a release was accepted.
    pub closed spec fn spec_released(&self) -> bool {
        self.released
    }

    /// A stream that the service has just opened.
    pub(crate) fn opened(properties: StreamProperties, callbacks: Option<(D, E)>) -> (r: Self)
        ensures
            r.spec_properties() == properties,
            r.spec_callbacks() == callbacks,
            r.spec_state() == StreamState::Open,
            !r.spec_released(),
    {
        AAudioStream {
            properties,
            callbacks,
            state: StreamState::Open,
            released: false,
        }
    }

    pub fn properties(&self) -> (r: StreamProperties)
        ensures
            r == self.spec_properties(),
    {
        self.properties
    }

    pub fn get_direction(&self) -> (r: Direction)
        ensures
            r == self.spec_properties().direction,
    {
        self.properties.direction
    }

    pub fn get_format(&self) -> (r: Format)
        ensures
            r == self.spec_properties().format,
    {
        self.properties.format
    }

    pub fn get_buffer_capacity_in_frames(&self) -> (r: i32)
        ensures
            r == self.spec_properties().buffer_capacity_in_frames,
    {
        self.properties.buffer_capacity_in_frames
    }

    /// The state last observed, or implied by the last accepted request.
    pub fn get_state(&self) -> (r: StreamState)
        ensures
            r == self.spec_state(),
    {
        self.state
    }

    /// Whether a release was accepted.
    pub fn is_released(&self) -> (r: bool)
        ensures
            r == self.spec_released(),
    {
        self.released
    }

    /// Whether the stream is driven by a data callback.
    pub fn has_callbacks(&self) -> (r: bool)
        ensures
            r == (self.spec_callbacks() is Some),
    {
        self.callbacks.is_some()
    }

    /// The callbacks that the stream owns.
    pub fn callbacks(&self) -> (r: Option<&(D, E)>)
        ensures
            r is Some == self.spec_callbacks() is Some,
            r is Some ==> *(r->Some_0) == self.spec_callbacks()->Some_0,
    {
        match &self.callbacks {
            Some(pair) => Some(pair),
            None => None,
        }
    }

    /// Records a state that the service reported.
    pub fn observe_state(&mut self, code: i32) -> (r: StreamState)
        requires
            StreamState::is_code(code),
        ensures
            r == StreamState::spec_from(code),
            final(self).spec_state() == r,
            final(self).spec_properties() == old(self).spec_properties(),
            final(self).spec_callbacks() == old(self).spec_callbacks(),
            final(self).spec_released() == old(self).spec_released(),
    {
        let s = StreamState::from_i32(code);
        self.state = s;
        s
    }

    /// Decides whether a request may go to the service: pausing and flushing
    /// are refused on input streams, everything after a release, everything
    /// but a release once the device is gone, and a flush that does not follow
    /// a pause.
    pub fn check_request(&self, req: Request) -> (r: Result<(), Error>)
        ensures
            r == request_check(self.spec_properties(), self.spec_released(), self.spec_state(), req),
            self.spec_properties().direction == Direction::Input && req.output_only() ==> r
                == Err::<(), Error>(Error::Unimplemented),
    {
        let input = match self.properties.direction {
            Direction::Input => true,
            Direction::Output => false,
        };
        let output_only = match req {
            Request::Pause | Request::Flush => true,
            _ => false,
        };
        if output_only && input {
            Err(Error::Unimplemented)
        } else if self.released {
            Err(Error::InvalidState)
        } else if matches!(self.state, StreamState::Disconnected) && !matches!(req, Request::Release) {
            Err(Error::Disconnected)
        } else if matches!(req, Request::Flush) && !matches!(
            self.state,
            StreamState::Pausing | StreamState::Paused
        ) {
            Err(Error::InvalidState)
        } else {
            Ok(())
        }
    }

    /// Records the service's answer to a request: an accepted request moves
    /// the state to its transitional state, unless the transition has already
    /// settled; a refusal changes nothing.
    pub fn record_request(&mut self, req: Request, result: i32) -> (r: Result<(), Error>)
        ensures
            result >= 0 ==> r == Ok::<(), Error>(()),
            result < 0 ==> r == Err::<(), Error>(error_of(result as int)),
            final(self).spec_state() == (if result >= 0 {
                state_after_request(old(self).spec_state(), req)
            } else {
                old(self).spec_state()
            }),
            final(self).spec_released() == (old(self).spec_released() || (result >= 0 && req
                == Request::Release)),
            final(self).spec_properties() == old(self).spec_properties(),
            final(self).spec_callbacks() == old(self).spec_callbacks(),
    {
        if result < 0 {
            return Err(Error::from_code(result));
        }
        match req {
            Request::Release => {
                self.released = true;
                self.state = StreamState::Closing;
            },
            Request::Start => {
                if !matches!(self.state, StreamState::Started) {
                    self.state = StreamState::Starting;
                }
            },
            Request::Pause => {
                if !matches!(self.state, StreamState::Paused) {
                    self.state = StreamState::Pausing;
                }
            },
            Request::Flush => {
                if !matches!(self.state, StreamState::Flushed) {
                    self.state = StreamState::Flushing;
                }
            },
            Request::Stop => {
                if !matches!(self.state, StreamState::Stopped) {
                    self.state = StreamState::Stopping;
                }
            },
        }
        Ok(())
    }

    /// Records the answer to a wait for a state change: the new state when the
    /// wait succeeded, the error otherwise.
    pub fn record_state_change(&mut self, result: i32, new_state: i32) -> (r: Result<
        StreamState,
        Error,
    >)
        requires
            result < 0 || StreamState::is_code(new_state),
        ensures
            result < 0 ==> r == Err::<StreamState, Error>(error_of(result as int)),
            result < 0 ==> final(self).spec_state() == old(self).spec_state(),
            result >= 0 ==> r == Ok::<StreamState, Error>(StreamState::spec_from(new_state)),
            result >= 0 ==> final(self).spec_state() == StreamState::spec_from(new_state),
            final(self).spec_properties() == old(self).spec_properties(),
            final(self).spec_callbacks() == old(self).spec_callbacks(),
            final(self).spec_released() == old(self).spec_released(),
    {
        if result < 0 {
            Err(Error::from_code(result))
        } else {
            let s = StreamState::from_i32(new_state);
            self.state = s;
            Ok(s)
        }
    }

    /// Decides whether a blocking read or write of `num_frames` frames through a
    /// buffer of `buffer_len` bytes may go to the service. A stream driven by a
    /// data callback refuses it; so does a negative count, or a buffer that
    /// cannot hold the whole frames asked for.
    pub fn check_transfer(&self, buffer_len: usize, num_frames: i32) -> (r: Result<(), Error>)
        ensures
            self.spec_callbacks() is Some ==> r == Err::<(), Error>(Error::InvalidState),
            self.spec_callbacks() is None ==> r == (if num_frames < 0 || num_frames as int
                * self.spec_properties().frame_bytes() > buffer_len as int {
                Err::<(), Error>(Error::IllegalArgument)
            } else {
                Ok(())
            }),
    {
        if self.callbacks.is_some() {
            return Err(Error::InvalidState);
        }
        if num_frames < 0 {
            return Err(Error::IllegalArgument);
        }
        let frame = self.properties.bytes_per_frame();
        proof {
            assert(0 <= num_frames as int * frame as int <= 0x7fff_ffff * 0xffff_ffff_ffff_ffff)
                by (nonlinear_arith)
                requires
                    0 <= num_frames <= 0x7fff_ffff,
                    0 <= frame <= 0xffff_ffff_ffff_ffff,
            ;
        }
        let needed: u128 = (num_frames as u128) * (frame as u128);
        if needed > buffer_len as u128 {
            Err(Error::IllegalArgument)
        } else {
            Ok(())
        }
    }

    /// Turns the service's answer to a read or write of `num_frames` frames into
    /// the number of whole frames moved. A count beyond what was asked for is a
    /// broken promise of the service and is reported as `OutOfRange`.
    pub fn record_transfer(&self, num_frames: i32, result: i32) -> (r: Result<u32, Error>)
        ensures
            r == transfer_outcome(num_frames, result),
            r is Ok ==> r->Ok_0 as int <= num_frames as int,
    {
        if result < 0 {
            Err(Error::from_code(result))
        } else if result > num_frames {
            Err(Error::OutOfRange)
        } else {
            Ok(result as u32)
        }
    }

    /// Decides whether a timestamp query may go to the service: only while the
    /// stream is known to be started.
    pub fn check_timestamp(&self) -> (r: Result<(), Error>)
        ensures
            r == timestamp_check(self.spec_state()),
    {
        if matches!(self.state, StreamState::Started) {
            Ok(())
        } else {
            Err(Error::InvalidState)
        }
    }

    /// Turns the service's answer to a timestamp query into its result: the
    /// timestamp the service wrote when it succeeded, the error otherwise.
    pub fn record_timestamp(&self, result: i32, ts: Timestamp) -> (r: Result<Timestamp, Error>)
        ensures
            r == timestamp_outcome(result, ts),
            result < 0 ==> r == Err::<Timestamp, Error>(error_of(result as int)),
            result >= 0 ==> r == Ok::<Timestamp, Error>(ts),
    {
        if result < 0 {
            Err(Error::from_code(result))
        } else {
            Ok(ts)
        }
    }

    /// Turns the service's answer to a new buffer size into the size in force.
    /// A size above the stream's capacity is refused as `OutOfRange`, so the
    /// size handed on never exceeds the capacity.
    pub fn record_buffer_size(&self, result: i32) -> (r: Result<i32, Error>)
        ensures
            r == buffer_size_outcome(self.spec_properties().buffer_capacity_in_frames, result),
            r is Ok ==> r->Ok_0 <= self.spec_properties().buffer_capacity_in_frames,
    {
        if result < 0 {
            Err(Error::from_code(result))
        } else if result > self.properties.buffer_capacity_in_frames {
            Err(Error::OutOfRange)
        } else {
            Ok(result)
        }
    }
}

/// An accepted start request leaves the stream starting, or started if it
/// already was.
pub proof fn lemma_accepted_start_is_starting_or_started(state: StreamState)
    ensures
        state_after_request(state, Request::Start) == StreamState::Starting
            || state_after_request(state, Request::Start) == StreamState::Started,
{
}

/// A read or write that was let through moves whole frames only: never more
/// frames than asked for, and never more bytes than the buffer holds.
pub proof fn lemma_transfer_whole_frames(
    properties: StreamProperties,
    buffer_len: usize,
    num_frames: i32,
    result: i32,
)
    requires
        num_frames >= 0,
        num_frames as int * properties.frame_bytes() <= buffer_len as int,
    ensures
        transfer_outcome(num_frames, result) is Ok ==> {
            let n = transfer_outcome(num_frames, result)->Ok_0 as int;
            &&& 0 <= n <= num_frames
            &&& n * properties.frame_bytes() <= buffer_len as int
            &&& properties.frame_bytes() > 0 ==> (n * properties.frame_bytes())
                % properties.frame_bytes() == 0
        },
{
    if transfer_outcome(num_frames, result) is Ok {
        let n = result as int;
        let f = properties.frame_bytes();
        assert(0 <= f) by (nonlinear_arith)
            requires
                f == properties.channel_count as int * properties.format.spec_sample_size() as int,
                properties.channel_count >= 0,
                properties.format.spec_sample_size() >= 0,
        ;
        assert(n * f <= num_frames as int * f) by (nonlinear_arith)
            requires
                0 <= n <= num_frames,
                0 <= f,
        ;
        assert(f > 0 ==> (n * f) % f == 0) by (nonlinear_arith);
    }
}

/// The buffer size handed on never exceeds the capacity, so a request for more
/// than the capacity never comes back as asked.
pub proof fn lemma_buffer_size_within_capacity(capacity: i32, requested: i32, result: i32)
    ensures
        buffer_size_outcome(capacity, result) is Ok ==> {
            let actual = buffer_size_outcome(capacity, result)->Ok_0;
            &&& actual <= capacity
            &&& requested > capacity ==> actual != requested
        },
{
}

/// Timestamps fail with `InvalidState` until a stream is seen started: a fresh
/// stream is `Open`, and no accepted request makes a stream `Started` that was
/// not started before; only a state reported by the service does.
pub proof fn lemma_no_timestamp_before_started(state: StreamState, req: Request)
    ensures
        timestamp_check(StreamState::Open) == Err::<(), Error>(Error::InvalidState),
        state != StreamState::Started ==> state_after_request(state, req) != StreamState::Started,
        state != StreamState::Started ==> timestamp_check(state) == Err::<(), Error>(
            Error::InvalidState,
        ),
{
}

} // verus!
