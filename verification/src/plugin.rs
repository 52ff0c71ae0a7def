//! The service core: one configuration, one generator, one frequency table
//! and one loop control word, with the operations the hosting environment
//! drives — start and stop the production loop, produce one event per tick,
//! and answer queries about decoded payloads and observed frequencies.

use vstd::prelude::*;
use vstd::bytes::{spec_u64_from_le_bytes, spec_u64_to_le_bytes};
use crate::codec;
use crate::errors::PluginError;
use crate::generator::Generator;
use crate::lifecycle::{LoopControl, Phase};
use crate::table::{bumped, count_of, FrequencyTable};

verus! {

/// The service configuration, set once at construction: the exclusive upper
/// bound of generated values. A zero range is a construction-time error.
pub struct Config {
    /// Defines the random generator range.
    pub range: u64,
}

/// One open stream of produced events. The core keeps no per-stream state;
/// the value exists so the host can tell an opened stream from a service
/// that was never opened.
pub struct RandomGenPluginInstance;

/// The verified core of the random-generator service.
pub struct RandomGenPlugin {
    /// Exclusive upper bound for generated values, from the configuration.
    range: u64,
    /// How many times each produced value has occurred.
    histogram: FrequencyTable,
    /// The bounded random source of the production loop.
    thread_range: Generator,
    /// Phase and cancellation flag of the production loop.
    control: LoopControl,
}

impl RandomGenPlugin {
    /// The configured range.
    pub closed spec fn spec_range(&self) -> u64 {
        self.range
    }

    /// The frequency table's current contents.
    pub closed spec fn spec_histogram(&self) -> Map<u64, u64> {
        self.histogram@
    }

    /// The production loop's control word.
    pub closed spec fn spec_control(&self) -> LoopControl {
        self.control
    }

    /// A well-formed service has a positive range, shared by its generator.
    pub closed spec fn wf(&self) -> bool {
        &&& self.range > 0
        &&& self.thread_range.wf()
        &&& self.thread_range.spec_range() == self.range
    }

    /// The configured range, for callers outside the proof.
    pub fn range(&self) -> (r: u64)
        ensures
            r == self.spec_range(),
    {
        self.range
    }

    /// The loop's current control word, for callers outside the proof: the
    /// host reads it to know whether the loop may be started or observed.
    pub fn control(&self) -> (c: LoopControl)
        ensures
            c == self.spec_control(),
    {
        self.control
    }

    /// Builds the service from its configuration: a zero range is rejected
    /// as a configuration error; otherwise the service starts with an empty
    /// table and a loop that was never started.
    pub fn new(config: Config) -> (r: Result<RandomGenPlugin, PluginError>)
        ensures
            match r {
                Ok(p) => {
                    &&& config.range > 0
                    &&& p.wf()
                    &&& p.spec_range() == config.range
                    &&& p.spec_histogram() == Map::<u64, u64>::empty()
                    &&& p.spec_control().phase is Created
                    &&& !p.spec_control().cancel
                },
                Err(e) => config.range == 0 && e == PluginError::ConfigurationError,
            },
    {
        let thread_range = match Generator::new(config.range) {
            Ok(g) => g,
            Err(e) => {
                return Err(e);
            },
        };
        Ok(
            RandomGenPlugin {
                range: config.range,
                histogram: FrequencyTable::new(),
                thread_range,
                control: LoopControl::new(),
            },
        )
    }

    /// The range is fixed at construction: a later configuration hand-off
    /// is accepted and ignored.
    pub fn set_config(&mut self, _config: Config) -> (r: Result<(), PluginError>)
        ensures
            r == Ok::<(), PluginError>(()),
            *final(self) == *old(self),
    {
        Ok(())
    }

    /// Opens one stream of produced events; the optional parameter string of
    /// the host plays no role here.
    pub fn open(&mut self, _params: Option<&str>) -> (r: Result<
        RandomGenPluginInstance,
        PluginError,
    >)
        ensures
            r matches Ok(_),
            *final(self) == *old(self),
    {
        Ok(RandomGenPluginInstance)
    }

    /// Takes the `Created → Running` transition of the production loop. The
    /// host must call this exactly once, when it spawns the loop thread;
    /// starting twice is a caller error and is ruled out here.
    pub fn start_async(&mut self) -> (r: Result<(), PluginError>)
        requires
            old(self).spec_control().phase is Created,
        ensures
            r == Ok::<(), PluginError>(()),
            final(self).spec_control().phase is Running,
            final(self).spec_control().cancel == old(self).spec_control().cancel,
            final(self).spec_range() == old(self).spec_range(),
            final(self).spec_histogram() == old(self).spec_histogram(),
            final(self).wf() == old(self).wf(),
    {
        self.control.request_start();
        Ok(())
    }

    /// Requests cancellation of the production loop and returns immediately:
    /// a running loop keeps its phase with the flag set and exits on its own
    /// within one tick; before a start, or after the loop exited, nothing
    /// changes. Stopping twice is the same as stopping once, and never an
    /// error.
    pub fn stop_async(&mut self) -> (r: Result<(), PluginError>)
        ensures
            r == Ok::<(), PluginError>(()),
            final(self).spec_control() == crate::lifecycle::stop_requested(
                old(self).spec_control(),
            ),
            final(self).spec_range() == old(self).spec_range(),
            final(self).spec_histogram() == old(self).spec_histogram(),
            final(self).wf() == old(self).wf(),
    {
        self.control.request_stop();
        Ok(())
    }

    /// One production step: draws a value below the range, records it in the
    /// frequency table — strictly before the value becomes observable
    /// outside — and returns it with its 8-byte little-endian payload for
    /// the host to publish.
    pub fn produce_event(&mut self) -> (r: (u64, Vec<u8>))
        requires
            old(self).wf(),
        ensures
            r.0 < old(self).spec_range(),
            r.1@ == spec_u64_to_le_bytes(r.0),
            final(self).spec_histogram() == bumped(old(self).spec_histogram(), r.0),
            final(self).spec_range() == old(self).spec_range(),
            final(self).spec_control() == old(self).spec_control(),
            final(self).wf(),
    {
        let value = self.thread_range.next();
        self.histogram.record(value);
        let payload = codec::encode_value(value);
        (value, payload)
    }

    /// The loop's per-tick observation of the cancellation flag; the loop
    /// must exit exactly when this returns true.
    pub fn observe_cancel(&mut self) -> (exit: bool)
        requires
            old(self).spec_control().phase is Running,
        ensures
            exit == old(self).spec_control().cancel,
            final(self).spec_control().cancel == old(self).spec_control().cancel,
            final(self).spec_control().phase == if exit {
                Phase::Stopped
            } else {
                Phase::Running
            },
            final(self).spec_range() == old(self).spec_range(),
            final(self).spec_histogram() == old(self).spec_histogram(),
            final(self).wf() == old(self).wf(),
    {
        self.control.observe_cancel()
    }

    /// The loop's decision after one publish: it goes on unless the sink's
    /// receiving side is gone, in which case the loop ends for good.
    pub fn after_publish(&mut self, outcome: crate::lifecycle::PublishOutcome) -> (go_on: bool)
        requires
            old(self).spec_control().phase is Running,
        ensures
            go_on == !(outcome is ReceiverGone),
            final(self).spec_control().cancel == old(self).spec_control().cancel,
            final(self).spec_control().phase == if go_on {
                Phase::Running
            } else {
                Phase::Stopped
            },
            final(self).spec_range() == old(self).spec_range(),
            final(self).spec_histogram() == old(self).spec_histogram(),
            final(self).wf() == old(self).wf(),
    {
        self.control.after_publish(outcome)
    }

    /// Reads an event's raw payload as the produced value it carries;
    /// an absent payload or one of the wrong length is malformed.
    pub fn extract_number(&self, payload: Option<&[u8]>) -> (r: Result<u64, PluginError>)
        ensures
            match payload {
                Some(p) => {
                    if p@.len() == 8 {
                        r == Ok::<u64, PluginError>(spec_u64_from_le_bytes(p@))
                    } else {
                        r == Err::<u64, PluginError>(PluginError::MalformedPayload)
                    }
                },
                None => r == Err::<u64, PluginError>(PluginError::MalformedPayload),
            },
    {
        codec::decode_value(payload)
    }

    /// Reports how often `num` has been produced so far: zero for a value
    /// never seen. Never fails.
    pub fn extract_count(&self, num: u64) -> (count: u64)
        ensures
            count == count_of(self.spec_histogram(), num),
    {
        self.histogram.lookup(num)
    }

    /// Takes note of one event seen again by the host: decodes its payload
    /// and records the carried value in the frequency table; a malformed
    /// payload is reported to the caller and leaves the table untouched.
    pub fn parse_event(&mut self, payload: Option<&[u8]>) -> (r: Result<(), PluginError>)
        ensures
            match payload {
                Some(p) => {
                    if p@.len() == 8 {
                        &&& r == Ok::<(), PluginError>(())
                        &&& final(self).spec_histogram() == bumped(
                            old(self).spec_histogram(),
                            spec_u64_from_le_bytes(p@),
                        )
                    } else {
                        r == Err::<(), PluginError>(PluginError::MalformedPayload) && *final(self)
                            == *old(self)
                    }
                },
                None => r == Err::<(), PluginError>(PluginError::MalformedPayload) && *final(self)
                    == *old(self),
            },
            final(self).spec_range() == old(self).spec_range(),
            final(self).spec_control() == old(self).spec_control(),
            final(self).wf() == old(self).wf(),
    {
        match codec::decode_value(payload) {
            Ok(num) => {
                self.histogram.record(num);
                Ok(())
            },
            Err(e) => Err(e),
        }
    }
}

} // verus!
