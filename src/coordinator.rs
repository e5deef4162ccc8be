use crate::channel::{ChannelType, RecordingChannel};
use crate::error::{RecordingError, RecordingResult};
use vstd::prelude::*;
use vstd::string::StringExecFns;

verus! {

/// Session-level lifecycle state.
#[derive(Debug, Clone, Copy, PartialEq, Eq, Structural)]
pub enum RecordingState {
    Idle,
    Recording,
    Paused,
}

/// What the caller asks of a session.
#[derive(Debug, Clone)]
pub struct RecordingConfig {
    /// Display to capture.
    pub display_id: u32,
    /// Whether a microphone channel is wanted.
    pub capture_microphone: bool,
    /// Microphone to use; the default input device when absent.
    pub microphone_device_id: Option<String>,
    /// Directory every channel writes its files into.
    pub output_dir: String,
}

/// What one channel left behind when the session stopped.
#[derive(Debug, Clone)]
pub struct ChannelOutput {
    pub channel_id: String,
    pub channel_type: ChannelType,
    /// Every file the channel produced, oldest first.
    pub files: Vec<String>,
    /// The channel's own stop failure, if it had one.
    pub error: Option<RecordingError>,
}

/// Aggregated result of a stopped session.
#[derive(Debug, Clone)]
pub struct RecordingOutput {
    /// One entry per channel, in registration order.
    pub channels: Vec<ChannelOutput>,
    /// Milliseconds from the session's start to its stop.
    pub duration_ms: u64,
}

/// The identifiers of a sequence of channels.
pub open spec fn ids_of<C: RecordingChannel>(s: Seq<C>) -> Seq<Seq<char>> {
    s.map_values(|c: C| c.channel_id())
}

/// Milliseconds from `from` to `to`, zero when the clock went backwards.
pub open spec fn elapsed_ms(from: u64, to: u64) -> u64 {
    if to >= from {
        (to - from) as u64
    } else {
        0
    }
}

/// `out` reports, in order, the identifier, kind, files and stop failure
/// of each channel of `chs`.
pub open spec fn reports_channels<C: RecordingChannel>(out: RecordingOutput, chs: Seq<C>) -> bool {
    &&& out.channels@.len() == chs.len()
    &&& forall|j: int|
        0 <= j < chs.len() ==> {
            &&& (#[trigger] out.channels@[j]).channel_id@ == chs[j].channel_id()
            &&& out.channels@[j].files@ == chs[j].files()
            &&& out.channels@[j].channel_type == chs[j].kind()
            &&& out.channels@[j].error == failure_of(chs[j].stop_outcome())
        }
}

fn same_text(a: &str, b: &str) -> (r: bool)
    ensures
        r == (a@ == b@),
{
    let x = a.to_owned();
    let y = b.to_owned();
    x == y
}

/// The first failure among results taken in order, or success when none
/// failed.
pub open spec fn first_failure_of(results: Seq<RecordingResult<()>>) -> RecordingResult<()>
    decreases results.len(),
{
    if results.len() == 0 {
        Ok(())
    } else if results[0] is Err {
        results[0]
    } else {
        first_failure_of(results.drop_first())
    }
}

/// Folds the results of a broadcast lifecycle call into one: the first
/// channel failure, in registration order, or success.
pub fn first_failure(results: Vec<RecordingResult<()>>) -> (r: RecordingResult<()>)
    ensures
        r == first_failure_of(results@),
{
    let mut rest = results;
    while rest.len() > 0
        invariant
            first_failure_of(rest@) == first_failure_of(results@),
        decreases rest@.len(),
    {
        let ghost before = rest@;
        let head = rest.remove(0);
        assert(rest@ =~= before.drop_first());
        if head.is_err() {
            return head;
        }
    }
    Ok(())
}

/// What a stopped channel's entry says about its stop failure.
pub open spec fn failure_of(r: RecordingResult<()>) -> Option<RecordingError> {
    match r {
        Ok(_) => None,
        Err(e) => Some(e),
    }
}

/// A channel that accepted `initialize(dir, index)`.
pub open spec fn ready_for<C: RecordingChannel>(c: C, dir: Seq<char>, index: usize) -> bool {
    &&& c.prepared()
    &&& c.output_dir() == dir
    &&& c.segment() == index
}

/// `chs` is `old` after a start that stopped at channel `k`: the channels
/// before it were prepared for `dir`, segment 0, and are no longer
/// capturing; channel `k` failed to initialize or to start; the channels
/// after it were not touched.
pub open spec fn start_failed_at<C: RecordingChannel>(
    old: Seq<C>,
    chs: Seq<C>,
    dir: Seq<char>,
    k: int,
) -> bool {
    &&& 0 <= k < chs.len()
    &&& forall|j: int|
        0 <= j < k ==> ready_for(#[trigger] chs[j], dir, 0) && !chs[j].recording()
    &&& !(chs[k].prepared() && chs[k].started())
    &&& forall|j: int| k < j < chs.len() ==> #[trigger] chs[j] == old[j]
}

/// `chs` is `old` after a resume into segment `index` that stopped at
/// channel `k`: the channels before it moved to the segment and are no
/// longer capturing; channel `k` failed to resume; the channels after it
/// were not touched.
pub open spec fn resume_failed_at<C: RecordingChannel>(
    old: Seq<C>,
    chs: Seq<C>,
    index: usize,
    k: int,
) -> bool {
    &&& 0 <= k < chs.len()
    &&& forall|j: int|
        0 <= j < k ==> (#[trigger] chs[j]).segment() == index && !chs[j].recording()
    &&& chs[k].segment() == index
    &&& !chs[k].started()
    &&& forall|j: int| k < j < chs.len() ==> #[trigger] chs[j] == old[j]
}

fn channel_entry(
    channel_id: String,
    channel_type: ChannelType,
    files: Vec<String>,
    outcome: RecordingResult<()>,
) -> (r: ChannelOutput)
    ensures
        r.channel_id == channel_id,
        r.channel_type == channel_type,
        r.files == files,
        r.error == failure_of(outcome),
{
    let error = match outcome {
        Ok(()) => None,
        Err(e) => Some(e),
    };
    ChannelOutput { channel_id, channel_type, files, error }
}

/// Drives a set of channels through one shared session lifecycle.
pub struct RecordingCoordinator<C> {
    channels: Vec<C>,
    state: RecordingState,
    session_index: usize,
    started_at_ms: u64,
    stopped_duration_ms: u64,
}

impl<C: RecordingChannel> RecordingCoordinator<C> {
    /// The registered channels, in registration order.
    pub closed spec fn spec_channels(&self) -> Seq<C> {
        self.channels@
    }

    pub closed spec fn spec_state(&self) -> RecordingState {
        self.state
    }

    /// The index of the segment being, or last, recorded.
    pub closed spec fn spec_session_index(&self) -> usize {
        self.session_index
    }

    /// Clock reading at which the current session started.
    pub closed spec fn spec_started_at(&self) -> u64 {
        self.started_at_ms
    }

    /// Duration of the last stopped session.
    pub closed spec fn spec_stopped_duration(&self) -> u64 {
        self.stopped_duration_ms
    }

    /// Channel identifiers are unique.
    pub open spec fn wf(&self) -> bool {
        ids_of(self.spec_channels()).no_duplicates()
    }

    /// An idle coordinator with no channels.
    pub fn new() -> (r: Self)
        ensures
            r.wf(),
            r.spec_channels() == Seq::<C>::empty(),
            r.spec_state() == RecordingState::Idle,
            r.spec_session_index() == 0,
            r.spec_stopped_duration() == 0,
    {
        let r = RecordingCoordinator {
            channels: Vec::new(),
            state: RecordingState::Idle,
            session_index: 0,
            started_at_ms: 0,
            stopped_duration_ms: 0,
        };
        assert(ids_of(r.channels@) =~= Seq::<Seq<char>>::empty());
        r
    }

    /// Stops the capturing channels among the first `k`, the channels that
    /// a failed lifecycle call had already brought up.
    fn halt_prefix(&mut self, k: usize)
        requires
            k <= old(self).channels@.len(),
        ensures
            final(self).channels@.len() == old(self).channels@.len(),
            forall|j: int|
                0 <= j < old(self).channels@.len() ==> {
                    &&& (#[trigger] final(self).channels@[j]).channel_id()
                        == old(self).channels@[j].channel_id()
                    &&& final(self).channels@[j].segment() == old(self).channels@[j].segment()
                    &&& final(self).channels@[j].prepared() == old(self).channels@[j].prepared()
                    &&& final(self).channels@[j].output_dir()
                        == old(self).channels@[j].output_dir()
                },
            forall|j: int| 0 <= j < k ==> !(#[trigger] final(self).channels@[j]).recording(),
            forall|j: int|
                k <= j < old(self).channels@.len() ==> #[trigger] final(self).channels@[j]
                    == old(self).channels@[j],
            final(self).state == old(self).state,
            final(self).session_index == old(self).session_index,
            final(self).started_at_ms == old(self).started_at_ms,
            final(self).stopped_duration_ms == old(self).stopped_duration_ms,
    {
        let n = self.channels.len();
        let mut i: usize = 0;
        while i < k
            invariant
                self.channels@.len() == n,
                n == old(self).channels@.len(),
                k <= n,
                i <= k,
                forall|j: int|
                    0 <= j < n ==> {
                        &&& (#[trigger] self.channels@[j]).channel_id()
                            == old(self).channels@[j].channel_id()
                        &&& self.channels@[j].segment() == old(self).channels@[j].segment()
                        &&& self.channels@[j].prepared() == old(self).channels@[j].prepared()
                        &&& self.channels@[j].output_dir() == old(self).channels@[j].output_dir()
                    },
                forall|j: int| 0 <= j < i ==> !(#[trigger] self.channels@[j]).recording(),
                forall|j: int| i <= j < n ==> #[trigger] self.channels@[j] == old(self).channels@[j],
                self.state == old(self).state,
                self.session_index == old(self).session_index,
                self.started_at_ms == old(self).started_at_ms,
                self.stopped_duration_ms == old(self).stopped_duration_ms,
            decreases k - i,
        {
            if self.channels[i].is_recording() {
                let _ = self.channels[i].stop();
            }
            i += 1;
        }
    }

    /// Initializes and starts every channel, in registration order, for a
    /// new session whose clock reads `now_ms`; every channel is initialized
    /// with the configured output directory and segment 0.
    ///
    /// A session that is already running is left untouched and the call
    /// fails with `AlreadyRecording`. The session starts only when every
    /// channel initializes and starts. At the first channel that fails,
    /// the channels before it that are capturing are stopped, the channels
    /// after it are left alone, and that channel's error is returned, so a
    /// failed start leaks no background worker.
    pub fn start(&mut self, config: &RecordingConfig, now_ms: u64) -> (r: RecordingResult<()>)
        requires
            old(self).wf(),
        ensures
            final(self).wf(),
            ids_of(final(self).spec_channels()) == ids_of(old(self).spec_channels()),
            old(self).spec_state() != RecordingState::Idle ==> {
                &&& r matches Err(RecordingError::AlreadyRecording)
                &&& *final(self) == *old(self)
            },
            old(self).spec_state() == RecordingState::Idle ==> {
                &&& final(self).spec_session_index() == 0
                &&& old(self).spec_channels().len() == 0 ==> r is Ok
                &&& r is Ok ==> {
                    &&& final(self).spec_state() == RecordingState::Recording
                    &&& final(self).spec_started_at() == now_ms
                    &&& forall|j: int|
                        0 <= j < final(self).spec_channels().len() ==> {
                            &&& ready_for(
                                #[trigger] final(self).spec_channels()[j],
                                config.output_dir@,
                                0,
                            )
                            &&& final(self).spec_channels()[j].started()
                        }
                }
                &&& r is Err ==> {
                    &&& final(self).spec_state() == RecordingState::Idle
                    &&& final(self).spec_stopped_duration() == old(self).spec_stopped_duration()
                    &&& exists|k: int|
                        start_failed_at(
                            old(self).spec_channels(),
                            final(self).spec_channels(),
                            config.output_dir@,
                            k,
                        )
                }
            },
    {
        if self.state != RecordingState::Idle {
            return Err(RecordingError::AlreadyRecording);
        }
        self.session_index = 0;
        let ghost dir = config.output_dir@;
        let n = self.channels.len();
        let mut i: usize = 0;
        while i < n
            invariant
                self.channels@.len() == n,
                n == old(self).channels@.len(),
                i <= n,
                dir == config.output_dir@,
                forall|j: int|
                    0 <= j < n ==> (#[trigger] self.channels@[j]).channel_id()
                        == old(self).channels@[j].channel_id(),
                forall|j: int|
                    0 <= j < i ==> ready_for(#[trigger] self.channels@[j], dir, 0)
                        && self.channels@[j].started(),
                forall|j: int| i <= j < n ==> #[trigger] self.channels@[j] == old(self).channels@[j],
                old(self).wf(),
                old(self).state == RecordingState::Idle,
                self.state == RecordingState::Idle,
                self.session_index == 0,
                self.stopped_duration_ms == old(self).stopped_duration_ms,
            decreases n - i,
        {
            let outcome = match self.channels[i].initialize(config.output_dir.as_str(), 0) {
                Ok(()) => self.channels[i].start(),
                Err(e) => Err(e),
            };
            if let Err(e) = outcome {
                let ghost at_failure = self.channels@;
                self.halt_prefix(i);
                proof {
                    assert(ids_of(self.channels@) =~= ids_of(old(self).channels@));
                    assert(self.channels@[i as int] == at_failure[i as int]);
                    assert(start_failed_at(old(self).channels@, self.channels@, dir, i as int));
                }
                return Err(e);
            }
            i += 1;
        }
        self.state = RecordingState::Recording;
        self.started_at_ms = now_ms;
        proof {
            assert(ids_of(self.channels@) =~= ids_of(old(self).channels@));
        }
        Ok(())
    }

    /// Stops every channel in registration order and aggregates what they
    /// produced; the clock reads `now_ms`.
    ///
    /// Only a recording session can be stopped: otherwise the call fails
    /// with `NotRecording` and changes nothing. A channel whose stop fails
    /// does not keep the others from stopping; its failure is reported in
    /// its entry, beside the files it did produce.
    pub fn stop(&mut self, now_ms: u64) -> (r: RecordingResult<RecordingOutput>)
        requires
            old(self).wf(),
        ensures
            final(self).wf(),
            ids_of(final(self).spec_channels()) == ids_of(old(self).spec_channels()),
            final(self).spec_session_index() == old(self).spec_session_index(),
            old(self).spec_state() != RecordingState::Recording ==> {
                &&& r matches Err(RecordingError::NotRecording)
                &&& *final(self) == *old(self)
            },
            old(self).spec_state() == RecordingState::Recording ==> {
                &&& r is Ok
                &&& reports_channels(r->Ok_0, final(self).spec_channels())
                &&& r->Ok_0.duration_ms == elapsed_ms(old(self).spec_started_at(), now_ms)
                &&& final(self).spec_state() == RecordingState::Idle
                &&& final(self).spec_stopped_duration() == r->Ok_0.duration_ms
                &&& forall|j: int|
                    0 <= j < final(self).spec_channels().len()
                        ==> !(#[trigger] final(self).spec_channels()[j]).recording()
            },
    {
        if self.state != RecordingState::Recording {
            return Err(RecordingError::NotRecording);
        }
        let n = self.channels.len();
        let mut outputs: Vec<ChannelOutput> = Vec::new();
        let mut i: usize = 0;
        while i < n
            invariant
                self.channels@.len() == n,
                n == old(self).channels@.len(),
                i <= n,
                outputs@.len() == i,
                forall|j: int|
                    0 <= j < n ==> (#[trigger] self.channels@[j]).channel_id()
                        == old(self).channels@[j].channel_id(),
                forall|j: int|
                    0 <= j < i ==> {
                        &&& (#[trigger] outputs@[j]).channel_id@ == self.channels@[j].channel_id()
                        &&& outputs@[j].files@ == self.channels@[j].files()
                        &&& outputs@[j].channel_type == self.channels@[j].kind()
                        &&& outputs@[j].error == failure_of(self.channels@[j].stop_outcome())
                    },
                forall|j: int| 0 <= j < i ==> !(#[trigger] self.channels@[j]).recording(),
                self.state == RecordingState::Recording,
                self.session_index == old(self).session_index,
                self.started_at_ms == old(self).started_at_ms,
            decreases n - i,
        {
            let outcome = self.channels[i].stop();
            let entry = channel_entry(
                String::from_str(self.channels[i].id()),
                self.channels[i].channel_type(),
                self.channels[i].output_files(),
                outcome,
            );
            outputs.push(entry);
            i += 1;
        }
        let duration_ms = if now_ms >= self.started_at_ms {
            now_ms - self.started_at_ms
        } else {
            0
        };
        self.state = RecordingState::Idle;
        self.stopped_duration_ms = duration_ms;
        proof {
            assert(ids_of(self.channels@) =~= ids_of(old(self).channels@));
        }
        Ok(RecordingOutput { channels: outputs, duration_ms })
    }

    /// Ends the current segment on every channel.
    ///
    /// Only a recording session can be paused: otherwise the call fails
    /// with `NotRecording` and changes nothing. Every channel is paused even
    /// when one of them fails; the first failure is returned.
    pub fn pause(&mut self) -> (r: RecordingResult<()>)
        requires
            old(self).wf(),
        ensures
            final(self).wf(),
            ids_of(final(self).spec_channels()) == ids_of(old(self).spec_channels()),
            final(self).spec_session_index() == old(self).spec_session_index(),
            final(self).spec_started_at() == old(self).spec_started_at(),
            old(self).spec_state() != RecordingState::Recording ==> {
                &&& r matches Err(RecordingError::NotRecording)
                &&& *final(self) == *old(self)
            },
            old(self).spec_state() == RecordingState::Recording ==> {
                &&& old(self).spec_channels().len() == 0 ==> r is Ok
                &&& final(self).spec_state() == RecordingState::Paused
                &&& forall|j: int|
                    0 <= j < final(self).spec_channels().len()
                        ==> !(#[trigger] final(self).spec_channels()[j]).recording()
            },
    {
        if self.state != RecordingState::Recording {
            return Err(RecordingError::NotRecording);
        }
        let n = self.channels.len();
        let mut results: Vec<RecordingResult<()>> = Vec::new();
        let mut i: usize = 0;
        while i < n
            invariant
                self.channels@.len() == n,
                n == old(self).channels@.len(),
                i <= n,
                forall|j: int|
                    0 <= j < n ==> (#[trigger] self.channels@[j]).channel_id()
                        == old(self).channels@[j].channel_id(),
                forall|j: int| 0 <= j < i ==> !(#[trigger] self.channels@[j]).recording(),
                results@.len() == i,
                self.state == RecordingState::Recording,
                self.session_index == old(self).session_index,
                self.started_at_ms == old(self).started_at_ms,
            decreases n - i,
        {
            let outcome = self.channels[i].pause();
            results.push(outcome);
            i += 1;
        }
        self.state = RecordingState::Paused;
        proof {
            assert(ids_of(self.channels@) =~= ids_of(old(self).channels@));
        }
        assert(n == 0 ==> first_failure_of(results@) is Ok);
        first_failure(results)
    }


    /// Starts the next segment: the session index goes up by one, then
    /// every channel resumes, in registration order, with the new index.
    ///
    /// Only a paused session can be resumed: otherwise the call fails with
    /// `NotRecording` (idle) or `AlreadyRecording` (recording) and changes
    /// nothing. The session records again only when every channel resumes.
    /// At the first channel that fails, the channels before it that are
    /// capturing are stopped, the channels after it are left alone, the
    /// session stays paused and that channel's error is returned; the
    /// index has still moved on, so a later segment never reuses the names
    /// of a failed one.
    pub fn resume(&mut self) -> (r: RecordingResult<()>)
        requires
            old(self).wf(),
            old(self).spec_state() == RecordingState::Paused ==> old(self).spec_session_index()
                < usize::MAX,
        ensures
            final(self).wf(),
            ids_of(final(self).spec_channels()) == ids_of(old(self).spec_channels()),
            final(self).spec_started_at() == old(self).spec_started_at(),
            old(self).spec_state() == RecordingState::Idle ==> {
                &&& r matches Err(RecordingError::NotRecording)
                &&& *final(self) == *old(self)
            },
            old(self).spec_state() == RecordingState::Recording ==> {
                &&& r matches Err(RecordingError::AlreadyRecording)
                &&& *final(self) == *old(self)
            },
            old(self).spec_state() == RecordingState::Paused ==> {
                &&& final(self).spec_session_index() == old(self).spec_session_index() + 1
                &&& old(self).spec_channels().len() == 0 ==> r is Ok
                &&& r is Ok ==> {
                    &&& final(self).spec_state() == RecordingState::Recording
                    &&& forall|j: int|
                        0 <= j < final(self).spec_channels().len() ==> {
                            &&& (#[trigger] final(self).spec_channels()[j]).segment()
                                == final(self).spec_session_index()
                            &&& final(self).spec_channels()[j].started()
                        }
                }
                &&& r is Err ==> {
                    &&& final(self).spec_state() == RecordingState::Paused
                    &&& exists|k: int|
                        resume_failed_at(
                            old(self).spec_channels(),
                            final(self).spec_channels(),
                            final(self).spec_session_index(),
                            k,
                        )
                }
            },
    {
        if self.state == RecordingState::Idle {
            return Err(RecordingError::NotRecording);
        }
        if self.state == RecordingState::Recording {
            return Err(RecordingError::AlreadyRecording);
        }
        self.session_index = self.session_index + 1;
        let index = self.session_index;
        let n = self.channels.len();
        let mut i: usize = 0;
        while i < n
            invariant
                self.channels@.len() == n,
                n == old(self).channels@.len(),
                i <= n,
                forall|j: int|
                    0 <= j < n ==> (#[trigger] self.channels@[j]).channel_id()
                        == old(self).channels@[j].channel_id(),
                forall|j: int|
                    0 <= j < i ==> (#[trigger] self.channels@[j]).segment() == index
                        && self.channels@[j].started(),
                forall|j: int| i <= j < n ==> #[trigger] self.channels@[j] == old(self).channels@[j],
                self.state == RecordingState::Paused,
                index == self.session_index,
                self.session_index == old(self).session_index + 1,
                self.started_at_ms == old(self).started_at_ms,
                old(self).wf(),
                old(self).state == RecordingState::Paused,
            decreases n - i,
        {
            if let Err(e) = self.channels[i].resume(index) {
                let ghost at_failure = self.channels@;
                self.halt_prefix(i);
                proof {
                    assert(ids_of(self.channels@) =~= ids_of(old(self).channels@));
                    assert(self.channels@[i as int] == at_failure[i as int]);
                    assert(resume_failed_at(old(self).channels@, self.channels@, index, i as int));
                    assert(self.spec_session_index() == index);
                    assert(self.spec_channels() == self.channels@);
                    assert(old(self).spec_channels() == old(self).channels@);
                    assert(resume_failed_at(
                        old(self).spec_channels(),
                        self.spec_channels(),
                        self.spec_session_index(),
                        i as int,
                    ));
                }
                return Err(e);
            }
            i += 1;
        }
        self.state = RecordingState::Recording;
        proof {
            assert(ids_of(self.channels@) =~= ids_of(old(self).channels@));
        }
        Ok(())
    }

    /// Registers a channel for the upcoming session, after those already
    /// registered.
    ///
    /// Channels can only be registered while idle (`AlreadyRecording`
    /// otherwise), and an identifier already registered is refused with a
    /// `ConfigurationError`; a refused channel is dropped and nothing changes.
    pub fn add_channel(&mut self, channel: C) -> (r: RecordingResult<()>)
        requires
            old(self).wf(),
        ensures
            final(self).wf(),
            old(self).spec_state() != RecordingState::Idle ==> {
                &&& r matches Err(RecordingError::AlreadyRecording)
                &&& *final(self) == *old(self)
            },
            old(self).spec_state() == RecordingState::Idle && ids_of(
                old(self).spec_channels(),
            ).contains(channel.channel_id()) ==> {
                &&& r matches Err(RecordingError::ConfigurationError(_))
                &&& *final(self) == *old(self)
            },
            old(self).spec_state() == RecordingState::Idle && !ids_of(
                old(self).spec_channels(),
            ).contains(channel.channel_id()) ==> {
                &&& r is Ok
                &&& final(self).spec_channels() == old(self).spec_channels().push(channel)
                &&& final(self).spec_state() == old(self).spec_state()
                &&& final(self).spec_session_index() == old(self).spec_session_index()
                &&& final(self).spec_started_at() == old(self).spec_started_at()
                &&& final(self).spec_stopped_duration() == old(self).spec_stopped_duration()
            },
    {
        if self.state != RecordingState::Idle {
            return Err(RecordingError::AlreadyRecording);
        }
        let n = self.channels.len();
        let mut i: usize = 0;
        while i < n
            invariant
                n == self.channels@.len(),
                i <= n,
                *self == *old(self),
                old(self).wf(),
                old(self).state == RecordingState::Idle,
                forall|j: int|
                    0 <= j < i ==> (#[trigger] self.channels@[j]).channel_id()
                        != channel.channel_id(),
            decreases n - i,
        {
            if same_text(self.channels[i].id(), channel.id()) {
                proof {
                    assert(ids_of(self.channels@)[i as int] == channel.channel_id());
                }
                return Err(
                    RecordingError::ConfigurationError(
                        String::from_str("a channel with this identifier is already registered"),
                    ),
                );
            }
            i += 1;
        }
        proof {
            assert(!ids_of(self.channels@).contains(channel.channel_id())) by {
                if ids_of(self.channels@).contains(channel.channel_id()) {
                    let k = choose|k: int|
                        0 <= k < ids_of(self.channels@).len() && ids_of(self.channels@)[k]
                            == channel.channel_id();
                    assert(self.channels@[k].channel_id() == channel.channel_id());
                }
            }
        }
        let ghost before = self.channels@;
        self.channels.push(channel);
        proof {
            assert(ids_of(self.channels@) =~= ids_of(before).push(channel.channel_id()));
        }
        Ok(())
    }

    /// Removes every registered channel; only possible while idle.
    pub fn clear_channels(&mut self) -> (r: RecordingResult<()>)
        requires
            old(self).wf(),
        ensures
            final(self).wf(),
            old(self).spec_state() != RecordingState::Idle ==> {
                &&& r matches Err(RecordingError::AlreadyRecording)
                &&& *final(self) == *old(self)
            },
            old(self).spec_state() == RecordingState::Idle ==> {
                &&& r is Ok
                &&& final(self).spec_channels() == Seq::<C>::empty()
                &&& final(self).spec_state() == RecordingState::Idle
                &&& final(self).spec_session_index() == old(self).spec_session_index()
                &&& final(self).spec_stopped_duration() == old(self).spec_stopped_duration()
            },
    {
        if self.state != RecordingState::Idle {
            return Err(RecordingError::AlreadyRecording);
        }
        self.channels = Vec::new();
        proof {
            assert(ids_of(self.channels@) =~= Seq::<Seq<char>>::empty());
        }
        Ok(())
    }

    /// The session's lifecycle state.
    pub fn state(&self) -> (r: RecordingState)
        ensures
            r == self.spec_state(),
    {
        self.state
    }

    /// The index of the segment being, or last, recorded.
    pub fn session_index(&self) -> (r: usize)
        ensures
            r == self.spec_session_index(),
    {
        self.session_index
    }

    /// How many channels are registered.
    pub fn channel_count(&self) -> (r: usize)
        ensures
            r == self.spec_channels().len(),
    {
        self.channels.len()
    }

    /// Milliseconds elapsed since the session started, when the clock
    /// reads `now_ms`; once stopped, the duration the session ended with.
    pub fn duration_ms(&self, now_ms: u64) -> (r: u64)
        ensures
            self.spec_state() == RecordingState::Idle ==> r == self.spec_stopped_duration(),
            self.spec_state() != RecordingState::Idle ==> r == elapsed_ms(
                self.spec_started_at(),
                now_ms,
            ),
    {
        if self.state == RecordingState::Idle {
            self.stopped_duration_ms
        } else if now_ms >= self.started_at_ms {
            now_ms - self.started_at_ms
        } else {
            0
        }
    }
}

} // verus!
