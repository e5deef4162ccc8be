use screen_session::{
    artifact_file_name, first_failure, ChannelType, RecordingChannel, RecordingConfig, RecordingCoordinator,
    RecordingError, RecordingResult, RecordingState, SegmentArtifact,
};
use std::cell::RefCell;
use std::rc::Rc;

#[derive(Default)]
struct Behaviour {
    fail_initialize: bool,
    fail_start: bool,
    fail_stop: bool,
    fail_resume: bool,
    unavailable: bool,
}

struct FakeChannel {
    id: String,
    recording: bool,
    segment: usize,
    output_dir: Option<String>,
    files: Vec<String>,
    behaviour: Behaviour,
    log: Rc<RefCell<Vec<String>>>,
}

impl FakeChannel {
    fn new(id: &str, log: &Rc<RefCell<Vec<String>>>) -> Self {
        Self::with(id, log, Behaviour::default())
    }

    fn with(id: &str, log: &Rc<RefCell<Vec<String>>>, behaviour: Behaviour) -> Self {
        FakeChannel {
            id: id.to_string(),
            recording: false,
            segment: 0,
            output_dir: None,
            files: Vec::new(),
            behaviour,
            log: log.clone(),
        }
    }

    fn note(&self, what: &str) {
        self.log.borrow_mut().push(format!("{}:{}", self.id, what));
    }
}

impl RecordingChannel for FakeChannel {
    fn id(&self) -> &str {
        &self.id
    }

    fn channel_type(&self) -> ChannelType {
        ChannelType::Input
    }

    fn initialize(&mut self, output_dir: &str, session_index: usize) -> RecordingResult<()> {
        self.note("initialize");
        if self.behaviour.fail_initialize {
            return Err(RecordingError::DeviceNotFound("no such device".to_string()));
        }
        self.output_dir = Some(output_dir.to_string());
        self.segment = session_index;
        Ok(())
    }

    fn start(&mut self) -> RecordingResult<()> {
        self.note("start");
        if self.recording {
            return Err(RecordingError::AlreadyRecording);
        }
        if self.behaviour.fail_start {
            return Err(RecordingError::CaptureError("start failed".to_string()));
        }
        if self.behaviour.unavailable {
            return Ok(());
        }
        self.recording = true;
        Ok(())
    }

    fn stop(&mut self) -> RecordingResult<()> {
        self.note("stop");
        if !self.recording {
            return Err(RecordingError::NotRecording);
        }
        self.recording = false;
        let name = format!("{}-{}.bin", self.id, self.segment);
        self.files.push(name);
        if self.behaviour.fail_stop {
            return Err(RecordingError::EncodingError("encoder exited badly".to_string()));
        }
        Ok(())
    }

    fn pause(&mut self) -> RecordingResult<()> {
        self.stop()
    }

    fn resume(&mut self, session_index: usize) -> RecordingResult<()> {
        self.segment = session_index;
        if self.behaviour.fail_resume {
            return Err(RecordingError::CaptureError("resume failed".to_string()));
        }
        self.start()
    }

    fn is_recording(&self) -> bool {
        self.recording
    }

    fn output_files(&self) -> Vec<String> {
        self.files.clone()
    }
}

fn config() -> RecordingConfig {
    RecordingConfig {
        display_id: 1,
        capture_microphone: false,
        microphone_device_id: None,
        output_dir: "/tmp/session".to_string(),
    }
}

fn log() -> Rc<RefCell<Vec<String>>> {
    Rc::new(RefCell::new(Vec::new()))
}

#[test]
fn new_coordinator_is_idle() {
    let c: RecordingCoordinator<FakeChannel> = RecordingCoordinator::new();
    assert_eq!(c.state(), RecordingState::Idle);
    assert_eq!(c.session_index(), 0);
    assert_eq!(c.channel_count(), 0);
    assert_eq!(c.duration_ms(500), 0);
}

#[test]
fn start_initializes_then_starts_in_registration_order() {
    let l = log();
    let mut c = RecordingCoordinator::new();
    c.add_channel(FakeChannel::new("display-1", &l)).unwrap();
    c.add_channel(FakeChannel::new("microphone", &l)).unwrap();
    assert!(c.start(&config(), 1000).is_ok());
    assert_eq!(c.state(), RecordingState::Recording);
    assert_eq!(
        *l.borrow(),
        vec![
            "display-1:initialize",
            "display-1:start",
            "microphone:initialize",
            "microphone:start"
        ]
    );
}

#[test]
fn start_twice_reports_already_recording() {
    let l = log();
    let mut c = RecordingCoordinator::new();
    c.add_channel(FakeChannel::new("display-1", &l)).unwrap();
    c.start(&config(), 0).unwrap();
    let calls_before = l.borrow().len();
    let second = c.start(&config(), 10);
    assert!(matches!(second, Err(RecordingError::AlreadyRecording)));
    assert_eq!(c.state(), RecordingState::Recording);
    assert_eq!(c.channel_count(), 1);
    assert_eq!(l.borrow().len(), calls_before);
    // The registered set cannot change while recording either.
    assert!(matches!(
        c.add_channel(FakeChannel::new("microphone", &l)),
        Err(RecordingError::AlreadyRecording)
    ));
    assert!(matches!(c.clear_channels(), Err(RecordingError::AlreadyRecording)));
    assert_eq!(c.channel_count(), 1);
}

#[test]
fn failed_initialize_stops_started_channels() {
    let l = log();
    let mut c = RecordingCoordinator::new();
    c.add_channel(FakeChannel::new("display-1", &l)).unwrap();
    c.add_channel(FakeChannel::new("system-audio", &l)).unwrap();
    let failing = Behaviour { fail_initialize: true, ..Behaviour::default() };
    c.add_channel(FakeChannel::with("microphone", &l, failing)).unwrap();
    c.add_channel(FakeChannel::new("input", &l)).unwrap();
    let r = c.start(&config(), 0);
    assert!(matches!(r, Err(RecordingError::DeviceNotFound(_))));
    assert_eq!(c.state(), RecordingState::Idle);
    let calls = l.borrow().clone();
    assert!(calls.contains(&"display-1:stop".to_string()));
    assert!(calls.contains(&"system-audio:stop".to_string()));
    assert!(!calls.contains(&"input:initialize".to_string()));
    assert!(!calls.contains(&"input:start".to_string()));
    // The coordinator is idle again and can be stopped no further.
    assert!(matches!(c.stop(5), Err(RecordingError::NotRecording)));
}

#[test]
fn failed_start_of_one_channel_unwinds_the_others() {
    let l = log();
    let mut c = RecordingCoordinator::new();
    c.add_channel(FakeChannel::new("display-1", &l)).unwrap();
    let failing = Behaviour { fail_start: true, ..Behaviour::default() };
    c.add_channel(FakeChannel::with("microphone", &l, failing)).unwrap();
    let r = c.start(&config(), 0);
    assert!(matches!(r, Err(RecordingError::CaptureError(_))));
    assert_eq!(c.state(), RecordingState::Idle);
    assert!(l.borrow().contains(&"display-1:stop".to_string()));
}

#[test]
fn unavailable_optional_channel_does_not_fail_the_session() {
    let l = log();
    let mut c = RecordingCoordinator::new();
    c.add_channel(FakeChannel::new("display-1", &l)).unwrap();
    let absent = Behaviour { unavailable: true, ..Behaviour::default() };
    c.add_channel(FakeChannel::with("system-audio", &l, absent)).unwrap();
    assert!(c.start(&config(), 0).is_ok());
    assert_eq!(c.state(), RecordingState::Recording);
}

#[test]
fn stop_aggregates_outputs_in_registration_order() {
    let l = log();
    let mut c = RecordingCoordinator::new();
    c.add_channel(FakeChannel::new("display-1", &l)).unwrap();
    c.add_channel(FakeChannel::new("input", &l)).unwrap();
    c.start(&config(), 1_000).unwrap();
    let out = c.stop(3_500).unwrap();
    assert_eq!(out.duration_ms, 2_500);
    assert_eq!(out.channels.len(), 2);
    assert_eq!(out.channels[0].channel_id, "display-1");
    assert_eq!(out.channels[0].files, vec!["display-1-0.bin".to_string()]);
    assert_eq!(out.channels[1].channel_id, "input");
    assert_eq!(out.channels[1].files, vec!["input-0.bin".to_string()]);
    assert!(out.channels[0].error.is_none());
    assert_eq!(c.state(), RecordingState::Idle);
    assert_eq!(c.duration_ms(9_999), 2_500);
}

#[test]
fn stop_drains_every_channel_despite_a_failure() {
    let l = log();
    let mut c = RecordingCoordinator::new();
    let failing = Behaviour { fail_stop: true, ..Behaviour::default() };
    c.add_channel(FakeChannel::with("display-1", &l, failing)).unwrap();
    c.add_channel(FakeChannel::new("microphone", &l)).unwrap();
    c.start(&config(), 0).unwrap();
    let out = c.stop(40).unwrap();
    assert!(matches!(out.channels[0].error, Some(RecordingError::EncodingError(_))));
    assert_eq!(out.channels[0].files, vec!["display-1-0.bin".to_string()]);
    assert!(out.channels[1].error.is_none());
    assert_eq!(out.channels[1].files, vec!["microphone-0.bin".to_string()]);
}

#[test]
fn second_stop_reports_not_recording() {
    let l = log();
    let mut c = RecordingCoordinator::new();
    c.add_channel(FakeChannel::new("display-1", &l)).unwrap();
    c.start(&config(), 0).unwrap();
    c.stop(100).unwrap();
    let calls_before = l.borrow().len();
    assert!(matches!(c.stop(200), Err(RecordingError::NotRecording)));
    assert_eq!(l.borrow().len(), calls_before);
    assert_eq!(c.state(), RecordingState::Idle);
    assert_eq!(c.duration_ms(300), 100);
}

#[test]
fn resume_moves_to_the_next_segment_once() {
    let l = log();
    let mut c = RecordingCoordinator::new();
    c.add_channel(FakeChannel::new("display-1", &l)).unwrap();
    c.add_channel(FakeChannel::new("microphone", &l)).unwrap();
    c.start(&config(), 0).unwrap();
    assert_eq!(c.session_index(), 0);
    c.pause().unwrap();
    assert_eq!(c.state(), RecordingState::Paused);
    c.resume().unwrap();
    assert_eq!(c.state(), RecordingState::Recording);
    assert_eq!(c.session_index(), 1);
    c.pause().unwrap();
    c.resume().unwrap();
    assert_eq!(c.session_index(), 2);
    let out = c.stop(10).unwrap();
    assert_eq!(
        out.channels[0].files,
        vec!["display-1-0.bin", "display-1-1.bin", "display-1-2.bin"]
    );
    let first = artifact_file_name(1, SegmentArtifact::Video);
    let second = artifact_file_name(2, SegmentArtifact::Video);
    assert_ne!(first, second);
}

#[test]
fn lifecycle_calls_out_of_order_are_refused() {
    let l = log();
    let mut c = RecordingCoordinator::new();
    c.add_channel(FakeChannel::new("display-1", &l)).unwrap();
    assert!(matches!(c.pause(), Err(RecordingError::NotRecording)));
    assert!(matches!(c.resume(), Err(RecordingError::NotRecording)));
    c.start(&config(), 0).unwrap();
    assert!(matches!(c.resume(), Err(RecordingError::AlreadyRecording)));
    c.pause().unwrap();
    assert!(matches!(c.pause(), Err(RecordingError::NotRecording)));
    assert!(matches!(c.stop(1), Err(RecordingError::NotRecording)));
    assert_eq!(c.state(), RecordingState::Paused);
}

#[test]
fn failed_resume_stops_resumed_channels_and_stays_paused() {
    let l = log();
    let mut c = RecordingCoordinator::new();
    c.add_channel(FakeChannel::new("display-1", &l)).unwrap();
    let failing = Behaviour { fail_resume: true, ..Behaviour::default() };
    c.add_channel(FakeChannel::with("microphone", &l, failing)).unwrap();
    c.start(&config(), 0).unwrap();
    c.pause().unwrap();
    let r = c.resume();
    assert!(matches!(r, Err(RecordingError::CaptureError(_))));
    assert_eq!(c.state(), RecordingState::Paused);
    assert_eq!(c.session_index(), 1);
    assert_eq!(l.borrow().last().unwrap(), "display-1:stop");
}

#[test]
fn duplicate_channel_identifiers_are_refused() {
    let l = log();
    let mut c = RecordingCoordinator::new();
    c.add_channel(FakeChannel::new("display-1", &l)).unwrap();
    let r = c.add_channel(FakeChannel::new("display-1", &l));
    assert!(matches!(r, Err(RecordingError::ConfigurationError(_))));
    assert_eq!(c.channel_count(), 1);
    c.clear_channels().unwrap();
    assert_eq!(c.channel_count(), 0);
}

#[test]
fn duration_runs_while_recording_and_paused() {
    let l = log();
    let mut c = RecordingCoordinator::new();
    c.add_channel(FakeChannel::new("display-1", &l)).unwrap();
    c.start(&config(), 2_000).unwrap();
    assert_eq!(c.duration_ms(2_750), 750);
    c.pause().unwrap();
    assert_eq!(c.duration_ms(3_000), 1_000);
    assert_eq!(c.duration_ms(1_000), 0);
}

#[test]
fn broadcast_results_fold_to_the_first_failure() {
    assert!(first_failure(vec![]).is_ok());
    assert!(first_failure(vec![Ok(()), Ok(())]).is_ok());
    let r = first_failure(vec![
        Ok(()),
        Err(RecordingError::DeviceNotFound("mic".to_string())),
        Err(RecordingError::NotRecording),
    ]);
    assert!(matches!(r, Err(RecordingError::DeviceNotFound(m)) if m == "mic"));
}

#[test]
fn pause_reports_the_first_channel_failure_and_pauses_the_rest() {
    let l = log();
    let mut c = RecordingCoordinator::new();
    let absent = Behaviour { unavailable: true, ..Behaviour::default() };
    c.add_channel(FakeChannel::with("system-audio", &l, absent)).unwrap();
    c.add_channel(FakeChannel::new("display-1", &l)).unwrap();
    c.start(&config(), 0).unwrap();
    let r = c.pause();
    assert!(matches!(r, Err(RecordingError::NotRecording)));
    assert_eq!(c.state(), RecordingState::Paused);
    assert_eq!(l.borrow().last().unwrap(), "display-1:stop");
}

#[test]
fn failed_start_leaves_later_channels_untouched() {
    let l = log();
    let mut c = RecordingCoordinator::new();
    let failing = Behaviour { fail_initialize: true, ..Behaviour::default() };
    c.add_channel(FakeChannel::with("display-1", &l, failing)).unwrap();
    c.add_channel(FakeChannel::new("microphone", &l)).unwrap();
    assert!(c.start(&config(), 0).is_err());
    assert_eq!(*l.borrow(), vec!["display-1:initialize"]);
}

#[test]
fn stop_reports_an_inactive_channel() {
    let l = log();
    let mut c = RecordingCoordinator::new();
    c.add_channel(FakeChannel::new("display-1", &l)).unwrap();
    let absent = Behaviour { unavailable: true, ..Behaviour::default() };
    c.add_channel(FakeChannel::with("system-audio", &l, absent)).unwrap();
    c.start(&config(), 0).unwrap();
    let out = c.stop(1).unwrap();
    assert!(out.channels[0].error.is_none());
    assert!(matches!(out.channels[1].error, Some(RecordingError::NotRecording)));
    assert_eq!(out.channels[1].channel_type, ChannelType::Input);
}
