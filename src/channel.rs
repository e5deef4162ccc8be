use crate::error::{RecordingError, RecordingResult};
use vstd::prelude::*;

verus! {

/// Kinds of capture channels.
#[derive(Debug, Clone, Copy, PartialEq, Eq, Structural)]
pub enum ChannelType {
    /// Screen or display capture.
    Display,
    /// System audio capture.
    SystemAudio,
    /// Microphone capture.
    Microphone,
    /// Webcam capture.
    Webcam,
    /// Input tracking (pointer, clicks, cursor images).
    Input,
}

/// The display name of a channel type.
pub open spec fn channel_type_name(t: ChannelType) -> Seq<char> {
    match t {
        ChannelType::Display => "display"@,
        ChannelType::SystemAudio => "system-audio"@,
        ChannelType::Microphone => "microphone"@,
        ChannelType::Webcam => "webcam"@,
        ChannelType::Input => "input"@,
    }
}

impl ChannelType {
    /// The channel type's display name.
    pub fn name(&self) -> (r: &'static str)
        ensures
            r@ == channel_type_name(*self),
    {
        match self {
            ChannelType::Display => "display",
            ChannelType::SystemAudio => "system-audio",
            ChannelType::Microphone => "microphone",
            ChannelType::Webcam => "webcam",
            ChannelType::Input => "input",
        }
    }
}

/// A capture source with its own lifecycle.
///
/// Implementations own their device handles, buffers and background
/// workers; the coordinator relies on nothing but the contracts below.
/// The identifier and kind never change; `initialize` reports whether the
/// channel is ready and where it will write; `start` and `resume` report
/// whether capture was accepted; `stop` and `pause` always leave the
/// channel inactive, and `stop` on an inactive channel fails with
/// `NotRecording`.
///
/// The spec functions model a channel's state. A verified implementation
/// defines them; the bodies given here only let code outside verification
/// implement the trait, and verified code that works with any channel
/// never relies on them.
pub trait RecordingChannel {
    /// Whether the channel is currently capturing.
    open spec fn recording(&self) -> bool {
        false
    }

    /// The channel's identifier.
    open spec fn channel_id(&self) -> Seq<char> {
        Seq::empty()
    }

    /// The kind of source the channel captures.
    open spec fn kind(&self) -> ChannelType {
        ChannelType::Display
    }

    /// Whether the last `initialize` succeeded.
    open spec fn prepared(&self) -> bool {
        false
    }

    /// The output directory recorded by the last successful `initialize`.
    open spec fn output_dir(&self) -> Seq<char> {
        Seq::empty()
    }

    /// The segment index the channel names its next output after.
    open spec fn segment(&self) -> usize {
        0
    }

    /// Whether the last `start` or `resume` was accepted, with no `stop`
    /// or `pause` since.
    open spec fn started(&self) -> bool {
        false
    }

    /// What the last `stop` returned.
    open spec fn stop_outcome(&self) -> RecordingResult<()> {
        Ok(())
    }

    /// The files the channel has produced, oldest first.
    open spec fn files(&self) -> Seq<String> {
        Seq::empty()
    }

    /// Stable identifier, unique within a session.
    fn id(&self) -> (r: &str)
        ensures
            r@ == self.channel_id(),
    ;

    /// The kind of source this channel captures.
    fn channel_type(&self) -> (r: ChannelType)
        ensures
            r == self.kind(),
    ;

    /// Checks preconditions (device, encoder, permission) and records the
    /// output location and segment index of a new session.
    fn initialize(&mut self, output_dir: &str, session_index: usize) -> (r: RecordingResult<()>)
        ensures
            final(self).channel_id() == old(self).channel_id(),
            final(self).recording() == old(self).recording(),
            final(self).started() == old(self).started(),
            final(self).prepared() == (r is Ok),
            r is Ok ==> final(self).segment() == session_index,
            r is Ok ==> final(self).output_dir() == output_dir@,
    ;

    /// Begins capturing; fails with `AlreadyRecording` when active.
    fn start(&mut self) -> (r: RecordingResult<()>)
        ensures
            final(self).channel_id() == old(self).channel_id(),
            final(self).segment() == old(self).segment(),
            final(self).prepared() == old(self).prepared(),
            final(self).output_dir() == old(self).output_dir(),
            final(self).started() == (r is Ok),
            old(self).recording() ==> r matches Err(RecordingError::AlreadyRecording),
    ;

    /// Halts capturing, waits for the background worker, finalizes the
    /// encoder and appends the produced files.
    fn stop(&mut self) -> (r: RecordingResult<()>)
        ensures
            final(self).channel_id() == old(self).channel_id(),
            final(self).segment() == old(self).segment(),
            final(self).prepared() == old(self).prepared(),
            final(self).output_dir() == old(self).output_dir(),
            !final(self).recording(),
            !final(self).started(),
            final(self).stop_outcome() == r,
            !old(self).recording() ==> r matches Err(RecordingError::NotRecording),
    ;

    /// Ends the current capture segment.
    fn pause(&mut self) -> (r: RecordingResult<()>)
        ensures
            final(self).channel_id() == old(self).channel_id(),
            final(self).segment() == old(self).segment(),
            final(self).prepared() == old(self).prepared(),
            final(self).output_dir() == old(self).output_dir(),
            !final(self).recording(),
            !final(self).started(),
    ;

    /// Sets the segment index and starts a new capture segment.
    fn resume(&mut self, session_index: usize) -> (r: RecordingResult<()>)
        ensures
            final(self).channel_id() == old(self).channel_id(),
            final(self).segment() == session_index,
            final(self).prepared() == old(self).prepared(),
            final(self).output_dir() == old(self).output_dir(),
            final(self).started() == (r is Ok),
    ;

    /// Snapshot of the channel's activity.
    fn is_recording(&self) -> (r: bool)
        ensures
            r == self.recording(),
    ;

    /// All files produced so far, oldest first.
    fn output_files(&self) -> (r: Vec<String>)
        ensures
            r@ == self.files(),
    ;
}

} // verus!
