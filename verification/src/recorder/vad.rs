//! The session manager: the one live capture session, started, stopped and
//! asked for its state.
//!
//! A session owns the handle of its hardware stream, of whatever type the
//! caller's audio host gives, and the gated recorder of the recording. The
//! manager holds at most one session, so at most one stream.

use vstd::prelude::*;
use vstd::string::StringExecFns;
use crate::recorder::devices::{DeviceFault, StreamSettings};
use crate::recorder::gating::{timeout_ticks, RecorderAction, RecorderActionView, RecorderView, GatedRecorder};

verus! {

/// What went wrong in the recorder.
#[derive(Debug)]
pub enum VadError {
    /// No device, no such device, or no configuration; with the reason.
    DeviceError(String),
    /// The hardware stream could not be built or started; with the reason.
    StreamError(String),
    /// There is no session to stop.
    NotInitialized,
    /// A session is running already.
    AlreadyRunning,
    /// A directory or file could not be made or read; with the reason.
    IoError(String),
    /// The audio file writer failed; with the reason.
    WavError(String),
}

/// The mathematical value of a [`VadError`].
pub enum VadErrorView {
    DeviceError(Seq<char>),
    StreamError(Seq<char>),
    NotInitialized,
    AlreadyRunning,
    IoError(Seq<char>),
    WavError(Seq<char>),
}

impl View for VadError {
    type V = VadErrorView;

    open spec fn view(&self) -> VadErrorView {
        match self {
            VadError::DeviceError(reason) => VadErrorView::DeviceError(reason@),
            VadError::StreamError(reason) => VadErrorView::StreamError(reason@),
            VadError::NotInitialized => VadErrorView::NotInitialized,
            VadError::AlreadyRunning => VadErrorView::AlreadyRunning,
            VadError::IoError(reason) => VadErrorView::IoError(reason@),
            VadError::WavError(reason) => VadErrorView::WavError(reason@),
        }
    }
}

impl VadErrorView {
    /// The text that tells the error to a reader.
    pub open spec fn message(self) -> Seq<char> {
        match self {
            VadErrorView::DeviceError(reason) => "Audio device error: "@ + reason,
            VadErrorView::StreamError(reason) => "Stream error: "@ + reason,
            VadErrorView::NotInitialized => "VAD not initialized"@,
            VadErrorView::AlreadyRunning => "VAD already running"@,
            VadErrorView::IoError(reason) => "File I/O error: "@ + reason,
            VadErrorView::WavError(reason) => "WAV writer error: "@ + reason,
        }
    }
}

impl VadError {
    /// The text that tells the error to a reader.
    pub fn message(&self) -> (text: String)
        ensures
            text@ == self@.message(),
    {
        match self {
            VadError::DeviceError(reason) => String::from_str("Audio device error: ").concat(
                reason.as_str(),
            ),
            VadError::StreamError(reason) => String::from_str("Stream error: ").concat(
                reason.as_str(),
            ),
            VadError::NotInitialized => String::from_str("VAD not initialized"),
            VadError::AlreadyRunning => String::from_str("VAD already running"),
            VadError::IoError(reason) => String::from_str("File I/O error: ").concat(
                reason.as_str(),
            ),
            VadError::WavError(reason) => String::from_str("WAV writer error: ").concat(
                reason.as_str(),
            ),
        }
    }
}

/// The reason that a [`DeviceFault`] gives for an identifier.
pub open spec fn device_fault_reason(fault: DeviceFault, identifier: Seq<char>) -> Seq<char> {
    match fault {
        DeviceFault::NoDefaultDevice => "No default input device found"@,
        DeviceFault::DeviceNotFound => "Device '"@ + identifier + "' not found"@,
        DeviceFault::UnsupportedConfig => "No supported audio config found"@,
    }
}

/// The device error that reports `fault`, met while looking for `identifier`.
pub fn device_error(fault: DeviceFault, identifier: &str) -> (error: VadError)
    ensures
        error@ == VadErrorView::DeviceError(device_fault_reason(fault, identifier@)),
{
    let reason = match fault {
        DeviceFault::NoDefaultDevice => String::from_str("No default input device found"),
        DeviceFault::DeviceNotFound => String::from_str("Device '").concat(identifier).concat(
            "' not found",
        ),
        DeviceFault::UnsupportedConfig => String::from_str("No supported audio config found"),
    };
    VadError::DeviceError(reason)
}

/// What the recorder is doing, as callers see it.
#[derive(Debug)]
pub struct VadState {
    /// Whether a session is live.
    pub is_running: bool,
    /// Whether a recording file is being written.
    pub is_speaking: bool,
    /// The file being written; set exactly while `is_speaking`.
    pub current_file: Option<String>,
}

/// The mathematical value of a [`VadState`].
pub struct VadStateView {
    pub is_running: bool,
    pub is_speaking: bool,
    pub current_file: Option<Seq<char>>,
}

impl View for VadState {
    type V = VadStateView;

    open spec fn view(&self) -> VadStateView {
        VadStateView {
            is_running: self.is_running,
            is_speaking: self.is_speaking,
            current_file: match self.current_file {
                Some(path) => Some(path@),
                None => None,
            },
        }
    }
}

impl VadStateView {
    /// The state where nothing runs: no session, no speech, no file.
    pub open spec fn idle() -> VadStateView {
        VadStateView { is_running: false, is_speaking: false, current_file: None }
    }

    /// The state of a live session with this recorder.
    pub open spec fn of_recorder(recorder: RecorderView) -> VadStateView {
        VadStateView {
            is_running: true,
            is_speaking: recorder.current_file is Some,
            current_file: recorder.current_file,
        }
    }

    /// The invariant of the recorder's state: a file is named exactly while
    /// speech is being recorded.
    pub open spec fn wf(self) -> bool {
        self.is_speaking <==> self.current_file is Some
    }
}

impl Clone for VadState {
    fn clone(&self) -> (copy: VadState)
        ensures
            copy@ == self@,
    {
        VadState {
            is_running: self.is_running,
            is_speaking: self.is_speaking,
            current_file: match &self.current_file {
                Some(path) => Some(path.clone()),
                None => None,
            },
        }
    }
}

impl VadState {
    /// The state where nothing runs.
    pub fn idle() -> (state: VadState)
        ensures
            state@ == VadStateView::idle(),
    {
        VadState { is_running: false, is_speaking: false, current_file: None }
    }
}

/// The mathematical value of a live session.
pub struct SessionView<H> {
    /// The handle of the hardware stream.
    pub stream: H,
    /// The configuration that the stream was opened with.
    pub settings: StreamSettings,
    /// The gated recorder of the recording.
    pub recorder: RecorderView,
}

/// The mathematical value of a [`SessionManager`]: the live session, if
/// there is one.
pub struct ManagerView<H> {
    pub session: Option<SessionView<H>>,
}

impl<H> ManagerView<H> {
    /// The manager without a session.
    pub open spec fn empty() -> ManagerView<H> {
        ManagerView { session: None }
    }

    pub open spec fn is_active(self) -> bool {
        self.session is Some
    }

    /// The number of hardware streams that the manager holds.
    pub open spec fn live_streams(self) -> nat {
        if self.session is Some {
            1
        } else {
            0
        }
    }

    /// What a stop hands back: the stream of the live session and the file
    /// that it is writing.
    pub open spec fn handed_back(self) -> Option<StoppedView<H>> {
        match self.session {
            Some(session) => Some(
                StoppedView {
                    stream: session.stream,
                    unfinished: match session.recorder.current_file {
                        Some(path) => Some((path, session.recorder.written)),
                        None => None,
                    },
                },
            ),
            None => None,
        }
    }

    /// What callers see: the state of the live session, or the idle state
    /// where there is none.
    pub open spec fn state(self) -> VadStateView {
        match self.session {
            Some(session) => VadStateView::of_recorder(session.recorder),
            None => VadStateView::idle(),
        }
    }

    /// The manager after a start: its one session is the new one, whose recorder
    /// is idle. A session that was live is gone.
    pub open spec fn started(
        self,
        stream: H,
        settings: StreamSettings,
        threshold: u32,
        silence_timeout_ms: Option<u32>,
    ) -> ManagerView<H> {
        ManagerView {
            session: Some(
                SessionView {
                    stream,
                    settings,
                    recorder: RecorderView::idle(threshold, timeout_ticks(silence_timeout_ms)),
                },
            ),
        }
    }

    /// The manager after a stop: no session.
    pub open spec fn stopped(self) -> ManagerView<H> {
        ManagerView::empty()
    }

    /// The manager after its recorder observed a chunk; unchanged without a
    /// session.
    pub open spec fn observed(self, probability: u32, now: nat) -> ManagerView<H> {
        match self.session {
            Some(session) => ManagerView {
                session: Some(
                    SessionView { recorder: session.recorder.observed(probability, now), ..session },
                ),
            },
            None => self,
        }
    }

    /// What a chunk asks of the caller; nothing without a session.
    pub open spec fn decision(self, probability: u32, now: nat) -> RecorderActionView {
        match self.session {
            Some(session) => session.recorder.decision(probability, now),
            None => RecorderActionView::Hold,
        }
    }

    /// The manager after the caller opened a writer for `path`; unchanged
    /// without a session.
    pub open spec fn opened(self, path: Seq<char>) -> ManagerView<H> {
        match self.session {
            Some(session) => ManagerView {
                session: Some(SessionView { recorder: session.recorder.opened(path), ..session }),
            },
            None => self,
        }
    }

    /// The manager after `count` samples went to the writer; unchanged
    /// without a session.
    pub open spec fn appended(self, count: nat) -> ManagerView<H> {
        match self.session {
            Some(session) => ManagerView {
                session: Some(SessionView { recorder: session.recorder.appended(count), ..session }),
            },
            None => self,
        }
    }
}

/// What is left of a session that was stopped.
#[derive(Debug)]
pub struct StoppedSession<H> {
    /// The handle of the hardware stream, for the caller to tear down.
    pub stream: H,
    /// The file that was being written when the session stopped, with the
    /// number of samples in it, for the caller to finalize.
    pub unfinished: Option<(String, u64)>,
}

/// The mathematical value of a [`StoppedSession`].
pub struct StoppedView<H> {
    pub stream: H,
    pub unfinished: Option<(Seq<char>, nat)>,
}

impl<H> View for StoppedSession<H> {
    type V = StoppedView<H>;

    open spec fn view(&self) -> StoppedView<H> {
        StoppedView {
            stream: self.stream,
            unfinished: match self.unfinished {
                Some((path, samples)) => Some((path@, samples as nat)),
                None => None,
            },
        }
    }
}

/// The value of a session that may have been stopped.
pub open spec fn stopped_view<H>(stopped: Option<StoppedSession<H>>) -> Option<StoppedView<H>> {
    match stopped {
        Some(session) => Some(session@),
        None => None,
    }
}

/// One live capture: the hardware stream and the recorder of its recording.
pub struct CaptureSession<H> {
    stream: H,
    settings: StreamSettings,
    recorder: GatedRecorder,
}

impl<H> CaptureSession<H> {
    /// Takes the session apart as it stops.
    fn wind_down(self) -> (stopped: StoppedSession<H>)
        ensures
            stopped@.stream == self.stream,
            stopped@.unfinished == match self.recorder@.current_file {
                Some(path) => Some((path, self.recorder@.written)),
                None => None,
            },
    {
        let CaptureSession { stream, settings: _, recorder } = self;
        StoppedSession { stream, unfinished: recorder.finish() }
    }
}

/// The owner of the one capture session that may be live.
pub struct SessionManager<H> {
    session: Option<CaptureSession<H>>,
}

impl<H> View for SessionManager<H> {
    type V = ManagerView<H>;

    closed spec fn view(&self) -> ManagerView<H> {
        ManagerView {
            session: match self.session {
                Some(session) => Some(
                    SessionView {
                        stream: session.stream,
                        settings: session.settings,
                        recorder: session.recorder@,
                    },
                ),
                None => None,
            },
        }
    }
}

impl<H> SessionManager<H> {
    /// A manager without a session.
    pub fn new() -> (manager: SessionManager<H>)
        ensures
            manager@ == ManagerView::<H>::empty(),
    {
        SessionManager { session: None }
    }

    /// Whether a session is live.
    pub fn is_active(&self) -> (active: bool)
        ensures
            active == self@.is_active(),
    {
        self.session.is_some()
    }

    /// The configuration of the live session's stream.
    pub fn settings(&self) -> (settings: Option<StreamSettings>)
        ensures
            settings == match self@.session {
                Some(session) => Some(session.settings),
                None => None,
            },
    {
        match &self.session {
            Some(session) => Some(session.settings),
            None => None,
        }
    }

    /// Whether the live session is writing a file.
    pub fn is_capturing(&self) -> (capturing: bool)
        ensures
            capturing == self@.state().is_speaking,
    {
        match &self.session {
            Some(session) => session.recorder.is_capturing(),
            None => false,
        }
    }

    /// Hands the speech probability of one chunk, seen at `now`, to the
    /// recorder of the live session and says what becomes of the writer.
    /// Without a session nothing happens: a callback that comes after a stop
    /// finds no session.
    pub fn observe(&mut self, probability: u32, now: u64) -> (action: RecorderAction)
        ensures
            final(self)@ == old(self)@.observed(probability, now as nat),
            action@ == old(self)@.decision(probability, now as nat),
    {
        match self.session.take() {
            Some(session) => {
                let CaptureSession { stream, settings, mut recorder } = session;
                let action = recorder.observe(probability, now);
                self.session = Some(CaptureSession { stream, settings, recorder });
                action
            },
            None => RecorderAction::Hold,
        }
    }

    /// Records that the caller opened a writer for `path`. Returns `false`,
    /// and changes nothing, where no session is live or a file is open
    /// already: the caller then discards the new writer.
    pub fn writer_opened(&mut self, path: String) -> (accepted: bool)
        ensures
            accepted == (old(self)@.is_active() && !old(self)@.state().is_speaking),
            final(self)@ == old(self)@.opened(path@),
    {
        match self.session.take() {
            Some(session) => {
                let CaptureSession { stream, settings, mut recorder } = session;
                let accepted = recorder.writer_opened(path);
                self.session = Some(CaptureSession { stream, settings, recorder });
                accepted
            },
            None => false,
        }
    }

    /// Records that `count` samples were appended to the file being written.
    pub fn samples_appended(&mut self, count: usize)
        ensures
            final(self)@ == old(self)@.appended(count as nat),
    {
        match self.session.take() {
            Some(session) => {
                let CaptureSession { stream, settings, mut recorder } = session;
                recorder.samples_appended(count);
                self.session = Some(CaptureSession { stream, settings, recorder });
            },
            None => {},
        }
    }
}

/// Makes `stream` the stream of the one live session, with an idle recorder
/// that takes a chunk for speech where its probability is greater than the
/// number with the bit pattern `threshold`, and whose recordings end after
/// `silence_timeout_ms` milliseconds of silence (800 where `None`). A
/// session that was live is replaced, which is no error: it is handed back
/// as a stop would hand it back, for the caller to tear down.
pub fn start_vad_recording<H>(
    manager: &mut SessionManager<H>,
    stream: H,
    settings: StreamSettings,
    threshold: u32,
    silence_timeout_ms: Option<u32>,
) -> (displaced: Option<StoppedSession<H>>)
    ensures
        final(manager)@ == old(manager)@.started(
            stream,
            settings,
            threshold,
            silence_timeout_ms,
        ),
        stopped_view(displaced) == old(manager)@.handed_back(),
        final(manager)@.live_streams() == 1,
{
    let previous = manager.session.take();
    manager.session = Some(
        CaptureSession {
            stream,
            settings,
            recorder: GatedRecorder::new(threshold, silence_timeout_ms),
        },
    );
    match previous {
        Some(session) => Some(session.wind_down()),
        None => None,
    }
}

/// Ends the live session. Its stream is handed back for the caller to tear
/// down, and with it the file that was being written, if there was one, for
/// the caller to finalize. The state that callers see is idle from then on.
/// Fails with `NotInitialized`, and changes nothing, where no session is
/// live.
pub fn stop_vad_recording<H>(manager: &mut SessionManager<H>) -> (stopped: Result<
    StoppedSession<H>,
    VadError,
>)
    ensures
        match stopped {
            Ok(session) => Some(session@) == old(manager)@.handed_back() && final(manager)@
                == old(manager)@.stopped(),
            Err(error) => error@ == VadErrorView::NotInitialized && !old(manager)@.is_active()
                && final(manager)@ == old(manager)@,
        },
        final(manager)@.state() == VadStateView::idle(),
{
    match manager.session.take() {
        Some(session) => Ok(session.wind_down()),
        None => Err(VadError::NotInitialized),
    }
}

/// The state of the recorder: that of the live session, or the idle state
/// where there is none. Never fails, and changes nothing, so that asking
/// twice gives the same answer twice.
pub fn get_vad_state<H>(manager: &SessionManager<H>) -> (state: Result<VadState, VadError>)
    ensures
        state is Ok,
        state->Ok_0@ == manager@.state(),
        state->Ok_0@.wf(),
{
    match &manager.session {
        Some(session) => Ok(session.recorder.state()),
        None => Ok(VadState::idle()),
    }
}

/// Starting over a live session is stopping it and starting then: the
/// manager ends with the same single session either way, and one stream is
/// live afterwards, never two. What the start displaces is what the stop
/// would hand back: both are `handed_back` of the manager before.
pub proof fn lemma_restart_is_stop_then_start<H>(
    manager: ManagerView<H>,
    stream: H,
    settings: StreamSettings,
    threshold: u32,
    silence_timeout_ms: Option<u32>,
)
    ensures
        manager.started(stream, settings, threshold, silence_timeout_ms)
            == manager.stopped().started(stream, settings, threshold, silence_timeout_ms),
        manager.started(stream, settings, threshold, silence_timeout_ms).live_streams() == 1,
        manager.started(stream, settings, threshold, silence_timeout_ms).state() == (VadStateView {
            is_running: true,
            ..VadStateView::idle()
        }),
        manager.stopped().live_streams() == 0,
        manager.live_streams() <= 1,
{
}

} // verus!
