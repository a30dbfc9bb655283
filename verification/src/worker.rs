//! The dictation worker's decisions. The worker owns the recorder, the
//! transcriber and the typer; every choice it makes about them is taken
//! here, from its state and the event at hand, and handed back as actions
//! for the caller to carry out. Outcomes of those actions come back as
//! events.

use vstd::prelude::*;
use crate::config::{Config, ConfigView};
use crate::overlay::OverlayState;
use crate::tray::{opt_string_clone, opt_string_eq, opt_view, ControlEvent, ControlEventView};

verus! {

/// How long the "no mic" indicator stays up after a failed start, in
/// milliseconds.
pub const NO_MIC_HOLD_MS: u64 = 2000;

/// How stopping a recording went.
#[derive(Debug, Clone, Copy, PartialEq, Eq, Structural)]
pub enum StopOutcome {
    /// The recorder could not hand over its audio.
    Failed,
    /// Under 0.2 s of audio: not worth transcribing.
    TooShort,
    /// Audio long enough to transcribe.
    Captured,
}

/// How loading a newly chosen model went.
#[derive(Debug, Clone, Copy, PartialEq, Eq, Structural)]
pub enum LoadOutcome {
    Loaded,
    Failed,
    /// The models directory could not be found: the worker stops.
    NoModelsDir,
}

/// Where the worker is between an action and the event that reports its
/// outcome.
#[derive(Debug, PartialEq, Eq)]
pub enum Phase {
    Ready,
    /// Waiting to learn whether an input device exists.
    Probing,
    /// Waiting for the recorder to start.
    Starting,
    /// Waiting for the recorder to hand over its audio.
    Stopping,
    /// Waiting for the named model to load.
    Loading(String),
    /// The worker has stopped.
    Exited,
}

pub enum PhaseView {
    Ready,
    Probing,
    Starting,
    Stopping,
    Loading(Seq<char>),
    Exited,
}

impl View for Phase {
    type V = PhaseView;

    open spec fn view(&self) -> PhaseView {
        match self {
            Phase::Ready => PhaseView::Ready,
            Phase::Probing => PhaseView::Probing,
            Phase::Starting => PhaseView::Starting,
            Phase::Stopping => PhaseView::Stopping,
            Phase::Loading(s) => PhaseView::Loading(s@),
            Phase::Exited => PhaseView::Exited,
        }
    }
}

/// What happened since the worker last decided.
#[derive(Debug, PartialEq, Eq)]
pub enum WorkerEvent {
    /// A turn of the loop: time has passed.
    Tick,
    /// A message from the tray menu.
    Control(ControlEvent),
    /// The transcription in flight finished: its text, or `None` if it
    /// failed.
    TranscriptionFinished(Option<String>),
    /// The transcription thread went away without a result.
    TranscriptionLost,
    HotkeyPressed,
    HotkeyReleased,
    /// The hotkey listener is gone.
    HotkeyLost,
    /// Whether an input device exists.
    MicProbed(bool),
    /// Whether the recorder started.
    RecordingStarted(bool),
    RecordingStopped(StopOutcome),
    ModelLoaded(LoadOutcome),
}

pub enum WorkerEventView {
    Tick,
    Control(ControlEventView),
    TranscriptionFinished(Option<Seq<char>>),
    TranscriptionLost,
    HotkeyPressed,
    HotkeyReleased,
    HotkeyLost,
    MicProbed(bool),
    RecordingStarted(bool),
    RecordingStopped(StopOutcome),
    ModelLoaded(LoadOutcome),
}

impl View for WorkerEvent {
    type V = WorkerEventView;

    open spec fn view(&self) -> WorkerEventView {
        match self {
            WorkerEvent::Tick => WorkerEventView::Tick,
            WorkerEvent::Control(c) => WorkerEventView::Control(c@),
            WorkerEvent::TranscriptionFinished(r) => WorkerEventView::TranscriptionFinished(
                opt_view(*r),
            ),
            WorkerEvent::TranscriptionLost => WorkerEventView::TranscriptionLost,
            WorkerEvent::HotkeyPressed => WorkerEventView::HotkeyPressed,
            WorkerEvent::HotkeyReleased => WorkerEventView::HotkeyReleased,
            WorkerEvent::HotkeyLost => WorkerEventView::HotkeyLost,
            WorkerEvent::MicProbed(b) => WorkerEventView::MicProbed(*b),
            WorkerEvent::RecordingStarted(b) => WorkerEventView::RecordingStarted(*b),
            WorkerEvent::RecordingStopped(o) => WorkerEventView::RecordingStopped(*o),
            WorkerEvent::ModelLoaded(o) => WorkerEventView::ModelLoaded(*o),
        }
    }
}

/// What the caller must do, in order.
#[derive(Debug, PartialEq, Eq)]
pub enum WorkerAction {
    /// Put this state into the shared overlay (entering `Idle` also clears
    /// the level and the progress bar).
    ShowOverlay(OverlayState),
    /// Find out whether an input device exists; report `MicProbed`.
    ProbeMic,
    /// Start the recorder; report `RecordingStarted`.
    StartRecording,
    /// Stop the recorder; report `RecordingStopped`.
    StopRecording,
    /// Stop the recorder and drop its audio.
    DiscardRecording,
    /// Resample the captured audio, clear the progress bar, and transcribe
    /// it in this language off-thread; report `TranscriptionFinished` or
    /// `TranscriptionLost`.
    Transcribe(String),
    /// Abandon the transcription in flight: flag it cancelled and stop
    /// waiting for its result.
    CancelTranscription,
    /// Type this text at the cursor.
    TypeText(String),
    /// Raise the process priority while whisper runs.
    BoostPriority,
    /// Return the process priority to normal.
    RestorePriority,
    /// Bring the launch-at-login entry in line with this setting.
    SyncAutostart(bool),
    /// Record from this input device from now on.
    UseInputDevice(Option<String>),
    /// Fetch and load this model; report `ModelLoaded`.
    LoadModel(String),
    /// Write the current settings to disk.
    SaveConfig,
    /// Stop the worker.
    Exit,
}

pub enum ActionView {
    ShowOverlay(OverlayState),
    ProbeMic,
    StartRecording,
    StopRecording,
    DiscardRecording,
    Transcribe(Seq<char>),
    CancelTranscription,
    TypeText(Seq<char>),
    BoostPriority,
    RestorePriority,
    SyncAutostart(bool),
    UseInputDevice(Option<Seq<char>>),
    LoadModel(Seq<char>),
    SaveConfig,
    Exit,
}

impl View for WorkerAction {
    type V = ActionView;

    open spec fn view(&self) -> ActionView {
        match self {
            WorkerAction::ShowOverlay(s) => ActionView::ShowOverlay(*s),
            WorkerAction::ProbeMic => ActionView::ProbeMic,
            WorkerAction::StartRecording => ActionView::StartRecording,
            WorkerAction::StopRecording => ActionView::StopRecording,
            WorkerAction::DiscardRecording => ActionView::DiscardRecording,
            WorkerAction::Transcribe(l) => ActionView::Transcribe(l@),
            WorkerAction::CancelTranscription => ActionView::CancelTranscription,
            WorkerAction::TypeText(t) => ActionView::TypeText(t@),
            WorkerAction::BoostPriority => ActionView::BoostPriority,
            WorkerAction::RestorePriority => ActionView::RestorePriority,
            WorkerAction::SyncAutostart(b) => ActionView::SyncAutostart(*b),
            WorkerAction::UseInputDevice(d) => ActionView::UseInputDevice(opt_view(*d)),
            WorkerAction::LoadModel(m) => ActionView::LoadModel(m@),
            WorkerAction::SaveConfig => ActionView::SaveConfig,
            WorkerAction::Exit => ActionView::Exit,
        }
    }
}

/// The actions, over character sequences.
pub open spec fn views(acts: Seq<WorkerAction>) -> Seq<ActionView> {
    acts.map_values(|a: WorkerAction| a@)
}

/// The worker's state.
pub struct Worker {
    cfg: Config,
    recording: bool,
    pending: bool,
    no_mic_until: Option<u64>,
    overlay: OverlayState,
    phase: Phase,
}

/// The worker's state over character sequences.
pub struct WorkerView {
    pub cfg: ConfigView,
    /// The recorder is capturing.
    pub recording: bool,
    /// A transcription is in flight and its text is still wanted.
    pub pending: bool,
    /// When the "no mic" indicator is due to go (milliseconds).
    pub no_mic_until: Option<u64>,
    /// What the shared overlay shows.
    pub overlay: OverlayState,
    pub phase: PhaseView,
}

impl View for Worker {
    type V = WorkerView;

    closed spec fn view(&self) -> WorkerView {
        WorkerView {
            cfg: self.cfg@,
            recording: self.recording,
            pending: self.pending,
            no_mic_until: self.no_mic_until,
            overlay: self.overlay,
            phase: self.phase@,
        }
    }
}

} // verus!

verus! {

/// Shows the "no mic" indicator until `now + NO_MIC_HOLD_MS`.
pub open spec fn show_no_mic(s: WorkerView, now: u64) -> (WorkerView, Seq<ActionView>) {
    (
        WorkerView {
            overlay: OverlayState::NoMic,
            no_mic_until: Some((now + NO_MIC_HOLD_MS) as u64),
            phase: PhaseView::Ready,
            ..s
        },
        seq![ActionView::ShowOverlay(OverlayState::NoMic)],
    )
}

/// Abandons the transcription in flight: its text is no longer wanted, the
/// priority drops back and the overlay hides.
pub open spec fn cancel_pending(s: WorkerView) -> (WorkerView, Seq<ActionView>) {
    (
        WorkerView { pending: false, overlay: OverlayState::Idle, ..s },
        seq![
            ActionView::CancelTranscription,
            ActionView::RestorePriority,
            ActionView::ShowOverlay(OverlayState::Idle),
        ],
    )
}

pub open spec fn on_tick(s: WorkerView, now: u64) -> (WorkerView, Seq<ActionView>) {
    match s.no_mic_until {
        Some(d) => if now >= d {
            if s.overlay == OverlayState::NoMic {
                (
                    WorkerView { no_mic_until: None, overlay: OverlayState::Idle, ..s },
                    seq![ActionView::ShowOverlay(OverlayState::Idle)],
                )
            } else {
                (WorkerView { no_mic_until: None, ..s }, seq![])
            }
        } else {
            (s, seq![])
        },
        None => (s, seq![]),
    }
}

/// The actions that open a model switch: drop any recording, abandon any
/// transcription, show the busy overlay, load the model.
pub open spec fn switch_actions(s: WorkerView, name: Seq<char>) -> Seq<ActionView> {
    (if s.recording { seq![ActionView::DiscardRecording] } else { seq![] }) + (if s.pending {
        seq![ActionView::CancelTranscription, ActionView::RestorePriority]
    } else {
        seq![]
    }) + seq![ActionView::ShowOverlay(OverlayState::Processing), ActionView::LoadModel(name)]
}

pub open spec fn on_control(s: WorkerView, c: ControlEventView) -> (WorkerView, Seq<ActionView>) {
    match c {
        ControlEventView::SetAutostart(b) => if s.cfg.autostart == b {
            (s, seq![])
        } else {
            (
                WorkerView { cfg: ConfigView { autostart: b, ..s.cfg }, ..s },
                seq![ActionView::SyncAutostart(b), ActionView::SaveConfig],
            )
        },
        ControlEventView::SwitchModel(name) => if name == s.cfg.whisper_model {
            (s, seq![])
        } else {
            (
                WorkerView {
                    recording: false,
                    pending: false,
                    overlay: OverlayState::Processing,
                    phase: PhaseView::Loading(name),
                    ..s
                },
                switch_actions(s, name),
            )
        },
        ControlEventView::SetInputDevice(d) => if s.cfg.input_device == d {
            (s, seq![])
        } else {
            (
                WorkerView { cfg: ConfigView { input_device: d, ..s.cfg }, ..s },
                seq![ActionView::UseInputDevice(d), ActionView::SaveConfig],
            )
        },
        ControlEventView::CancelTranscription => if s.pending {
            cancel_pending(s)
        } else {
            (s, seq![])
        },
    }
}

/// The text to type for a finished transcription: none when it failed or
/// came back empty.
pub open spec fn typed_text(r: Option<Seq<char>>) -> Seq<ActionView> {
    match r {
        Some(t) => if t.len() > 0 { seq![ActionView::TypeText(t)] } else { seq![] },
        None => seq![],
    }
}

/// One decision of the worker: from its state, an event and the time, the
/// next state and the actions to carry out. Events that do not fit the
/// current phase change nothing.
pub open spec fn worker_step(s: WorkerView, ev: WorkerEventView, now: u64) -> (WorkerView, Seq<ActionView>) {
    match s.phase {
        PhaseView::Exited => (s, seq![]),
        PhaseView::Ready => match ev {
            WorkerEventView::Tick => on_tick(s, now),
            WorkerEventView::Control(c) => on_control(s, c),
            WorkerEventView::TranscriptionFinished(r) => if s.pending {
                (
                    WorkerView { pending: false, overlay: OverlayState::Idle, ..s },
                    seq![ActionView::RestorePriority] + typed_text(r) + seq![
                        ActionView::ShowOverlay(OverlayState::Idle),
                    ],
                )
            } else {
                (s, seq![])
            },
            WorkerEventView::TranscriptionLost => if s.pending {
                (
                    WorkerView { pending: false, overlay: OverlayState::Idle, ..s },
                    seq![ActionView::RestorePriority, ActionView::ShowOverlay(OverlayState::Idle)],
                )
            } else {
                (s, seq![])
            },
            WorkerEventView::HotkeyPressed => if s.pending {
                cancel_pending(s)
            } else if s.recording {
                (s, seq![])
            } else {
                (WorkerView { phase: PhaseView::Probing, ..s }, seq![ActionView::ProbeMic])
            },
            WorkerEventView::HotkeyReleased => if s.recording {
                (WorkerView { phase: PhaseView::Stopping, ..s }, seq![ActionView::StopRecording])
            } else {
                (s, seq![])
            },
            WorkerEventView::HotkeyLost => (
                WorkerView { phase: PhaseView::Exited, ..s },
                seq![ActionView::Exit],
            ),
            _ => (s, seq![]),
        },
        PhaseView::Probing => match ev {
            WorkerEventView::MicProbed(present) => if present {
                (WorkerView { phase: PhaseView::Starting, ..s }, seq![ActionView::StartRecording])
            } else {
                show_no_mic(s, now)
            },
            _ => (s, seq![]),
        },
        PhaseView::Starting => match ev {
            WorkerEventView::RecordingStarted(ok) => if ok {
                (
                    WorkerView {
                        recording: true,
                        overlay: OverlayState::Recording,
                        phase: PhaseView::Ready,
                        ..s
                    },
                    seq![ActionView::ShowOverlay(OverlayState::Recording)],
                )
            } else {
                show_no_mic(s, now)
            },
            _ => (s, seq![]),
        },
        PhaseView::Stopping => match ev {
            WorkerEventView::RecordingStopped(o) => match o {
                StopOutcome::Failed => (
                    WorkerView {
                        recording: false,
                        overlay: OverlayState::Idle,
                        phase: PhaseView::Ready,
                        ..s
                    },
                    seq![ActionView::ShowOverlay(OverlayState::Idle)],
                ),
                StopOutcome::TooShort => (
                    WorkerView {
                        recording: false,
                        overlay: OverlayState::Idle,
                        phase: PhaseView::Ready,
                        ..s
                    },
                    seq![
                        ActionView::ShowOverlay(OverlayState::Processing),
                        ActionView::ShowOverlay(OverlayState::Idle),
                    ],
                ),
                StopOutcome::Captured => (
                    WorkerView {
                        recording: false,
                        pending: true,
                        overlay: OverlayState::Processing,
                        phase: PhaseView::Ready,
                        ..s
                    },
                    seq![
                        ActionView::ShowOverlay(OverlayState::Processing),
                        ActionView::BoostPriority,
                        ActionView::Transcribe(s.cfg.language),
                    ],
                ),
            },
            _ => (s, seq![]),
        },
        PhaseView::Loading(name) => match ev {
            WorkerEventView::ModelLoaded(o) => match o {
                LoadOutcome::Loaded => (
                    WorkerView {
                        cfg: ConfigView { whisper_model: name, ..s.cfg },
                        overlay: OverlayState::Idle,
                        phase: PhaseView::Ready,
                        ..s
                    },
                    seq![ActionView::SaveConfig, ActionView::ShowOverlay(OverlayState::Idle)],
                ),
                LoadOutcome::Failed => (
                    WorkerView { overlay: OverlayState::Idle, phase: PhaseView::Ready, ..s },
                    seq![ActionView::ShowOverlay(OverlayState::Idle)],
                ),
                LoadOutcome::NoModelsDir => (
                    WorkerView { phase: PhaseView::Exited, ..s },
                    seq![ActionView::Exit],
                ),
            },
            _ => (s, seq![]),
        },
    }
}

} // verus!

verus! {

/// The worker's state and first actions at start-up, given whether an input
/// device exists: with none, the "no mic" indicator shows for a while.
pub open spec fn worker_start(cfg: ConfigView, mic_present: bool, now: u64) -> (WorkerView, Seq<ActionView>) {
    let s = WorkerView {
        cfg,
        recording: false,
        pending: false,
        no_mic_until: None,
        overlay: OverlayState::Idle,
        phase: PhaseView::Ready,
    };
    if mic_present {
        (s, seq![])
    } else {
        show_no_mic(s, now)
    }
}

impl Worker {
    /// Starts the worker with these settings; `mic_present` says whether an
    /// input device exists right now.
    pub fn new(cfg: Config, mic_present: bool, now_ms: u64) -> (r: (Worker, Vec<WorkerAction>))
        requires
            now_ms <= u64::MAX - NO_MIC_HOLD_MS,
        ensures
            (r.0@, views(r.1@)) == worker_start(cfg@, mic_present, now_ms),
    {
        let mut w = Worker {
            cfg,
            recording: false,
            pending: false,
            no_mic_until: None,
            overlay: OverlayState::Idle,
            phase: Phase::Ready,
        };
        let mut acts: Vec<WorkerAction> = Vec::new();
        if !mic_present {
            w.no_mic(now_ms, &mut acts);
        }
        assert(views(acts@) =~= worker_start(cfg@, mic_present, now_ms).1);
        (w, acts)
    }

    /// The current settings.
    pub fn config(&self) -> (c: &Config)
        ensures
            c@ == self@.cfg,
    {
        &self.cfg
    }

    /// Whether the recorder is capturing (the caller then samples its level).
    pub fn is_recording(&self) -> (b: bool)
        ensures
            b == self@.recording,
    {
        self.recording
    }

    /// What the overlay shows.
    pub fn overlay(&self) -> (o: OverlayState)
        ensures
            o == self@.overlay,
    {
        self.overlay
    }

    fn no_mic(&mut self, now_ms: u64, acts: &mut Vec<WorkerAction>)
        requires
            now_ms <= u64::MAX - NO_MIC_HOLD_MS,
        ensures
            final(self)@ == show_no_mic(old(self)@, now_ms).0,
            views(final(acts)@) == views(old(acts)@) + show_no_mic(old(self)@, now_ms).1,
    {
        self.overlay = OverlayState::NoMic;
        self.no_mic_until = Some(now_ms + NO_MIC_HOLD_MS);
        self.phase = Phase::Ready;
        acts.push(WorkerAction::ShowOverlay(OverlayState::NoMic));
        assert(views(acts@) =~= views(old(acts)@) + show_no_mic(old(self)@, now_ms).1);
    }

    fn cancel(&mut self, acts: &mut Vec<WorkerAction>)
        ensures
            final(self)@ == cancel_pending(old(self)@).0,
            views(final(acts)@) == views(old(acts)@) + cancel_pending(old(self)@).1,
    {
        self.pending = false;
        self.overlay = OverlayState::Idle;
        acts.push(WorkerAction::CancelTranscription);
        acts.push(WorkerAction::RestorePriority);
        acts.push(WorkerAction::ShowOverlay(OverlayState::Idle));
        assert(views(acts@) =~= views(old(acts)@) + cancel_pending(old(self)@).1);
    }

    fn tick(&mut self, now_ms: u64) -> (acts: Vec<WorkerAction>)
        ensures
            (final(self)@, views(acts@)) == on_tick(old(self)@, now_ms),
    {
        let mut acts: Vec<WorkerAction> = Vec::new();
        if let Some(d) = self.no_mic_until {
            if now_ms >= d {
                self.no_mic_until = None;
                if self.overlay == OverlayState::NoMic {
                    self.overlay = OverlayState::Idle;
                    acts.push(WorkerAction::ShowOverlay(OverlayState::Idle));
                }
            }
        }
        assert(views(acts@) =~= on_tick(old(self)@, now_ms).1);
        acts
    }

    fn control(&mut self, c: ControlEvent) -> (acts: Vec<WorkerAction>)
        requires
            old(self)@.phase == PhaseView::Ready,
        ensures
            (final(self)@, views(acts@)) == on_control(old(self)@, c@),
    {
        let mut acts: Vec<WorkerAction> = Vec::new();
        match c {
            ControlEvent::SetAutostart(b) => {
                if self.cfg.autostart != b {
                    self.cfg.autostart = b;
                    acts.push(WorkerAction::SyncAutostart(b));
                    acts.push(WorkerAction::SaveConfig);
                }
            },
            ControlEvent::SwitchModel(name) => {
                if name != self.cfg.whisper_model {
                    if self.recording {
                        acts.push(WorkerAction::DiscardRecording);
                        self.recording = false;
                    }
                    if self.pending {
                        acts.push(WorkerAction::CancelTranscription);
                        acts.push(WorkerAction::RestorePriority);
                        self.pending = false;
                    }
                    self.overlay = OverlayState::Processing;
                    acts.push(WorkerAction::ShowOverlay(OverlayState::Processing));
                    acts.push(WorkerAction::LoadModel(name.clone()));
                    self.phase = Phase::Loading(name);
                }
            },
            ControlEvent::SetInputDevice(d) => {
                if !opt_string_eq(&self.cfg.input_device, &d) {
                    acts.push(WorkerAction::UseInputDevice(opt_string_clone(&d)));
                    acts.push(WorkerAction::SaveConfig);
                    self.cfg.input_device = d;
                }
            },
            ControlEvent::CancelTranscription => {
                if self.pending {
                    self.cancel(&mut acts);
                }
            },
        }
        assert(views(acts@) =~= on_control(old(self)@, c@).1);
        acts
    }

    /// Decides what to do about `ev` at time `now_ms` (milliseconds on a
    /// monotonic clock), updating the state and returning the actions to
    /// carry out, in order.
    pub fn step(&mut self, ev: WorkerEvent, now_ms: u64) -> (acts: Vec<WorkerAction>)
        requires
            now_ms <= u64::MAX - NO_MIC_HOLD_MS,
        ensures
            (final(self)@, views(acts@)) == worker_step(old(self)@, ev@, now_ms),
    {
        let mut acts: Vec<WorkerAction> = Vec::new();
        match self.phase {
            Phase::Exited => {},
            Phase::Ready => {
                match ev {
                    WorkerEvent::Tick => {
                        return self.tick(now_ms);
                    },
                    WorkerEvent::Control(c) => {
                        return self.control(c);
                    },
                    WorkerEvent::TranscriptionFinished(r) => {
                        if self.pending {
                            self.pending = false;
                            self.overlay = OverlayState::Idle;
                            acts.push(WorkerAction::RestorePriority);
                            if let Some(t) = r {
                                if !t.as_str().is_empty() {
                                    acts.push(WorkerAction::TypeText(t));
                                }
                            }
                            acts.push(WorkerAction::ShowOverlay(OverlayState::Idle));
                        }
                    },
                    WorkerEvent::TranscriptionLost => {
                        if self.pending {
                            self.pending = false;
                            self.overlay = OverlayState::Idle;
                            acts.push(WorkerAction::RestorePriority);
                            acts.push(WorkerAction::ShowOverlay(OverlayState::Idle));
                        }
                    },
                    WorkerEvent::HotkeyPressed => {
                        if self.pending {
                            self.cancel(&mut acts);
                        } else if !self.recording {
                            self.phase = Phase::Probing;
                            acts.push(WorkerAction::ProbeMic);
                        }
                    },
                    WorkerEvent::HotkeyReleased => {
                        if self.recording {
                            self.phase = Phase::Stopping;
                            acts.push(WorkerAction::StopRecording);
                        }
                    },
                    WorkerEvent::HotkeyLost => {
                        self.phase = Phase::Exited;
                        acts.push(WorkerAction::Exit);
                    },
                    _ => {},
                }
            },
            Phase::Probing => {
                if let WorkerEvent::MicProbed(present) = ev {
                    if present {
                        self.phase = Phase::Starting;
                        acts.push(WorkerAction::StartRecording);
                    } else {
                        self.no_mic(now_ms, &mut acts);
                    }
                }
            },
            Phase::Starting => {
                if let WorkerEvent::RecordingStarted(ok) = ev {
                    if ok {
                        self.recording = true;
                        self.overlay = OverlayState::Recording;
                        self.phase = Phase::Ready;
                        acts.push(WorkerAction::ShowOverlay(OverlayState::Recording));
                    } else {
                        self.no_mic(now_ms, &mut acts);
                    }
                }
            },
            Phase::Stopping => {
                if let WorkerEvent::RecordingStopped(o) = ev {
                    self.recording = false;
                    self.phase = Phase::Ready;
                    match o {
                        StopOutcome::Failed => {
                            self.overlay = OverlayState::Idle;
                            acts.push(WorkerAction::ShowOverlay(OverlayState::Idle));
                        },
                        StopOutcome::TooShort => {
                            self.overlay = OverlayState::Idle;
                            acts.push(WorkerAction::ShowOverlay(OverlayState::Processing));
                            acts.push(WorkerAction::ShowOverlay(OverlayState::Idle));
                        },
                        StopOutcome::Captured => {
                            self.pending = true;
                            self.overlay = OverlayState::Processing;
                            acts.push(WorkerAction::ShowOverlay(OverlayState::Processing));
                            acts.push(WorkerAction::BoostPriority);
                            acts.push(WorkerAction::Transcribe(self.cfg.language.clone()));
                        },
                    }
                }
            },
            Phase::Loading(_) => {
                if let WorkerEvent::ModelLoaded(o) = ev {
                    let mut p = Phase::Ready;
                    std::mem::swap(&mut p, &mut self.phase);
                    match o {
                        LoadOutcome::Loaded => {
                            if let Phase::Loading(name) = p {
                                self.cfg.whisper_model = name;
                            }
                            self.overlay = OverlayState::Idle;
                            acts.push(WorkerAction::SaveConfig);
                            acts.push(WorkerAction::ShowOverlay(OverlayState::Idle));
                        },
                        LoadOutcome::Failed => {
                            self.overlay = OverlayState::Idle;
                            acts.push(WorkerAction::ShowOverlay(OverlayState::Idle));
                        },
                        LoadOutcome::NoModelsDir => {
                            self.phase = Phase::Exited;
                            acts.push(WorkerAction::Exit);
                        },
                    }
                }
            },
        }
        assert(views(acts@) =~= worker_step(old(self)@, ev@, now_ms).1);
        acts
    }
}

} // verus!

verus! {

/// What holds of the worker between decisions: never recording while a
/// transcription is in flight; the overlay shows what is going on; the
/// "no mic" indicator always has a time to go.
pub open spec fn worker_inv(s: WorkerView) -> bool {
    &&& !(s.recording && s.pending)
    &&& s.pending ==> s.overlay == OverlayState::Processing && (s.phase == PhaseView::Ready
        || s.phase == PhaseView::Exited)
    &&& s.recording ==> s.overlay == OverlayState::Recording
    &&& s.overlay == OverlayState::NoMic ==> s.no_mic_until is Some
    &&& match s.phase {
        PhaseView::Probing => !s.recording && !s.pending,
        PhaseView::Starting => !s.recording && !s.pending,
        PhaseView::Stopping => s.recording && !s.pending,
        PhaseView::Loading(_) => !s.recording && !s.pending && s.overlay
            == OverlayState::Processing,
        _ => true,
    }
}

/// The worker starts in a state that satisfies its invariant.
pub proof fn law_start_satisfies_invariant(cfg: ConfigView, mic_present: bool, now: u64)
    requires
        now <= u64::MAX - NO_MIC_HOLD_MS,
    ensures
        worker_inv(worker_start(cfg, mic_present, now).0),
{
}

/// Every decision keeps the invariant.
pub proof fn law_step_keeps_invariant(s: WorkerView, ev: WorkerEventView, now: u64)
    requires
        worker_inv(s),
        now <= u64::MAX - NO_MIC_HOLD_MS,
    ensures
        worker_inv(worker_step(s, ev, now).0),
{
}

/// The process priority is raised exactly when a transcription starts and
/// returned exactly when one ends (finished, lost or cancelled), so it is
/// raised for as long as a transcription is in flight and no longer.
pub proof fn law_priority_follows_transcription(s: WorkerView, ev: WorkerEventView, now: u64)
    requires
        worker_inv(s),
        now <= u64::MAX - NO_MIC_HOLD_MS,
    ensures
        ({
            let (t, acts) = worker_step(s, ev, now);
            &&& acts.contains(ActionView::BoostPriority) <==> (!s.pending && t.pending)
            &&& acts.contains(ActionView::RestorePriority) <==> (s.pending && !t.pending)
        }),
{
    let (t, acts) = worker_step(s, ev, now);
    if !s.pending && t.pending {
        assert(acts[1] == ActionView::BoostPriority);
    }
    if s.pending && !t.pending {
        match ev {
            WorkerEventView::Control(ControlEventView::SwitchModel(n)) => {
                assert(acts[1] == ActionView::RestorePriority);
            },
            WorkerEventView::Control(_) => {
                assert(acts[1] == ActionView::RestorePriority);
            },
            WorkerEventView::HotkeyPressed => {
                assert(acts[1] == ActionView::RestorePriority);
            },
            _ => {
                assert(acts[0] == ActionView::RestorePriority);
            },
        }
    }
}

/// Text is typed only for a transcription still in flight, only when it
/// succeeded with non-empty text, and then exactly that text.
pub proof fn law_typing_needs_wanted_result(s: WorkerView, ev: WorkerEventView, now: u64, i: int)
    requires
        worker_inv(s),
        now <= u64::MAX - NO_MIC_HOLD_MS,
        0 <= i < worker_step(s, ev, now).1.len(),
        worker_step(s, ev, now).1[i] is TypeText,
    ensures
        s.pending,
        ev == WorkerEventView::TranscriptionFinished(Some(worker_step(s, ev, now).1[i]->TypeText_0)),
        (worker_step(s, ev, now).1[i]->TypeText_0).len() > 0,
{
}

/// Re-pressing the hotkey or choosing "Cancel transcription" while a
/// transcription is in flight abandons it: nothing is typed then, the
/// overlay hides, and when the abandoned result arrives later it is not
/// typed either.
pub proof fn law_cancelled_text_is_never_typed(
    s: WorkerView,
    cancel: WorkerEventView,
    result: Option<Seq<char>>,
    now1: u64,
    now2: u64,
)
    requires
        worker_inv(s),
        s.pending,
        s.phase == PhaseView::Ready,
        cancel == WorkerEventView::HotkeyPressed || cancel == WorkerEventView::Control(
            ControlEventView::CancelTranscription,
        ),
        now1 <= u64::MAX - NO_MIC_HOLD_MS,
    ensures
        ({
            let (t, acts) = worker_step(s, cancel, now1);
            &&& !t.pending
            &&& t.overlay == OverlayState::Idle
            &&& forall|i: int| 0 <= i < acts.len() ==> !(acts[i] is TypeText)
            &&& worker_step(t, WorkerEventView::TranscriptionFinished(result), now2).1 == Seq::<
                ActionView,
            >::empty()
        }),
{
}

/// Re-pressing the hotkey while a transcription is in flight only cancels
/// it: it does not start a new recording.
pub proof fn law_repress_while_busy_does_not_record(s: WorkerView, now: u64)
    requires
        worker_inv(s),
        s.pending,
        s.phase == PhaseView::Ready,
        now <= u64::MAX - NO_MIC_HOLD_MS,
    ensures
        ({
            let (t, acts) = worker_step(s, WorkerEventView::HotkeyPressed, now);
            &&& !t.recording
            &&& t.phase == PhaseView::Ready
            &&& !acts.contains(ActionView::ProbeMic)
            &&& !acts.contains(ActionView::StartRecording)
        }),
{
}

/// The "no mic" indicator goes away on the first turn at or after its
/// deadline.
pub proof fn law_no_mic_hides_at_deadline(s: WorkerView, now: u64)
    requires
        worker_inv(s),
        s.phase == PhaseView::Ready,
        s.overlay == OverlayState::NoMic,
        now >= s.no_mic_until->Some_0,
    ensures
        worker_step(s, WorkerEventView::Tick, now).0.overlay == OverlayState::Idle,
        worker_step(s, WorkerEventView::Tick, now).1 == seq![
            ActionView::ShowOverlay(OverlayState::Idle),
        ],
{
}

/// Choosing the setting already in force does nothing: no save, no sync, no
/// model reload, no device switch.
pub proof fn law_unchanged_setting_does_nothing(s: WorkerView, c: ControlEventView, now: u64)
    requires
        s.phase == PhaseView::Ready,
        match c {
            ControlEventView::SetAutostart(b) => b == s.cfg.autostart,
            ControlEventView::SwitchModel(n) => n == s.cfg.whisper_model,
            ControlEventView::SetInputDevice(d) => d == s.cfg.input_device,
            ControlEventView::CancelTranscription => !s.pending,
        },
    ensures
        worker_step(s, WorkerEventView::Control(c), now) == (s, Seq::<ActionView>::empty()),
{
}

/// A model switch takes effect in the settings only once the new model has
/// loaded; if loading fails the old model stays configured.
pub proof fn law_model_switch_commits_on_load(
    s: WorkerView,
    name: Seq<char>,
    outcome: LoadOutcome,
    now1: u64,
    now2: u64,
)
    requires
        s.phase == PhaseView::Ready,
        name != s.cfg.whisper_model,
    ensures
        ({
            let (t, a) = worker_step(s, WorkerEventView::Control(ControlEventView::SwitchModel(name)), now1);
            let (u, b) = worker_step(t, WorkerEventView::ModelLoaded(outcome), now2);
            &&& t.cfg == s.cfg
            &&& a.last() == ActionView::LoadModel(name)
            &&& u.cfg.whisper_model == (if outcome == LoadOutcome::Loaded {
                name
            } else {
                s.cfg.whisper_model
            })
            &&& (outcome == LoadOutcome::Loaded <==> b.contains(ActionView::SaveConfig))
        }),
{
    let (t, a) = worker_step(s, WorkerEventView::Control(ControlEventView::SwitchModel(name)), now1);
    let (u, b) = worker_step(t, WorkerEventView::ModelLoaded(outcome), now2);
    if outcome == LoadOutcome::Loaded {
        assert(b[0] == ActionView::SaveConfig);
    }
}

/// The worker run over a sequence of events, each with its time: the final
/// state and every action asked for, in order.
pub open spec fn worker_run(s: WorkerView, evs: Seq<(WorkerEventView, u64)>) -> (WorkerView, Seq<ActionView>)
    decreases evs.len(),
{
    if evs.len() == 0 {
        (s, seq![])
    } else {
        let (t, a) = worker_run(s, evs.drop_last());
        let (u, b) = worker_step(t, evs.last().0, evs.last().1);
        (u, a + b)
    }
}

/// No decision changes the configured language.
pub proof fn law_language_never_changes(s: WorkerView, ev: WorkerEventView, now: u64)
    ensures
        worker_step(s, ev, now).0.cfg.language == s.cfg.language,
{
}

/// Captured audio is transcribed in the configured language, whatever it is
/// (`auto` included): a step asks for a transcription only when the audio
/// of a recording comes back long enough, and the language it hands over is
/// `cfg.language`.
pub proof fn law_transcribes_in_configured_language(
    s: WorkerView,
    ev: WorkerEventView,
    now: u64,
    i: int,
)
    requires
        0 <= i < worker_step(s, ev, now).1.len(),
        worker_step(s, ev, now).1[i] is Transcribe,
    ensures
        worker_step(s, ev, now).1[i]->Transcribe_0 == s.cfg.language,
        s.phase == PhaseView::Stopping,
        ev == WorkerEventView::RecordingStopped(StopOutcome::Captured),
{
    let (t, acts) = worker_step(s, ev, now);
    match s.phase {
        PhaseView::Ready => match ev {
            WorkerEventView::TranscriptionFinished(r) => {
                if s.pending {
                    let pre = seq![ActionView::RestorePriority];
                    let post = seq![ActionView::ShowOverlay(OverlayState::Idle)];
                    assert(acts == pre + typed_text(r) + post);
                    if i == 0 {
                    } else if i < 1 + typed_text(r).len() {
                        assert(acts[i] == typed_text(r)[i - 1]);
                    } else {
                        assert(acts[i] == post[i - 1 - typed_text(r).len()]);
                    }
                }
            },
            WorkerEventView::Control(c) => {
                match c {
                    ControlEventView::SwitchModel(name) => {
                        if name != s.cfg.whisper_model {
                            let a = if s.recording { seq![ActionView::DiscardRecording] } else { seq![] };
                            let b = if s.pending {
                                seq![ActionView::CancelTranscription, ActionView::RestorePriority]
                            } else {
                                seq![]
                            };
                            let c2 = seq![
                                ActionView::ShowOverlay(OverlayState::Processing),
                                ActionView::LoadModel(name),
                            ];
                            assert(acts == a + b + c2);
                            if i < a.len() {
                                assert(acts[i] == a[i]);
                            } else if i < a.len() + b.len() {
                                assert(acts[i] == b[i - a.len()]);
                            } else {
                                assert(acts[i] == c2[i - a.len() - b.len()]);
                            }
                        }
                    },
                    _ => {},
                }
            },
            _ => {},
        },
        _ => {},
    }
}

/// Audio that comes back long enough from a recording is always handed to
/// transcription, in the configured language, with the busy overlay up and
/// the priority raised; its text is then awaited.
pub proof fn law_captured_audio_is_transcribed(s: WorkerView, now: u64)
    requires
        s.phase == PhaseView::Stopping,
    ensures
        worker_step(s, WorkerEventView::RecordingStopped(StopOutcome::Captured), now).1 == seq![
            ActionView::ShowOverlay(OverlayState::Processing),
            ActionView::BoostPriority,
            ActionView::Transcribe(s.cfg.language),
        ],
        worker_step(s, WorkerEventView::RecordingStopped(StopOutcome::Captured), now).0.pending,
        !worker_step(s, WorkerEventView::RecordingStopped(StopOutcome::Captured), now).0.recording,
{
}

/// Over any run of events, every transcription the worker asks for is in
/// the language configured at the start of the run.
pub proof fn law_run_transcribes_in_configured_language(
    s: WorkerView,
    evs: Seq<(WorkerEventView, u64)>,
    i: int,
)
    requires
        0 <= i < worker_run(s, evs).1.len(),
        worker_run(s, evs).1[i] is Transcribe,
    ensures
        worker_run(s, evs).1[i]->Transcribe_0 == s.cfg.language,
        worker_run(s, evs).0.cfg.language == s.cfg.language,
    decreases evs.len(),
{
    lemma_run_keeps_language(s, evs);
    let (t, a) = worker_run(s, evs.drop_last());
    let (u, b) = worker_step(t, evs.last().0, evs.last().1);
    if i < a.len() {
        assert(worker_run(s, evs).1[i] == a[i]);
        law_run_transcribes_in_configured_language(s, evs.drop_last(), i);
    } else {
        assert(worker_run(s, evs).1[i] == b[i - a.len()]);
        lemma_run_keeps_language(s, evs.drop_last());
        law_transcribes_in_configured_language(t, evs.last().0, evs.last().1, i - a.len());
    }
}

proof fn lemma_run_keeps_language(s: WorkerView, evs: Seq<(WorkerEventView, u64)>)
    ensures
        worker_run(s, evs).0.cfg.language == s.cfg.language,
    decreases evs.len(),
{
    if evs.len() > 0 {
        lemma_run_keeps_language(s, evs.drop_last());
        let (t, a) = worker_run(s, evs.drop_last());
        law_language_never_changes(t, evs.last().0, evs.last().1);
    }
}

/// Choosing an input device other than the configured one, the system
/// default (`None`) included, switches the recorder to it and saves it:
/// the setting becomes that device and nothing else changes.
pub proof fn law_new_device_is_used_and_saved(s: WorkerView, d: Option<Seq<char>>, now: u64)
    requires
        s.phase == PhaseView::Ready,
        d != s.cfg.input_device,
    ensures
        worker_step(s, WorkerEventView::Control(ControlEventView::SetInputDevice(d)), now) == (
            WorkerView { cfg: ConfigView { input_device: d, ..s.cfg }, ..s },
            seq![ActionView::UseInputDevice(d), ActionView::SaveConfig],
        ),
{
}

/// Turning launch at login on or off, when it is not already so, brings the
/// login entry in line and saves the setting; nothing else changes.
pub proof fn law_new_autostart_is_synced_and_saved(s: WorkerView, b: bool, now: u64)
    requires
        s.phase == PhaseView::Ready,
        b != s.cfg.autostart,
    ensures
        worker_step(s, WorkerEventView::Control(ControlEventView::SetAutostart(b)), now) == (
            WorkerView { cfg: ConfigView { autostart: b, ..s.cfg }, ..s },
            seq![ActionView::SyncAutostart(b), ActionView::SaveConfig],
        ),
{
}

} // verus!
