//! The hi-res microphone: whether an app is capturing from it, the microphone
//! test, and how often the view needs a `MicInput::Tick`.
//!
//! The recorder and the player live in the app, which runs their threads.
//! The model only holds the phase of the test and what the last tick read
//! from them, and decides what the app does with them next.

use crate::address_map::AddressMap;
use crate::audio::mic_test::{max_recording, skip, MAX_RECORDING_SECS, SKIP_SECS};
use crate::text::{decimal_text, joined, joined3};
use crate::time::{Duration, NANOS_PER_MILLI, NANOS_PER_SEC};
use crate::ui::format::mmss;
use crate::ui::gtk::model::{
    add_effect, add_effects, no_effects, one_effect, two_effects, AirPodsView,
    Effect, EffectView, Model, ModelView, WindowSettings,
};
use vstd::prelude::*;

verus! {

/// Tick rate while something on screen moves: the recording timer, the
/// playback position or the level meter. In milliseconds.
pub const MIC_TICK_MILLIS: u64 = 50;

/// Tick rate while only watching for an app to open the hi-res microphone.
/// Nothing reports that, so it is polled slowly to bring up the level meter.
/// In milliseconds.
pub const MIC_WATCH_MILLIS: u64 = 1000;

/// Tick rate while something on screen moves.
pub fn mic_tick_rate() -> (d: Duration)
    ensures
        d@ == MIC_TICK_MILLIS * NANOS_PER_MILLI,
{
    Duration::from_millis(MIC_TICK_MILLIS)
}

/// Tick rate while only watching.
pub fn mic_watch_rate() -> (d: Duration)
    ensures
        d@ == MIC_WATCH_MILLIS * NANOS_PER_MILLI,
{
    Duration::from_millis(MIC_WATCH_MILLIS)
}

/// A user action on the microphone, or the result of work on it.
#[derive(Debug)]
pub enum MicInput {
    /// The hi-res microphone switch on the page of the AirPods at the address.
    SetHiRes(String, bool),
    Record,
    Stop,
    Play,
    Pause,
    Skip { forward: bool },
    Seek(Duration),
    Done,
    /// The media players that were playing were paused; these are the ones
    /// to resume when the test ends.
    MediaPaused(Vec<String>),
    /// The recorder stopped. `take` is the one `MicEffect::StopRecording`
    /// carried.
    Recorded { take: u64, result: Result<Recording, String> },
    /// What the app read from the devices, the recorder and the player.
    Tick(MicSample),
}

/// Work for the app on the microphone.
#[derive(Debug, Clone, PartialEq)]
pub enum MicEffect {
    SetHiRes { mac: String, enabled: bool },
    /// Pause the playing media players off the GTK thread and come back with
    /// `MicInput::MediaPaused`.
    PauseMedia,
    ResumeMedia(Vec<String>),
    /// Drop the player and start the recorder.
    StartRecording,
    /// Stop the recorder off the GTK thread and come back with
    /// `MicInput::Recorded` carrying `take`.
    StopRecording { take: u64 },
    /// Stop the recorder, if one runs, throwing its recording away, and drop
    /// the player.
    Release,
    /// Build the player for this recording, then send a tick so its length
    /// shows at once.
    LoadPlayer(Recording),
    Player(PlayerCommand),
}

/// A command for the player.
#[derive(Debug, Clone, Copy, PartialEq)]
pub enum PlayerCommand {
    Play,
    Pause,
    Seek(Duration),
}

/// The mathematical content of a `PlayerCommand`.
#[verifier::ext_equal]
pub enum PlayerCommandView {
    Play,
    Pause,
    Seek(nat),
}

impl View for PlayerCommand {
    type V = PlayerCommandView;

    open spec fn view(&self) -> PlayerCommandView {
        match *self {
            PlayerCommand::Play => PlayerCommandView::Play,
            PlayerCommand::Pause => PlayerCommandView::Pause,
            PlayerCommand::Seek(to) => PlayerCommandView::Seek(to@),
        }
    }
}

/// The mathematical content of a `MicEffect`.
#[verifier::ext_equal]
pub enum MicEffectView {
    SetHiRes { mac: Seq<char>, enabled: bool },
    PauseMedia,
    ResumeMedia(Seq<Seq<char>>),
    StartRecording,
    StopRecording { take: u64 },
    Release,
    LoadPlayer(Seq<u8>),
    Player(PlayerCommandView),
}

impl View for MicEffect {
    type V = MicEffectView;

    open spec fn view(&self) -> MicEffectView {
        match *self {
            MicEffect::SetHiRes { mac, enabled } => MicEffectView::SetHiRes { mac: mac@, enabled },
            MicEffect::PauseMedia => MicEffectView::PauseMedia,
            MicEffect::ResumeMedia(players) => MicEffectView::ResumeMedia(
                crate::text::texts(players@),
            ),
            MicEffect::StartRecording => MicEffectView::StartRecording,
            MicEffect::StopRecording { take } => MicEffectView::StopRecording { take },
            MicEffect::Release => MicEffectView::Release,
            MicEffect::LoadPlayer(recording) => MicEffectView::LoadPlayer(recording.0@),
            MicEffect::Player(command) => MicEffectView::Player(command@),
        }
    }
}

/// PCM from the recorder, up to about 38 MB.
#[derive(Debug, Clone, PartialEq)]
pub struct Recording(pub Vec<u8>);

impl Recording {
    /// What a log says of the recording: its size, since inputs and effects
    /// are logged.
    pub fn debug_text(&self) -> (text: String)
        ensures
            text@ == "Recording("@ + crate::text::decimal(self.0@.len()) + " bytes)"@,
    {
        joined3("Recording(", decimal_text(self.0.len() as u64).as_str(), " bytes)")
    }
}

/// What the app read from the devices, the recorder and the player.
#[derive(Debug, Clone)]
pub struct MicSample {
    /// Capture state per connected AirPods, None when the device list could
    /// not be read without waiting; the last known state is kept then.
    pub capture: Option<Vec<(String, MicCapture)>>,
    pub recorder: Option<RecorderSample>,
    pub player: Option<PlayerSample>,
}

impl Default for MicSample {
    /// Nothing was read.
    fn default() -> (sample: MicSample)
        ensures
            sample.capture is None,
            sample.recorder is None,
            sample.player is None,
    {
        MicSample { capture: None, recorder: None, player: None }
    }
}

/// Whether an app records from the hi-res microphone of one device.
#[derive(Debug, Clone, PartialEq)]
pub struct MicCapture {
    pub active: bool,
    /// Input level from 0 to 1, as the bits of a single precision number.
    pub level: u32,
    pub app: Option<String>,
}

/// The mathematical content of a `MicCapture`.
#[verifier::ext_equal]
pub struct MicCaptureView {
    pub active: bool,
    pub level: u32,
    pub app: Option<Seq<char>>,
}

impl View for MicCapture {
    type V = MicCaptureView;

    open spec fn view(&self) -> MicCaptureView {
        MicCaptureView {
            active: self.active,
            level: self.level,
            app: match self.app {
                Some(app) => Some(app@),
                None => None,
            },
        }
    }
}

impl MicCapture {
    /// The line above the level meter.
    pub fn title(&self) -> (title: String)
        ensures
            title@ == (match self@.app {
                Some(app) => "In use by "@ + app,
                None => "Input level"@,
            }),
    {
        match &self.app {
            Some(app) => joined("In use by ", app.as_str()),
            None => "Input level".to_string(),
        }
    }
}

/// The bits of the single precision numbers 0, negative 0 and 1.
pub const LEVEL_ZERO: u32 = 0;

pub const LEVEL_NEGATIVE_ZERO: u32 = 0x8000_0000;

pub const LEVEL_ONE: u32 = 0x3F80_0000;

/// Whether the bits of a single precision number stand for a finite one: not
/// all bits of its exponent are set.
pub open spec fn finite_level(level: u32) -> bool {
    level / 0x80_0000 % 256 != 255
}

/// A level between 0 and 1: a number below is raised to 0, one above is
/// lowered to 1, and what is no finite number counts as 0. Positive numbers
/// are ordered as their bits are; negative ones have the highest bit set.
pub open spec fn clean_level(level: u32) -> u32 {
    if !finite_level(level) || level > LEVEL_NEGATIVE_ZERO {
        LEVEL_ZERO
    } else if level > LEVEL_ONE && level != LEVEL_NEGATIVE_ZERO {
        LEVEL_ONE
    } else {
        level
    }
}

/// A level between 0 and 1.
pub fn cleaned_level(level: u32) -> (clean: u32)
    ensures
        clean == clean_level(level),
{
    if level / 0x80_0000 % 256 == 255 || level > LEVEL_NEGATIVE_ZERO {
        LEVEL_ZERO
    } else if level > LEVEL_ONE && level != LEVEL_NEGATIVE_ZERO {
        LEVEL_ONE
    } else {
        level
    }
}

/// What the recorder says.
#[derive(Debug, Clone, Copy, PartialEq)]
pub struct RecorderSample {
    pub elapsed: Duration,
    /// The recorder stopped by itself: it reached the longest recording or
    /// failed.
    pub finished: bool,
}

/// What the player says.
#[derive(Debug, Clone, PartialEq)]
pub struct PlayerSample {
    pub position: Duration,
    pub duration: Duration,
    pub playing: bool,
    pub error: Option<String>,
}

/// The phase of the microphone test.
#[derive(Debug, Clone, PartialEq)]
pub enum MicTest {
    Idle,
    /// Waiting for the playing media to pause before recording.
    Starting,
    Recording { elapsed: Duration },
    /// The recorder was told to stop and its thread is being joined.
    Stopping,
    Ready(Playback),
    Failed(String),
}

/// The mathematical content of a `MicTest`.
#[verifier::ext_equal]
pub enum MicPhase {
    Idle,
    Starting,
    Recording { elapsed: nat },
    Stopping,
    Ready(PlaybackState),
    Failed(Seq<char>),
}

impl View for MicTest {
    type V = MicPhase;

    open spec fn view(&self) -> MicPhase {
        match *self {
            MicTest::Idle => MicPhase::Idle,
            MicTest::Starting => MicPhase::Starting,
            MicTest::Recording { elapsed } => MicPhase::Recording { elapsed: elapsed@ },
            MicTest::Stopping => MicPhase::Stopping,
            MicTest::Ready(playback) => MicPhase::Ready(playback@),
            MicTest::Failed(e) => MicPhase::Failed(e@),
        }
    }
}

impl MicPhase {
    /// A test is under way and the media players stay paused.
    pub open spec fn running(self) -> bool {
        self is Starting || self is Recording || self is Stopping || self is Ready
    }
}

impl MicTest {
    /// A test is under way and the media players stay paused.
    pub fn is_running(&self) -> (yes: bool)
        ensures
            yes == self@.running(),
    {
        match self {
            MicTest::Starting | MicTest::Recording { .. } | MicTest::Stopping | MicTest::Ready(
                _,
            ) => true,
            MicTest::Idle | MicTest::Failed(_) => false,
        }
    }

    /// The recorder runs.
    pub fn is_recording(&self) -> (yes: bool)
        ensures
            yes == (self@ is Recording),
    {
        match self {
            MicTest::Recording { .. } => true,
            _ => false,
        }
    }

    /// A take is ready to be played.
    pub fn is_ready(&self) -> (yes: bool)
        ensures
            yes == (self@ is Ready),
    {
        match self {
            MicTest::Ready(_) => true,
            _ => false,
        }
    }
}

/// The player of a finished recording, as of the last tick.
#[derive(Debug, Clone, PartialEq)]
pub struct Playback {
    pub position: Duration,
    pub duration: Duration,
    pub playing: bool,
    /// Play was pressed and the player has not started yet. It waits for the
    /// sound server after a recording, so this keeps the ticks coming.
    pub play_requested: bool,
    pub error: Option<String>,
}

/// The mathematical content of a `Playback`.
#[verifier::ext_equal]
pub struct PlaybackState {
    pub position: nat,
    pub duration: nat,
    pub playing: bool,
    pub play_requested: bool,
    pub error: Option<Seq<char>>,
}

/// The view of a text that may be missing.
pub open spec fn optional_text(text: Option<String>) -> Option<Seq<char>> {
    match text {
        Some(t) => Some(t@),
        None => None,
    }
}

impl View for Playback {
    type V = PlaybackState;

    open spec fn view(&self) -> PlaybackState {
        PlaybackState {
            position: self.position@,
            duration: self.duration@,
            playing: self.playing,
            play_requested: self.play_requested,
            error: optional_text(self.error),
        }
    }
}

/// A player that nothing is known of yet.
pub open spec fn fresh_playback() -> PlaybackState {
    PlaybackState { position: 0, duration: 0, playing: false, play_requested: false, error: None }
}

impl Default for Playback {
    /// A player that nothing is known of yet.
    fn default() -> (playback: Playback)
        ensures
            playback@ == fresh_playback(),
    {
        Playback {
            position: Duration::zero(),
            duration: Duration::zero(),
            playing: false,
            play_requested: false,
            error: None,
        }
    }
}

/// What the microphone test rows show.
#[derive(Debug, Clone, PartialEq)]
pub struct MicTestView {
    pub status: String,
    /// Label of the record button, None to hide it.
    pub record: Option<&'static str>,
    pub stop: bool,
    /// The player controls and the Done button, shown once a take is ready.
    pub playback: Option<PlaybackView>,
}

/// What the player rows show.
#[derive(Debug, Clone, PartialEq)]
pub struct PlaybackView {
    pub position: Duration,
    pub duration: Duration,
    /// "0:03 / 0:10"
    pub label: String,
    /// Show Pause instead of Play.
    pub playing: bool,
    /// Label of the skip buttons, "-5s" and "+5s".
    pub back: String,
    pub forward: String,
}

/// The mathematical content of a `PlaybackView`.
#[verifier::ext_equal]
pub struct PlaybackShown {
    pub position: nat,
    pub duration: nat,
    pub label: Seq<char>,
    pub playing: bool,
    pub back: Seq<char>,
    pub forward: Seq<char>,
}

impl View for PlaybackView {
    type V = PlaybackShown;

    open spec fn view(&self) -> PlaybackShown {
        PlaybackShown {
            position: self.position@,
            duration: self.duration@,
            label: self.label@,
            playing: self.playing,
            back: self.back@,
            forward: self.forward@,
        }
    }
}

/// The mathematical content of a `MicTestView`.
#[verifier::ext_equal]
pub struct MicTestShown {
    pub status: Seq<char>,
    pub record: Option<Seq<char>>,
    pub stop: bool,
    pub playback: Option<PlaybackShown>,
}

impl View for MicTestView {
    type V = MicTestShown;

    open spec fn view(&self) -> MicTestShown {
        MicTestShown {
            status: self.status@,
            record: match self.record {
                Some(label) => Some(label@),
                None => None,
            },
            stop: self.stop,
            playback: match self.playback {
                Some(playback) => Some(playback@),
                None => None,
            },
        }
    }
}

/// Shown before a test.
pub const TEST_HINT: &'static str =
    "Record yourself, then play it back to hear what apps receive. Music is paused until you press Done.";

/// Shown with a finished take.
pub const READY_HINT: &'static str = "Music stays paused until you press Done.";

/// A duration as minutes and seconds.
pub open spec fn clock(nanos: nat) -> Seq<char> {
    crate::ui::format::minutes_seconds(nanos / (NANOS_PER_SEC as nat))
}

/// Rows with a status only.
pub open spec fn status_rows(status: Seq<char>) -> MicTestShown {
    MicTestShown { status, record: None, stop: false, playback: None }
}

/// What the rows of a finished take show.
pub open spec fn playback_rows(playback: PlaybackState) -> PlaybackShown {
    let position = crate::time::shorter(playback.position, playback.duration);
    PlaybackShown {
        position,
        duration: playback.duration,
        label: clock(position) + " / "@ + clock(playback.duration),
        playing: playback.playing || playback.play_requested,
        back: "-"@ + crate::text::decimal(SKIP_SECS as nat) + "s"@,
        forward: "+"@ + crate::text::decimal(SKIP_SECS as nat) + "s"@,
    }
}

/// What the microphone test rows show in a phase.
pub open spec fn test_rows(phase: MicPhase) -> MicTestShown {
    match phase {
        MicPhase::Idle => MicTestShown { record: Some("Record"@), ..status_rows(TEST_HINT@) },
        MicPhase::Failed(e) => MicTestShown { record: Some("Record"@), ..status_rows(e) },
        MicPhase::Starting => status_rows("Pausing media…"@),
        MicPhase::Recording { elapsed } => MicTestShown {
            stop: true,
            ..status_rows(
                "Recording "@ + clock(elapsed) + " (max "@ + clock(
                    (MAX_RECORDING_SECS * NANOS_PER_SEC) as nat,
                ) + ")"@,
            )
        },
        MicPhase::Stopping => status_rows("Finishing the recording…"@),
        MicPhase::Ready(playback) => MicTestShown {
            record: Some("Record Again"@),
            playback: Some(playback_rows(playback)),
            ..status_rows(
                match playback.error {
                    Some(e) => e,
                    None => READY_HINT@,
                },
            )
        },
    }
}

fn only_status(status: String) -> (rows: MicTestView)
    ensures
        rows@ == status_rows(status@),
{
    MicTestView { status, record: None, stop: false, playback: None }
}

impl MicTest {
    /// What the microphone test rows show.
    pub fn rows(&self) -> (rows: MicTestView)
        ensures
            rows@ == test_rows(self@),
    {
        match self {
            MicTest::Idle => MicTestView {
                status: TEST_HINT.to_string(),
                record: Some("Record"),
                stop: false,
                playback: None,
            },
            MicTest::Failed(e) => MicTestView {
                status: e.clone(),
                record: Some("Record"),
                stop: false,
                playback: None,
            },
            MicTest::Starting => only_status("Pausing media…".to_string()),
            MicTest::Recording { elapsed } => {
                let timer = joined3("Recording ", mmss(*elapsed).as_str(), " (max ");
                MicTestView {
                    status: joined3(timer.as_str(), mmss(max_recording()).as_str(), ")"),
                    record: None,
                    stop: true,
                    playback: None,
                }
            },
            MicTest::Stopping => only_status("Finishing the recording…".to_string()),
            MicTest::Ready(playback) => {
                let position = playback.position.min(playback.duration);
                let step = decimal_text(SKIP_SECS);
                let status = match &playback.error {
                    Some(e) => e.clone(),
                    None => READY_HINT.to_string(),
                };
                MicTestView {
                    status,
                    record: Some("Record Again"),
                    stop: false,
                    playback: Some(
                        PlaybackView {
                            position,
                            duration: playback.duration,
                            label: joined3(
                                mmss(position).as_str(),
                                " / ",
                                mmss(playback.duration).as_str(),
                            ),
                            playing: playback.playing || playback.play_requested,
                            back: joined3("-", step.as_str(), "s"),
                            forward: joined3("+", step.as_str(), "s"),
                        },
                    ),
                }
            },
        }
    }
}

/// The microphone part of the model.
pub struct MicState {
    pub test: MicTest,
    /// Media players paused for the test, resumed when it ends.
    pub paused: Vec<String>,
    /// Bumped on every recorder stop and whenever the test ends, so a stop
    /// result that arrives late is dropped instead of reviving the test.
    pub take: u64,
    /// Capture state per connected AirPods, from the last tick.
    pub capture: AddressMap<MicCapture>,
    /// Ticks for the level meter and the player only matter while the
    /// window shows.
    pub window_visible: bool,
}

/// The mathematical content of a `MicState`.
#[verifier::ext_equal]
pub struct MicStateView {
    pub test: MicPhase,
    pub paused: Seq<Seq<char>>,
    pub take: u64,
    pub capture: Map<Seq<char>, MicCaptureView>,
    pub window_visible: bool,
}

impl View for MicState {
    type V = MicStateView;

    open spec fn view(&self) -> MicStateView {
        MicStateView {
            test: self.test@,
            paused: crate::text::texts(self.paused@),
            take: self.take,
            capture: self.capture@,
            window_visible: self.window_visible,
        }
    }
}

/// No test, no capture, and the window hidden.
pub open spec fn fresh_mic() -> MicStateView {
    MicStateView {
        test: MicPhase::Idle,
        paused: Seq::empty(),
        take: 0,
        capture: Map::empty(),
        window_visible: false,
    }
}

impl Default for MicState {
    fn default() -> (mic: MicState)
        ensures
            mic.capture.wf(),
            mic@ == fresh_mic(),
    {
        MicState {
            test: MicTest::Idle,
            paused: Vec::new(),
            take: 0,
            capture: AddressMap::new(),
            window_visible: false,
        }
    }
}

/// The effect of work on the microphone.
pub open spec fn mic_effect(effect: MicEffectView) -> EffectView {
    EffectView::Microphone(effect)
}

/// Resuming some players; nothing to do where none were paused.
pub open spec fn resume_effects(players: Seq<Seq<char>>) -> Seq<EffectView> {
    if players.len() == 0 {
        crate::ui::gtk::model::nothing_to_do()
    } else {
        seq![mic_effect(MicEffectView::ResumeMedia(players))]
    }
}

/// The captures of connected AirPods among those read, the last one of each,
/// with clean levels.
pub open spec fn captures(
    read: Seq<(String, MicCapture)>,
    airpods: Set<Seq<char>>,
) -> Map<Seq<char>, MicCaptureView>
    decreases read.len(),
{
    if read.len() == 0 {
        Map::empty()
    } else {
        let earlier = captures(read.drop_last(), airpods);
        let (mac, capture) = read.last();
        if airpods.contains(mac@) {
            earlier.insert(
                mac@,
                MicCaptureView { level: clean_level(capture.level), ..capture@ },
            )
        } else {
            earlier
        }
    }
}

/// The player's state after what it said last.
pub open spec fn ticked_playback(playback: PlaybackState, player: PlayerSample) -> PlaybackState {
    PlaybackState {
        position: crate::time::shorter(player.position@, player.duration@),
        duration: player.duration@,
        playing: player.playing,
        play_requested: playback.play_requested && !player.playing && player.error is None,
        error: optional_text(player.error),
    }
}

impl ModelView {
    /// The model with another state of the microphone.
    pub open spec fn with_mic(self, mic: MicStateView) -> ModelView {
        ModelView { mic, ..self }
    }

    /// The model with the test in another phase.
    pub open spec fn in_phase(self, test: MicPhase) -> ModelView {
        self.with_mic(MicStateView { test, ..self.mic })
    }

    /// The model after the test ended, from whatever phase.
    pub open spec fn mic_ended(self) -> ModelView {
        self.with_mic(
            MicStateView {
                test: MicPhase::Idle,
                paused: Seq::empty(),
                take: (self.mic.take + 1) as u64,
                ..self.mic
            },
        )
    }

    /// What ends the test: release the recorder or the player that is there,
    /// and resume the players that were paused.
    pub open spec fn mic_end_effects(self) -> Seq<EffectView> {
        (if self.mic.test is Recording || self.mic.test is Ready {
            seq![mic_effect(MicEffectView::Release)]
        } else {
            crate::ui::gtk::model::nothing_to_do()
        }) + resume_effects(self.mic.paused)
    }

    /// Whether Record does anything.
    pub open spec fn can_record(self) -> bool {
        &&& self.settings.hires_mic_enabled
        &&& self.airpods != Map::<Seq<char>, AirPodsView>::empty()
        &&& !(self.mic.test is Starting)
        &&& !(self.mic.test is Recording)
        &&& !(self.mic.test is Stopping)
    }

    /// The model after a stop of the recorder.
    pub open spec fn recorder_stopped(self) -> ModelView {
        if self.mic.test is Recording {
            self.with_mic(
                MicStateView {
                    test: MicPhase::Stopping,
                    take: (self.mic.take + 1) as u64,
                    ..self.mic
                },
            )
        } else {
            self
        }
    }

    /// What stops the recorder.
    pub open spec fn recorder_stop_effects(self) -> Seq<EffectView> {
        if self.mic.test is Recording {
            seq![mic_effect(MicEffectView::StopRecording { take: (self.mic.take + 1) as u64 })]
        } else {
            crate::ui::gtk::model::nothing_to_do()
        }
    }

    /// Where a skip moves the player.
    pub open spec fn skipped(self, playback: PlaybackState, forward: bool) -> nat {
        let step = (SKIP_SECS * NANOS_PER_SEC) as nat;
        if forward {
            crate::time::shorter(
                crate::time::sum_up_to_longest(playback.position, step),
                playback.duration,
            )
        } else {
            crate::time::difference_down_to_zero(playback.position, step)
        }
    }

    /// The model after a tick's captures.
    pub open spec fn with_captures(self, read: Option<Vec<(String, MicCapture)>>) -> ModelView {
        match read {
            Some(list) => self.with_mic(
                MicStateView { capture: captures(list@, self.airpods.dom()), ..self.mic },
            ),
            None => self,
        }
    }

    /// The model after a tick's reading of the recorder and the player.
    pub open spec fn with_reading(
        self,
        recorder: Option<RecorderSample>,
        player: Option<PlayerSample>,
    ) -> ModelView {
        match (self.mic.test, recorder, player) {
            (MicPhase::Recording { elapsed }, Some(r), _) => {
                let timed = self.in_phase(MicPhase::Recording { elapsed: r.elapsed@ });
                if r.finished {
                    timed.recorder_stopped()
                } else {
                    timed
                }
            },
            (MicPhase::Ready(p), _, Some(said)) => self.in_phase(
                MicPhase::Ready(ticked_playback(p, said)),
            ),
            _ => self,
        }
    }

    /// The model after an input of the microphone.
    pub open spec fn heard(self, input: MicInput) -> ModelView {
        match input {
            MicInput::SetHiRes(mac, enabled) => if !self.airpods.contains_key(mac@) {
                self
            } else {
                let switched = ModelView {
                    settings: WindowSettings { hires_mic_enabled: enabled, ..self.settings },
                    ..self
                };
                if enabled {
                    switched
                } else {
                    switched.mic_ended()
                }
            },
            MicInput::Record => if !self.can_record() {
                self
            } else if self.mic.paused.len() > 0 {
                self.in_phase(MicPhase::Recording { elapsed: 0 })
            } else {
                self.in_phase(MicPhase::Starting)
            },
            MicInput::Stop => self.recorder_stopped(),
            MicInput::Play => match self.mic.test {
                MicPhase::Ready(p) => self.in_phase(
                    MicPhase::Ready(PlaybackState { play_requested: true, ..p }),
                ),
                _ => self,
            },
            MicInput::Pause => match self.mic.test {
                MicPhase::Ready(p) => self.in_phase(
                    MicPhase::Ready(
                        PlaybackState { playing: false, play_requested: false, ..p },
                    ),
                ),
                _ => self,
            },
            MicInput::Skip { forward } => match self.mic.test {
                MicPhase::Ready(p) => self.in_phase(
                    MicPhase::Ready(PlaybackState { position: self.skipped(p, forward), ..p }),
                ),
                _ => self,
            },
            MicInput::Seek(to) => match self.mic.test {
                MicPhase::Ready(p) => self.in_phase(
                    MicPhase::Ready(
                        PlaybackState { position: crate::time::shorter(to@, p.duration), ..p },
                    ),
                ),
                _ => self,
            },
            MicInput::Done => self.mic_ended(),
            MicInput::MediaPaused(players) => if self.mic.test is Starting {
                self.with_mic(
                    MicStateView {
                        test: MicPhase::Recording { elapsed: 0 },
                        paused: crate::text::texts(players@),
                        ..self.mic
                    },
                )
            } else if self.mic.test.running() {
                self.with_mic(
                    MicStateView {
                        paused: self.mic.paused + crate::text::texts(players@),
                        ..self.mic
                    },
                )
            } else {
                self
            },
            MicInput::Recorded { take, result } => if take != self.mic.take || !(
            self.mic.test is Stopping) {
                self
            } else {
                match result {
                    Ok(_) => self.in_phase(MicPhase::Ready(fresh_playback())),
                    Err(e) => self.with_mic(
                        MicStateView {
                            test: MicPhase::Failed(e@),
                            paused: Seq::empty(),
                            ..self.mic
                        },
                    ),
                }
            },
            MicInput::Tick(sample) => self.with_captures(sample.capture).with_reading(
                sample.recorder,
                sample.player,
            ),
        }
    }

    /// What to do after an input of the microphone.
    pub open spec fn heard_effects(self, input: MicInput) -> Seq<EffectView> {
        match input {
            MicInput::SetHiRes(mac, enabled) => if !self.airpods.contains_key(mac@) {
                crate::ui::gtk::model::nothing_to_do()
            } else {
                seq![
                    mic_effect(MicEffectView::SetHiRes { mac: mac@, enabled }),
                    EffectView::SaveSettings,
                ] + if enabled {
                    crate::ui::gtk::model::nothing_to_do()
                } else {
                    self.mic_end_effects()
                }
            },
            MicInput::Record => if !self.can_record() {
                crate::ui::gtk::model::nothing_to_do()
            } else if self.mic.paused.len() > 0 {
                seq![mic_effect(MicEffectView::StartRecording)]
            } else if self.mic.test is Ready {
                seq![mic_effect(MicEffectView::Release), mic_effect(MicEffectView::PauseMedia)]
            } else {
                seq![mic_effect(MicEffectView::PauseMedia)]
            },
            MicInput::Stop => self.recorder_stop_effects(),
            MicInput::Play => if self.mic.test is Ready {
                seq![mic_effect(MicEffectView::Player(PlayerCommandView::Play))]
            } else {
                crate::ui::gtk::model::nothing_to_do()
            },
            MicInput::Pause => if self.mic.test is Ready {
                seq![mic_effect(MicEffectView::Player(PlayerCommandView::Pause))]
            } else {
                crate::ui::gtk::model::nothing_to_do()
            },
            MicInput::Skip { forward } => match self.mic.test {
                MicPhase::Ready(p) => seq![
                    mic_effect(
                        MicEffectView::Player(PlayerCommandView::Seek(self.skipped(p, forward))),
                    ),
                ],
                _ => crate::ui::gtk::model::nothing_to_do(),
            },
            MicInput::Seek(to) => match self.mic.test {
                MicPhase::Ready(p) => if crate::time::shorter(to@, p.duration) == p.position {
                    crate::ui::gtk::model::nothing_to_do()
                } else {
                    seq![
                        mic_effect(
                            MicEffectView::Player(
                                PlayerCommandView::Seek(crate::time::shorter(to@, p.duration)),
                            ),
                        ),
                    ]
                },
                _ => crate::ui::gtk::model::nothing_to_do(),
            },
            MicInput::Done => self.mic_end_effects(),
            MicInput::MediaPaused(players) => if self.mic.test is Starting {
                seq![mic_effect(MicEffectView::StartRecording)]
            } else if self.mic.test.running() {
                crate::ui::gtk::model::nothing_to_do()
            } else {
                resume_effects(crate::text::texts(players@))
            },
            MicInput::Recorded { take, result } => if take != self.mic.take || !(
            self.mic.test is Stopping) {
                crate::ui::gtk::model::nothing_to_do()
            } else {
                match result {
                    Ok(recording) => seq![mic_effect(MicEffectView::LoadPlayer(recording.0@))],
                    Err(e) => resume_effects(self.mic.paused),
                }
            },
            MicInput::Tick(sample) => if self.mic.test is Recording && (
            sample.recorder matches Some(recorder) && recorder.finished) {
                self.recorder_stop_effects()
            } else {
                crate::ui::gtk::model::nothing_to_do()
            },
        }
    }

    /// The model after the AirPods at `mac` went away, as far as the
    /// microphone goes.
    pub open spec fn mic_lost(self, mac: Seq<char>, was_airpods: bool) -> ModelView {
        let quiet = self.with_mic(
            MicStateView { capture: self.mic.capture.remove(mac), ..self.mic },
        );
        if was_airpods {
            quiet.mic_ended()
        } else {
            quiet
        }
    }

    /// Whether an app captures from the AirPods at `mac`.
    pub open spec fn capturing(self, mac: Seq<char>) -> bool {
        self.mic.capture.contains_key(mac) && self.mic.capture[mac].active
    }

    /// Whether the conversation awareness switch is locked.
    pub open spec fn awareness_locked(self, mac: Seq<char>) -> bool {
        self.settings.hires_mic_pause_convo && self.capturing(mac)
    }

    /// Whether an app captures from any connected AirPods.
    pub open spec fn any_capturing(self) -> bool {
        exists|mac: Seq<char>| #[trigger] self.airpods.contains_key(mac) && self.capturing(mac)
    }

    /// How often the app should send `MicInput::Tick`.
    pub open spec fn tick_rate(self) -> Option<nat> {
        let fast = Some((MIC_TICK_MILLIS * NANOS_PER_MILLI) as nat);
        let slow = Some((MIC_WATCH_MILLIS * NANOS_PER_MILLI) as nat);
        if self.mic.test is Recording {
            fast
        } else if !self.mic.window_visible {
            None
        } else if (self.mic.test matches MicPhase::Ready(p) && (p.playing || p.play_requested))
            || self.any_capturing() {
            fast
        } else if self.settings.hires_mic_enabled && self.airpods != Map::<
            Seq<char>,
            AirPodsView,
        >::empty() {
            slow
        } else {
            None
        }
    }
}

fn resume(players: Vec<String>) -> (effects: Vec<Effect>)
    ensures
        crate::ui::gtk::model::effects_view(effects@) == resume_effects(
            crate::text::texts(players@),
        ),
{
    if players.len() == 0 {
        no_effects()
    } else {
        one_effect(Effect::Microphone(MicEffect::ResumeMedia(players)))
    }
}

impl Model {
    /// Takes an input of the microphone.
    pub(crate) fn microphone(&mut self, input: MicInput) -> (effects: Vec<Effect>)
        requires
            old(self).parts_wf(),
            old(self)@.mic.take < u64::MAX,
        ensures
            final(self).parts_wf(),
            final(self)@ == old(self)@.heard(input),
            crate::ui::gtk::model::effects_view(effects@) == old(self)@.heard_effects(input),
    {
        match input {
            MicInput::SetHiRes(mac, enabled) => self.set_hires_mic(mac, enabled),
            MicInput::Record => self.record(),
            MicInput::Stop => self.stop_recording(),
            MicInput::Play => {
                match &mut self.mic.test {
                    MicTest::Ready(playback) => {
                        playback.play_requested = true;
                    },
                    _ => {
                        return no_effects();
                    },
                }
                one_effect(Effect::Microphone(MicEffect::Player(PlayerCommand::Play)))
            },
            MicInput::Pause => {
                match &mut self.mic.test {
                    MicTest::Ready(playback) => {
                        playback.playing = false;
                        playback.play_requested = false;
                    },
                    _ => {
                        return no_effects();
                    },
                }
                one_effect(Effect::Microphone(MicEffect::Player(PlayerCommand::Pause)))
            },
            MicInput::Skip { forward } => {
                let to = match &self.mic.test {
                    MicTest::Ready(playback) => if forward {
                        playback.position.saturating_add(skip()).min(playback.duration)
                    } else {
                        playback.position.saturating_sub(skip())
                    },
                    _ => {
                        return no_effects();
                    },
                };
                self.move_player(to);
                one_effect(Effect::Microphone(MicEffect::Player(PlayerCommand::Seek(to))))
            },
            MicInput::Seek(to) => {
                let (to, settled) = match &self.mic.test {
                    MicTest::Ready(playback) => {
                        let to = to.min(playback.duration);
                        // An unchanged position is the scale settling, not a seek.
                        (to, to.is(playback.position))
                    },
                    _ => {
                        return no_effects();
                    },
                };
                if settled {
                    return no_effects();
                }
                self.move_player(to);
                one_effect(Effect::Microphone(MicEffect::Player(PlayerCommand::Seek(to))))
            },
            MicInput::Done => self.end_mic_test(),
            MicInput::MediaPaused(players) => self.media_paused(players),
            MicInput::Recorded { take, result } => self.recorded(take, result),
            MicInput::Tick(sample) => self.mic_tick_sample(sample),
        }
    }

    fn move_player(&mut self, to: Duration)
        requires
            old(self).parts_wf(),
            old(self)@.mic.test is Ready,
        ensures
            final(self).parts_wf(),
            final(self)@ == old(self)@.in_phase(
                MicPhase::Ready(PlaybackState { position: to@, ..old(self)@.mic.test->Ready_0 }),
            ),
    {
        match &mut self.mic.test {
            MicTest::Ready(playback) => {
                playback.position = to;
            },
            _ => {},
        }
    }

    fn set_hires_mic(&mut self, mac: String, enabled: bool) -> (effects: Vec<Effect>)
        requires
            old(self).parts_wf(),
            old(self)@.mic.take < u64::MAX,
        ensures
            final(self).parts_wf(),
            final(self)@ == old(self)@.heard(MicInput::SetHiRes(mac, enabled)),
            crate::ui::gtk::model::effects_view(effects@) == old(self)@.heard_effects(
                MicInput::SetHiRes(mac, enabled),
            ),
    {
        if !self.airpods.contains_key(mac.as_str()) {
            return no_effects();
        }
        self.settings.hires_mic_enabled = enabled;
        let mut out = two_effects(
            Effect::Microphone(MicEffect::SetHiRes { mac, enabled }),
            Effect::SaveSettings,
        );
        // The test records from the hi-res source, which is going away.
        if !enabled {
            let end = self.end_mic_test();
            add_effects(&mut out, end);
        }
        proof {
            assert(crate::ui::gtk::model::effects_view(out@) =~= old(self)@.heard_effects(
                MicInput::SetHiRes(mac, enabled),
            ));
        }
        out
    }

    fn record(&mut self) -> (effects: Vec<Effect>)
        requires
            old(self).parts_wf(),
        ensures
            final(self).parts_wf(),
            final(self)@ == old(self)@.heard(MicInput::Record),
            crate::ui::gtk::model::effects_view(effects@) == old(self)@.heard_effects(
                MicInput::Record,
            ),
    {
        let busy = match &self.mic.test {
            MicTest::Starting | MicTest::Recording { .. } | MicTest::Stopping => true,
            _ => false,
        };
        if !self.settings.hires_mic_enabled || self.airpods.is_empty() || busy {
            return no_effects();
        }
        // Players already paused by an earlier take stay paused and listed.
        if self.mic.paused.len() > 0 {
            self.mic.test = MicTest::Recording { elapsed: Duration::zero() };
            return one_effect(Effect::Microphone(MicEffect::StartRecording));
        }
        // Music would play over the recording and the playback, so it is
        // paused for the whole test.
        let replaying = self.mic.test.is_ready();
        self.mic.test = MicTest::Starting;
        if replaying {
            two_effects(
                Effect::Microphone(MicEffect::Release),
                Effect::Microphone(MicEffect::PauseMedia),
            )
        } else {
            one_effect(Effect::Microphone(MicEffect::PauseMedia))
        }
    }

    fn media_paused(&mut self, players: Vec<String>) -> (effects: Vec<Effect>)
        requires
            old(self).parts_wf(),
        ensures
            final(self).parts_wf(),
            final(self)@ == old(self)@.heard(MicInput::MediaPaused(players)),
            crate::ui::gtk::model::effects_view(effects@) == old(self)@.heard_effects(
                MicInput::MediaPaused(players),
            ),
    {
        let starting = match &self.mic.test {
            MicTest::Starting => true,
            _ => false,
        };
        if starting {
            self.mic.paused = players;
            self.mic.test = MicTest::Recording { elapsed: Duration::zero() };
            one_effect(Effect::Microphone(MicEffect::StartRecording))
        } else if self.mic.test.is_running() {
            // A pause from a test that ended while a new one started.
            let mut players = players;
            let ghost added = players@;
            self.mic.paused.append(&mut players);
            proof {
                assert(crate::text::texts(self.mic.paused@) =~= old(self)@.mic.paused
                    + crate::text::texts(added));
            }
            no_effects()
        } else {
            // The test ended while the players were being paused.
            resume(players)
        }
    }

    fn stop_recording(&mut self) -> (effects: Vec<Effect>)
        requires
            old(self).parts_wf(),
            old(self)@.mic.take < u64::MAX,
        ensures
            final(self).parts_wf(),
            final(self)@ == old(self)@.recorder_stopped(),
            crate::ui::gtk::model::effects_view(effects@) == old(self)@.recorder_stop_effects(),
    {
        if !self.mic.test.is_recording() {
            return no_effects();
        }
        self.mic.test = MicTest::Stopping;
        self.mic.take = self.mic.take + 1;
        one_effect(Effect::Microphone(MicEffect::StopRecording { take: self.mic.take }))
    }

    fn recorded(&mut self, take: u64, result: Result<Recording, String>) -> (effects: Vec<Effect>)
        requires
            old(self).parts_wf(),
        ensures
            final(self).parts_wf(),
            final(self)@ == old(self)@.heard((MicInput::Recorded { take, result })),
            crate::ui::gtk::model::effects_view(effects@) == old(self)@.heard_effects(
                (MicInput::Recorded { take, result }),
            ),
    {
        let stopping = match &self.mic.test {
            MicTest::Stopping => true,
            _ => false,
        };
        if take != self.mic.take || !stopping {
            return no_effects();
        }
        match result {
            Ok(recording) => {
                self.mic.test = MicTest::Ready(Playback::default());
                one_effect(Effect::Microphone(MicEffect::LoadPlayer(recording)))
            },
            Err(e) => {
                // A failed test has no Done button, so the music comes back now.
                self.mic.test = MicTest::Failed(e);
                resume(self.take_paused())
            },
        }
    }

    fn take_paused(&mut self) -> (players: Vec<String>)
        requires
            old(self).parts_wf(),
        ensures
            final(self).parts_wf(),
            crate::text::texts(players@) == old(self)@.mic.paused,
            final(self)@ == old(self)@.with_mic(
                (MicStateView { paused: Seq::empty(), ..old(self)@.mic }),
            ),
    {
        let mut players: Vec<String> = Vec::new();
        core::mem::swap(&mut players, &mut self.mic.paused);
        proof {
            assert(self@.mic.paused =~= Seq::<Seq<char>>::empty());
        }
        players
    }

    fn keep_captures(&mut self, read: Vec<(String, MicCapture)>)
        requires
            old(self).parts_wf(),
        ensures
            final(self).parts_wf(),
            final(self)@ == old(self)@.with_captures(Some(read)),
    {
        let mut kept: AddressMap<MicCapture> = AddressMap::new();
        let mut i: usize = 0;
        proof {
            assert(read@.take(0) =~= Seq::<(String, MicCapture)>::empty());
        }
        while i < read.len()
            invariant
                i <= read@.len(),
                kept.wf(),
                self.parts_wf(),
                self@ == old(self)@,
                kept@ == captures(read@.take(i as int), self@.airpods.dom()),
            decreases read@.len() - i,
        {
            proof {
                let next = read@.take(i + 1);
                assert(next.drop_last() =~= read@.take(i as int));
                assert(next.last() == read@[i as int]);
            }
            if self.airpods.contains_key(read[i].0.as_str()) {
                let app = match &read[i].1.app {
                    Some(app) => Some(app.clone()),
                    None => None,
                };
                kept.insert(
                    read[i].0.clone(),
                    MicCapture {
                        active: read[i].1.active,
                        level: cleaned_level(read[i].1.level),
                        app,
                    },
                );
            }
            i = i + 1;
        }
        proof {
            assert(read@.take(i as int) =~= read@);
        }
        self.mic.capture = kept;
    }

    fn mic_tick_sample(&mut self, sample: MicSample) -> (effects: Vec<Effect>)
        requires
            old(self).parts_wf(),
            old(self)@.mic.take < u64::MAX,
        ensures
            final(self).parts_wf(),
            final(self)@ == old(self)@.heard(MicInput::Tick(sample)),
            crate::ui::gtk::model::effects_view(effects@) == old(self)@.heard_effects(
                MicInput::Tick(sample),
            ),
    {
        match sample.capture {
            Some(read) => {
                self.keep_captures(read);
            },
            None => {},
        }
        self.read_test(sample.recorder, sample.player)
    }

    fn read_test(&mut self, recorder: Option<RecorderSample>, player: Option<PlayerSample>) -> (
        effects: Vec<Effect>)
        requires
            old(self).parts_wf(),
            old(self)@.mic.take < u64::MAX,
        ensures
            final(self).parts_wf(),
            final(self)@ == old(self)@.with_reading(recorder, player),
            crate::ui::gtk::model::effects_view(effects@) == (if old(self)@.mic.test is Recording
                && (recorder matches Some(r) && r.finished) {
                old(self)@.recorder_stop_effects()
            } else {
                crate::ui::gtk::model::nothing_to_do()
            }),
    {
        if self.mic.test.is_recording() {
            match recorder {
                Some(recorder) => {
                    self.mic.test = MicTest::Recording { elapsed: recorder.elapsed };
                    if recorder.finished {
                        return self.stop_recording();
                    }
                },
                None => {},
            }
        } else {
            match player {
                Some(player) => {
                    self.read_player(player);
                },
                None => {},
            }
        }
        no_effects()
    }

    fn read_player(&mut self, player: PlayerSample)
        requires
            old(self).parts_wf(),
        ensures
            final(self).parts_wf(),
            final(self)@ == (match old(self)@.mic.test {
                MicPhase::Ready(p) => old(self)@.in_phase(
                    MicPhase::Ready(ticked_playback(p, player)),
                ),
                _ => old(self)@,
            }),
    {
        match &mut self.mic.test {
            MicTest::Ready(playback) => {
                if player.playing || player.error.is_some() {
                    playback.play_requested = false;
                }
                playback.position = player.position.min(player.duration);
                playback.duration = player.duration;
                playback.playing = player.playing;
                playback.error = player.error;
            },
            _ => {},
        }
    }

    /// End the test from any phase: stop the recorder, drop the player and
    /// resume the media players it paused.
    pub(crate) fn end_mic_test(&mut self) -> (effects: Vec<Effect>)
        requires
            old(self).parts_wf(),
            old(self)@.mic.take < u64::MAX,
        ensures
            final(self).parts_wf(),
            final(self)@ == old(self)@.mic_ended(),
            crate::ui::gtk::model::effects_view(effects@) == old(self)@.mic_end_effects(),
    {
        self.mic.take = self.mic.take + 1;
        let release = self.mic.test.is_recording() || self.mic.test.is_ready();
        self.mic.test = MicTest::Idle;
        let paused = self.take_paused();
        let mut out = no_effects();
        if release {
            add_effect(&mut out, Effect::Microphone(MicEffect::Release));
        }
        let back = resume(paused);
        add_effects(&mut out, back);
        proof {
            assert(crate::ui::gtk::model::effects_view(out@) =~= old(self)@.mic_end_effects());
        }
        out
    }

    /// The AirPods at `mac` went away. The test records from them, and its
    /// Done button goes away with them.
    pub(crate) fn mic_disconnected(&mut self, mac: &str, was_airpods: bool) -> (effects: Vec<
        Effect,
    >)
        requires
            old(self).parts_wf(),
            old(self)@.mic.take < u64::MAX,
        ensures
            final(self).parts_wf(),
            final(self)@ == old(self)@.mic_lost(mac@, was_airpods),
            crate::ui::gtk::model::effects_view(effects@) == (if was_airpods {
                old(self)@.mic_end_effects()
            } else {
                crate::ui::gtk::model::nothing_to_do()
            }),
    {
        let _ = self.mic.capture.remove(mac);
        if was_airpods {
            self.end_mic_test()
        } else {
            no_effects()
        }
    }

    /// The window was shown or hidden.
    pub(crate) fn set_window_visible(&mut self, visible: bool)
        requires
            old(self).parts_wf(),
        ensures
            final(self).parts_wf(),
            final(self)@ == old(self)@.with_mic(
                (MicStateView { window_visible: visible, ..old(self)@.mic }),
            ),
    {
        self.mic.window_visible = visible;
    }

    /// The phase of the microphone test.
    pub fn mic_test(&self) -> (test: &MicTest)
        ensures
            test@ == self@.mic.test,
    {
        &self.mic.test
    }

    /// The capture on the AirPods at `mac`, while an app records from them.
    pub fn mic_capture(&self, mac: &str) -> (capture: Option<&MicCapture>)
        requires
            self.parts_wf(),
        ensures
            match capture {
                Some(c) => self@.capturing(mac@) && c@ == self@.mic.capture[mac@],
                None => !self@.capturing(mac@),
            },
    {
        match self.mic.capture.get(mac) {
            Some(capture) => if capture.active {
                Some(capture)
            } else {
                None
            },
            None => None,
        }
    }

    /// The conversation awareness switch is locked while a capture turns
    /// conversation awareness off, so the user cannot fight the override.
    pub fn conversation_awareness_locked(&self, mac: &str) -> (locked: bool)
        requires
            self.parts_wf(),
        ensures
            locked == self@.awareness_locked(mac@),
    {
        self.settings.hires_mic_pause_convo && self.mic_capture(mac).is_some()
    }

    fn captures_anywhere(&self) -> (yes: bool)
        requires
            self.parts_wf(),
        ensures
            yes == self@.any_capturing(),
    {
        let mut i: usize = 0;
        proof {
            self.airpods.lemma_addresses();
        }
        while i < self.airpods.len()
            invariant
                self.parts_wf(),
                i <= self.airpods.addresses().len(),
                forall|k: Seq<char>|
                    #[trigger] self.airpods@.contains_key(k) <==> self.airpods.addresses().contains(
                        k,
                    ),
                forall|j: int|
                    0 <= j < i ==> !self@.capturing(#[trigger] self.airpods.addresses()[j]),
            decreases self.airpods.addresses().len() - i,
        {
            if self.mic_capture(self.airpods.address_at(i).as_str()).is_some() {
                proof {
                    let mac = self.airpods.addresses()[i as int];
                    assert(self.airpods.addresses().contains(mac));
                    assert(self@.airpods.contains_key(mac));
                }
                return true;
            }
            i = i + 1;
        }
        proof {
            if self@.any_capturing() {
                let mac = choose|mac: Seq<char>| #[trigger]
                    self@.airpods.contains_key(mac) && self@.capturing(mac);
                assert(self.airpods.addresses().contains(mac));
                let j = choose|j: int|
                    0 <= j < self.airpods.addresses().len() && self.airpods.addresses()[j] == mac;
                assert(!self@.capturing(self.airpods.addresses()[j]));
            }
        }
        false
    }

    /// How often the app should send `MicInput::Tick`, None for no ticks.
    pub fn mic_tick(&self) -> (rate: Option<Duration>)
        requires
            self.parts_wf(),
        ensures
            self@.tick_rate() == (match rate {
                Some(d) => Some(d@),
                None => None,
            }),
    {
        // Also with the window hidden, to notice the recorder reaching its
        // limit.
        if self.mic.test.is_recording() {
            return Some(mic_tick_rate());
        }
        if !self.mic.window_visible {
            return None;
        }
        let playing = match &self.mic.test {
            MicTest::Ready(p) => p.playing || p.play_requested,
            _ => false,
        };
        if playing || self.captures_anywhere() {
            return Some(mic_tick_rate());
        }
        if self.settings.hires_mic_enabled && !self.airpods.is_empty() {
            Some(mic_watch_rate())
        } else {
            None
        }
    }
}

} // verus!
