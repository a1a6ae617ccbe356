//! What the microphone test of the window does, and its settings.

use crate::time::Duration;
use crate::ui::window::{AppTaskView, AppView, Message, MicTestPhase};
use crate::utils::AppSettings;
use vstd::prelude::*;

verus! {

/// Where a skip from `position` puts the player of a take of `duration`: five
/// seconds on or back, at most to the end and at least to the start.
pub proof fn a_skip_moves_five_seconds(forward: bool, position: nat, duration: nat)
    requires
        position <= duration,
        duration <= 18_446_744_073_709_551_615_999_999_999,
    ensures
        ({
            let to = crate::ui::window::skip_target(forward, position, duration);
            &&& !forward && position >= 5_000_000_000 ==> to + 5_000_000_000 == position
            &&& !forward && position < 5_000_000_000 ==> to == 0
            &&& forward && position + 5_000_000_000 <= duration ==> to == position + 5_000_000_000
            &&& forward && position + 5_000_000_000 > duration ==> to == duration
        }),
{
}

/// A skip back after a skip forward that did not hit the end returns to where
/// the player was, and so the other way round where the start was not hit.
pub proof fn skips_undo_each_other(position: nat, duration: nat)
    requires
        position <= duration,
        duration <= 18_446_744_073_709_551_615_999_999_999,
    ensures
        position + 5_000_000_000 <= duration ==> crate::ui::window::skip_target(
            false,
            crate::ui::window::skip_target(true, position, duration),
            duration,
        ) == position,
        position >= 5_000_000_000 ==> crate::ui::window::skip_target(
            true,
            crate::ui::window::skip_target(false, position, duration),
            duration,
        ) == position,
{
    a_skip_moves_five_seconds(true, position, duration);
    a_skip_moves_five_seconds(false, position, duration);
}

/// The player of a ready take is told exactly what was asked: to play, to pause
/// or where to go. Without a take nothing is asked, and nothing of this changes
/// the window.
pub proof fn the_player_follows_the_buttons(
    app: AppView,
    forward: bool,
    position: Duration,
    duration: Duration,
    to: Duration,
)
    requires
        position@ <= duration@,
        duration@ <= 18_446_744_073_709_551_615_999_999_999,
    ensures
        ({
            let skip = Message::MicTestSkip { forward, position, duration };
            let seek = Message::MicTestSeek(to);
            let tasks = app.tasks_after(skip);
            &&& app.test is Ready ==> app.tasks_after(Message::MicTestPlay) == seq![
                AppTaskView::Play,
            ]
            &&& app.test is Ready ==> app.tasks_after(Message::MicTestPause) == seq![
                AppTaskView::Pause,
            ]
            &&& app.test is Ready ==> app.tasks_after(seek) == seq![AppTaskView::Seek(to@)]
            &&& app.test is Ready ==> tasks.len() == 1 && tasks[0] is Seek
            &&& app.test is Ready && !forward && position@ >= 5_000_000_000 ==> tasks[0]->Seek_0
                + 5_000_000_000 == position@
            &&& app.test is Ready && !forward && position@ < 5_000_000_000 ==> tasks[0]->Seek_0 == 0
            &&& app.test is Ready && forward && position@ + 5_000_000_000 <= duration@
                ==> tasks[0]->Seek_0 == position@ + 5_000_000_000
            &&& app.test is Ready && forward && position@ + 5_000_000_000 > duration@
                ==> tasks[0]->Seek_0 == duration@
            &&& !(app.test is Ready) ==> tasks.len() == 0 && app.tasks_after(seek).len() == 0
                && app.tasks_after(Message::MicTestPlay).len() == 0 && app.tasks_after(
                Message::MicTestPause,
            ).len() == 0
            &&& app.after(skip) == app
            &&& app.after(seek) == app
            &&& app.after(Message::MicTestPlay) == app
            &&& app.after(Message::MicTestPause) == app
        }),
{
    a_skip_moves_five_seconds(forward, position@, duration@);
    assert(app.test is Ready ==> app.tasks_after(Message::MicTestPlay) =~= seq![AppTaskView::Play]);
    assert(app.test is Ready ==> app.tasks_after(Message::MicTestPause) =~= seq![
        AppTaskView::Pause,
    ]);
    assert(app.test is Ready ==> app.tasks_after(Message::MicTestSeek(to)) =~= seq![
        AppTaskView::Seek(to@),
    ]);
}

/// The media is paused before anything is recorded, unless it is paused already;
/// then the recorder starts.
pub proof fn recording_waits_for_the_media(app: AppView, players: Vec<String>)
    ensures
        ({
            let record = Message::MicTestRecord;
            let paused = Message::MediaPaused(players);
            let names = players@.map_values(|p: String| p@);
            &&& app.paused.len() == 0 ==> app.after(record).test is Starting && app.tasks_after(
                record,
            ) == seq![AppTaskView::PauseMedia]
            &&& app.paused.len() > 0 ==> app.after(record).test is Recording && app.tasks_after(
                record,
            ) == seq![AppTaskView::StartRecorder]
            &&& app.after(record).paused == app.paused
            &&& app.test is Starting ==> app.after(paused).test is Recording && app.after(
                paused,
            ).paused == names && app.tasks_after(paused) == seq![AppTaskView::StartRecorder]
            &&& !(app.test is Starting) ==> app.after(paused) == app && app.tasks_after(paused)
                == seq![AppTaskView::ResumeMedia(names)]
        }),
{
    assert(crate::text::texts(players@) =~= players@.map_values(|p: String| p@));
    let record = Message::MicTestRecord;
    let paused = Message::MediaPaused(players);
    let names = players@.map_values(|p: String| p@);
    assert(app.paused.len() == 0 ==> app.tasks_after(record) =~= seq![AppTaskView::PauseMedia]);
    assert(app.paused.len() > 0 ==> app.tasks_after(record) =~= seq![AppTaskView::StartRecorder]);
    assert(app.test is Starting ==> app.tasks_after(paused) =~= seq![AppTaskView::StartRecorder]);
    assert(!(app.test is Starting) ==> app.tasks_after(paused) =~= seq![
        AppTaskView::ResumeMedia(names),
    ]);
}

/// A recording is stopped by the user or when the recorder stopped by itself,
/// and in no other way by a redraw. The take is then ready, or the error is
/// shown; a result that nothing waits for is dropped.
pub proof fn a_recording_ends_ready_or_failed(app: AppView, result: Result<(), String>)
    ensures
        ({
            let stop = Message::MicTestStop;
            let ended = Message::MicLevelTick { finished: true };
            let running = Message::MicLevelTick { finished: false };
            let recorded = Message::Recorded(result);
            &&& app.test is Recording ==> app.after(stop).test is Stopping && app.after(
                ended,
            ).test is Stopping && app.tasks_after(stop) == seq![AppTaskView::StopRecorder]
                && app.tasks_after(ended) == seq![AppTaskView::StopRecorder]
            &&& !(app.test is Recording) ==> app.after(ended) == app && app.tasks_after(ended).len()
                == 0
            &&& app.after(running) == app
            &&& app.tasks_after(running).len() == 0
            &&& app.test is Ready ==> app.after(stop).test is Idle && app.tasks_after(stop)
                == seq![AppTaskView::ReleaseTest]
            &&& app.test is Failed ==> app.after(stop).test is Idle
            &&& app.after(stop).paused == app.paused
            &&& app.test is Stopping && result is Ok ==> app.after(recorded).test is Ready
            &&& app.test is Stopping && result is Err ==> app.after(recorded).test
                == MicTestPhase::Failed(result->Err_0@)
            &&& !(app.test is Stopping) ==> app.after(recorded) == app
            &&& app.tasks_after(recorded).len() == 0
        }),
{
    let stop = Message::MicTestStop;
    let ended = Message::MicLevelTick { finished: true };
    assert(app.test is Recording ==> app.tasks_after(stop) =~= seq![AppTaskView::StopRecorder]);
    assert(app.test is Recording ==> app.tasks_after(ended) =~= seq![AppTaskView::StopRecorder]);
    assert(app.test is Ready ==> app.tasks_after(stop) =~= seq![AppTaskView::ReleaseTest]);
}

/// Done ends the test and resumes the players that were paused for it.
pub proof fn done_resumes_the_players(app: AppView)
    ensures
        app.after(Message::MicTestDone).test is Idle,
        app.after(Message::MicTestDone).paused.len() == 0,
        app.tasks_after(Message::MicTestDone) == seq![
            AppTaskView::ReleaseTest,
            AppTaskView::ResumeMedia(app.paused),
        ],
{
    assert(app.tasks_after(Message::MicTestDone) =~= seq![
        AppTaskView::ReleaseTest,
        AppTaskView::ResumeMedia(app.paused),
    ]);
}

/// Each settings message sets its own setting to what it says, keeps every
/// other one.
pub proof fn each_setting_is_set_by_its_message(app: AppView, message: Message)
    ensures
        ({
            let was = app.settings;
            let is = app.after(message).settings;
            &&& message matches Message::ThemeSelected(theme) ==> is == (AppSettings {
                theme,
                ..was
            })
            &&& message matches Message::TrayTextModeChanged(on) ==> is == (AppSettings {
                tray_text_mode: on,
                ..was
            })
            &&& message matches Message::StemControlChanged(on) ==> is == (AppSettings {
                stem_control: on,
                ..was
            })
            &&& message matches Message::A2dpResetChanged(on) ==> is == (AppSettings {
                a2dp_reset: on,
                ..was
            })
            &&& message matches Message::AutoSwitchChanged(on) ==> is == (AppSettings {
                auto_switch_on_playback: on,
                ..was
            })
            &&& message matches Message::PreferredCodecChanged(codec) ==> is == (AppSettings {
                preferred_codec: codec,
                ..was
            })
            &&& message matches Message::HiResMicAgcChanged(on) ==> is == (AppSettings {
                hires_mic_agc: on,
                ..was
            })
            &&& message matches Message::HiResMicPauseConvoChanged(on) ==> is == (AppSettings {
                hires_mic_pause_convo: on,
                ..was
            })
        }),
{
}

} // verus!
