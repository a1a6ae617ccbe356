//! What the microphone test does, phase by phase.

use crate::ui::gtk::model::mic::{
    MicCapture, MicEffectView, MicInput, MicPhase, PlaybackState, PlayerCommandView, PlayerSample,
    RecorderSample,
};
use crate::ui::gtk::model::{EffectView, Input, ModelView};
use crate::ui::messages::BluetoothUIMessage;
use vstd::prelude::*;

verus! {

/// The player of a model whose take is ready.
pub open spec fn player(model: ModelView) -> PlaybackState {
    model.mic.test->Ready_0
}

/// A skip moves the player of a ready take by five seconds and tells it so:
/// back to the start at most, forward to the end at most. Nothing else of the
/// player changes.
pub proof fn a_skip_moves_five_seconds(model: ModelView, forward: bool)
    requires
        model.mic.test is Ready,
        player(model).position <= player(model).duration,
        player(model).duration <= 18_446_744_073_709_551_615_999_999_999,
    ensures
        ({
            let input = Input::Microphone(MicInput::Skip { forward });
            let before = player(model);
            let moved = model.after(input);
            let after = player(moved);
            &&& moved.mic.test is Ready
            &&& !forward && before.position >= 5_000_000_000 ==> after.position + 5_000_000_000
                == before.position
            &&& !forward && before.position < 5_000_000_000 ==> after.position == 0
            &&& forward && before.position + 5_000_000_000 <= before.duration ==> after.position
                == before.position + 5_000_000_000
            &&& forward && before.position + 5_000_000_000 > before.duration ==> after.position
                == before.duration
            &&& after.duration == before.duration
            &&& after.playing == before.playing
            &&& after.play_requested == before.play_requested
            &&& after.error == before.error
            &&& moved.mic.paused == model.mic.paused
            &&& model.effects_after(input) == seq![
                EffectView::Microphone(
                    MicEffectView::Player(PlayerCommandView::Seek(after.position)),
                ),
            ]
        }),
{
}

/// A skip back after a skip forward that did not hit the end returns to where
/// the player was, and so the other way round where the start was not hit.
pub proof fn skips_undo_each_other(model: ModelView)
    requires
        model.mic.test is Ready,
        player(model).position <= player(model).duration,
        player(model).duration <= 18_446_744_073_709_551_615_999_999_999,
    ensures
        ({
            let forward = Input::Microphone(MicInput::Skip { forward: true });
            let back = Input::Microphone(MicInput::Skip { forward: false });
            let at = player(model).position;
            &&& at + 5_000_000_000 <= player(model).duration ==> player(
                model.after(forward).after(back),
            ).position == at
            &&& at >= 5_000_000_000 ==> player(model.after(back).after(forward)).position == at
        }),
{
    a_skip_moves_five_seconds(model, true);
    a_skip_moves_five_seconds(model, false);
    a_skip_moves_five_seconds(model.after(Input::Microphone(MicInput::Skip { forward: true })), false);
    a_skip_moves_five_seconds(model.after(Input::Microphone(MicInput::Skip { forward: false })), true);
}

/// A seek puts the player of a ready take where it says, at most to the end,
/// and tells it exactly where it is then, unless it is there already.
pub proof fn a_seek_goes_where_it_says(model: ModelView, to: crate::time::Duration)
    requires
        model.mic.test is Ready,
    ensures
        ({
            let input = Input::Microphone(MicInput::Seek(to));
            let after = player(model.after(input));
            &&& model.after(input).mic.test is Ready
            &&& to@ <= player(model).duration ==> after.position == to@
            &&& to@ > player(model).duration ==> after.position == player(model).duration
            &&& after.duration == player(model).duration
            &&& after.playing == player(model).playing
            &&& after.position == player(model).position ==> model.effects_after(input).len() == 0
            &&& after.position != player(model).position ==> model.effects_after(input) == seq![
                EffectView::Microphone(
                    MicEffectView::Player(PlayerCommandView::Seek(after.position)),
                ),
            ]
        }),
{
}

/// Play asks the player to play and waits until it does; Pause asks it to pause
/// and shows that at once, also where it had not started yet. Neither moves it.
pub proof fn play_and_pause_are_opposites(model: ModelView)
    requires
        model.mic.test is Ready,
    ensures
        ({
            let play = Input::Microphone(MicInput::Play);
            let pause = Input::Microphone(MicInput::Pause);
            let playing = player(model.after(play));
            let paused = player(model.after(pause));
            &&& model.after(play).mic.test is Ready
            &&& model.after(pause).mic.test is Ready
            &&& playing.play_requested
            &&& playing.playing == player(model).playing
            &&& playing.error == player(model).error
            &&& !paused.playing && !paused.play_requested
            &&& paused.error == player(model).error
            &&& playing.position == player(model).position
            &&& paused.position == player(model).position
            &&& playing.duration == player(model).duration
            &&& paused.duration == player(model).duration
            &&& model.effects_after(play) == seq![
                EffectView::Microphone(MicEffectView::Player(PlayerCommandView::Play)),
            ]
            &&& model.effects_after(pause) == seq![
                EffectView::Microphone(MicEffectView::Player(PlayerCommandView::Pause)),
            ]
            &&& model.after(play).mic.paused == model.mic.paused
            &&& model.after(pause).mic.paused == model.mic.paused
        }),
{
}

/// Without a ready take nothing can be played, paused, skipped or sought.
pub proof fn only_a_ready_take_is_played(model: ModelView, input: MicInput)
    requires
        !(model.mic.test is Ready),
        input is Play || input is Pause || input is Skip || input is Seek,
    ensures
        model.after(Input::Microphone(input)) == model,
        model.effects_after(Input::Microphone(input)).len() == 0,
{
}

/// Record does something exactly if the hi-res microphone is on, AirPods are
/// connected and no recording is under way. The media is paused before anything
/// is recorded; only where it is paused already the recorder starts at once. A
/// player that is there is released first.
pub proof fn recording_waits_for_the_media(model: ModelView)
    ensures
        ({
            let record = Input::Microphone(MicInput::Record);
            let after = model.after(record);
            let effects = model.effects_after(record);
            let free = model.mic.test is Idle || model.mic.test is Ready || model.mic.test is Failed;
            let able = model.settings.hires_mic_enabled && model.airpods.dom() != Set::<
                Seq<char>,
            >::empty() && free;
            &&& !able ==> after == model && effects.len() == 0
            &&& able && model.mic.paused.len() == 0 ==> after.mic.test is Starting
                && effects.last() == EffectView::Microphone(MicEffectView::PauseMedia)
            &&& able && model.mic.paused.len() == 0 && model.mic.test is Ready ==> effects.len() == 2
                && effects[0] == EffectView::Microphone(MicEffectView::Release)
            &&& able && model.mic.paused.len() == 0 && !(model.mic.test is Ready) ==> effects.len()
                == 1
            &&& able && model.mic.paused.len() > 0 ==> after.mic.test == (MicPhase::Recording {
                elapsed: 0,
            }) && effects == seq![EffectView::Microphone(MicEffectView::StartRecording)]
            &&& after.mic.paused == model.mic.paused
        }),
{
    assert(model.airpods.dom() == Set::<Seq<char>>::empty() ==> model.airpods =~= Map::empty());
}

/// The recorder starts when the media is paused, and the players that were
/// paused are kept to be resumed. Players paused while a test runs join them;
/// players paused after it ended are resumed at once. No player is lost.
pub proof fn paused_players_are_kept_or_resumed(model: ModelView, players: Vec<String>)
    ensures
        ({
            let input = Input::Microphone(MicInput::MediaPaused(players));
            let after = model.after(input);
            let effects = model.effects_after(input);
            let running = model.mic.test is Recording || model.mic.test is Stopping
                || model.mic.test is Ready;
            let names = players@.map_values(|p: String| p@);
            &&& model.mic.test is Starting ==> after.mic.test == (MicPhase::Recording { elapsed: 0 })
                && after.mic.paused == names && effects == seq![
                EffectView::Microphone(MicEffectView::StartRecording),
            ]
            &&& running ==> after.mic.test == model.mic.test && after.mic.paused == model.mic.paused
                + names && effects.len() == 0
            &&& !running && !(model.mic.test is Starting) ==> after == model && (names.len() == 0
                ==> effects.len() == 0) && (names.len() > 0 ==> effects == seq![
                EffectView::Microphone(MicEffectView::ResumeMedia(names)),
            ])
        }),
{
    assert(crate::text::texts(players@) =~= players@.map_values(|p: String| p@));
}

/// Stop ends a recording under a new number and does nothing else otherwise.
pub proof fn stop_ends_a_recording(model: ModelView)
    requires
        model.mic.take < u64::MAX,
    ensures
        ({
            let after = model.after(Input::Microphone(MicInput::Stop));
            let effects = model.effects_after(Input::Microphone(MicInput::Stop));
            &&& model.mic.test is Recording ==> after.mic.test is Stopping && after.mic.take
                == model.mic.take + 1 && effects == seq![
                EffectView::Microphone(MicEffectView::StopRecording { take: after.mic.take }),
            ]
            &&& !(model.mic.test is Recording) ==> after == model && effects.len() == 0
            &&& after.mic.paused == model.mic.paused
        }),
{
}

/// A tick shows how long the recorder has run, and stops it when it stopped by
/// itself.
pub proof fn a_tick_follows_the_recorder(
    model: ModelView,
    sample: crate::ui::gtk::model::mic::MicSample,
    recorder: RecorderSample,
)
    requires
        model.mic.test is Recording,
        model.mic.take < u64::MAX,
        sample.recorder == Some(recorder),
    ensures
        ({
            let after = model.after(Input::Microphone(MicInput::Tick(sample)));
            let effects = model.effects_after(Input::Microphone(MicInput::Tick(sample)));
            &&& !recorder.finished ==> after.mic.test == (MicPhase::Recording {
                elapsed: recorder.elapsed@,
            }) && effects.len() == 0
            &&& recorder.finished ==> after.mic.test is Stopping && effects == seq![
                EffectView::Microphone(
                    MicEffectView::StopRecording { take: (model.mic.take + 1) as u64 },
                ),
            ]
            &&& after.mic.paused == model.mic.paused
        }),
{
}

/// A tick shows what the player says: where it is, never past the end, how long
/// the take is, whether it plays and its error. A request to play is over once
/// it plays or fails.
pub proof fn a_tick_follows_the_player(
    model: ModelView,
    sample: crate::ui::gtk::model::mic::MicSample,
    said: PlayerSample,
)
    requires
        model.mic.test is Ready,
        sample.player == Some(said),
    ensures
        ({
            let after = model.after(Input::Microphone(MicInput::Tick(sample)));
            let shown = player(after);
            &&& after.mic.test is Ready
            &&& said.position@ <= said.duration@ ==> shown.position == said.position@
            &&& said.position@ > said.duration@ ==> shown.position == said.duration@
            &&& shown.duration == said.duration@
            &&& shown.playing == said.playing
            &&& said.error is None <==> shown.error is None
            &&& said.error is Some ==> shown.error == Some(said.error->0@)
            &&& shown.play_requested <==> (player(model).play_requested && !said.playing
                && said.error is None)
            &&& model.effects_after(Input::Microphone(MicInput::Tick(sample))).len() == 0
        }),
{
}

proof fn lemma_last_capture(
    read: Seq<(String, MicCapture)>,
    airpods: Set<Seq<char>>,
    mac: Seq<char>,
)
    ensures
        ({
            let shown = crate::ui::gtk::model::mic::captures(read, airpods);
            &&& shown.contains_key(mac) ==> airpods.contains(mac) && exists|i: int|
                0 <= i < read.len() && (#[trigger] read[i]).0@ == mac && shown[mac].active
                    == read[i].1.active
            &&& forall|i: int|
                0 <= i < read.len() && (#[trigger] read[i]).0@ == mac && airpods.contains(mac)
                    ==> shown.contains_key(mac)
        }),
    decreases read.len(),
{
    if read.len() > 0 {
        let rest = read.drop_last();
        lemma_last_capture(rest, airpods, mac);
        let shown = crate::ui::gtk::model::mic::captures(read, airpods);
        let earlier = crate::ui::gtk::model::mic::captures(rest, airpods);
        if shown.contains_key(mac) {
            if read.last().0@ == mac && airpods.contains(mac) {
                assert(read[read.len() - 1].0@ == mac);
            } else {
                assert(earlier.contains_key(mac));
                let i = choose|i: int|
                    0 <= i < rest.len() && (#[trigger] rest[i]).0@ == mac && earlier[mac].active
                        == rest[i].1.active;
                assert(read[i] == rest[i]);
            }
        }
        assert forall|i: int|
            0 <= i < read.len() && (#[trigger] read[i]).0@ == mac && airpods.contains(
                mac,
            ) implies shown.contains_key(mac) by {
            if i < rest.len() {
                assert(rest[i] == read[i]);
            }
        }
    }
}

/// A tick's captures are those of connected AirPods and of no others: each has
/// what was read for it last, with its level cleaned. A tick that could not
/// read them keeps what was known.
pub proof fn a_tick_follows_the_captures(
    model: ModelView,
    sample: crate::ui::gtk::model::mic::MicSample,
    mac: Seq<char>,
)
    ensures
        ({
            let after = model.after(Input::Microphone(MicInput::Tick(sample)));
            &&& sample.capture is None ==> after.mic.capture == model.mic.capture
            &&& sample.capture matches Some(read) ==> {
                &&& after.mic.capture.contains_key(mac) ==> model.airpods.contains_key(mac)
                &&& model.airpods.contains_key(mac) && read@.len() > 0 && read@.last().0@ == mac
                    ==> after.mic.capture.contains_key(mac) && after.mic.capture[mac].active
                    == read@.last().1.active && after.mic.capture[mac].level
                    == crate::ui::gtk::model::mic::clean_level(read@.last().1.level)
                    && after.mic.capture[mac].app == crate::ui::gtk::model::mic::optional_text(
                    read@.last().1.app,
                )
                &&& model.airpods.contains_key(mac) && (exists|i: int|
                    0 <= i < read@.len() && (#[trigger] read@[i]).0@ == mac)
                    ==> after.mic.capture.contains_key(mac)
            }
        }),
{
    match sample.capture {
        Some(read) => {
            lemma_last_capture(read@, model.airpods.dom(), mac);
        },
        None => {},
    }
}

/// A level is shown as it is between 0 and 1, as 1 above and as 0 below; what
/// is no finite number is shown as 0. In the bits of single precision numbers:
/// 0x3F800000 is 1, 0x7F800000 the first that is not finite, and from
/// 0x80000000 on they are negative.
pub proof fn levels_are_cleaned(level: u32)
    ensures
        ({
            let clean = crate::ui::gtk::model::mic::clean_level(level);
            &&& level <= 0x3F80_0000 ==> clean == level
            &&& 0x3F80_0000 < level < 0x7F80_0000 ==> clean == 0x3F80_0000
            &&& 0x7F80_0000 <= level < 0x8000_0000 ==> clean == 0
            &&& level > 0x8000_0000 ==> clean == 0
        }),
{
}

/// The hi-res switch of connected AirPods sets the microphone, the setting and
/// what is stored to what it says. Turning it off ends the test as Done does;
/// turning it on leaves the test alone.
#[verifier::rlimit(30)]
pub proof fn the_hires_switch_is_kept_and_sent(model: ModelView, mac: String, on: bool)
    requires
        model.airpods.contains_key(mac@),
        model.mic.take < u64::MAX,
    ensures
        ({
            let input = Input::Microphone(MicInput::SetHiRes(mac, on));
            let after = model.after(input);
            let effects = model.effects_after(input);
            let ended = model.after(Input::Microphone(MicInput::Done));
            &&& after.settings.hires_mic_enabled == on
            &&& effects.len() >= 2
            &&& effects[0] == EffectView::Microphone(
                MicEffectView::SetHiRes { mac: mac@, enabled: on },
            )
            &&& effects[1] == EffectView::SaveSettings
            &&& on ==> after.mic == model.mic && effects.len() == 2
            &&& !on ==> after.mic == ended.mic && effects.skip(2) == model.effects_after(
                Input::Microphone(MicInput::Done),
            )
        }),
{
    let input = Input::Microphone(MicInput::SetHiRes(mac, on));
    if !on {
        assert(model.effects_after(input).skip(2) =~= model.mic_end_effects());
    }
}

/// AirPods that go away end the test as Done does; a device that is none does
/// not touch it.
pub proof fn leaving_airpods_end_the_test(model: ModelView, mac: String)
    requires
        model.mic.take < u64::MAX,
    ensures
        ({
            let input = Input::Backend(BluetoothUIMessage::DeviceDisconnected(mac));
            let after = model.after(input);
            let done = Input::Microphone(MicInput::Done);
            &&& model.airpods.contains_key(mac@) ==> after.mic.test is Idle && after.mic.paused.len()
                == 0 && model.effects_after(input) == model.effects_after(done)
            &&& !model.airpods.contains_key(mac@) ==> after.mic.test == model.mic.test
                && after.mic.paused == model.mic.paused && model.effects_after(input).len() == 0
            &&& !after.mic.capture.contains_key(mac@)
        }),
{
}

/// How often the window looks: every 50 milliseconds while something it shows
/// moves, every second while an app may open the microphone, and not at all
/// otherwise.
pub proof fn ticks_come_as_often_as_needed(model: ModelView, mac: Seq<char>)
    ensures
        model.mic.test is Recording ==> model.tick_rate() == Some(50_000_000nat),
        model.mic.window_visible && model.mic.test is Ready && (player(model).playing || player(
            model,
        ).play_requested) ==> model.tick_rate() == Some(50_000_000nat),
        model.mic.window_visible && model.airpods.contains_key(mac) && model.mic.capture.contains_key(
            mac,
        ) && model.mic.capture[mac].active ==> model.tick_rate() == Some(50_000_000nat),
        model.mic.window_visible && model.settings.hires_mic_enabled && model.airpods.contains_key(
            mac,
        ) ==> model.tick_rate() == Some(50_000_000nat) || model.tick_rate() == Some(
            1_000_000_000nat,
        ),
        model.mic.test is Idle && model.mic.capture.dom() == Set::<Seq<char>>::empty()
            && model.mic.window_visible && model.settings.hires_mic_enabled
            && model.airpods.contains_key(mac) ==> model.tick_rate() == Some(1_000_000_000nat),
        model.mic.test is Idle && model.mic.capture.dom() == Set::<Seq<char>>::empty()
            && !model.settings.hires_mic_enabled ==> model.tick_rate() is None,
        !model.mic.window_visible && !(model.mic.test is Recording) ==> model.tick_rate() is None,
{
    if model.airpods.contains_key(mac) && model.capturing(mac) {
        assert(model.any_capturing());
    }
}

/// What the rows of the test offer: Record while nothing is recorded, Stop
/// while something is, and the player with Done once a take is ready. Its
/// position and length stand in its label.
pub proof fn the_rows_follow_the_test(phase: MicPhase)
    ensures
        ({
            let rows = crate::ui::gtk::model::mic::test_rows(phase);
            &&& rows.stop <==> phase is Recording
            &&& rows.playback is Some <==> phase is Ready
            &&& rows.record is Some <==> (phase is Idle || phase is Failed || phase is Ready)
            &&& phase is Ready ==> rows.record == Some("Record Again"@)
            &&& phase is Idle || phase is Failed ==> rows.record == Some("Record"@)
            &&& phase is Idle ==> rows.status
                == "Record yourself, then play it back to hear what apps receive. Music is paused until you press Done."@
            &&& phase is Starting ==> rows.status == "Pausing media…"@
            &&& phase is Stopping ==> rows.status == "Finishing the recording…"@
            &&& phase matches MicPhase::Failed(e) ==> rows.status == e
            &&& phase matches MicPhase::Ready(p) ==> {
                let shown = rows.playback->0;
                &&& p.error is Some ==> rows.status == p.error->0
                &&& p.error is None ==> rows.status == "Music stays paused until you press Done."@
                &&& p.position <= p.duration ==> shown.position == p.position
                &&& p.position > p.duration ==> shown.position == p.duration
                &&& shown.duration == p.duration
                &&& shown.playing <==> p.playing || p.play_requested
                &&& shown.label == crate::ui::format::minutes_seconds(
                    shown.position / 1_000_000_000,
                ) + " / "@ + crate::ui::format::minutes_seconds(p.duration / 1_000_000_000)
                &&& shown.back == "-5s"@
                &&& shown.forward == "+5s"@
            }
            &&& phase matches MicPhase::Recording { elapsed } ==> rows.status == "Recording "@
                + crate::ui::format::minutes_seconds(elapsed / 1_000_000_000) + " (max "@
                + crate::ui::format::minutes_seconds(300) + ")"@
        }),
{
    reveal_strlit("-");
    reveal_strlit("+");
    reveal_strlit("s");
    reveal_strlit("-5s");
    reveal_strlit("+5s");
    assert(crate::text::decimal(5) =~= seq!['5']);
    assert("-"@ + crate::text::decimal(5) + "s"@ =~= "-5s"@);
    assert("+"@ + crate::text::decimal(5) + "s"@ =~= "+5s"@);
    assert(300 * 1_000_000_000 / 1_000_000_000 == 300);
}

/// The conversation awareness switch is locked exactly while an app records
/// from the AirPods and the setting asks for it.
pub proof fn only_a_capture_locks_the_awareness_switch(model: ModelView, mac: Seq<char>)
    ensures
        model.awareness_locked(mac) <==> (model.settings.hires_mic_pause_convo
            && model.mic.capture.contains_key(mac) && model.mic.capture[mac].active),
{
}

/// A tick changes nothing of the test but by what it reads: without a recorder a
/// recording stays, without a player a take does, and every other phase does
/// whatever was read. Nothing outside the microphone changes.
#[verifier::rlimit(30)]
pub proof fn a_tick_changes_only_what_it_reads(
    model: ModelView,
    sample: crate::ui::gtk::model::mic::MicSample,
)
    ensures
        ({
            let after = model.after(Input::Microphone(MicInput::Tick(sample)));
            &&& model.mic.test is Recording && sample.recorder is None ==> after.mic.test
                == model.mic.test
            &&& model.mic.test is Ready && sample.player is None ==> after.mic.test
                == model.mic.test
            &&& !(model.mic.test is Recording) && !(model.mic.test is Ready) ==> after.mic.test
                == model.mic.test
            &&& after.mic.paused == model.mic.paused
            &&& after.mic.window_visible == model.mic.window_visible
            &&& after == (ModelView { mic: after.mic, ..model })
        }),
{
}

/// The recording that is awaited is loaded and stands at its start, not playing;
/// its error is shown instead, and the players are resumed, where there are any.
pub proof fn a_take_is_loaded_or_failed(
    model: ModelView,
    result: Result<crate::ui::gtk::model::mic::Recording, String>,
)
    requires
        model.mic.test is Stopping,
    ensures
        ({
            let input = Input::Microphone(MicInput::Recorded { take: model.mic.take, result });
            let after = model.after(input);
            let effects = model.effects_after(input);
            &&& result matches Ok(recording) ==> {
                &&& after.mic.test is Ready
                &&& player(after).position == 0
                &&& !player(after).playing
                &&& !player(after).play_requested
                &&& player(after).error is None
                &&& after.mic.paused == model.mic.paused
                &&& effects == seq![
                    EffectView::Microphone(MicEffectView::LoadPlayer(recording.0@)),
                ]
            }
            &&& result matches Err(e) ==> {
                &&& after.mic.test == MicPhase::Failed(e@)
                &&& after.mic.paused.len() == 0
                &&& model.mic.paused.len() == 0 ==> effects.len() == 0
                &&& model.mic.paused.len() > 0 ==> effects == seq![
                    EffectView::Microphone(MicEffectView::ResumeMedia(model.mic.paused)),
                ]
            }
            &&& after.mic.capture == model.mic.capture
        }),
{
}

/// Done ends every phase: the recorder or the player that is there is released,
/// the paused players are resumed, in this order, and no take is awaited any
/// more.
pub proof fn done_ends_every_phase(model: ModelView)
    requires
        model.mic.take < u64::MAX,
    ensures
        ({
            let after = model.after(Input::Microphone(MicInput::Done));
            let effects = model.effects_after(Input::Microphone(MicInput::Done));
            let release = model.mic.test is Recording || model.mic.test is Ready;
            let resume = EffectView::Microphone(MicEffectView::ResumeMedia(model.mic.paused));
            &&& after.mic.test is Idle
            &&& after.mic.paused.len() == 0
            &&& after.mic.take == model.mic.take + 1
            &&& after.mic.capture == model.mic.capture
            &&& after.mic.window_visible == model.mic.window_visible
            &&& release ==> effects.len() > 0 && effects[0] == EffectView::Microphone(
                MicEffectView::Release,
            )
            &&& model.mic.paused.len() > 0 ==> effects.len() > 0 && effects.last() == resume
            &&& effects.len() == (if release {
                1int
            } else {
                0int
            }) + if model.mic.paused.len() > 0 {
                1int
            } else {
                0int
            }
        }),
{
}

/// The window counts as shown exactly as it was last said, and nothing else
/// follows from that.
pub proof fn the_window_is_shown_or_hidden(model: ModelView, visible: bool)
    ensures
        ({
            let after = model.after(Input::WindowVisible(visible));
            &&& after.mic.window_visible == visible
            &&& after.mic.test == model.mic.test
            &&& after.mic.paused == model.mic.paused
            &&& after.mic.capture == model.mic.capture
            &&& after == (ModelView { mic: after.mic, ..model })
            &&& model.effects_after(Input::WindowVisible(visible)).len() == 0
        }),
{
}

/// The hi-res switch of AirPods that are away does nothing.
pub proof fn the_hires_switch_needs_airpods(model: ModelView, mac: String, on: bool)
    requires
        !model.airpods.contains_key(mac@),
    ensures
        model.after(Input::Microphone(MicInput::SetHiRes(mac, on))) == model,
        model.effects_after(Input::Microphone(MicInput::SetHiRes(mac, on))).len() == 0,
{
}

/// A test runs from the moment its media is being paused until its take is gone.
pub proof fn a_test_runs_until_its_take_is_gone(playback: PlaybackState, elapsed: nat, e: Seq<char>)
    ensures
        MicPhase::Starting.running(),
        (MicPhase::Recording { elapsed }).running(),
        MicPhase::Stopping.running(),
        MicPhase::Ready(playback).running(),
        !MicPhase::Idle.running(),
        !MicPhase::Failed(e).running(),
{
}

} // verus!
