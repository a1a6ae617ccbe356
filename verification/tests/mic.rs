use librepods::address_map::AddressMap;
use librepods::devices::enums::{DeviceData, DeviceType};
use librepods::time::Duration;
use librepods::ui::gtk::model::mic::{
    mic_tick_rate, mic_watch_rate, MicCapture, MicEffect, MicInput, MicSample, MicTest,
    PlayerCommand, PlayerSample, Recording, RecorderSample,
};
use librepods::ui::gtk::model::{
    AirPodsSnapshot, DeviceSnapshot, Effect, Input, Model, SettingChange,
};
use librepods::ui::messages::BluetoothUIMessage;
use librepods::utils::AppSettings;

const PODS: &str = "AA:BB:CC:DD:EE:01";
const OTHER: &str = "AA:BB:CC:DD:EE:02";
const EAR: &str = "AA:BB:CC:DD:EE:03";

fn device(name: &str, type_: DeviceType) -> DeviceData {
    DeviceData {
        name: name.to_string(),
        type_,
        information: None,
    }
}

fn devices(entries: &[(&str, DeviceData)]) -> AddressMap<DeviceData> {
    let mut devices = AddressMap::new();
    for (mac, device) in entries {
        devices.insert(mac.to_string(), device.clone());
    }
    devices
}

fn model() -> Model {
    let known = devices(&[
        (PODS, device("Pods", DeviceType::AirPods)),
        (OTHER, device("Alpha Pods", DeviceType::AirPods)),
        (EAR, device("Ear", DeviceType::Nothing)),
    ]);
    Model::new(AppSettings::default(), known)
}

/// Connect PODS and deliver its snapshot.
fn connected(model: &mut Model, snapshot: AirPodsSnapshot) {
    let effects = model.update(Input::Backend(BluetoothUIMessage::DeviceConnected(
        PODS.to_string(),
    )));
    assert_eq!(
        effects,
        [Effect::LoadDevices, Effect::Snapshot(PODS.to_string())]
    );
    model.update(Input::Snapshot(
        PODS.to_string(),
        Some(DeviceSnapshot::AirPods(snapshot)),
    ));
}

fn mic(model: &mut Model, input: MicInput) -> Vec<Effect> {
    model.update(Input::Microphone(input))
}

fn only(effect: MicEffect) -> Vec<Effect> {
    vec![Effect::Microphone(effect)]
}

fn visible_with_airpods() -> Model {
    let mut model = model();
    connected(&mut model, AirPodsSnapshot::default());
    model.update(Input::WindowVisible(true));
    model
}

fn recorder(elapsed: u64, finished: bool) -> MicSample {
    MicSample {
        recorder: Some(RecorderSample {
            elapsed: Duration::from_secs(elapsed),
            finished,
        }),
        ..MicSample::default()
    }
}

fn player(position: u64, duration: u64, playing: bool, error: Option<&str>) -> MicSample {
    MicSample {
        player: Some(PlayerSample {
            position: Duration::from_secs(position),
            duration: Duration::from_secs(duration),
            playing,
            error: error.map(str::to_string),
        }),
        ..MicSample::default()
    }
}

fn capture(active: bool, level: f32, app: Option<&str>) -> MicSample {
    MicSample {
        capture: Some(vec![(
            PODS.to_string(),
            MicCapture {
                active,
                level: level.to_bits(),
                app: app.map(str::to_string),
            },
        )]),
        ..MicSample::default()
    }
}

/// Record with `players` playing and stop; returns the take to answer.
fn recorded_take(model: &mut Model, players: &[&str]) -> u64 {
    assert_eq!(mic(model, MicInput::Record), only(MicEffect::PauseMedia));
    let players = players.iter().map(ToString::to_string).collect();
    assert_eq!(
        mic(model, MicInput::MediaPaused(players)),
        only(MicEffect::StartRecording)
    );
    let effects = mic(model, MicInput::Stop);
    let [Effect::Microphone(MicEffect::StopRecording { take })] = effects.as_slice() else {
        panic!("stop expected, got {effects:?}");
    };
    *take
}

fn ready(model: &mut Model, players: &[&str]) {
    let take = recorded_take(model, players);
    let recording = Recording(vec![1, 2]);
    assert_eq!(
        mic(
            model,
            MicInput::Recorded {
                take,
                result: Ok(recording.clone())
            }
        ),
        only(MicEffect::LoadPlayer(recording))
    );
    mic(model, MicInput::Tick(player(0, 10, false, None)));
}

#[test]
fn recording_starts_after_the_media_paused() {
    let mut model = visible_with_airpods();
    assert_eq!(
        mic(&mut model, MicInput::Record),
        only(MicEffect::PauseMedia)
    );
    assert_eq!(model.mic_test(), &MicTest::Starting);
    assert_eq!(model.mic_test().rows().status, "Pausing media…");
    // A second press while starting does nothing.
    assert!(mic(&mut model, MicInput::Record).is_empty());

    let effects = mic(&mut model, MicInput::MediaPaused(vec!["spotify".into()]));
    assert_eq!(effects, only(MicEffect::StartRecording));
    mic(&mut model, MicInput::Tick(recorder(65, false)));
    let view = model.mic_test().rows();
    assert_eq!(view.status, "Recording 1:05 (max 5:00)");
    assert!(view.stop);
    assert_eq!(view.record, None);
}

#[test]
fn record_needs_the_hires_mic_and_connected_airpods() {
    let mut model = model();
    assert!(mic(&mut model, MicInput::Record).is_empty());
    connected(&mut model, AirPodsSnapshot::default());
    mic(&mut model, MicInput::SetHiRes(PODS.to_string(), false));
    assert!(mic(&mut model, MicInput::Record).is_empty());
    assert_eq!(model.mic_test(), &MicTest::Idle);
}

#[test]
fn stop_then_ready_plays_and_done_resumes_the_media() {
    let mut model = visible_with_airpods();
    ready(&mut model, &["spotify"]);
    let view = model.mic_test().rows();
    assert_eq!(view.record, Some("Record Again"));
    let playback = view.playback.unwrap();
    assert_eq!(playback.label, "0:00 / 0:10");
    assert!(!playback.playing);

    assert_eq!(
        mic(&mut model, MicInput::Play),
        only(MicEffect::Player(PlayerCommand::Play))
    );
    assert!(model.mic_test().rows().playback.unwrap().playing);
    assert_eq!(
        mic(&mut model, MicInput::Skip { forward: true }),
        only(MicEffect::Player(PlayerCommand::Seek(Duration::from_secs(
            5
        ))))
    );
    mic(&mut model, MicInput::Skip { forward: true });
    assert_eq!(
        mic(&mut model, MicInput::Skip { forward: true }),
        only(MicEffect::Player(PlayerCommand::Seek(Duration::from_secs(
            10
        ))))
    );
    assert_eq!(
        mic(&mut model, MicInput::Seek(Duration::from_secs(2))),
        only(MicEffect::Player(PlayerCommand::Seek(Duration::from_secs(
            2
        ))))
    );
    assert_eq!(
        mic(&mut model, MicInput::Skip { forward: false }),
        only(MicEffect::Player(PlayerCommand::Seek(Duration::zero())))
    );
    // The scale settling on the same value is not a seek.
    assert!(mic(&mut model, MicInput::Seek(Duration::zero())).is_empty());
    assert_eq!(
        mic(&mut model, MicInput::Pause),
        only(MicEffect::Player(PlayerCommand::Pause))
    );

    assert_eq!(
        mic(&mut model, MicInput::Done),
        vec![
            Effect::Microphone(MicEffect::Release),
            Effect::Microphone(MicEffect::ResumeMedia(vec!["spotify".into()])),
        ]
    );
    assert_eq!(model.mic_test(), &MicTest::Idle);
}

#[test]
fn record_again_keeps_the_paused_players() {
    let mut model = visible_with_airpods();
    ready(&mut model, &["spotify"]);
    assert_eq!(
        mic(&mut model, MicInput::Record),
        only(MicEffect::StartRecording)
    );
    assert!(matches!(model.mic_test(), MicTest::Recording { .. }));
    mic(&mut model, MicInput::Stop);
    assert_eq!(model.mic_test(), &MicTest::Stopping);
    let effects = mic(&mut model, MicInput::Done);
    assert_eq!(
        effects,
        only(MicEffect::ResumeMedia(vec!["spotify".into()]))
    );
}

#[test]
fn record_again_with_nothing_paused_releases_the_player_first() {
    let mut model = visible_with_airpods();
    ready(&mut model, &[]);
    assert_eq!(
        mic(&mut model, MicInput::Record),
        vec![
            Effect::Microphone(MicEffect::Release),
            Effect::Microphone(MicEffect::PauseMedia),
        ]
    );
}

#[test]
fn failed_recording_resumes_the_players_at_once() {
    let mut model = visible_with_airpods();
    let take = recorded_take(&mut model, &["spotify"]);
    let effects = mic(
        &mut model,
        MicInput::Recorded {
            take,
            result: Err("No sound was recorded".into()),
        },
    );
    assert_eq!(
        effects,
        only(MicEffect::ResumeMedia(vec!["spotify".into()]))
    );
    let view = model.mic_test().rows();
    assert_eq!(view.status, "No sound was recorded");
    assert_eq!(view.record, Some("Record"));
    assert!(view.playback.is_none());
    // Nothing left to resume when the test ends later.
    assert!(mic(&mut model, MicInput::Done).is_empty());
}

#[test]
fn late_recording_results_are_ignored() {
    let mut model = visible_with_airpods();
    let take = recorded_take(&mut model, &[]);
    // Done while the recorder was being joined.
    mic(&mut model, MicInput::Done);
    assert!(
        mic(
            &mut model,
            MicInput::Recorded {
                take,
                result: Ok(Recording(vec![1]))
            }
        )
        .is_empty()
    );
    assert_eq!(model.mic_test(), &MicTest::Idle);

    // A new take ignores the result of the one before it.
    let second = recorded_take(&mut model, &[]);
    assert_ne!(second, take);
    assert!(
        mic(
            &mut model,
            MicInput::Recorded {
                take,
                result: Ok(Recording(vec![1]))
            }
        )
        .is_empty()
    );
    assert_eq!(model.mic_test(), &MicTest::Stopping);
}

#[test]
fn media_paused_after_the_test_ended_is_resumed() {
    let mut model = visible_with_airpods();
    mic(&mut model, MicInput::Record);
    mic(&mut model, MicInput::Done);
    assert_eq!(
        mic(&mut model, MicInput::MediaPaused(vec!["vlc".into()])),
        only(MicEffect::ResumeMedia(vec!["vlc".into()]))
    );
    assert!(mic(&mut model, MicInput::MediaPaused(Vec::new())).is_empty());
}

#[test]
fn recorder_reaching_its_limit_stops_the_recording() {
    let mut model = visible_with_airpods();
    mic(&mut model, MicInput::Record);
    mic(&mut model, MicInput::MediaPaused(Vec::new()));
    assert!(mic(&mut model, MicInput::Tick(recorder(1, false))).is_empty());
    let effects = mic(&mut model, MicInput::Tick(recorder(300, true)));
    assert!(matches!(
        effects.as_slice(),
        [Effect::Microphone(MicEffect::StopRecording { .. })]
    ));
    assert_eq!(model.mic_test(), &MicTest::Stopping);
}

#[test]
fn disconnect_ends_the_test() {
    let mut model = visible_with_airpods();
    mic(&mut model, MicInput::Record);
    mic(&mut model, MicInput::MediaPaused(vec!["spotify".into()]));
    let effects = model.update(Input::Backend(BluetoothUIMessage::DeviceDisconnected(
        PODS.to_string(),
    )));
    assert_eq!(
        effects,
        vec![
            Effect::Microphone(MicEffect::Release),
            Effect::Microphone(MicEffect::ResumeMedia(vec!["spotify".into()])),
        ]
    );
    assert_eq!(model.mic_test(), &MicTest::Idle);
    assert_eq!(model.mic_tick(), None);
}

#[test]
fn turning_the_hires_mic_off_ends_the_test_and_saves() {
    let mut model = visible_with_airpods();
    ready(&mut model, &["spotify"]);
    let effects = mic(&mut model, MicInput::SetHiRes(PODS.to_string(), false));
    assert_eq!(
        effects,
        vec![
            Effect::Microphone(MicEffect::SetHiRes {
                mac: PODS.to_string(),
                enabled: false
            }),
            Effect::SaveSettings,
            Effect::Microphone(MicEffect::Release),
            Effect::Microphone(MicEffect::ResumeMedia(vec!["spotify".into()])),
        ]
    );
    assert!(!model.settings().hires_mic_enabled);
    assert_eq!(model.mic_test(), &MicTest::Idle);
}

#[test]
fn hires_switch_for_disconnected_airpods_does_nothing() {
    let mut model = model();
    assert!(mic(&mut model, MicInput::SetHiRes(PODS.to_string(), false)).is_empty());
    assert!(model.settings().hires_mic_enabled);
}

#[test]
fn player_ticks_update_the_position_and_clear_the_request() {
    let mut model = visible_with_airpods();
    ready(&mut model, &[]);
    mic(&mut model, MicInput::Play);
    // The player waits for the sound server; the request keeps ticking.
    mic(&mut model, MicInput::Tick(player(0, 10, false, None)));
    assert_eq!(model.mic_tick(), Some(mic_tick_rate()));
    mic(&mut model, MicInput::Tick(player(3, 10, true, None)));
    assert_eq!(
        model.mic_test().rows().playback.unwrap().label,
        "0:03 / 0:10"
    );
    // Played to the end.
    mic(&mut model, MicInput::Tick(player(10, 10, false, None)));
    assert_eq!(model.mic_tick(), Some(mic_watch_rate()));

    mic(&mut model, MicInput::Play);
    mic(
        &mut model,
        MicInput::Tick(player(0, 10, false, Some("Playback failed"))),
    );
    assert_eq!(model.mic_test().rows().status, "Playback failed");
    assert_eq!(model.mic_tick(), Some(mic_watch_rate()));
}

#[test]
fn tick_rate_follows_what_moves() {
    let mut model = model();
    model.update(Input::WindowVisible(true));
    assert_eq!(model.mic_tick(), None, "no AirPods, no ticks");

    connected(&mut model, AirPodsSnapshot::default());
    assert_eq!(model.mic_tick(), Some(mic_watch_rate()));

    mic(&mut model, MicInput::Tick(capture(true, 0.5, Some("Zoom"))));
    assert_eq!(model.mic_tick(), Some(mic_tick_rate()));
    mic(&mut model, MicInput::Tick(capture(false, 0.0, None)));
    assert_eq!(model.mic_tick(), Some(mic_watch_rate()));

    mic(&mut model, MicInput::Record);
    assert_eq!(model.mic_tick(), Some(mic_watch_rate()), "waiting for the pause");
    mic(&mut model, MicInput::MediaPaused(Vec::new()));
    assert_eq!(model.mic_tick(), Some(mic_tick_rate()));
    // The recorder is watched with the window hidden too.
    model.update(Input::WindowVisible(false));
    assert_eq!(model.mic_tick(), Some(mic_tick_rate()));
    mic(&mut model, MicInput::Stop);
    assert_eq!(model.mic_tick(), None);

    model.update(Input::WindowVisible(true));
    mic(&mut model, MicInput::SetHiRes(PODS.to_string(), false));
    assert_eq!(model.mic_tick(), None, "idle with the hi-res mic off");
}

#[test]
fn capture_shows_the_meter_and_locks_conversation_awareness() {
    let mut model = visible_with_airpods();
    assert!(model.mic_capture(PODS).is_none());
    mic(&mut model, MicInput::Tick(capture(true, 1.7, Some("Zoom"))));
    let shown = model.mic_capture(PODS).unwrap();
    assert_eq!(shown.title(), "In use by Zoom");
    assert!((f32::from_bits(shown.level) - 1.0).abs() < f32::EPSILON);
    assert!(model.conversation_awareness_locked(PODS));
    assert!(
        model
            .update(Input::SetConversationAwareness(PODS.to_string(), true))
            .is_empty()
    );

    // A capture state that could not be read keeps the last one.
    mic(&mut model, MicInput::Tick(MicSample::default()));
    assert!(model.mic_capture(PODS).is_some());

    mic(&mut model, MicInput::Tick(capture(true, f32::NAN, None)));
    let shown = model.mic_capture(PODS).unwrap();
    assert_eq!(shown.title(), "Input level");
    assert!(f32::from_bits(shown.level).abs() < f32::EPSILON);

    model.update(Input::Setting(
        SettingChange::HiResMicPauseConvo(false),
    ));
    assert!(!model.conversation_awareness_locked(PODS));
}

#[test]
fn capture_of_unknown_devices_is_dropped() {
    let mut model = model();
    mic(&mut model, MicInput::Tick(capture(true, 0.5, None)));
    assert!(model.mic_capture(PODS).is_none());
}

#[test]
fn recording_debug_prints_its_size() {
    assert_eq!(Recording(vec![0; 4]).debug_text(), "Recording(4 bytes)");
}
