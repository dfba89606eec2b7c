use pet_bridge::audio::{AudioContext, AudioError, AudioFormat, AudioManager, AudioRequest, AudioResponse};
use pet_bridge::codec::{decode_audio_request, encode_audio_request};
use pet_bridge::bridge::EventBridge;
use pet_bridge::events::SharedSettings;

fn play(request_id: &str, sound_id: &str, volume: u32) -> AudioRequest {
    AudioRequest::Play {
        request_id: request_id.to_string(),
        sound_id: sound_id.to_string(),
        context: AudioContext::Test,
        volume,
        loop_audio: false,
    }
}

#[test]
fn test_audio_manager_creation() {
    let audio_manager = AudioManager::new();
    assert_eq!(audio_manager.global_volume, 1000);
    assert!(audio_manager.sound_registry.contains_key(&"yipee".to_string()));
    assert!(audio_manager.sound_registry.contains_key(&"enter_area".to_string()));
    assert!(audio_manager.sound_registry.contains_key(&"exit_area".to_string()));
    let click = audio_manager.sound_registry.get(&"button_click".to_string()).unwrap();
    assert_eq!(click.default_volume, 600);
    assert_eq!(click.format, AudioFormat::Mp3);
    assert!(!audio_manager.gesture_enabled());
}

#[test]
fn test_audio_request_serialization() {
    let request = AudioRequest::Play {
        request_id: "test-123".to_string(),
        sound_id: "yipee".to_string(),
        context: AudioContext::Test,
        volume: 800,
        loop_audio: false,
    };
    let serialized = encode_audio_request(&request);
    let deserialized = decode_audio_request(&serialized).unwrap();
    match deserialized {
        AudioRequest::Play { request_id, sound_id, volume, .. } => {
            assert_eq!(request_id, "test-123");
            assert_eq!(sound_id, "yipee");
            assert_eq!(volume, 800);
        }
        _ => panic!("Wrong request type after deserialization"),
    }
}

#[test]
fn gated_audio_is_rejected_without_an_entry() {
    let mut m = AudioManager::new();
    let r = m.dispatch(play("a1", "yipee", 800), 1_000);
    assert!(matches!(r, Err(AudioError::PermissionDenied)));
    assert!(!m.pending_requests.contains(&"a1".to_string()));
    assert_eq!(m.pending_requests.len(), 0);
    assert_eq!(m.errors.error_count, 0);
    assert!(m.errors.last_error.is_none());
}

#[test]
fn successful_audio_round_trip_clears_entry_and_errors() {
    let mut m = AudioManager::new();
    m.handle_error(AudioError::NetworkError("offline".to_string()));
    assert_eq!(m.errors.error_count, 1);
    m.enable_audio_gesture();
    let req = AudioRequest::Play {
        request_id: "a2".to_string(),
        sound_id: "enter_area".to_string(),
        context: AudioContext::Enter,
        volume: 800,
        loop_audio: false,
    };
    assert!(m.dispatch(req, 2_000).is_ok());
    assert!(m.pending_requests.contains(&"a2".to_string()));
    m.handle_response(AudioResponse::PlayCompleted {
        request_id: "a2".to_string(),
        success: true,
        duration_ms: Some(1200),
        error_message: None,
    });
    assert!(!m.pending_requests.contains(&"a2".to_string()));
    assert_eq!(m.errors.error_count, 0);
}

#[test]
fn failed_playback_is_recorded_with_its_message() {
    let mut m = AudioManager::new();
    m.enable_audio_gesture();
    assert!(m.dispatch(play("a3", "yipee", 500), 1).is_ok());
    m.handle_response(AudioResponse::PlayCompleted {
        request_id: "a3".to_string(),
        success: false,
        duration_ms: None,
        error_message: None,
    });
    assert_eq!(m.errors.error_count, 1);
    match &m.errors.last_error {
        Some(AudioError::PlaybackFailed(msg)) => assert_eq!(msg, "Unknown error"),
        other => panic!("unexpected {:?}", other),
    }
}

#[test]
fn completion_for_unknown_request_changes_nothing() {
    let mut m = AudioManager::new();
    m.enable_audio_gesture();
    m.handle_response(AudioResponse::PlayCompleted {
        request_id: "ghost".to_string(),
        success: false,
        duration_ms: None,
        error_message: Some("boom".to_string()),
    });
    assert_eq!(m.errors.error_count, 0);
    assert!(m.errors.last_error.is_none());
}

#[test]
fn play_sound_scales_volume_and_names_request_by_time() {
    let mut m = AudioManager::new();
    m.enable_audio_gesture();
    m.apply_shared_settings(&SharedSettings { music_enabled: true, bgm_volume: 600, sfx_volume: 500 });
    assert_eq!(m.global_volume, 500);
    let id = m.play_sound(&"enter_area".to_string(), None, 1_700_000_000_123).unwrap();
    assert_eq!(id, "audio-1700000000123");
    let entry = m.pending_requests.get(&id).unwrap();
    match &entry.payload {
        AudioRequest::Play { sound_id, context, volume, loop_audio, .. } => {
            assert_eq!(sound_id, "enter_area");
            assert_eq!(*context, AudioContext::Enter);
            assert_eq!(*volume, 400);
            assert!(!*loop_audio);
        }
        _ => panic!("not a play request"),
    }
}

#[test]
fn unknown_sound_is_not_found() {
    let mut m = AudioManager::new();
    m.enable_audio_gesture();
    match m.play_sound(&"missing".to_string(), Some(100), 9) {
        Err(AudioError::FileNotFound(s)) => assert_eq!(s, "missing"),
        other => panic!("unexpected {:?}", other),
    }
    assert_eq!(m.pending_requests.len(), 0);
    assert_eq!(m.errors.error_count, 1);
    assert!(matches!(&m.errors.last_error, Some(AudioError::FileNotFound(s)) if s == "missing"));
}

#[test]
fn convenience_sounds_use_their_registered_defaults() {
    let mut m = AudioManager::new();
    assert!(m.play_enter_sound(5).is_err());
    m.enable_audio_gesture();
    let id = m.test_audio(7).unwrap();
    assert_eq!(id, "audio-7");
    let exit = m.play_exit_sound(8).unwrap();
    match &m.pending_requests.get(&exit).unwrap().payload {
        AudioRequest::Play { sound_id, volume, .. } => {
            assert_eq!(sound_id, "exit_area");
            assert_eq!(*volume, 700);
        }
        _ => panic!("not a play request"),
    }
    assert_eq!(AudioManager::generate_request_id(0), "audio-0");
}

#[test]
fn volume_change_is_clamped_and_clears_entry() {
    let mut m = AudioManager::new();
    m.enable_audio_gesture();
    assert!(m.dispatch(AudioRequest::SetVolume { request_id: "v1".to_string(), volume: 300 }, 3).is_ok());
    m.handle_response(AudioResponse::VolumeChanged { request_id: "v1".to_string(), new_volume: 5000 });
    assert_eq!(m.global_volume, 1000);
    assert!(!m.pending_requests.contains(&"v1".to_string()));
    m.handle_response(AudioResponse::VolumeChanged { request_id: "v2".to_string(), new_volume: 250 });
    assert_eq!(m.global_volume, 250);
}

#[test]
fn gate_stays_open_after_any_operation() {
    let mut m = AudioManager::new();
    m.enable_audio_gesture();
    let _ = m.play_sound(&"missing".to_string(), None, 1);
    m.handle_error(AudioError::PermissionDenied);
    m.handle_response(AudioResponse::Stopped { request_id: "x".to_string(), success: true });
    m.apply_shared_settings(&SharedSettings::new());
    m.enable_audio_gesture();
    assert!(m.gesture_enabled());
}

#[test]
fn fixed_sound_requests_carry_their_defaults() {
    match pet_bridge::audio::play_enter_sound(12) {
        AudioRequest::Play { request_id, sound_id, context, volume, loop_audio } => {
            assert_eq!(request_id, "audio-12");
            assert_eq!(sound_id, "enter_area");
            assert_eq!(context, AudioContext::Enter);
            assert_eq!(volume, 800);
            assert!(!loop_audio);
        }
        _ => panic!("not a play request"),
    }
    assert!(matches!(pet_bridge::audio::play_exit_sound(1), AudioRequest::Play { volume: 700, context: AudioContext::Exit, .. }));
    assert!(matches!(pet_bridge::audio::test_audio_system(1), AudioRequest::Play { volume: 800, context: AudioContext::Test, .. }));
}

#[test]
fn test_audio_plugin_integration() {
    let mut bridge = EventBridge::new();
    assert!(bridge.audio.sound_registry.len() > 0);

    let request = AudioRequest::Test {
        request_id: "test-integration".to_string(),
        test_type: "plugin_test".to_string(),
    };
    bridge.audio_requests.enqueue(request);
    bridge.tick(0);

    assert!(bridge.audio.errors.error_count == 0);
}

#[test]
fn page_sound_requests_default_to_test_context() {
    match pet_bridge::audio::play_audio_native("enter_area", None, 31) {
        AudioRequest::Play { request_id, sound_id, context, volume, loop_audio } => {
            assert_eq!(request_id, "audio-31");
            assert_eq!(sound_id, "enter_area");
            assert_eq!(context, AudioContext::Test);
            assert_eq!(volume, 800);
            assert!(!loop_audio);
        }
        _ => panic!("not a play request"),
    }
    assert!(matches!(pet_bridge::audio::play_audio_native("x", Some(700), 1), AudioRequest::Play { volume: 700, .. }));
}

#[test]
fn dispatched_entry_records_time_and_payload() {
    let mut bridge = EventBridge::new();
    bridge.audio.enable_audio_gesture();
    bridge.audio_requests.enqueue(play("t1", "yipee", 300));
    bridge.audio_requests.enqueue(play("t1", "yipee", 400));
    let out = bridge.tick(77);
    assert_eq!(out.audio_requests.len(), 2);
    assert_eq!(bridge.audio.pending_requests.len(), 1);
    let e = bridge.audio.pending_requests.get(&"t1".to_string()).unwrap();
    assert_eq!(e.submitted_at, 77);
    assert_eq!(e.retry_count, 0);
    assert!(matches!(e.payload, AudioRequest::Play { volume: 400, .. }));
}
