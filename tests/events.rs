use pet_bridge::audio::{AudioContext, AudioRequest};
use pet_bridge::bridge::{EventBridge, InboundCategory};
use pet_bridge::codec::{
    decode_audio_response, decode_inbound, decode_outbound, encode_audio_response, encode_inbound, encode_outbound,
    DecodeError, WireMessage, WireValue,
};
use pet_bridge::audio::AudioResponse;
use pet_bridge::events::{BevyToJsEvent, JsToBevyEvent, PendingRequests, SharedSettings};

#[test]
fn test_audio_event_serialization() {
    let event = BevyToJsEvent::PlayAudio {
        request_id: "test-123".to_string(),
        sound_id: "yipee.mp3".to_string(),
        volume: 800,
    };
    let serialized = encode_outbound(&event);
    let deserialized = decode_outbound(&serialized).unwrap();
    match deserialized {
        BevyToJsEvent::PlayAudio { request_id, sound_id, volume } => {
            assert_eq!(request_id, "test-123");
            assert_eq!(sound_id, "yipee.mp3");
            assert_eq!(volume, 800);
        }
        _ => panic!("Wrong event type after deserialization"),
    }
}

#[test]
fn test_audio_completion_event() {
    let event = JsToBevyEvent::AudioCompleted {
        request_id: "test-456".to_string(),
        success: true,
        error_message: None,
        duration_ms: Some(2500),
    };
    let serialized = encode_inbound(&event);
    let deserialized = decode_inbound(&serialized).unwrap();
    match deserialized {
        JsToBevyEvent::AudioCompleted { request_id, success, duration_ms, .. } => {
            assert_eq!(request_id, "test-456");
            assert_eq!(success, true);
            assert_eq!(duration_ms, Some(2500));
        }
        _ => panic!("Wrong event type after deserialization"),
    }
}

#[test]
fn test_event_bridge_integration() {
    let mut bridge = EventBridge::new();
    bridge.outgoing_events.enqueue(BevyToJsEvent::PlayAudio {
        request_id: "integration-test".to_string(),
        sound_id: "test.mp3".to_string(),
        volume: 1000,
    });
    let out = bridge.tick(100);
    assert_eq!(out.events.len(), 1);
    assert!(bridge.pending.audio_requests.contains(&"integration-test".to_string()));

    let response = encode_inbound(&JsToBevyEvent::AudioCompleted {
        request_id: "integration-test".to_string(),
        success: true,
        error_message: None,
        duration_ms: Some(1500),
    });
    assert!(bridge.submit_inbound(InboundCategory::BridgeEvent, &response).is_ok());
    bridge.tick(200);
    assert!(!bridge.pending.audio_requests.contains(&"integration-test".to_string()));
}

#[test]
fn malformed_inbound_message_is_refused_without_change() {
    let mut bridge = EventBridge::new();
    let mut msg = WireMessage::new();
    msg.push("type", WireValue::Text("AudioCompleted".to_string()));
    msg.push("request_id", WireValue::Number(5));
    assert!(matches!(bridge.submit_inbound(InboundCategory::BridgeEvent, &msg), Err(DecodeError::BadField(_))));
    assert_eq!(bridge.incoming_js_events.len(), 0);
    let mut unknown = WireMessage::new();
    unknown.push("type", WireValue::Text("Teleport".to_string()));
    assert!(matches!(bridge.submit_inbound(InboundCategory::AudioResponse, &unknown), Err(DecodeError::UnknownType)));
    assert!(matches!(decode_inbound(&WireMessage::new()), Err(DecodeError::UnknownType)));
    assert_eq!(bridge.incoming_audio_responses.len(), 0);
}

#[test]
fn gesture_in_a_tick_opens_the_gate_for_that_tick() {
    let mut bridge = EventBridge::new();
    let req = AudioRequest::Play {
        request_id: "a1".to_string(),
        sound_id: "yipee".to_string(),
        context: AudioContext::Test,
        volume: 800,
        loop_audio: false,
    };
    bridge.audio_requests.enqueue(req);
    let out = bridge.tick(1);
    assert!(out.audio_requests.is_empty());
    assert!(!bridge.audio.pending_requests.contains(&"a1".to_string()));

    let gesture = encode_inbound(&JsToBevyEvent::UserGesture { request_id: "g".to_string(), timestamp_us: 5_000 });
    bridge.submit_inbound(InboundCategory::BridgeEvent, &gesture).unwrap();
    bridge.audio_requests.enqueue(AudioRequest::Play {
        request_id: "a2".to_string(),
        sound_id: "enter_area".to_string(),
        context: AudioContext::Enter,
        volume: 800,
        loop_audio: false,
    });
    let out = bridge.tick(2);
    assert!(bridge.audio.gesture_enabled());
    assert_eq!(out.audio_requests.len(), 1);
    assert!(bridge.audio.pending_requests.contains(&"a2".to_string()));

    let done = encode_audio_response(&AudioResponse::PlayCompleted {
        request_id: "a2".to_string(),
        success: true,
        duration_ms: Some(1200),
        error_message: None,
    });
    bridge.submit_inbound(InboundCategory::AudioResponse, &done).unwrap();
    bridge.tick(3);
    assert!(!bridge.audio.pending_requests.contains(&"a2".to_string()));
    assert_eq!(bridge.audio.errors.error_count, 0);
    assert!(bridge.audio.gesture_enabled());
}

#[test]
fn settings_are_adopted_with_music_off() {
    let mut pending = PendingRequests::new();
    let mut settings = SharedSettings::new();
    let gesture = pending.handle_inbound(
        JsToBevyEvent::SettingsUpdated {
            request_id: "s1".to_string(),
            settings: SharedSettings { music_enabled: true, bgm_volume: 300, sfx_volume: 900 },
        },
        &mut settings,
    );
    assert!(!gesture);
    assert_eq!(settings, SharedSettings { music_enabled: false, bgm_volume: 300, sfx_volume: 900 });
}

#[test]
fn scan_requests_are_tracked_until_completed() {
    let mut pending = PendingRequests::new();
    let mut settings = SharedSettings::default();
    pending.track_outbound(&BevyToJsEvent::BluetoothScan { request_id: "s".to_string(), device_filter: "collar".to_string() }, 9);
    pending.track_outbound(&BevyToJsEvent::TestEvent { request_id: "t".to_string(), message: "hi".to_string() }, 9);
    assert!(pending.bluetooth_requests.contains(&"s".to_string()));
    assert_eq!(pending.audio_requests.len(), 0);
    assert_eq!(pending.bluetooth_requests.get(&"s".to_string()).unwrap().payload.device_filter, "collar");
    pending.handle_inbound(
        JsToBevyEvent::BluetoothScanCompleted {
            request_id: "s".to_string(),
            success: true,
            devices_found: vec!["virtual_collar_001".to_string()],
            error_message: None,
        },
        &mut settings,
    );
    assert!(!pending.bluetooth_requests.contains(&"s".to_string()));
}

#[test]
fn every_wire_variant_survives_a_round_trip() {
    let events = vec![
        JsToBevyEvent::BluetoothScanCompleted {
            request_id: "b".to_string(),
            success: false,
            devices_found: vec!["x".to_string(), "y".to_string()],
            error_message: Some("timeout".to_string()),
        },
        JsToBevyEvent::TestEventResponse { request_id: "t".to_string(), response_data: "pong".to_string() },
        JsToBevyEvent::UserGesture { request_id: "g".to_string(), timestamp_us: 1_700_000_000_000_000 },
        JsToBevyEvent::SettingsUpdated {
            request_id: "s".to_string(),
            settings: SharedSettings { music_enabled: true, bgm_volume: 1, sfx_volume: 2 },
        },
    ];
    for e in events {
        let back = decode_inbound(&encode_inbound(&e)).unwrap();
        assert_eq!(format!("{:?}", back), format!("{:?}", e));
    }
    let responses = vec![
        AudioResponse::Stopped { request_id: "s".to_string(), success: true },
        AudioResponse::VolumeChanged { request_id: "v".to_string(), new_volume: 450 },
        AudioResponse::TestCompleted { request_id: "t".to_string(), result: "fine".to_string() },
        AudioResponse::PlayCompleted { request_id: "p".to_string(), success: false, duration_ms: None, error_message: Some("x".to_string()) },
    ];
    for r in responses {
        let back = decode_audio_response(&encode_audio_response(&r)).unwrap();
        assert_eq!(format!("{:?}", back), format!("{:?}", r));
    }
    let requests = vec![
        AudioRequest::Stop { request_id: "s".to_string(), sound_id: None },
        AudioRequest::Stop { request_id: "s2".to_string(), sound_id: Some("yipee".to_string()) },
        AudioRequest::SetVolume { request_id: "v".to_string(), volume: 10 },
        AudioRequest::Test { request_id: "t".to_string(), test_type: "beep".to_string() },
        AudioRequest::Play { request_id: "p".to_string(), sound_id: "q".to_string(), context: AudioContext::Ambient, volume: 0, loop_audio: true },
    ];
    for r in requests {
        let back = pet_bridge::codec::decode_audio_request(&pet_bridge::codec::encode_audio_request(&r)).unwrap();
        assert_eq!(format!("{:?}", back), format!("{:?}", r));
    }
    let outbound = vec![
        BevyToJsEvent::BluetoothScan { request_id: "b".to_string(), device_filter: "f".to_string() },
        BevyToJsEvent::TestEvent { request_id: "t".to_string(), message: "m".to_string() },
    ];
    for o in outbound {
        let back = decode_outbound(&encode_outbound(&o)).unwrap();
        assert_eq!(format!("{:?}", back), format!("{:?}", o));
    }
}

#[test]
fn missing_optional_fields_read_as_absent() {
    let mut msg = WireMessage::new();
    msg.push("type", WireValue::Text("PlayCompleted".to_string()));
    msg.push("request_id", WireValue::Text("r".to_string()));
    msg.push("success", WireValue::Bool(true));
    match decode_audio_response(&msg).unwrap() {
        AudioResponse::PlayCompleted { duration_ms, error_message, .. } => {
            assert_eq!(duration_ms, None);
            assert_eq!(error_message, None);
        }
        _ => panic!("wrong variant"),
    }
    let mut bad = WireMessage::new();
    bad.push("type", WireValue::Text("VolumeChanged".to_string()));
    bad.push("request_id", WireValue::Text("r".to_string()));
    bad.push("new_volume", WireValue::Number(-1));
    assert!(matches!(decode_audio_response(&bad), Err(DecodeError::BadField(_))));
}

#[test]
fn numbers_outside_their_range_are_refused() {
    let mut msg = WireMessage::new();
    msg.push("type", WireValue::Text("SetVolume".to_string()));
    msg.push("request_id", WireValue::Text("v".to_string()));
    msg.push("volume", WireValue::Number(u32::MAX as i64 + 1));
    assert!(matches!(pet_bridge::codec::decode_audio_request(&msg), Err(DecodeError::BadField(_))));
    let mut ok = WireMessage::new();
    ok.push("type", WireValue::Text("SetVolume".to_string()));
    ok.push("request_id", WireValue::Text("v".to_string()));
    ok.push("volume", WireValue::Number(u32::MAX as i64));
    assert!(matches!(pet_bridge::codec::decode_audio_request(&ok), Ok(AudioRequest::SetVolume { volume: u32::MAX, .. })));
}
