use astra_emu_cmvs::artemis::archive::{check_selected_archive, choose_base_archive, is_pfs_name};
use astra_emu_cmvs::artemis::events::{
    check_batch_size, log_level_of, parse_event_batch, ArtemisEventFrame, ArtemisLogLevel,
};
use astra_emu_cmvs::artemis::mixer::{ArtemisVoiceTable, FRAME_BUDGET, MAX_VOICES};
use astra_emu_cmvs::artemis::input::{
    apply_events, translate_button, translate_key, ArtemisInputEvent, ArtemisKeyCode,
    ArtemisKeyState, ArtemisPointerButton, ArtemisRuntimeInput,
};
use astra_emu_cmvs::artemis::media::{
    bus, channel_of, media_kind_of, play_voice_id, ArtemisChannel, ArtemisMediaKind,
};
use astra_emu_cmvs::artemis::{
    elapsed_ms, engine_message, frame_info_of, session_name, ArtemisError, ArtemisFrameInfo, ArtemisProvider,
};

fn event_bytes(kind: u32, aux: u32, payload: &[u8]) -> Vec<u8> {
    let mut out = vec![0u8; 24];
    out[4..8].copy_from_slice(&kind.to_le_bytes());
    out[16..20].copy_from_slice(&(payload.len() as u32).to_le_bytes());
    out[20..24].copy_from_slice(&aux.to_le_bytes());
    out.extend_from_slice(payload);
    out
}

#[test]
fn keys_map_to_windows_virtual_key_codes() {
    assert_eq!(translate_key(ArtemisKeyCode::Enter), Some(0x0D));
    assert_eq!(translate_key(ArtemisKeyCode::NumpadEnter), Some(0x0D));
    assert_eq!(translate_key(ArtemisKeyCode::Escape), Some(0x1B));
    assert_eq!(translate_key(ArtemisKeyCode::A), Some(0x41));
    assert_eq!(translate_key(ArtemisKeyCode::Z), Some(0x5A));
    assert_eq!(translate_key(ArtemisKeyCode::Digit0), Some(0x30));
    assert_eq!(translate_key(ArtemisKeyCode::Numpad9), Some(0x69));
    assert_eq!(translate_key(ArtemisKeyCode::NumpadMultiply), Some(0x6A));
    assert_eq!(translate_key(ArtemisKeyCode::F12), Some(0x7B));
    assert_eq!(translate_key(ArtemisKeyCode::ShiftRight), Some(0x10));
    assert_eq!(translate_key(ArtemisKeyCode::Grave), Some(0xC0));
    assert_eq!(translate_key(ArtemisKeyCode::Unknown), None);
}

#[test]
fn pointer_buttons_use_artemis_codes() {
    assert_eq!(translate_button(ArtemisPointerButton::Primary), Some(1));
    assert_eq!(translate_button(ArtemisPointerButton::Secondary), Some(2));
    assert_eq!(translate_button(ArtemisPointerButton::Middle), Some(4));
    assert_eq!(translate_button(ArtemisPointerButton::Back), None);
    assert_eq!(translate_button(ArtemisPointerButton::Forward), None);
}

#[test]
fn primary_press_feeds_a_click_and_a_decide_edge() {
    let events = [
        ArtemisInputEvent::PointerMove { x: 3, y: -4 },
        ArtemisInputEvent::PointerButton {
            button: ArtemisPointerButton::Primary,
            state: ArtemisKeyState::Pressed,
        },
        ArtemisInputEvent::Key { code: ArtemisKeyCode::Enter, state: ArtemisKeyState::Released },
        ArtemisInputEvent::Key { code: ArtemisKeyCode::Unknown, state: ArtemisKeyState::Pressed },
        ArtemisInputEvent::PointerButton {
            button: ArtemisPointerButton::Back,
            state: ArtemisKeyState::Pressed,
        },
        ArtemisInputEvent::Other,
    ];
    let (inputs, decide) = apply_events(&events);
    assert_eq!(
        inputs,
        vec![
            ArtemisRuntimeInput::Mouse { x: 3, y: -4 },
            ArtemisRuntimeInput::MouseButton { code: 1, pressed: true },
            ArtemisRuntimeInput::Click,
            ArtemisRuntimeInput::KeyUp(0x0D),
        ]
    );
    assert!(decide);
}

#[test]
fn enter_repeat_decides_and_other_buttons_do_not() {
    let (inputs, decide) = apply_events(&[ArtemisInputEvent::Key {
        code: ArtemisKeyCode::NumpadEnter,
        state: ArtemisKeyState::Repeated,
    }]);
    assert_eq!(inputs, vec![ArtemisRuntimeInput::KeyDown(0x0D)]);
    assert!(decide);
    let (inputs, decide) = apply_events(&[
        ArtemisInputEvent::PointerButton {
            button: ArtemisPointerButton::Secondary,
            state: ArtemisKeyState::Pressed,
        },
        ArtemisInputEvent::PointerButton {
            button: ArtemisPointerButton::Primary,
            state: ArtemisKeyState::Released,
        },
        ArtemisInputEvent::Key { code: ArtemisKeyCode::Space, state: ArtemisKeyState::Pressed },
    ]);
    assert_eq!(
        inputs,
        vec![
            ArtemisRuntimeInput::MouseButton { code: 2, pressed: true },
            ArtemisRuntimeInput::MouseButton { code: 1, pressed: false },
            ArtemisRuntimeInput::KeyDown(0x20),
        ]
    );
    assert!(!decide);
    assert_eq!(apply_events(&[]), (Vec::new(), false));
}

#[test]
fn event_batches_are_framed_in_order() {
    let mut bytes = event_bytes(2, 0x57, b"hello");
    bytes.extend(event_bytes(3, 0, b"{}"));
    let written = bytes.len();
    bytes.extend_from_slice(&[0xAA; 7]);
    let (frames, error) = parse_event_batch(&bytes, written, 2);
    assert_eq!(error, None);
    assert_eq!(
        frames,
        vec![
            ArtemisEventFrame { kind: 2, aux: 0x57, payload_offset: 24, payload_len: 5 },
            ArtemisEventFrame { kind: 3, aux: 0, payload_offset: 53, payload_len: 2 },
        ]
    );
    assert_eq!(&bytes[53..55], b"{}");
}

#[test]
fn malformed_batches_keep_the_events_before_the_fault() {
    let mut bytes = event_bytes(2, 0x45, b"boom");
    let first_end = bytes.len();
    bytes.extend(event_bytes(3, 0, b"payload"));
    let all = bytes.len();
    assert_eq!(parse_event_batch(&bytes, 0, 2), (Vec::new(), Some(ArtemisError::MediaCommand)));
    assert_eq!(parse_event_batch(&bytes, all + 1, 2), (Vec::new(), Some(ArtemisError::MediaCommand)));
    assert_eq!(parse_event_batch(&bytes, all, 0), (Vec::new(), Some(ArtemisError::MediaCommand)));
    let first = ArtemisEventFrame { kind: 2, aux: 0x45, payload_offset: 24, payload_len: 4 };
    // The second payload runs past the written bytes.
    assert_eq!(parse_event_batch(&bytes, all - 1, 2), (vec![first], Some(ArtemisError::MediaCommand)));
    // A third header is announced but absent.
    let (frames, error) = parse_event_batch(&bytes, all, 3);
    assert_eq!(frames.len(), 2);
    assert_eq!(error, Some(ArtemisError::MediaCommand));
    // Bytes left over after the announced events.
    assert_eq!(parse_event_batch(&bytes, all, 1), (vec![first], Some(ArtemisError::MediaCommand)));
    assert_eq!(parse_event_batch(&bytes, first_end, 1), (vec![first], None));
}

#[test]
fn batch_size_limit_and_log_levels() {
    assert_eq!(check_batch_size(4 * 1024 * 1024), Ok(()));
    assert_eq!(check_batch_size(4 * 1024 * 1024 + 1), Err(ArtemisError::MediaCommand));
    assert_eq!(log_level_of('E' as u32), ArtemisLogLevel::Error);
    assert_eq!(log_level_of('W' as u32), ArtemisLogLevel::Warn);
    assert_eq!(log_level_of('D' as u32), ArtemisLogLevel::Debug);
    assert_eq!(log_level_of('T' as u32), ArtemisLogLevel::Trace);
    assert_eq!(log_level_of('I' as u32), ArtemisLogLevel::Info);
    assert_eq!(log_level_of(0x1_0045), ArtemisLogLevel::Info);
}

#[test]
fn rejects_video_without_fabricating_completion() {
    assert_eq!(media_kind_of("video_play"), Err(ArtemisError::MediaUnsupported));
    assert_eq!(
        media_kind_of("video_play").unwrap_err().code(),
        "ASTRA_EMU_ARTEMIS_MEDIA_UNSUPPORTED"
    );
}

#[test]
fn media_kinds_select_mixer_requests() {
    assert_eq!(media_kind_of("video_stop_all"), Ok(ArtemisMediaKind::VideoStopAll));
    assert_eq!(media_kind_of("audio_set_volume"), Ok(ArtemisMediaKind::SetVolume));
    assert_eq!(media_kind_of("audio_bgm_play"), Ok(ArtemisMediaKind::Play(ArtemisChannel::Bgm)));
    assert_eq!(media_kind_of("audio_se_play"), Ok(ArtemisMediaKind::Play(ArtemisChannel::Se)));
    assert_eq!(media_kind_of("audio_voice_play"), Ok(ArtemisMediaKind::Play(ArtemisChannel::Voice)));
    assert_eq!(media_kind_of("audio_se_stop"), Ok(ArtemisMediaKind::Stop));
    assert_eq!(media_kind_of("audio_bgm_fade"), Ok(ArtemisMediaKind::Fade));
    assert_eq!(media_kind_of("audio_se_pan"), Ok(ArtemisMediaKind::Pan));
    assert_eq!(media_kind_of("audio_stop_all"), Ok(ArtemisMediaKind::StopAll));
    assert_eq!(media_kind_of("audio_voice_stop"), Err(ArtemisError::MediaUnsupported));
    assert_eq!(channel_of("bgm"), Some(ArtemisChannel::Bgm));
    assert_eq!(channel_of("se"), Some(ArtemisChannel::Se));
    assert_eq!(channel_of("voice"), Some(ArtemisChannel::Voice));
    assert_eq!(channel_of("unknown"), None);
    assert_eq!(channel_of("BGM"), None);
    assert_eq!(bus(ArtemisChannel::Bgm), 0);
    assert_eq!(bus(ArtemisChannel::Se), 1);
    assert_eq!(bus(ArtemisChannel::Voice), 2);
    assert_eq!(play_voice_id(ArtemisChannel::Bgm, Some("theme".to_string())), None);
    assert_eq!(
        play_voice_id(ArtemisChannel::Voice, Some("v01".to_string())),
        Some("v01".to_string())
    );
}

#[test]
fn configured_archive_must_be_a_direct_pfs_filename() {
    assert_eq!(check_selected_archive("data.pfs"), Ok(()));
    assert_eq!(check_selected_archive("DATA.PfS"), Ok(()));
    for name in ["../data.pfs", "x/data.pfs", "x\\data.pfs", "x:data.pfs", "data.pf", "pfs", "data.pfs.bak"] {
        assert_eq!(check_selected_archive(name), Err(ArtemisError::Archive));
    }
}

#[test]
fn pfs_files_are_recognised_by_extension() {
    assert!(is_pfs_name("data.pfs"));
    assert!(is_pfs_name("DATA.PFS"));
    assert!(is_pfs_name("a.b.pfs"));
    assert!(is_pfs_name(".x.pfs"));
    assert!(!is_pfs_name(".pfs"));
    assert!(!is_pfs_name("data.pfsx"));
    assert!(!is_pfs_name("pfs"));
    assert!(!is_pfs_name("data."));
}

#[test]
fn base_archive_must_be_unambiguous() {
    assert_eq!(choose_base_archive(Vec::<String>::new()), Err(ArtemisError::Archive));
    assert_eq!(choose_base_archive(vec!["data.pfs"]), Ok("data.pfs"));
    assert_eq!(
        choose_base_archive(vec!["data.pfs", "patch.pfs"]).unwrap_err().code(),
        "ASTRA_EMU_ARTEMIS_ARCHIVE_AMBIGUOUS"
    );
}

#[test]
fn sessions_are_numbered_and_named() {
    let mut provider = ArtemisProvider::new();
    assert_eq!(provider.allocate_session_id(), Ok(0));
    assert_eq!(provider.allocate_session_id(), Ok(1));
    let mut fresh = ArtemisProvider::default();
    assert_eq!(fresh.allocate_session_id(), Ok(0));
    assert_eq!(session_name(0), "artemis-0");
    assert_eq!(session_name(12345), "artemis-12345");
    assert_eq!(session_name(u64::MAX), "artemis-18446744073709551615");
}

#[test]
fn frame_shape_and_tick_length() {
    assert_eq!(frame_info_of(0, 5), Err(ArtemisError::FrameEmpty));
    assert_eq!(frame_info_of(5, 0), Err(ArtemisError::FrameEmpty));
    assert_eq!(
        frame_info_of(1280, 720),
        Ok(ArtemisFrameInfo { width: 1280, height: 720, stride: 5120 })
    );
    assert_eq!(frame_info_of(0x4000_0000, 1), Err(ArtemisError::FrameSize));
    assert_eq!(elapsed_ms(0), 1);
    assert_eq!(elapsed_ms(1_499_999), 1);
    assert_eq!(elapsed_ms(1_500_000), 2);
    assert_eq!(elapsed_ms(16_666_667), 17);
    assert_eq!(elapsed_ms(2_000_000_000), 1000);
}

#[test]
fn voice_table_stops_named_voices_and_reports_natural_ends() {
    let mut table = ArtemisVoiceTable::new();
    assert_eq!(table.play_budget(), Ok(FRAME_BUDGET));
    table.push(None, ArtemisChannel::Bgm, 1000);
    table.push(Some("v1".to_string()), ArtemisChannel::Voice, 200);
    table.push(Some("v1".to_string()), ArtemisChannel::Se, 30);
    table.push(Some("v2".to_string()), ArtemisChannel::Se, 4);
    assert_eq!(table.len(), 4);
    assert_eq!(table.play_budget(), Ok(FRAME_BUDGET - 1234));
    assert_eq!(table.loop_budget(6), FRAME_BUDGET - 1240);
    assert_eq!(table.loop_budget(FRAME_BUDGET), 0);
    assert_eq!(table.matching(&Some("v1".to_string()), None), vec![1, 2]);
    assert_eq!(table.matching(&None, None), vec![0]);
    // A new voice on the voice bus replaces the old one with the same id.
    assert_eq!(table.stop_matching(&Some("v1".to_string()), Some(ArtemisChannel::Voice)), vec![1]);
    let finished = table.retire(&[false, true, true, false]);
    assert_eq!(finished, vec![Some("v1".to_string())]);
    assert_eq!(table.len(), 2);
    assert_eq!(table.matching(&Some("v2".to_string()), Some(ArtemisChannel::Se)), vec![1]);
    assert_eq!(table.stop_all(), 2);
    assert_eq!(table.retire(&[true, true]), Vec::<Option<String>>::new());
    assert_eq!(table.len(), 0);
}

#[test]
fn voice_table_refuses_a_voice_past_the_limit() {
    let mut table = ArtemisVoiceTable::new();
    for _ in 0..MAX_VOICES - 1 {
        table.push(None, ArtemisChannel::Se, 0x10_0000);
    }
    assert_eq!(table.play_budget(), Ok(0));
    table.push(None, ArtemisChannel::Se, 1);
    assert_eq!(table.play_budget().unwrap_err().code(), "ASTRA_EMU_ARTEMIS_AUDIO_MIXER");
}

#[test]
fn engine_errors_keep_only_their_first_line() {
    assert_eq!(engine_message("script failed\nat line 3"), "script failed");
    assert_eq!(engine_message("script failed\r\nat line 3"), "script failed");
    assert_eq!(engine_message("one line"), "one line");
    assert_eq!(engine_message("trailing\r"), "trailing\r");
    assert_eq!(engine_message("\nsecond"), "");
    assert_eq!(engine_message(""), "the Artemis engine failed without a message");
    for text in ["a\nb", "a\r\nb", "x\ry\nz", "no break", "\r\n", "end\n"] {
        assert_eq!(engine_message(text), text.lines().next().unwrap());
    }
}
