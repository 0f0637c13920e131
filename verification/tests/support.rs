use steno::{
    CaptureSource, negotiated_sample_rate, start_guard, stop_guard,
    PERM_HINT_MIC, PERM_HINT_SCREEN, Meter, Platform, RecordingMeta, audio_output_components, chars_of, check_input_config,
    check_loopback_config, contains_chars, decimal_string, describe_mic_error,
    describe_system_error, humanize_mic_error, humanize_system_error, open_mic_settings,
    open_permission_panel, open_screen_capture_settings, opener_command, opener_name,
};

#[test]
fn meter_empty_observation_keeps_zero() {
    let m = Meter::new();
    m.observe_peak_bits(0.0f32.to_bits());
    assert_eq!(f32::from_bits(m.take_peak_bits()), 0.0);
}

#[test]
fn meter_keeps_largest_peak() {
    let m = Meter::new();
    m.observe_peak_bits(0.5f32.to_bits());
    assert_eq!(f32::from_bits(m.take_peak_bits()), 0.5);
}

#[test]
fn meter_take_resets_to_zero() {
    let m = Meter::new();
    m.observe_peak_bits(0.7f32.to_bits());
    assert_eq!(f32::from_bits(m.take_peak_bits()), 0.7);
    assert_eq!(f32::from_bits(m.take_peak_bits()), 0.0);
}

#[test]
fn meter_accumulates_max_until_take() {
    let m = Meter::new();
    m.observe_peak_bits(0.3f32.to_bits());
    m.observe_peak_bits(0.1f32.to_bits());
    m.observe_peak_bits(0.8f32.to_bits());
    assert_eq!(f32::from_bits(m.take_peak_bits()), 0.8);
}

#[test]
fn meter_clones_share_the_register() {
    let m = Meter::new();
    let n = m.clone();
    n.observe_peak_bits(0.25f32.to_bits());
    assert_eq!(f32::from_bits(m.take_peak_bits()), 0.25);
    assert_eq!(n.take_peak_bits(), 0);
    let d = Meter::default();
    assert_eq!(d.take_peak_bits(), 0);
}

#[test]
fn input_config_accepts_one_to_eight_channels() {
    assert_eq!(
        check_input_config(44_100, 2),
        Ok(RecordingMeta { sample_rate: 44_100, channels: 2 })
    );
    assert_eq!(
        check_input_config(48_000, 8),
        Ok(RecordingMeta { sample_rate: 48_000, channels: 8 })
    );
    assert_eq!(
        check_input_config(48_000, 9),
        Err("device reports 9 channels; refusing to capture (downmix supports 1-8)".to_string())
    );
    assert_eq!(
        check_input_config(48_000, 0),
        Err("device reports 0 channels; refusing to capture (downmix supports 1-8)".to_string())
    );
}

#[test]
fn loopback_config_needs_48k_first() {
    assert_eq!(
        check_loopback_config(48_000, 2),
        Ok(RecordingMeta { sample_rate: 48_000, channels: 2 })
    );
    assert_eq!(
        check_loopback_config(44_100, 12),
        Err("output device sample rate is 44100 Hz; M1 requires 48000 Hz (rubato resampling lands in M1.5)".to_string())
    );
    assert_eq!(
        check_loopback_config(48_000, 12),
        Err("output device reports 12 channels; downmix supports 1-8".to_string())
    );
}

#[test]
fn decimal_rendering_matches_format() {
    for n in [0u64, 7, 10, 99, 100, 48_000, 4_294_967_295, u64::MAX] {
        assert_eq!(decimal_string(n), format!("{n}"));
    }
}

#[test]
fn substring_search() {
    let hay = chars_of("Permission denied (os error 13)");
    assert!(contains_chars(&hay, &chars_of("denied")));
    assert!(contains_chars(&hay, &chars_of("")));
    assert!(contains_chars(&hay, &chars_of("13)")));
    assert!(!contains_chars(&hay, &chars_of("permission")));
    assert!(!contains_chars(&chars_of("ab"), &chars_of("abc")));
    assert_eq!(chars_of("héllo"), vec!['h', 'é', 'l', 'l', 'o']);
}

#[test]
fn mic_error_no_device() {
    assert_eq!(
        humanize_mic_error("No Default Input Device available".to_string()),
        "No input device found. Plug in a mic or check OS audio settings. [STENO_PERM:microphone] (raw: No Default Input Device available)"
    );
}

#[test]
fn mic_error_permission() {
    assert_eq!(
        humanize_mic_error("Operation not AUTHORIZED".to_string()),
        "Microphone permission denied. [STENO_PERM:microphone] (raw: Operation not AUTHORIZED)"
    );
    assert_eq!(
        humanize_mic_error("Permission denied".to_string()),
        "Microphone permission denied. [STENO_PERM:microphone] (raw: Permission denied)"
    );
}

#[test]
fn mic_error_unknown_is_still_tagged() {
    assert_eq!(
        humanize_mic_error("stream play: boom".to_string()),
        "Microphone start failed. [STENO_PERM:microphone] (raw: stream play: boom)"
    );
    assert_eq!(
        describe_mic_error("X", "permission"),
        "Microphone permission denied. [STENO_PERM:microphone] (raw: X)"
    );
}

#[test]
fn system_error_per_platform() {
    assert_eq!(
        humanize_system_error("SCShareableContent::get failed".to_string(), Some(Platform::MacOs)),
        "Screen Recording permission needed for system audio. [STENO_PERM:screen-capture] (raw: SCShareableContent::get failed)"
    );
    assert_eq!(
        humanize_system_error("Context::connect (PipeWire daemon running?): x".to_string(), Some(Platform::Linux)),
        "PipeWire daemon doesn't appear to be running. Try: systemctl --user start pipewire pipewire-pulse wireplumber. (raw: Context::connect (PipeWire daemon running?): x)"
    );
    assert_eq!(
        humanize_system_error("Device is BUSY".to_string(), Some(Platform::Windows)),
        "Default audio output is busy. Close other apps that may be using it exclusively. (raw: Device is BUSY)"
    );
    assert_eq!(
        humanize_system_error("device in use".to_string(), Some(Platform::Windows)),
        "Default audio output is busy. Close other apps that may be using it exclusively. (raw: device in use)"
    );
    assert_eq!(
        humanize_system_error("busy".to_string(), Some(Platform::Windows)),
        "System audio start failed. [STENO_PERM:screen-capture] (raw: busy)"
    );
    assert_eq!(
        humanize_system_error("pipewire gone".to_string(), Some(Platform::MacOs)),
        "System audio start failed. [STENO_PERM:screen-capture] (raw: pipewire gone)"
    );
    assert_eq!(
        describe_system_error("raw", "screen recording", Some(Platform::Linux)),
        "System audio start failed. [STENO_PERM:screen-capture] (raw: raw)"
    );
}

#[test]
fn settings_panels_per_platform() {
    assert_eq!(
        open_mic_settings(Platform::MacOs),
        Ok("x-apple.systempreferences:com.apple.preference.security?Privacy_Microphone".to_string())
    );
    assert_eq!(open_mic_settings(Platform::Windows), Ok("ms-settings:privacy-microphone".to_string()));
    assert!(open_mic_settings(Platform::Linux).unwrap_err().starts_with("On Linux, microphone access"));
    assert_eq!(
        open_screen_capture_settings(Platform::MacOs),
        Ok("x-apple.systempreferences:com.apple.preference.security?Privacy_ScreenCapture".to_string())
    );
    assert_eq!(open_screen_capture_settings(Platform::Windows), Ok("ms-settings:privacy".to_string()));
    assert!(open_screen_capture_settings(Platform::Linux)
        .unwrap_err()
        .starts_with("On Linux, system audio capture is handled by PipeWire"));
}

#[test]
fn permission_panel_kinds() {
    assert_eq!(open_permission_panel("microphone", Platform::Windows), open_mic_settings(Platform::Windows));
    assert_eq!(
        open_permission_panel("screen-capture", Platform::MacOs),
        open_screen_capture_settings(Platform::MacOs)
    );
    assert_eq!(
        open_permission_panel("camera", Platform::MacOs),
        Err("unknown permission kind: camera".to_string())
    );
    assert_eq!(
        open_permission_panel("Microphone", Platform::MacOs),
        Err("unknown permission kind: Microphone".to_string())
    );
}

#[test]
fn opener_commands() {
    assert_eq!(opener_command(Platform::MacOs, "u"), vec!["open", "u"]);
    assert_eq!(opener_command(Platform::Windows, "u"), vec!["cmd", "/c", "start", "", "u"]);
    assert_eq!(opener_command(Platform::Linux, "u"), vec!["xdg-open", "u"]);
    assert_eq!(opener_name(Platform::MacOs), "open");
    assert_eq!(opener_name(Platform::Windows), "start");
    assert_eq!(opener_name(Platform::Linux), "xdg-open");
}

#[test]
fn audio_file_location() {
    assert_eq!(
        audio_output_components("2024-05-01-093000"),
        vec!["Steno", ".steno", "audio", "2024-05-01-093000.opus"]
    );
}

#[test]
fn every_mic_error_is_tagged_and_keeps_raw() {
    for raw in ["", "boom", "PERMISSION", "no default input device", "ÄÖ not authorized"] {
        let m = humanize_mic_error(raw.to_string());
        assert!(m.contains(PERM_HINT_MIC), "{m}");
        assert!(m.ends_with(&format!(" (raw: {raw})")), "{m}");
    }
}

#[test]
fn every_system_error_keeps_raw_and_macos_is_tagged() {
    for raw in ["", "pipewire", "device busy", "Screen Recording denied", "x"] {
        for p in [Platform::MacOs, Platform::Linux, Platform::Windows] {
            let m = humanize_system_error(raw.to_string(), Some(p));
            assert!(m.ends_with(&format!(" (raw: {raw})")), "{m}");
            if p == Platform::MacOs {
                assert!(m.contains(PERM_HINT_SCREEN), "{m}");
            }
        }
    }
}

#[test]
fn system_error_without_known_capture_path() {
    assert_eq!(
        humanize_system_error("PipeWire device busy".to_string(), None),
        "System audio start failed. [STENO_PERM:screen-capture] (raw: PipeWire device busy)"
    );
}

#[test]
fn capture_guards() {
    assert_eq!(start_guard(false, CaptureSource::Microphone), Ok(()));
    assert_eq!(
        start_guard(true, CaptureSource::Microphone),
        Err("recording already in progress".to_string())
    );
    assert_eq!(
        start_guard(true, CaptureSource::SystemAudio),
        Err("system audio recording already in progress".to_string())
    );
    assert_eq!(stop_guard(true), Ok(()));
    assert_eq!(stop_guard(false), Err("not recording".to_string()));
}

#[test]
fn negotiated_rate_zero_means_none() {
    assert_eq!(negotiated_sample_rate(0), None);
    assert_eq!(negotiated_sample_rate(44_100), Some(44_100));
}
