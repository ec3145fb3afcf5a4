use voice_to_text_mcp::audio::AudioProcessor;
use voice_to_text_mcp::monitor::{AutoStopAction, AutoStopMonitor};
use voice_to_text_mcp::transcript::TranscriptionStep;
use voice_to_text_mcp::{CommandType, VoiceError, VoiceToTextService};

fn peak_normalize(samples: Vec<f32>) -> Vec<f32> {
    let peak = samples.iter().fold(0.0f32, |a, &b| a.max(b.abs()));
    if peak > 0.0 {
        samples.iter().map(|&x| x / peak).collect()
    } else {
        samples
    }
}

fn prepare(samples: &[f32]) -> Vec<f32> {
    AudioProcessor::new(false).prepare_for_whisper(
        samples,
        |a: f32, b: f32, num: u64, den: u64| a + (b - a) * (num as f64 / den as f64) as f32,
        peak_normalize,
    )
}

fn transcribe(service: &VoiceToTextService<f32>, samples: &[f32]) -> String {
    match service.transcribe_audio(samples.len()) {
        TranscriptionStep::Done(text) => service.finalize(&text),
        TranscriptionStep::RunEngine => panic!("no engine is loaded"),
    }
}

#[test]
fn test_complete_recording_workflow() {
    let mut service: VoiceToTextService<f32> = VoiceToTextService::new();

    assert!(!service.is_recording());
    assert_eq!(service.get_audio_sample_count(), 0);

    let start_result = service.start_listening();
    assert!(start_result.is_ok());
    assert!(service.is_recording());

    service.append_samples(&[0.0; 4410]);

    let stop_result = service.stop_listening();
    assert!(stop_result.is_ok());
    assert!(!service.is_recording());

    let transcription = transcribe(&service, &stop_result.unwrap());
    assert!(transcription.contains("Transcribed") || transcription == "No audio data recorded");
    assert!(transcription.contains("4410"));
}

#[test]
fn test_multiple_start_stop_cycles() {
    let mut service: VoiceToTextService<f32> = VoiceToTextService::new();

    for _i in 0..3 {
        let start_result = service.start_listening();
        assert!(start_result.is_ok());
        assert!(service.is_recording());
        assert_eq!(service.get_audio_sample_count(), 0);

        service.append_samples(&[0.1, 0.2]);

        let stop_result = service.stop_listening();
        assert!(stop_result.is_ok());
        assert_eq!(stop_result.unwrap().len(), 2);
        assert!(!service.is_recording());
    }
}

#[test]
fn test_concurrent_operations() {
    let mut service: VoiceToTextService<f32> = VoiceToTextService::new();

    let results: Vec<Result<String, VoiceError>> =
        (0..5).map(|_| service.start_listening()).collect();

    let successful_starts = results
        .iter()
        .filter(|r| r.as_ref().map_or(false, |msg| msg.contains("Started")))
        .count();

    let already_recording_errors = results
        .iter()
        .filter(|res| {
            if let Err(e) = res {
                format!("{:?}", e).contains("AlreadyRecording")
            } else {
                false
            }
        })
        .count();

    assert_eq!(successful_starts, 1);
    assert_eq!(already_recording_errors, 4);
}

#[test]
fn test_hardware_acceleration_integration() {
    let service: VoiceToTextService<f32> = VoiceToTextService::new();

    let sample_rate = 16000;
    let duration_samples = sample_rate;
    let frequency = 440.0;

    let test_audio: Vec<f32> = (0..duration_samples)
        .map(|i| {
            let t = i as f32 / sample_rate as f32;
            (2.0 * std::f32::consts::PI * frequency * t).sin() * 0.3
        })
        .collect();

    let processed_audio = prepare(&test_audio);

    assert!(!processed_audio.is_empty(), "Processed audio should not be empty");
    assert!(processed_audio.iter().all(|&x| x.is_finite()), "All samples should be finite");
    assert!(
        processed_audio.iter().all(|&x| x >= -1.0 && x <= 1.0),
        "All samples should be normalized"
    );

    let transcription = transcribe(&service, &test_audio);

    assert!(
        transcription.contains("model not loaded")
            || transcription.contains("Transcribed")
            || transcription.contains("No audio data"),
        "Transcription should handle missing model gracefully"
    );
}

#[test]
fn test_acceleration_audio_quality_consistency() {
    let test_cases = vec![
        vec![0.0; 1000],
        (0..1000).map(|i| (i as f32 * 0.01).sin()).collect::<Vec<f32>>(),
        (0..1000)
            .map(|i: i32| {
                let seed = (i.wrapping_mul(1103515245).wrapping_add(12345)) & 0x7FFFFFFF;
                (seed as f32 / 2147483647.0) - 0.5
            })
            .collect::<Vec<f32>>(),
        (0..1000)
            .map(|i| {
                let t = i as f32 / 1000.0;
                0.3 * (2.0 * std::f32::consts::PI * 440.0 * t).sin()
                    + 0.1 * (2.0 * std::f32::consts::PI * 880.0 * t).sin()
            })
            .collect::<Vec<f32>>(),
    ];

    for (i, test_audio) in test_cases.iter().enumerate() {
        let processed_audio = prepare(test_audio);

        assert!(!processed_audio.is_empty(), "Processed audio should not be empty");
        assert!(processed_audio.iter().all(|&x| x.is_finite()), "All samples should be finite");
        assert!(
            processed_audio.iter().all(|&x| x >= -1.0 && x <= 1.0),
            "All samples should be normalized"
        );

        let max_abs = processed_audio.iter().fold(0.0f32, |acc, &x| acc.max(x.abs()));
        if test_audio.iter().all(|&x| x == 0.0) {
            assert!(max_abs < 0.001, "Silence should remain silent after processing");
        }

        println!("Case {} passed quality checks", i + 1);
    }
}

#[test]
fn auto_stop_ends_a_silent_session_soon_after_the_silence_limit() {
    let mut service: VoiceToTextService<f32> = VoiceToTextService::new();
    service.start_listening().unwrap();
    service.append_samples(&vec![0.0; 88200]);

    let processor = AudioProcessor::new(false);
    let loud = |window: &[f32]| {
        (window.iter().map(|&x| x * x).sum::<f32>() / window.len() as f32).sqrt() > 0.01
    };
    let mut monitor = AutoStopMonitor::new(0, 30000, 500);
    let mut now_ms = 0;
    let stopped_at = loop {
        let active = processor.has_voice_activity(&service.tail(4410), 100, loud);
        assert!(!active);
        let action = monitor.step(
            now_ms,
            service.is_recording(),
            active,
            service.get_audio_sample_count(),
        );
        match action {
            AutoStopAction::Stop => break now_ms,
            AutoStopAction::Wait => now_ms += 100,
            AutoStopAction::Quit => panic!("the session is under way"),
        }
    };
    assert_eq!(stopped_at, 600);
    assert!(stopped_at <= 1000);

    let samples = service.stop_listening().unwrap();
    assert_eq!(samples.len(), 88200);
    let transcript = transcribe(&service, &samples);
    assert_eq!(
        transcript,
        "Transcribed 88200 audio samples (Whisper model not loaded - use new_with_model() to load a model)"
    );
}

#[test]
fn auto_stop_waits_twice_the_limit_on_a_near_empty_buffer() {
    let mut monitor = AutoStopMonitor::new(1000, 30000, 500);
    assert_eq!(monitor.step(1500, true, false, 100), AutoStopAction::Wait);
    assert_eq!(monitor.step(1600, true, false, 100), AutoStopAction::Wait);
    assert_eq!(monitor.step(1600, true, false, 22049), AutoStopAction::Wait);
    assert_eq!(monitor.step(1600, true, false, 22050), AutoStopAction::Stop);
    assert_eq!(monitor.step(2000, true, false, 100), AutoStopAction::Wait);
    assert_eq!(monitor.step(2001, true, false, 100), AutoStopAction::Stop);
}

#[test]
fn auto_stop_rules_apply_in_order() {
    let mut monitor = AutoStopMonitor::new(0, 1000, 500);
    assert_eq!(monitor.step(1000, false, true, 0), AutoStopAction::Quit);
    assert_eq!(monitor.step(1001, false, true, 0), AutoStopAction::Stop);
    assert_eq!(monitor.step(1001, true, true, 0), AutoStopAction::Stop);
    assert_eq!(monitor.last_activity_ms, 0);

    assert_eq!(monitor.step(400, true, true, 50000), AutoStopAction::Wait);
    assert_eq!(monitor.last_activity_ms, 400);
    assert_eq!(monitor.step(900, true, false, 50000), AutoStopAction::Wait);
    assert_eq!(monitor.step(901, true, false, 50000), AutoStopAction::Stop);
    assert_eq!(monitor.step(300, true, false, 50000), AutoStopAction::Wait);
}

#[test]
fn spoken_stop_ends_the_session_at_once() {
    let mut service: VoiceToTextService<f32> = VoiceToTextService::new();
    service.set_engine_available(true);
    service.start_listening().unwrap();
    service.append_samples(&vec![0.0; 44100]);

    let chunk = service.begin_command_check(0).expect("a second of audio is buffered");
    assert_eq!(chunk.len(), 22050);

    let command = service.finish_command_check(Some("stop recording"));
    assert_eq!(command, Some(CommandType::Stop));
    assert!(!service.is_recording());
    assert!(service.voice_command_detected());
    assert_eq!(service.get_last_command(), Some(CommandType::Stop));
    assert_eq!(service.get_command_queue_size(), 1);

    let mut monitor = AutoStopMonitor::new(0, 30000, 2000);
    assert_eq!(
        monitor.step(100, service.is_recording(), false, service.get_audio_sample_count()),
        AutoStopAction::Quit
    );
    assert_eq!(service.stop_listening(), Err(VoiceError::NotRecording));

    service.append_samples(&[0.5, 0.5]);
    assert_eq!(service.get_audio_sample_count(), 44100);
}

#[test]
fn queue_keeps_the_ten_newest_commands() {
    let mut service: VoiceToTextService<f32> = VoiceToTextService::new();
    let kinds = [CommandType::Start, CommandType::Status];
    service.note_command(CommandType::Status);
    for i in 0..10 {
        service.note_command(kinds[i % 2]);
    }
    assert_eq!(service.get_command_queue_size(), 10);
    for i in 0..10 {
        assert_eq!(service.pop_next_command(), Some(kinds[i % 2]));
    }
    assert_eq!(service.pop_next_command(), None);
    assert_eq!(service.get_command_queue_size(), 0);
}
