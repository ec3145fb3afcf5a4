use voice_to_text_mcp::audio::{
    debug_file_name, frame_count, frame_range, mix_to_mono, AudioCapture, AudioFileHandler,
    AudioProcessor, ResampleTap,
};
use voice_to_text_mcp::VoiceToTextService;
use voice_to_text_mcp::config::samples_for_duration_ms;
use voice_to_text_mcp::whisper::WhisperTranscriber;
use voice_to_text_mcp::transcript::TranscriptionStep;
use voice_to_text_mcp::{DebugConfig, VoiceError};

#[test]
fn samples_for_duration_rounds_down() {
    assert_eq!(samples_for_duration_ms(44100, 100), 4410);
    assert_eq!(samples_for_duration_ms(44100, 500), 22050);
    assert_eq!(samples_for_duration_ms(16000, 300), 4800);
    assert_eq!(samples_for_duration_ms(44100, 1), 44);
    assert_eq!(samples_for_duration_ms(44100, 0), 0);
    assert_eq!(samples_for_duration_ms(0, 1000), 0);
    assert_eq!(samples_for_duration_ms(u32::MAX, 1000), u32::MAX as usize);
}

#[test]
fn resampled_length_is_the_quotient_rounded_up() {
    let processor = AudioProcessor::new(false);
    assert_eq!(processor.resampled_len(44100, 44100, 16000), 16000);
    assert_eq!(processor.resampled_len(4, 44100, 16000), 2);
    assert_eq!(processor.resampled_len(3, 44100, 16000), 2);
    assert_eq!(processor.resampled_len(1, 44100, 16000), 1);
    assert_eq!(processor.resampled_len(0, 44100, 16000), 0);
    assert_eq!(processor.resampled_len(16000, 16000, 44100), 44100);
    assert_eq!(processor.resampled_len(5, 16000, 0), 0);
    assert_eq!(processor.resampled_len(7, 8000, 8000), 7);
}

#[test]
fn resampled_length_stays_within_one_of_the_exact_quotient() {
    let processor = AudioProcessor::new(false);
    for len in [0usize, 1, 2, 3, 10, 441, 4410, 44099, 44100, 44101, 100000] {
        for (rate_in, rate_out) in [(44100u32, 16000u32), (48000, 16000), (16000, 44100), (3, 7)] {
            let n = processor.resampled_len(len, rate_in, rate_out) as f64;
            let exact = len as f64 * rate_out as f64 / rate_in as f64;
            assert!((n - exact).abs() <= 1.0, "{} samples, {} -> {}", len, rate_in, rate_out);
        }
    }
}

#[test]
fn resampling_between_equal_rates_reads_each_sample_alone() {
    let processor = AudioProcessor::new(true);
    let taps = processor.resample_taps(3, 16000, 16000);
    assert_eq!(
        taps,
        vec![
            ResampleTap { lo: 0, hi: 0, num: 0, den: 16000 },
            ResampleTap { lo: 1, hi: 1, num: 0, den: 16000 },
            ResampleTap { lo: 2, hi: 2, num: 0, den: 16000 },
        ]
    );
    assert!(processor.resample_taps(0, 16000, 16000).is_empty());
}

#[test]
fn resampling_taps_follow_the_position_formula() {
    let processor = AudioProcessor::new(false);
    let taps = processor.resample_taps(4, 44100, 16000);
    assert_eq!(
        taps,
        vec![
            ResampleTap { lo: 0, hi: 1, num: 0, den: 16000 },
            ResampleTap { lo: 2, hi: 3, num: 12100, den: 16000 },
        ]
    );

    let taps = processor.resample_taps(3, 44100, 16000);
    assert_eq!(
        taps,
        vec![
            ResampleTap { lo: 0, hi: 1, num: 0, den: 16000 },
            ResampleTap { lo: 2, hi: 2, num: 12100, den: 16000 },
        ]
    );

    let up = processor.resample_taps(2, 1, 3);
    assert_eq!(
        up,
        vec![
            ResampleTap { lo: 0, hi: 1, num: 0, den: 3 },
            ResampleTap { lo: 0, hi: 1, num: 1, den: 3 },
            ResampleTap { lo: 0, hi: 1, num: 2, den: 3 },
            ResampleTap { lo: 1, hi: 1, num: 0, den: 3 },
            ResampleTap { lo: 1, hi: 1, num: 1, den: 3 },
            ResampleTap { lo: 1, hi: 1, num: 2, den: 3 },
        ]
    );
    assert!(processor.resample_taps(5, 44100, 0).is_empty());
}

#[test]
fn every_tap_reads_inside_the_input() {
    let processor = AudioProcessor::new(false);
    for len in [1usize, 2, 5, 100, 4410] {
        let taps = processor.resample_taps(len, 44100, 16000);
        assert_eq!(taps.len(), processor.resampled_len(len, 44100, 16000));
        for tap in &taps {
            assert!(tap.lo <= tap.hi && tap.hi < len);
            assert!(tap.num < tap.den);
        }
    }
}

#[test]
fn activity_window_needs_a_full_window() {
    let processor = AudioProcessor::new(false);
    assert_eq!(processor.activity_window(0, 100), None);
    assert_eq!(processor.activity_window(4409, 100), None);
    assert_eq!(processor.activity_window(4410, 100), Some((0, 4410)));
    assert_eq!(processor.activity_window(5000, 100), Some((590, 5000)));
    assert_eq!(processor.activity_window(5, 0), Some((5, 5)));
    assert_eq!(processor.activity_window(usize::MAX, u64::MAX), None);
}

#[test]
fn validate_audio_tells_short_from_quiet() {
    let processor = AudioProcessor::new(false);
    assert_eq!(processor.validate_audio(8000, 16000, 1000), Ok(()));
    assert_eq!(
        processor.validate_audio(7999, 16000, 1_000_000),
        Err(VoiceError::AudioTooShort { duration_ms: 499 })
    );
    assert_eq!(
        processor.validate_audio(0, 16000, 0),
        Err(VoiceError::AudioTooShort { duration_ms: 0 })
    );
    assert_eq!(
        processor.validate_audio(8000, 16000, 999),
        Err(VoiceError::AudioTooQuiet { amplitude_micros: 999 })
    );
    assert_eq!(
        processor.validate_audio(16000, 16000, 0),
        Err(VoiceError::AudioTooQuiet { amplitude_micros: 0 })
    );
    assert_eq!(processor.validate_audio(22050, 44100, 5000), Ok(()));
    assert_eq!(
        processor.validate_audio(22049, 44100, 5000),
        Err(VoiceError::AudioTooShort { duration_ms: 499 })
    );
}

#[test]
fn frames_cover_an_interleaved_block() {
    assert_eq!(frame_count(6, 2), 3);
    assert_eq!(frame_count(5, 2), 3);
    assert_eq!(frame_count(0, 2), 0);
    assert_eq!(frame_count(7, 1), 7);
    assert_eq!(frame_range(6, 2, 0), (0, 2));
    assert_eq!(frame_range(6, 2, 2), (4, 6));
    assert_eq!(frame_range(5, 2, 2), (4, 5));
    assert_eq!(frame_range(7, 3, 2), (6, 7));
}

#[test]
fn capture_follows_the_recording_flag() {
    let mut capture: AudioCapture<i16> = AudioCapture::new(false);
    assert!(!capture.is_recording());
    assert_eq!(capture.get_audio_sample_count(), 0);
    assert_eq!(capture.stop_capture(), Err(VoiceError::NotRecording));

    capture.append(&[1, 2, 3]);
    assert_eq!(capture.get_audio_sample_count(), 0);

    assert_eq!(capture.start_capture(), Ok(()));
    assert!(capture.is_recording());
    assert_eq!(capture.start_capture(), Err(VoiceError::AlreadyRecording));

    capture.append(&[1, 2, 3]);
    capture.append(&[]);
    capture.append(&[4, 5]);
    assert_eq!(capture.get_current_audio_data(), vec![1, 2, 3, 4, 5]);
    assert_eq!(capture.tail(2), vec![4, 5]);
    assert_eq!(capture.tail(0), Vec::<i16>::new());
    assert_eq!(capture.tail(5), vec![1, 2, 3, 4, 5]);
    assert_eq!(capture.tail(9), vec![1, 2, 3, 4, 5]);

    assert_eq!(capture.stop_capture(), Ok(vec![1, 2, 3, 4, 5]));
    assert!(!capture.is_recording());
    assert_eq!(capture.get_audio_sample_count(), 5);
    capture.append(&[6]);
    assert_eq!(capture.get_audio_sample_count(), 5);
    assert_eq!(capture.stop_capture(), Err(VoiceError::NotRecording));

    assert_eq!(capture.start_capture(), Ok(()));
    assert_eq!(capture.get_audio_sample_count(), 0);
    capture.halt();
    assert!(!capture.is_recording());
}

#[test]
fn debug_file_names_carry_stamp_and_suffix() {
    assert_eq!(debug_file_name("20250710_194139", "raw"), "audio_20250710_194139_raw.wav");
    assert_eq!(debug_file_name("", ""), "audio__.wav");
}

#[test]
fn debug_paths_sit_in_the_configured_directory() {
    let config = DebugConfig {
        enabled: true,
        output_dir: std::path::PathBuf::from("/tmp/dumps"),
        save_raw: true,
        save_processed: false,
    };
    let handler = AudioFileHandler::new(config.clone());
    assert_eq!(
        handler.generate_debug_filename(0, "processed"),
        Some(std::path::PathBuf::from("/tmp/dumps/audio_19700101_000000_processed.wav"))
    );
    assert_eq!(
        handler.generate_debug_filename(86399, "raw"),
        Some(std::path::PathBuf::from("/tmp/dumps/audio_19700101_235959_raw.wav"))
    );
    assert_eq!(handler.generate_debug_filename(i64::MAX, "raw"), None);
    assert_eq!(handler.debug_config().output_dir, config.output_dir);
    assert!(handler.should_save(false));
    assert!(!handler.should_save(true));

    let off = AudioFileHandler::new(DebugConfig::default());
    assert!(!off.should_save(false));
    assert!(!off.should_save(true));
}

#[test]
fn transcriber_checks_before_the_engine_runs() {
    let mut transcriber = WhisperTranscriber::new(false);
    assert!(!transcriber.has_model());
    assert!(!transcriber.get_audio_processor().debug_enabled());
    assert_eq!(
        transcriber.transcribe_audio(0, 0),
        Ok(TranscriptionStep::Done("No audio data recorded".to_string()))
    );
    assert_eq!(transcriber.transcribe_audio(5, 1_000_000), Err(VoiceError::WhisperModelNotLoaded));
    assert_eq!(
        transcriber.transcribe_with_validation(5, 1_000_000),
        Ok(TranscriptionStep::Done(
            "Transcribed 5 audio samples (Whisper model not loaded - use new_with_model() to load a model)"
                .to_string()
        ))
    );

    transcriber.set_model_loaded(true);
    assert!(transcriber.has_model());
    assert_eq!(
        transcriber.transcribe_audio(22047, 1_000_000),
        Err(VoiceError::AudioTooShort { duration_ms: 499 })
    );
    assert_eq!(transcriber.transcribe_audio(22048, 1_000_000), Ok(TranscriptionStep::RunEngine));
    assert_eq!(
        transcriber.transcribe_with_validation(44100, 0),
        Err(VoiceError::AudioTooQuiet { amplitude_micros: 0 })
    );
    assert_eq!(
        transcriber.transcribe_with_validation(0, 0),
        Ok(TranscriptionStep::Done("No audio data recorded".to_string()))
    );
}

fn midpoint_weighted(a: i64, b: i64, num: u64, den: u64) -> i64 {
    a + (b - a) * num as i64 / den as i64
}

#[test]
fn resampling_interpolates_between_neighbours() {
    let processor = AudioProcessor::new(false);
    let samples: Vec<i64> = vec![0, 300, 600, 900];
    assert_eq!(processor.resample_audio(&samples, 8000, 8000, midpoint_weighted), samples);
    assert_eq!(
        processor.resample_audio(&samples, 2, 3, midpoint_weighted),
        vec![0, 200, 400, 600, 800, 900]
    );
    assert_eq!(processor.resample_audio(&samples, 2, 1, midpoint_weighted), vec![0, 600]);
    assert_eq!(
        processor.resample_audio(&samples, 3, 2, midpoint_weighted),
        vec![0, 450, 900]
    );
    assert_eq!(processor.resample_audio(&[], 44100, 16000, midpoint_weighted), Vec::<i64>::new());
    assert_eq!(processor.resample_audio(&samples, 0, 0, midpoint_weighted), samples);
    assert_eq!(processor.resampled_len(5, 0, 0), 5);
    assert_eq!(
        processor.resample_taps(2, 0, 0),
        vec![
            ResampleTap { lo: 0, hi: 0, num: 0, den: 0 },
            ResampleTap { lo: 1, hi: 1, num: 0, den: 0 },
        ]
    );
    assert_eq!(processor.resample_audio(&[7], 44100, 16000, midpoint_weighted), vec![7]);

    let floats = [1.0f32, 2.0, 3.0];
    let lerp = |a: f32, b: f32, num: u64, den: u64| a + (b - a) * (num as f64 / den as f64) as f32;
    assert_eq!(processor.resample_audio(&floats, 16000, 16000, lerp), vec![1.0, 2.0, 3.0]);
    assert_eq!(processor.resample_audio(&floats, 2, 4, lerp), vec![1.0, 1.5, 2.0, 2.5, 3.0, 3.0]);
}

#[test]
fn preparation_resamples_then_normalizes() {
    let processor = AudioProcessor::new(false);
    let samples: Vec<i64> = (0..441).map(|i| i * 10).collect();
    let prepared = processor.prepare_for_whisper(&samples, midpoint_weighted, |v: Vec<i64>| {
        v.iter().map(|x| -x).collect()
    });
    assert_eq!(prepared.len(), 160);
    assert_eq!(prepared[0], 0);
    assert_eq!(prepared[1], -27);
    assert_eq!(prepared[159], -4382);
}

#[test]
fn voice_activity_looks_at_the_trailing_window_only() {
    let processor = AudioProcessor::new(false);
    let loud = |window: &[f32]| {
        (window.iter().map(|&x| x * x).sum::<f32>() / window.len() as f32).sqrt() > 0.01
    };

    assert!(!processor.has_voice_activity(&vec![0.9f32; 4409], 100, loud));
    assert!(!processor.has_voice_activity(&[], 100, loud));
    assert!(processor.has_voice_activity(&vec![0.9f32; 4410], 100, loud));
    assert!(!processor.has_voice_activity(&vec![0.0f32; 4410], 100, loud));

    let mut buffer = vec![0.9f32; 10000];
    buffer.extend(vec![0.0f32; 4410]);
    assert!(!processor.has_voice_activity(&buffer, 100, loud));
    buffer.push(0.9);
    assert!(processor.has_voice_activity(&buffer, 100, loud));

    let sizes = |window: &[u8]| window.len() == 4410 && window[0] == 1 && window[4409] == 2;
    let mut bytes = vec![0u8; 100];
    bytes.push(1);
    bytes.extend(vec![0u8; 4408]);
    bytes.push(2);
    assert!(processor.has_voice_activity(&bytes, 100, sizes));
    assert!(!processor.has_voice_activity(&bytes, 101, sizes));
    assert!(!processor.has_voice_activity(&bytes, 103, |_window: &[u8]| true));
}

#[test]
fn blocks_are_mixed_down_frame_by_frame() {
    let mean = |frame: &[f32], channels: u16| frame.iter().sum::<f32>() / channels as f32;
    assert_eq!(mix_to_mono(&[0.5, 1.5, -1.0, 1.0], 2, &mean), vec![1.0, 0.0]);
    assert_eq!(mix_to_mono(&[0.5, 1.5, -1.0], 2, &mean), vec![1.0, -0.5]);
    assert_eq!(mix_to_mono(&[0.5, 1.5, -1.0], 1, &mean), vec![0.5, 1.5, -1.0]);
    assert_eq!(mix_to_mono(&[3.0, 3.0, 3.0, 6.0], 3, &mean), vec![3.0, 2.0]);
    assert_eq!(mix_to_mono(&[], 2, &mean), Vec::<f32>::new());

    let mut service: VoiceToTextService<f32> = VoiceToTextService::new();
    service.append_block(&[1.0, 3.0], 2, mean);
    assert_eq!(service.get_audio_sample_count(), 0);
    service.start_listening().unwrap();
    service.append_block(&[1.0, 3.0, 5.0, 7.0], 2, mean);
    service.append_block(&[9.0], 1, mean);
    assert_eq!(service.get_current_audio_data(), vec![2.0, 6.0, 9.0]);
}
