use voice_to_text_mcp::command::{parse_command_list, CommandConfig, CommandType};
use voice_to_text_mcp::text::{
    contains, from_chars, join, join_with_space, lowercase, push_decimal, push_fixed_decimal,
    remove_all, split_whitespace, starts_at, to_chars, trim, trim_matches, uppercase, CharClass,
};
use voice_to_text_mcp::transcript::{
    concat_segments, finalize_transcription, interpret_engine_output, placeholder_transcription,
    remove_voice_commands,
};
use voice_to_text_mcp::{VoiceCommandConfig, VoiceError};

fn chars(s: &str) -> Vec<char> {
    s.chars().collect()
}

fn text(v: &Vec<char>) -> String {
    v.iter().collect()
}

#[test]
fn characters_and_strings_convert_both_ways() {
    assert_eq!(to_chars("héllo wörld"), chars("héllo wörld"));
    assert_eq!(to_chars(""), Vec::<char>::new());
    assert_eq!(from_chars(&chars("日本語 ok")), "日本語 ok");
    assert_eq!(from_chars(&Vec::new()), "");
}

#[test]
fn case_mapping_follows_the_standard_library() {
    assert_eq!(text(&lowercase(&chars("Stop RECORDING ÄÖ"))), "stop recording äö");
    assert_eq!(text(&uppercase(&chars("Stop ß"))), "STOP SS");
    assert_eq!(text(&lowercase(&chars("ΟΔΟΣ"))), "οδος");
}

#[test]
fn trimming_strips_both_ends_only() {
    assert_eq!(text(&trim(&chars("  a b \t\n"))), "a b");
    assert_eq!(text(&trim(&chars("\u{3000}x\u{a0}"))), "x");
    assert_eq!(text(&trim(&chars("   "))), "");
    assert_eq!(text(&trim(&chars(""))), "");
    assert_eq!(text(&trim(&chars("x"))), "x");
    assert_eq!(text(&trim_matches(&chars("...stop!?"), CharClass::NonAlphanumeric)), "stop");
    assert_eq!(text(&trim_matches(&chars("'don't'"), CharClass::NonAlphanumeric)), "don't");
    assert_eq!(text(&trim_matches(&chars("-- --"), CharClass::NonAlphanumeric)), "");
    assert_eq!(text(&trim_matches(&chars("a1"), CharClass::NonAlphanumeric)), "a1");
    assert!(CharClass::Whitespace.test(' '));
    assert!(!CharClass::Whitespace.test('x'));
    assert!(CharClass::NonAlphanumeric.test('.'));
    assert!(!CharClass::NonAlphanumeric.test('7'));
}

#[test]
fn words_are_maximal_runs_without_white_space() {
    let words = split_whitespace(&chars("  stop \t recording\nnow  "));
    let words: Vec<String> = words.iter().map(text).collect();
    assert_eq!(words, vec!["stop", "recording", "now"]);
    assert!(split_whitespace(&chars(" \t ")).is_empty());
    assert!(split_whitespace(&chars("")).is_empty());
    assert_eq!(split_whitespace(&chars("one")).len(), 1);
}

#[test]
fn contains_finds_a_text_anywhere() {
    assert!(contains(&chars("please stop recording"), &chars("stop")));
    assert!(contains(&chars("stop"), &chars("stop")));
    assert!(contains(&chars("xstop"), &chars("stop")));
    assert!(contains(&chars("abc"), &chars("")));
    assert!(contains(&chars(""), &chars("")));
    assert!(!contains(&chars("sto"), &chars("stop")));
    assert!(!contains(&chars("s t o p"), &chars("stop")));
    assert!(starts_at(&chars("abcabc"), &chars("bc"), 4));
    assert!(!starts_at(&chars("abcabc"), &chars("bc"), 5));
    assert!(!starts_at(&chars("abcabc"), &chars("bc"), 7));
    assert!(starts_at(&chars("abc"), &chars(""), 3));
}

#[test]
fn remove_all_takes_matches_out_from_the_left() {
    assert_eq!(text(&remove_all(&chars("a stop b stop"), &chars("stop"))), "a  b ");
    assert_eq!(text(&remove_all(&chars("aaa"), &chars("aa"))), "a");
    assert_eq!(text(&remove_all(&chars("ababa"), &chars("aba"))), "ba");
    assert_eq!(text(&remove_all(&chars("abc"), &chars(""))), "abc");
    assert_eq!(text(&remove_all(&chars(""), &chars("x"))), "");
    assert_eq!(text(&remove_all(&chars("xx"), &chars("x"))), "");
    assert_eq!(text(&remove_all(&chars("abc"), &chars("abcd"))), "abc");
}

#[test]
fn join_puts_the_separator_between_words() {
    let words = vec![chars("a"), chars("bc"), chars("")];
    assert_eq!(text(&join_with_space(&words)), "a bc ");
    assert_eq!(text(&join(&words, &chars(", "))), "a, bc, ");
    assert_eq!(text(&join(&vec![chars("solo")], &chars(", "))), "solo");
    assert_eq!(text(&join(&Vec::new(), &chars(", "))), "");
}

#[test]
fn numerals_are_decimal() {
    let mut out = chars("n=");
    push_decimal(&mut out, 0);
    out.push(',');
    push_decimal(&mut out, 7);
    out.push(',');
    push_decimal(&mut out, 10);
    out.push(',');
    push_decimal(&mut out, 10203);
    out.push(',');
    push_decimal(&mut out, u64::MAX);
    assert_eq!(text(&out), "n=0,7,10,10203,18446744073709551615");

    let mut out = Vec::new();
    push_fixed_decimal(&mut out, 5, 2);
    out.push('|');
    push_fixed_decimal(&mut out, 123, 6);
    out.push('|');
    push_fixed_decimal(&mut out, 1234, 2);
    out.push('|');
    push_fixed_decimal(&mut out, 9, 0);
    assert_eq!(text(&out), "05|000123|34|");
}

#[test]
fn every_error_has_its_message() {
    let detail = || "boom".to_string();
    let cases = vec![
        (VoiceError::AudioDeviceNotAvailable, "Audio device not available".to_string()),
        (VoiceError::NoInputDevice, "No input device found".to_string()),
        (VoiceError::AudioStream(detail()), "Audio stream error: boom".to_string()),
        (VoiceError::WhisperModelLoad(detail()), "Whisper model loading failed: boom".to_string()),
        (
            VoiceError::WhisperModelNotLoaded,
            "Whisper model not loaded - use new_with_model() to load a model".to_string(),
        ),
        (
            VoiceError::WhisperTranscription(detail()),
            "Whisper transcription failed: boom".to_string(),
        ),
        (
            VoiceError::AudioTooShort { duration_ms: 430 },
            "Audio too short: 0.43s (need at least 0.5s)".to_string(),
        ),
        (
            VoiceError::AudioTooShort { duration_ms: 12005 },
            "Audio too short: 12.00s (need at least 0.5s)".to_string(),
        ),
        (
            VoiceError::AudioTooQuiet { amplitude_micros: 123 },
            "Audio too quiet: max amplitude 0.000123".to_string(),
        ),
        (
            VoiceError::AudioTooQuiet { amplitude_micros: 2_500_000 },
            "Audio too quiet: max amplitude 2.500000".to_string(),
        ),
        (VoiceError::WavFile(detail()), "WAV file error: boom".to_string()),
        (VoiceError::DebugDirectory(detail()), "Debug directory creation failed: boom".to_string()),
        (VoiceError::DebugFileSave(detail()), "Debug file saving failed: boom".to_string()),
        (VoiceError::AlreadyRecording, "Recording already in progress".to_string()),
        (VoiceError::NotRecording, "Not currently recording".to_string()),
        (
            VoiceError::KeyboardControl(detail()),
            "Keyboard control initialization failed: boom".to_string(),
        ),
        (VoiceError::Platform(detail()), "Platform operation failed: boom".to_string()),
        (VoiceError::Io(detail()), "I/O error: boom".to_string()),
        (VoiceError::AudioProcessing(detail()), "Audio processing error: boom".to_string()),
    ];
    for (error, expected) in cases {
        assert_eq!(error.message(), expected);
    }
}

#[test]
fn command_codes_round_trip() {
    let kinds =
        [CommandType::Start, CommandType::Stop, CommandType::Status, CommandType::Toggle];
    for (i, kind) in kinds.iter().enumerate() {
        assert_eq!(kind.to_u8() as usize, i + 1);
        assert_eq!(CommandType::from_u8(kind.to_u8()), Some(*kind));
    }
    assert_eq!(CommandType::from_u8(0), None);
    assert_eq!(CommandType::from_u8(5), None);
    assert_eq!(CommandType::from_u8(255), None);
}

#[test]
fn match_command_is_exact_up_to_case_and_outer_white_space() {
    let config = CommandConfig::default();
    assert_eq!(config.match_command("start"), Some(CommandType::Start));
    assert_eq!(config.match_command("  BEGIN\n"), Some(CommandType::Start));
    assert_eq!(config.match_command("record"), Some(CommandType::Start));
    assert_eq!(config.match_command("End"), Some(CommandType::Stop));
    assert_eq!(config.match_command("finish"), Some(CommandType::Stop));
    assert_eq!(config.match_command("check"), Some(CommandType::Status));
    assert_eq!(config.match_command("INFO"), Some(CommandType::Status));
    assert_eq!(config.match_command("switch"), Some(CommandType::Toggle));
    assert_eq!(config.match_command(""), Some(CommandType::Toggle));
    assert_eq!(config.match_command("   "), Some(CommandType::Toggle));
    assert_eq!(config.match_command("stop."), None);
    assert_eq!(config.match_command("stop recording"), None);
    assert_eq!(config.match_command("s top"), None);

    let mut shared = CommandConfig::default();
    shared.stop_commands.push("Start".to_string());
    shared.toggle_commands = vec!["STOP".to_string()];
    assert_eq!(shared.match_command("start"), Some(CommandType::Start));
    assert_eq!(shared.match_command("stop"), Some(CommandType::Stop));

    let mut phrase = CommandConfig::default();
    phrase.status_commands = vec!["How Is It Going".to_string()];
    assert_eq!(phrase.match_command(" how is it going "), Some(CommandType::Status));
    assert_eq!(phrase.detect("How is it going?"), None);
    assert_eq!(phrase.detect("how is it going"), Some(CommandType::Status));
}

#[test]
fn detection_takes_the_first_rule_that_applies() {
    let config = CommandConfig::default();
    assert_eq!(config.detect("STOP."), Some(CommandType::Stop));
    assert_eq!(config.detect("  stop  "), Some(CommandType::Stop));
    assert_eq!(config.detect("stop"), Some(CommandType::Stop));
    assert_eq!(config.detect("stopped"), None);
    assert_eq!(config.detect("unstoppable"), None);
    assert_eq!(config.detect("status, then stop"), Some(CommandType::Status));
    assert_eq!(config.detect("please start and stop"), Some(CommandType::Start));
    assert_eq!(config.detect("stopped recording"), Some(CommandType::Stop));
    assert_eq!(config.detect("restarted the recorder"), Some(CommandType::Start));
    assert_eq!(config.detect("unstoppable restart of records"), Some(CommandType::Stop));
    assert_eq!(config.detect("a recording"), None);
    assert_eq!(config.detect("hello - world"), Some(CommandType::Toggle));
    assert_eq!(config.detect(" \t\n"), None);
    assert_eq!(config.detect("(Stop!)"), Some(CommandType::Stop));

    let mut plain = CommandConfig::default();
    plain.toggle_commands = vec!["toggle".to_string()];
    assert_eq!(plain.detect("hello - world"), None);
}

#[test]
fn command_lists_are_split_trimmed_and_filtered() {
    assert_eq!(parse_command_list(" go , begin ,,halt "), vec!["go", "begin", "halt"]);
    assert_eq!(parse_command_list("stop recording,  end "), vec!["stop recording", "end"]);
    assert_eq!(parse_command_list(""), Vec::<String>::new());
    assert_eq!(parse_command_list(" , ,"), Vec::<String>::new());
    assert_eq!(parse_command_list("one"), vec!["one"]);
    assert_eq!(parse_command_list(",one,"), vec!["one"]);
}

#[test]
fn environment_and_command_line_shape_the_vocabulary() {
    let config = CommandConfig::from_env(Some("go, run".to_string()), None, Some("".to_string()), None);
    assert_eq!(config.start_commands, vec!["go", "run"]);
    assert_eq!(config.stop_commands, vec!["stop", "end", "finish"]);
    assert_eq!(config.status_commands, Vec::<String>::new());
    assert_eq!(config.toggle_commands, vec!["toggle", "switch", ""]);

    let config = config.overridden(
        None,
        Some(vec!["halt".to_string(), "".to_string(), " ".to_string()]),
        None,
        Some(vec![]),
    );
    assert_eq!(config.start_commands, vec!["go", "run"]);
    assert_eq!(config.stop_commands, vec!["halt", " "]);
    assert_eq!(config.status_commands, Vec::<String>::new());
    assert_eq!(config.toggle_commands, Vec::<String>::new());

    let config = CommandConfig::from_cli_args(Some(vec!["".to_string(), "a".to_string()]), None, None, None);
    assert_eq!(config.start_commands, vec!["a"]);
    assert_eq!(config.stop_commands, vec!["stop", "end", "finish"]);
    assert_eq!(config.status_commands, vec!["status", "check", "info"]);
    assert_eq!(config.toggle_commands, vec!["toggle", "switch", ""]);
}

#[test]
fn engine_output_is_trimmed_or_explained() {
    assert_eq!(interpret_engine_output("  hello there \n"), "hello there");
    assert_eq!(
        interpret_engine_output("   "),
        "No speech detected in audio (Whisper returned empty result)"
    );
    assert_eq!(
        interpret_engine_output(""),
        "No speech detected in audio (Whisper returned empty result)"
    );
    assert_eq!(
        interpret_engine_output(" [SOUND] "),
        "Whisper detected audio but no clear speech: '[SOUND]' - try speaking louder/clearer or recording longer"
    );
    assert_eq!(
        interpret_engine_output("a [SOUND] b"),
        "Whisper detected audio but no clear speech: 'a [SOUND] b' - try speaking louder/clearer or recording longer"
    );
    assert_eq!(interpret_engine_output("[sound]"), "[sound]");
    assert_eq!(
        placeholder_transcription(0),
        "Transcribed 0 audio samples (Whisper model not loaded - use new_with_model() to load a model)"
    );
}

#[test]
fn scrubbing_takes_spoken_commands_out() {
    let config = CommandConfig::default();
    assert_eq!(
        remove_voice_commands(&config, "Hello world stop recording thank you", "stop recording"),
        "Hello world recording thank you"
    );
    assert_eq!(
        remove_voice_commands(&config, "Hello STOP and Stop and stop", "Stop "),
        "Hello and and"
    );
    assert_eq!(
        remove_voice_commands(&config, "we begin recording now", "hello "),
        "we now"
    );
    assert_eq!(
        remove_voice_commands(&config, "FINISH RECORDING please", "hm "),
        "please"
    );
    assert_eq!(
        remove_voice_commands(&config, "stop", "stop "),
        "No speech content detected (only voice commands)"
    );
    assert_eq!(remove_voice_commands(&config, "  keep   this  ", "   "), "  keep   this  ");
    assert_eq!(remove_voice_commands(&config, "  keep   this  ", "word "), "keep this");
    assert_eq!(remove_voice_commands(&config, "", ""), "");
    assert_eq!(
        remove_voice_commands(&config, "unstoppable", "stop "),
        "unpable"
    );
}

#[test]
fn final_text_follows_the_configuration() {
    let mut config = VoiceCommandConfig::default();
    assert_eq!(finalize_transcription(&config, "hello stop", "", false), "hello stop");
    assert_eq!(finalize_transcription(&config, "hello stop", "stop ", false), "hello");
    assert_eq!(
        finalize_transcription(&config, "hello stop", "stop ", true),
        "hello (voice command executed and excluded from transcription)"
    );
    assert_eq!(
        finalize_transcription(&config, "hello", "  ", true),
        "hello (voice command executed and excluded from transcription)"
    );

    config.include_in_final_transcription = true;
    assert_eq!(finalize_transcription(&config, "hello stop", "stop ", false), "hello stop");
    assert_eq!(
        finalize_transcription(&config, "hello stop", "stop ", true),
        "hello stop (voice command executed and included in transcription)"
    );

    config.enabled = false;
    assert_eq!(finalize_transcription(&config, "hello stop", "stop ", true), "hello stop");
}

#[test]
fn segments_are_joined_as_they_come() {
    let segments = vec![" Hello".to_string(), "".to_string(), " world.".to_string()];
    assert_eq!(concat_segments(&segments), " Hello world.");
    assert_eq!(concat_segments(&Vec::new()), "");
    assert_eq!(interpret_engine_output(&concat_segments(&segments)), "Hello world.");
}

#[test]
fn detection_ignores_outer_white_space_case_and_edge_punctuation() {
    let config = CommandConfig::default();
    for text in ["stop", "hello world", "please start recording", "what is the status", "x"] {
        let plain = config.detect(text);
        assert_eq!(config.detect(&format!("  \t{}\n ", text)), plain);
        assert_eq!(config.detect(&text.to_uppercase()), plain);
        let decorated: Vec<String> =
            text.split_whitespace().map(|word| format!("(\"{}!\")", word)).collect();
        assert_eq!(config.detect(&decorated.join(" ")), plain);
    }
    assert_eq!(config.detect("ΣΤΟΠ"), None);
    let mut greek = CommandConfig::default();
    greek.stop_commands = vec!["ΤΈΛΟΣ".to_string()];
    assert_eq!(greek.detect("  τέλος. "), Some(CommandType::Stop));
    assert_eq!(greek.detect("Τέλος"), Some(CommandType::Stop));
}
