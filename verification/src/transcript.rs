//! The texts that a session ends in: what the engine's raw output means,
//! the placeholder that stands in for a missing engine, and the scrubbing of
//! spoken commands from a final transcript.

use vstd::prelude::*;
use vstd::string::*;
use crate::command::CommandConfig;
use crate::config::VoiceCommandConfig;
use crate::text::{
    append_chars, contains, contains_spec, decimal_spec, from_chars, is_blank, join_spec,
    join_with_space, lowercase, lowercase_of, push_decimal, push_str, remove_all,
    remove_all_spec, split_whitespace, texts, to_chars, trim, trim_spec, uppercase, uppercase_of,
    words_spec,
};

verus! {

/// What is to be done about a transcription.
#[derive(Debug, Clone, PartialEq, Eq)]
pub enum TranscriptionStep {
    /// No engine run is needed: this text is the result.
    Done(String),
    /// The samples are to be prepared and handed to the engine.
    RunEngine,
}

/// What is reported for a session that captured nothing.
pub open spec fn no_audio_message() -> Seq<char> {
    "No audio data recorded"@
}

/// What is reported in place of a transcript while no engine is loaded.
pub open spec fn placeholder_spec(sample_count: usize) -> Seq<char> {
    "Transcribed "@ + decimal_spec(sample_count as nat)
        + " audio samples (Whisper model not loaded - use new_with_model() to load a model)"@
}

/// The report that stands in for a transcript of `sample_count` samples while
/// no engine is loaded.
pub fn placeholder_transcription(sample_count: usize) -> (text: String)
    ensures
        text@ == placeholder_spec(sample_count),
{
    let mut out: Vec<char> = Vec::new();
    push_str(&mut out, "Transcribed ");
    push_decimal(&mut out, sample_count as u64);
    push_str(
        &mut out,
        " audio samples (Whisper model not loaded - use new_with_model() to load a model)",
    );
    assert(out@ =~= placeholder_spec(sample_count));
    from_chars(&out)
}

/// The texts of the first `count` segments, one after the other.
pub open spec fn concat_spec(segments: Seq<String>, count: nat) -> Seq<char>
    decreases count,
{
    if count == 0 || count > segments.len() {
        Seq::empty()
    } else {
        concat_spec(segments, (count - 1) as nat) + segments[count - 1]@
    }
}

/// The engine's raw output: the texts of its segments, one after the other.
pub fn concat_segments(segments: &Vec<String>) -> (raw: String)
    ensures
        raw@ == concat_spec(segments@, segments@.len()),
{
    let mut out: Vec<char> = Vec::new();
    let mut i: usize = 0;
    while i < segments.len()
        invariant
            i <= segments.len(),
            out@ == concat_spec(segments@, i as nat),
        decreases segments.len() - i,
    {
        push_str(&mut out, segments[i].as_str());
        i += 1;
    }
    from_chars(&out)
}

/// What the engine's raw output for a whole session means.
pub open spec fn spec_interpret(raw: Seq<char>) -> Seq<char> {
    let heard = trim_spec(raw);
    if heard.len() == 0 {
        "No speech detected in audio (Whisper returned empty result)"@
    } else if contains_spec(heard, "[SOUND]"@) {
        "Whisper detected audio but no clear speech: '"@ + heard
            + "' - try speaking louder/clearer or recording longer"@
    } else {
        heard
    }
}

/// The transcript that the engine's raw output for a whole session stands
/// for: the trimmed text, or a notice where the engine heard nothing or only
/// noise.
pub fn interpret_engine_output(raw: &str) -> (text: String)
    ensures
        text@ == spec_interpret(raw@),
{
    let heard: Vec<char> = trim(&to_chars(raw));
    if heard.len() == 0 {
        String::from_str("No speech detected in audio (Whisper returned empty result)")
    } else if contains(&heard, &to_chars("[SOUND]")) {
        let mut out: Vec<char> = Vec::new();
        push_str(&mut out, "Whisper detected audio but no clear speech: '");
        append_chars(&mut out, &heard);
        push_str(&mut out, "' - try speaking louder/clearer or recording longer");
        assert(out@ =~= spec_interpret(raw@));
        from_chars(&out)
    } else {
        from_chars(&heard)
    }
}

/// `text` without the occurrences of `first`, then without those of `second`,
/// then without those of `third`.
pub open spec fn remove_three(
    text: Seq<char>,
    first: Seq<char>,
    second: Seq<char>,
    third: Seq<char>,
) -> Seq<char> {
    remove_all_spec(remove_all_spec(remove_all_spec(text, first), second), third)
}

/// `text` after one word of the partial transcript has been dealt with: a
/// word that names a command is taken out in lower case, in upper case and
/// as it was heard; any other word leaves the text alone.
pub open spec fn scrub_word(config: CommandConfig, text: Seq<char>, word: Seq<char>) -> Seq<char> {
    if config.spec_match_command(lowercase_of(word)) is Some {
        remove_three(text, lowercase_of(word), uppercase_of(word), word)
    } else {
        text
    }
}

/// `text` after the words from index `k` on have been dealt with, in order.
pub open spec fn scrub_words(
    config: CommandConfig,
    text: Seq<char>,
    words: Seq<Seq<char>>,
    k: int,
) -> Seq<char>
    decreases words.len() - k,
{
    if k < 0 || k >= words.len() {
        text
    } else {
        scrub_words(config, scrub_word(config, text, words[k]), words, k + 1)
    }
}

/// The stock phrases that are always taken out of a scrubbed transcript.
pub open spec fn stock_phrases() -> Seq<Seq<char>> {
    seq![
        "stop recording"@,
        "start recording"@,
        "stop record"@,
        "start record"@,
        "end recording"@,
        "begin recording"@,
        "finish recording"@,
    ]
}

/// `text` without a stock phrase: as written, in upper case and in lower
/// case.
pub open spec fn scrub_phrase(text: Seq<char>, phrase: Seq<char>) -> Seq<char> {
    remove_three(text, phrase, uppercase_of(phrase), lowercase_of(phrase))
}

/// `text` without the phrases from index `k` on, taken out in order.
pub open spec fn scrub_phrases(text: Seq<char>, list: Seq<Seq<char>>, k: int) -> Seq<char>
    decreases list.len() - k,
{
    if k < 0 || k >= list.len() {
        text
    } else {
        scrub_phrases(scrub_phrase(text, list[k]), list, k + 1)
    }
}

/// `text` with every run of white space turned into one space and none left
/// at the ends.
pub open spec fn tidy(text: Seq<char>) -> Seq<char> {
    trim_spec(join_spec(words_spec(text)))
}

/// What is reported where scrubbing leaves nothing.
pub open spec fn only_commands_message() -> Seq<char> {
    "No speech content detected (only voice commands)"@
}

/// The final transcript without the commands that were spoken during the
/// session. A blank partial transcript leaves the text as it is. Otherwise
/// every word of the partial transcript that names a command is taken out of
/// the text, then the stock phrases, then the white space is tidied; where
/// nothing is left, a notice stands in.
pub open spec fn spec_remove_voice_commands(
    config: CommandConfig,
    transcription: Seq<char>,
    partial: Seq<char>,
) -> Seq<char> {
    let cleaned = tidy(
        scrub_phrases(
            scrub_words(config, transcription, words_spec(partial), 0),
            stock_phrases(),
            0,
        ),
    );
    if is_blank(partial) {
        transcription
    } else if cleaned.len() == 0 {
        only_commands_message()
    } else {
        cleaned
    }
}

/// Takes `first`, then `second`, then `third` out of `text`.
fn remove_in_turn(text: &Vec<char>, first: &Vec<char>, second: &Vec<char>, third: &Vec<char>) -> (r:
    Vec<char>)
    ensures
        r@ == remove_three(text@, first@, second@, third@),
{
    let a: Vec<char> = remove_all(text, first);
    let b: Vec<char> = remove_all(&a, second);
    remove_all(&b, third)
}

/// The stock phrases as characters.
fn stock_phrase_list() -> (list: Vec<Vec<char>>)
    ensures
        texts(list@) == stock_phrases(),
{
    let mut list: Vec<Vec<char>> = Vec::new();
    list.push(to_chars("stop recording"));
    list.push(to_chars("start recording"));
    list.push(to_chars("stop record"));
    list.push(to_chars("start record"));
    list.push(to_chars("end recording"));
    list.push(to_chars("begin recording"));
    list.push(to_chars("finish recording"));
    assert(texts(list@) =~= stock_phrases());
    list
}

/// The final transcript `transcription` without the commands spoken during
/// the session, whose chunk transcripts are gathered in `partial_buffer`.
pub fn remove_voice_commands(config: &CommandConfig, transcription: &str, partial_buffer: &str) -> (text:
    String)
    ensures
        text@ == spec_remove_voice_commands(*config, transcription@, partial_buffer@),
{
    let partial: Vec<char> = to_chars(partial_buffer);
    if trim(&partial).len() == 0 {
        return String::from_str(transcription);
    }
    let mut cleaned: Vec<char> = to_chars(transcription);
    let words: Vec<Vec<char>> = split_whitespace(&partial);
    let mut k: usize = 0;
    while k < words.len()
        invariant
            k <= words.len(),
            scrub_words(*config, cleaned@, texts(words@), k as int) == scrub_words(
                *config,
                transcription@,
                texts(words@),
                0,
            ),
        decreases words.len() - k,
    {
        assert(texts(words@)[k as int] == words@[k as int]@);
        let word: &Vec<char> = &words[k];
        let lower: Vec<char> = lowercase(word);
        if config.match_text(&lower).is_some() {
            let upper: Vec<char> = uppercase(word);
            cleaned = remove_in_turn(&cleaned, &lower, &upper, word);
        }
        k += 1;
    }
    let list: Vec<Vec<char>> = stock_phrase_list();
    let ghost scrubbed = cleaned@;
    let mut j: usize = 0;
    while j < list.len()
        invariant
            j <= list.len(),
            texts(list@) == stock_phrases(),
            scrub_phrases(cleaned@, stock_phrases(), j as int) == scrub_phrases(
                scrubbed,
                stock_phrases(),
                0,
            ),
        decreases list.len() - j,
    {
        assert(texts(list@)[j as int] == list@[j as int]@);
        let phrase: &Vec<char> = &list[j];
        let upper: Vec<char> = uppercase(phrase);
        let lower: Vec<char> = lowercase(phrase);
        cleaned = remove_in_turn(&cleaned, phrase, &upper, &lower);
        j += 1;
    }
    let tidied: Vec<char> = trim(&join_with_space(&split_whitespace(&cleaned)));
    if tidied.len() == 0 {
        String::from_str("No speech content detected (only voice commands)")
    } else {
        from_chars(&tidied)
    }
}

/// The note that is added to a final transcript where a command was spoken
/// during the session.
pub open spec fn command_note(included: bool) -> Seq<char> {
    if included {
        "(voice command executed and included in transcription)"@
    } else {
        "(voice command executed and excluded from transcription)"@
    }
}

/// The text that a session hands back. With command detection off it is the
/// transcript as it came. Otherwise the spoken commands are scrubbed, unless
/// they are to stay or the partial transcript is blank, and where a command
/// was detected a note follows the text after one space.
pub open spec fn spec_finalize(
    config: VoiceCommandConfig,
    transcription: Seq<char>,
    partial: Seq<char>,
    detected: bool,
) -> Seq<char> {
    let scrubbed = if !config.include_in_final_transcription && !is_blank(partial) {
        spec_remove_voice_commands(config.command_config, transcription, partial)
    } else {
        transcription
    };
    if !config.enabled {
        transcription
    } else if detected {
        scrubbed + " "@ + command_note(config.include_in_final_transcription)
    } else {
        scrubbed
    }
}

/// The text that a session hands back for the transcript `transcription`,
/// given the chunk transcripts gathered in `partial_buffer` and whether a
/// command was detected.
pub fn finalize_transcription(
    config: &VoiceCommandConfig,
    transcription: &str,
    partial_buffer: &str,
    detected: bool,
) -> (text: String)
    ensures
        text@ == spec_finalize(*config, transcription@, partial_buffer@, detected),
{
    if !config.enabled {
        return String::from_str(transcription);
    }
    let blank: bool = trim(&to_chars(partial_buffer)).len() == 0;
    let scrubbed: String = if !config.include_in_final_transcription && !blank {
        remove_voice_commands(&config.command_config, transcription, partial_buffer)
    } else {
        String::from_str(transcription)
    };
    if detected {
        let mut out: Vec<char> = to_chars(scrubbed.as_str());
        out.push(' ');
        if config.include_in_final_transcription {
            push_str(&mut out, "(voice command executed and included in transcription)");
        } else {
            push_str(&mut out, "(voice command executed and excluded from transcription)");
        }
        proof {
            reveal_strlit(" ");
            assert(" "@ =~= seq![' ']);
            assert(out@ =~= scrubbed@ + " "@ + command_note(
                config.include_in_final_transcription,
            ));
        }
        from_chars(&out)
    } else {
        scrubbed
    }
}

} // verus!
