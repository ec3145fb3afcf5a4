//! Spoken commands: their kinds, the configurable vocabulary, and the
//! matcher that finds a command in transcribed text.

use vstd::prelude::*;
use vstd::string::*;
use crate::text::{
    contains, contains_spec, copy_chars, from_chars, is_blank, lemma_trim_class_idempotent,
    lemma_trim_class_ignores_added_edges, lemma_words_ignore_outer_whitespace, lowercase,
    lowercase_of, split_whitespace, texts, to_chars, trim, trim_class, trim_matches, trim_spec,
    words_spec, CharClass,
};

verus! {

/// The kind of a control command.
#[derive(Debug, PartialEq, Eq, Clone, Copy, Structural)]
pub enum CommandType {
    Start,
    Stop,
    Status,
    Toggle,
}

impl CommandType {
    /// The code under which the command is stored; zero stands for "none".
    pub open spec fn code(self) -> u8 {
        match self {
            CommandType::Start => 1,
            CommandType::Stop => 2,
            CommandType::Status => 3,
            CommandType::Toggle => 4,
        }
    }

    /// The command that a stored code stands for, if any.
    pub open spec fn of_code(value: u8) -> Option<CommandType> {
        if value == 1 {
            Some(CommandType::Start)
        } else if value == 2 {
            Some(CommandType::Stop)
        } else if value == 3 {
            Some(CommandType::Status)
        } else if value == 4 {
            Some(CommandType::Toggle)
        } else {
            None
        }
    }

    /// The code under which the command is stored.
    pub fn to_u8(&self) -> (value: u8)
        ensures
            value == self.code(),
            1 <= value <= 4,
    {
        match self {
            CommandType::Start => 1,
            CommandType::Stop => 2,
            CommandType::Status => 3,
            CommandType::Toggle => 4,
        }
    }

    /// The command that a stored code stands for; `None` for zero and for
    /// every code above four.
    pub fn from_u8(value: u8) -> (command: Option<CommandType>)
        ensures
            command == CommandType::of_code(value),
            command is Some <==> 1 <= value <= 4,
    {
        match value {
            1 => Some(CommandType::Start),
            2 => Some(CommandType::Stop),
            3 => Some(CommandType::Status),
            4 => Some(CommandType::Toggle),
            _ => None,
        }
    }

    /// Decoding a command's code gives the command back, and a code that
    /// decodes to a command is that command's code.
    pub proof fn lemma_code_round_trip(command: CommandType, value: u8)
        ensures
            CommandType::of_code(command.code()) == Some(command),
            CommandType::of_code(value) == Some(command) ==> value == command.code(),
    {
    }
}

/// The texts of a list of phrases.
pub open spec fn phrases(v: Seq<String>) -> Seq<Seq<char>> {
    v.map_values(|p: String| p@)
}

/// Whether some phrase of `words`, put in lower case, is `key`.
pub open spec fn vocabulary_has(words: Seq<String>, key: Seq<char>) -> bool {
    exists|i: int| 0 <= i < words.len() && lowercase_of(#[trigger] words[i]@) == key
}

/// The accepted phrases of each command kind. Phrases are compared without
/// regard to case.
#[derive(Clone, Debug)]
pub struct CommandConfig {
    pub start_commands: Vec<String>,
    pub stop_commands: Vec<String>,
    pub status_commands: Vec<String>,
    pub toggle_commands: Vec<String>,
}

/// A vocabulary entry of three phrases.
fn three_phrases(a: &str, b: &str, c: &str) -> (v: Vec<String>)
    ensures
        phrases(v@) == seq![a@, b@, c@],
{
    let mut v: Vec<String> = Vec::new();
    v.push(String::from_str(a));
    v.push(String::from_str(b));
    v.push(String::from_str(c));
    assert(phrases(v@) =~= seq![a@, b@, c@]);
    v
}

impl Default for CommandConfig {
    /// The built-in vocabulary. The empty phrase stands among the toggle
    /// phrases, so that an empty command toggles.
    fn default() -> (config: Self)
        ensures
            config.is_builtin(),
    {
        CommandConfig {
            start_commands: three_phrases("start", "begin", "record"),
            stop_commands: three_phrases("stop", "end", "finish"),
            status_commands: three_phrases("status", "check", "info"),
            toggle_commands: three_phrases("toggle", "switch", ""),
        }
    }
}

/// Tests whether some phrase of `words`, put in lower case, is `key`.
pub fn vocabulary_contains(words: &Vec<String>, key: &String) -> (b: bool)
    ensures
        b == vocabulary_has(words@, key@),
{
    let mut i: usize = 0;
    while i < words.len()
        invariant
            i <= words.len(),
            forall|k: int| 0 <= k < i ==> lowercase_of(#[trigger] words@[k]@) != key@,
        decreases words.len() - i,
    {
        let lower: String = words[i].as_str().to_lowercase();
        if lower == *key {
            return true;
        }
        i += 1;
    }
    false
}

impl CommandConfig {
    /// Whether the vocabulary is the built-in one.
    pub open spec fn is_builtin(&self) -> bool {
        &&& phrases(self.start_commands@) == seq!["start"@, "begin"@, "record"@]
        &&& phrases(self.stop_commands@) == seq!["stop"@, "end"@, "finish"@]
        &&& phrases(self.status_commands@) == seq!["status"@, "check"@, "info"@]
        &&& phrases(self.toggle_commands@) == seq!["toggle"@, "switch"@, ""@]
    }

    /// The command that `key` names, the kinds tried in the order start,
    /// stop, status, toggle. `key` is compared as it stands.
    pub open spec fn lookup(&self, key: Seq<char>) -> Option<CommandType> {
        if vocabulary_has(self.start_commands@, key) {
            Some(CommandType::Start)
        } else if vocabulary_has(self.stop_commands@, key) {
            Some(CommandType::Stop)
        } else if vocabulary_has(self.status_commands@, key) {
            Some(CommandType::Status)
        } else if vocabulary_has(self.toggle_commands@, key) {
            Some(CommandType::Toggle)
        } else {
            None
        }
    }

    /// The command that the text `cmd` names: `cmd` is trimmed of white
    /// space and put in lower case, then looked up.
    pub open spec fn spec_match_command(&self, cmd: Seq<char>) -> Option<CommandType> {
        self.lookup(lowercase_of(trim_spec(cmd)))
    }

    /// The command that the text `cmd`, given as characters, names.
    pub fn match_text(&self, cmd: &Vec<char>) -> (command: Option<CommandType>)
        ensures
            command == self.spec_match_command(cmd@),
    {
        let trimmed: Vec<char> = trim(cmd);
        let lower: Vec<char> = lowercase(&trimmed);
        let key: String = from_chars(&lower);
        if vocabulary_contains(&self.start_commands, &key) {
            Some(CommandType::Start)
        } else if vocabulary_contains(&self.stop_commands, &key) {
            Some(CommandType::Stop)
        } else if vocabulary_contains(&self.status_commands, &key) {
            Some(CommandType::Status)
        } else if vocabulary_contains(&self.toggle_commands, &key) {
            Some(CommandType::Toggle)
        } else {
            None
        }
    }

    /// The command that `cmd` names, if any. White space around `cmd` and
    /// the case of its letters play no part; where two kinds accept the same
    /// phrase, the order start, stop, status, toggle decides.
    pub fn match_command(&self, cmd: &str) -> (command: Option<CommandType>)
        ensures
            command == self.spec_match_command(cmd@),
    {
        let chars: Vec<char> = to_chars(cmd);
        self.match_text(&chars)
    }
}

/// White space around a command plays no part in what it names: a command
/// and its trimmed form are matched alike.
pub proof fn lemma_match_ignores_outer_whitespace(config: CommandConfig, cmd: Seq<char>)
    ensures
        config.spec_match_command(trim_spec(cmd)) == config.spec_match_command(cmd),
{
    lemma_trim_class_idempotent(cmd, CharClass::Whitespace);
}

/// The case of a command's letters plays no part in what it names: two
/// commands whose trimmed forms agree in lower case are matched alike.
pub proof fn lemma_match_ignores_case(config: CommandConfig, a: Seq<char>, b: Seq<char>)
    requires
        lowercase_of(trim_spec(a)) == lowercase_of(trim_spec(b)),
    ensures
        config.spec_match_command(a) == config.spec_match_command(b),
{
}

/// What a word is matched by: the word stripped of what is neither letter nor
/// digit at its edges, trimmed of white space and put in lower case.
pub open spec fn word_key(word: Seq<char>) -> Seq<char> {
    lowercase_of(trim_spec(trim_class(word, CharClass::NonAlphanumeric)))
}

/// Whether a normalized text speaks of recording: it holds "recording" or
/// "record" somewhere.
pub open spec fn mentions_recording(text: Seq<char>) -> bool {
    contains_spec(text, "recording"@) || contains_spec(text, "record"@)
}

impl CommandConfig {
    /// The first command named by one of `words` from index `k` on. Each word
    /// is stripped of what is neither letter nor digit at its edges, then
    /// matched as a command is: without regard to case.
    pub open spec fn first_word_match(&self, words: Seq<Seq<char>>, k: int) -> Option<CommandType>
        decreases words.len() - k,
    {
        if k < 0 || k >= words.len() {
            None
        } else {
            let found = self.lookup(word_key(words[k]));
            if found is Some {
                found
            } else {
                self.first_word_match(words, k + 1)
            }
        }
    }

    /// The command that transcribed text carries. A blank text carries none.
    /// Otherwise the first of these rules that applies decides. The word
    /// rule: the text is split at white space, and a word names a command.
    /// The phrase rule: the whole text names a command. The two loose rules:
    /// the text, trimmed and in lower case, holds "stop" and speaks of
    /// recording, or holds "start" and speaks of recording.
    pub open spec fn spec_detect(&self, text: Seq<char>) -> Option<CommandType> {
        let by_word = self.first_word_match(words_spec(text), 0);
        let by_phrase = self.spec_match_command(text);
        let normalized = lowercase_of(trim_spec(text));
        if is_blank(text) {
            None
        } else if by_word is Some {
            by_word
        } else if by_phrase is Some {
            by_phrase
        } else if contains_spec(normalized, "stop"@) && mentions_recording(normalized) {
            Some(CommandType::Stop)
        } else if contains_spec(normalized, "start"@) && mentions_recording(normalized) {
            Some(CommandType::Start)
        } else {
            None
        }
    }

    /// The first command named by a single word of `words`.
    pub fn match_words(&self, words: &Vec<Vec<char>>) -> (command: Option<CommandType>)
        ensures
            command == self.first_word_match(texts(words@), 0),
    {
        let mut k: usize = 0;
        while k < words.len()
            invariant
                k <= words.len(),
                self.first_word_match(texts(words@), k as int) == self.first_word_match(
                    texts(words@),
                    0,
                ),
            decreases words.len() - k,
        {
            assert(texts(words@)[k as int] == words@[k as int]@);
            let clean: Vec<char> = trim_matches(&words[k], CharClass::NonAlphanumeric);
            let found: Option<CommandType> = self.match_text(&clean);
            if found.is_some() {
                return found;
            }
            k += 1;
        }
        None
    }

    /// The command that the transcribed `text` carries, if any.
    pub fn detect(&self, text: &str) -> (command: Option<CommandType>)
        ensures
            command == self.spec_detect(text@),
    {
        let raw: Vec<char> = to_chars(text);
        self.match_detect(&raw)
    }

    /// The command that a transcribed text, given as characters, carries.
    pub fn match_detect(&self, raw: &Vec<char>) -> (command: Option<CommandType>)
        ensures
            command == self.spec_detect(raw@),
    {
        let trimmed: Vec<char> = trim(raw);
        if trimmed.len() == 0 {
            return None;
        }
        let words: Vec<Vec<char>> = split_whitespace(raw);
        let by_word: Option<CommandType> = self.match_words(&words);
        if by_word.is_some() {
            return by_word;
        }
        let by_phrase: Option<CommandType> = self.match_text(raw);
        if by_phrase.is_some() {
            return by_phrase;
        }
        let normalized: Vec<char> = lowercase(&trimmed);
        let speaks_of_recording: bool = contains(&normalized, &to_chars("recording")) || contains(
            &normalized,
            &to_chars("record"),
        );
        if contains(&normalized, &to_chars("stop")) && speaks_of_recording {
            return Some(CommandType::Stop);
        }
        if contains(&normalized, &to_chars("start")) && speaks_of_recording {
            return Some(CommandType::Start);
        }
        None
    }
}

/// Whether every character of `s` belongs to `class`.
pub open spec fn all_in_class(s: Seq<char>, class: CharClass) -> bool {
    forall|k: int| 0 <= k < s.len() ==> class.holds(#[trigger] s[k])
}

/// Whether two lists of words are matched alike, word for word: they are of
/// one length, and each word of the one has the key of the word of the other.
pub open spec fn same_word_keys(a: Seq<Seq<char>>, b: Seq<Seq<char>>) -> bool {
    &&& a.len() == b.len()
    &&& forall|k: int| 0 <= k < a.len() ==> word_key(#[trigger] a[k]) == word_key(b[k])
}

/// The word rule looks at nothing but the keys of the words: two lists of
/// words that are matched alike, word for word, name the same first command.
/// So the case of a word's letters and what surrounds it that is neither
/// letter nor digit play no part, as far as they leave the key alone.
pub proof fn lemma_word_rule_goes_by_keys(
    config: CommandConfig,
    a: Seq<Seq<char>>,
    b: Seq<Seq<char>>,
    k: int,
)
    requires
        same_word_keys(a, b),
    ensures
        config.first_word_match(a, k) == config.first_word_match(b, k),
    decreases a.len() - k,
{
    if 0 <= k < a.len() {
        assert(word_key(a[k]) == word_key(b[k]));
        lemma_word_rule_goes_by_keys(config, a, b, k + 1);
    }
}

/// Characters that are neither letter nor digit, put before and after a
/// word, leave its key alone: the word is matched as it was.
pub proof fn lemma_word_key_ignores_edge_punctuation(
    before: Seq<char>,
    word: Seq<char>,
    after: Seq<char>,
)
    requires
        all_in_class(before, CharClass::NonAlphanumeric),
        all_in_class(after, CharClass::NonAlphanumeric),
    ensures
        word_key(before + word + after) == word_key(word),
{
    lemma_trim_class_ignores_added_edges(before, word, after, CharClass::NonAlphanumeric);
}

/// White space around a text plays no part in the command it carries: two
/// texts that are trimmed to the same text carry the same command.
pub proof fn lemma_detect_ignores_outer_whitespace(
    config: CommandConfig,
    a: Seq<char>,
    b: Seq<char>,
)
    requires
        trim_spec(a) == trim_spec(b),
    ensures
        config.spec_detect(a) == config.spec_detect(b),
{
    lemma_words_ignore_outer_whitespace(a);
    lemma_words_ignore_outer_whitespace(b);
}

/// White space put before and after a text plays no part in the command it
/// carries.
pub proof fn lemma_detect_ignores_added_whitespace(
    config: CommandConfig,
    before: Seq<char>,
    text: Seq<char>,
    after: Seq<char>,
)
    requires
        all_in_class(before, CharClass::Whitespace),
        all_in_class(after, CharClass::Whitespace),
    ensures
        config.spec_detect(before + text + after) == config.spec_detect(text),
{
    lemma_trim_class_ignores_added_edges(before, text, after, CharClass::Whitespace);
    lemma_detect_ignores_outer_whitespace(config, before + text + after, text);
}

/// The case of a text's letters plays no part in the command it carries: two
/// texts, both blank or both not, whose words are matched alike word for
/// word and whose trimmed forms agree in lower case carry the same command.
pub proof fn lemma_detect_ignores_case(config: CommandConfig, a: Seq<char>, b: Seq<char>)
    requires
        is_blank(a) == is_blank(b),
        same_word_keys(words_spec(a), words_spec(b)),
        lowercase_of(trim_spec(a)) == lowercase_of(trim_spec(b)),
    ensures
        config.spec_detect(a) == config.spec_detect(b),
{
    lemma_word_rule_goes_by_keys(config, words_spec(a), words_spec(b), 0);
}

/// Where the word rule applies, the words alone decide: two texts that are
/// not blank and whose words are matched alike word for word carry the same
/// command as soon as a word of the one names a command.
pub proof fn lemma_word_rule_decides(config: CommandConfig, a: Seq<char>, b: Seq<char>)
    requires
        !is_blank(a),
        !is_blank(b),
        same_word_keys(words_spec(a), words_spec(b)),
        config.first_word_match(words_spec(a), 0) is Some,
    ensures
        config.spec_detect(b) == config.spec_detect(a),
        config.spec_detect(a) == config.first_word_match(words_spec(a), 0),
{
    lemma_word_rule_goes_by_keys(config, words_spec(a), words_spec(b), 0);
}

/// A text that is blank carries no command, whatever the vocabulary holds.
pub proof fn lemma_blank_text_carries_no_command(config: CommandConfig, text: Seq<char>)
    requires
        is_blank(text),
    ensures
        config.spec_detect(text) is None,
{
}

/// A command found by the word rule or by the phrase rule is returned as it
/// is: the rules that come later have no say once an earlier one applies.
pub proof fn lemma_first_rule_decides(config: CommandConfig, text: Seq<char>)
    requires
        !is_blank(text),
    ensures
        config.first_word_match(words_spec(text), 0) is Some ==> config.spec_detect(text)
            == config.first_word_match(words_spec(text), 0),
        config.first_word_match(words_spec(text), 0) is None && config.spec_match_command(text)
            is Some ==> config.spec_detect(text) == config.spec_match_command(text),
{
}

/// The phrases of `list` that are not empty, in order.
pub open spec fn non_empty(list: Seq<String>) -> Seq<String> {
    list.filter(|p: String| p@.len() > 0)
}

/// The phrases of `list` that are not empty, in order.
pub fn drop_empty(list: &Vec<String>) -> (kept: Vec<String>)
    ensures
        kept@ == non_empty(list@),
{
    let mut kept: Vec<String> = Vec::new();
    let mut i: usize = 0;
    proof {
        reveal(Seq::filter);
        assert(list@.subrange(0, 0) =~= Seq::<String>::empty());
    }
    while i < list.len()
        invariant
            i <= list.len(),
            kept@ == non_empty(list@.subrange(0, i as int)),
        decreases list.len() - i,
    {
        proof {
            reveal(Seq::filter);
            let upto = list@.subrange(0, i + 1);
            assert(upto.drop_last() =~= list@.subrange(0, i as int));
            assert(upto.last() == list@[i as int]);
        }
        if !list[i].as_str().is_empty() {
            kept.push(list[i].clone());
        }
        i += 1;
    }
    assert(list@.subrange(0, list.len() as int) =~= list@);
    kept
}

/// First index at or after `i` that holds a comma, or the length of `s` if
/// there is none.
pub open spec fn field_end(s: Seq<char>, i: int) -> int
    decreases s.len() - i,
{
    if 0 <= i < s.len() && s[i] != ',' {
        field_end(s, i + 1)
    } else {
        i
    }
}

/// The phrases of a comma-separated list, read from index `i` on: each field
/// trimmed of white space, the empty ones left out.
pub open spec fn parse_list_from(s: Seq<char>, i: int) -> Seq<Seq<char>>
    decreases s.len() - i,
{
    let end = field_end(s, i);
    if 0 <= i <= end <= s.len() {
        let phrase = trim_spec(s.subrange(i, end));
        let rest = if end < s.len() {
            parse_list_from(s, end + 1)
        } else {
            Seq::empty()
        };
        if phrase.len() > 0 {
            seq![phrase] + rest
        } else {
            rest
        }
    } else {
        Seq::empty()
    }
}

/// The phrases of a comma-separated list.
pub open spec fn parse_list_spec(s: Seq<char>) -> Seq<Seq<char>> {
    parse_list_from(s, 0)
}

/// The phrases of the comma-separated list `value`: each field trimmed of
/// white space, the empty ones left out.
pub fn parse_command_list(value: &str) -> (list: Vec<String>)
    ensures
        phrases(list@) == parse_list_spec(value@),
{
    let s: Vec<char> = to_chars(value);
    let n: usize = s.len();
    let mut list: Vec<String> = Vec::new();
    let mut i: usize = 0;
    assert(phrases(list@) + parse_list_from(s@, 0) =~= parse_list_from(s@, 0));
    loop
        invariant_except_break
            phrases(list@) + parse_list_from(s@, i as int) == parse_list_spec(s@),
        invariant
            n == s@.len(),
            i <= n,
            s@ == value@,
        ensures
            phrases(list@) == parse_list_spec(s@),
        decreases n - i,
    {
        let mut end: usize = i;
        while end < n && s[end] != ','
            invariant
                n == s@.len(),
                i <= end <= n,
                field_end(s@, end as int) == field_end(s@, i as int),
            decreases n - end,
        {
            end += 1;
        }
        let field: Vec<char> = copy_chars(&s, i, end);
        let phrase: Vec<char> = trim(&field);
        let ghost before = phrases(list@);
        let ghost rest = if end < n {
            parse_list_from(s@, end + 1)
        } else {
            Seq::<Seq<char>>::empty()
        };
        if phrase.len() > 0 {
            let text: String = from_chars(&phrase);
            list.push(text);
            assert(phrases(list@) =~= before + seq![phrase@]);
            assert((before + seq![phrase@]) + rest =~= before + (seq![phrase@] + rest));
        }
        if end >= n {
            assert(phrases(list@) + Seq::<Seq<char>>::empty() =~= phrases(list@));
            break;
        }
        i = end + 1;
    }
    list
}

impl CommandConfig {
    /// The vocabulary that the environment asks for: each kind's phrases are
    /// those of its comma-separated list where one is given, and the
    /// built-in ones where none is.
    pub fn from_env(
        start_commands: Option<String>,
        stop_commands: Option<String>,
        status_commands: Option<String>,
        toggle_commands: Option<String>,
    ) -> (config: Self)
        ensures
            phrases(config.start_commands@) == (match start_commands {
                Some(value) => parse_list_spec(value@),
                None => seq!["start"@, "begin"@, "record"@],
            }),
            phrases(config.stop_commands@) == (match stop_commands {
                Some(value) => parse_list_spec(value@),
                None => seq!["stop"@, "end"@, "finish"@],
            }),
            phrases(config.status_commands@) == (match status_commands {
                Some(value) => parse_list_spec(value@),
                None => seq!["status"@, "check"@, "info"@],
            }),
            phrases(config.toggle_commands@) == (match toggle_commands {
                Some(value) => parse_list_spec(value@),
                None => seq!["toggle"@, "switch"@, ""@],
            }),
    {
        let mut config: CommandConfig = CommandConfig::default();
        if let Some(value) = start_commands {
            config.start_commands = parse_command_list(value.as_str());
        }
        if let Some(value) = stop_commands {
            config.stop_commands = parse_command_list(value.as_str());
        }
        if let Some(value) = status_commands {
            config.status_commands = parse_command_list(value.as_str());
        }
        if let Some(value) = toggle_commands {
            config.toggle_commands = parse_command_list(value.as_str());
        }
        config
    }

    /// The vocabulary with the kinds replaced for which the command line
    /// gives phrases; empty phrases are left out.
    pub fn overridden(
        self,
        start_commands: Option<Vec<String>>,
        stop_commands: Option<Vec<String>>,
        status_commands: Option<Vec<String>>,
        toggle_commands: Option<Vec<String>>,
    ) -> (config: Self)
        ensures
            config.start_commands@ == (match start_commands {
                Some(list) => non_empty(list@),
                None => self.start_commands@,
            }),
            config.stop_commands@ == (match stop_commands {
                Some(list) => non_empty(list@),
                None => self.stop_commands@,
            }),
            config.status_commands@ == (match status_commands {
                Some(list) => non_empty(list@),
                None => self.status_commands@,
            }),
            config.toggle_commands@ == (match toggle_commands {
                Some(list) => non_empty(list@),
                None => self.toggle_commands@,
            }),
    {
        let mut config: CommandConfig = self;
        if let Some(list) = start_commands {
            config.start_commands = drop_empty(&list);
        }
        if let Some(list) = stop_commands {
            config.stop_commands = drop_empty(&list);
        }
        if let Some(list) = status_commands {
            config.status_commands = drop_empty(&list);
        }
        if let Some(list) = toggle_commands {
            config.toggle_commands = drop_empty(&list);
        }
        config
    }

    /// The vocabulary that the command line asks for: each kind's phrases
    /// are the given ones without the empty ones, and the built-in phrases
    /// where none are given.
    pub fn from_cli_args(
        start_commands: Option<Vec<String>>,
        stop_commands: Option<Vec<String>>,
        status_commands: Option<Vec<String>>,
        toggle_commands: Option<Vec<String>>,
    ) -> (config: Self)
        ensures
            phrases(config.start_commands@) == (match start_commands {
                Some(list) => phrases(non_empty(list@)),
                None => seq!["start"@, "begin"@, "record"@],
            }),
            phrases(config.stop_commands@) == (match stop_commands {
                Some(list) => phrases(non_empty(list@)),
                None => seq!["stop"@, "end"@, "finish"@],
            }),
            phrases(config.status_commands@) == (match status_commands {
                Some(list) => phrases(non_empty(list@)),
                None => seq!["status"@, "check"@, "info"@],
            }),
            phrases(config.toggle_commands@) == (match toggle_commands {
                Some(list) => phrases(non_empty(list@)),
                None => seq!["toggle"@, "switch"@, ""@],
            }),
    {
        CommandConfig::default().overridden(
            start_commands,
            stop_commands,
            status_commands,
            toggle_commands,
        )
    }
}

} // verus!
