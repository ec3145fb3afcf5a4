//! Text as sequences of characters: the character classes and case mappings
//! that the standard library supplies, and trimming on top of them.

use vstd::prelude::*;
use vstd::string::*;
use vstd::std_specs::iter::IteratorSpec;
use std::str::Chars;

verus! {

broadcast use vstd::string::group_string_axioms;

/// Whether `c` is white space in the sense of `char::is_whitespace`.
pub uninterp spec fn char_is_whitespace(c: char) -> bool;

/// Whether `c` is a letter or a digit in the sense of `char::is_alphanumeric`.
pub uninterp spec fn char_is_alphanumeric(c: char) -> bool;

/// The lower-case form of a text, as `str::to_lowercase` maps it.
pub uninterp spec fn lowercase_of(s: Seq<char>) -> Seq<char>;

/// The upper-case form of a text, as `str::to_uppercase` maps it.
pub uninterp spec fn uppercase_of(s: Seq<char>) -> Seq<char>;

/// `char::is_whitespace` is taken as given: its answer is the Unicode
/// `White_Space` property of the character, which this crate only names.
pub assume_specification[ char::is_whitespace ](c: char) -> (b: bool)
    ensures
        b == char_is_whitespace(c),
;

/// `char::is_alphanumeric` is taken as given: its answer depends on the
/// character alone, and this crate only names it.
pub assume_specification[ char::is_alphanumeric ](c: char) -> (b: bool)
    ensures
        b == char_is_alphanumeric(c),
;

/// `str::to_lowercase` is taken as given: the result is a function of the
/// characters of the input, which this crate only names.
pub assume_specification[ str::to_lowercase ](s: &str) -> (r: String)
    ensures
        r@ == lowercase_of(s@),
;

/// `str::to_uppercase` is taken as given: the result is a function of the
/// characters of the input, which this crate only names.
pub assume_specification[ str::to_uppercase ](s: &str) -> (r: String)
    ensures
        r@ == uppercase_of(s@),
;

/// `String::push` is taken as given: it appends the one character to the end
/// of the string.
pub assume_specification[ String::push ](s: &mut String, c: char)
    ensures
        final(s)@ == old(s)@.push(c),
;

/// The characters of `s`, in order.
pub fn to_chars(s: &str) -> (v: Vec<char>)
    ensures
        v@ == s@,
{
    let mut rest: Chars = s.chars();
    let mut v: Vec<char> = Vec::new();
    assert(v@ + rest.remaining() =~= s@);
    loop
        invariant_except_break
            v@ + rest.remaining() == s@,
        ensures
            v@ == s@,
        decreases s@.len() - v@.len(),
    {
        let ghost taken = v@;
        let ghost left = rest.remaining();
        match rest.next() {
            Some(c) => {
                v.push(c);
                assert(taken.push(c) + left.drop_first() =~= taken + left);
            },
            None => {
                assert(taken + left =~= taken);
                break;
            },
        }
    }
    v
}

/// The string made of the characters of `v`, in order.
pub fn from_chars(v: &Vec<char>) -> (s: String)
    ensures
        s@ == v@,
{
    let mut s: String = String::new();
    let mut i: usize = 0;
    while i < v.len()
        invariant
            i <= v.len(),
            s@ == v@.subrange(0, i as int),
        decreases v.len() - i,
    {
        s.push(v[i]);
        i += 1;
    }
    s
}

/// The characters of `s` from index `from` up to, not including, `to`.
pub fn copy_chars(s: &Vec<char>, from: usize, to: usize) -> (r: Vec<char>)
    requires
        from <= to <= s@.len(),
    ensures
        r@ == s@.subrange(from as int, to as int),
{
    let mut r: Vec<char> = Vec::new();
    let mut i: usize = from;
    while i < to
        invariant
            from <= i <= to <= s@.len(),
            r@ == s@.subrange(from as int, i as int),
        decreases to - i,
    {
        r.push(s[i]);
        i += 1;
    }
    r
}

/// Lower-case form of a text held as characters.
pub fn lowercase(v: &Vec<char>) -> (r: Vec<char>)
    ensures
        r@ == lowercase_of(v@),
{
    let s: String = from_chars(v);
    let lower: String = s.as_str().to_lowercase();
    to_chars(lower.as_str())
}

/// Upper-case form of a text held as characters.
pub fn uppercase(v: &Vec<char>) -> (r: Vec<char>)
    ensures
        r@ == uppercase_of(v@),
{
    let s: String = from_chars(v);
    let upper: String = s.as_str().to_uppercase();
    to_chars(upper.as_str())
}

/// A class of characters that can be stripped from the edges of a text.
#[derive(Clone, Copy, Debug)]
pub enum CharClass {
    /// White space.
    Whitespace,
    /// Everything that is neither a letter nor a digit.
    NonAlphanumeric,
}

impl CharClass {
    /// Whether `c` belongs to the class.
    pub open spec fn holds(self, c: char) -> bool {
        match self {
            CharClass::Whitespace => char_is_whitespace(c),
            CharClass::NonAlphanumeric => !char_is_alphanumeric(c),
        }
    }

    /// Tests whether `c` belongs to the class.
    pub fn test(self, c: char) -> (b: bool)
        ensures
            b == self.holds(c),
    {
        match self {
            CharClass::Whitespace => c.is_whitespace(),
            CharClass::NonAlphanumeric => !c.is_alphanumeric(),
        }
    }
}

/// First index at or after `i` whose character is outside `class`, or the
/// length of `s` if there is none.
pub open spec fn skip_class(s: Seq<char>, class: CharClass, i: int) -> int
    decreases s.len() - i,
{
    if 0 <= i < s.len() && class.holds(s[i]) {
        skip_class(s, class, i + 1)
    } else {
        i
    }
}

/// Start of the run of characters of `class` that ends just before `j`: the
/// least index from which everything up to `j` is in the class, or `j` itself
/// where the character before `j` is outside the class.
pub open spec fn skip_class_back(s: Seq<char>, class: CharClass, j: int) -> int
    decreases j,
{
    if 0 < j <= s.len() && class.holds(s[j - 1]) {
        skip_class_back(s, class, j - 1)
    } else {
        j
    }
}

/// `s` without the characters of `class` at its two ends.
pub open spec fn trim_class(s: Seq<char>, class: CharClass) -> Seq<char> {
    let a = skip_class(s, class, 0);
    let b = skip_class_back(s, class, s.len() as int);
    if a < b {
        s.subrange(a, b)
    } else {
        Seq::empty()
    }
}

/// `s` without leading and trailing white space.
pub open spec fn trim_spec(s: Seq<char>) -> Seq<char> {
    trim_class(s, CharClass::Whitespace)
}

/// Whether `s` holds nothing but white space.
pub open spec fn is_blank(s: Seq<char>) -> bool {
    trim_spec(s).len() == 0
}

/// `skip_class` stays within the text and stops on a character outside the
/// class; everything it passed is in the class.
pub proof fn lemma_skip_class(s: Seq<char>, class: CharClass, i: int)
    requires
        0 <= i <= s.len(),
    ensures
        i <= skip_class(s, class, i) <= s.len(),
        skip_class(s, class, i) < s.len() ==> !class.holds(s[skip_class(s, class, i)]),
        forall|k: int| i <= k < skip_class(s, class, i) ==> class.holds(#[trigger] s[k]),
    decreases s.len() - i,
{
    if i < s.len() && class.holds(s[i]) {
        lemma_skip_class(s, class, i + 1);
    }
}

/// `skip_class_back` stays within the text and stops after a character
/// outside the class; everything it passed is in the class.
pub proof fn lemma_skip_class_back(s: Seq<char>, class: CharClass, j: int)
    requires
        0 <= j <= s.len(),
    ensures
        0 <= skip_class_back(s, class, j) <= j,
        skip_class_back(s, class, j) > 0 ==> !class.holds(s[skip_class_back(s, class, j) - 1]),
        forall|k: int| skip_class_back(s, class, j) <= k < j ==> class.holds(#[trigger] s[k]),
    decreases j,
{
    if 0 < j && class.holds(s[j - 1]) {
        lemma_skip_class_back(s, class, j - 1);
    }
}

/// A trimmed text neither starts nor ends with a character of the class.
pub proof fn lemma_trim_class_edges(s: Seq<char>, class: CharClass)
    ensures
        trim_class(s, class).len() > 0 ==> !class.holds(trim_class(s, class).first())
            && !class.holds(trim_class(s, class).last()),
        trim_class(s, class).len() <= s.len(),
{
    lemma_skip_class(s, class, 0);
    lemma_skip_class_back(s, class, s.len() as int);
}

/// Trimming a trimmed text changes nothing.
pub proof fn lemma_trim_class_idempotent(s: Seq<char>, class: CharClass)
    ensures
        trim_class(trim_class(s, class), class) == trim_class(s, class),
{
    let t = trim_class(s, class);
    lemma_trim_class_edges(s, class);
    if t.len() > 0 {
        assert(t.subrange(0, t.len() as int) =~= t);
    }
}

/// Skipping forwards inside a window of `s` that is followed by nothing but
/// characters of `class` goes as it does in the window taken alone: it stops
/// on the same character, or runs to the end in both.
pub proof fn lemma_skip_class_window(s: Seq<char>, class: CharClass, a: int, b: int, j: int)
    requires
        0 <= a <= j <= b <= s.len(),
        forall|k: int| b <= k < s.len() ==> class.holds(#[trigger] s[k]),
    ensures
        skip_class(s, class, j) < b ==> skip_class(s.subrange(a, b), class, j - a) == skip_class(
            s,
            class,
            j,
        ) - a,
        skip_class(s, class, j) >= b ==> skip_class(s.subrange(a, b), class, j - a) == b - a
            && skip_class(s, class, j) == s.len(),
    decreases s.len() - j,
{
    let t = s.subrange(a, b);
    if j < b {
        assert(t[j - a] == s[j]);
        if class.holds(s[j]) {
            lemma_skip_class_window(s, class, a, b, j + 1);
        }
    } else {
        lemma_skip_class(s, class, b);
    }
}

/// Skipping backwards inside a window of `s` that is preceded by nothing but
/// characters of `class` goes as it does in the window taken alone.
pub proof fn lemma_skip_class_back_window(s: Seq<char>, class: CharClass, a: int, b: int, j: int)
    requires
        0 <= a <= j <= b <= s.len(),
        forall|k: int| 0 <= k < a ==> class.holds(#[trigger] s[k]),
    ensures
        skip_class_back(s, class, j) > a ==> skip_class_back(s.subrange(a, b), class, j - a)
            == skip_class_back(s, class, j) - a,
        skip_class_back(s, class, j) <= a ==> skip_class_back(s.subrange(a, b), class, j - a) == 0
            && skip_class_back(s, class, j) == 0,
    decreases j,
{
    let t = s.subrange(a, b);
    if j > a {
        assert(t[j - a - 1] == s[j - 1]);
        if class.holds(s[j - 1]) {
            lemma_skip_class_back_window(s, class, a, b, j - 1);
        }
    } else {
        lemma_skip_class_back(s, class, a);
    }
}

/// Skipping forwards from anywhere inside a run of characters of `class`
/// ends where skipping from the end of the run ends.
pub proof fn lemma_skip_class_through(s: Seq<char>, class: CharClass, i: int, a: int)
    requires
        0 <= i <= a <= s.len(),
        forall|k: int| i <= k < a ==> class.holds(#[trigger] s[k]),
    ensures
        skip_class(s, class, i) == skip_class(s, class, a),
    decreases a - i,
{
    if i < a {
        lemma_skip_class_through(s, class, i + 1, a);
    }
}

/// Skipping backwards from anywhere inside a run of characters of `class`
/// ends where skipping from the start of the run ends.
pub proof fn lemma_skip_class_back_through(s: Seq<char>, class: CharClass, b: int, j: int)
    requires
        0 <= b <= j <= s.len(),
        forall|k: int| b <= k < j ==> class.holds(#[trigger] s[k]),
    ensures
        skip_class_back(s, class, j) == skip_class_back(s, class, b),
    decreases j - b,
{
    if b < j {
        lemma_skip_class_back_through(s, class, b, j - 1);
    }
}

/// Characters of the class around a text play no part in trimming: a text
/// that holds nothing but characters of `class` before index `a` and from
/// index `b` on is trimmed to what its part from `a` to `b` is trimmed to.
pub proof fn lemma_trim_class_window(s: Seq<char>, class: CharClass, a: int, b: int)
    requires
        0 <= a <= b <= s.len(),
        forall|k: int| 0 <= k < a ==> class.holds(#[trigger] s[k]),
        forall|k: int| b <= k < s.len() ==> class.holds(#[trigger] s[k]),
    ensures
        trim_class(s, class) == trim_class(s.subrange(a, b), class),
{
    let t = s.subrange(a, b);
    lemma_skip_class_through(s, class, 0, a);
    lemma_skip_class_back_through(s, class, b, s.len() as int);
    lemma_skip_class_window(s, class, a, b, a);
    lemma_skip_class_back_window(s, class, a, b, b);
    lemma_skip_class(s, class, a);
    lemma_skip_class_back(s, class, b);
    let x = skip_class(s, class, a);
    let y = skip_class_back(s, class, b);
    if x < b {
        assert(!class.holds(s[x]));
        assert(x < y);
        assert(t.subrange(x - a, y - a) =~= s.subrange(x, y));
    } else {
        lemma_skip_class_back(t, class, t.len() as int);
    }
}

/// Characters of the class put before and after a text play no part in
/// trimming it.
pub proof fn lemma_trim_class_ignores_added_edges(
    before: Seq<char>,
    s: Seq<char>,
    after: Seq<char>,
    class: CharClass,
)
    requires
        forall|k: int| 0 <= k < before.len() ==> class.holds(#[trigger] before[k]),
        forall|k: int| 0 <= k < after.len() ==> class.holds(#[trigger] after[k]),
    ensures
        trim_class(before + s + after, class) == trim_class(s, class),
{
    let whole = before + s + after;
    let a = before.len() as int;
    let b = a + s.len();
    assert(whole.subrange(a, b) =~= s);
    assert forall|k: int| 0 <= k < a implies class.holds(#[trigger] whole[k]) by {
        assert(whole[k] == before[k]);
    }
    assert forall|k: int| b <= k < whole.len() implies class.holds(#[trigger] whole[k]) by {
        assert(whole[k] == after[k - b]);
    }
    lemma_trim_class_window(whole, class, a, b);
}

/// The text `s` without the characters of `class` at its two ends.
pub fn trim_matches(s: &Vec<char>, class: CharClass) -> (r: Vec<char>)
    ensures
        r@ == trim_class(s@, class),
{
    let n: usize = s.len();
    let mut a: usize = 0;
    while a < n && class.test(s[a])
        invariant
            n == s@.len(),
            a <= n,
            skip_class(s@, class, a as int) == skip_class(s@, class, 0),
        decreases n - a,
    {
        a += 1;
    }
    let mut b: usize = n;
    while b > 0 && class.test(s[b - 1])
        invariant
            n == s@.len(),
            b <= n,
            skip_class_back(s@, class, b as int) == skip_class_back(s@, class, n as int),
        decreases b,
    {
        b -= 1;
    }
    let mut r: Vec<char> = Vec::new();
    if a < b {
        let mut i: usize = a;
        while i < b
            invariant
                a <= i <= b <= n,
                n == s@.len(),
                r@ == s@.subrange(a as int, i as int),
            decreases b - i,
        {
            r.push(s[i]);
            i += 1;
        }
    }
    r
}

/// The text `s` without leading and trailing white space.
pub fn trim(s: &Vec<char>) -> (r: Vec<char>)
    ensures
        r@ == trim_spec(s@),
{
    trim_matches(s, CharClass::Whitespace)
}

/// The texts that a list of character vectors holds.
pub open spec fn texts(v: Seq<Vec<char>>) -> Seq<Seq<char>> {
    v.map_values(|w: Vec<char>| w@)
}

/// First index at or after `i` whose character is white space, or the length
/// of `s` if there is none.
pub open spec fn word_end(s: Seq<char>, i: int) -> int
    decreases s.len() - i,
{
    if 0 <= i < s.len() && !char_is_whitespace(s[i]) {
        word_end(s, i + 1)
    } else {
        i
    }
}

/// The maximal runs of characters other than white space in `s` from index
/// `i` on, in order.
pub open spec fn words_from(s: Seq<char>, i: int) -> Seq<Seq<char>>
    decreases s.len() - i,
{
    let a = skip_class(s, CharClass::Whitespace, i);
    let b = word_end(s, a);
    if 0 <= i <= a && a < b <= s.len() {
        seq![s.subrange(a, b)] + words_from(s, b)
    } else {
        Seq::empty()
    }
}

/// The words of `s`: its maximal runs of characters other than white space.
pub open spec fn words_spec(s: Seq<char>) -> Seq<Seq<char>> {
    words_from(s, 0)
}

/// `word_end` stays within the text.
pub proof fn lemma_word_end(s: Seq<char>, i: int)
    requires
        0 <= i <= s.len(),
    ensures
        i <= word_end(s, i) <= s.len(),
        i < s.len() && !char_is_whitespace(s[i]) ==> i < word_end(s, i),
        forall|k: int| i <= k < word_end(s, i) ==> !char_is_whitespace(#[trigger] s[k]),
    decreases s.len() - i,
{
    if i < s.len() && !char_is_whitespace(s[i]) {
        lemma_word_end(s, i + 1);
    }
}

/// Every word is non-empty and free of white space.
pub proof fn lemma_words_from(s: Seq<char>, i: int)
    requires
        0 <= i <= s.len(),
    ensures
        forall|k: int|
            0 <= k < words_from(s, i).len() ==> (#[trigger] words_from(s, i)[k]).len() > 0,
        forall|k: int, j: int|
            0 <= k < words_from(s, i).len() && 0 <= j < words_from(s, i)[k].len()
                ==> !char_is_whitespace(#[trigger] words_from(s, i)[k][j]),
    decreases s.len() - i,
{
    let a = skip_class(s, CharClass::Whitespace, i);
    lemma_skip_class(s, CharClass::Whitespace, i);
    let b = word_end(s, a);
    lemma_word_end(s, a);
    if a < b {
        lemma_words_from(s, b);
        let rest = words_from(s, b);
        let w = s.subrange(a, b);
        let all = words_from(s, i);
        assert(all == seq![w] + rest);
        assert forall|k: int| 0 <= k < all.len() implies (#[trigger] all[k]).len() > 0 by {
            if k > 0 {
                assert(all[k] == rest[k - 1]);
            }
        }
        assert forall|k: int, j: int| 0 <= k < all.len() && 0 <= j < all[k].len()
            implies !char_is_whitespace(#[trigger] all[k][j]) by {
            if k > 0 {
                assert(all[k] == rest[k - 1]);
            } else {
                assert(all[0][j] == s[a + j]);
            }
        }
    }
}

/// A word inside a window of `s` that is followed by white space or by
/// nothing ends in the window, where it ends in the window taken alone.
pub proof fn lemma_word_end_window(s: Seq<char>, a: int, b: int, j: int)
    requires
        0 <= a <= j <= b <= s.len(),
        b < s.len() ==> char_is_whitespace(s[b]),
    ensures
        word_end(s, j) <= b,
        word_end(s.subrange(a, b), j - a) == word_end(s, j) - a,
    decreases b - j,
{
    let t = s.subrange(a, b);
    if j < b {
        assert(t[j - a] == s[j]);
        if !char_is_whitespace(s[j]) {
            lemma_word_end_window(s, a, b, j + 1);
        }
    }
}

/// The words of `s` from an index inside a window that is followed by
/// nothing but white space are the words of the window taken alone.
pub proof fn lemma_words_window(s: Seq<char>, a: int, b: int, j: int)
    requires
        0 <= a <= j <= b <= s.len(),
        forall|k: int| b <= k < s.len() ==> CharClass::Whitespace.holds(#[trigger] s[k]),
    ensures
        words_from(s, j) == words_from(s.subrange(a, b), j - a),
    decreases b - j,
{
    let t = s.subrange(a, b);
    let x = skip_class(s, CharClass::Whitespace, j);
    lemma_skip_class(s, CharClass::Whitespace, j);
    lemma_skip_class_window(s, CharClass::Whitespace, a, b, j);
    if x < b {
        assert(b < s.len() ==> CharClass::Whitespace.holds(s[b]));
        lemma_word_end_window(s, a, b, x);
        lemma_word_end(s, x);
        let e = word_end(s, x);
        lemma_words_window(s, a, b, e);
        assert(t.subrange(x - a, e - a) =~= s.subrange(x, e));
    }
}

/// White space around a text plays no part in its words: a text and its
/// trimmed form have the same words.
pub proof fn lemma_words_ignore_outer_whitespace(s: Seq<char>)
    ensures
        words_spec(trim_spec(s)) == words_spec(s),
{
    let x = skip_class(s, CharClass::Whitespace, 0);
    let y = skip_class_back(s, CharClass::Whitespace, s.len() as int);
    lemma_skip_class(s, CharClass::Whitespace, 0);
    lemma_skip_class_back(s, CharClass::Whitespace, s.len() as int);
    if x < y {
        assert(skip_class(s, CharClass::Whitespace, x) == x);
        assert(words_from(s, 0) == words_from(s, x));
        lemma_words_window(s, x, y, x);
    } else {
        if x < s.len() {
            assert(CharClass::Whitespace.holds(s[x]));
        }
        assert(words_from(Seq::<char>::empty(), 0) =~= Seq::<Seq<char>>::empty());
    }
}

/// The words of `s`: its maximal runs of characters other than white space,
/// in order.
pub fn split_whitespace(s: &Vec<char>) -> (r: Vec<Vec<char>>)
    ensures
        texts(r@) == words_spec(s@),
{
    let n: usize = s.len();
    let mut r: Vec<Vec<char>> = Vec::new();
    let mut i: usize = 0;
    assert(texts(r@) + words_from(s@, 0) =~= words_from(s@, 0));
    loop
        invariant
            n == s@.len(),
            i <= n,
            texts(r@) + words_from(s@, i as int) == words_spec(s@),
        ensures
            texts(r@) == words_spec(s@),
        decreases n - i,
    {
        let mut a: usize = i;
        while a < n && s[a].is_whitespace()
            invariant
                n == s@.len(),
                i <= a <= n,
                skip_class(s@, CharClass::Whitespace, a as int) == skip_class(
                    s@,
                    CharClass::Whitespace,
                    i as int,
                ),
            decreases n - a,
        {
            a += 1;
        }
        if a >= n {
            assert(word_end(s@, n as int) == n);
            assert(words_from(s@, i as int) =~= Seq::<Seq<char>>::empty());
            assert(texts(r@) + Seq::<Seq<char>>::empty() =~= texts(r@));
            break;
        }
        let mut b: usize = a + 1;
        let mut w: Vec<char> = Vec::new();
        w.push(s[a]);
        while b < n && !s[b].is_whitespace()
            invariant
                n == s@.len(),
                a < b <= n,
                word_end(s@, b as int) == word_end(s@, a as int),
                w@ == s@.subrange(a as int, b as int),
            decreases n - b,
        {
            w.push(s[b]);
            b += 1;
        }
        proof {
            let before = texts(r@);
            assert(texts(r@.push(w)) =~= before + seq![w@]);
            assert((before + seq![w@]) + words_from(s@, b as int) =~= before + (seq![w@]
                + words_from(s@, b as int)));
        }
        r.push(w);
        i = b;
    }
    r
}

/// Whether `needle` stands in `hay` at index `i`.
pub open spec fn occurs_at(hay: Seq<char>, needle: Seq<char>, i: int) -> bool {
    0 <= i && i + needle.len() <= hay.len() && hay.subrange(i, i + needle.len()) == needle
}

/// Whether `needle` stands somewhere in `hay`. The empty text stands in
/// every text.
pub open spec fn contains_spec(hay: Seq<char>, needle: Seq<char>) -> bool {
    exists|i: int| occurs_at(hay, needle, i)
}

/// Tests whether `needle` stands in `hay` at index `i`.
pub fn starts_at(hay: &Vec<char>, needle: &Vec<char>, i: usize) -> (b: bool)
    ensures
        b == occurs_at(hay@, needle@, i as int),
{
    let m: usize = needle.len();
    if i > hay.len() || m > hay.len() - i {
        return false;
    }
    let mut k: usize = 0;
    while k < m
        invariant
            m == needle@.len(),
            i + m <= hay.len(),
            k <= m,
            hay@.subrange(i as int, i + k) == needle@.subrange(0, k as int),
        decreases m - k,
    {
        if hay[i + k] != needle[k] {
            assert(hay@.subrange(i as int, i + m)[k as int] != needle@[k as int]);
            return false;
        }
        assert(hay@.subrange(i as int, i + k + 1) =~= hay@.subrange(i as int, i + k).push(
            hay@[i + k],
        ));
        assert(needle@.subrange(0, k + 1) =~= needle@.subrange(0, k as int).push(needle@[k as int]));
        k += 1;
    }
    assert(needle@.subrange(0, m as int) =~= needle@);
    true
}

/// Tests whether `needle` stands somewhere in `hay`.
pub fn contains(hay: &Vec<char>, needle: &Vec<char>) -> (b: bool)
    ensures
        b == contains_spec(hay@, needle@),
{
    let n: usize = hay.len();
    let m: usize = needle.len();
    if m > n {
        return false;
    }
    let last: usize = n - m;
    let mut i: usize = 0;
    loop
        invariant
            n == hay@.len(),
            m == needle@.len(),
            last == n - m,
            i <= last,
            forall|k: int| 0 <= k < i ==> !occurs_at(hay@, needle@, k),
        decreases last - i,
    {
        if starts_at(hay, needle, i) {
            return true;
        }
        if i == last {
            return false;
        }
        i += 1;
    }
}

/// `s` from index `i` on, with every occurrence of `pat` taken out, the
/// occurrences found from left to right and not overlapping. An empty `pat`
/// takes nothing out.
pub open spec fn remove_from(s: Seq<char>, pat: Seq<char>, i: int) -> Seq<char>
    decreases s.len() - i,
{
    if i < 0 || i >= s.len() {
        Seq::empty()
    } else if pat.len() > 0 && occurs_at(s, pat, i) {
        remove_from(s, pat, i + pat.len())
    } else {
        seq![s[i]] + remove_from(s, pat, i + 1)
    }
}

/// `s` with every occurrence of `pat` taken out.
pub open spec fn remove_all_spec(s: Seq<char>, pat: Seq<char>) -> Seq<char> {
    remove_from(s, pat, 0)
}

/// The text `s` with every occurrence of `pat` taken out, the occurrences
/// found from left to right and not overlapping.
pub fn remove_all(s: &Vec<char>, pat: &Vec<char>) -> (r: Vec<char>)
    ensures
        r@ == remove_all_spec(s@, pat@),
{
    let n: usize = s.len();
    let m: usize = pat.len();
    let mut r: Vec<char> = Vec::new();
    let mut i: usize = 0;
    assert(r@ + remove_from(s@, pat@, 0) =~= remove_from(s@, pat@, 0));
    while i < n
        invariant
            n == s@.len(),
            m == pat@.len(),
            i <= n,
            r@ + remove_from(s@, pat@, i as int) == remove_all_spec(s@, pat@),
        decreases n - i,
    {
        if m > 0 && starts_at(s, pat, i) {
            i += m;
        } else {
            assert(r@.push(s@[i as int]) + remove_from(s@, pat@, i + 1) =~= r@ + (seq![s@[i as int]]
                + remove_from(s@, pat@, i + 1)));
            r.push(s[i]);
            i += 1;
        }
    }
    assert(r@ + Seq::<char>::empty() =~= r@);
    r
}

/// The texts of `words` from index `k` on, with `sep` between each two.
pub open spec fn join_from(words: Seq<Seq<char>>, sep: Seq<char>, k: int) -> Seq<char>
    decreases words.len() - k,
{
    if k < 0 || k >= words.len() {
        Seq::empty()
    } else if k == words.len() - 1 {
        words[k]
    } else {
        words[k] + sep + join_from(words, sep, k + 1)
    }
}

/// The texts of `words` joined by single spaces.
pub open spec fn join_spec(words: Seq<Seq<char>>) -> Seq<char> {
    join_from(words, seq![' '], 0)
}

/// Appends the characters of `tail` to `out`.
pub fn append_chars(out: &mut Vec<char>, tail: &Vec<char>)
    ensures
        final(out)@ == old(out)@ + tail@,
{
    let mut j: usize = 0;
    assert(out@ =~= old(out)@ + tail@.subrange(0, 0));
    while j < tail.len()
        invariant
            j <= tail.len(),
            out@ == old(out)@ + tail@.subrange(0, j as int),
        decreases tail.len() - j,
    {
        assert((old(out)@ + tail@.subrange(0, j as int)).push(tail@[j as int]) =~= old(out)@
            + tail@.subrange(0, j + 1));
        out.push(tail[j]);
        j += 1;
    }
    assert(tail@.subrange(0, tail.len() as int) =~= tail@);
}

/// The texts of `words` with `sep` between each two.
pub fn join(words: &Vec<Vec<char>>, sep: &Vec<char>) -> (r: Vec<char>)
    ensures
        r@ == join_from(texts(words@), sep@, 0),
{
    let n: usize = words.len();
    let mut r: Vec<char> = Vec::new();
    let mut k: usize = 0;
    assert(r@ + join_from(texts(words@), sep@, 0) =~= join_from(texts(words@), sep@, 0));
    while k < n
        invariant
            n == words@.len(),
            k <= n,
            r@ + join_from(texts(words@), sep@, k as int) == join_from(texts(words@), sep@, 0),
        decreases n - k,
    {
        let ghost before = r@;
        let ghost all = texts(words@);
        assert(all[k as int] == words@[k as int]@);
        append_chars(&mut r, &words[k]);
        if k + 1 < n {
            append_chars(&mut r, sep);
            assert(r@ + join_from(all, sep@, k + 1) =~= before + (all[k as int] + sep@ + join_from(
                all,
                sep@,
                k + 1,
            )));
        } else {
            assert(join_from(all, sep@, k + 1) =~= Seq::<char>::empty());
            assert(r@ + join_from(all, sep@, k + 1) =~= before + all[k as int]);
        }
        k += 1;
    }
    assert(r@ + Seq::<char>::empty() =~= r@);
    r
}

/// The texts of `words` joined by single spaces.
pub fn join_with_space(words: &Vec<Vec<char>>) -> (r: Vec<char>)
    ensures
        r@ == join_spec(texts(words@)),
{
    let mut sep: Vec<char> = Vec::new();
    sep.push(' ');
    assert(sep@ =~= seq![' ']);
    join(words, &sep)
}

/// The character of a decimal digit; `'0'` for anything that is none.
pub open spec fn digit_char(d: int) -> char {
    if d == 1 {
        '1'
    } else if d == 2 {
        '2'
    } else if d == 3 {
        '3'
    } else if d == 4 {
        '4'
    } else if d == 5 {
        '5'
    } else if d == 6 {
        '6'
    } else if d == 7 {
        '7'
    } else if d == 8 {
        '8'
    } else if d == 9 {
        '9'
    } else {
        '0'
    }
}

/// The character of the decimal digit `d`.
pub fn digit(d: u64) -> (c: char)
    requires
        d < 10,
    ensures
        c == digit_char(d as int),
{
    match d {
        1 => '1',
        2 => '2',
        3 => '3',
        4 => '4',
        5 => '5',
        6 => '6',
        7 => '7',
        8 => '8',
        9 => '9',
        _ => '0',
    }
}

/// The decimal numeral of `n`, without leading zeros.
pub open spec fn decimal_spec(n: nat) -> Seq<char>
    decreases n,
{
    if n < 10 {
        seq![digit_char(n as int)]
    } else {
        decimal_spec(n / 10).push(digit_char((n % 10) as int))
    }
}

/// The last `width` decimal digits of `n`, with leading zeros where `n` has
/// fewer.
pub open spec fn fixed_decimal_spec(n: nat, width: nat) -> Seq<char>
    decreases width,
{
    if width == 0 {
        Seq::empty()
    } else {
        fixed_decimal_spec(n / 10, (width - 1) as nat).push(digit_char((n % 10) as int))
    }
}

/// Appends the decimal numeral of `n` to `out`.
pub fn push_decimal(out: &mut Vec<char>, n: u64)
    ensures
        final(out)@ == old(out)@ + decimal_spec(n as nat),
    decreases n,
{
    if n >= 10 {
        push_decimal(out, n / 10);
    }
    out.push(digit(n % 10));
    assert(out@ =~= old(out)@ + decimal_spec(n as nat));
}

/// Appends the last `width` decimal digits of `n` to `out`, with leading
/// zeros where `n` has fewer.
pub fn push_fixed_decimal(out: &mut Vec<char>, n: u64, width: u8)
    ensures
        final(out)@ == old(out)@ + fixed_decimal_spec(n as nat, width as nat),
    decreases width,
{
    if width > 0 {
        push_fixed_decimal(out, n / 10, width - 1);
        out.push(digit(n % 10));
    }
    assert(out@ =~= old(out)@ + fixed_decimal_spec(n as nat, width as nat));
}

/// Appends the characters of `tail` to `out`.
pub fn push_str(out: &mut Vec<char>, tail: &str)
    ensures
        final(out)@ == old(out)@ + tail@,
{
    let chars: Vec<char> = to_chars(tail);
    append_chars(out, &chars);
}

} // verus!
