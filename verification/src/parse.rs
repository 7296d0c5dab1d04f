//! The command interpreter: lower-cases a line, splits it into a verb and a
//! noun phrase, and maps the verb to an intent from the fixed vocabulary.

use vstd::prelude::*;

use crate::text::{lower_of, lowercase, str_eq};
use crate::types::Command;

verus! {

/// Whitespace for the purposes of tokenization.
pub open spec fn is_space(c: char) -> bool {
    c == ' ' || c == '\t' || c == '\n' || c == '\r' || c == '\u{b}' || c == '\u{c}'
}

/// The first index at or after `i` that does not hold whitespace.
pub open spec fn skip_spaces(s: Seq<char>, i: int) -> int
    decreases s.len() - i,
{
    if i < s.len() && is_space(s[i]) {
        skip_spaces(s, i + 1)
    } else {
        i
    }
}

/// The first index at or after `i` that holds whitespace (the end of the word
/// starting at `i`).
pub open spec fn word_end(s: Seq<char>, i: int) -> int
    decreases s.len() - i,
{
    if i < s.len() && !is_space(s[i]) {
        word_end(s, i + 1)
    } else {
        i
    }
}

/// The first token of `s`: empty when the line holds none.
pub open spec fn spec_verb(s: Seq<char>) -> Seq<char> {
    s.subrange(skip_spaces(s, 0), word_end(s, skip_spaces(s, 0)))
}

/// The remaining tokens of `s` from index `i` on, rejoined with single
/// spaces.
pub open spec fn spec_noun_from(s: Seq<char>, i: int) -> Seq<char>
    decreases s.len() - i,
    via spec_noun_from_dec
{
    if !(0 <= i < s.len()) {
        Seq::<char>::empty()
    } else if is_space(s[i]) {
        spec_noun_from(s, i + 1)
    } else {
        let d = word_end(s, i);
        let rest = spec_noun_from(s, d);
        if rest.len() == 0 {
            s.subrange(i, d)
        } else {
            s.subrange(i, d) + seq![' '] + rest
        }
    }
}

#[via_fn]
proof fn spec_noun_from_dec(s: Seq<char>, i: int) {
    if 0 <= i < s.len() && !is_space(s[i]) {
        lemma_word_end(s, i);
    }
}

/// Skipping leading whitespace does not change the rejoined noun phrase.
proof fn lemma_noun_from_skip(s: Seq<char>, i: int)
    requires
        0 <= i <= s.len(),
    ensures
        spec_noun_from(s, i) == spec_noun_from(s, skip_spaces(s, i)),
    decreases s.len() - i,
{
    if i < s.len() && is_space(s[i]) {
        lemma_noun_from_skip(s, i + 1);
    }
}

/// The noun phrase of `s`: everything after the first token, rejoined with
/// single spaces.
pub open spec fn spec_noun(s: Seq<char>) -> Seq<char> {
    spec_noun_from(s, word_end(s, skip_spaces(s, 0)))
}

/// The second token of `s`: empty when the line holds fewer than two.
pub open spec fn spec_second(s: Seq<char>) -> Seq<char> {
    let c = skip_spaces(s, word_end(s, skip_spaces(s, 0)));
    s.subrange(c, word_end(s, c))
}

/// The end index of `s` with trailing whitespace removed, scanning down from
/// `i`.
pub open spec fn trim_end_idx(s: Seq<char>, i: int) -> int
    decreases i,
{
    if i <= 0 {
        0
    } else if is_space(s[i - 1]) {
        trim_end_idx(s, i - 1)
    } else {
        i
    }
}

/// `s` with leading and trailing whitespace removed.
pub open spec fn spec_trim(s: Seq<char>) -> Seq<char> {
    let a = skip_spaces(s, 0);
    let b = trim_end_idx(s, s.len() as int);
    if a >= b {
        Seq::<char>::empty()
    } else {
        s.subrange(a, b)
    }
}

/// Positions reached by skipping spaces never pass the end and land on a
/// non-space (or the end), with only spaces before them.
proof fn lemma_skip_spaces(s: Seq<char>, i: int)
    requires
        0 <= i <= s.len(),
    ensures
        i <= skip_spaces(s, i) <= s.len(),
        skip_spaces(s, i) < s.len() ==> !is_space(s[skip_spaces(s, i)]),
    decreases s.len() - i,
{
    if i < s.len() && is_space(s[i]) {
        lemma_skip_spaces(s, i + 1);
    }
}

/// The end of a word never passes the end of the line, and it lies strictly
/// after a non-space start.
proof fn lemma_word_end(s: Seq<char>, i: int)
    requires
        0 <= i <= s.len(),
    ensures
        i <= word_end(s, i) <= s.len(),
        i < s.len() && !is_space(s[i]) ==> word_end(s, i) >= i + 1,
    decreases s.len() - i,
{
    if i < s.len() && !is_space(s[i]) {
        lemma_word_end(s, i + 1);
    }
}

/// Whitespace test on one character.
fn is_space_char(c: char) -> (r: bool)
    ensures
        r == is_space(c),
{
    c == ' ' || c == '\t' || c == '\n' || c == '\r' || c == '\u{b}' || c == '\u{c}'
}

/// The index of the first non-space at or after `i`.
fn skip_spaces_from(s: &str, i: usize) -> (r: usize)
    requires
        i <= s@.len(),
    ensures
        r as int == skip_spaces(s@, i as int),
        i <= r <= s@.len(),
    {
    let n = s.unicode_len();
    let mut a = i;
    while a < n && is_space_char(s.get_char(a))
        invariant
            n == s@.len(),
            i <= a <= n,
            skip_spaces(s@, i as int) == skip_spaces(s@, a as int),
        decreases n - a,
    {
        a = a + 1;
    }
    a
}

/// The index of the first space at or after `i`.
fn word_end_from(s: &str, i: usize) -> (r: usize)
    requires
        i <= s@.len(),
    ensures
        r as int == word_end(s@, i as int),
        i <= r <= s@.len(),
    {
    let n = s.unicode_len();
    let mut b = i;
    while b < n && !is_space_char(s.get_char(b))
        invariant
            n == s@.len(),
            i <= b <= n,
            word_end(s@, i as int) == word_end(s@, b as int),
        decreases n - b,
    {
        b = b + 1;
    }
    b
}

/// The tokens of `s` from index `i` on, rejoined with single spaces.
fn noun_from(s: &str, i: usize) -> (r: String)
    requires
        i <= s@.len(),
    ensures
        r@ == spec_noun_from(s@, i as int),
    decreases s@.len() - i as int,
{
    let n = s.unicode_len();
    let c = skip_spaces_from(s, i);
    proof {
        lemma_noun_from_skip(s@, i as int);
    }
    if c >= n {
        String::new()
    } else {
        proof {
            lemma_skip_spaces(s@, i as int);
            lemma_word_end(s@, c as int);
        }
        let d = word_end_from(s, c);
        let word = s.substring_char(c, d).to_owned();
        let rest = noun_from(s, d);
        if rest.as_str().is_empty() {
            word
        } else {
            let mut m = word;
            m.append(" ");
            m.append(rest.as_str());
            proof {
                reveal_strlit(" ");
                assert(" "@ =~= seq![' ']);
            }
            m
        }
    }
}

/// `s` with leading and trailing whitespace removed.
fn trim_str(s: &str) -> (r: String)
    ensures
        r@ == spec_trim(s@),
{
    let n = s.unicode_len();
    let a = skip_spaces_from(s, 0);
    let mut b = n;
    while b > 0 && is_space_char(s.get_char(b - 1))
        invariant
            n == s@.len(),
            b <= n,
            trim_end_idx(s@, n as int) == trim_end_idx(s@, b as int),
        decreases b,
    {
        b = b - 1;
    }
    if a >= b {
        String::new()
    } else {
        s.substring_char(a, b).to_owned()
    }
}

/// The first and second tokens of a line, for the combat sub-commands.
pub fn split_verb_noun(s: &str) -> (r: (String, String))
    ensures
        r.0@ == spec_verb(s@),
        r.1@ == spec_second(s@),
{
    let a = skip_spaces_from(s, 0);
    let b = word_end_from(s, a);
    let verb = s.substring_char(a, b).to_owned();
    let c = skip_spaces_from(s, b);
    let d = word_end_from(s, c);
    let noun = s.substring_char(c, d).to_owned();
    (verb, noun)
}

/// What `spec_parse_is` says, for one verb of the vocabulary: the line's
/// first token equals the verb.
pub open spec fn verb_is(s: Seq<char>, v: Seq<char>) -> bool {
    spec_verb(s) == v
}

/// How an already lower-cased line maps to an intent: the vocabulary, the
/// noun phrase carried by the intents that take one, and the trimmed line
/// carried by `Unknown`.
pub open spec fn spec_parse_line(s: Seq<char>, r: Command) -> bool {
    if verb_is(s, "look"@) {
        r matches Command::Look(n) && n@ == spec_noun(s)
    } else if verb_is(s, "go"@) {
        r matches Command::Go(n) && n@ == spec_noun(s)
    } else if verb_is(s, "quit"@) {
        r is Quit
    } else if verb_is(s, "ask"@) {
        r matches Command::Ask(n) && n@ == spec_noun(s)
    } else if verb_is(s, "attack"@) {
        r matches Command::Attack(n) && n@ == spec_noun(s)
    } else if verb_is(s, "drop"@) {
        r matches Command::Drop(n) && n@ == spec_noun(s)
    } else if verb_is(s, "get"@) {
        r matches Command::Get(n) && n@ == spec_noun(s)
    } else if verb_is(s, "give"@) {
        r matches Command::Give(n) && n@ == spec_noun(s)
    } else if verb_is(s, "help"@) {
        r is Help
    } else if verb_is(s, "inventory"@) {
        r is Inventory
    } else if verb_is(s, "map"@) {
        r is WorldMap
    } else {
        r matches Command::Unknown(u) && u@ == spec_trim(s)
    }
}

/// Maps an already lower-cased line to an intent.
pub fn parse_line(line: &String) -> (r: Command)
    ensures
        spec_parse_line(line@, r),
{
    let s = line.as_str();
    let a = skip_spaces_from(s, 0);
    let b = word_end_from(s, a);
    let verb = s.substring_char(a, b).to_owned();
    let noun = noun_from(s, b);

    if str_eq(verb.as_str(), "look") {
        Command::Look(noun)
    } else if str_eq(verb.as_str(), "go") {
        Command::Go(noun)
    } else if str_eq(verb.as_str(), "quit") {
        Command::Quit
    } else if str_eq(verb.as_str(), "ask") {
        Command::Ask(noun)
    } else if str_eq(verb.as_str(), "attack") {
        Command::Attack(noun)
    } else if str_eq(verb.as_str(), "drop") {
        Command::Drop(noun)
    } else if str_eq(verb.as_str(), "get") {
        Command::Get(noun)
    } else if str_eq(verb.as_str(), "give") {
        Command::Give(noun)
    } else if str_eq(verb.as_str(), "help") {
        Command::Help
    } else if str_eq(verb.as_str(), "inventory") {
        Command::Inventory
    } else if str_eq(verb.as_str(), "map") {
        Command::WorldMap
    } else {
        Command::Unknown(trim_str(s))
    }
}

/// How a raw line maps to an intent: the verb and the noun phrase come from
/// the lower-cased line, while `Unknown` preserves the raw text, trimmed.
pub open spec fn spec_parse(s: Seq<char>, r: Command) -> bool {
    let low = lower_of(s);
    if verb_is(low, "look"@) {
        r matches Command::Look(n) && n@ == spec_noun(low)
    } else if verb_is(low, "go"@) {
        r matches Command::Go(n) && n@ == spec_noun(low)
    } else if verb_is(low, "quit"@) {
        r is Quit
    } else if verb_is(low, "ask"@) {
        r matches Command::Ask(n) && n@ == spec_noun(low)
    } else if verb_is(low, "attack"@) {
        r matches Command::Attack(n) && n@ == spec_noun(low)
    } else if verb_is(low, "drop"@) {
        r matches Command::Drop(n) && n@ == spec_noun(low)
    } else if verb_is(low, "get"@) {
        r matches Command::Get(n) && n@ == spec_noun(low)
    } else if verb_is(low, "give"@) {
        r matches Command::Give(n) && n@ == spec_noun(low)
    } else if verb_is(low, "help"@) {
        r is Help
    } else if verb_is(low, "inventory"@) {
        r is Inventory
    } else if verb_is(low, "map"@) {
        r is WorldMap
    } else {
        r matches Command::Unknown(u) && u@ == spec_trim(s)
    }
}

/// Parses a raw input line: lower-cases it, takes the first token as the
/// verb, and keeps the rest, rejoined with single spaces, as the noun phrase.
/// An unrecognized verb yields `Unknown` carrying the original line, trimmed.
pub fn parse(input: String) -> (r: Command)
    ensures
        spec_parse(input@, r),
{
    let lowered = lowercase(input.as_str());
    let command = parse_line(&lowered);
    match command {
        Command::Unknown(_) => Command::Unknown(trim_str(input.as_str())),
        other => other,
    }
}

} // verus!
