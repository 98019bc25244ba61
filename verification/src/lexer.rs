//! The lexer: scans the `@`-keyword markup left to right into a token
//! sequence, then glues adjacent free-word tokens into single multi-word
//! string tokens.

use vstd::prelude::*;
use crate::text::{
    char_alphabetic, char_numeric, char_whitespace, chars_of, is_alphabetic, is_numeric,
    is_whitespace, string_from_chars,
};

verus! {

/// One token of the markup: a keyword, a separator, a non-negative integer
/// literal, a free-word string, or the end marker.
#[derive(Debug, PartialEq, Eq)]
pub enum Token {
    Item,
    Weapon,
    Armor,
    Gold,
    Effect,
    Exp,
    Treasure,
    Monster,
    Life,
    Drop,
    Atk,
    Def,
    Name,
    Description,
    Value,
    Int(i32),
    Str(String),
    Colon,
    Eof,
    Level,
    MaxLife,
    ExpToLevelUp,
    Inventory,
    Heal,
    Damage,
    Teleport,
    Start,
    Random,
    Rareness,
}

/// The mathematical value of a [`Token`].
pub enum TokenV {
    Item,
    Weapon,
    Armor,
    Gold,
    Effect,
    Exp,
    Treasure,
    Monster,
    Life,
    Drop,
    Atk,
    Def,
    Name,
    Description,
    Value,
    Int(int),
    Str(Seq<char>),
    Colon,
    Eof,
    Level,
    MaxLife,
    ExpToLevelUp,
    Inventory,
    Heal,
    Damage,
    Teleport,
    Start,
    Random,
    Rareness,
}

impl Clone for Token {
    fn clone(&self) -> (r: Self)
        ensures
            r == *self,
    {
        match self {
            Token::Item => Token::Item,
            Token::Weapon => Token::Weapon,
            Token::Armor => Token::Armor,
            Token::Gold => Token::Gold,
            Token::Effect => Token::Effect,
            Token::Exp => Token::Exp,
            Token::Treasure => Token::Treasure,
            Token::Monster => Token::Monster,
            Token::Life => Token::Life,
            Token::Drop => Token::Drop,
            Token::Atk => Token::Atk,
            Token::Def => Token::Def,
            Token::Name => Token::Name,
            Token::Description => Token::Description,
            Token::Value => Token::Value,
            Token::Int(i) => Token::Int(*i),
            Token::Str(s) => Token::Str(s.clone()),
            Token::Colon => Token::Colon,
            Token::Eof => Token::Eof,
            Token::Level => Token::Level,
            Token::MaxLife => Token::MaxLife,
            Token::ExpToLevelUp => Token::ExpToLevelUp,
            Token::Inventory => Token::Inventory,
            Token::Heal => Token::Heal,
            Token::Damage => Token::Damage,
            Token::Teleport => Token::Teleport,
            Token::Start => Token::Start,
            Token::Random => Token::Random,
            Token::Rareness => Token::Rareness,
        }
    }
}

impl View for Token {
    type V = TokenV;

    open spec fn view(&self) -> TokenV {
        match self {
            Token::Item => TokenV::Item,
            Token::Weapon => TokenV::Weapon,
            Token::Armor => TokenV::Armor,
            Token::Gold => TokenV::Gold,
            Token::Effect => TokenV::Effect,
            Token::Exp => TokenV::Exp,
            Token::Treasure => TokenV::Treasure,
            Token::Monster => TokenV::Monster,
            Token::Life => TokenV::Life,
            Token::Drop => TokenV::Drop,
            Token::Atk => TokenV::Atk,
            Token::Def => TokenV::Def,
            Token::Name => TokenV::Name,
            Token::Description => TokenV::Description,
            Token::Value => TokenV::Value,
            Token::Int(i) => TokenV::Int(*i as int),
            Token::Str(s) => TokenV::Str(s@),
            Token::Colon => TokenV::Colon,
            Token::Eof => TokenV::Eof,
            Token::Level => TokenV::Level,
            Token::MaxLife => TokenV::MaxLife,
            Token::ExpToLevelUp => TokenV::ExpToLevelUp,
            Token::Inventory => TokenV::Inventory,
            Token::Heal => TokenV::Heal,
            Token::Damage => TokenV::Damage,
            Token::Teleport => TokenV::Teleport,
            Token::Start => TokenV::Start,
            Token::Random => TokenV::Random,
            Token::Rareness => TokenV::Rareness,
        }
    }
}

/// The view of a token sequence, element for element.
pub open spec fn tokens_view(s: Seq<Token>) -> Seq<TokenV> {
    s.map_values(|t: Token| t@)
}

/// The view of an optional token.
pub open spec fn opt_token_view(o: Option<Token>) -> Option<TokenV> {
    match o {
        Some(t) => Some(t@),
        None => None,
    }
}

/// The keyword table: the token for an exact spelling, or none for free
/// text. Case-sensitive, no partial matches.
pub open spec fn spec_lookup(w: Seq<char>) -> Option<TokenV> {
    if w == "@item"@ {
        Some(TokenV::Item)
    } else if w == "@weapon"@ {
        Some(TokenV::Weapon)
    } else if w == "@armor"@ {
        Some(TokenV::Armor)
    } else if w == "@gold"@ {
        Some(TokenV::Gold)
    } else if w == "@effect"@ {
        Some(TokenV::Effect)
    } else if w == "@exp"@ {
        Some(TokenV::Exp)
    } else if w == "@treasure"@ {
        Some(TokenV::Treasure)
    } else if w == "@monster"@ {
        Some(TokenV::Monster)
    } else if w == "@life"@ {
        Some(TokenV::Life)
    } else if w == "@drop"@ {
        Some(TokenV::Drop)
    } else if w == "@atk"@ {
        Some(TokenV::Atk)
    } else if w == "@def"@ {
        Some(TokenV::Def)
    } else if w == "@name"@ {
        Some(TokenV::Name)
    } else if w == "@description"@ {
        Some(TokenV::Description)
    } else if w == "@value"@ {
        Some(TokenV::Value)
    } else if w == "@level"@ {
        Some(TokenV::Level)
    } else if w == "@max-life"@ {
        Some(TokenV::MaxLife)
    } else if w == "@exp-to-level-up"@ {
        Some(TokenV::ExpToLevelUp)
    } else if w == "@inventory"@ {
        Some(TokenV::Inventory)
    } else if w == "@heal"@ {
        Some(TokenV::Heal)
    } else if w == "@damage"@ {
        Some(TokenV::Damage)
    } else if w == "@teleport"@ {
        Some(TokenV::Teleport)
    } else if w == "@start"@ {
        Some(TokenV::Start)
    } else if w == "@random"@ {
        Some(TokenV::Random)
    } else if w == "@rareness"@ {
        Some(TokenV::Rareness)
    } else {
        None
    }
}

/// A decimal digit.
pub open spec fn spec_digit(c: char) -> bool {
    48 <= c as u32 <= 57
}

/// A character that may stand in a word: a letter, a numeric character, `@`
/// or `-`.
pub open spec fn spec_word_char(c: char) -> bool {
    char_alphabetic(c) || char_numeric(c) || c == '@' || c == '-'
}

/// The end of the digit run starting at `pos`: the first position at or
/// after it holding no decimal digit.
pub open spec fn digit_run_end(s: Seq<char>, pos: int) -> int
    decreases s.len() - pos,
{
    if pos < 0 || pos >= s.len() || !spec_digit(s[pos]) {
        pos
    } else {
        digit_run_end(s, pos + 1)
    }
}

/// The end of the word run starting at `pos`.
pub open spec fn word_run_end(s: Seq<char>, pos: int) -> int
    decreases s.len() - pos,
{
    if pos < 0 || pos >= s.len() || !spec_word_char(s[pos]) {
        pos
    } else {
        word_run_end(s, pos + 1)
    }
}

/// One step of reading a decimal number: append a digit on the right,
/// saturating at `i32::MAX`.
pub open spec fn digit_step(acc: int, d: int) -> int {
    let m = if acc * 10 > i32::MAX as int {
        i32::MAX as int
    } else {
        acc * 10
    };
    if m + d > i32::MAX as int {
        i32::MAX as int
    } else {
        m + d
    }
}

/// The numeric value of the digits from `pos` to `end`, folded onto `acc`.
pub open spec fn int_value(s: Seq<char>, pos: int, end: int, acc: int) -> int
    decreases end - pos,
{
    if pos >= end {
        acc
    } else {
        int_value(s, pos + 1, end, digit_step(acc, s[pos] as u32 - 48))
    }
}

/// The next raw token at `pos` and the position after it. Whitespace is
/// skipped; past the end the result is the end marker; a character outside
/// every class produces nothing and scanning stops there.
pub open spec fn spec_next_token(s: Seq<char>, pos: int) -> (Option<TokenV>, int)
    decreases s.len() - pos,
{
    if pos < 0 || pos >= s.len() {
        (Some(TokenV::Eof), pos)
    } else if char_whitespace(s[pos]) {
        spec_next_token(s, pos + 1)
    } else if s[pos] == ':' {
        (Some(TokenV::Colon), pos + 1)
    } else if spec_digit(s[pos]) {
        let end = digit_run_end(s, pos);
        (Some(TokenV::Int(int_value(s, pos, end, 0))), end)
    } else if spec_word_char(s[pos]) {
        let end = word_run_end(s, pos);
        let w = s.subrange(pos, end);
        (
            match spec_lookup(w) {
                Some(t) => Some(t),
                None => Some(TokenV::Str(w)),
            },
            end,
        )
    } else {
        (None, pos)
    }
}

/// Scanning never moves backwards, stays within the text, and moves strictly
/// forward whenever it yields anything but the end marker.
pub proof fn lemma_next_token_advances(s: Seq<char>, pos: int)
    requires
        0 <= pos,
    ensures
        pos <= spec_next_token(s, pos).1,
        pos <= s.len() ==> spec_next_token(s, pos).1 <= s.len(),
        (spec_next_token(s, pos).0 matches Some(t) && !(t is Eof)) ==> pos < spec_next_token(
            s,
            pos,
        ).1,
    decreases s.len() - pos,
{
    if pos < s.len() {
        if char_whitespace(s[pos]) {
            lemma_next_token_advances(s, pos + 1);
        } else if s[pos] == ':' {
        } else if spec_digit(s[pos]) {
            lemma_digit_run_end(s, pos);
        } else if spec_word_char(s[pos]) {
            lemma_word_run_end(s, pos);
        }
    }
}

/// Bounds for the digit run: it starts at `pos`, is non-empty when a digit
/// stands there, ends within the text, and consists of digits only.
pub proof fn lemma_digit_run_end(s: Seq<char>, pos: int)
    requires
        0 <= pos <= s.len(),
    ensures
        pos <= digit_run_end(s, pos) <= s.len(),
        pos < s.len() && spec_digit(s[pos]) ==> pos < digit_run_end(s, pos),
        forall|j: int| pos <= j < digit_run_end(s, pos) ==> spec_digit(#[trigger] s[j]),
        digit_run_end(s, pos) < s.len() ==> !spec_digit(s[digit_run_end(s, pos)]),
    decreases s.len() - pos,
{
    if pos < s.len() && spec_digit(s[pos]) {
        lemma_digit_run_end(s, pos + 1);
    }
}

/// Bounds for the word run, as for the digit run.
pub proof fn lemma_word_run_end(s: Seq<char>, pos: int)
    requires
        0 <= pos <= s.len(),
    ensures
        pos <= word_run_end(s, pos) <= s.len(),
        pos < s.len() && spec_word_char(s[pos]) ==> pos < word_run_end(s, pos),
        forall|j: int| pos <= j < word_run_end(s, pos) ==> spec_word_char(#[trigger] s[j]),
        word_run_end(s, pos) < s.len() ==> !spec_word_char(s[word_run_end(s, pos)]),
    decreases s.len() - pos,
{
    if pos < s.len() && spec_word_char(s[pos]) {
        lemma_word_run_end(s, pos + 1);
    }
}

/// The raw token sequence from `pos` on: tokens up to and including the end
/// marker, or cut short where scanning stops on a foreign character.
pub open spec fn spec_raw_tokens(s: Seq<char>, pos: int) -> Seq<TokenV>
    decreases s.len() - pos + 1,
        when 0 <= pos
        via spec_raw_tokens_decreases
{
    match spec_next_token(s, pos) {
        (None, _) => Seq::empty(),
        (Some(t), p2) => {
            if t is Eof {
                seq![t]
            } else {
                seq![t] + spec_raw_tokens(s, p2)
            }
        },
    }
}

#[via_fn]
proof fn spec_raw_tokens_decreases(s: Seq<char>, pos: int) {
    lemma_next_token_advances(s, pos);
}

/// The characters of a string token; empty for any other token.
pub open spec fn str_of(t: TokenV) -> Seq<char> {
    match t {
        TokenV::Str(s) => s,
        _ => Seq::empty(),
    }
}

/// The end of the run of adjacent string tokens starting at `i`.
pub open spec fn str_run_end(toks: Seq<TokenV>, i: int) -> int
    decreases toks.len() - i,
{
    if i < 0 || i >= toks.len() || !(toks[i] is Str) {
        i
    } else {
        str_run_end(toks, i + 1)
    }
}

/// Bounds for the string run, as for the lexer's character runs.
pub proof fn lemma_str_run_end(toks: Seq<TokenV>, i: int)
    requires
        0 <= i <= toks.len(),
    ensures
        i <= str_run_end(toks, i) <= toks.len(),
        i < toks.len() && toks[i] is Str ==> i < str_run_end(toks, i),
        forall|j: int| i <= j < str_run_end(toks, i) ==> (#[trigger] toks[j]) is Str,
        str_run_end(toks, i) < toks.len() ==> !(toks[str_run_end(toks, i)] is Str),
    decreases toks.len() - i,
{
    if i < toks.len() && toks[i] is Str {
        lemma_str_run_end(toks, i + 1);
    }
}

/// The words of the string tokens from `i` up to `end`, joined with single
/// spaces, in order.
pub open spec fn join_strs(toks: Seq<TokenV>, i: int, end: int) -> Seq<char>
    decreases end - i,
{
    if end <= i + 1 {
        str_of(toks[i])
    } else {
        join_strs(toks, i, end - 1) + seq![' '] + str_of(toks[end - 1])
    }
}

/// The glued suffix from `i` on: each maximal run of adjacent string tokens
/// becomes one space-joined string token; every other token passes through.
pub open spec fn glue_from(toks: Seq<TokenV>, i: int) -> Seq<TokenV>
    decreases toks.len() - i,
        when 0 <= i
        via glue_from_decreases
{
    if i >= toks.len() {
        Seq::empty()
    } else if toks[i] is Str {
        let e = str_run_end(toks, i);
        seq![TokenV::Str(join_strs(toks, i, e))] + glue_from(toks, e)
    } else {
        seq![toks[i]] + glue_from(toks, i + 1)
    }
}

#[via_fn]
proof fn glue_from_decreases(toks: Seq<TokenV>, i: int) {
    if i < toks.len() {
        lemma_str_run_end(toks, i);
    }
}

/// The string-merge pass over a whole token sequence.
pub open spec fn glue(toks: Seq<TokenV>) -> Seq<TokenV> {
    glue_from(toks, 0)
}

/// No two adjacent string tokens.
pub open spec fn no_adjacent_strs(s: Seq<TokenV>) -> bool {
    forall|i: int|
        0 <= i && i + 1 < s.len() ==> !((#[trigger] s[i]) is Str && s[i + 1] is Str)
}

/// Gluing leaves no two string tokens adjacent, and its head is a string
/// token exactly when the head of the rest being glued is one.
pub proof fn lemma_glue_from_shape(toks: Seq<TokenV>, i: int)
    requires
        0 <= i,
    ensures
        no_adjacent_strs(glue_from(toks, i)),
        glue_from(toks, i).len() > 0 ==> (glue_from(toks, i)[0] is Str <==> (i < toks.len()
            && toks[i] is Str)),
    decreases toks.len() - i,
{
    if i >= toks.len() {
    } else if toks[i] is Str {
        lemma_str_run_end(toks, i);
        let e = str_run_end(toks, i);
        lemma_glue_from_shape(toks, e);
        let g2 = glue_from(toks, e);
        let g = glue_from(toks, i);
        assert forall|k: int| 0 <= k && k + 1 < g.len() implies !((#[trigger] g[k]) is Str && g[k
            + 1] is Str) by {
            if k > 0 {
                assert(g[k] == g2[k - 1]);
                assert(g[k + 1] == g2[k]);
            } else {
                assert(g[1] == g2[0]);
            }
        }
    } else {
        lemma_glue_from_shape(toks, i + 1);
        let g2 = glue_from(toks, i + 1);
        let g = glue_from(toks, i);
        assert forall|k: int| 0 <= k && k + 1 < g.len() implies !((#[trigger] g[k]) is Str && g[k
            + 1] is Str) by {
            if k > 0 {
                assert(g[k] == g2[k - 1]);
                assert(g[k + 1] == g2[k]);
            }
        }
    }
}

/// Gluing a sequence with no adjacent string tokens changes nothing.
pub proof fn lemma_glue_from_noop(toks: Seq<TokenV>, i: int)
    requires
        no_adjacent_strs(toks),
        0 <= i <= toks.len(),
    ensures
        glue_from(toks, i) == toks.subrange(i, toks.len() as int),
    decreases toks.len() - i,
{
    if i >= toks.len() {
        assert(glue_from(toks, i) =~= toks.subrange(i, toks.len() as int));
    } else if toks[i] is Str {
        lemma_str_run_end(toks, i);
        let e = str_run_end(toks, i);
        assert(e == i + 1) by {
            if e > i + 1 {
                assert(toks[i] is Str && toks[i + 1] is Str);
            }
        }
        assert(join_strs(toks, i, e) == str_of(toks[i]));
        assert(TokenV::Str(join_strs(toks, i, e)) == toks[i]);
        lemma_glue_from_noop(toks, i + 1);
        assert(glue_from(toks, i) =~= toks.subrange(i, toks.len() as int));
    } else {
        lemma_glue_from_noop(toks, i + 1);
        assert(glue_from(toks, i) =~= toks.subrange(i, toks.len() as int));
    }
}

/// Applying the string-merge pass twice is equivalent to applying it once.
pub proof fn lemma_glue_idempotent(toks: Seq<TokenV>)
    ensures
        glue(glue(toks)) == glue(toks),
{
    lemma_glue_from_shape(toks, 0);
    lemma_glue_from_noop(glue(toks), 0);
    assert(glue(toks).subrange(0, glue(toks).len() as int) =~= glue(toks));
}

/// The token sequence of a whole text: the raw scan, then the string-merge
/// pass.
pub open spec fn spec_tokenize(s: Seq<char>) -> Seq<TokenV> {
    glue(spec_raw_tokens(s, 0))
}

/// One saturating step of [`digit_step`], executable.
fn digit_step_exec(acc: i32, d: u32) -> (r: i32)
    requires
        0 <= acc,
        d <= 9,
    ensures
        r as int == digit_step(acc as int, d as int),
        0 <= r,
{
    let m: i64 = acc as i64 * 10;
    let m2: i64 = if m > i32::MAX as i64 {
        i32::MAX as i64
    } else {
        m
    };
    let v: i64 = m2 + d as i64;
    if v > i32::MAX as i64 {
        i32::MAX
    } else {
        v as i32
    }
}

/// Whether the character is a decimal digit.
fn digit_char(c: char) -> (r: bool)
    ensures
        r == spec_digit(c),
{
    let u = c as u32;
    u >= 48 && u <= 57
}

/// Whether the character may stand in a word.
fn word_char(c: char) -> (r: bool)
    ensures
        r == spec_word_char(c),
{
    if is_alphabetic(c) {
        true
    } else if is_numeric(c) {
        true
    } else {
        c == '@' || c == '-'
    }
}

/// The keyword for an exact spelling, or none for free text: exact,
/// case-sensitive matches only, never partial ones.
pub fn lookup_keyword(w: &String) -> (r: Option<Token>)
    ensures
        opt_token_view(r) == spec_lookup(w@),
{
    if w.eq(&"@item".to_owned()) {
        Some(Token::Item)
    } else if w.eq(&"@weapon".to_owned()) {
        Some(Token::Weapon)
    } else if w.eq(&"@armor".to_owned()) {
        Some(Token::Armor)
    } else if w.eq(&"@gold".to_owned()) {
        Some(Token::Gold)
    } else if w.eq(&"@effect".to_owned()) {
        Some(Token::Effect)
    } else if w.eq(&"@exp".to_owned()) {
        Some(Token::Exp)
    } else if w.eq(&"@treasure".to_owned()) {
        Some(Token::Treasure)
    } else if w.eq(&"@monster".to_owned()) {
        Some(Token::Monster)
    } else if w.eq(&"@life".to_owned()) {
        Some(Token::Life)
    } else if w.eq(&"@drop".to_owned()) {
        Some(Token::Drop)
    } else if w.eq(&"@atk".to_owned()) {
        Some(Token::Atk)
    } else if w.eq(&"@def".to_owned()) {
        Some(Token::Def)
    } else if w.eq(&"@name".to_owned()) {
        Some(Token::Name)
    } else if w.eq(&"@description".to_owned()) {
        Some(Token::Description)
    } else if w.eq(&"@value".to_owned()) {
        Some(Token::Value)
    } else if w.eq(&"@level".to_owned()) {
        Some(Token::Level)
    } else if w.eq(&"@max-life".to_owned()) {
        Some(Token::MaxLife)
    } else if w.eq(&"@exp-to-level-up".to_owned()) {
        Some(Token::ExpToLevelUp)
    } else if w.eq(&"@inventory".to_owned()) {
        Some(Token::Inventory)
    } else if w.eq(&"@heal".to_owned()) {
        Some(Token::Heal)
    } else if w.eq(&"@damage".to_owned()) {
        Some(Token::Damage)
    } else if w.eq(&"@teleport".to_owned()) {
        Some(Token::Teleport)
    } else if w.eq(&"@start".to_owned()) {
        Some(Token::Start)
    } else if w.eq(&"@random".to_owned()) {
        Some(Token::Random)
    } else if w.eq(&"@rareness".to_owned()) {
        Some(Token::Rareness)
    } else {
        None
    }
}

/// The lexer: the text as characters and a scan position.
pub struct Lexer {
    chars: Vec<char>,
    position: usize,
}

/// The mathematical value of a [`Lexer`].
pub struct LexerV {
    pub input: Seq<char>,
    pub position: int,
}

impl View for Lexer {
    type V = LexerV;

    closed spec fn view(&self) -> LexerV {
        LexerV { input: self.chars@, position: self.position as int }
    }
}

impl Lexer {
    /// Well-formed: the scan position lies within the text. Established by
    /// [`Lexer::new`] and preserved by every method.
    pub open spec fn wf(&self) -> bool {
        self@.position <= self@.input.len()
    }

    pub fn new(input: String) -> (r: Lexer)
        ensures
            r@.input == input@,
            r@.position == 0,
            r.wf(),
    {
        Lexer { chars: chars_of(input.as_str()), position: 0 }
    }

    /// Scans the next raw token; see [`spec_next_token`]. Yields nothing on a
    /// character outside every class, and the end marker at the end of text.
    pub fn next_token(&mut self) -> (r: Option<Token>)
        requires
            old(self).wf(),
        ensures
            final(self).wf(),
            final(self)@.input == old(self)@.input,
            opt_token_view(r) == spec_next_token(old(self)@.input, old(self)@.position).0,
            final(self)@.position == spec_next_token(old(self)@.input, old(self)@.position).1,
    {
        let ghost s = self@.input;
        let ghost p0 = self@.position;
        while self.position < self.chars.len()
            invariant
                s == old(self)@.input,
                p0 == old(self)@.position,
                self.chars@ == s,
                p0 <= self@.position <= s.len(),
                spec_next_token(s, self@.position) == spec_next_token(s, p0),
            decreases s.len() - self@.position,
        {
            let c = self.chars[self.position];
            if is_whitespace(c) {
                self.position += 1;
            } else if c == ':' {
                self.position += 1;
                return Some(Token::Colon);
            } else if digit_char(c) {
                let ghost start = self@.position;
                let ghost end = digit_run_end(s, start);
                proof {
                    lemma_digit_run_end(s, start);
                }
                let mut value: i32 = 0;
                loop
                    invariant_except_break
                        self.chars@ == s,
                        0 <= start,
                        start <= self@.position <= end <= s.len(),
                        end == digit_run_end(s, self@.position),
                        0 <= value,
                        int_value(s, self@.position, end, value as int) == int_value(
                            s,
                            start,
                            end,
                            0,
                        ),
                    ensures
                        self.chars@ == s,
                        self@.position == end,
                        value as int == int_value(s, start, end, 0),
                    decreases end - self@.position,
                {
                    if self.position >= self.chars.len() {
                        break;
                    }
                    let c2 = self.chars[self.position];
                    if !digit_char(c2) {
                        break;
                    }
                    proof {
                        lemma_digit_run_end(s, self@.position + 1);
                    }
                    let d: u32 = c2 as u32 - 48;
                    value = digit_step_exec(value, d);
                    self.position += 1;
                }
                return Some(Token::Int(value));
            } else if word_char(c) {
                let ghost start = self@.position;
                let ghost end = word_run_end(s, start);
                proof {
                    lemma_word_run_end(s, start);
                }
                let mut run: Vec<char> = Vec::new();
                loop
                    invariant_except_break
                        self.chars@ == s,
                        0 <= start,
                        start <= self@.position <= end <= s.len(),
                        end == word_run_end(s, self@.position),
                        run@ == s.subrange(start, self@.position),
                    ensures
                        self.chars@ == s,
                        self@.position == end,
                        run@ == s.subrange(start, end),
                    decreases end - self@.position,
                {
                    if self.position >= self.chars.len() {
                        break;
                    }
                    let c2 = self.chars[self.position];
                    if !word_char(c2) {
                        break;
                    }
                    proof {
                        lemma_word_run_end(s, self@.position + 1);
                    }
                    run.push(c2);
                    self.position += 1;
                    proof {
                        assert(run@ =~= s.subrange(start, self@.position));
                    }
                }
                let w = string_from_chars(&run);
                match lookup_keyword(&w) {
                    Some(t) => {
                        return Some(t);
                    },
                    None => {
                        return Some(Token::Str(w));
                    },
                }
            } else {
                return None;
            }
        }
        Some(Token::Eof)
    }

    /// The string-merge pass over a scanned token sequence; see [`glue`].
    pub fn combine_strings(tokens: &Vec<Token>) -> (r: Vec<Token>)
        ensures
            tokens_view(r@) == glue(tokens_view(tokens@)),
    {
        let ghost full = tokens_view(tokens@);
        let mut out: Vec<Token> = Vec::new();
        let mut i: usize = 0;
        proof {
            assert(tokens_view(out@) + glue_from(full, 0) =~= glue_from(full, 0));
        }
        while i < tokens.len()
            invariant
                i <= tokens@.len(),
                full == tokens_view(tokens@),
                full.len() == tokens@.len(),
                tokens_view(out@) + glue_from(full, i as int) == glue_from(full, 0),
            decreases tokens@.len() - i,
        {
            let t = tokens[i].clone();
            let ghost out0 = tokens_view(out@);
            match t {
                Token::Str(s0) => {
                    proof {
                        lemma_str_run_end(full, i as int);
                    }
                    let ghost e = str_run_end(full, i as int);
                    let mut combined = s0;
                    let mut j: usize = i + 1;
                    proof {
                        assert(full[i as int] == tokens@[i as int]@);
                        assert(combined@ == join_strs(full, i as int, j as int));
                    }
                    loop
                        invariant_except_break
                            full == tokens_view(tokens@),
                            full.len() == tokens@.len(),
                            i < j,
                            j as int <= e <= full.len(),
                            e == str_run_end(full, i as int),
                            forall|k: int| i <= k < e ==> (#[trigger] full[k]) is Str,
                            e < full.len() ==> !(full[e] is Str),
                            combined@ == join_strs(full, i as int, j as int),
                        ensures
                            j as int == e,
                            combined@ == join_strs(full, i as int, e),
                        decreases e - j,
                    {
                        if j >= tokens.len() {
                            break;
                        }
                        let keep = match &tokens[j] {
                            Token::Str(_) => true,
                            _ => false,
                        };
                        if !keep {
                            proof {
                                assert(full[j as int] == tokens@[j as int]@);
                                assert(!(full[j as int] is Str));
                            }
                            break;
                        }
                        match &tokens[j] {
                            Token::Str(s2) => {
                                combined.append(" ");
                                combined.append(s2.as_str());
                                proof {
                                    reveal_strlit(" ");
                                    assert(" "@ =~= seq![' ']);
                                    assert(full[j as int] == tokens@[j as int]@);
                                    assert(str_of(full[j as int]) == s2@);
                                    assert(combined@ =~= join_strs(full, i as int, j + 1));
                                }
                            },
                            _ => {},
                        }
                        j += 1;
                    }
                    out.push(Token::Str(combined));
                    proof {
                        assert(tokens_view(out@) =~= out0.push(
                            TokenV::Str(join_strs(full, i as int, e)),
                        ));
                        assert(glue_from(full, i as int) == seq![
                            TokenV::Str(join_strs(full, i as int, e)),
                        ] + glue_from(full, e));
                        assert(tokens_view(out@) + glue_from(full, e) =~= out0 + glue_from(
                            full,
                            i as int,
                        ));
                    }
                    i = j;
                },
                other => {
                    out.push(other);
                    proof {
                        assert(full[i as int] == tokens@[i as int]@);
                        assert(tokens_view(out@) =~= out0.push(full[i as int]));
                        assert(glue_from(full, i as int) == seq![full[i as int]] + glue_from(
                            full,
                            i as int + 1,
                        ));
                        assert(tokens_view(out@) + glue_from(full, i as int + 1) =~= out0
                            + glue_from(full, i as int));
                    }
                    i += 1;
                },
            }
        }
        proof {
            assert(glue_from(full, full.len() as int) =~= Seq::<TokenV>::empty());
            assert(tokens_view(out@) + glue_from(full, full.len() as int) =~= tokens_view(out@));
        }
        out
    }

    /// Scans the whole remaining text and applies the string-merge pass: the
    /// token sequence ends with the end marker, or is cut short where
    /// scanning stopped on a foreign character.
    pub fn lex(&mut self) -> (r: Vec<Token>)
        requires
            old(self).wf(),
        ensures
            final(self).wf(),
            tokens_view(r@) == glue(spec_raw_tokens(old(self)@.input, old(self)@.position)),
            old(self)@.position == 0 ==> tokens_view(r@) == spec_tokenize(old(self)@.input),
    {
        let ghost s = self@.input;
        let ghost p0 = self@.position;
        let mut tokens: Vec<Token> = Vec::new();
        proof {
            assert(tokens_view(tokens@) + spec_raw_tokens(s, p0) =~= spec_raw_tokens(s, p0));
        }
        loop
            invariant_except_break
                self.wf(),
                self@.input == s,
                0 <= self@.position,
                tokens_view(tokens@) + spec_raw_tokens(s, self@.position) == spec_raw_tokens(
                    s,
                    p0,
                ),
            ensures
                self.wf(),
                self@.input == s,
                tokens_view(tokens@) == spec_raw_tokens(s, p0),
            decreases s.len() - self@.position,
        {
            let ghost cur = self@.position;
            proof {
                lemma_next_token_advances(s, cur);
            }
            let t = self.next_token();
            let ghost tv = tokens_view(tokens@);
            match t {
                None => {
                    proof {
                        assert(spec_raw_tokens(s, cur) =~= Seq::<TokenV>::empty());
                        assert(tv + spec_raw_tokens(s, cur) =~= tv);
                    }
                    break;
                },
                Some(tok) => {
                    let is_eof = match &tok {
                        Token::Eof => true,
                        _ => false,
                    };
                    let ghost tokv = tok@;
                    tokens.push(tok);
                    proof {
                        assert(tokens_view(tokens@) =~= tv.push(tokv));
                    }
                    if is_eof {
                        proof {
                            assert(spec_raw_tokens(s, cur) =~= seq![tokv]);
                            assert(tokens_view(tokens@) =~= tv + spec_raw_tokens(s, cur));
                        }
                        break;
                    }
                    proof {
                        assert(spec_raw_tokens(s, cur) =~= seq![tokv] + spec_raw_tokens(
                            s,
                            self@.position,
                        ));
                        assert(tokens_view(tokens@) + spec_raw_tokens(s, self@.position) =~= tv
                            + spec_raw_tokens(s, cur));
                    }
                },
            }
        }
        Lexer::combine_strings(&tokens)
    }
}

/// Tokenizing identical text twice yields identical token sequences: the
/// token sequence is a function of the text alone.
pub proof fn lemma_tokenize_deterministic(s1: Seq<char>, s2: Seq<char>)
    requires
        s1 == s2,
    ensures
        spec_tokenize(s1) == spec_tokenize(s2),
{
}

/// Empty text scans to exactly the end marker.
pub proof fn lemma_tokenize_empty()
    ensures
        spec_tokenize(Seq::<char>::empty()) == seq![TokenV::Eof],
{
    let s = Seq::<char>::empty();
    assert(spec_raw_tokens(s, 0) == seq![TokenV::Eof]);
    assert(glue_from(seq![TokenV::Eof], 0) =~= seq![TokenV::Eof] + glue_from(
        seq![TokenV::Eof],
        1,
    ));
    assert(glue_from(seq![TokenV::Eof], 1) =~= Seq::<TokenV>::empty());
    assert(spec_tokenize(s) =~= seq![TokenV::Eof]);
}

} // verus!
