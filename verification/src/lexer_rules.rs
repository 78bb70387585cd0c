//! The ordered lexical rules.
//!
//! At each position the remaining text is held against a fixed, ordered
//! list of rules; the first rule that matches at that position wins
//! (first-match, not longest-match). The order is load-bearing: keyword
//! phrases that are textual prefixes of other phrases must be tried in the
//! order that avoids shadowing.
//!
//! The grammar is byte-based: the whitespace, letter, digit and word
//! classes below are the ASCII ones, so a byte outside ASCII matches only
//! inside a quoted literal or as the interrobang character's own bytes.

use vstd::prelude::*;

use crate::lexer_lits::at_and_kw;
use crate::lexer_lits::at_assign_he;
use crate::lexer_lits::at_assign_it;
use crate::lexer_lits::at_assign_she;
use crate::lexer_lits::at_assign_they;
use crate::lexer_lits::at_bang;
use crate::lexer_lits::at_bangq;
use crate::lexer_lits::at_called;
use crate::lexer_lits::at_colon;
use crate::lexer_lits::at_comma;
use crate::lexer_lits::at_declaration_cap;
use crate::lexer_lits::at_declaration_lc;
use crate::lexer_lits::at_dot;
use crate::lexer_lits::at_ellipsis;
use crate::lexer_lits::at_eq_to;
use crate::lexer_lits::at_false_kw;
use crate::lexer_lits::at_greater;
use crate::lexer_lits::at_greater_eq;
use crate::lexer_lits::at_if_cap;
use crate::lexer_lits::at_if_lc;
use crate::lexer_lits::at_interrobang;
use crate::lexer_lits::at_labelled;
use crate::lexer_lits::at_less;
use crate::lexer_lits::at_less_eq;
use crate::lexer_lits::at_lparen;
use crate::lexer_lits::at_minus;
use crate::lexer_lits::at_named;
use crate::lexer_lits::at_neq_to;
use crate::lexer_lits::at_neq_to_apos;
use crate::lexer_lits::at_none_kw;
use crate::lexer_lits::at_not_apos;
use crate::lexer_lits::at_not_kw;
use crate::lexer_lits::at_or_kw;
use crate::lexer_lits::at_plus;
use crate::lexer_lits::at_qbang;
use crate::lexer_lits::at_question;
use crate::lexer_lits::at_rparen;
use crate::lexer_lits::at_semicolon;
use crate::lexer_lits::at_slash;
use crate::lexer_lits::at_star;
use crate::lexer_lits::at_therefore_cap;
use crate::lexer_lits::at_therefore_lc;
use crate::lexer_lits::at_true_kw;
use crate::lexer_lits::at_you_kw;
use crate::lexer_lits::lit_and_kw;
use crate::lexer_lits::lit_assign_he;
use crate::lexer_lits::lit_assign_it;
use crate::lexer_lits::lit_assign_she;
use crate::lexer_lits::lit_assign_they;
use crate::lexer_lits::lit_bang;
use crate::lexer_lits::lit_bangq;
use crate::lexer_lits::lit_called;
use crate::lexer_lits::lit_colon;
use crate::lexer_lits::lit_comma;
use crate::lexer_lits::lit_declaration_cap;
use crate::lexer_lits::lit_declaration_lc;
use crate::lexer_lits::lit_dot;
use crate::lexer_lits::lit_ellipsis;
use crate::lexer_lits::lit_eq_to;
use crate::lexer_lits::lit_false_kw;
use crate::lexer_lits::lit_greater;
use crate::lexer_lits::lit_greater_eq;
use crate::lexer_lits::lit_if_cap;
use crate::lexer_lits::lit_if_lc;
use crate::lexer_lits::lit_interrobang;
use crate::lexer_lits::lit_labelled;
use crate::lexer_lits::lit_less;
use crate::lexer_lits::lit_less_eq;
use crate::lexer_lits::lit_lparen;
use crate::lexer_lits::lit_minus;
use crate::lexer_lits::lit_named;
use crate::lexer_lits::lit_neq_to;
use crate::lexer_lits::lit_neq_to_apos;
use crate::lexer_lits::lit_none_kw;
use crate::lexer_lits::lit_not_apos;
use crate::lexer_lits::lit_not_kw;
use crate::lexer_lits::lit_or_kw;
use crate::lexer_lits::lit_plus;
use crate::lexer_lits::lit_qbang;
use crate::lexer_lits::lit_question;
use crate::lexer_lits::lit_rparen;
use crate::lexer_lits::lit_semicolon;
use crate::lexer_lits::lit_slash;
use crate::lexer_lits::lit_star;
use crate::lexer_lits::lit_therefore_cap;
use crate::lexer_lits::lit_therefore_lc;
use crate::lexer_lits::lit_true_kw;
use crate::lexer_lits::lit_you_kw;
use crate::numeric::is_digit_byte;
use crate::token::TokenType;

verus! {

/// Whether a byte is ASCII whitespace (space, tab, newline, carriage
/// return, vertical tab or form feed); whitespace beyond ASCII matches no
/// rule and is reported as a missing token.
pub open spec fn is_ws_byte(b: u8) -> bool {
    b == 32 || b == 9 || b == 10 || b == 13 || b == 11 || b == 12
}

/// Whether a byte is an ASCII uppercase letter.
pub open spec fn is_upper_byte(b: u8) -> bool {
    65 <= b <= 90
}

/// Whether a byte is an ASCII letter, digit or underscore: the bytes an
/// identifier may continue with (identifiers do not extend beyond ASCII).
pub open spec fn is_word_byte(b: u8) -> bool {
    (65 <= b <= 90) || (97 <= b <= 122) || (48 <= b <= 57) || b == 95
}

/// Whether `lit` occurs in `text` starting exactly at `i`.
pub open spec fn is_prefix_at(text: Seq<u8>, i: int, lit: Seq<u8>) -> bool {
    &&& 0 <= i
    &&& i + lit.len() <= text.len()
    &&& text.subrange(i, i + lit.len()) == lit
}

/// The end of the run of decimal digits that starts at `i`.
pub open spec fn digit_run_end(text: Seq<u8>, i: int) -> int
    decreases text.len() - i,
{
    if 0 <= i < text.len() && is_digit_byte(text[i]) {
        digit_run_end(text, i + 1)
    } else {
        i
    }
}

/// The end of the run of word bytes that starts at `i`.
pub open spec fn word_run_end(text: Seq<u8>, i: int) -> int
    decreases text.len() - i,
{
    if 0 <= i < text.len() && is_word_byte(text[i]) {
        word_run_end(text, i + 1)
    } else {
        i
    }
}

/// The end of the run of whitespace bytes that starts at `i`.
pub open spec fn ws_run_end(text: Seq<u8>, i: int) -> int
    decreases text.len() - i,
{
    if 0 <= i < text.len() && is_ws_byte(text[i]) {
        ws_run_end(text, i + 1)
    } else {
        i
    }
}

/// The position of the first occurrence of `q` at or after `i`, if any.
pub open spec fn find_byte(text: Seq<u8>, i: int, q: u8) -> Option<int>
    decreases text.len() - i,
{
    if !(0 <= i < text.len()) {
        None
    } else if text[i] == q {
        Some(i)
    } else {
        find_byte(text, i + 1, q)
    }
}

/// A digit run ends at or after its start, no later than the text's end,
/// covers digits only, and is maximal.
pub proof fn lemma_digit_run(text: Seq<u8>, i: int)
    requires
        0 <= i <= text.len(),
    ensures
        i <= digit_run_end(text, i) <= text.len(),
        forall|k: int| i <= k < digit_run_end(text, i) ==> is_digit_byte(#[trigger] text[k]),
        digit_run_end(text, i) < text.len() ==> !is_digit_byte(text[digit_run_end(text, i)]),
    decreases text.len() - i,
{
    if 0 <= i < text.len() && is_digit_byte(text[i]) {
        lemma_digit_run(text, i + 1);
    }
}

/// A word run ends at or after its start, no later than the text's end,
/// covers word bytes only, and is maximal.
pub proof fn lemma_word_run(text: Seq<u8>, i: int)
    requires
        0 <= i <= text.len(),
    ensures
        i <= word_run_end(text, i) <= text.len(),
        forall|k: int| i <= k < word_run_end(text, i) ==> is_word_byte(#[trigger] text[k]),
        word_run_end(text, i) < text.len() ==> !is_word_byte(text[word_run_end(text, i)]),
    decreases text.len() - i,
{
    if 0 <= i < text.len() && is_word_byte(text[i]) {
        lemma_word_run(text, i + 1);
    }
}

/// A whitespace run ends at or after its start, no later than the text's
/// end, covers whitespace only, and is maximal.
pub proof fn lemma_ws_run(text: Seq<u8>, i: int)
    requires
        0 <= i <= text.len(),
    ensures
        i <= ws_run_end(text, i) <= text.len(),
        forall|k: int| i <= k < ws_run_end(text, i) ==> is_ws_byte(#[trigger] text[k]),
        ws_run_end(text, i) < text.len() ==> !is_ws_byte(text[ws_run_end(text, i)]),
    decreases text.len() - i,
{
    if 0 <= i < text.len() && is_ws_byte(text[i]) {
        lemma_ws_run(text, i + 1);
    }
}

/// A found byte lies in the text, equals the sought byte, and nothing
/// before it (from the search's start) does.
pub proof fn lemma_find_byte(text: Seq<u8>, i: int, q: u8)
    requires
        0 <= i,
    ensures
        match find_byte(text, i, q) {
            Some(j) => i <= j < text.len() && text[j] == q && forall|k: int|
                i <= k < j ==> text[k] != q,
            None => forall|k: int| i <= k < text.len() ==> text[k] != q,
        },
    decreases text.len() - i,
{
    if 0 <= i < text.len() && text[i] != q {
        lemma_find_byte(text, i + 1, q);
    }
}

/// Whether `lit` occurs in `text` starting exactly at `i`.
pub fn has_prefix(text: &Vec<u8>, i: usize, lit: &[u8]) -> (r: bool)
    requires
        i <= text@.len(),
    ensures
        r == is_prefix_at(text@, i as int, lit@),
{
    let total = text.len();
    if lit.len() > total - i {
        return false;
    }
    let n = lit.len();
    let mut k: usize = 0;
    while k < n
        invariant
            total == text@.len(),
            i + n <= total,
            n == lit@.len(),
            k <= n,
            forall|m: int| 0 <= m < k ==> text@[i + m] == lit@[m],
        decreases n - k,
    {
        if text[i + k] != lit[k] {
            assert(text@.subrange(i as int, i + lit@.len()) != lit@) by {
                assert(text@.subrange(i as int, i + lit@.len())[k as int] != lit@[k as int]);
            }
            return false;
        }
        k += 1;
    }
    assert(text@.subrange(i as int, i + lit@.len()) =~= lit@);
    true
}

/// The end of the run of decimal digits that starts at `i`.
pub fn digit_run(text: &Vec<u8>, i: usize) -> (r: usize)
    requires
        i <= text@.len(),
    ensures
        r == digit_run_end(text@, i as int),
{
    let mut k: usize = i;
    while k < text.len() && text[k] >= 48 && text[k] <= 57
        invariant
            i <= k <= text@.len(),
            digit_run_end(text@, i as int) == digit_run_end(text@, k as int),
        decreases text@.len() - k,
    {
        k += 1;
    }
    k
}

/// The end of the run of word bytes that starts at `i`.
pub fn word_run(text: &Vec<u8>, i: usize) -> (r: usize)
    requires
        i <= text@.len(),
    ensures
        r == word_run_end(text@, i as int),
{
    let mut k: usize = i;
    while k < text.len() && (
        (text[k] >= 65 && text[k] <= 90)
        || (text[k] >= 97 && text[k] <= 122)
        || (text[k] >= 48 && text[k] <= 57)
        || text[k] == 95
    )
        invariant
            i <= k <= text@.len(),
            word_run_end(text@, i as int) == word_run_end(text@, k as int),
        decreases text@.len() - k,
    {
        k += 1;
    }
    k
}

/// The end of the run of whitespace bytes that starts at `i`.
pub fn ws_run(text: &Vec<u8>, i: usize) -> (r: usize)
    requires
        i <= text@.len(),
    ensures
        r == ws_run_end(text@, i as int),
{
    let mut k: usize = i;
    while k < text.len() && (
        text[k] == 32 || text[k] == 9 || text[k] == 10
        || text[k] == 13 || text[k] == 11 || text[k] == 12
    )
        invariant
            i <= k <= text@.len(),
            ws_run_end(text@, i as int) == ws_run_end(text@, k as int),
        decreases text@.len() - k,
    {
        k += 1;
    }
    k
}

/// The position of the first occurrence of `q` at or after `i`, if any.
pub fn find_byte_from(text: &Vec<u8>, i: usize, q: u8) -> (r: Option<usize>)
    requires
        i <= text@.len(),
    ensures
        match r {
            Some(j) => find_byte(text@, i as int, q) == Some(j as int) && i <= j < text@.len(),
            None => find_byte(text@, i as int, q) is None,
        },
{
    let mut k: usize = i;
    while k < text.len() && text[k] != q
        invariant
            i <= k <= text@.len(),
            find_byte(text@, i as int, q) == find_byte(text@, k as int, q),
        decreases text@.len() - k,
    {
        k += 1;
    }
    if k < text.len() {
        Some(k)
    } else {
        None
    }
}



/// Whether a byte is an ASCII decimal digit.
pub fn byte_is_digit(b: u8) -> (r: bool)
    ensures
        r == is_digit_byte(b),
{
    48 <= b && b <= 57
}

/// Whether a byte is ASCII whitespace.
pub fn byte_is_ws(b: u8) -> (r: bool)
    ensures
        r == is_ws_byte(b),
{
    b == 32 || b == 9 || b == 10 || b == 13 || b == 11 || b == 12
}

/// Whether a byte is an ASCII uppercase letter.
pub fn byte_is_upper(b: u8) -> (r: bool)
    ensures
        r == is_upper_byte(b),
{
    65 <= b && b <= 90
}

/// Whether a byte may continue an identifier.
pub fn byte_is_word(b: u8) -> (r: bool)
    ensures
        r == is_word_byte(b),
{
    (65 <= b && b <= 90) || (97 <= b && b <= 122) || (48 <= b && b <= 57) || b == 95
}

/// The length an identifier match has at `i`, if any: an uppercase letter
/// followed by at least one word byte, extending over the whole word run.
pub open spec fn ident_len(text: Seq<u8>, i: int) -> Option<int> {
    if 0 <= i && i + 1 < text.len() && is_upper_byte(text[i]) && is_word_byte(text[i + 1]) {
        Some(word_run_end(text, i + 1) - i)
    } else {
        None
    }
}

/// The length a string-literal match with quote byte `q` has at `i`, if
/// any: the opening quote, the bytes up to the first closing quote, and
/// that quote.
pub open spec fn string_len(text: Seq<u8>, i: int, q: u8) -> Option<int> {
    if 0 <= i < text.len() && text[i] == q {
        match find_byte(text, i + 1, q) {
            Some(j) => Some(j + 1 - i),
            None => None,
        }
    } else {
        None
    }
}

/// The length a numeric-literal match has at `i`, if any: a run of digits,
/// and after it a dot followed by a second run of digits when one is there.
pub open spec fn number_len(text: Seq<u8>, i: int) -> Option<int> {
    if 0 <= i < text.len() && is_digit_byte(text[i]) {
        let d = digit_run_end(text, i);
        if d < text.len() && text[d] == 46 && d + 1 < text.len() && is_digit_byte(text[d + 1]) {
            Some(digit_run_end(text, d + 1) - i)
        } else {
            Some(d - i)
        }
    } else {
        None
    }
}

/// The ordered rule list: the kind and length of the first rule that
/// matches `text` at `i`, or nothing when no rule does. The order is the
/// language's fixed priority list; in particular each not-equal phrase is
/// tried before the plain not phrase, and each less-or-equal phrase before
/// the plain less phrase.
pub open spec fn rule_at(text: Seq<u8>, i: int) -> Option<(TokenType, int)> {
    if is_prefix_at(text, i, lit_if_lc()) || is_prefix_at(text, i, lit_if_cap()) {
        Some((TokenType::If, 2))
    } else if is_prefix_at(text, i, lit_therefore_lc()) || is_prefix_at(
        text,
        i,
        lit_therefore_cap(),
    ) {
        Some((TokenType::Therefore, 11))
    } else if is_prefix_at(text, i, lit_eq_to()) {
        Some((TokenType::EqTo, 11))
    } else if is_prefix_at(text, i, lit_neq_to()) {
        Some((TokenType::NeqTo, 15))
    } else if is_prefix_at(text, i, lit_neq_to_apos()) {
        Some((TokenType::NeqTo, 14))
    } else if is_prefix_at(text, i, lit_or_kw()) {
        Some((TokenType::Or, 2))
    } else if is_prefix_at(text, i, lit_not_kw()) {
        Some((TokenType::Not, 6))
    } else if is_prefix_at(text, i, lit_not_apos()) {
        Some((TokenType::Not, 5))
    } else if is_prefix_at(text, i, lit_and_kw()) {
        Some((TokenType::And, 3))
    } else if is_prefix_at(text, i, lit_less_eq()) {
        Some((TokenType::LessEq, 24))
    } else if is_prefix_at(text, i, lit_less()) {
        Some((TokenType::Less, 12))
    } else if is_prefix_at(text, i, lit_greater_eq()) {
        Some((TokenType::GreaterEq, 27))
    } else if is_prefix_at(text, i, lit_greater()) {
        Some((TokenType::Greater, 15))
    } else if is_prefix_at(text, i, lit_false_kw()) {
        Some((TokenType::False, 5))
    } else if is_prefix_at(text, i, lit_true_kw()) {
        Some((TokenType::True, 4))
    } else if is_prefix_at(text, i, lit_none_kw()) {
        Some((TokenType::NoneKw, 4))
    } else if is_prefix_at(text, i, lit_you_kw()) {
        Some((TokenType::You, 3))
    } else if is_prefix_at(text, i, lit_assign_it()) || is_prefix_at(text, i, lit_assign_he()) {
        Some((TokenType::Assignment, 6))
    } else if is_prefix_at(text, i, lit_assign_she()) {
        Some((TokenType::Assignment, 7))
    } else if is_prefix_at(text, i, lit_assign_they()) {
        Some((TokenType::Assignment, 9))
    } else if is_prefix_at(text, i, lit_declaration_lc()) || is_prefix_at(
        text,
        i,
        lit_declaration_cap(),
    ) {
        Some((TokenType::Declaration, 10))
    } else if is_prefix_at(text, i, lit_called()) {
        Some((TokenType::IdKeyword, 6))
    } else if is_prefix_at(text, i, lit_named()) {
        Some((TokenType::IdKeyword, 5))
    } else if is_prefix_at(text, i, lit_labelled()) {
        Some((TokenType::IdKeyword, 8))
    } else if ident_len(text, i) is Some {
        Some((TokenType::Identifier, ident_len(text, i)->0))
    } else if string_len(text, i, 34) is Some {
        Some((TokenType::StringLiteral, string_len(text, i, 34)->0))
    } else if string_len(text, i, 39) is Some {
        Some((TokenType::StringLiteral, string_len(text, i, 39)->0))
    } else if number_len(text, i) is Some {
        Some((TokenType::NumericLiteral, number_len(text, i)->0))
    } else if is_prefix_at(text, i, lit_comma()) {
        Some((TokenType::Comma, 1))
    } else if is_prefix_at(text, i, lit_dot()) {
        Some((TokenType::Dot, 1))
    } else if is_prefix_at(text, i, lit_bang()) {
        Some((TokenType::Bang, 1))
    } else if is_prefix_at(text, i, lit_question()) {
        Some((TokenType::Question, 1))
    } else if is_prefix_at(text, i, lit_interrobang()) {
        Some((TokenType::Interrobang, 3))
    } else if is_prefix_at(text, i, lit_qbang()) || is_prefix_at(text, i, lit_bangq()) {
        Some((TokenType::Interrobang, 2))
    } else if is_prefix_at(text, i, lit_semicolon()) {
        Some((TokenType::Semicolon, 1))
    } else if is_prefix_at(text, i, lit_colon()) {
        Some((TokenType::Colon, 1))
    } else if is_prefix_at(text, i, lit_lparen()) {
        Some((TokenType::LeftParen, 1))
    } else if is_prefix_at(text, i, lit_rparen()) {
        Some((TokenType::RightParen, 1))
    } else if is_prefix_at(text, i, lit_plus()) {
        Some((TokenType::Plus, 1))
    } else if is_prefix_at(text, i, lit_minus()) {
        Some((TokenType::Minus, 1))
    } else if is_prefix_at(text, i, lit_star()) {
        Some((TokenType::Star, 1))
    } else if is_prefix_at(text, i, lit_slash()) {
        Some((TokenType::Slash, 1))
    } else if is_prefix_at(text, i, lit_ellipsis()) {
        Some((TokenType::Ellipsis, 3))
    } else if i == text.len() {
        Some((TokenType::EOF, 0))
    } else if 0 <= i < text.len() && is_ws_byte(text[i]) {
        Some((TokenType::Whitespace, ws_run_end(text, i) - i))
    } else {
        None
    }
}

/// What `match_rule` promises: the first matching rule of the ordered list,
/// with a length that stays inside the text.
pub open spec fn rule_match_ok(text: Seq<u8>, i: int, r: Option<(TokenType, usize)>) -> bool {
    match r {
        Some(m) => rule_at(text, i) == Some((m.0, m.1 as int)) && i + m.1 <= text.len(),
        None => rule_at(text, i) is None,
    }
}

/// Holds the text at `i` against the ordered rule list and returns the
/// first match's kind and length.
pub fn match_rule(text: &Vec<u8>, i: usize) -> (r: Option<(TokenType, usize)>)
    requires
        i <= text@.len(),
    ensures
        rule_match_ok(text@, i as int, r),
{
    if at_if_lc(text, i) || at_if_cap(text, i) {
        return Some((TokenType::If, 2));
    }
    if at_therefore_lc(text, i) || at_therefore_cap(text, i) {
        return Some((TokenType::Therefore, 11));
    }
    if at_eq_to(text, i) {
        return Some((TokenType::EqTo, 11));
    }
    if at_neq_to(text, i) {
        return Some((TokenType::NeqTo, 15));
    }
    if at_neq_to_apos(text, i) {
        return Some((TokenType::NeqTo, 14));
    }
    if at_or_kw(text, i) {
        return Some((TokenType::Or, 2));
    }
    if at_not_kw(text, i) {
        return Some((TokenType::Not, 6));
    }
    if at_not_apos(text, i) {
        return Some((TokenType::Not, 5));
    }
    if at_and_kw(text, i) {
        return Some((TokenType::And, 3));
    }
    if at_less_eq(text, i) {
        return Some((TokenType::LessEq, 24));
    }
    if at_less(text, i) {
        return Some((TokenType::Less, 12));
    }
    if at_greater_eq(text, i) {
        return Some((TokenType::GreaterEq, 27));
    }
    if at_greater(text, i) {
        return Some((TokenType::Greater, 15));
    }
    if at_false_kw(text, i) {
        return Some((TokenType::False, 5));
    }
    if at_true_kw(text, i) {
        return Some((TokenType::True, 4));
    }
    if at_none_kw(text, i) {
        return Some((TokenType::NoneKw, 4));
    }
    if at_you_kw(text, i) {
        return Some((TokenType::You, 3));
    }
    if at_assign_it(text, i) || at_assign_he(text, i) {
        return Some((TokenType::Assignment, 6));
    }
    if at_assign_she(text, i) {
        return Some((TokenType::Assignment, 7));
    }
    if at_assign_they(text, i) {
        return Some((TokenType::Assignment, 9));
    }
    if at_declaration_lc(text, i) || at_declaration_cap(text, i) {
        return Some((TokenType::Declaration, 10));
    }
    if at_called(text, i) {
        return Some((TokenType::IdKeyword, 6));
    }
    if at_named(text, i) {
        return Some((TokenType::IdKeyword, 5));
    }
    if at_labelled(text, i) {
        return Some((TokenType::IdKeyword, 8));
    }
    // identifier: an uppercase letter, then one or more word bytes
    if i < text.len() && byte_is_upper(text[i]) && i + 1 < text.len() && byte_is_word(
        text[i + 1],
    ) {
        let e = word_run(text, i + 1);
        proof {
            lemma_word_run(text@, i + 1);
        }
        return Some((TokenType::Identifier, e - i));
    }
    assert(ident_len(text@, i as int) is None);
    // string literal in double quotes
    if i < text.len() && text[i] == 34 {
        if let Some(j) = find_byte_from(text, i + 1, 34) {
            return Some((TokenType::StringLiteral, j + 1 - i));
        }
    }
    assert(string_len(text@, i as int, 34) is None);
    // string literal in single quotes
    if i < text.len() && text[i] == 39 {
        if let Some(j) = find_byte_from(text, i + 1, 39) {
            return Some((TokenType::StringLiteral, j + 1 - i));
        }
    }
    assert(string_len(text@, i as int, 39) is None);
    // numeric literal: digits, optionally a dot and more digits
    if i < text.len() && byte_is_digit(text[i]) {
        let d = digit_run(text, i);
        proof {
            lemma_digit_run(text@, i as int);
        }
        if d < text.len() && text[d] == 46 && d + 1 < text.len() && byte_is_digit(text[d + 1]) {
            let e = digit_run(text, d + 1);
            proof {
                lemma_digit_run(text@, d + 1);
            }
            return Some((TokenType::NumericLiteral, e - i));
        }
        return Some((TokenType::NumericLiteral, d - i));
    }
    assert(number_len(text@, i as int) is None);
    if at_comma(text, i) {
        return Some((TokenType::Comma, 1));
    }
    if at_dot(text, i) {
        return Some((TokenType::Dot, 1));
    }
    if at_bang(text, i) {
        return Some((TokenType::Bang, 1));
    }
    if at_question(text, i) {
        return Some((TokenType::Question, 1));
    }
    if at_interrobang(text, i) {
        return Some((TokenType::Interrobang, 3));
    }
    if at_qbang(text, i) || at_bangq(text, i) {
        return Some((TokenType::Interrobang, 2));
    }
    if at_semicolon(text, i) {
        return Some((TokenType::Semicolon, 1));
    }
    if at_colon(text, i) {
        return Some((TokenType::Colon, 1));
    }
    if at_lparen(text, i) {
        return Some((TokenType::LeftParen, 1));
    }
    if at_rparen(text, i) {
        return Some((TokenType::RightParen, 1));
    }
    if at_plus(text, i) {
        return Some((TokenType::Plus, 1));
    }
    if at_minus(text, i) {
        return Some((TokenType::Minus, 1));
    }
    if at_star(text, i) {
        return Some((TokenType::Star, 1));
    }
    if at_slash(text, i) {
        return Some((TokenType::Slash, 1));
    }
    if at_ellipsis(text, i) {
        return Some((TokenType::Ellipsis, 3));
    }
    if i == text.len() {
        return Some((TokenType::EOF, 0));
    }
    if byte_is_ws(text[i]) {
        let e = ws_run(text, i);
        proof {
            lemma_ws_run(text@, i as int);
        }
        return Some((TokenType::Whitespace, e - i));
    }
    None
}

} // verus!

verus! {

/// Every rule matches within the text; every rule but the end-of-input
/// rule consumes at least one byte, and that rule consumes none and fires
/// only at the text's end.
#[verifier::rlimit(60)]
#[verifier::spinoff_prover]
pub proof fn lemma_rule_len(text: Seq<u8>, i: int)
    requires
        rule_at(text, i) is Some,
    ensures
        ({
            let (k, m) = rule_at(text, i)->0;
            &&& 0 <= i
            &&& i + m <= text.len()
            &&& (k == TokenType::EOF ==> m == 0 && i == text.len())
            &&& (k != TokenType::EOF ==> m >= 1)
            &&& k != TokenType::Invalid
        }),
{
    if 0 <= i && i + 1 <= text.len() {
        lemma_word_run(text, i + 1);
    }
    if 0 <= i {
        lemma_find_byte(text, i + 1, 34);
        lemma_find_byte(text, i + 1, 39);
    }
    if 0 <= i && i <= text.len() {
        lemma_digit_run(text, i);
        let d = digit_run_end(text, i);
        if 0 <= d + 1 && d + 1 <= text.len() {
            lemma_digit_run(text, d + 1);
        }
        lemma_ws_run(text, i);
    }
}

} // verus!
