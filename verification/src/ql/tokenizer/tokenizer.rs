use vstd::prelude::*;
use vstd::string::StrSliceExecFns;

use crate::ql::tokenizer::errors::{SQLTokenizeError, SQLTokenizeErrorV};
use crate::ql::tokenizer::token::{
    all_keywords, all_keywords_vec, keyword_name, keyword_text, Keyword, LiteralToken,
    LiteralTokenV, Operator, Token, TokenType, TokenTypeV, TokenV,
};
use crate::util::text::{chars_of, push_char, string_of_range};

verus! {

// ===========================================================================
// The lexical rules, stated over the characters of the input
// ===========================================================================

pub open spec fn is_whitespace(c: char) -> bool {
    c == ' ' || c == '\t' || c == '\n' || c == '\r'
}

pub open spec fn is_digit(c: char) -> bool {
    '0' <= c && c <= '9'
}

/// A character that can start a keyword or an identifier.
pub open spec fn is_word_start(c: char) -> bool {
    ('a' <= c && c <= 'z') || ('A' <= c && c <= 'Z') || c == '_'
}

/// A character that can continue a keyword or an identifier.
pub open spec fn is_word_char(c: char) -> bool {
    is_word_start(c) || is_digit(c) || c == '.'
}

/// ASCII upper case of a character; other characters are unchanged.
pub open spec fn ascii_upper(c: char) -> char {
    if 'a' <= c && c <= 'z' {
        ((c as u8) - 32) as u8 as char
    } else {
        c
    }
}

pub open spec fn upper(s: Seq<char>) -> Seq<char> {
    s.map_values(|c: char| ascii_upper(c))
}

/// The end of a numeric literal whose characters from `i` on are digits and
/// at most one dot (`has_dot` tells whether a dot was already seen).
pub open spec fn number_end(s: Seq<char>, i: int, has_dot: bool) -> int
    decreases s.len() - i,
{
    if 0 <= i < s.len() && (is_digit(s[i]) || (s[i] == '.' && !has_dot)) {
        number_end(s, i + 1, has_dot || s[i] == '.')
    } else {
        i
    }
}

/// The end of the word (keyword or identifier) whose characters from `i` on are word characters.
pub open spec fn word_end(s: Seq<char>, i: int) -> int
    decreases s.len() - i,
{
    if 0 <= i < s.len() && is_word_char(s[i]) {
        word_end(s, i + 1)
    } else {
        i
    }
}

/// The end of a line comment's text: the first line break at or after `i`, or the end of input.
pub open spec fn line_comment_end(s: Seq<char>, i: int) -> int
    decreases s.len() - i,
{
    if 0 <= i < s.len() && s[i] != '\n' && s[i] != '\r' {
        line_comment_end(s, i + 1)
    } else {
        i
    }
}

/// The end of a block comment whose text starts at `i`: just after the first `*/`,
/// or the end of input.
pub open spec fn block_comment_end(s: Seq<char>, i: int) -> int
    decreases s.len() - i,
{
    if !(0 <= i < s.len()) {
        i
    } else if s[i] == '*' && i + 1 < s.len() && s[i + 1] == '/' {
        i + 2
    } else {
        block_comment_end(s, i + 1)
    }
}

/// Reads the text of a quoted token whose body starts at `i`, quoted by `q`.
/// A doubled quote stands for one quote character.
/// Returns the text, the position after the closing quote (or the end of input),
/// and whether a closing quote was found.
pub open spec fn scan_quoted(s: Seq<char>, i: int, q: char) -> (Seq<char>, int, bool)
    decreases s.len() - i,
{
    if !(0 <= i < s.len()) {
        (Seq::empty(), i, false)
    } else if s[i] == q {
        if i + 1 < s.len() && s[i + 1] == q {
            let r = scan_quoted(s, i + 2, q);
            (seq![q] + r.0, r.1, r.2)
        } else {
            (Seq::empty(), i + 1, true)
        }
    } else {
        let r = scan_quoted(s, i + 1, q);
        (seq![s[i]] + r.0, r.1, r.2)
    }
}

/// The value of a sequence of decimal digits.
pub open spec fn decimal_value(t: Seq<char>) -> nat
    decreases t.len(),
{
    if t.len() == 0 {
        0
    } else {
        decimal_value(t.drop_last()) * 10 + ((t.last() as nat) - ('0' as nat)) as nat
    }
}

/// The token kind of the numeric literal `t` (digits with at most one dot):
/// an `Int` when it is a whole number that fits in an `i32`, a `BigInt` when it
/// fits in an `i64`, and a `Float` holding the text otherwise.
pub open spec fn number_token_type(t: Seq<char>) -> TokenTypeV {
    if t.contains('.') || decimal_value(t) > i64::MAX {
        TokenTypeV::Literal(LiteralTokenV::Float(t))
    } else if decimal_value(t) <= i32::MAX {
        TokenTypeV::Literal(LiteralTokenV::Int(decimal_value(t) as i32))
    } else {
        TokenTypeV::Literal(LiteralTokenV::BigInt(decimal_value(t) as i64))
    }
}

/// Whether `text` spells the name of keyword `k`, ignoring ASCII case.
pub open spec fn spells(k: Keyword, text: Seq<char>) -> bool {
    upper(keyword_name(k)) == upper(text)
}

/// The first keyword of `ks` that `text` spells.
pub open spec fn find_keyword(ks: Seq<Keyword>, text: Seq<char>) -> Option<Keyword>
    decreases ks.len(),
{
    if ks.len() == 0 {
        None
    } else if spells(ks[0], text) {
        Some(ks[0])
    } else {
        find_keyword(ks.drop_first(), text)
    }
}

/// The keyword that `text` spells, if any.
pub open spec fn keyword_of(text: Seq<char>) -> Option<Keyword> {
    find_keyword(all_keywords(), text)
}

pub open spec fn tok(token_type: TokenTypeV, value: Seq<char>) -> TokenV {
    TokenV { token_type, value }
}

pub open spec fn op_tok(o: Operator, value: Seq<char>) -> TokenV {
    tok(TokenTypeV::Operator(o), value)
}

/// The token that starts at position `i` of `s`, after skipping whitespace and
/// comments, and the position just after it. `None` when the input ends first.
pub open spec fn next_token(s: Seq<char>, i: int) -> (Option<TokenV>, int)
    decreases s.len() - i,
{
    if !(0 <= i < s.len()) {
        (None, i)
    } else {
        let c = s[i];
        let has_next = i + 1 < s.len();
        if is_whitespace(c) {
            next_token(s, i + 1)
        } else if is_digit(c) {
            let e = number_end(s, i, false);
            let t = s.subrange(i, e);
            (Some(tok(number_token_type(t), t)), e)
        } else if is_word_start(c) {
            let e = word_end(s, i);
            let t = s.subrange(i, e);
            let ty = match keyword_of(t) {
                Some(k) => TokenTypeV::Keyword(k),
                None => TokenTypeV::Identifier(t),
            };
            (Some(tok(ty, t)), e)
        } else if c == '\'' || c == '"' {
            let (v, e, found) = scan_quoted(s, i + 1, c);
            let ty = if !found {
                TokenTypeV::Illegal(e as usize)
            } else if c == '\'' {
                TokenTypeV::Literal(LiteralTokenV::String(v))
            } else {
                TokenTypeV::QuotedIdentifier(v)
            };
            (Some(tok(ty, v)), e)
        } else if c == '<' {
            if has_next && s[i + 1] == '=' {
                (Some(op_tok(Operator::Lte, seq!['<', '='])), i + 2)
            } else if has_next && s[i + 1] == '>' {
                (Some(op_tok(Operator::NotEq, seq!['<', '>'])), i + 2)
            } else if !has_next || s[i + 1] == ' ' {
                (Some(op_tok(Operator::Lt, seq!['<'])), i + 1)
            } else {
                (Some(tok(TokenTypeV::Illegal((i + 2) as usize), seq!['<'])), i + 2)
            }
        } else if c == '>' {
            if has_next && s[i + 1] == '=' {
                (Some(op_tok(Operator::Gte, seq!['>', '='])), i + 2)
            } else if !has_next || s[i + 1] == ' ' {
                (Some(op_tok(Operator::Gt, seq!['>'])), i + 1)
            } else {
                (Some(tok(TokenTypeV::Illegal((i + 2) as usize), seq!['>'])), i + 2)
            }
        } else if c == '=' {
            (Some(op_tok(Operator::Equals, seq!['='])), i + 1)
        } else if c == '!' {
            if has_next && s[i + 1] == '=' {
                (Some(op_tok(Operator::NotEq, seq!['!', '='])), i + 2)
            } else {
                (Some(tok(TokenTypeV::Illegal((i + 1) as usize), seq!['!'])), i + 1)
            }
        } else if c == '+' {
            (Some(op_tok(Operator::Plus, seq!['+'])), i + 1)
        } else if c == '-' {
            if has_next && s[i + 1] == '-' {
                proof {
                    lemma_line_comment_end(s, i + 2);
                }
                next_token(s, line_comment_end(s, i + 2))
            } else {
                (Some(op_tok(Operator::Minus, seq!['-'])), i + 1)
            }
        } else if c == '*' {
            (Some(op_tok(Operator::Star, seq!['*'])), i + 1)
        } else if c == '/' {
            if has_next && s[i + 1] == '*' {
                proof {
                    lemma_block_comment_end(s, i + 2);
                }
                next_token(s, block_comment_end(s, i + 2))
            } else {
                (Some(op_tok(Operator::Divide, seq!['/'])), i + 1)
            }
        } else if c == '%' {
            (Some(op_tok(Operator::Modulus, seq!['%'])), i + 1)
        } else if c == ';' {
            (Some(tok(TokenTypeV::SemiColon, seq![';'])), i + 1)
        } else if c == '(' {
            (Some(tok(TokenTypeV::LParen, seq!['('])), i + 1)
        } else if c == ')' {
            (Some(tok(TokenTypeV::RParen, seq![')'])), i + 1)
        } else if c == ',' {
            (Some(tok(TokenTypeV::Comma, seq![','])), i + 1)
        } else {
            (Some(tok(TokenTypeV::Unknown((i + 1) as usize), seq![c])), i + 1)
        }
    }
}

pub open spec fn is_bad_token(t: TokenV) -> bool {
    t.token_type is Illegal || t.token_type is Unknown
}

/// Tokenizes `s` from position `i`: the tokens up to the end of input, or the
/// first illegal or unknown token; and the position where reading stopped.
pub open spec fn lex(s: Seq<char>, i: int) -> (Result<Seq<TokenV>, TokenV>, int)
    decreases s.len() - i,
    when 0 <= i <= s.len()
{
    match next_token(s, i) {
        (None, e) => (Ok(Seq::empty()), e),
        (Some(t), e) => if is_bad_token(t) {
            (Err(t), e)
        } else {
            proof {
                lemma_next_token(s, i);
            }
            let r = lex(s, e);
            match r.0 {
                Ok(ts) => (Ok(seq![t] + ts), r.1),
                Err(b) => (Err(b), r.1),
            }
        },
    }
}

/// The number of line breaks (`\n`) among the first `k` characters of `s`.
pub open spec fn newline_count(s: Seq<char>, k: int) -> nat
    decreases k,
{
    if k <= 0 {
        0
    } else {
        newline_count(s, k - 1) + if s[k - 1] == '\n' {
            1nat
        } else {
            0nat
        }
    }
}

/// The position just after the last line break among the first `k` characters, or 0.
pub open spec fn line_start(s: Seq<char>, k: int) -> int
    decreases k,
{
    if k <= 0 {
        0
    } else if s[k - 1] == '\n' {
        k
    } else {
        line_start(s, k - 1)
    }
}

/// The line (from 1) and column of the character position `pos` in the text
/// `s`, or `None` when `pos` lies beyond the text.
pub open spec fn line_col(s: Seq<char>, pos: int) -> Option<(usize, usize)> {
    if pos > s.len() {
        None
    } else {
        Some(((newline_count(s, pos) + 1) as usize, (pos - line_start(s, pos)) as usize))
    }
}

/// The error reported for an illegal or unknown token, given the text of the input.
pub open spec fn bad_token_error(t: TokenV, s: Seq<char>) -> SQLTokenizeErrorV {
    match t.token_type {
        TokenTypeV::Illegal(p) => {
            let (l, c) = line_col(s, p as int).unwrap();
            SQLTokenizeErrorV::IllegalToken(t.value, l, c)
        },
        TokenTypeV::Unknown(p) => {
            let (l, c) = line_col(s, p as int).unwrap();
            SQLTokenizeErrorV::UnknownToken(t.value, l, c)
        },
        _ => arbitrary(),
    }
}

// ===========================================================================
// Facts about the lexical rules
// ===========================================================================

pub proof fn lemma_number_end(s: Seq<char>, i: int, has_dot: bool)
    requires
        0 <= i <= s.len(),
    ensures
        i <= number_end(s, i, has_dot) <= s.len(),
    decreases s.len() - i,
{
    if 0 <= i < s.len() && (is_digit(s[i]) || (s[i] == '.' && !has_dot)) {
        lemma_number_end(s, i + 1, has_dot || s[i] == '.');
    }
}

pub proof fn lemma_word_end(s: Seq<char>, i: int)
    requires
        0 <= i <= s.len(),
    ensures
        i <= word_end(s, i) <= s.len(),
    decreases s.len() - i,
{
    if 0 <= i < s.len() && is_word_char(s[i]) {
        lemma_word_end(s, i + 1);
    }
}

pub proof fn lemma_line_comment_end(s: Seq<char>, i: int)
    requires
        0 <= i <= s.len(),
    ensures
        i <= line_comment_end(s, i) <= s.len(),
    decreases s.len() - i,
{
    if 0 <= i < s.len() && s[i] != '\n' && s[i] != '\r' {
        lemma_line_comment_end(s, i + 1);
    }
}

pub proof fn lemma_block_comment_end(s: Seq<char>, i: int)
    requires
        0 <= i <= s.len(),
    ensures
        i <= block_comment_end(s, i) <= s.len(),
    decreases s.len() - i,
{
    if 0 <= i < s.len() && !(s[i] == '*' && i + 1 < s.len() && s[i + 1] == '/') {
        lemma_block_comment_end(s, i + 1);
    }
}

pub proof fn lemma_scan_quoted(s: Seq<char>, i: int, q: char)
    requires
        0 <= i <= s.len(),
    ensures
        i <= scan_quoted(s, i, q).1 <= s.len(),
        !scan_quoted(s, i, q).2 ==> scan_quoted(s, i, q).1 == s.len(),
        scan_quoted(s, i, q).2 ==> scan_quoted(s, i, q).1 > i,
    decreases s.len() - i,
{
    if 0 <= i < s.len() {
        if s[i] == q {
            if i + 1 < s.len() && s[i + 1] == q {
                lemma_scan_quoted(s, i + 2, q);
            }
        } else {
            lemma_scan_quoted(s, i + 1, q);
        }
    }
}

/// A token read from a valid position ends after that position and within the input.
pub proof fn lemma_next_token(s: Seq<char>, i: int)
    requires
        0 <= i <= s.len(),
    ensures
        next_token(s, i).1 <= s.len(),
        next_token(s, i).0 is Some ==> i < next_token(s, i).1,
        next_token(s, i).0 is None ==> next_token(s, i).1 == s.len(),
    decreases s.len() - i,
{
    if 0 <= i < s.len() {
        let c = s[i];
        if is_whitespace(c) {
            lemma_next_token(s, i + 1);
        } else if is_digit(c) {
            lemma_number_end(s, i + 1, false);
        } else if is_word_start(c) {
            lemma_word_end(s, i + 1);
        } else if c == '\'' || c == '"' {
            lemma_scan_quoted(s, i + 1, c);
        } else if c == '-' && i + 1 < s.len() && s[i + 1] == '-' {
            lemma_line_comment_end(s, i + 2);
            lemma_next_token(s, line_comment_end(s, i + 2));
        } else if c == '/' && i + 1 < s.len() && s[i + 1] == '*' {
            lemma_block_comment_end(s, i + 2);
            lemma_next_token(s, block_comment_end(s, i + 2));
        }
    }
}

/// Upper-casing is idempotent.
proof fn lemma_upper_idempotent(t: Seq<char>)
    ensures
        upper(upper(t)) == upper(t),
{
    assert(upper(upper(t)) =~= upper(t));
}

/// Which keyword a word is depends only on its letters up to ASCII case.
proof fn lemma_find_keyword_by_upper(ks: Seq<Keyword>, a: Seq<char>, b: Seq<char>)
    requires
        upper(a) == upper(b),
    ensures
        find_keyword(ks, a) == find_keyword(ks, b),
    decreases ks.len(),
{
    if ks.len() > 0 {
        lemma_find_keyword_by_upper(ks.drop_first(), a, b);
    }
}

/// Keywords ignore ASCII case: two words that differ only in the case of
/// their letters are the same keyword, or both no keyword.
pub proof fn lemma_keywords_ignore_case(a: Seq<char>, b: Seq<char>)
    requires
        upper(a) == upper(b),
    ensures
        keyword_of(a) == keyword_of(b),
{
    lemma_find_keyword_by_upper(all_keywords(), a, b);
}

/// A word spelled in upper case is the same keyword as the word itself.
pub proof fn lemma_keyword_of_upper(a: Seq<char>)
    ensures
        keyword_of(upper(a)) == keyword_of(a),
{
    lemma_upper_idempotent(a);
    lemma_keywords_ignore_case(upper(a), a);
}

/// What tokenizing gives, when it succeeds, holds no illegal or unknown token:
/// those are reported as errors instead.
pub proof fn lemma_tokens_are_never_bad(s: Seq<char>, i: int)
    requires
        0 <= i <= s.len(),
    ensures
        lex(s, i).0 matches Ok(ts) ==> forall|j: int| 0 <= j < ts.len() ==> !is_bad_token(
            #[trigger] ts[j],
        ),
    decreases s.len() - i,
{
    lemma_next_token(s, i);
    match next_token(s, i) {
        (None, _) => {},
        (Some(t), e) => if !is_bad_token(t) {
            lemma_tokens_are_never_bad(s, e);
            match lex(s, e).0 {
                Ok(rest) => {
                    let ts = seq![t] + rest;
                    assert forall|j: int| 0 <= j < ts.len() implies !is_bad_token(#[trigger] ts[j]) by {
                        if j > 0 {
                            assert(ts[j] == rest[j - 1]);
                        }
                    }
                },
                Err(_) => {},
            }
        },
    }
}

/// Whether `c` can be part of a name: an ASCII letter, a digit, `_` or `.`.
pub open spec fn is_name_char(c: char) -> bool {
    ('a' <= c && c <= 'z') || ('A' <= c && c <= 'Z') || ('0' <= c && c <= '9') || c == '_' || c
        == '.'
}

/// The characters from `i` up to the end of the word are name characters,
/// and the word stops at the first other character or at the end.
proof fn lemma_word_end_is_maximal(s: Seq<char>, i: int)
    requires
        0 <= i <= s.len(),
    ensures
        forall|k: int| i <= k < word_end(s, i) ==> is_name_char(#[trigger] s[k]),
        word_end(s, i) < s.len() ==> !is_name_char(s[word_end(s, i)]),
    decreases s.len() - i,
{
    if 0 <= i < s.len() && is_word_char(s[i]) {
        lemma_word_end_is_maximal(s, i + 1);
    }
}

/// A word starts at any ASCII letter, lower or upper case, and at `_`, and
/// runs over all the letters, digits, `_` and `.` that follow: the token read
/// there is one keyword or one identifier whose text is the whole run, and an
/// identifier's name is that text.
pub proof fn lemma_letters_make_one_word(s: Seq<char>, i: int)
    requires
        0 <= i < s.len(),
        ('a' <= s[i] && s[i] <= 'z') || ('A' <= s[i] && s[i] <= 'Z') || s[i] == '_',
    ensures
        next_token(s, i).0 matches Some(t) && {
            let e = next_token(s, i).1;
            &&& i < e <= s.len()
            &&& t.value == s.subrange(i, e)
            &&& forall|k: int| i <= k < e ==> is_name_char(#[trigger] s[k])
            &&& (e < s.len() ==> !is_name_char(s[e]))
            &&& (t.token_type == TokenTypeV::Identifier(t.value) || (t.token_type matches TokenTypeV::Keyword(k) && spells(k, t.value)))
        },
{
    lemma_word_end(s, i);
    lemma_word_end_is_maximal(s, i);
    lemma_token_text_agrees(s, i);
}

/// Whether the text of `s` from `i` on holds nothing but whitespace and comments.
pub open spec fn only_blank(s: Seq<char>, i: int) -> bool
    decreases s.len() - i,
{
    if !(0 <= i < s.len()) {
        true
    } else if is_whitespace(s[i]) {
        only_blank(s, i + 1)
    } else if s[i] == '-' && i + 1 < s.len() && s[i + 1] == '-' {
        proof {
            lemma_line_comment_end(s, i + 2);
        }
        only_blank(s, line_comment_end(s, i + 2))
    } else if s[i] == '/' && i + 1 < s.len() && s[i + 1] == '*' {
        proof {
            lemma_block_comment_end(s, i + 2);
        }
        only_blank(s, block_comment_end(s, i + 2))
    } else {
        false
    }
}

/// No token is left exactly when the rest of the text is whitespace and
/// comments; once none is left, reading again finds none.
pub proof fn lemma_no_token_only_after_blank(s: Seq<char>, i: int)
    requires
        0 <= i <= s.len(),
    ensures
        (next_token(s, i).0 is None) == only_blank(s, i),
        next_token(s, i).0 is None ==> next_token(s, next_token(s, i).1) == (
            None::<TokenV>,
            next_token(s, i).1,
        ),
    decreases s.len() - i,
{
    lemma_next_token(s, i);
    if 0 <= i < s.len() {
        let c = s[i];
        if is_whitespace(c) {
            lemma_no_token_only_after_blank(s, i + 1);
        } else if c == '-' && i + 1 < s.len() && s[i + 1] == '-' {
            lemma_line_comment_end(s, i + 2);
            lemma_no_token_only_after_blank(s, line_comment_end(s, i + 2));
        } else if c == '/' && i + 1 < s.len() && s[i + 1] == '*' {
            lemma_block_comment_end(s, i + 2);
            lemma_no_token_only_after_blank(s, block_comment_end(s, i + 2));
        }
    }
}

/// The first keyword of `ks` that `text` spells is one that it spells.
proof fn lemma_find_keyword_spells(ks: Seq<Keyword>, text: Seq<char>)
    ensures
        find_keyword(ks, text) matches Some(k) ==> spells(k, text),
    decreases ks.len(),
{
    if ks.len() > 0 && !spells(ks[0], text) {
        lemma_find_keyword_spells(ks.drop_first(), text);
    }
}

/// Whether the text of a token agrees with its kind: names, strings and
/// fractional numbers are their text, integers are the value of their
/// digits, and a keyword is spelled by its text, ignoring case.
pub open spec fn text_agrees(t: TokenV) -> bool {
    match t.token_type {
        TokenTypeV::Identifier(v) => t.value == v,
        TokenTypeV::QuotedIdentifier(v) => t.value == v,
        TokenTypeV::Literal(LiteralTokenV::String(v)) => t.value == v,
        TokenTypeV::Literal(LiteralTokenV::Float(v)) => t.value == v,
        TokenTypeV::Literal(LiteralTokenV::Int(n)) => !t.value.contains('.') && decimal_value(
            t.value,
        ) == n as int,
        TokenTypeV::Literal(LiteralTokenV::BigInt(n)) => !t.value.contains('.') && decimal_value(
            t.value,
        ) == n as int,
        TokenTypeV::Keyword(k) => spells(k, t.value),
        _ => true,
    }
}

/// Every token's text agrees with its kind.
pub proof fn lemma_token_text_agrees(s: Seq<char>, i: int)
    requires
        0 <= i <= s.len(),
    ensures
        next_token(s, i).0 matches Some(t) ==> text_agrees(t),
    decreases s.len() - i,
{
    if 0 <= i < s.len() {
        let c = s[i];
        if is_whitespace(c) {
            lemma_token_text_agrees(s, i + 1);
        } else if is_digit(c) {
        } else if is_word_start(c) {
            let t = s.subrange(i, word_end(s, i));
            lemma_find_keyword_spells(all_keywords(), t);
        } else if c == '-' && i + 1 < s.len() && s[i + 1] == '-' {
            lemma_line_comment_end(s, i + 2);
            lemma_token_text_agrees(s, line_comment_end(s, i + 2));
        } else if c == '/' && i + 1 < s.len() && s[i + 1] == '*' {
            lemma_block_comment_end(s, i + 2);
            lemma_token_text_agrees(s, block_comment_end(s, i + 2));
        }
    }
}

/// All the tokens that reading from `i` on gives, one [`next_token`] after
/// another until none is left, bad ones included.
pub open spec fn scan(s: Seq<char>, i: int) -> Seq<TokenV>
    decreases s.len() - i,
    when 0 <= i <= s.len()
{
    match next_token(s, i) {
        (None, _) => Seq::empty(),
        (Some(t), e) => {
            proof {
                lemma_next_token(s, i);
            }
            seq![t] + scan(s, e)
        },
    }
}

/// Tokenizing is reading one token after another: it gives all of them when
/// none is illegal or unknown, and otherwise the first one that is.
pub proof fn lemma_lex_is_scan(s: Seq<char>, i: int)
    requires
        0 <= i <= s.len(),
    ensures
        (forall|j: int| 0 <= j < scan(s, i).len() ==> !is_bad_token(#[trigger] scan(s, i)[j]))
            ==> lex(s, i).0 == Ok::<Seq<TokenV>, TokenV>(scan(s, i)),
        forall|k: int|
            0 <= k < scan(s, i).len() && is_bad_token(#[trigger] scan(s, i)[k]) && (forall|j: int|
                0 <= j < k ==> !is_bad_token(#[trigger] scan(s, i)[j])) ==> lex(s, i).0 == Err::<
                Seq<TokenV>,
                TokenV,
            >(scan(s, i)[k]),
    decreases s.len() - i,
{
    lemma_next_token(s, i);
    match next_token(s, i) {
        (None, _) => {},
        (Some(t), e) => {
            lemma_lex_is_scan(s, e);
            let all = scan(s, i);
            let rest = scan(s, e);
            assert(all == seq![t] + rest);
            assert(all[0] == t);
            assert forall|j: int| 0 <= j < rest.len() implies rest[j] == all[j + 1] by {}
            if forall|j: int| 0 <= j < all.len() ==> !is_bad_token(#[trigger] all[j]) {
                assert(!is_bad_token(all[0]));
                assert forall|j: int| 0 <= j < rest.len() implies !is_bad_token(#[trigger] rest[j]) by {
                    assert(!is_bad_token(all[j + 1]));
                }
                assert(seq![t] + rest == all);
            }
            assert forall|k: int|
                0 <= k < all.len() && is_bad_token(#[trigger] all[k]) && (forall|j: int|
                    0 <= j < k ==> !is_bad_token(#[trigger] all[j])) implies lex(s, i).0 == Err::<
                Seq<TokenV>,
                TokenV,
            >(all[k]) by {
                if k > 0 {
                    assert(!is_bad_token(all[0]));
                    assert(rest[k - 1] == all[k]);
                    assert forall|j: int| 0 <= j < k - 1 implies !is_bad_token(#[trigger] rest[j]) by {
                        assert(rest[j] == all[j + 1]);
                    }
                }
            }
        },
    }
}

// ===========================================================================
// Whitespace around the input
// ===========================================================================

proof fn lemma_prefix_number_end(p: Seq<char>, s: Seq<char>, k: int, d: bool)
    requires
        0 <= k <= s.len(),
    ensures
        number_end(p + s, k + p.len(), d) == number_end(s, k, d) + p.len(),
    decreases s.len() - k,
{
    let ps = p + s;
    if k < s.len() {
        assert(ps[k + p.len()] == s[k]);
        if is_digit(s[k]) || (s[k] == '.' && !d) {
            lemma_prefix_number_end(p, s, k + 1, d || s[k] == '.');
        }
    }
}

proof fn lemma_prefix_word_end(p: Seq<char>, s: Seq<char>, k: int)
    requires
        0 <= k <= s.len(),
    ensures
        word_end(p + s, k + p.len()) == word_end(s, k) + p.len(),
    decreases s.len() - k,
{
    if k < s.len() {
        assert((p + s)[k + p.len()] == s[k]);
        if is_word_char(s[k]) {
            lemma_prefix_word_end(p, s, k + 1);
        }
    }
}

proof fn lemma_prefix_line_comment_end(p: Seq<char>, s: Seq<char>, k: int)
    requires
        0 <= k <= s.len(),
    ensures
        line_comment_end(p + s, k + p.len()) == line_comment_end(s, k) + p.len(),
    decreases s.len() - k,
{
    if k < s.len() {
        assert((p + s)[k + p.len()] == s[k]);
        if s[k] != '\n' && s[k] != '\r' {
            lemma_prefix_line_comment_end(p, s, k + 1);
        }
    }
}

proof fn lemma_prefix_block_comment_end(p: Seq<char>, s: Seq<char>, k: int)
    requires
        0 <= k <= s.len(),
    ensures
        block_comment_end(p + s, k + p.len()) == block_comment_end(s, k) + p.len(),
    decreases s.len() - k,
{
    if k < s.len() {
        assert((p + s)[k + p.len()] == s[k]);
        if k + 1 < s.len() {
            assert((p + s)[k + 1 + p.len()] == s[k + 1]);
        }
        if !(s[k] == '*' && k + 1 < s.len() && s[k + 1] == '/') {
            lemma_prefix_block_comment_end(p, s, k + 1);
        }
    }
}

proof fn lemma_prefix_scan_quoted(p: Seq<char>, s: Seq<char>, k: int, q: char)
    requires
        0 <= k <= s.len(),
    ensures
        scan_quoted(p + s, k + p.len(), q) == (
            scan_quoted(s, k, q).0,
            scan_quoted(s, k, q).1 + p.len(),
            scan_quoted(s, k, q).2,
        ),
    decreases s.len() - k,
{
    if k < s.len() {
        assert((p + s)[k + p.len()] == s[k]);
        if k + 1 < s.len() {
            assert((p + s)[k + 1 + p.len()] == s[k + 1]);
        }
        if s[k] == q {
            if k + 1 < s.len() && s[k + 1] == q {
                lemma_prefix_scan_quoted(p, s, k + 2, q);
            }
        } else {
            lemma_prefix_scan_quoted(p, s, k + 1, q);
        }
    }
}

/// Reading a token after a prefix finds the same token, shifted by the prefix.
proof fn lemma_prefix_next_token(p: Seq<char>, s: Seq<char>, i: int)
    requires
        0 <= i <= s.len(),
    ensures
        next_token(p + s, i + p.len()).1 == next_token(s, i).1 + p.len(),
        (next_token(p + s, i + p.len()).0 is None) == (next_token(s, i).0 is None),
        next_token(s, i).0 matches Some(t) ==> (!is_bad_token(t) ==> next_token(
            p + s,
            i + p.len(),
        ).0 == Some(t)),
    decreases s.len() - i,
{
    let ps = p + s;
    let j = i + p.len();
    if i < s.len() {
        let c = s[i];
        assert(ps[j] == c);
        if i + 1 < s.len() {
            assert(ps[j + 1] == s[i + 1]);
        }
        if is_whitespace(c) {
            lemma_prefix_next_token(p, s, i + 1);
        } else if is_digit(c) {
            lemma_prefix_number_end(p, s, i, false);
            lemma_number_end(s, i, false);
            assert(ps.subrange(j, number_end(s, i, false) + p.len()) =~= s.subrange(
                i,
                number_end(s, i, false),
            ));
        } else if is_word_start(c) {
            lemma_prefix_word_end(p, s, i);
            lemma_word_end(s, i);
            assert(ps.subrange(j, word_end(s, i) + p.len()) =~= s.subrange(i, word_end(s, i)));
        } else if c == '\'' || c == '"' {
            lemma_prefix_scan_quoted(p, s, i + 1, c);
        } else if c == '-' && i + 1 < s.len() && s[i + 1] == '-' {
            lemma_line_comment_end(s, i + 2);
            lemma_prefix_line_comment_end(p, s, i + 2);
            lemma_prefix_next_token(p, s, line_comment_end(s, i + 2));
        } else if c == '/' && i + 1 < s.len() && s[i + 1] == '*' {
            lemma_block_comment_end(s, i + 2);
            lemma_prefix_block_comment_end(p, s, i + 2);
            lemma_prefix_next_token(p, s, block_comment_end(s, i + 2));
        }
    }
}

/// Tokenizing after a prefix gives the same tokens, when tokenizing succeeds.
proof fn lemma_prefix_lex(p: Seq<char>, s: Seq<char>, i: int)
    requires
        0 <= i <= s.len(),
        lex(s, i).0 is Ok,
    ensures
        lex(p + s, i + p.len()).0 == lex(s, i).0,
    decreases s.len() - i,
{
    lemma_prefix_next_token(p, s, i);
    lemma_next_token(s, i);
    lemma_next_token(p + s, i + p.len());
    match next_token(s, i) {
        (None, _) => {},
        (Some(t), e) => {
            lemma_prefix_lex(p, s, e);
        },
    }
}

proof fn lemma_suffix_number_end(s: Seq<char>, k: int, d: bool)
    requires
        0 <= k <= s.len(),
    ensures
        number_end(s + seq![' '], k, d) == number_end(s, k, d),
    decreases s.len() - k,
{
    let t = s + seq![' '];
    assert(t[s.len() as int] == ' ');
    if k < s.len() {
        assert(t[k] == s[k]);
        if is_digit(s[k]) || (s[k] == '.' && !d) {
            lemma_suffix_number_end(s, k + 1, d || s[k] == '.');
        }
    }
}

proof fn lemma_suffix_word_end(s: Seq<char>, k: int)
    requires
        0 <= k <= s.len(),
    ensures
        word_end(s + seq![' '], k) == word_end(s, k),
    decreases s.len() - k,
{
    let t = s + seq![' '];
    assert(t[s.len() as int] == ' ');
    if k < s.len() {
        assert(t[k] == s[k]);
        if is_word_char(s[k]) {
            lemma_suffix_word_end(s, k + 1);
        }
    }
}

proof fn lemma_suffix_line_comment_end(s: Seq<char>, k: int)
    requires
        0 <= k <= s.len(),
    ensures
        line_comment_end(s + seq![' '], k) == line_comment_end(s, k) || (line_comment_end(s, k)
            == s.len() && line_comment_end(s + seq![' '], k) == s.len() + 1),
    decreases s.len() - k,
{
    let t = s + seq![' '];
    assert(t[s.len() as int] == ' ');
    if k < s.len() {
        assert(t[k] == s[k]);
        if s[k] != '\n' && s[k] != '\r' {
            lemma_suffix_line_comment_end(s, k + 1);
        }
    } else {
        assert(line_comment_end(t, s.len() + 1 as int) == s.len() + 1);
    }
}

proof fn lemma_suffix_block_comment_end(s: Seq<char>, k: int)
    requires
        0 <= k <= s.len(),
    ensures
        block_comment_end(s + seq![' '], k) == block_comment_end(s, k) || (block_comment_end(s, k)
            == s.len() && block_comment_end(s + seq![' '], k) == s.len() + 1),
    decreases s.len() - k,
{
    let t = s + seq![' '];
    assert(t[s.len() as int] == ' ');
    if k < s.len() {
        assert(t[k] == s[k]);
        if k + 1 < s.len() {
            assert(t[k + 1] == s[k + 1]);
        }
        if !(s[k] == '*' && k + 1 < s.len() && s[k + 1] == '/') {
            lemma_suffix_block_comment_end(s, k + 1);
        }
    } else {
        assert(block_comment_end(t, s.len() + 1 as int) == s.len() + 1);
    }
}

proof fn lemma_suffix_scan_quoted(s: Seq<char>, k: int, q: char)
    requires
        0 <= k <= s.len(),
        q != ' ',
        scan_quoted(s, k, q).2,
    ensures
        scan_quoted(s + seq![' '], k, q) == scan_quoted(s, k, q),
    decreases s.len() - k,
{
    let t = s + seq![' '];
    assert(t[s.len() as int] == ' ');
    if k < s.len() {
        assert(t[k] == s[k]);
        if k + 1 < s.len() {
            assert(t[k + 1] == s[k + 1]);
        }
        if s[k] == q {
            if k + 1 < s.len() && s[k + 1] == q {
                lemma_suffix_scan_quoted(s, k + 2, q);
                assert(scan_quoted(t, k, q) == (
                    seq![q] + scan_quoted(t, k + 2, q).0,
                    scan_quoted(t, k + 2, q).1,
                    scan_quoted(t, k + 2, q).2,
                ));
            } else {
                if k + 1 == s.len() {
                    assert(t[k + 1] == ' ');
                }
                assert(scan_quoted(t, k, q) == (Seq::<char>::empty(), k + 1, true));
            }
        } else {
            lemma_suffix_scan_quoted(s, k + 1, q);
            assert(scan_quoted(t, k, q) == (
                seq![t[k]] + scan_quoted(t, k + 1, q).0,
                scan_quoted(t, k + 1, q).1,
                scan_quoted(t, k + 1, q).2,
            ));
        }
    }
}

/// Reading a token with a space after the input finds the same token, unless
/// it is illegal or unknown; where none is left, none is left with the space.
proof fn lemma_suffix_next_token(s: Seq<char>, i: int)
    requires
        0 <= i <= s.len(),
    ensures
        next_token(s, i).0 is None ==> next_token(s + seq![' '], i).0 is None,
        next_token(s, i).0 matches Some(t) ==> (!is_bad_token(t) ==> next_token(
            s + seq![' '],
            i,
        ) == next_token(s, i)),
    decreases s.len() - i,
{
    let t = s + seq![' '];
    let n = s.len() as int;
    assert(t[n] == ' ');
    assert(next_token(t, n + 1) == (None::<TokenV>, n + 1));
    if i < n {
        let c = s[i];
        assert(t[i] == c);
        if i + 1 < n {
            assert(t[i + 1] == s[i + 1]);
        }
        if is_whitespace(c) {
            lemma_suffix_next_token(s, i + 1);
        } else if is_digit(c) {
            lemma_suffix_number_end(s, i, false);
            lemma_number_end(s, i, false);
            assert(t.subrange(i, number_end(s, i, false)) =~= s.subrange(i, number_end(s, i, false)));
        } else if is_word_start(c) {
            lemma_suffix_word_end(s, i);
            lemma_word_end(s, i);
            assert(t.subrange(i, word_end(s, i)) =~= s.subrange(i, word_end(s, i)));
        } else if c == '\'' || c == '"' {
            if scan_quoted(s, i + 1, c).2 {
                lemma_suffix_scan_quoted(s, i + 1, c);
            }
        } else if c == '-' && i + 1 < n && s[i + 1] == '-' {
            lemma_line_comment_end(s, i + 2);
            lemma_suffix_line_comment_end(s, i + 2);
            lemma_suffix_next_token(s, line_comment_end(s, i + 2));
        } else if c == '/' && i + 1 < n && s[i + 1] == '*' {
            lemma_block_comment_end(s, i + 2);
            lemma_suffix_block_comment_end(s, i + 2);
            lemma_suffix_next_token(s, block_comment_end(s, i + 2));
        }
    }
}

/// Tokenizing with a space after the input gives the same tokens, when
/// tokenizing succeeds.
proof fn lemma_suffix_lex(s: Seq<char>, i: int)
    requires
        0 <= i <= s.len(),
        lex(s, i).0 is Ok,
    ensures
        lex(s + seq![' '], i).0 == lex(s, i).0,
    decreases s.len() - i,
{
    lemma_suffix_next_token(s, i);
    lemma_next_token(s, i);
    lemma_next_token(s + seq![' '], i);
    match next_token(s, i) {
        (None, _) => {},
        (Some(t), e) => {
            lemma_suffix_lex(s, e);
        },
    }
}

/// Whitespace around the input changes nothing: a text that tokenizes
/// tokenizes to the same tokens with a space before it or after it.
pub proof fn lemma_surrounding_space(s: Seq<char>)
    requires
        lex(s, 0).0 is Ok,
    ensures
        lex(seq![' '] + s, 0).0 == lex(s, 0).0,
        lex(s + seq![' '], 0).0 == lex(s, 0).0,
{
    let p = seq![' '];
    lemma_prefix_lex(p, s, 0);
    assert((p + s)[0] == ' ');
    assert(next_token(p + s, 0) == next_token(p + s, 1));
    assert(lex(p + s, 0) == lex(p + s, 1));
    lemma_suffix_lex(s, 0);
}

/// The position that an illegal or unknown token records lies after its start
/// and no later than its end.
pub proof fn lemma_bad_token_pos(s: Seq<char>, i: int)
    requires
        0 <= i <= s.len(),
        s.len() <= usize::MAX,
    ensures
        next_token(s, i).0 matches Some(t) ==> (t.token_type matches TokenTypeV::Illegal(p)
            ==> 1 <= p <= next_token(s, i).1),
        next_token(s, i).0 matches Some(t) ==> (t.token_type matches TokenTypeV::Unknown(p)
            ==> 1 <= p <= next_token(s, i).1),
        next_token(s, i).0 matches Some(t) ==> (t.token_type matches TokenTypeV::Illegal(p)
            ==> exists|j: int| 0 <= j < p && s[j] != '\n'),
        next_token(s, i).0 matches Some(t) ==> (t.token_type matches TokenTypeV::Unknown(p)
            ==> exists|j: int| 0 <= j < p && s[j] != '\n'),
    decreases s.len() - i,
{
    if 0 <= i < s.len() {
        let c = s[i];
        if is_whitespace(c) {
            lemma_bad_token_pos(s, i + 1);
        } else if c == '\'' || c == '"' {
            lemma_scan_quoted(s, i + 1, c);
        } else if c == '-' && i + 1 < s.len() && s[i + 1] == '-' {
            lemma_line_comment_end(s, i + 2);
            lemma_bad_token_pos(s, line_comment_end(s, i + 2));
        } else if c == '/' && i + 1 < s.len() && s[i + 1] == '*' {
            lemma_block_comment_end(s, i + 2);
            lemma_bad_token_pos(s, block_comment_end(s, i + 2));
        }
    }
}


// ===========================================================================
// Scanning helpers
// ===========================================================================

fn ascii_upper_char(c: char) -> (r: char)
    ensures
        r == ascii_upper(c),
{
    if 'a' <= c && c <= 'z' {
        ((c as u8) - 32) as char
    } else {
        c
    }
}

fn is_digit_char(c: char) -> (r: bool)
    ensures
        r == is_digit(c),
{
    '0' <= c && c <= '9'
}

fn is_word_start_char(c: char) -> (r: bool)
    ensures
        r == is_word_start(c),
{
    ('a' <= c && c <= 'z') || ('A' <= c && c <= 'Z') || c == '_'
}

fn is_word_char_exec(c: char) -> (r: bool)
    ensures
        r == is_word_char(c),
{
    is_word_start_char(c) || is_digit_char(c) || c == '.'
}

fn scan_number(s: &Vec<char>, i: usize) -> (e: usize)
    requires
        i <= s@.len(),
    ensures
        e == number_end(s@, i as int, false),
{
    let mut j = i;
    let mut has_dot = false;
    while j < s.len() && (is_digit_char(s[j]) || (s[j] == '.' && !has_dot))
        invariant
            i <= j <= s@.len(),
            number_end(s@, j as int, has_dot) == number_end(s@, i as int, false),
        decreases s@.len() - j,
    {
        has_dot = has_dot || s[j] == '.';
        j += 1;
    }
    j
}

fn scan_word(s: &Vec<char>, i: usize) -> (e: usize)
    requires
        i <= s@.len(),
    ensures
        e == word_end(s@, i as int),
{
    let mut j = i;
    while j < s.len() && is_word_char_exec(s[j])
        invariant
            i <= j <= s@.len(),
            word_end(s@, j as int) == word_end(s@, i as int),
        decreases s@.len() - j,
    {
        j += 1;
    }
    j
}

fn scan_line_comment(s: &Vec<char>, i: usize) -> (e: usize)
    requires
        i <= s@.len(),
    ensures
        e == line_comment_end(s@, i as int),
{
    let mut j = i;
    while j < s.len() && s[j] != '\n' && s[j] != '\r'
        invariant
            i <= j <= s@.len(),
            line_comment_end(s@, j as int) == line_comment_end(s@, i as int),
        decreases s@.len() - j,
    {
        j += 1;
    }
    j
}

fn scan_block_comment(s: &Vec<char>, i: usize) -> (e: usize)
    requires
        i <= s@.len(),
    ensures
        e == block_comment_end(s@, i as int),
{
    let mut j = i;
    while j < s.len()
        invariant
            i <= j <= s@.len(),
            block_comment_end(s@, j as int) == block_comment_end(s@, i as int),
        decreases s@.len() - j,
    {
        if s[j] == '*' && j + 1 < s.len() && s[j + 1] == '/' {
            return j + 2;
        }
        j += 1;
    }
    j
}

/// Reads a quoted token body; see [`scan_quoted`].
fn scan_quoted_exec(s: &Vec<char>, i: usize, q: char) -> (r: (String, usize, bool))
    requires
        i <= s@.len(),
    ensures
        (r.0@, r.1 as int, r.2) == scan_quoted(s@, i as int, q),
{
    let mut value = String::new();
    let mut j = i;
    while j < s.len()
        invariant
            i <= j <= s@.len(),
            scan_quoted(s@, i as int, q) == (value@ + scan_quoted(s@, j as int, q).0,
                scan_quoted(s@, j as int, q).1, scan_quoted(s@, j as int, q).2),
        decreases s@.len() - j,
    {
        let c = s[j];
        if c == q {
            if j + 1 < s.len() && s[j + 1] == q {
                let ghost before = value@;
                push_char(&mut value, c);
                assert(value@ + scan_quoted(s@, j + 2, q).0 =~= before + (seq![q] + scan_quoted(
                    s@,
                    j + 2,
                    q,
                ).0));
                j += 2;
            } else {
                assert(value@ =~= value@ + Seq::<char>::empty());
                return (value, j + 1, true);
            }
        } else {
            let ghost before = value@;
            push_char(&mut value, c);
            assert(value@ + scan_quoted(s@, j + 1, q).0 =~= before + (seq![c] + scan_quoted(
                s@,
                j + 1,
                q,
            ).0));
            j += 1;
        }
    }
    assert(value@ =~= value@ + Seq::<char>::empty());
    (value, j, false)
}


pub proof fn lemma_number_chars(s: Seq<char>, i: int, has_dot: bool)
    requires
        0 <= i <= s.len(),
    ensures
        forall|k: int|
            i <= k < number_end(s, i, has_dot) ==> is_digit(#[trigger] s[k]) || s[k] == '.',
    decreases s.len() - i,
{
    if 0 <= i < s.len() && (is_digit(s[i]) || (s[i] == '.' && !has_dot)) {
        lemma_number_chars(s, i + 1, has_dot || s[i] == '.');
    }
}

/// A prefix of a digit sequence has no larger value than the whole sequence.
pub proof fn lemma_decimal_prefix(t: Seq<char>, m: int)
    requires
        0 <= m <= t.len(),
        forall|k: int| 0 <= k < t.len() ==> is_digit(#[trigger] t[k]),
    ensures
        decimal_value(t.take(m)) <= decimal_value(t),
    decreases t.len(),
{
    if m < t.len() {
        lemma_decimal_prefix(t.drop_last(), m);
        assert(t.drop_last().take(m) =~= t.take(m));
    } else {
        assert(t.take(m) =~= t);
    }
}

fn number_type(s: &Vec<char>, i: usize, e: usize) -> (r: TokenType)
    requires
        i <= e <= s@.len(),
        forall|k: int| i <= k < e ==> is_digit(#[trigger] s@[k]) || s@[k] == '.',
    ensures
        r@ == number_token_type(s@.subrange(i as int, e as int)),
{
    let ghost t = s@.subrange(i as int, e as int);
    let mut acc: u64 = 0;
    let mut k = i;
    while k < e
        invariant
            i <= k <= e <= s@.len(),
            t == s@.subrange(i as int, e as int),
            forall|m: int| i <= m < e ==> is_digit(#[trigger] s@[m]) || s@[m] == '.',
            acc == decimal_value(t.take(k - i)),
            acc <= i64::MAX,
            !t.take(k - i).contains('.'),
        decreases e - k,
    {
        let c = s[k];
        if c == '.' {
            assert(t[k - i] == '.');
            return TokenType::Literal(LiteralToken::Float(string_of_range(s, i, e)));
        }
        assert(is_digit(c));
        let d: u64 = ((c as u32) - ('0' as u32)) as u64;
        assert(t.take(k - i + 1).drop_last() =~= t.take(k - i));
        if acc > 922337203685477580 || (acc == 922337203685477580 && d > 7) {
            proof {
                if !t.contains('.') {
                    assert forall|m: int| 0 <= m < t.len() implies is_digit(#[trigger] t[m]) by {
                        assert(s@[i + m] == t[m]);
                    }
                    lemma_decimal_prefix(t, k - i + 1);
                }
            }
            return TokenType::Literal(LiteralToken::Float(string_of_range(s, i, e)));
        }
        acc = acc * 10 + d;
        k += 1;
        assert forall|m: int| 0 <= m < t.take(k - i).len() implies #[trigger] t.take(k - i)[m] != '.' by {
            if m < k - i - 1 {
                assert(t.take(k - i - 1)[m] == t.take(k - i)[m]);
            }
        }
    }
    assert(t.take(e - i) =~= t);
    if acc <= 2147483647 {
        TokenType::Literal(LiteralToken::Int(acc as i32))
    } else {
        TokenType::Literal(LiteralToken::BigInt(acc as i64))
    }
}

/// Whether `s[i..e]` spells keyword `k`, ignoring ASCII case.
fn spells_exec(k: Keyword, s: &Vec<char>, i: usize, e: usize) -> (r: bool)
    requires
        i <= e <= s@.len(),
    ensures
        r == spells(k, s@.subrange(i as int, e as int)),
{
    let ghost t = s@.subrange(i as int, e as int);
    let name = keyword_text(k);
    let n = name.unicode_len();
    if n != e - i {
        assert(upper(name@).len() != upper(t).len());
        return false;
    }
    let mut m: usize = 0;
    while m < n
        invariant
            m <= n,
            n == name@.len(),
            name@ == keyword_name(k),
            n == e - i,
            i <= e <= s@.len(),
            t == s@.subrange(i as int, e as int),
            forall|j: int| 0 <= j < m ==> ascii_upper(#[trigger] name@[j]) == ascii_upper(t[j]),
        decreases n - m,
    {
        let a = name.get_char(m);
        let b = s[i + m];
        if ascii_upper_char(a) != ascii_upper_char(b) {
            assert(t[m as int] == b);
            assert(upper(name@)[m as int] == ascii_upper(a));
            assert(upper(t)[m as int] == ascii_upper(b));
            assert(upper(name@) != upper(t));
            return false;
        }
        m += 1;
    }
    assert(upper(keyword_name(k)) =~= upper(t));
    true
}

/// The keyword that `s[i..e]` spells, if any.
fn lookup_keyword(s: &Vec<char>, i: usize, e: usize) -> (r: Option<Keyword>)
    requires
        i <= e <= s@.len(),
    ensures
        r == keyword_of(s@.subrange(i as int, e as int)),
{
    let ghost t = s@.subrange(i as int, e as int);
    let kws = all_keywords_vec();
    let mut j: usize = 0;
    assert(kws@.skip(0) =~= kws@);
    while j < kws.len()
        invariant
            kws@ == all_keywords(),
            j <= kws@.len(),
            i <= e <= s@.len(),
            t == s@.subrange(i as int, e as int),
            find_keyword(kws@.skip(j as int), t) == keyword_of(t),
        decreases kws@.len() - j,
    {
        if spells_exec(kws[j], s, i, e) {
            return Some(kws[j]);
        }
        assert(kws@.skip(j as int).drop_first() =~= kws@.skip(j + 1));
        j += 1;
    }
    None
}

fn text1(a: char) -> (r: String)
    ensures
        r@ == seq![a],
{
    let mut r = String::new();
    push_char(&mut r, a);
    assert(r@ =~= seq![a]);
    r
}

fn text2(a: char, b: char) -> (r: String)
    ensures
        r@ == seq![a, b],
{
    let mut r = String::new();
    push_char(&mut r, a);
    push_char(&mut r, b);
    assert(r@ =~= seq![a, b]);
    r
}

fn op_token(o: Operator, value: String) -> (t: Token)
    ensures
        t@ == op_tok(o, value@),
{
    Token::new(TokenType::Operator(o), value)
}


// ===========================================================================
// The tokenizer
// ===========================================================================

/// The view of an optional token.
pub open spec fn opt_token_view(t: Option<Token>) -> Option<TokenV> {
    match t {
        Some(t) => Some(t@),
        None => None,
    }
}

/// The tokenizer itself
#[derive(Debug)]
pub struct Tokenizer<'a> {
    input: &'a str,
    num_chars: usize,
    /// The characters of the input
    chars: Vec<char>,
    /// The current position, counted in characters
    pos: usize,
}

impl<'a> Tokenizer<'a> {
    #[verifier::type_invariant]
    spec fn inv(self) -> bool {
        &&& self.chars@ == self.input@
        &&& self.num_chars == self.chars@.len()
        &&& self.pos <= self.num_chars
    }

    /// The characters of the input.
    pub closed spec fn text(self) -> Seq<char> {
        self.input@
    }

    /// The current position, counted in characters.
    pub closed spec fn position(self) -> int {
        self.pos as int
    }

    /// Construct a new tokenizer for a given input
    pub fn new(input: &'a str) -> (t: Self)
        ensures
            t.text() == input@,
            t.position() == 0,
            0 <= t.position() <= t.text().len(),
    {
        let chars = chars_of(input);
        Tokenizer { input, num_chars: chars.len(), chars, pos: 0 }
    }

    /// Parse the input that was given to us into a list of raw tokens.
    ///
    /// Stops at the first illegal or unknown token, and reports it with its
    /// line and column.
    pub fn tokenize(&mut self) -> (r: Result<Vec<Token>, SQLTokenizeError>)
        ensures
            final(self).text() == old(self).text(),
            0 <= old(self).position() <= old(self).text().len(),
            final(self).position() == lex(old(self).text(), old(self).position()).1,
            old(self).position() <= final(self).position() <= final(self).text().len(),
            match r {
                Ok(v) => lex(old(self).text(), old(self).position()).0 == Ok::<
                    Seq<TokenV>,
                    TokenV,
                >(v@.map_values(|t: Token| t@)),
                Err(e) => lex(old(self).text(), old(self).position()).0 matches Err(t)
                    && e@ == bad_token_error(t, old(self).text()),
            },
    {
        proof {
            use_type_invariant(&*self);
        }
        let ghost s = self.text();
        let ghost start = self.pos as int;
        let mut tokens: Vec<Token> = Vec::new();
        loop
            invariant
                self.text() == s,
                s == old(self).text(),
                s.len() <= usize::MAX,
                start == old(self).pos,
                0 <= start <= self.pos <= s.len(),
                lex(s, start) == prepend_tokens(tokens@.map_values(|t: Token| t@), lex(s, self.pos as int)),
            decreases s.len() - self.pos,
        {
            proof {
                use_type_invariant(&*self);
                lemma_next_token(s, self.pos as int);
            }
            let ghost p0 = self.pos as int;
            match self.get_next_token() {
                None => {
                    assert(tokens@.map_values(|t: Token| t@) + Seq::<TokenV>::empty() =~= tokens@.map_values(|t: Token| t@));
                    return Ok(tokens);
                },
                Some(tok) => {
                    match tok.token_type {
                        TokenType::Illegal(p) => {
                            proof {
                                use_type_invariant(&*self);
                                lemma_bad_token_pos(s, p0);
                                let j = choose|j: int| 0 <= j < p && s[j] != '\n';
                                lemma_line_col_defined(s, p as int, j);
                            }
                            let (line, col) = self.pos_to_line_col(p).unwrap();
                            return Err(SQLTokenizeError::IllegalToken(tok.value, line, col));
                        },
                        TokenType::Unknown(p) => {
                            proof {
                                use_type_invariant(&*self);
                                lemma_bad_token_pos(s, p0);
                                let j = choose|j: int| 0 <= j < p && s[j] != '\n';
                                lemma_line_col_defined(s, p as int, j);
                            }
                            let (line, col) = self.pos_to_line_col(p).unwrap();
                            return Err(SQLTokenizeError::UnknownToken(tok.value, line, col));
                        },
                        _ => {},
                    }
                    let ghost before = tokens@.map_values(|t: Token| t@);
                    tokens.push(tok);
                    proof {
                        assert(tokens@.map_values(|t: Token| t@) =~= before.push(tok@));
                        let r = lex(s, self.pos as int);
                        match r.0 {
                            Ok(ts) => {
                                assert(before + (seq![tok@] + ts) =~= before.push(tok@) + ts);
                            },
                            Err(_) => {},
                        }
                    }
                },
            }
        }
    }

    /// Gets the next token if one exists, skipping whitespace and comments.
    ///
    /// The position never leaves the text and never moves back; a token
    /// moves it forward, and none is returned exactly when only whitespace
    /// and comments were left, after which none is returned again.
    pub fn get_next_token(&mut self) -> (r: Option<Token>)
        ensures
            final(self).text() == old(self).text(),
            final(self).position() == next_token(old(self).text(), old(self).position()).1,
            opt_token_view(r) == next_token(old(self).text(), old(self).position()).0,
            0 <= old(self).position() <= old(self).text().len(),
            old(self).position() <= final(self).position() <= final(self).text().len(),
            r is Some ==> old(self).position() < final(self).position(),
            r is None ==> final(self).position() == final(self).text().len(),
            (r is None) == only_blank(old(self).text(), old(self).position()),
            r is None ==> next_token(final(self).text(), final(self).position()) == (
                None::<TokenV>,
                final(self).position(),
            ),
            r matches Some(t) ==> text_agrees(t@),
    {
        proof {
            use_type_invariant(&*self);
            lemma_next_token(self.text(), self.position());
            lemma_no_token_only_after_blank(self.text(), self.position());
            lemma_token_text_agrees(self.text(), self.position());
        }
        let ghost s = self.chars@;
        self.skip_blank();
        proof {
            use_type_invariant(&*self);
        }
        if self.pos >= self.num_chars {
            return None;
        }
        let i = self.pos;
        let c = self.chars[i];
        let has_next = i + 1 < self.num_chars;
        if is_digit_char(c) {
            let e = scan_number(&self.chars, i);
            proof {
                lemma_number_end(s, i + 1, false);
                lemma_number_chars(s, i as int, false);
            }
            let ty = number_type(&self.chars, i, e);
            let value = string_of_range(&self.chars, i, e);
            self.pos = e;
            Some(Token::new(ty, value))
        } else if is_word_start_char(c) {
            let e = scan_word(&self.chars, i);
            proof {
                lemma_word_end(s, i as int);
            }
            let kw = lookup_keyword(&self.chars, i, e);
            let value = string_of_range(&self.chars, i, e);
            let ty = match kw {
                Some(k) => TokenType::Keyword(k),
                None => TokenType::Identifier(value.clone()),
            };
            self.pos = e;
            Some(Token::new(ty, value))
        } else if c == '\'' || c == '"' {
            let (value, e, found) = scan_quoted_exec(&self.chars, i + 1, c);
            proof {
                lemma_scan_quoted(s, i + 1, c);
            }
            let ty = if !found {
                TokenType::Illegal(e)
            } else if c == '\'' {
                TokenType::Literal(LiteralToken::String(value.clone()))
            } else {
                TokenType::QuotedIdentifier(value.clone())
            };
            self.pos = e;
            Some(Token::new(ty, value))
        } else if c == '<' {
            if has_next && self.chars[i + 1] == '=' {
                self.pos = i + 2;
                Some(op_token(Operator::Lte, text2('<', '=')))
            } else if has_next && self.chars[i + 1] == '>' {
                self.pos = i + 2;
                Some(op_token(Operator::NotEq, text2('<', '>')))
            } else if !has_next || self.chars[i + 1] == ' ' {
                self.pos = i + 1;
                Some(op_token(Operator::Lt, text1('<')))
            } else {
                self.pos = i + 2;
                Some(Token::new(TokenType::Illegal(i + 2), text1('<')))
            }
        } else if c == '>' {
            if has_next && self.chars[i + 1] == '=' {
                self.pos = i + 2;
                Some(op_token(Operator::Gte, text2('>', '=')))
            } else if !has_next || self.chars[i + 1] == ' ' {
                self.pos = i + 1;
                Some(op_token(Operator::Gt, text1('>')))
            } else {
                self.pos = i + 2;
                Some(Token::new(TokenType::Illegal(i + 2), text1('>')))
            }
        } else if c == '=' {
            self.advance();
            Some(op_token(Operator::Equals, text1('=')))
        } else if c == '!' {
            if has_next && self.chars[i + 1] == '=' {
                self.pos = i + 2;
                Some(op_token(Operator::NotEq, text2('!', '=')))
            } else {
                self.advance();
                Some(Token::new(TokenType::Illegal(i + 1), text1('!')))
            }
        } else if c == '+' {
            self.advance();
            Some(op_token(Operator::Plus, text1('+')))
        } else if c == '-' {
            self.advance();
            Some(op_token(Operator::Minus, text1('-')))
        } else if c == '*' {
            self.advance();
            Some(op_token(Operator::Star, text1('*')))
        } else if c == '/' {
            self.advance();
            Some(op_token(Operator::Divide, text1('/')))
        } else if c == '%' {
            self.advance();
            Some(op_token(Operator::Modulus, text1('%')))
        } else if c == ';' {
            self.advance();
            Some(Token::new(TokenType::SemiColon, text1(';')))
        } else if c == '(' {
            self.advance();
            Some(Token::new(TokenType::LParen, text1('(')))
        } else if c == ')' {
            self.advance();
            Some(Token::new(TokenType::RParen, text1(')')))
        } else if c == ',' {
            self.advance();
            Some(Token::new(TokenType::Comma, text1(',')))
        } else {
            self.advance();
            Some(Token::new(TokenType::Unknown(i + 1), text1(c)))
        }
    }

    /// Skips whitespace and comments, leaving the position at the start of the
    /// next token or at the end of input.
    fn skip_blank(&mut self)
        ensures
            final(self).text() == old(self).text(),
            old(self).position() <= final(self).position(),
            next_token(final(self).text(), final(self).position()) == next_token(
                old(self).text(),
                old(self).position(),
            ),
            final(self).position() < final(self).text().len() ==> {
                let s = final(self).text();
                let i = final(self).position();
                &&& !is_whitespace(s[i])
                &&& !(s[i] == '-' && i + 1 < s.len() && s[i + 1] == '-')
                &&& !(s[i] == '/' && i + 1 < s.len() && s[i + 1] == '*')
            },
    {
        proof {
            use_type_invariant(&*self);
        }
        let ghost s = self.text();
        let ghost start = self.pos as int;
        while self.pos < self.num_chars
            invariant
                self.text() == s,
                s == old(self).text(),
                start == old(self).pos,
                start <= self.pos <= s.len(),
                next_token(s, self.pos as int) == next_token(s, start),
            decreases s.len() - self.pos,
        {
            proof {
                use_type_invariant(&*self);
            }
            let i = self.pos;
            let c = self.chars[i];
            if c == ' ' || c == '\t' || c == '\n' || c == '\r' {
                self.advance();
            } else if c == '-' && i + 1 < self.num_chars && self.chars[i + 1] == '-' {
                let e = scan_line_comment(&self.chars, i + 2);
                proof {
                    lemma_line_comment_end(s, i + 2);
                }
                self.pos = e;
            } else if c == '/' && i + 1 < self.num_chars && self.chars[i + 1] == '*' {
                let e = scan_block_comment(&self.chars, i + 2);
                proof {
                    lemma_block_comment_end(s, i + 2);
                }
                self.pos = e;
            } else {
                return;
            }
        }
        proof {
            use_type_invariant(&*self);
        }
    }

    /// Turns a token position into a line and column number of the underlying input string
    ///
    /// If the position is out of bounds, returns None, otherwise returns the line and column number
    fn pos_to_line_col(&self, pos: usize) -> (r: Option<(usize, usize)>)
        requires
            pos <= self.text().len() ==> newline_count(self.text(), pos as int) < usize::MAX,
        ensures
            r == line_col(self.text(), pos as int),
    {
        proof {
            use_type_invariant(self);
        }
        if pos > self.num_chars {
            return None;
        }
        let mut count: usize = 0;
        let mut start: usize = 0;
        let mut k: usize = 0;
        while k < pos
            invariant
                k <= pos <= self.chars@.len(),
                self.chars@ == self.text(),
                count == newline_count(self.chars@, k as int),
                start == line_start(self.chars@, k as int),
                start <= k,
                newline_count(self.chars@, pos as int) < usize::MAX,
            decreases pos - k,
        {
            proof {
                lemma_newline_count_mono(self.chars@, k + 1, pos as int);
            }
            if self.chars[k] == '\n' {
                count += 1;
                start = k + 1;
            }
            k += 1;
        }
        Some((count + 1, pos - start))
    }

    /// Advance the tokenizer to the next character and increase our position
    fn advance(&mut self) -> (r: Option<char>)
        ensures
            final(self).text() == old(self).text(),
            old(self).position() < old(self).text().len() ==> {
                &&& r == Some(old(self).text()[old(self).position()])
                &&& final(self).position() == old(self).position() + 1
            },
            old(self).position() >= old(self).text().len() ==> {
                &&& r is None
                &&& final(self).position() == old(self).position()
            },
    {
        proof {
            use_type_invariant(&*self);
        }
        if self.pos < self.num_chars {
            let c = self.chars[self.pos];
            self.pos = self.pos + 1;
            Some(c)
        } else {
            None
        }
    }
}

/// The tokenizing result `r` with the tokens `ts` put in front.
pub open spec fn prepend_tokens(ts: Seq<TokenV>, r: (Result<Seq<TokenV>, TokenV>, int)) -> (
    Result<Seq<TokenV>, TokenV>,
    int,
) {
    match r.0 {
        Ok(rest) => (Ok(ts + rest), r.1),
        Err(b) => (Err(b), r.1),
    }
}

pub proof fn lemma_newline_count_mono(s: Seq<char>, j: int, k: int)
    requires
        0 <= j <= k <= s.len(),
    ensures
        newline_count(s, j) <= newline_count(s, k),
        newline_count(s, k) <= newline_count(s, j) + (k - j),
    decreases k - j,
{
    if j < k {
        lemma_newline_count_mono(s, j, k - 1);
    }
}

/// A position that follows a character other than a line break has fewer
/// line breaks before it than the position itself, so its line is defined.
pub proof fn lemma_line_col_defined(s: Seq<char>, p: int, j: int)
    requires
        0 <= j < p <= s.len(),
        s[j] != '\n',
    ensures
        newline_count(s, p) < p,
    decreases p,
{
    if p - 1 == j {
        lemma_newline_count_mono(s, 0, p - 1);
    } else {
        lemma_line_col_defined(s, p - 1, j);
    }
}

} // verus!
