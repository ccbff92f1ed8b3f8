//! The tokenizer: splits script text into words and classifies each word as
//! a parenthesis, an integer literal, a function head, or a variable
//! reference. Comments run from a semicolon to the next newline or
//! parenthesis.

use vstd::prelude::*;

use crate::functions::OpKind;
use crate::types::{Value, ValueV};

verus! {

/// Whether the character counts as alphabetic, exactly as the standard
/// library's Unicode tables say.
pub uninterp spec fn is_alphabetic_char(c: char) -> bool;

/// Whether the character counts as alphanumeric, exactly as the standard
/// library's Unicode tables say.
pub uninterp spec fn is_alphanumeric_char(c: char) -> bool;

/// Whether the character counts as whitespace, exactly as the standard
/// library's Unicode tables say.
pub uninterp spec fn is_whitespace_char(c: char) -> bool;

/// Relies on `char::is_alphabetic`: a pure Unicode table lookup.
#[verifier::external_body]
pub fn char_is_alphabetic(c: char) -> (r: bool)
    ensures
        r == is_alphabetic_char(c),
{
    c.is_alphabetic()
}

/// Relies on `char::is_alphanumeric`: a pure Unicode table lookup.
#[verifier::external_body]
pub fn char_is_alphanumeric(c: char) -> (r: bool)
    ensures
        r == is_alphanumeric_char(c),
{
    c.is_alphanumeric()
}

/// Relies on `char::is_whitespace`: a pure Unicode table lookup.
#[verifier::external_body]
pub fn char_is_whitespace(c: char) -> (r: bool)
    ensures
        r == is_whitespace_char(c),
{
    c.is_whitespace()
}

/// Relies on `str::chars` (through `Iterator::collect`): the characters of
/// the string, in order.
#[verifier::external_body]
pub fn string_chars(s: &str) -> (v: Vec<char>)
    ensures
        v@ == s@,
{
    s.chars().collect()
}

/// Relies on `FromIterator for String` (through `Iterator::collect`): the
/// string holding exactly the given characters, in order.
#[verifier::external_body]
pub fn chars_to_string(v: &Vec<char>) -> (s: String)
    ensures
        s@ == v@,
{
    v.iter().collect()
}

/// A token of the script language.
#[derive(Debug, PartialEq)]
pub enum Token {
    /// A variable reference, carrying its name and a placeholder value.
    Variable(Variable),
    /// A literal value.
    Literal(Literal),
    /// A function-call head with an accumulating argument list.
    Function(Function),
    /// An opening parenthesis.
    LeftParen,
    /// A closing parenthesis.
    RightParen,
}

/// A variable reference: a name, and the placeholder it carries until
/// substitution.
#[derive(Debug, PartialEq)]
pub struct Variable {
    /// The referenced name.
    pub name: String,
    /// The value carried before substitution.
    pub var: Value,
}

/// A literal token.
#[derive(Debug, PartialEq)]
pub struct Literal {
    /// The literal's value.
    pub value: Value,
}

/// A function-call head: the called name, a slot for accumulated argument
/// tokens, and the operation the name dispatches to. The tokenizer always
/// produces the head with an empty argument list; the evaluator gathers
/// the flattened arguments itself.
#[derive(Debug, PartialEq)]
pub struct Function {
    /// The called name.
    pub name: String,
    /// The argument tokens gathered for this call, empty when freshly
    /// tokenized.
    pub args: Vec<Token>,
    /// The operation the name resolves to.
    pub op: OpKind,
}

/// The mathematical shadow of a freshly produced token: what the tokenizer
/// promises about each element of its output (a function head's argument
/// list is empty there, so it carries no recursion).
pub enum TokV {
    /// An opening parenthesis.
    LeftParen,
    /// A closing parenthesis.
    RightParen,
    /// A literal value.
    Literal(ValueV),
    /// A variable reference: its name and its carried value.
    Variable(Seq<char>, ValueV),
    /// A function head: its name and its operation.
    Function(Seq<char>, OpKind),
}

/// The shadow of a token, ignoring a function head's argument list.
pub open spec fn tok_brief(t: Token) -> TokV {
    match t {
        Token::LeftParen => TokV::LeftParen,
        Token::RightParen => TokV::RightParen,
        Token::Literal(l) => TokV::Literal(l.value@),
        Token::Variable(v) => TokV::Variable(v.name@, v.var@),
        Token::Function(f) => TokV::Function(f.name@, f.op),
    }
}

/// The operation a function name resolves to; unknown names resolve to the
/// fallback, not to an error.
pub open spec fn op_of_name(n: Seq<char>) -> OpKind {
    if n == "+"@ {
        OpKind::Add
    } else if n == "-"@ {
        OpKind::Sub
    } else if n == "*"@ {
        OpKind::Mul
    } else if n == "/"@ {
        OpKind::Div
    } else if n == "setq"@ {
        OpKind::Setq
    } else if n == "angle"@ {
        OpKind::Angle
    } else if n == "iangle"@ {
        OpKind::InscribedAngle
    } else if n == "point"@ {
        OpKind::Point
    } else if n == "midpoint"@ {
        OpKind::Midpoint
    } else if n == "lineseg"@ {
        OpKind::Lineseg
    } else if n == "circumcenter"@ {
        OpKind::Circumcenter
    } else if n == "incenter"@ {
        OpKind::Incenter
    } else if n == "orthocenter"@ {
        OpKind::Orthocenter
    } else if n == "centroid"@ {
        OpKind::Centroid
    } else if n == "intersect"@ {
        OpKind::Intersect
    } else if n == "inradius"@ {
        OpKind::Inradius
    } else if n == "circle"@ {
        OpKind::Circle
    } else if n == "triangle"@ {
        OpKind::Triangle
    } else {
        OpKind::Nop
    }
}

/// Whether the character is a decimal digit.
pub open spec fn is_digit_char(c: char) -> bool {
    '0' <= c && c <= '9'
}

/// The numeric value of a decimal digit.
pub open spec fn digit_val(c: char) -> int {
    c as u32 - 48
}

/// Whether every character from position `i` on is a decimal digit.
pub open spec fn all_digits(s: Seq<char>, i: int) -> bool {
    forall|j: int| i <= j < s.len() ==> is_digit_char(#[trigger] s[j])
}

/// The value of the decimal digits of `s` from position `i` on, folded onto
/// the accumulator.
pub open spec fn digits_fold(s: Seq<char>, i: int, acc: int) -> int
    decreases s.len() - i,
{
    if i < 0 || i >= s.len() {
        acc
    } else {
        digits_fold(s, i + 1, acc * 10 + digit_val(s[i]))
    }
}

/// The digit part of a decimal word: everything after an optional sign.
pub open spec fn int_body(s: Seq<char>) -> Seq<char> {
    if s.len() > 0 && (s[0] == '+' || s[0] == '-') {
        s.subrange(1, s.len() as int)
    } else {
        s
    }
}

/// The sign of a decimal word.
pub open spec fn int_sign(s: Seq<char>) -> int {
    if s.len() > 0 && s[0] == '-' {
        -1
    } else {
        1
    }
}

/// Whether the word is a decimal integer in the signed 32-bit range: an
/// optional sign, one or more digits, and a value within the range.
pub open spec fn is_i32_str(s: Seq<char>) -> bool {
    &&& int_body(s).len() > 0
    &&& all_digits(int_body(s), 0)
    &&& -0x8000_0000 <= int_word_val(s) <= 0x7FFF_FFFF
}

/// The integer value of a decimal word.
pub open spec fn int_word_val(s: Seq<char>) -> int {
    int_sign(s) * digits_fold(int_body(s), 0, 0)
}

/// Folding digits never decreases a non-negative accumulator.
proof fn lemma_digits_fold_lower(s: Seq<char>, i: int, acc: int)
    requires
        0 <= acc,
        all_digits(s, i),
    ensures
        digits_fold(s, i, acc) >= acc,
    decreases s.len() - i,
{
    if 0 <= i < s.len() {
        lemma_digits_fold_lower(s, i + 1, acc * 10 + digit_val(s[i]));
    }
}

/// Parses a word as a 32-bit-range decimal integer, returning its value.
pub fn parse_int_word(w: &Vec<char>) -> (out: Option<i64>)
    ensures
        match out {
            Some(v) => is_i32_str(w@) && v as int == int_word_val(w@),
            None => !is_i32_str(w@),
        },
{
    let len = w.len();
    if len == 0 {
        return None;
    }
    let neg = w[0] == '-';
    let start: usize = if w[0] == '+' || w[0] == '-' {
        1
    } else {
        0
    };
    if start >= len {
        return None;
    }
    let ghost body = int_body(w@);
    proof {
        assert(body =~= w@.subrange(start as int, len as int));
    }
    let mut acc: i64 = 0;
    let mut i = start;
    while i < len
        invariant
            start <= i <= len,
            len == w.len(),
            start <= 1,
            body =~= w@.subrange(start as int, len as int),
            body == int_body(w@),
            neg == (int_sign(w@) == -1),
            0 <= acc <= 0x8000_0000,
            forall|j: int| 0 <= j < i - start ==> is_digit_char(#[trigger] body[j]),
            digits_fold(body, i - start, acc as int) == digits_fold(body, 0, 0),
        decreases len - i,
    {
        let c = w[i];
        if !(c >= '0' && c <= '9') {
            proof {
                assert(body.len() == len - start);
                assert(body[i - start] == w@[i as int]);
                assert(!is_digit_char(body[i - start]));
                assert(!all_digits(body, 0)) by {
                    assert(0 <= i - start < body.len());
                    assert(!is_digit_char(body[i - start]));
                }
                assert(!is_i32_str(w@));
            }
            return None;
        }
        let d: i64 = (c as u32 - 48) as i64;
        proof {
            assert(body[i - start] == w@[i as int]);
            assert(digits_fold(body, i - start, acc as int) == digits_fold(
                body,
                i - start + 1,
                (acc as int) * 10 + digit_val(body[i - start]),
            ));
        }
        acc = acc * 10 + d;
        i = i + 1;
        if acc > 0x8000_0000 {
            // whatever the remaining characters hold, the digits seen so far
            // already put the magnitude out of the 32-bit range
            proof {
                assert(digits_fold(body, i - start, acc as int) == digits_fold(body, 0, 0));
                if all_digits(body, 0) {
                    lemma_digits_fold_lower(body, i - start, acc as int);
                    let mag = digits_fold(body, 0, 0);
                    assert(mag > 0x8000_0000);
                    assert(int_word_val(w@) == int_sign(w@) * mag);
                    if int_sign(w@) == 1 {
                        assert(int_sign(w@) * mag == mag);
                    } else {
                        assert(int_sign(w@) == -1);
                        assert(int_sign(w@) * mag == -mag);
                    }
                }
                assert(!is_i32_str(w@));
            }
            return None;
        }
    }
    proof {
        assert(digits_fold(body, 0, 0) == acc as int);
        assert(all_digits(body, 0));
    }
    if neg {
        Some(-acc)
    } else {
        if acc > 0x7FFF_FFFF {
            return None;
        }
        Some(acc)
    }
}

/// The padding of one source character: parentheses and the comment
/// starter get spaces around them, a newline becomes the padded two-mark
/// word that ends a comment, and everything else stands alone.
pub open spec fn pad(c: char) -> Seq<char> {
    if c == '(' {
        seq![' ', '(', ' ']
    } else if c == ')' {
        seq![' ', ')', ' ']
    } else if c == ';' {
        seq![' ', ';', ' ']
    } else if c == '\n' {
        seq![' ', '\\', 'n', ' ']
    } else {
        seq![c]
    }
}

/// The padded text from position `i` on.
pub open spec fn padded_from(s: Seq<char>, i: int) -> Seq<char>
    decreases s.len() - i,
{
    if i < 0 || i >= s.len() {
        Seq::empty()
    } else {
        pad(s[i]) + padded_from(s, i + 1)
    }
}

/// The whitespace-separated words of the text from position `i` on, with
/// the partial word `cur` gathered so far.
pub open spec fn split_from(s: Seq<char>, i: int, cur: Seq<char>) -> Seq<Seq<char>>
    decreases s.len() - i,
{
    if i < 0 || i >= s.len() {
        if cur.len() > 0 {
            seq![cur]
        } else {
            Seq::empty()
        }
    } else if is_whitespace_char(s[i]) {
        if cur.len() > 0 {
            seq![cur] + split_from(s, i + 1, Seq::empty())
        } else {
            split_from(s, i + 1, Seq::empty())
        }
    } else {
        split_from(s, i + 1, cur + seq![s[i]])
    }
}

/// The classification of one word: a function head after a left
/// parenthesis, a parenthesis mark, an integer literal when the word is a
/// 32-bit-range decimal, and a variable reference otherwise.
pub open spec fn classify_word(w: Seq<char>, prev_paren: bool) -> TokV {
    if prev_paren {
        TokV::Function(w, op_of_name(w))
    } else if w == "("@ {
        TokV::LeftParen
    } else if w == ")"@ {
        TokV::RightParen
    } else if is_i32_str(w) {
        TokV::Literal(ValueV::Int(int_word_val(w) as i64))
    } else {
        TokV::Variable(w, ValueV::Indeterminate)
    }
}

/// The tokens produced from the words from position `i` on, given whether
/// the previous token was a left parenthesis and whether a comment is
/// running.
pub open spec fn toks_from(words: Seq<Seq<char>>, i: int, prev: bool, comment: bool) -> Seq<TokV>
    decreases words.len() - i,
{
    if i < 0 || i >= words.len() {
        Seq::empty()
    } else {
        let w = words[i];
        if w == ";"@ {
            toks_from(words, i + 1, prev, true)
        } else if comment && !(w == "("@ || w == ")"@ || w == "\\n"@) {
            toks_from(words, i + 1, prev, true)
        } else if w == "\\n"@ {
            toks_from(words, i + 1, prev, false)
        } else {
            seq![classify_word(w, prev)] + toks_from(
                words,
                i + 1,
                classify_word(w, prev) is LeftParen,
                false,
            )
        }
    }
}

/// What tokenizing a whole text produces: pad, split into words, classify.
pub open spec fn tokens_of(s: Seq<char>) -> Seq<TokV> {
    toks_from(split_from(padded_from(s, 0), 0, Seq::empty()), 0, false, false)
}

/// The views of a list of words.
pub open spec fn words_view(ws: Seq<Vec<char>>) -> Seq<Seq<char>> {
    ws.map_values(|w: Vec<char>| w@)
}

/// The brief views of a list of tokens.
pub open spec fn toks_brief(ts: Seq<Token>) -> Seq<TokV> {
    ts.map_values(|t: Token| tok_brief(t))
}

/// Every function head in the list carries an empty argument list.
pub open spec fn fresh_tokens(ts: Seq<Token>) -> bool {
    forall|i: int|
        0 <= i < ts.len() ==> ((#[trigger] ts[i]) matches Token::Function(f) ==> f.args@.len()
            == 0)
}

/// Whether the string equals the given word.
pub(crate) fn string_eq_lit(name: &String, lit: &str) -> (r: bool)
    ensures
        r == (name@ == lit@),
{
    let other = lit.to_owned();
    *name == other
}

/// Given the name of a function, return the appropriate function token
/// head, with an empty argument list.
pub fn match_fn(name: String) -> (f: Function)
    ensures
        f.name@ == name@,
        f.args@.len() == 0,
        f.op == op_of_name(name@),
{
    let op: OpKind = if string_eq_lit(&name, "+") {
        OpKind::Add
    } else if string_eq_lit(&name, "-") {
        OpKind::Sub
    } else if string_eq_lit(&name, "*") {
        OpKind::Mul
    } else if string_eq_lit(&name, "/") {
        OpKind::Div
    } else if string_eq_lit(&name, "setq") {
        OpKind::Setq
    } else if string_eq_lit(&name, "angle") {
        OpKind::Angle
    } else if string_eq_lit(&name, "iangle") {
        OpKind::InscribedAngle
    } else if string_eq_lit(&name, "point") {
        OpKind::Point
    } else if string_eq_lit(&name, "midpoint") {
        OpKind::Midpoint
    } else if string_eq_lit(&name, "lineseg") {
        OpKind::Lineseg
    } else if string_eq_lit(&name, "circumcenter") {
        OpKind::Circumcenter
    } else if string_eq_lit(&name, "incenter") {
        OpKind::Incenter
    } else if string_eq_lit(&name, "orthocenter") {
        OpKind::Orthocenter
    } else if string_eq_lit(&name, "centroid") {
        OpKind::Centroid
    } else if string_eq_lit(&name, "intersect") {
        OpKind::Intersect
    } else if string_eq_lit(&name, "inradius") {
        OpKind::Inradius
    } else if string_eq_lit(&name, "circle") {
        OpKind::Circle
    } else if string_eq_lit(&name, "triangle") {
        OpKind::Triangle
    } else {
        OpKind::Nop
    };
    Function { name, args: Vec::new(), op }
}

/// Given a word and whether the previous token was a left parenthesis,
/// return the appropriate token.
pub fn match_token(token: String, prev_paren: bool) -> (t: Token)
    ensures
        tok_brief(t) == classify_word(token@, prev_paren),
        t matches Token::Function(f) ==> f.args@.len() == 0,
{
    // a word right after a left parenthesis is always a function name
    if prev_paren {
        return Token::Function(match_fn(token));
    }

    if string_eq_lit(&token, "(") {
        return Token::LeftParen;
    }
    if string_eq_lit(&token, ")") {
        return Token::RightParen;
    }
    let chars = string_chars(token.as_str());
    match parse_int_word(&chars) {
        Some(v) => Token::Literal(Literal { value: Value::Int(v) }),
        None => Token::Variable(Variable { name: token, var: Value::Indeterminate }),
    }
}

/// Pads the characters from position `i` on.
fn pad_chars(chars: &Vec<char>, i: usize) -> (out: Vec<char>)
    ensures
        out@ == padded_from(chars@, i as int),
    decreases chars@.len() - i,
{
    if i >= chars.len() {
        let out: Vec<char> = Vec::new();
        proof {
            assert(out@ =~= padded_from(chars@, i as int));
        }
        out
    } else {
        let c = chars[i];
        let mut head: Vec<char> = Vec::new();
        if c == '(' {
            head.push(' ');
            head.push('(');
            head.push(' ');
        } else if c == ')' {
            head.push(' ');
            head.push(')');
            head.push(' ');
        } else if c == ';' {
            head.push(' ');
            head.push(';');
            head.push(' ');
        } else if c == '\n' {
            head.push(' ');
            head.push('\\');
            head.push('n');
            head.push(' ');
        } else {
            head.push(c);
        }
        proof {
            assert(head@ =~= pad(chars@[i as int]));
        }
        let mut rest = pad_chars(chars, i + 1);
        head.append(&mut rest);
        proof {
            assert(head@ =~= padded_from(chars@, i as int));
        }
        head
    }
}

/// Splits the padded characters from position `i` on into words, with the
/// partial word `cur` gathered so far.
fn split_words(p: &Vec<char>, i: usize, cur: Vec<char>) -> (out: Vec<Vec<char>>)
    ensures
        words_view(out@) == split_from(p@, i as int, cur@),
    decreases p@.len() - i,
{
    if i >= p.len() {
        let mut out: Vec<Vec<char>> = Vec::new();
        if cur.len() > 0 {
            out.push(cur);
        }
        proof {
            assert(words_view(out@) =~= split_from(p@, i as int, cur@));
        }
        out
    } else {
        let c = p[i];
        if char_is_whitespace(c) {
            let rest = split_words(p, i + 1, Vec::new());
            if cur.len() > 0 {
                let mut out: Vec<Vec<char>> = Vec::new();
                out.push(cur);
                let mut rest_m = rest;
                out.append(&mut rest_m);
                proof {
                    assert(words_view(out@) =~= split_from(p@, i as int, cur@));
                }
                out
            } else {
                rest
            }
        } else {
            let mut cur2 = cur;
            cur2.push(c);
            proof {
                assert(cur2@ =~= cur@ + seq![p@[i as int]]);
            }
            split_words(p, i + 1, cur2)
        }
    }
}

/// Whether the word is the single character `c`.
fn word_is_char(w: &Vec<char>, c: char) -> (r: bool)
    ensures
        r == (w@ =~= seq![c]),
{
    if w.len() != 1 {
        return false;
    }
    w[0] == c
}

/// Whether the word is the padded newline mark.
fn word_is_newline(w: &Vec<char>) -> (r: bool)
    ensures
        r == (w@ == "\\n"@),
{
    proof {
        reveal_strlit("\\n");
    }
    if w.len() != 2 {
        proof {
            assert(w@ != "\\n"@);
        }
        return false;
    }
    let r = w[0] == '\\' && w[1] == 'n';
    proof {
        if r {
            assert(w@ =~= "\\n"@);
        }
    }
    r
}

/// Classifies the words from position `i` on into tokens.
fn toks_build(words: &Vec<Vec<char>>, i: usize, prev: bool, comment: bool) -> (out: Vec<Token>)
    ensures
        toks_brief(out@) == toks_from(words_view(words@), i as int, prev, comment),
        fresh_tokens(out@),
    decreases words@.len() - i,
{
    if i >= words.len() {
        let out: Vec<Token> = Vec::new();
        proof {
            assert(toks_brief(out@) =~= toks_from(words_view(words@), i as int, prev, comment));
        }
        out
    } else {
        let w = &words[i];
        let is_lp = word_is_char(w, '(');
        let is_rp = word_is_char(w, ')');
        let is_semi = word_is_char(w, ';');
        let is_nl = word_is_newline(w);
        proof {
            reveal_strlit("(");
            reveal_strlit(")");
            reveal_strlit(";");
            assert(is_lp == (w@ == "("@)) by {
                if w@ =~= seq!['('] {
                    assert(w@ =~= "("@);
                } else if w@ == "("@ {
                    assert(w@ =~= seq!['(']);
                }
            }
            assert(is_rp == (w@ == ")"@)) by {
                if w@ =~= seq![')'] {
                    assert(w@ =~= ")"@);
                } else if w@ == ")"@ {
                    assert(w@ =~= seq![')']);
                }
            }
            assert(is_semi == (w@ == ";"@)) by {
                if w@ =~= seq![';'] {
                    assert(w@ =~= ";"@);
                } else if w@ == ";"@ {
                    assert(w@ =~= seq![';']);
                }
            }
            assert(words_view(words@)[i as int] == w@);
        }
        if is_semi {
            toks_build(words, i + 1, prev, true)
        } else if comment && !(is_lp || is_rp || is_nl) {
            toks_build(words, i + 1, prev, true)
        } else if is_nl {
            toks_build(words, i + 1, prev, false)
        } else {
            let sw = chars_to_string(w);
            let t = match_token(sw, prev);
            let next_prev = match &t {
                Token::LeftParen => true,
                _ => false,
            };
            proof {
                assert(next_prev == (classify_word(w@, prev) is LeftParen));
            }
            let rest = toks_build(words, i + 1, next_prev, false);
            let mut out: Vec<Token> = Vec::new();
            out.push(t);
            let mut rest_m = rest;
            out.append(&mut rest_m);
            proof {
                assert(toks_brief(out@) =~= toks_from(
                    words_view(words@),
                    i as int,
                    prev,
                    comment,
                ));
            }
            out
        }
    }
}

/// Given script text, tokenize it into a vector of tokens: pad the
/// parenthesis, comment and newline marks, split on whitespace, and
/// classify each word.
pub fn tokenize(s: String) -> (out: Vec<Token>)
    ensures
        toks_brief(out@) == tokens_of(s@),
        fresh_tokens(out@),
{
    let chars = string_chars(s.as_str());
    let padded = pad_chars(&chars, 0);
    let words = split_words(&padded, 0, Vec::new());
    toks_build(&words, 0, false, false)
}

} // verus!
