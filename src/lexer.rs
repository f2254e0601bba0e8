use vstd::prelude::*;
use crate::token::Token;

verus! {

/// Block comments (also those holding `*`) and line comments.
pub const COMMENT_PATTERN: &'static str = r"(/\*([^*]|[\r\n]|(\*+([^*/]|[\r\n])))*\*+/)|(//.*)";

/// One alternative per token class, in priority order; the last catches any
/// other visible character, which no token starts with.
pub const TOKEN_PATTERN: &'static str = r#"(?P<println>System\.out\.println)|(?P<identifier>\p{Alphabetic}\w*)|(?P<text>".*?")|(?P<number>\d+)|(?P<delimiter>;)|(?P<opbrace>\{)|(?P<clbrace>\})|(?P<opbracket>\[)|(?P<clbracket>\])|(?P<opparethesis>\()|(?P<clparethesis>\))|(?P<comma>,)|(?P<dot>\.)|(?P<operator>&&|<|\+|-|\*|!|=)|(?P<other>\S)"#;

/// Why source text could not be tokenized.
#[derive(Debug, Clone, PartialEq, Eq)]
pub enum LexError {
    /// A character sequence that no token pattern matches.
    Unrecognized(String),
    /// Digits whose value does not fit in an `i64`.
    BadNumber(String),
    /// A pattern of the tokenizer was refused by the regex engine.
    BadPattern,
}

/// Whether `pattern` is accepted by the regex engine: valid syntax, within
/// the engine's size limits.
pub uninterp spec fn pattern_compiles(pattern: Seq<char>) -> bool;

/// The text left of `text` once every match of `pattern` is removed.
pub uninterp spec fn without_matches(pattern: Seq<char>, text: Seq<char>) -> Seq<char>;

/// The successive non-overlapping matches of `pattern` in `text`, each as the
/// texts of its capture groups (group 0 being the whole match).
pub uninterp spec fn capture_groups_of(pattern: Seq<char>, text: Seq<char>) -> Seq<Seq<Option<Seq<char>>>>;

/// The capture groups of matches, as sequences of characters.
pub open spec fn groups_view(caps: Vec<Vec<Option<String>>>) -> Seq<Seq<Option<Seq<char>>>> {
    caps@.map_values(|g: Vec<Option<String>>| capture_view(g))
}

/// The capture groups of one match, as sequences of characters.
pub open spec fn capture_view(groups: Vec<Option<String>>) -> Seq<Option<Seq<char>>> {
    groups@.map_values(|o: Option<String>|
        match o {
            Some(s) => Some(s@),
            None => None,
        })
}

/// Relies on regex::Regex::new and Regex::replace_all with an empty
/// replacement: the text with every match of the pattern removed, or `None`
/// where the pattern does not compile.
#[verifier::external_body]
fn remove_matches(pattern: &str, text: &str) -> (r: Option<String>)
    ensures
        r is Some <==> pattern_compiles(pattern@),
        r matches Some(s) ==> s@ == without_matches(pattern@, text@),
{
    match regex::Regex::new(pattern) {
        Ok(re) => Some(re.replace_all(text, "").into_owned()),
        Err(_) => None,
    }
}

/// Relies on regex::Regex::new and Regex::captures_iter, with Captures::iter:
/// the matches of the pattern in order, each with the text of every group,
/// or `None` where the pattern does not compile.
#[verifier::external_body]
fn capture_groups(pattern: &str, text: &str) -> (r: Option<Vec<Vec<Option<String>>>>)
    ensures
        r is Some <==> pattern_compiles(pattern@),
        r matches Some(caps) ==> groups_view(caps) == capture_groups_of(pattern@, text@),
{
    match regex::Regex::new(pattern) {
        Ok(re) => Some(re.captures_iter(text).map(|c|
            c.iter().map(|m| m.map(|m| m.as_str().to_string())).collect()).collect()),
        Err(_) => None,
    }
}

/// The keyword that `s` spells, if any.
pub open spec fn keyword(s: Seq<char>) -> Option<Token> {
    if s == "class"@ { Some(Token::Class) }
    else if s == "public"@ { Some(Token::Public) }
    else if s == "static"@ { Some(Token::Static) }
    else if s == "this"@ { Some(Token::This) }
    else if s == "new"@ { Some(Token::New) }
    else if s == "void"@ { Some(Token::Void) }
    else if s == "main"@ { Some(Token::Main) }
    else if s == "String"@ { Some(Token::STRING) }
    else if s == "extends"@ { Some(Token::Extends) }
    else if s == "if"@ { Some(Token::If) }
    else if s == "else"@ { Some(Token::Else) }
    else if s == "while"@ { Some(Token::While) }
    else if s == "return"@ { Some(Token::Return) }
    else if s == "true"@ { Some(Token::True) }
    else if s == "false"@ { Some(Token::False) }
    else if s == "length"@ { Some(Token::Length) }
    else if s == "int"@ { Some(Token::Int) }
    else if s == "boolean"@ { Some(Token::Boolean) }
    else { None }
}

/// The operator token that `s` spells, if any.
pub open spec fn operator(s: Seq<char>) -> Option<Token> {
    if s == "&&"@ { Some(Token::And) }
    else if s == "<"@ { Some(Token::Less) }
    else if s == "+"@ { Some(Token::Add) }
    else if s == "-"@ { Some(Token::Sub) }
    else if s == "*"@ { Some(Token::Mul) }
    else if s == "!"@ { Some(Token::Not) }
    else if s == "="@ { Some(Token::Assign) }
    else { None }
}

/// The punctuation token of capture group `g`, for the groups from `;` to `.`.
pub open spec fn punctuation(g: int) -> Token {
    if g == 5 { Token::Delimiter }
    else if g == 6 { Token::OpBrace }
    else if g == 7 { Token::ClBrace }
    else if g == 8 { Token::OpBracket }
    else if g == 9 { Token::ClBracket }
    else if g == 10 { Token::OpParethesis }
    else if g == 11 { Token::ClParethesis }
    else if g == 12 { Token::Comma }
    else { Token::Dot }
}

pub open spec fn is_digit(c: char) -> bool {
    '0' <= c && c <= '9'
}

/// The value of a string of decimal digits.
pub open spec fn decimal_value(s: Seq<char>) -> int
    decreases s.len(),
{
    if s.len() == 0 {
        0
    } else {
        decimal_value(s.drop_last()) * 10 + (s.last() as int - '0' as int)
    }
}

/// Digits that spell an `i64`.
pub open spec fn is_i64_decimal(s: Seq<char>) -> bool {
    &&& s.len() > 0
    &&& forall|i: int| 0 <= i < s.len() ==> is_digit(#[trigger] s[i])
    &&& decimal_value(s) <= i64::MAX
}

/// The first group from `g` on that took part in a match, or 0 where none did.
pub open spec fn first_group(groups: Seq<Option<Seq<char>>>, g: int) -> int
    decreases groups.len() - g,
{
    if g >= groups.len() {
        0
    } else if groups[g] is Some {
        g
    } else {
        first_group(groups, g + 1)
    }
}

/// The text of group `g`, or nothing where it took no part.
pub open spec fn group_text(groups: Seq<Option<Seq<char>>>, g: int) -> Seq<char> {
    if 0 <= g < groups.len() && groups[g] is Some {
        groups[g]->Some_0
    } else {
        Seq::empty()
    }
}

/// What one match of the token pattern stands for: `r` is the token, or the
/// error, that its capture groups give.
pub open spec fn lexes_to(groups: Seq<Option<Seq<char>>>, r: Result<Token, LexError>) -> bool {
    let g = first_group(groups, 1);
    let text = group_text(groups, g);
    if g == 1 {
        r == Ok::<Token, LexError>(Token::Println)
    } else if g == 2 {
        match keyword(text) {
            Some(k) => r == Ok::<Token, LexError>(k),
            None => r matches Ok(Token::Identifier(s)) && s@ == text,
        }
    } else if g == 3 {
        r matches Ok(Token::Text(s)) && s@ == text
    } else if g == 4 {
        if is_i64_decimal(text) {
            r == Ok::<Token, LexError>(Token::Number(decimal_value(text) as i64))
        } else {
            r matches Err(LexError::BadNumber(s)) && s@ == text
        }
    } else if 5 <= g <= 13 {
        r == Ok::<Token, LexError>(punctuation(g))
    } else if g == 14 && operator(text) is Some {
        r == Ok::<Token, LexError>(operator(text)->Some_0)
    } else {
        r matches Err(LexError::Unrecognized(s)) && s@ == group_text(groups, 0)
    }
}

proof fn lemma_decimal_prefix(s: Seq<char>, j: int)
    requires
        0 <= j <= s.len(),
        forall|i: int| 0 <= i < s.len() ==> is_digit(#[trigger] s[i]),
    ensures
        decimal_value(s) >= decimal_value(s.take(j)),
        decimal_value(s.take(j)) >= 0,
    decreases s.len(),
{
    if j == s.len() {
        assert(s.take(j) =~= s);
        if s.len() > 0 {
            lemma_decimal_prefix(s.drop_last(), 0);
        } else {
            assert(decimal_value(s) == 0);
        }
    } else {
        let d = s.drop_last();
        assert(d.take(j) =~= s.take(j));
        lemma_decimal_prefix(d, j);
    }
}

/// The value of a string of ASCII decimal digits, where it fits in an `i64`.
pub fn parse_decimal(s: &String) -> (r: Option<i64>)
    ensures
        r is Some <==> is_i64_decimal(s@),
        r matches Some(v) ==> v as int == decimal_value(s@),
{
    let n = s.as_str().unicode_len();
    if n == 0 {
        return None;
    }
    let mut v: u64 = 0;
    let mut i: usize = 0;
    while i < n
        invariant
            n == s@.len(),
            0 <= i <= n,
            v as int == decimal_value(s@.take(i as int)),
            v <= i64::MAX,
            forall|k: int| 0 <= k < i ==> is_digit(#[trigger] s@[k]),
        decreases n - i,
    {
        let c = s.as_str().get_char(i);
        assert(s@.take(i + 1).drop_last() =~= s@.take(i as int));
        if !('0' <= c && c <= '9') {
            return None;
        }
        let d: u64 = (c as u32 - '0' as u32) as u64;
        if v > 922337203685477580 || (v == 922337203685477580 && d > 7) {
            proof {
                if forall|k: int| 0 <= k < s@.len() ==> is_digit(#[trigger] s@[k]) {
                    lemma_decimal_prefix(s@, i + 1);
                }
            }
            return None;
        }
        v = v * 10 + d;
        i = i + 1;
    }
    assert(s@.take(n as int) =~= s@);
    Some(v as i64)
}

/// Whether `s` holds exactly `word`.
fn spells(s: &String, word: &str) -> (r: bool)
    ensures
        r == (s@ == word@),
{
    s.eq(&word.to_string())
}

/// The keyword that `s` spells, if any.
pub fn keyword_of(s: &String) -> (r: Option<Token>)
    ensures
        r == keyword(s@),
{
    if spells(s, "class") {
        Some(Token::Class)
    } else if spells(s, "public") {
        Some(Token::Public)
    } else if spells(s, "static") {
        Some(Token::Static)
    } else if spells(s, "this") {
        Some(Token::This)
    } else if spells(s, "new") {
        Some(Token::New)
    } else if spells(s, "void") {
        Some(Token::Void)
    } else if spells(s, "main") {
        Some(Token::Main)
    } else if spells(s, "String") {
        Some(Token::STRING)
    } else if spells(s, "extends") {
        Some(Token::Extends)
    } else if spells(s, "if") {
        Some(Token::If)
    } else if spells(s, "else") {
        Some(Token::Else)
    } else if spells(s, "while") {
        Some(Token::While)
    } else if spells(s, "return") {
        Some(Token::Return)
    } else if spells(s, "true") {
        Some(Token::True)
    } else if spells(s, "false") {
        Some(Token::False)
    } else if spells(s, "length") {
        Some(Token::Length)
    } else if spells(s, "int") {
        Some(Token::Int)
    } else if spells(s, "boolean") {
        Some(Token::Boolean)
    } else {
        None
    }
}

/// The operator that `s` spells, if any.
pub fn operator_of(s: &String) -> (r: Option<Token>)
    ensures
        r == operator(s@),
{
    if spells(s, "&&") {
        Some(Token::And)
    } else if spells(s, "<") {
        Some(Token::Less)
    } else if spells(s, "+") {
        Some(Token::Add)
    } else if spells(s, "-") {
        Some(Token::Sub)
    } else if spells(s, "*") {
        Some(Token::Mul)
    } else if spells(s, "!") {
        Some(Token::Not)
    } else if spells(s, "=") {
        Some(Token::Assign)
    } else {
        None
    }
}

/// The token, or the error, that one match of the token pattern gives.
pub fn token_of_capture(groups: &Vec<Option<String>>) -> (r: Result<Token, LexError>)
    ensures
        lexes_to(capture_view(*groups), r),
{
    let ghost view = capture_view(*groups);
    let mut g: usize = 1;
    while g < groups.len() && groups[g].is_none()
        invariant
            1 <= g,
            view == capture_view(*groups),
            view.len() == groups@.len(),
            first_group(view, 1) == first_group(view, g as int),
            g <= groups@.len() || first_group(view, 1) == 0,
        decreases groups@.len() - g,
    {
        g = g + 1;
    }
    assert(g < groups@.len() ==> view[g as int] is Some);
    assert(first_group(view, 1) == g || (g >= groups@.len() && first_group(view, 1) == 0));
    let whole = if groups.len() > 0 {
        match &groups[0] {
            Some(t) => t.clone(),
            None => String::new(),
        }
    } else {
        String::new()
    };
    assert(whole@ == group_text(view, 0));
    if g >= groups.len() {
        return Err(LexError::Unrecognized(whole));
    }
    let text = match &groups[g] {
        Some(t) => t.clone(),
        None => String::new(),
    };
    assert(text@ == group_text(view, g as int));
    if g == 1 {
        Ok(Token::Println)
    } else if g == 2 {
        match keyword_of(&text) {
            Some(k) => Ok(k),
            None => Ok(Token::Identifier(text)),
        }
    } else if g == 3 {
        Ok(Token::Text(text))
    } else if g == 4 {
        match parse_decimal(&text) {
            Some(v) => Ok(Token::Number(v)),
            None => Err(LexError::BadNumber(text)),
        }
    } else if g == 5 {
        Ok(Token::Delimiter)
    } else if g == 6 {
        Ok(Token::OpBrace)
    } else if g == 7 {
        Ok(Token::ClBrace)
    } else if g == 8 {
        Ok(Token::OpBracket)
    } else if g == 9 {
        Ok(Token::ClBracket)
    } else if g == 10 {
        Ok(Token::OpParethesis)
    } else if g == 11 {
        Ok(Token::ClParethesis)
    } else if g == 12 {
        Ok(Token::Comma)
    } else if g == 13 {
        Ok(Token::Dot)
    } else if g == 14 {
        match operator_of(&text) {
            Some(t) => Ok(t),
            None => Err(LexError::Unrecognized(whole)),
        }
    } else {
        Err(LexError::Unrecognized(whole))
    }
}

/// Whether one match of the token pattern gives an error rather than a token.
pub open spec fn capture_fails(groups: Seq<Option<Seq<char>>>) -> bool {
    let g = first_group(groups, 1);
    let text = group_text(groups, g);
    !(1 <= g <= 3 || (g == 4 && is_i64_decimal(text)) || 5 <= g <= 13
        || (g == 14 && operator(text) is Some))
}

/// `r` is what the matches `caps` give: the token of each, in order, where
/// none fails; otherwise the error of the first that fails.
pub open spec fn lexes_all(caps: Seq<Seq<Option<Seq<char>>>>, r: Result<Vec<Token>, LexError>) -> bool {
    match r {
        Ok(v) => v@.len() == caps.len()
            && forall|i: int| 0 <= i < caps.len() ==> !capture_fails(#[trigger] caps[i])
                && lexes_to(caps[i], Ok(v@[i])),
        Err(e) => exists|i: int| 0 <= i < caps.len() && #[trigger] capture_fails(caps[i])
            && lexes_to(caps[i], Err(e))
            && forall|j: int| 0 <= j < i ==> !capture_fails(#[trigger] caps[j]),
    }
}

proof fn lemma_fails_iff_err(groups: Seq<Option<Seq<char>>>, r: Result<Token, LexError>)
    requires
        lexes_to(groups, r),
    ensures
        capture_fails(groups) <==> r is Err,
{
    let g = first_group(groups, 1);
    let text = group_text(groups, g);
    if g == 2 {
        if keyword(text) is Some {
            assert(r is Ok);
        }
    }
}

/// The tokens that the matches `caps` of the token pattern give, or the
/// error of the first match that gives none.
pub fn tokens_from_captures(caps: &Vec<Vec<Option<String>>>) -> (r: Result<Vec<Token>, LexError>)
    ensures
        lexes_all(groups_view(*caps), r),
{
    let ghost view = groups_view(*caps);
    let mut tokens: Vec<Token> = Vec::new();
    let mut i: usize = 0;
    while i < caps.len()
        invariant
            view == groups_view(*caps),
            view.len() == caps@.len(),
            i <= caps@.len(),
            tokens@.len() == i,
            forall|k: int| 0 <= k < i ==> !capture_fails(#[trigger] view[k])
                && lexes_to(view[k], Ok(tokens@[k])),
        decreases caps@.len() - i,
    {
        let t = token_of_capture(&caps[i]);
        assert(capture_view(caps@[i as int]) == view[i as int]);
        proof {
            lemma_fails_iff_err(view[i as int], t);
        }
        match t {
            Ok(t) => {
                tokens.push(t);
            },
            Err(e) => {
                assert(capture_fails(view[i as int]));
                return Err(e);
            },
        }
        i = i + 1;
    }
    Ok(tokens)
}

/// Tokenizes source text: comments are removed, then the rest is split into
/// tokens, keywords being told from identifiers.
pub fn tokenize(input: &str) -> (r: Result<Vec<Token>, LexError>)
    ensures
        r matches Err(LexError::BadPattern) <==> !(pattern_compiles(COMMENT_PATTERN@)
            && pattern_compiles(TOKEN_PATTERN@)),
        !(r matches Err(LexError::BadPattern)) ==> lexes_all(
            capture_groups_of(TOKEN_PATTERN@, without_matches(COMMENT_PATTERN@, input@)),
            r,
        ),
{
    let text = match remove_matches(COMMENT_PATTERN, input) {
        Some(text) => text,
        None => {
            return Err(LexError::BadPattern);
        },
    };
    let caps = match capture_groups(TOKEN_PATTERN, text.as_str()) {
        Some(caps) => caps,
        None => {
            return Err(LexError::BadPattern);
        },
    };
    tokens_from_captures(&caps)
}

} // verus!
