use vstd::prelude::*;

verus! {

/// A lexical token of a calculator line.
pub enum Token {
    /// A decimal literal, as written: digits, optionally a point and more digits.
    Number(String),
    /// A name: a letter followed by letters and digits.
    Ident(String),
    Plus,
    Minus,
    Star,
    Slash,
    Caret,
    LParen,
    RParen,
    Equals,
}

/// The mathematical value of a token.
pub enum TokenView {
    Number(Seq<char>),
    Ident(Seq<char>),
    Plus,
    Minus,
    Star,
    Slash,
    Caret,
    LParen,
    RParen,
    Equals,
}

impl View for Token {
    type V = TokenView;

    open spec fn view(&self) -> TokenView {
        match self {
            Token::Number(s) => TokenView::Number(s@),
            Token::Ident(s) => TokenView::Ident(s@),
            Token::Plus => TokenView::Plus,
            Token::Minus => TokenView::Minus,
            Token::Star => TokenView::Star,
            Token::Slash => TokenView::Slash,
            Token::Caret => TokenView::Caret,
            Token::LParen => TokenView::LParen,
            Token::RParen => TokenView::RParen,
            Token::Equals => TokenView::Equals,
        }
    }
}

/// Why a line could not be read as a statement.
#[derive(Clone, Copy, PartialEq, Eq, Debug)]
pub enum SyntaxError {
    /// A character that starts no token, at this character index.
    InvalidCharacter(usize),
    /// A decimal point not followed by a digit, at this character index.
    MalformedNumber(usize),
    /// A token that the grammar does not allow here, at this token index.
    UnexpectedToken(usize),
    /// The line ended where the grammar needs more.
    UnexpectedEnd,
    /// The line has more than `MAX_TOKENS` tokens.
    TooLong,
}

pub open spec fn views(ts: Seq<Token>) -> Seq<TokenView> {
    ts.map_values(|t: Token| t@)
}

pub open spec fn is_digit(c: char) -> bool {
    '0' <= c && c <= '9'
}

pub open spec fn is_letter(c: char) -> bool {
    ('a' <= c && c <= 'z') || ('A' <= c && c <= 'Z')
}

pub open spec fn is_blank(c: char) -> bool {
    c == ' ' || c == '\t' || c == '\n' || c == '\r'
}

/// The token of a one-character operator or punctuation mark.
pub open spec fn symbol(c: char) -> Option<TokenView> {
    if c == '+' {
        Some(TokenView::Plus)
    } else if c == '-' {
        Some(TokenView::Minus)
    } else if c == '*' {
        Some(TokenView::Star)
    } else if c == '/' {
        Some(TokenView::Slash)
    } else if c == '^' {
        Some(TokenView::Caret)
    } else if c == '(' {
        Some(TokenView::LParen)
    } else if c == ')' {
        Some(TokenView::RParen)
    } else if c == '=' {
        Some(TokenView::Equals)
    } else {
        None
    }
}

/// The end of the longest run of letters and digits in `s` from `i` on.
pub open spec fn word_end(s: Seq<char>, i: int) -> int
    decreases s.len() - i,
{
    if 0 <= i < s.len() && (is_letter(s[i]) || is_digit(s[i])) {
        word_end(s, i + 1)
    } else {
        i
    }
}

/// The end of the longest run of digits in `s` from `i` on.
pub open spec fn digits_end(s: Seq<char>, i: int) -> int
    decreases s.len() - i,
{
    if 0 <= i < s.len() && is_digit(s[i]) {
        digits_end(s, i + 1)
    } else {
        i
    }
}

/// The end of the number literal that starts at `i`: digits, then optionally
/// a point that must be followed by digits. `None` for a point with no digit.
pub open spec fn number_end(s: Seq<char>, i: int) -> Option<int> {
    let j = digits_end(s, i);
    if 0 <= j < s.len() && s[j] == '.' {
        let k = digits_end(s, j + 1);
        if k > j + 1 {
            Some(k)
        } else {
            None
        }
    } else {
        Some(j)
    }
}

/// `rest` with `head` in front, where `rest` did not fail.
pub open spec fn prepend(head: Seq<TokenView>, rest: Option<Seq<TokenView>>) -> Option<Seq<TokenView>> {
    match rest {
        Some(t) => Some(head + t),
        None => None,
    }
}

/// The tokens of `s` from index `i` on: blanks separate tokens, names and
/// numbers take the longest run they can, and any other character fails.
pub open spec fn lex_from(s: Seq<char>, i: int) -> Option<Seq<TokenView>>
    decreases s.len() - i,
{
    if i < 0 || i >= s.len() {
        Some(Seq::empty())
    } else if is_blank(s[i]) {
        lex_from(s, i + 1)
    } else if is_letter(s[i]) {
        let j = word_end(s, i);
        if i < j <= s.len() {
            prepend(seq![TokenView::Ident(s.subrange(i, j))], lex_from(s, j))
        } else {
            None
        }
    } else if is_digit(s[i]) {
        match number_end(s, i) {
            Some(j) => if i < j <= s.len() {
                prepend(seq![TokenView::Number(s.subrange(i, j))], lex_from(s, j))
            } else {
                None
            },
            None => None,
        }
    } else {
        match symbol(s[i]) {
            Some(t) => prepend(seq![t], lex_from(s, i + 1)),
            None => None,
        }
    }
}

/// The tokens of a whole line, or `None` where it holds a character that
/// starts no token or a malformed number.
pub open spec fn lex(s: Seq<char>) -> Option<Seq<TokenView>> {
    lex_from(s, 0)
}

proof fn lemma_word_end_bounds(s: Seq<char>, i: int)
    requires
        0 <= i <= s.len(),
    ensures
        i <= word_end(s, i) <= s.len(),
    decreases s.len() - i,
{
    if i < s.len() && (is_letter(s[i]) || is_digit(s[i])) {
        lemma_word_end_bounds(s, i + 1);
    }
}

proof fn lemma_digits_end_bounds(s: Seq<char>, i: int)
    requires
        0 <= i <= s.len(),
    ensures
        i <= digits_end(s, i) <= s.len(),
    decreases s.len() - i,
{
    if i < s.len() && is_digit(s[i]) {
        lemma_digits_end_bounds(s, i + 1);
    }
}

fn is_digit_char(c: char) -> (r: bool)
    ensures
        r == is_digit(c),
{
    '0' <= c && c <= '9'
}

fn is_letter_char(c: char) -> (r: bool)
    ensures
        r == is_letter(c),
{
    ('a' <= c && c <= 'z') || ('A' <= c && c <= 'Z')
}

fn is_blank_char(c: char) -> (r: bool)
    ensures
        r == is_blank(c),
{
    c == ' ' || c == '\t' || c == '\n' || c == '\r'
}

fn symbol_token(c: char) -> (r: Option<Token>)
    ensures
        match r {
            Some(t) => symbol(c) == Some(t@),
            None => symbol(c) is None,
        },
{
    if c == '+' {
        Some(Token::Plus)
    } else if c == '-' {
        Some(Token::Minus)
    } else if c == '*' {
        Some(Token::Star)
    } else if c == '/' {
        Some(Token::Slash)
    } else if c == '^' {
        Some(Token::Caret)
    } else if c == '(' {
        Some(Token::LParen)
    } else if c == ')' {
        Some(Token::RParen)
    } else if c == '=' {
        Some(Token::Equals)
    } else {
        None
    }
}

/// The end of the run of letters and digits of `text` from `i` on.
fn scan_word(text: &str, n: usize, i: usize) -> (j: usize)
    requires
        n == text@.len(),
        i <= n,
    ensures
        j == word_end(text@, i as int),
        i <= j <= n,
{
    let mut j: usize = i;
    while j < n && (is_letter_char(text.get_char(j)) || is_digit_char(text.get_char(j)))
        invariant
            n == text@.len(),
            i <= j <= n,
            word_end(text@, i as int) == word_end(text@, j as int),
        decreases n - j,
    {
        j = j + 1;
    }
    j
}

/// The end of the run of digits of `text` from `i` on.
fn scan_digits(text: &str, n: usize, i: usize) -> (j: usize)
    requires
        n == text@.len(),
        i <= n,
    ensures
        j == digits_end(text@, i as int),
        i <= j <= n,
{
    let mut j: usize = i;
    while j < n && is_digit_char(text.get_char(j))
        invariant
            n == text@.len(),
            i <= j <= n,
            digits_end(text@, i as int) == digits_end(text@, j as int),
        decreases n - j,
    {
        j = j + 1;
    }
    j
}

/// Splits a line into tokens. Fails exactly where `lex` does, and otherwise
/// returns the tokens that `lex` gives.
pub fn tokenize(text: &str) -> (r: Result<Vec<Token>, SyntaxError>)
    ensures
        match r {
            Ok(ts) => lex(text@) == Some(views(ts@)),
            Err(_) => lex(text@) is None,
        },
{
    let n = text.unicode_len();
    let ghost s = text@;
    let mut out: Vec<Token> = Vec::new();
    let mut i: usize = 0;
    while i < n
        invariant
            n == s.len(),
            s == text@,
            i <= n,
            lex(s) == prepend(views(out@), lex_from(s, i as int)),
        decreases n - i,
    {
        let c = text.get_char(i);
        if is_blank_char(c) {
            i = i + 1;
        } else if is_letter_char(c) {
            let j = scan_word(text, n, i);
            proof {
                lemma_word_end_bounds(s, i + 1);
            }
            let name = String::from_str(text.substring_char(i, j));
            let ghost before = views(out@);
            out.push(Token::Ident(name));
            proof {
                assert(views(out@) =~= before + seq![TokenView::Ident(s.subrange(i as int, j as int))]);
                match lex_from(s, j as int) {
                    Some(t) => {
                        assert(before + (seq![TokenView::Ident(s.subrange(i as int, j as int))] + t)
                            =~= views(out@) + t);
                    },
                    None => {},
                }
            }
            i = j;
        } else if is_digit_char(c) {
            let j = scan_digits(text, n, i);
            proof {
                lemma_digits_end_bounds(s, i + 1);
            }
            let mut k: usize = j;
            if j < n && text.get_char(j) == '.' {
                k = scan_digits(text, n, j + 1);
                if k == j + 1 {
                    return Err(SyntaxError::MalformedNumber(j));
                }
            }
            let lit = String::from_str(text.substring_char(i, k));
            let ghost before = views(out@);
            out.push(Token::Number(lit));
            proof {
                assert(number_end(s, i as int) == Some(k as int));
                assert(views(out@) =~= before + seq![TokenView::Number(s.subrange(i as int, k as int))]);
                match lex_from(s, k as int) {
                    Some(t) => {
                        assert(before + (seq![TokenView::Number(s.subrange(i as int, k as int))] + t)
                            =~= views(out@) + t);
                    },
                    None => {},
                }
            }
            i = k;
        } else {
            match symbol_token(c) {
                Some(t) => {
                    let ghost before = views(out@);
                    let ghost tv = t@;
                    out.push(t);
                    proof {
                        assert(views(out@) =~= before + seq![tv]);
                        match lex_from(s, i + 1) {
                            Some(rest) => {
                                assert(before + (seq![tv] + rest) =~= views(out@) + rest);
                            },
                            None => {},
                        }
                    }
                    i = i + 1;
                },
                None => {
                    return Err(SyntaxError::InvalidCharacter(i));
                },
            }
        }
    }
    proof {
        assert(views(out@) + Seq::<TokenView>::empty() =~= views(out@));
    }
    Ok(out)
}

} // verus!
