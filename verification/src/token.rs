//! The lexical token vocabulary: fixed punctuation and operator markers,
//! keyword markers, and literal-carrying variants.
//!
//! A token is immutable once produced. Equality is structural: two tokens are
//! equal exactly when they are the same variant and, for literal variants,
//! carry equal payloads. A separate "same shape" comparison ignores payloads
//! and is what the grammar uses for lookahead checks.

use crate::lexer::TokenStream;
use vstd::prelude::*;
use vstd::string::StrSliceExecFns;

verus! {

/// A classified minimal lexical unit produced by the scanner.
///
/// The `Number` variant carries the literal's source text (a maximal run of
/// decimal digits with at most one embedded `.`); converting that text to a
/// machine float is left to downstream consumers of the token stream.
#[derive(Debug, Clone)]
pub enum Token {
    Skip,
    LeftParen,
    RightParen,
    LeftBrace,
    RightBrace,
    LineDelim,
    Comma,
    Dot,
    Minus,
    Plus,
    Slash,
    Star,
    Neg,
    NegEqual,
    Equal,
    DoubleEqual,
    Greater,
    GreaterEqual,
    Less,
    LessEqual,
    Let,
    If,
    Else,
    Loop,
    Return,
    EOF,
    Ident(String),
    Number(String),
    Str(String),
}

/// The mathematical value of a [`Token`]: the same tag, with literal payloads
/// abstracted to their character sequences.
pub enum TokenView {
    Skip,
    LeftParen,
    RightParen,
    LeftBrace,
    RightBrace,
    LineDelim,
    Comma,
    Dot,
    Minus,
    Plus,
    Slash,
    Star,
    Neg,
    NegEqual,
    Equal,
    DoubleEqual,
    Greater,
    GreaterEqual,
    Less,
    LessEqual,
    Let,
    If,
    Else,
    Loop,
    Return,
    EOF,
    Ident(Seq<char>),
    Number(Seq<char>),
    Str(Seq<char>),
}

impl View for Token {
    type V = TokenView;

    open spec fn view(&self) -> TokenView {
        match self {
            Token::Skip => TokenView::Skip,
            Token::LeftParen => TokenView::LeftParen,
            Token::RightParen => TokenView::RightParen,
            Token::LeftBrace => TokenView::LeftBrace,
            Token::RightBrace => TokenView::RightBrace,
            Token::LineDelim => TokenView::LineDelim,
            Token::Comma => TokenView::Comma,
            Token::Dot => TokenView::Dot,
            Token::Minus => TokenView::Minus,
            Token::Plus => TokenView::Plus,
            Token::Slash => TokenView::Slash,
            Token::Star => TokenView::Star,
            Token::Neg => TokenView::Neg,
            Token::NegEqual => TokenView::NegEqual,
            Token::Equal => TokenView::Equal,
            Token::DoubleEqual => TokenView::DoubleEqual,
            Token::Greater => TokenView::Greater,
            Token::GreaterEqual => TokenView::GreaterEqual,
            Token::Less => TokenView::Less,
            Token::LessEqual => TokenView::LessEqual,
            Token::Let => TokenView::Let,
            Token::If => TokenView::If,
            Token::Else => TokenView::Else,
            Token::Loop => TokenView::Loop,
            Token::Return => TokenView::Return,
            Token::EOF => TokenView::EOF,
            Token::Ident(s) => TokenView::Ident(s@),
            Token::Number(s) => TokenView::Number(s@),
            Token::Str(s) => TokenView::Str(s@),
        }
    }
}

/// The mathematical values of a sequence of tokens.
pub open spec fn views_of(ts: Seq<Token>) -> Seq<TokenView> {
    ts.map_values(|t: Token| t@)
}

/// Appending a token to a sequence appends its value.
pub broadcast proof fn lemma_views_of_push(ts: Seq<Token>, t: Token)
    ensures
        #[trigger] views_of(ts.push(t)) == views_of(ts) + seq![t@],
{
    assert(views_of(ts.push(t)) =~= views_of(ts) + seq![t@]);
}

/// The numeric tag of a token value, used to compare shapes while ignoring
/// literal payloads.
pub open spec fn spec_tag(t: TokenView) -> int {
    match t {
        TokenView::Skip => 0,
        TokenView::LeftParen => 1,
        TokenView::RightParen => 2,
        TokenView::LeftBrace => 3,
        TokenView::RightBrace => 4,
        TokenView::LineDelim => 5,
        TokenView::Comma => 6,
        TokenView::Dot => 7,
        TokenView::Minus => 8,
        TokenView::Plus => 9,
        TokenView::Slash => 10,
        TokenView::Star => 11,
        TokenView::Neg => 12,
        TokenView::NegEqual => 13,
        TokenView::Equal => 14,
        TokenView::DoubleEqual => 15,
        TokenView::Greater => 16,
        TokenView::GreaterEqual => 17,
        TokenView::Less => 18,
        TokenView::LessEqual => 19,
        TokenView::Let => 20,
        TokenView::If => 21,
        TokenView::Else => 22,
        TokenView::Loop => 23,
        TokenView::Return => 24,
        TokenView::EOF => 25,
        TokenView::Ident(_) => 26,
        TokenView::Number(_) => 27,
        TokenView::Str(_) => 28,
    }
}

/// Two token values have the same shape when they are the same variant,
/// whatever their payloads.
pub open spec fn same_shape(a: TokenView, b: TokenView) -> bool {
    spec_tag(a) == spec_tag(b)
}

impl Token {
    /// The numeric tag of this token; equal tags mean equal variants.
    pub fn tag(&self) -> (k: u8)
        ensures
            k as int == spec_tag(self@),
    {
        match self {
            Token::Skip => 0,
            Token::LeftParen => 1,
            Token::RightParen => 2,
            Token::LeftBrace => 3,
            Token::RightBrace => 4,
            Token::LineDelim => 5,
            Token::Comma => 6,
            Token::Dot => 7,
            Token::Minus => 8,
            Token::Plus => 9,
            Token::Slash => 10,
            Token::Star => 11,
            Token::Neg => 12,
            Token::NegEqual => 13,
            Token::Equal => 14,
            Token::DoubleEqual => 15,
            Token::Greater => 16,
            Token::GreaterEqual => 17,
            Token::Less => 18,
            Token::LessEqual => 19,
            Token::Let => 20,
            Token::If => 21,
            Token::Else => 22,
            Token::Loop => 23,
            Token::Return => 24,
            Token::EOF => 25,
            Token::Ident(_) => 26,
            Token::Number(_) => 27,
            Token::Str(_) => 28,
        }
    }
}

impl Token {
    fn eq_impl(&self, other: &Token) -> (r: bool)
        ensures
            r == (self@ == other@),
    {
        if self.tag() != other.tag() {
            proof {
                assert(self@ != other@) by {
                    if self@ == other@ {
                        assert(spec_tag(self@) == spec_tag(other@));
                    }
                }
            }
            false
        } else {
            match (self, other) {
                (Token::Ident(a), Token::Ident(b)) => *a == *b,
                (Token::Number(a), Token::Number(b)) => *a == *b,
                (Token::Str(a), Token::Str(b)) => *a == *b,
                _ => {
                    proof {
                        assert(self@ == other@) by {
                            assert(spec_tag(self@) == spec_tag(other@));
                        }
                    }
                    true
                },
            }
        }
    }
}

impl PartialEq for Token {
    /// Structural equality: same variant and, for literal variants, equal
    /// payload text.
    fn eq(&self, other: &Token) -> (r: bool) {
        self.eq_impl(other)
    }
}

impl vstd::std_specs::cmp::PartialEqSpecImpl for Token {
    open spec fn obeys_eq_spec() -> bool {
        true
    }

    open spec fn eq_spec(&self, other: &Token) -> bool {
        self@ == other@
    }
}

/// True when the stream's next token equals the expected one, payload
/// included; false when the stream is exhausted.
pub fn next_is_equal_to(tokens_iter: &TokenStream<'_>, expected: &Token) -> (r: bool)
    requires
        tokens_iter.wf(),
    ensures
        r == (tokens_iter.remaining().len() > 0 && tokens_iter.remaining()[0] == expected@),
{
    match tokens_iter.peek() {
        Some(token) => *token == *expected,
        None => false,
    }
}

/// True when the stream's next token has the same shape as the expected one,
/// whatever the payloads; false when the stream is exhausted.
pub fn next_is_of_type(tokens_iter: &TokenStream<'_>, expected: &Token) -> (r: bool)
    requires
        tokens_iter.wf(),
    ensures
        r == (tokens_iter.remaining().len() > 0 && same_shape(
            tokens_iter.remaining()[0],
            expected@,
        )),
{
    match tokens_iter.peek() {
        Some(token) => token.tag() == expected.tag(),
        None => false,
    }
}

/// The fixed keyword table: the spelling of each keyword marker.
pub open spec fn spec_match_lexem(s: Seq<char>) -> Option<TokenView> {
    if s == "let"@ {
        Some(TokenView::Let)
    } else if s == "if"@ {
        Some(TokenView::If)
    } else if s == "else"@ {
        Some(TokenView::Else)
    } else if s == "loop"@ {
        Some(TokenView::Loop)
    } else if s == "return"@ {
        Some(TokenView::Return)
    } else {
        None
    }
}

impl Token {
    /// Looks the given spelling up in the fixed keyword table; a keyword
    /// marker comes back for `let`, `if`, `else`, `loop` and `return`, and
    /// nothing for any other spelling.
    pub fn match_lexem(lexem: &str) -> (r: Option<Token>)
        ensures
            match r {
                Some(t) => spec_match_lexem(lexem@) == Some(t@),
                None => spec_match_lexem(lexem@) is None,
            },
    {
        proof {
            reveal_strlit("let");
            reveal_strlit("if");
            reveal_strlit("else");
            reveal_strlit("loop");
            reveal_strlit("return");
        }
        let n = lexem.unicode_len();
        if n == 3 {
            if lexem.get_char(0) == 'l' && lexem.get_char(1) == 'e' && lexem.get_char(2) == 't' {
                proof {
                    assert(lexem@ =~= "let"@);
                }
                Some(Token::Let)
            } else {
                None
            }
        } else if n == 2 {
            if lexem.get_char(0) == 'i' && lexem.get_char(1) == 'f' {
                proof {
                    assert(lexem@ =~= "if"@);
                }
                Some(Token::If)
            } else {
                None
            }
        } else if n == 4 {
            if lexem.get_char(0) == 'e' && lexem.get_char(1) == 'l' && lexem.get_char(2) == 's'
                && lexem.get_char(3) == 'e' {
                proof {
                    assert(lexem@ =~= "else"@);
                }
                Some(Token::Else)
            } else if lexem.get_char(0) == 'l' && lexem.get_char(1) == 'o' && lexem.get_char(2)
                == 'o' && lexem.get_char(3) == 'p' {
                proof {
                    assert(lexem@ =~= "loop"@);
                }
                Some(Token::Loop)
            } else {
                None
            }
        } else if n == 6 {
            if lexem.get_char(0) == 'r' && lexem.get_char(1) == 'e' && lexem.get_char(2) == 't'
                && lexem.get_char(3) == 'u' && lexem.get_char(4) == 'r' && lexem.get_char(5)
                == 'n' {
                proof {
                    assert(lexem@ =~= "return"@);
                }
                Some(Token::Return)
            } else {
                None
            }
        } else {
            None
        }
    }
}

} // verus!
