use fglang::lexer::{Lexer, ScanError};
use fglang::token::{next_is_equal_to, next_is_of_type, Token};

fn vectors_equal(a: &Vec<Token>, b: &Vec<Token>) -> bool {
    if a.len() != b.len() {
        false
    } else {
        a.iter().zip(b.iter()).filter(|&(a, b)| a == b).count() == a.len()
    }
}

#[test]
#[should_panic]
fn test_incomplete_string() {
    let mut lexer = Lexer::new();
    let test_string: &[u8] = "let var1 = \"human".as_bytes();
    lexer.scan(test_string).unwrap();
}

#[test]
fn test_utf8_string() {
    let mut lexer = Lexer::new();
    let test_string: &[u8] = "\"💘💘 YOU LOOK SO CHARMING TODAY 💘💘\"".as_bytes();
    lexer.scan(test_string).unwrap();
    let expected = vec![
        Token::Str("💘💘 YOU LOOK SO CHARMING TODAY 💘💘".to_string()),
        Token::EOF,
    ];

    assert!(vectors_equal(&expected, &lexer.tokens));
}

#[test]
fn test_all_tokens() {
    let mut lexer = Lexer::new();
    let keywords: &[u8] = "let if else loop return ;".as_bytes();
    lexer.scan(keywords).unwrap();
    let expected = vec![
        Token::Let,
        Token::If,
        Token::Else,
        Token::Loop,
        Token::Return,
        Token::LineDelim,
        Token::EOF,
    ];
    assert!(vectors_equal(&expected, &lexer.tokens));

    let mut token_iter = lexer.into_iter();
    for token in &expected {
        assert!(next_is_equal_to(&mut token_iter, &token.clone()));
        token_iter.next().unwrap();
    }

    lexer.clear();
    assert!(vectors_equal(&vec![], &lexer.tokens));

    let maths: &[u8] = "()[]-+/*; math.sqrt([1.5, 2, 3.0])".as_bytes();
    lexer.scan(maths).unwrap();

    let expected = vec![
        Token::LeftParen,
        Token::RightParen,
        Token::LeftBrace,
        Token::RightBrace,
        Token::Minus,
        Token::Plus,
        Token::Slash,
        Token::Star,
        Token::LineDelim,
        Token::Ident("math".to_string()),
        Token::Dot,
        Token::Ident("sqrt".to_string()),
        Token::LeftParen,
        Token::LeftBrace,
        Token::Number("1.5".to_string()),
        Token::Comma,
        Token::Number("2".to_string()),
        Token::Comma,
        Token::Number("3.0".to_string()),
        Token::RightBrace,
        Token::RightParen,
        Token::EOF,
    ];

    assert!(vectors_equal(&expected, &lexer.tokens));

    // The numeric literals carry their source text, from which the values
    // they denote are recovered.
    let values: Vec<f64> = lexer
        .tokens
        .iter()
        .filter_map(|t| match t {
            Token::Number(s) => Some(s.parse::<f64>().unwrap()),
            _ => None,
        })
        .collect();
    assert_eq!(values, vec![1.5, 2.0, 3.0]);
}

#[test]
fn test_value_class_matching() {
    let mut lexer = Lexer::new();

    let expected = vec![
        Token::Ident("math".to_string()),
        Token::Number("24".to_string()),
        Token::Str("Hello world".to_string()),
    ];

    lexer.tokens = expected.clone();
    let mut token_iter = lexer.into_iter();

    for token in &expected {
        assert!(next_is_equal_to(&mut token_iter, &token.clone()));
        token_iter.next().unwrap();
    }

    lexer.tokens = expected.clone();
    let mut token_iter = lexer.into_iter();

    let expected_types = vec![
        Token::Ident("Computer Science".to_string()),
        Token::Number("42".to_string()),
        Token::Str("Hello".to_string()),
    ];
    for token in &expected_types {
        assert!(next_is_of_type(&mut token_iter, &token.clone()));
        token_iter.next().unwrap();
    }
}

#[test]
fn chunk_size_independence() {
    let input: &[u8] = "let b = \"hi 💘\"\nmath.sqrt([1.5, 2])//note\nreturn ==".as_bytes();

    let mut whole = Lexer::new();
    whole.scan(input).unwrap();

    for chunk_size in [1usize, 2, 3, 5, 7, 64] {
        let mut chunked = Lexer::new();
        for chunk in input.chunks(chunk_size) {
            chunked.push_chunk(chunk).unwrap();
        }
        chunked.finish().unwrap();
        assert!(vectors_equal(&whole.tokens, &chunked.tokens));
    }
}

#[test]
fn string_round_trip() {
    let mut lexer = Lexer::new();
    lexer.scan("\"some text + (42)\"".as_bytes()).unwrap();
    let expected = vec![Token::Str("some text + (42)".to_string()), Token::EOF];
    assert!(vectors_equal(&expected, &lexer.tokens));
}

#[test]
fn keyword_identifier_partition() {
    for (word, token) in [
        ("let", Token::Let),
        ("if", Token::If),
        ("else", Token::Else),
        ("loop", Token::Loop),
        ("return", Token::Return),
        ("letx", Token::Ident("letx".to_string())),
        ("math", Token::Ident("math".to_string())),
        ("ifelse", Token::Ident("ifelse".to_string())),
    ] {
        let mut lexer = Lexer::new();
        lexer.scan(word.as_bytes()).unwrap();
        assert!(vectors_equal(&vec![token, Token::EOF], &lexer.tokens));
    }
}

#[test]
fn match_lexem_table() {
    assert_eq!(Token::match_lexem("let"), Some(Token::Let));
    assert_eq!(Token::match_lexem("if"), Some(Token::If));
    assert_eq!(Token::match_lexem("else"), Some(Token::Else));
    assert_eq!(Token::match_lexem("loop"), Some(Token::Loop));
    assert_eq!(Token::match_lexem("return"), Some(Token::Return));
    assert_eq!(Token::match_lexem("letter"), None);
    assert_eq!(Token::match_lexem(""), None);
    assert_eq!(Token::match_lexem("Let"), None);
}

#[test]
fn terminal_token_for_empty_input() {
    let mut lexer = Lexer::new();
    lexer.scan(&[]).unwrap();
    assert!(vectors_equal(&vec![Token::EOF], &lexer.tokens));

    let mut spaces = Lexer::new();
    spaces.scan("  \t ".as_bytes()).unwrap();
    assert!(vectors_equal(&vec![Token::EOF], &spaces.tokens));
}

#[test]
fn incomplete_string_fails_with_unexpected_end() {
    let mut lexer = Lexer::new();
    let r = lexer.scan("let x = \"abc".as_bytes());
    assert_eq!(r, Err(ScanError::UnexpectedEnd));
}

#[test]
fn string_with_embedded_delimiter_fails() {
    let mut lexer = Lexer::new();
    assert_eq!(
        lexer.scan("\"a\nb\"".as_bytes()),
        Err(ScanError::UnexpectedEnd)
    );
    let mut other = Lexer::new();
    assert_eq!(
        other.scan("\"a;b\"".as_bytes()),
        Err(ScanError::UnexpectedEnd)
    );
}

#[test]
fn unrecognized_byte_fails_with_invalid_character() {
    let mut lexer = Lexer::new();
    assert_eq!(lexer.scan("let x = {".as_bytes()), Err(ScanError::InvalidCharacter));
}

#[test]
fn invalid_encoding_is_rejected() {
    // A lone continuation byte starts a word run whose payload is not valid
    // UTF-8; the scanner rejects it rather than substituting characters.
    let mut lexer = Lexer::new();
    assert_eq!(lexer.scan(&[0x80]), Err(ScanError::InvalidCharacter));
}

#[test]
fn comments_are_discarded() {
    let mut lexer = Lexer::new();
    lexer.scan("let//all of this goes;()\nx".as_bytes()).unwrap();
    let expected = vec![
        Token::Let,
        Token::LineDelim,
        Token::Ident("x".to_string()),
        Token::EOF,
    ];
    assert!(vectors_equal(&expected, &lexer.tokens));

    // A comment still open when input ends simply ends with it.
    let mut tail = Lexer::new();
    tail.scan("5//trailing".as_bytes()).unwrap();
    assert!(vectors_equal(
        &vec![Token::Number("5".to_string()), Token::EOF],
        &tail.tokens
    ));
}

#[test]
fn slash_without_comment_is_a_token() {
    let mut lexer = Lexer::new();
    lexer.scan("6/2".as_bytes()).unwrap();
    let expected = vec![
        Token::Number("6".to_string()),
        Token::Slash,
        Token::Number("2".to_string()),
        Token::EOF,
    ];
    assert!(vectors_equal(&expected, &lexer.tokens));

    let mut trailing = Lexer::new();
    trailing.scan("/".as_bytes()).unwrap();
    assert!(vectors_equal(&vec![Token::Slash, Token::EOF], &trailing.tokens));
}

#[test]
fn equal_lookahead() {
    let mut lexer = Lexer::new();
    lexer.scan("==".as_bytes()).unwrap();
    assert!(vectors_equal(&vec![Token::DoubleEqual, Token::EOF], &lexer.tokens));

    let mut spaced = Lexer::new();
    spaced.scan("= =".as_bytes()).unwrap();
    assert!(vectors_equal(
        &vec![Token::Equal, Token::Equal, Token::EOF],
        &spaced.tokens
    ));

    let mut reexamined = Lexer::new();
    reexamined.scan("=5".as_bytes()).unwrap();
    assert!(vectors_equal(
        &vec![Token::Equal, Token::Number("5".to_string()), Token::EOF],
        &reexamined.tokens
    ));

    let mut trailing = Lexer::new();
    trailing.scan("=".as_bytes()).unwrap();
    assert!(vectors_equal(&vec![Token::Equal, Token::EOF], &trailing.tokens));
}

#[test]
fn number_with_embedded_dot() {
    let mut lexer = Lexer::new();
    lexer.scan("1.2.3".as_bytes()).unwrap();
    let expected = vec![
        Token::Number("1.2".to_string()),
        Token::Dot,
        Token::Number("3".to_string()),
        Token::EOF,
    ];
    assert!(vectors_equal(&expected, &lexer.tokens));

    let mut leading = Lexer::new();
    leading.scan(".5".as_bytes()).unwrap();
    assert!(vectors_equal(
        &vec![Token::Dot, Token::Number("5".to_string()), Token::EOF],
        &leading.tokens
    ));
}

#[test]
fn chunk_boundary_inside_encoded_character() {
    // 💘 encodes as four bytes; feed them across two chunks.
    let input = "\"💘\"".as_bytes();
    let mut lexer = Lexer::new();
    lexer.push_chunk(&input[..3]).unwrap();
    lexer.push_chunk(&input[3..]).unwrap();
    lexer.finish().unwrap();
    assert!(vectors_equal(
        &vec![Token::Str("💘".to_string()), Token::EOF],
        &lexer.tokens
    ));
}

#[test]
fn word_suspended_across_chunks() {
    let mut lexer = Lexer::new();
    lexer.push_chunk("ret".as_bytes()).unwrap();
    lexer.push_chunk("urn".as_bytes()).unwrap();
    lexer.finish().unwrap();
    assert!(vectors_equal(&vec![Token::Return, Token::EOF], &lexer.tokens));
}
