use fglang::ast::errors::AstError;
use fglang::ast::{Expression, Program, Statement};
use fglang::lexer::Lexer;
use fglang::token::Token;

#[test]
fn ast_test() {}

#[test]
fn end_to_end_let_statement() {
    let mut lexer = Lexer::new();
    lexer.scan("let b = \"hi\"\n".as_bytes()).unwrap();

    let expected = vec![
        Token::Let,
        Token::Ident("b".to_string()),
        Token::Equal,
        Token::Str("hi".to_string()),
        Token::LineDelim,
        Token::EOF,
    ];
    assert_eq!(lexer.tokens.len(), expected.len());
    for (a, b) in lexer.tokens.iter().zip(expected.iter()) {
        assert!(a == b);
    }

    let mut token_iter = lexer.into_iter();
    let program = Program::create_ast(&mut token_iter).unwrap();
    assert_eq!(program.statements.len(), 1);
    match &program.statements[0] {
        Statement::Let { ident, exp } => {
            assert_eq!(ident, "b");
            match exp {
                Expression::Str(s) => assert_eq!(s, "hi"),
                _ => panic!("expected a string expression"),
            }
        }
        _ => panic!("expected a let statement"),
    }
}

#[test]
fn malformed_let_rejected() {
    let mut lexer = Lexer::new();
    lexer.tokens = vec![Token::Let, Token::Equal, Token::EOF];
    let mut token_iter = lexer.into_iter();
    assert_eq!(
        Program::create_ast(&mut token_iter).err(),
        Some(AstError::LetStmt)
    );
}

#[test]
fn unrecognized_statement_rejected() {
    let mut lexer = Lexer::new();
    lexer.tokens = vec![Token::Equal, Token::EOF];
    let mut token_iter = lexer.into_iter();
    assert_eq!(
        Program::create_ast(&mut token_iter).err(),
        Some(AstError::General)
    );
}

#[test]
fn let_without_expression_rejected() {
    let mut lexer = Lexer::new();
    lexer.tokens = vec![
        Token::Let,
        Token::Ident("x".to_string()),
        Token::Equal,
        Token::EOF,
    ];
    let mut token_iter = lexer.into_iter();
    assert_eq!(
        Program::create_ast(&mut token_iter).err(),
        Some(AstError::Expression)
    );
}

#[test]
fn empty_statements_are_discarded() {
    let mut lexer = Lexer::new();
    lexer.scan(";;\n\nlet a = \"x\";;let b = \"y\"\n".as_bytes()).unwrap();
    let mut token_iter = lexer.into_iter();
    let program = Program::create_ast(&mut token_iter).unwrap();
    assert_eq!(program.statements.len(), 2);
    match &program.statements[1] {
        Statement::Let { ident, exp } => {
            assert_eq!(ident, "b");
            match exp {
                Expression::Str(s) => assert_eq!(s, "y"),
                _ => panic!("expected a string expression"),
            }
        }
        _ => panic!("expected a let statement"),
    }
}

#[test]
fn empty_stream_is_an_empty_program() {
    let mut lexer = Lexer::new();
    lexer.scan(&[]).unwrap();
    let mut token_iter = lexer.into_iter();
    let program = Program::create_ast(&mut token_iter).unwrap();
    assert_eq!(program.statements.len(), 0);
}

#[test]
fn error_descriptions() {
    assert_eq!(AstError::LetStmt.to_string(), "parsing Let statement");
    assert_eq!(AstError::Expression.to_string(), "general error");
    assert_eq!(AstError::General.to_string(), "general error");
}
