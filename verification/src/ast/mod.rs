//! The parser: consumes a token sequence through one-token lookahead and
//! produces a [`Program`] — an ordered sequence of statements, each possibly
//! containing nested expressions.
//!
//! Parsing is fail-fast with no statement-level recovery: the first malformed
//! statement aborts the whole parse and returns its error; no partial tree is
//! returned on failure.

pub mod errors;

use crate::ast::errors::AstError;
use crate::lexer::TokenStream;
use crate::token::{next_is_of_type, Token, TokenView};
use vstd::prelude::*;

verus! {

/// A binary operator of the expression grammar.
#[derive(Debug, Clone, Copy)]
pub enum BinaryOp {
    Plus,
    Minus,
    Div,
    Mult,
    Eq,
    Nq,
    More { is_eq: bool },
    Less { is_eq: bool },
}

/// A unary operator of the expression grammar.
#[derive(Debug, Clone, Copy)]
pub enum UnaryOp {
    Plus,
    Minus,
}

/// An expression node. Every subtree is finite and acyclic: child nodes are
/// exclusively owned, built bottom-up and never mutated after construction.
///
/// The number literal carries its source text, as the token it came from
/// does.
#[derive(Debug)]
pub enum Expression {
    Num(String),
    Str(String),
    Bool(bool),
    Var(String),
    Binary { left: Box<Expression>, right: Box<Expression>, op: BinaryOp },
    Unary { exp: Box<Expression>, op: UnaryOp },
    Grouping(Vec<Expression>),
}

/// The mathematical value of an [`Expression`].
pub enum ExpressionView {
    Num(Seq<char>),
    Str(Seq<char>),
    Bool(bool),
    Var(Seq<char>),
    Binary { left: Box<ExpressionView>, right: Box<ExpressionView>, op: BinaryOp },
    Unary { exp: Box<ExpressionView>, op: UnaryOp },
    Grouping(Seq<ExpressionView>),
}

/// The mathematical value of an expression node.
pub open spec fn expr_view(e: Expression) -> ExpressionView
    decreases e,
{
    match e {
        Expression::Num(s) => ExpressionView::Num(s@),
        Expression::Str(s) => ExpressionView::Str(s@),
        Expression::Bool(b) => ExpressionView::Bool(b),
        Expression::Var(s) => ExpressionView::Var(s@),
        Expression::Binary { left, right, op } => ExpressionView::Binary {
            left: Box::new(expr_view(*left)),
            right: Box::new(expr_view(*right)),
            op: op,
        },
        Expression::Unary { exp, op } => ExpressionView::Unary {
            exp: Box::new(expr_view(*exp)),
            op: op,
        },
        Expression::Grouping(es) => ExpressionView::Grouping(expr_views(es@)),
    }
}

/// The mathematical values of a sequence of expression nodes.
pub open spec fn expr_views(es: Seq<Expression>) -> Seq<ExpressionView>
    decreases es,
{
    if es.len() == 0 {
        Seq::empty()
    } else {
        seq![expr_view(es[0])] + expr_views(es.drop_first())
    }
}

impl View for Expression {
    type V = ExpressionView;

    open spec fn view(&self) -> ExpressionView {
        expr_view(*self)
    }
}

/// A statement node: a `let` binding or a `loop` with a condition and a body.
#[derive(Debug)]
pub enum Statement {
    Let { ident: String, exp: Expression },
    Loop { pred: Expression, block: Vec<Statement> },
}

/// The mathematical value of a [`Statement`].
pub enum StatementView {
    Let { ident: Seq<char>, exp: ExpressionView },
    Loop { pred: ExpressionView, block: Seq<StatementView> },
}

/// The mathematical value of a statement node.
pub open spec fn stmt_view(s: Statement) -> StatementView
    decreases s,
{
    match s {
        Statement::Let { ident, exp } => StatementView::Let { ident: ident@, exp: expr_view(exp) },
        Statement::Loop { pred, block } => StatementView::Loop {
            pred: expr_view(pred),
            block: stmt_views(block@),
        },
    }
}

/// The mathematical values of a sequence of statement nodes.
pub open spec fn stmt_views(ss: Seq<Statement>) -> Seq<StatementView>
    decreases ss,
{
    if ss.len() == 0 {
        Seq::empty()
    } else {
        seq![stmt_view(ss[0])] + stmt_views(ss.drop_first())
    }
}

impl View for Statement {
    type V = StatementView;

    open spec fn view(&self) -> StatementView {
        stmt_view(*self)
    }
}

/// An ordered sequence of statements; order is execution order.
#[derive(Debug)]
pub struct Program {
    /// The statements, in input order.
    pub statements: Vec<Statement>,
}

impl View for Program {
    type V = Seq<StatementView>;

    open spec fn view(&self) -> Seq<StatementView> {
        stmt_views(self.statements@)
    }
}

/// The expression rule: the next token must be a string literal, which
/// yields a string expression; anything else — any other token, or an
/// exhausted stream — fails with [`AstError::Expression`]. This is the
/// deliberately narrow slice of the expression grammar; the richer node
/// forms above are its extension points.
pub open spec fn spec_parse_expression(ts: Seq<TokenView>) -> Result<ExpressionView, AstError> {
    if ts.len() > 0 && ts[0] is Str {
        Ok(ExpressionView::Str(ts[0]->Str_0))
    } else {
        Err(AstError::Expression)
    }
}

/// The let-statement rule: `let`, an identifier, `=`, then an expression.
/// A missing or misshapen `let`, identifier or `=` fails with
/// [`AstError::LetStmt`]; a failing expression propagates its own error.
pub open spec fn spec_parse_let(ts: Seq<TokenView>) -> Result<StatementView, AstError> {
    if !(ts.len() >= 1 && ts[0] is Let) {
        Err(AstError::LetStmt)
    } else if !(ts.len() >= 2 && ts[1] is Ident) {
        Err(AstError::LetStmt)
    } else if !(ts.len() >= 3 && ts[2] is Equal) {
        Err(AstError::LetStmt)
    } else {
        match spec_parse_expression(ts.skip(3)) {
            Err(e) => Err(e),
            Ok(exp) => Ok(StatementView::Let { ident: ts[1]->Ident_0, exp }),
        }
    }
}

/// The statement-sequence rule: end-of-stream and line-delimiter tokens are
/// consumed and skipped (empty statements are legal and silently discarded);
/// a `let` token dispatches to the let-statement rule; any other token fails
/// with [`AstError::General`]. The successful let rule consumes exactly four
/// tokens.
pub open spec fn spec_parse(ts: Seq<TokenView>) -> Result<Seq<StatementView>, AstError>
    decreases ts.len(),
{
    if ts.len() == 0 {
        Ok(Seq::empty())
    } else if ts[0] is EOF || ts[0] is LineDelim {
        spec_parse(ts.drop_first())
    } else if ts[0] is Let {
        match spec_parse_let(ts) {
            Err(e) => Err(e),
            Ok(st) => match spec_parse(ts.skip(4)) {
                Err(e) => Err(e),
                Ok(sts) => Ok(seq![st] + sts),
            },
        }
    } else {
        Err(AstError::General)
    }
}

/// A token stream that begins with an equal marker — or any other token that
/// is not a statement head, a separator or the end-of-stream marker — is
/// rejected as an unrecognized statement.
pub proof fn lemma_equal_statement_head_rejected(ts: Seq<TokenView>)
    requires
        ts.len() > 0,
        ts[0] is Equal,
    ensures
        spec_parse(ts) == Err::<Seq<StatementView>, AstError>(AstError::General),
{
}

impl Program {
    /// Parses the whole token stream into a program, consuming it. The first
    /// malformed statement aborts the parse and returns its error.
    pub fn create_ast(token_iter: &mut TokenStream<'_>) -> (r: Result<Program, AstError>)
        requires
            old(token_iter).wf(),
        ensures
            final(token_iter).wf(),
            match spec_parse(old(token_iter).remaining()) {
                Ok(sts) => r is Ok && r->Ok_0@ == sts && final(token_iter).remaining().len() == 0,
                Err(e) => r == Err::<Program, AstError>(e),
            },
    {
        match Self::parse(token_iter) {
            Ok(statements) => Ok(Program { statements }),
            Err(e) => Err(e),
        }
    }

    /// The statement-sequence rule, as a recursive descent over the stream.
    fn parse(token_iter: &mut TokenStream<'_>) -> (r: Result<Vec<Statement>, AstError>)
        requires
            old(token_iter).wf(),
        ensures
            final(token_iter).wf(),
            match spec_parse(old(token_iter).remaining()) {
                Ok(sts) => r is Ok && stmt_views(r->Ok_0@) == sts && final(
                    token_iter
                ).remaining().len() == 0,
                Err(e) => r == Err::<Vec<Statement>, AstError>(e),
            },
        decreases old(token_iter).remaining().len(),
    {
        let peeked = token_iter.peek();
        match peeked {
            None => {
                let statements: Vec<Statement> = Vec::new();
                proof {
                    assert(stmt_views(statements@) =~= Seq::<StatementView>::empty());
                }
                Ok(statements)
            },
            Some(token) => {
                match token {
                    Token::Let => {
                        match Self::parse_stmt_let(token_iter) {
                            Err(e) => Err(e),
                            Ok(stmt) => {
                                match Self::parse(token_iter) {
                                    Err(e) => Err(e),
                                    Ok(mut rest) => {
                                        let ghost rest_view = rest@;
                                        let mut statements: Vec<Statement> = Vec::new();
                                        statements.push(stmt);
                                        statements.append(&mut rest);
                                        proof {
                                            assert(statements@ =~= seq![stmt] + rest_view);
                                            assert((seq![stmt] + rest_view).drop_first()
                                                =~= rest_view);
                                            assert(stmt_views(statements@) == seq![stmt@]
                                                + stmt_views(rest_view));
                                        }
                                        Ok(statements)
                                    },
                                }
                            },
                        }
                    },
                    Token::EOF | Token::LineDelim => {
                        token_iter.next();
                        Self::parse(token_iter)
                    },
                    _ => Err(AstError::General),
                }
            },
        }
    }

    /// The let-statement rule. No trailing delimiter is required here; the
    /// statement-sequence rule consumes delimiters.
    fn parse_stmt_let(tokens_iter: &mut TokenStream<'_>) -> (r: Result<Statement, AstError>)
        requires
            old(tokens_iter).wf(),
        ensures
            final(tokens_iter).wf(),
            match spec_parse_let(old(tokens_iter).remaining()) {
                Ok(st) => r is Ok && r->Ok_0@ == st && final(tokens_iter).remaining() == old(
                    tokens_iter,
                ).remaining().skip(4),
                Err(e) => r == Err::<Statement, AstError>(e),
            },
    {
        if !next_is_of_type(tokens_iter, &Token::Let) {
            return Err(AstError::LetStmt);
        }
        tokens_iter.next();
        let ident = match tokens_iter.next() {
            Some(t) => {
                match t {
                    Token::Ident(name) => name.clone(),
                    _ => {
                        return Err(AstError::LetStmt);
                    },
                }
            },
            None => {
                return Err(AstError::LetStmt);
            },
        };
        if !next_is_of_type(tokens_iter, &Token::Equal) {
            return Err(AstError::LetStmt);
        }
        tokens_iter.next();
        let ghost before_expr = tokens_iter.remaining();
        let expr = match Self::parse_expression(tokens_iter) {
            Ok(e) => e,
            Err(e) => {
                return Err(e);
            },
        };
        proof {
            assert(old(tokens_iter).remaining().skip(1).drop_first() =~= old(
                tokens_iter,
            ).remaining().skip(2));
            assert(old(tokens_iter).remaining().skip(2).drop_first() =~= old(
                tokens_iter,
            ).remaining().skip(3));
            assert(old(tokens_iter).remaining().skip(3).drop_first() =~= old(
                tokens_iter,
            ).remaining().skip(4));
        }
        Ok(Statement::Let { ident, exp: expr })
    }

    /// The expression rule: a string literal token yields a string
    /// expression; nothing else is accepted.
    fn parse_expression(token_iter: &mut TokenStream<'_>) -> (r: Result<Expression, AstError>)
        requires
            old(token_iter).wf(),
        ensures
            final(token_iter).wf(),
            match spec_parse_expression(old(token_iter).remaining()) {
                Ok(exp) => r is Ok && r->Ok_0@ == exp && final(token_iter).remaining() == old(
                    token_iter,
                ).remaining().drop_first(),
                Err(e) => r == Err::<Expression, AstError>(e),
            },
    {
        match token_iter.next() {
            Some(t) => {
                match t {
                    Token::Str(string) => Ok(Expression::Str(string.clone())),
                    _ => Err(AstError::Expression),
                }
            },
            None => Err(AstError::Expression),
        }
    }
}

} // verus!
