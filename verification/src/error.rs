//! The errors of the lexer and the parser, and the diagnostics made of them.

use vstd::prelude::*;
use crate::span::CodeSpan;
use crate::token::{Token, TokenM};

verus! {

/// How grave a diagnostic is.
#[derive(Debug, Clone, Copy, PartialEq, Eq, Structural)]
pub enum Severity {
    Error,
    Warning,
}

/// A message about a place in the source.
#[derive(Debug)]
pub struct Diagnostic {
    pub severity: Severity,
    pub message: String,
    pub span: CodeSpan,
}

/// The errors that the lexer reports.
#[derive(Debug, Clone, Copy, PartialEq, Eq, Structural)]
pub enum LexerError {
    UnterminatedStringLiteral(CodeSpan),
    InvalidCharacter(char, CodeSpan),
    UnknownEscapeCharacter(CodeSpan),
    MultiDecimalPointInNumberLiteral(CodeSpan),
    UnexpectedCharacterLexingNonDecimalNumberLiteral(CodeSpan),
    UnknownToken(CodeSpan),
}

/// The message of a lexer error.
pub open spec fn spec_lexer_message(e: LexerError) -> Seq<char> {
    match e {
        LexerError::UnterminatedStringLiteral(_) => "Unterminated string literal"@,
        LexerError::InvalidCharacter(c, _) => "Invalid character '"@ + seq![c] + "'"@,
        LexerError::UnknownEscapeCharacter(_) => "Unknown escape character"@,
        LexerError::MultiDecimalPointInNumberLiteral(_) => "Multiple decimal points in number literal"@,
        LexerError::UnexpectedCharacterLexingNonDecimalNumberLiteral(_) =>
            "Unexpected character while lexing non-decimal number literal"@,
        LexerError::UnknownToken(_) => "Unknown token encountered"@,
    }
}

/// The span of a lexer error.
pub open spec fn spec_lexer_span(e: LexerError) -> CodeSpan {
    match e {
        LexerError::UnterminatedStringLiteral(s) => s,
        LexerError::InvalidCharacter(_, s) => s,
        LexerError::UnknownEscapeCharacter(s) => s,
        LexerError::MultiDecimalPointInNumberLiteral(s) => s,
        LexerError::UnexpectedCharacterLexingNonDecimalNumberLiteral(s) => s,
        LexerError::UnknownToken(s) => s,
    }
}

/// Appends one character to a string.
#[verifier::external_body]
pub(crate) fn push_char(s: &mut String, c: char)
    ensures
        final(s)@ == old(s)@.push(c),
{
    s.push(c);
}

impl LexerError {
    /// Where in the source the error lies.
    pub fn span(&self) -> (r: CodeSpan)
        ensures
            r == spec_lexer_span(*self),
    {
        match self {
            LexerError::UnterminatedStringLiteral(s) => *s,
            LexerError::InvalidCharacter(_, s) => *s,
            LexerError::UnknownEscapeCharacter(s) => *s,
            LexerError::MultiDecimalPointInNumberLiteral(s) => *s,
            LexerError::UnexpectedCharacterLexingNonDecimalNumberLiteral(s) => *s,
            LexerError::UnknownToken(s) => *s,
        }
    }

    /// The human-readable message of the error.
    pub fn message(&self) -> (r: String)
        ensures
            r@ == spec_lexer_message(*self),
    {
        match self {
            LexerError::UnterminatedStringLiteral(_) => String::from_str("Unterminated string literal"),
            LexerError::InvalidCharacter(c, _) => {
                let mut m = String::from_str("Invalid character '");
                push_char(&mut m, *c);
                m.append("'");
                m
            },
            LexerError::UnknownEscapeCharacter(_) => String::from_str("Unknown escape character"),
            LexerError::MultiDecimalPointInNumberLiteral(_) => String::from_str(
                "Multiple decimal points in number literal",
            ),
            LexerError::UnexpectedCharacterLexingNonDecimalNumberLiteral(_) => String::from_str(
                "Unexpected character while lexing non-decimal number literal",
            ),
            LexerError::UnknownToken(_) => String::from_str("Unknown token encountered"),
        }
    }

    /// The error as a diagnostic of severity `Error`.
    pub fn into_diagnostic(self) -> (r: Diagnostic)
        ensures
            r.severity == Severity::Error,
            r.message@ == spec_lexer_message(self),
            r.span == spec_lexer_span(self),
    {
        Diagnostic { severity: Severity::Error, message: self.message(), span: self.span() }
    }
}

/// The errors that the parser reports.
#[derive(Debug)]
pub enum ParserError {
    UnexpectedToken { msg: String, peeking: Option<Token>, span: CodeSpan },
}

/// What a parser error is: its message, the token it looked at, and where.
pub struct ParserErrorM {
    pub msg: Seq<char>,
    pub peeking: Option<TokenM>,
    pub span: CodeSpan,
}

/// The view of an optional token.
pub open spec fn opt_token_m(t: Option<Token>) -> Option<TokenM> {
    match t {
        Some(t) => Some(t@),
        None => None,
    }
}

impl View for ParserError {
    type V = ParserErrorM;

    open spec fn view(&self) -> ParserErrorM {
        match self {
            ParserError::UnexpectedToken { msg, peeking, span } => ParserErrorM {
                msg: msg@,
                peeking: opt_token_m(*peeking),
                span: *span,
            },
        }
    }
}

/// The parser error with the given message, token and span.
pub open spec fn unexpected(msg: Seq<char>, peeking: Option<TokenM>, span: CodeSpan) -> ParserErrorM {
    ParserErrorM { msg, peeking, span }
}

impl Clone for ParserError {
    fn clone(&self) -> (r: Self)
        ensures
            r == *self,
    {
        match self {
            ParserError::UnexpectedToken { msg, peeking, span } => {
                let peeking = match peeking {
                    Some(t) => Some(t.clone()),
                    None => None,
                };
                ParserError::UnexpectedToken { msg: msg.clone(), peeking, span: *span }
            },
        }
    }
}

impl ParserError {
    /// The error of an unexpected token, with its message.
    pub fn unexpected_token(msg: &str, peeking: Option<Token>, span: CodeSpan) -> (r: Self)
        ensures
            r@ == unexpected(msg@, opt_token_m(peeking), span),
    {
        ParserError::UnexpectedToken { msg: String::from_str(msg), peeking, span }
    }

    /// Where in the source the error lies.
    pub fn span(&self) -> (r: CodeSpan)
        ensures
            r == self@.span,
    {
        match self {
            ParserError::UnexpectedToken { span, .. } => *span,
        }
    }

    /// The message of the error.
    pub fn message(&self) -> (r: String)
        ensures
            r@ == self@.msg,
    {
        match self {
            ParserError::UnexpectedToken { msg, .. } => msg.clone(),
        }
    }

    /// The error as the `Err` of a result.
    pub fn wrap<T>(self) -> (r: Result<T, ParserError>)
        ensures
            r == Err::<T, ParserError>(self),
    {
        Err(self)
    }

    /// The error as a diagnostic of severity `Error`, whose message is the error's message.
    pub fn into_diagnostic(self) -> (r: Diagnostic)
        ensures
            r.severity == Severity::Error,
            r.message@ == self@.msg,
            r.span == self@.span,
    {
        let span = self.span();
        match self {
            ParserError::UnexpectedToken { msg, .. } => Diagnostic { severity: Severity::Error, message: msg, span },
        }
    }
}

#[verifier::external_type_specification]
#[verifier::external_body]
pub struct ExIoError(std::io::Error);

/// The errors of a compilation.
#[derive(Debug)]
pub enum CompilerError {
    ParserError(ParserError),
    LexerError(LexerError),
    FileNotFound(std::io::Error),
}

/// The message of a compilation error.
pub open spec fn spec_compiler_message(e: CompilerError) -> Seq<char> {
    match e {
        CompilerError::ParserError(p) => p@.msg,
        CompilerError::LexerError(l) => spec_lexer_message(l),
        CompilerError::FileNotFound(_) => "File operation failed"@,
    }
}

impl CompilerError {
    /// The message of the error: that of the lexer or parser error it holds,
    /// or that a file operation failed.
    pub fn message(&self) -> (r: String)
        ensures
            r@ == spec_compiler_message(*self),
    {
        match self {
            CompilerError::ParserError(e) => e.message(),
            CompilerError::LexerError(e) => e.message(),
            CompilerError::FileNotFound(_) => String::from_str("File operation failed"),
        }
    }
}

} // verus!
