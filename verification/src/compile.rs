//! Compiling a source text: lexing, then parsing, collecting the errors of both.

use vstd::prelude::*;
use crate::token::Token;
use crate::lexer::{Lexer, tokens_view};
use crate::lexer_spec::lex_source;
use crate::parser::Parser;
use crate::parser_spec::{sp_parse, initial_parse_state};
use crate::ast::{Ast, decls_m};
use crate::error::{CompilerError, LexerError, ParserError, ParserErrorM};

verus! {

/// What a compilation produced: the tokens and the AST where they were asked
/// for, and the errors found.
pub struct CompileResultData {
    pub tokens: Option<Vec<Token>>,
    pub ast: Option<Ast>,
    pub errors: Vec<CompilerError>,
}

impl CompileResultData {
    /// A result with nothing in it.
    pub fn new() -> (r: Self)
        ensures
            r.tokens is None,
            r.ast is None,
            r.errors@.len() == 0,
    {
        CompileResultData { tokens: None, ast: None, errors: Vec::new() }
    }
}

/// What a compilation is to hand back besides the errors.
pub struct CompilerOptions {
    pub emit_ast: bool,
    pub emit_tokens: bool,
}

impl Default for CompilerOptions {
    fn default() -> (r: Self)
        ensures
            !r.emit_ast,
            !r.emit_tokens,
    {
        CompilerOptions { emit_ast: false, emit_tokens: false }
    }
}

/// The errors of a compilation: the lexer's, in order, then the parser's.
pub open spec fn lists_errors(errors: Seq<CompilerError>, lexer: Seq<LexerError>, parser: Seq<ParserErrorM>) -> bool {
    &&& errors.len() == lexer.len() + parser.len()
    &&& forall|i: int| 0 <= i < lexer.len() ==> #[trigger] errors[i] == CompilerError::LexerError(lexer[i])
    &&& forall|j: int| 0 <= j < parser.len() ==>
        (#[trigger] errors[lexer.len() + j] matches CompilerError::ParserError(e) && e@ == parser[j])
}

/// A copy of each token, in order.
fn copy_tokens(tokens: &Vec<Token>) -> (r: Vec<Token>)
    ensures
        r@ == tokens@,
{
    let mut copy: Vec<Token> = Vec::new();
    let mut i: usize = 0;
    while i < tokens.len()
        invariant
            i <= tokens@.len(),
            copy@ == tokens@.take(i as int),
        decreases tokens@.len() - i,
    {
        copy.push(tokens[i].clone());
        i = i + 1;
        assert(copy@ =~= tokens@.take(i as int));
    }
    assert(tokens@.take(tokens@.len() as int) =~= tokens@);
    copy
}

/// Lexes and parses the text of a program. The tokens and the AST are handed
/// back where `options` asks for them; the errors are the lexer's, then the parser's.
pub fn compile_source(src: &str, options: CompilerOptions) -> (r: CompileResultData)
    requires
        src@.len() < usize::MAX - 1,
    ensures
        sp_parse(initial_parse_state(lex_source(src@)->Some_0.0, false)) is Some,
        ({
            let (tokens, lexed) = lex_source(src@)->Some_0;
            let parsed = sp_parse(initial_parse_state(tokens, false))->Some_0;
            &&& (r.tokens is Some <==> options.emit_tokens)
            &&& (r.tokens matches Some(t) ==> tokens_view(t@) == tokens)
            &&& (r.ast is Some <==> options.emit_ast)
            &&& (r.ast matches Some(a) ==> decls_m(a@) == parsed.ast)
            &&& lists_errors(r.errors@, lexed.errors, parsed.errors)
        }),
{
    let mut meta_data = CompileResultData::new();
    let mut lexer = Lexer::new(src);
    proof { crate::lexer_spec::lemma_lexing_returns(lexer@); }
    let tokens = lexer.tokens();
    let lexer_errors = lexer.errors();
    let mut i: usize = 0;
    while i < lexer_errors.len()
        invariant
            i <= lexer_errors@.len(),
            meta_data.tokens is None,
            meta_data.ast is None,
            meta_data.errors@.len() == i,
            forall|k: int| 0 <= k < i ==> #[trigger] meta_data.errors@[k] == CompilerError::LexerError(lexer_errors@[k]),
        decreases lexer_errors@.len() - i,
    {
        meta_data.errors.push(CompilerError::LexerError(lexer_errors[i]));
        i = i + 1;
    }
    if options.emit_tokens {
        meta_data.tokens = Some(copy_tokens(&tokens));
    }
    proof {
        crate::lexer_spec::lemma_lex_source_returns(src@);
        crate::lexer_spec::lemma_lexed_tokens_carry_text_by_kind(src@);
        crate::parser_laws::lemma_lexed_tokens_carry_texts(tokens_view(tokens@));
        crate::parser_laws::lemma_tokens_fit(tokens_view(tokens@), false);
    }
    let mut parser = Parser::new(tokens, false);
    parser.parse();
    let (ast, parser_errors) = parser.into_parts();
    if options.emit_ast {
        meta_data.ast = Some(ast);
    }
    let ghost n = meta_data.errors@.len();
    let ghost kept_tokens = meta_data.tokens;
    let ghost kept_ast = meta_data.ast;
    let mut j: usize = 0;
    while j < parser_errors.len()
        invariant
            j <= parser_errors@.len(),
            n == lexer_errors@.len(),
            meta_data.errors@.len() == n + j,
            meta_data.tokens == kept_tokens,
            meta_data.ast == kept_ast,
            forall|k: int| 0 <= k < n ==> #[trigger] meta_data.errors@[k] == CompilerError::LexerError(lexer_errors@[k]),
            forall|k: int| 0 <= k < j ==>
                (#[trigger] meta_data.errors@[n + k] matches CompilerError::ParserError(e) && e@ == parser_errors@[k]@),
        decreases parser_errors@.len() - j,
    {
        meta_data.errors.push(CompilerError::ParserError(parser_errors[j].clone()));
        j = j + 1;
    }
    proof {
        let (toks, lexed) = lex_source(src@)->Some_0;
        let parsed = sp_parse(initial_parse_state(toks, false))->Some_0;
        assert(lexed.errors == lexer_errors@);
        assert(crate::parser::errors_m(parser_errors@) == parsed.errors);
        assert forall|j: int| 0 <= j < parsed.errors.len() implies
            (#[trigger] meta_data.errors@[lexer_errors@.len() + j] matches CompilerError::ParserError(e) && e@ == parsed.errors[j]) by {
            assert(crate::parser::errors_m(parser_errors@)[j] == parser_errors@[j]@);
        }
        assert(lists_errors(meta_data.errors@, lexed.errors, parsed.errors));
    }
    meta_data
}

} // verus!
