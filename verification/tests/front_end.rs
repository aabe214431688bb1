use moc::ast::{DeclKind, ExprKind, Ident, ModulePath, StmtKind, TypeExpr, VariantData};
use moc::compile::{compile_source, CompileResultData, CompilerOptions};
use moc::debug_utils::create_indent;
use moc::error::{CompilerError, LexerError, ParserError, Severity};
use moc::lexer::Lexer;
use moc::op::{BinaryOp, UnaryOp};
use moc::parser::{parse_usize, Parser};
use moc::semantic::{SemanticAnalyzer, SymbolTable};
use moc::span::{CodeLocation, CodeSpan, ExpandCodeSpanError};
use moc::syntax::{Mo, SyntaxKind};
use moc::token::{NumberLiteralKind, Token, TokenKind};
use cstree::RawSyntaxKind;
use std::collections::VecDeque;

fn loc(line: usize, column: usize) -> CodeLocation {
    CodeLocation { line, column }
}

fn span(l1: usize, c1: usize, l2: usize, c2: usize) -> CodeSpan {
    CodeSpan { start: loc(l1, c1), end: loc(l2, c2) }
}

fn lex(src: &str) -> (Vec<Token>, Vec<LexerError>) {
    let mut lexer = Lexer::new(src);
    let tokens = lexer.tokens();
    let errors = lexer.errors().clone();
    (tokens, errors)
}

fn kinds(tokens: &[Token]) -> Vec<TokenKind> {
    tokens.iter().map(|t| t.kind).collect()
}

fn parse_program(src: &str) -> (Vec<moc::ast::Decl>, Vec<ParserError>) {
    let (tokens, errors) = lex(src);
    assert!(errors.is_empty());
    let mut parser = Parser::new(tokens, false);
    parser.parse();
    parser.into_parts()
}

fn parse_expression(src: &str) -> (Vec<moc::ast::Decl>, Vec<ParserError>) {
    let (tokens, errors) = lex(src);
    assert!(errors.is_empty());
    let mut parser = Parser::new(tokens, true);
    parser.parse();
    parser.into_parts()
}

fn simple(ident: &Ident) -> &str {
    match ident {
        Ident::Simple(name) => name.as_str(),
        Ident::WithModulePrefix(..) => panic!("expected a simple identifier"),
    }
}

fn number(expr: &moc::ast::Expr) -> &str {
    match &expr.kind {
        ExprKind::NumberLiteral(text, NumberLiteralKind::DecimalInteger) => text.as_str(),
        other => panic!("expected an integer, got {:?}", other),
    }
}

#[test]
fn is_of_type_s() {
    let token = Token::new(TokenKind::Plus, CodeSpan { start: CodeLocation::default(), end: CodeLocation::default() });
    assert!(token.is_of_kind(TokenKind::Plus));
    assert!(token.is_of_any_kinds(&[TokenKind::Plus, TokenKind::Minus]));
    assert!(token.is_of_any_kinds(&[TokenKind::Minus, TokenKind::Plus]));
}

#[test]
fn test_from_raw() {
    let usize = 10;
    let syntax = Mo::from_raw(RawSyntaxKind(usize));
    assert_eq!(syntax, Mo::BitShiftRight);
}

#[test]
fn raw_kinds_round_trip() {
    assert_eq!(SyntaxKind::BitShiftRight.into_raw(), RawSyntaxKind(10));
    assert_eq!(SyntaxKind::AddAssign.into_raw(), RawSyntaxKind(0));
    assert_eq!(SyntaxKind::EndOfFile.into_raw(), RawSyntaxKind(72));
    assert_eq!(SyntaxKind::from_raw(SyntaxKind::Use.into_raw()), SyntaxKind::Use);
    assert_eq!(SyntaxKind::try_from_raw(RawSyntaxKind(72)), Some(SyntaxKind::EndOfFile));
    assert_eq!(SyntaxKind::try_from_raw(RawSyntaxKind(73)), None);
}

#[test]
fn static_texts_of_kinds() {
    assert_eq!(SyntaxKind::Fn.static_text(), Some("fn"));
    assert_eq!(SyntaxKind::BitShiftLeftAssign.static_text(), Some("<<="));
    assert_eq!(SyntaxKind::LineBreak.static_text(), Some("\n"));
    assert_eq!(SyntaxKind::Ident.static_text(), None);
    assert_eq!(SyntaxKind::Root.static_text(), None);
}

#[test]
fn no_two_kinds_share_a_static_text() {
    let count = moc::syntax::SYNTAX_KIND_COUNT;
    for i in 0..count {
        for j in 0..count {
            let (a, b) = (SyntaxKind::from_index(i), SyntaxKind::from_index(j));
            if i != j && a.static_text().is_some() {
                assert_ne!(a.static_text(), b.static_text(), "{:?} {:?}", a, b);
            }
        }
    }
}

#[test]
fn token_predicates() {
    let s = span(1, 1, 1, 2);
    assert!(Token::new(TokenKind::AddAssign, s).is_assignment_operator());
    assert!(Token::new(TokenKind::Equals, s).is_assignment_operator());
    assert!(!Token::new(TokenKind::Plus, s).is_assignment_operator());
    assert!(Token::new(TokenKind::Plus, s).is_binary_op());
    assert!(Token::new(TokenKind::Excl, s).is_unary_op());
    assert!(!Token::new(TokenKind::Excl, s).is_binary_op());
    assert!(Token::number_literal("1F".to_string(), NumberLiteralKind::HexadecimalInteger, s).is_number_literal());
    assert_eq!(Token::new(TokenKind::Plus, s).infix_binding_power(), Some(BinaryOp::Add.infix_binding_power()));
    assert_eq!(Token::new(TokenKind::Comma, s).infix_binding_power(), None);
    let ident = Token::ident("x".to_string(), s);
    assert_eq!(ident.value(), Some(&"x".to_string()));
    assert_eq!(ident.unwrap_value(), "x");
    assert_eq!(Token::new(TokenKind::Dot, s).value(), None);
}

#[test]
fn number_kinds() {
    assert_eq!(NumberLiteralKind::HexadecimalInteger.get_radix(), 16);
    assert_eq!(NumberLiteralKind::BinaryInteger.get_radix(), 2);
    assert_eq!(NumberLiteralKind::OctalInteger.get_radix(), 8);
    assert_eq!(NumberLiteralKind::DecimalPoint.get_radix(), 10);
    assert_eq!(NumberLiteralKind::ScientificHex.get_token_type(), TokenKind::ScientificHexNumberLiteral);
    assert_eq!(NumberLiteralKind::try_from(TokenKind::OctalIntegerNumberLiteral), Ok(NumberLiteralKind::OctalInteger));
    assert!(NumberLiteralKind::try_from(TokenKind::Ident).is_err());
}

#[test]
fn operators_and_binding_powers() {
    assert_eq!(UnaryOp::try_from(TokenKind::Minus), Ok(UnaryOp::Negative));
    assert!(UnaryOp::try_from(TokenKind::Plus).is_err());
    assert_eq!(UnaryOp::Negative.prefix_binding_power(), 17);
    assert_eq!(BinaryOp::try_from(TokenKind::Star), Ok(BinaryOp::Mult));
    let (add_l, add_r) = BinaryOp::Add.infix_binding_power();
    let (mul_l, mul_r) = BinaryOp::Mult.infix_binding_power();
    assert!(add_l < add_r);
    assert!(mul_l > add_r);
    assert!(mul_l < mul_r);
}

#[test]
fn spans() {
    let a = span(1, 3, 1, 7);
    assert_eq!(a.length(), 4);
    assert!(a.is_single_line());
    assert!(!span(1, 3, 2, 1).is_single_line());
    assert!(loc(2, 3).is_in_same_line(&loc(2, 9)));
    assert_eq!(a.merge(span(2, 1, 2, 5)), span(1, 3, 2, 5));
    let mut b = span(1, 5, 1, 9);
    assert_eq!(b.try_extend_left(2), Ok(()));
    assert_eq!(b, span(1, 3, 1, 9));
    let mut c = span(1, 5, 1, 9);
    assert_eq!(c.try_extend_left(5), Err(ExpandCodeSpanError));
    assert_eq!(c, span(1, 5, 1, 9));
    c.extend_right(3);
    assert_eq!(c, span(1, 8, 1, 9));
    let mut d = span(1, 5, 1, 9);
    assert_eq!(d.try_extend_both_sides(2), Ok(()));
    assert_eq!(d, span(1, 5, 1, 9));
    let mut e = span(1, 2, 1, 9);
    assert_eq!(e.try_extend_both_sides(2), Err(ExpandCodeSpanError));
    assert_eq!(e, span(1, 2, 1, 9));
    assert_eq!(CodeSpan::from((loc(1, 1), loc(3, 4))), span(1, 1, 3, 4));
    assert_eq!(CodeSpan::default(), span(1, 1, 1, 1));
}

#[test]
fn merged_span_covers_both() {
    assert_eq!(span(2, 1, 2, 5).merge(span(1, 1, 1, 3)), span(1, 1, 2, 5));
    assert_eq!(span(1, 1, 3, 1).merge(span(2, 1, 2, 5)), span(1, 1, 3, 1));
}

#[test]
fn merging_spans_is_associative() {
    let (a, b, c) = (span(1, 1, 1, 2), span(2, 3, 4, 5), span(6, 7, 8, 9));
    assert_eq!(a.merge(b).merge(c), a.merge(b.merge(c)));
}

#[test]
fn lexes_a_declaration() {
    let (tokens, errors) = lex("a := 1 + 2\n");
    assert!(errors.is_empty());
    assert_eq!(
        kinds(&tokens),
        vec![
            TokenKind::Ident,
            TokenKind::DeclareAssign,
            TokenKind::DecimalIntegerNumberLiteral,
            TokenKind::Plus,
            TokenKind::DecimalIntegerNumberLiteral,
            TokenKind::LineBreak,
        ]
    );
    assert_eq!(tokens[0].value, Some("a".to_string()));
    assert_eq!(tokens[0].span, span(1, 1, 1, 2));
    assert_eq!(tokens[1].span, span(1, 3, 1, 5));
    assert_eq!(tokens[2].span, span(1, 6, 1, 7));
    assert_eq!(tokens[3].span, span(1, 8, 1, 9));
    assert_eq!(tokens[4].value, Some("2".to_string()));
    assert_eq!(tokens[5].span, span(1, 12, 2, 1));
}

#[test]
fn lexed_tokens_leave_out_end_of_file() {
    let (tokens, errors) = lex("");
    assert!(tokens.is_empty());
    assert!(errors.is_empty());
    let (tokens, _) = lex("x y z");
    assert!(tokens.iter().all(|t| t.kind != TokenKind::EndOfFile));
    let mut lexer = Lexer::new("");
    let eof = lexer.next_token().unwrap();
    assert_eq!(eof.kind, TokenKind::EndOfFile);
    assert_eq!(eof.span, span(1, 1, 1, 1));
}

#[test]
fn lexes_keywords_and_identifiers() {
    let (tokens, _) = lex("fn ret struct sum trait use defer break next for if else in is loop impl true false x_1");
    assert_eq!(
        kinds(&tokens),
        vec![
            TokenKind::Fn,
            TokenKind::Ret,
            TokenKind::Struct,
            TokenKind::Sum,
            TokenKind::Trait,
            TokenKind::Use,
            TokenKind::Defer,
            TokenKind::Break,
            TokenKind::Next,
            TokenKind::For,
            TokenKind::If,
            TokenKind::Else,
            TokenKind::In,
            TokenKind::Is,
            TokenKind::Loop,
            TokenKind::Impl,
            TokenKind::True,
            TokenKind::False,
            TokenKind::Ident,
        ]
    );
    assert_eq!(tokens[18].value, Some("x_1".to_string()));
    assert_eq!(tokens[0].value, None);
}

#[test]
fn lexes_operators() {
    let (tokens, errors) = lex("<<= >>= << >> <= >= != == ~= += -= *= %= &= |= ^= ! ~ & | ^ < > @ . , ; ( ) [ ] { } :");
    assert!(errors.is_empty());
    assert_eq!(
        kinds(&tokens),
        vec![
            TokenKind::BitShiftLeftAssign,
            TokenKind::BitShiftRightAssign,
            TokenKind::BitShiftLeft,
            TokenKind::BitShiftRight,
            TokenKind::LessOrEqual,
            TokenKind::GreaterOrEqual,
            TokenKind::ExclEquals,
            TokenKind::DoubleEquals,
            TokenKind::BitNotAssign,
            TokenKind::AddAssign,
            TokenKind::SubAssign,
            TokenKind::MultAssign,
            TokenKind::ModAssign,
            TokenKind::BitAndAssign,
            TokenKind::BitOrAssign,
            TokenKind::BitXorAssign,
            TokenKind::Excl,
            TokenKind::Tilde,
            TokenKind::Ampersand,
            TokenKind::Pipe,
            TokenKind::Caret,
            TokenKind::Less,
            TokenKind::Greater,
            TokenKind::At,
            TokenKind::Dot,
            TokenKind::Comma,
            TokenKind::Semicolon,
            TokenKind::OpenParen,
            TokenKind::CloseParen,
            TokenKind::OpenBrack,
            TokenKind::CloseBrack,
            TokenKind::OpenBrace,
            TokenKind::CloseBrace,
            TokenKind::Colon,
        ]
    );
    assert_eq!(tokens[0].span, span(1, 1, 1, 4));
}

#[test]
fn a_single_slash_is_the_divide_operator() {
    let (tokens, errors) = lex("4/2");
    assert!(errors.is_empty());
    assert_eq!(
        kinds(&tokens),
        vec![TokenKind::DecimalIntegerNumberLiteral, TokenKind::Slash, TokenKind::DecimalIntegerNumberLiteral]
    );
    assert_eq!(tokens[1].span, span(1, 2, 1, 3));
    assert_eq!(tokens[2].value, Some("2".to_string()));
    let (tokens, _) = lex("a/b");
    assert_eq!(kinds(&tokens), vec![TokenKind::Ident, TokenKind::Slash, TokenKind::Ident]);
    let (tokens, _) = lex("a /= b");
    assert_eq!(kinds(&tokens), vec![TokenKind::Ident, TokenKind::DivAssign, TokenKind::Ident]);
    assert_eq!(tokens[1].span, span(1, 3, 1, 5));
}

#[test]
fn a_zero_without_radix_prefix_is_decimal() {
    let (tokens, errors) = lex("[0,1]");
    assert!(errors.is_empty(), "{:?}", errors);
    assert_eq!(
        kinds(&tokens),
        vec![
            TokenKind::OpenBrack,
            TokenKind::DecimalIntegerNumberLiteral,
            TokenKind::Comma,
            TokenKind::DecimalIntegerNumberLiteral,
            TokenKind::CloseBrack,
        ]
    );
    assert_eq!(tokens[1].value, Some("0".to_string()));
    assert_eq!(tokens[3].value, Some("1".to_string()));
    let (tokens, errors) = lex("0 1\n0_");
    assert!(errors.is_empty());
    assert_eq!(
        kinds(&tokens),
        vec![
            TokenKind::DecimalIntegerNumberLiteral,
            TokenKind::DecimalIntegerNumberLiteral,
            TokenKind::LineBreak,
            TokenKind::DecimalIntegerNumberLiteral,
        ]
    );
    assert_eq!(tokens[3].value, Some("0".to_string()));
}

#[test]
fn an_unknown_radix_prefix_is_an_error() {
    let mut lexer = Lexer::new("0g1");
    let e = LexerError::UnexpectedCharacterLexingNonDecimalNumberLiteral(span(1, 1, 1, 1));
    assert!(matches!(lexer.next_token(), Err(x) if x == e));
    assert!(matches!(lexer.next_token(), Err(x) if x == e));
    let (tokens, errors) = lex("0g1 0e5");
    assert_eq!(errors, vec![e, LexerError::UnexpectedCharacterLexingNonDecimalNumberLiteral(span(1, 5, 1, 5))]);
    assert_eq!(kinds(&tokens), vec![TokenKind::Ident, TokenKind::Ident]);
    assert_eq!(tokens[0].value, Some("g1".to_string()));
    assert_eq!(tokens[1].value, Some("e5".to_string()));
}

#[test]
fn an_invalid_character_is_reported_and_skipped() {
    let (tokens, errors) = lex("a $ b");
    assert_eq!(kinds(&tokens), vec![TokenKind::Ident, TokenKind::Ident]);
    assert_eq!(errors, vec![LexerError::InvalidCharacter('$', span(1, 3, 1, 4))]);
    assert_eq!(tokens[1].span, span(1, 5, 1, 6));
}

#[test]
fn lexes_number_literals() {
    let (tokens, errors) = lex("0x1F 1.5e+3 0x1.8p3 1_000 0o17 0b101 0.5 7");
    assert!(errors.is_empty());
    let expected = vec![
        (TokenKind::HexadecimalIntegerNumberLiteral, "1F"),
        (TokenKind::ScientificDecimalNumberLiteral, "1.5e+3"),
        (TokenKind::ScientificHexNumberLiteral, "1.8p3"),
        (TokenKind::DecimalIntegerNumberLiteral, "1000"),
        (TokenKind::OctalIntegerNumberLiteral, "17"),
        (TokenKind::BinaryIntegerNumberLiteral, "101"),
        (TokenKind::DecimalPointNumberLiteral, "0.5"),
        (TokenKind::DecimalIntegerNumberLiteral, "7"),
    ];
    assert_eq!(tokens.len(), expected.len());
    for (token, (kind, text)) in tokens.iter().zip(expected) {
        assert_eq!(token.kind, kind);
        assert_eq!(token.value, Some(text.to_string()));
    }
    assert_eq!(tokens[0].span, span(1, 1, 1, 5));
}

#[test]
fn lexes_strings_with_escapes() {
    let (tokens, errors) = lex("\"a\\tb\\n\\\"c\\\\\"");
    assert!(errors.is_empty());
    assert_eq!(kinds(&tokens), vec![TokenKind::StringLiteral]);
    assert_eq!(tokens[0].value, Some("a\tb\n\"c\\".to_string()));
}

#[test]
fn skips_comments_up_to_the_line_break() {
    let (tokens, errors) = lex("a // hi\nb");
    assert!(errors.is_empty());
    assert_eq!(kinds(&tokens), vec![TokenKind::Ident, TokenKind::LineBreak, TokenKind::Ident]);
    assert_eq!(tokens[1].span, span(1, 9, 2, 1));
    assert_eq!(tokens[2].span, span(2, 1, 2, 2));
    let (tokens, _) = lex("a\r\nb");
    assert_eq!(kinds(&tokens), vec![TokenKind::Ident, TokenKind::LineBreak, TokenKind::Ident]);
}

#[test]
fn lexer_error_unterminated_string() {
    let (tokens, errors) = lex("\"abc");
    assert!(tokens.is_empty());
    assert_eq!(errors, vec![LexerError::UnterminatedStringLiteral(span(1, 1, 1, 5))]);
}

#[test]
fn lexer_error_unknown_escape() {
    let (tokens, errors) = lex("\"\\q\"");
    assert_eq!(kinds(&tokens), vec![TokenKind::Ident]);
    assert_eq!(tokens[0].value, Some("q".to_string()));
    assert_eq!(
        errors,
        vec![
            LexerError::UnknownEscapeCharacter(span(1, 1, 1, 3)),
            LexerError::UnterminatedStringLiteral(span(1, 4, 1, 5)),
        ]
    );
}

#[test]
fn lexer_error_multiple_decimal_points() {
    let (tokens, errors) = lex("1.2.3");
    assert_eq!(errors, vec![LexerError::MultiDecimalPointInNumberLiteral(span(1, 1, 1, 4))]);
    assert_eq!(kinds(&tokens), vec![TokenKind::Dot, TokenKind::DecimalIntegerNumberLiteral]);
}

#[test]
fn lexer_error_bad_digit_in_binary_literal() {
    let (tokens, errors) = lex("0b2");
    assert_eq!(errors, vec![LexerError::UnexpectedCharacterLexingNonDecimalNumberLiteral(span(1, 1, 1, 3))]);
    assert_eq!(kinds(&tokens), vec![TokenKind::DecimalIntegerNumberLiteral]);
}

#[test]
fn lexer_error_lone_carriage_return() {
    let (tokens, errors) = lex("\r");
    assert!(tokens.is_empty());
    assert_eq!(errors, vec![LexerError::UnknownToken(span(1, 1, 1, 2))]);
}

#[test]
fn lexer_error_messages_and_diagnostics() {
    let e = LexerError::InvalidCharacter('$', span(1, 1, 1, 1));
    assert_eq!(e.message(), "Invalid character '$'");
    assert_eq!(e.span(), span(1, 1, 1, 1));
    assert_eq!(LexerError::UnknownToken(span(1, 1, 1, 2)).message(), "Unknown token encountered");
    let d = LexerError::UnterminatedStringLiteral(span(2, 1, 2, 4)).into_diagnostic();
    assert_eq!(d.severity, Severity::Error);
    assert_eq!(d.message, "Unterminated string literal");
    assert_eq!(d.span, span(2, 1, 2, 4));
}

#[test]
fn parser_error_parts() {
    let token = Token::new(TokenKind::Comma, span(1, 2, 1, 3));
    let e = ParserError::unexpected_token("Expected ')'", Some(token), span(1, 2, 1, 3));
    assert_eq!(e.span(), span(1, 2, 1, 3));
    let wrapped: Result<(), ParserError> = e.clone().wrap();
    assert!(wrapped.is_err());
    let d = e.into_diagnostic();
    assert_eq!(d.severity, Severity::Error);
    assert_eq!(d.message, "Expected ')'");
    assert_eq!(d.span, span(1, 2, 1, 3));
}

#[test]
fn parses_a_function() {
    let (ast, errors) = parse_program("fn main() {\n    x := 1 + 2 * 3\n}\n");
    assert!(errors.is_empty(), "{:?}", errors);
    assert_eq!(ast.len(), 1);
    assert_eq!(ast[0].span, span(1, 1, 3, 2));
    match &ast[0].kind {
        DeclKind::Fn { signature, body } => {
            assert_eq!(signature.ident, "main");
            assert!(signature.params.is_empty());
            assert!(signature.generics.is_empty());
            assert!(signature.return_type.is_none());
            assert_eq!(body.stmts.len(), 1);
            match &body.stmts[0].kind {
                StmtKind::LocalVarDeclAssign { ident, type_expr, value } => {
                    assert_eq!(ident, "x");
                    assert!(type_expr.is_none());
                    match &value.kind {
                        ExprKind::Binary { left_expr, operator, right_expr } => {
                            assert_eq!(*operator, BinaryOp::Add);
                            assert_eq!(number(left_expr), "1");
                            match &right_expr.kind {
                                ExprKind::Binary { left_expr, operator, right_expr } => {
                                    assert_eq!(*operator, BinaryOp::Mult);
                                    assert_eq!(number(left_expr), "2");
                                    assert_eq!(number(right_expr), "3");
                                }
                                other => panic!("expected a product, got {:?}", other),
                            }
                        }
                        other => panic!("expected a sum, got {:?}", other),
                    }
                }
                other => panic!("expected a declaration, got {:?}", other),
            }
        }
        other => panic!("expected a function, got {:?}", other),
    }
}

#[test]
fn subtraction_groups_to_the_left() {
    let (ast, errors) = parse_expression("1 - 2 - 3");
    assert!(errors.is_empty());
    match &ast[0].kind {
        DeclKind::LooseExpr(e) => match &e.kind {
            ExprKind::Binary { left_expr, operator, right_expr } => {
                assert_eq!(*operator, BinaryOp::Sub);
                assert_eq!(number(right_expr), "3");
                match &left_expr.kind {
                    ExprKind::Binary { left_expr, right_expr, .. } => {
                        assert_eq!(number(left_expr), "1");
                        assert_eq!(number(right_expr), "2");
                    }
                    other => panic!("expected a difference, got {:?}", other),
                }
            }
            other => panic!("expected a difference, got {:?}", other),
        },
        other => panic!("expected an expression, got {:?}", other),
    }
}

#[test]
fn parses_postfix_expressions() {
    let (ast, errors) = parse_expression("a.b(1, 2)[0].*");
    assert!(errors.is_empty(), "{:?}", errors);
    match &ast[0].kind {
        DeclKind::LooseExpr(e) => match &e.kind {
            ExprKind::Unary { operator: UnaryOp::Deref, expr } => match &expr.kind {
                ExprKind::ArrayAccessor { array, index } => {
                    assert_eq!(number(index), "0");
                    match &array.kind {
                        ExprKind::FnCall { callee, args } => {
                            assert_eq!(args.len(), 2);
                            match &callee.kind {
                                ExprKind::FieldAccess { called_on, member_ident } => {
                                    assert_eq!(simple(member_ident), "b");
                                    match &called_on.kind {
                                        ExprKind::Variable { ident } => assert_eq!(simple(ident), "a"),
                                        other => panic!("{:?}", other),
                                    }
                                }
                                other => panic!("{:?}", other),
                            }
                        }
                        other => panic!("{:?}", other),
                    }
                }
                other => panic!("{:?}", other),
            },
            other => panic!("{:?}", other),
        },
        other => panic!("{:?}", other),
    }
}

#[test]
fn parses_declarations() {
    let src = "use io:print \"p\"\nstruct Point[T impl Show] impl Eq {\n x T, y T\n}\nsum Shape {\n Circle(i32)\n Rect { w i32, h i32 }\n Empty\n}\ntrait Show {\n fn show(s Self) string\n}\n";
    let (ast, errors) = parse_program(src);
    assert!(errors.is_empty(), "{:?}", errors);
    assert_eq!(ast.len(), 4);
    match &ast[0].kind {
        DeclKind::Use { path, alias } => {
            match path {
                Ident::WithModulePrefix(prefix, name) => {
                    assert_eq!(prefix.path, VecDeque::from(vec!["io".to_string()]));
                    assert_eq!(name, "print");
                }
                other => panic!("{:?}", other),
            }
            assert_eq!(alias.as_deref(), Some("p"));
        }
        other => panic!("{:?}", other),
    }
    match &ast[1].kind {
        DeclKind::Struct { ident, fields, generics, impl_traits } => {
            assert_eq!(ident, "Point");
            assert_eq!(fields.len(), 2);
            assert_eq!(fields[1].ident, "y");
            assert_eq!(generics.len(), 1);
            assert_eq!(generics[0].ident, "T");
            assert_eq!(generics[0].bounds.as_ref().map(|b| b.len()), Some(1));
            assert_eq!(impl_traits.len(), 1);
            assert_eq!(simple(&impl_traits[0].ident), "Eq");
        }
        other => panic!("{:?}", other),
    }
    match &ast[2].kind {
        DeclKind::Sum { ident, variants, .. } => {
            assert_eq!(ident, "Shape");
            assert_eq!(variants.len(), 3);
            assert!(matches!(&variants[0].data, VariantData::Tuple(t) if t.len() == 1));
            assert!(matches!(&variants[1].data, VariantData::Struct(f) if f.len() == 2));
            assert!(matches!(&variants[2].data, VariantData::Unit));
        }
        other => panic!("{:?}", other),
    }
    match &ast[3].kind {
        DeclKind::Trait { ident, methods, .. } => {
            assert_eq!(ident, "Show");
            assert_eq!(methods.len(), 1);
            assert_eq!(methods[0].ident, "show");
            assert!(matches!(&methods[0].return_type, Some(TypeExpr::Ident(Ident::Simple(n))) if n == "string"));
        }
        other => panic!("{:?}", other),
    }
}

#[test]
fn parses_type_expressions() {
    let (ast, errors) = parse_program("fn f(a [3]*i32, b List[i32, T]) {}\n");
    assert!(errors.is_empty(), "{:?}", errors);
    match &ast[0].kind {
        DeclKind::Fn { signature, .. } => {
            assert_eq!(signature.params.len(), 2);
            match &signature.params[0].type_expr {
                TypeExpr::Array { length: Some(3), type_expr } => {
                    assert!(matches!(&**type_expr, TypeExpr::Pointer(_)));
                }
                other => panic!("{:?}", other),
            }
            match &signature.params[1].type_expr {
                TypeExpr::Generic { ident, params } => {
                    assert_eq!(simple(ident), "List");
                    assert_eq!(params.len(), 2);
                }
                other => panic!("{:?}", other),
            }
        }
        other => panic!("{:?}", other),
    }
}

#[test]
fn parses_statements() {
    let src = "fn f() {\n if a { ret 1 } else { ret\n }\n for i < 3 { break\n }\n defer g()\n next\n}\n";
    let (ast, errors) = parse_program(src);
    assert!(errors.is_empty(), "{:?}", errors);
    match &ast[0].kind {
        DeclKind::Fn { body, .. } => {
            assert_eq!(body.stmts.len(), 4);
            assert!(matches!(&body.stmts[0].kind, StmtKind::Expr(e) if matches!(&e.kind, ExprKind::If { else_block: Some(_), .. })));
            assert!(matches!(&body.stmts[1].kind, StmtKind::Expr(e) if matches!(&e.kind, ExprKind::ForLoop { condition: Some(_), .. })));
            assert!(matches!(&body.stmts[2].kind, StmtKind::Defer(_)));
            assert!(matches!(&body.stmts[3].kind, StmtKind::Next));
        }
        other => panic!("{:?}", other),
    }
}

#[test]
fn reports_unexpected_top_level_tokens_and_goes_on() {
    let (ast, errors) = parse_program("x y\nfn a() {}\n");
    assert_eq!(errors.len(), 1);
    match &errors[0] {
        ParserError::UnexpectedToken { msg, peeking, span: s } => {
            assert_eq!(msg, "Unexpected token parsing top-level declarations");
            assert_eq!(peeking.as_ref().map(|t| t.kind), Some(TokenKind::Ident));
            assert_eq!(*s, span(1, 1, 1, 2));
        }
    }
    assert_eq!(ast.len(), 1);
    assert!(matches!(&ast[0].kind, DeclKind::Fn { .. }));
}

#[test]
fn reports_a_missing_parenthesis() {
    let (ast, errors) = parse_expression("(1 + 2\n");
    assert!(ast.is_empty());
    assert_eq!(errors.len(), 1);
    match &errors[0] {
        ParserError::UnexpectedToken { msg, peeking, span: s } => {
            assert_eq!(msg, "Expected ')'");
            assert_eq!(peeking.as_ref().map(|t| t.kind), Some(TokenKind::LineBreak));
            assert_eq!(*s, span(1, 8, 2, 1));
        }
    }
}

#[test]
fn parses_usize_texts() {
    assert_eq!(parse_usize(&"42".to_string()), Some(42));
    assert_eq!(parse_usize(&"+7".to_string()), Some(7));
    assert_eq!(parse_usize(&"".to_string()), None);
    assert_eq!(parse_usize(&"4a".to_string()), None);
    assert_eq!(parse_usize(&"99999999999999999999999".to_string()), None);
}

#[test]
fn module_paths() {
    let p = ModulePath::from_string("mod:submod:my_function");
    assert_eq!(p.path, VecDeque::from(vec!["mod".to_string(), "submod".to_string(), "my_function".to_string()]));
    let q = ModulePath::from_qualified_item_identifier("mod:submod:my_function");
    assert_eq!(q.path, VecDeque::from(vec!["mod".to_string(), "submod".to_string()]));
    assert_eq!(ModulePath::from_string("a:").path, VecDeque::from(vec!["a".to_string()]));
    assert_eq!(ModulePath::from_string("a::b").path, VecDeque::from(vec!["a".to_string(), String::new(), "b".to_string()]));
    assert!(ModulePath::from_string("").path.is_empty());
    let mut r = ModulePath::from_slice(&["x".to_string(), "y".to_string()]);
    assert_eq!(r.remove_and_get_last_path(), "y");
    assert_eq!(r.path, VecDeque::from(vec!["x".to_string()]));
    assert_eq!(ModulePath::new(VecDeque::new()).path.len(), 0);
}

#[test]
fn indentation() {
    assert_eq!(create_indent(0), "\n");
    assert_eq!(create_indent(2), "\n    ");
}

#[test]
fn compiles_a_source_text() {
    let mut options = CompilerOptions::default();
    assert!(!options.emit_ast && !options.emit_tokens);
    options.emit_ast = true;
    options.emit_tokens = true;
    let result = compile_source("fn main() {}\n\"abc", options);
    let tokens = result.tokens.expect("tokens were asked for");
    assert_eq!(kinds(&tokens), vec![
        TokenKind::Fn,
        TokenKind::Ident,
        TokenKind::OpenParen,
        TokenKind::CloseParen,
        TokenKind::OpenBrace,
        TokenKind::CloseBrace,
        TokenKind::LineBreak,
    ]);
    assert_eq!(result.ast.expect("the AST was asked for").len(), 1);
    assert_eq!(result.errors.len(), 1);
    assert!(matches!(result.errors[0], CompilerError::LexerError(LexerError::UnterminatedStringLiteral(_))));
    let quiet = compile_source("fn main() {}\n", CompilerOptions::default());
    assert!(quiet.tokens.is_none() && quiet.ast.is_none() && quiet.errors.is_empty());
    let empty = CompileResultData::new();
    assert!(empty.tokens.is_none() && empty.ast.is_none() && empty.errors.is_empty());
}

#[test]
fn empty_symbol_tables() {
    let table = SymbolTable::new();
    assert!(table.functions.is_empty() && table.structs.is_empty() && table.uses.is_empty());
    let mut analyzer = SemanticAnalyzer::new(Vec::new());
    let symbols = analyzer.analyze();
    assert!(symbols.functions.is_empty());
}

#[test]
fn tokens_as_text() {
    let ident = Token::ident("x".to_string(), span(1, 1, 1, 2));
    assert_eq!(ident.to_text(), "Ident from 1:1 to 1:2, value: \"x\"");
    let plain = Token::new(TokenKind::DeclareAssign, span(12, 3, 12, 345));
    assert_eq!(plain.to_text(), "DeclareAssign from 12:3 to 12:345");
    let text = Token::string_literal("a\tb\"\u{e9}".to_string(), span(1, 1, 1, 8));
    assert_eq!(text.to_text(), "StringLiteral from 1:1 to 1:8, value: \"a\\tb\\\"\\u{e9}\"");
    assert_eq!(text.to_text(), format!("StringLiteral from 1:1 to 1:8, value: \"{}\"", "a\tb\"\u{e9}".escape_default()));
    assert_eq!(loc(7, 10).to_text(), "7:10");
    assert_eq!(TokenKind::BitShiftLeftAssign.name(), "BitShiftLeftAssign");
    assert_eq!(ExpandCodeSpanError.to_text(), "ExpandCodeSpanError");
}

#[test]
fn lexer_errors_come_before_parser_errors() {
    let result = compile_source("x\n\"abc", CompilerOptions::default());
    assert_eq!(result.errors.len(), 2);
    assert!(matches!(result.errors[0], CompilerError::LexerError(LexerError::UnterminatedStringLiteral(_))));
    match &result.errors[1] {
        CompilerError::ParserError(ParserError::UnexpectedToken { msg, .. }) => {
            assert_eq!(msg, "Unexpected token parsing top-level declarations");
        }
        other => panic!("expected a parser error, got {:?}", other),
    }
}

#[test]
fn binary_operator_levels() {
    let (ast, errors) = parse_expression("a == b | c & d << e + f * g");
    assert!(errors.is_empty());
    let mut expr = match &ast[0].kind {
        DeclKind::LooseExpr(e) => e,
        other => panic!("{:?}", other),
    };
    let expected = [BinaryOp::Equal, BinaryOp::BitOr, BinaryOp::BitAnd, BinaryOp::BitShiftLeft, BinaryOp::Add, BinaryOp::Mult];
    for op in expected {
        match &expr.kind {
            ExprKind::Binary { operator, right_expr, .. } => {
                assert_eq!(*operator, op);
                expr = &**right_expr;
            }
            other => panic!("{:?}", other),
        }
    }
    assert!(matches!(&expr.kind, ExprKind::Variable { .. }));
}

#[test]
fn module_paths_as_text() {
    let p = ModulePath::from_slice(&["io".to_string(), "we\"ird".to_string()]);
    assert_eq!(p.to_text(), "ModuleIdentifier[\"io\", \"we\\\"ird\"]");
    assert_eq!(p.to_text(), format!("ModuleIdentifier{:?}", p.path));
    assert_eq!(ModulePath::new(VecDeque::new()).to_text(), "ModuleIdentifier[]");
}

#[test]
fn error_messages() {
    let parser_error = ParserError::unexpected_token("Expected ':='", None, span(1, 1, 1, 2));
    assert_eq!(parser_error.message(), "Expected ':='");
    assert_eq!(CompilerError::ParserError(parser_error).message(), "Expected ':='");
    let lexer_error = LexerError::MultiDecimalPointInNumberLiteral(span(1, 1, 1, 4));
    assert_eq!(CompilerError::LexerError(lexer_error).message(), "Multiple decimal points in number literal");
    let io_error = std::io::Error::new(std::io::ErrorKind::NotFound, "missing");
    assert_eq!(CompilerError::FileNotFound(io_error).message(), "File operation failed");
}

#[test]
fn an_assignment_spans_both_sides() {
    let (ast, errors) = parse_expression("a = b");
    assert!(errors.is_empty(), "{:?}", errors);
    assert_eq!(ast[0].span, span(1, 1, 1, 6));
    match &ast[0].kind {
        DeclKind::LooseExpr(e) => {
            assert_eq!(e.span, span(1, 1, 1, 6));
            assert!(matches!(&e.kind, ExprKind::Assign { operator: TokenKind::Equals, .. }));
        }
        other => panic!("{:?}", other),
    }
}

#[test]
fn an_empty_type_argument_list_is_read() {
    let (ast, errors) = parse_program("fn f(a List[], b i32) {}\n");
    assert!(errors.is_empty(), "{:?}", errors);
    match &ast[0].kind {
        DeclKind::Fn { signature, .. } => {
            assert_eq!(signature.params.len(), 2);
            match &signature.params[0].type_expr {
                TypeExpr::Generic { ident, params } => {
                    assert_eq!(simple(ident), "List");
                    assert!(params.is_empty());
                }
                other => panic!("{:?}", other),
            }
            assert_eq!(signature.params[1].ident, "b");
        }
        other => panic!("{:?}", other),
    }
}

#[test]
fn an_empty_generic_parameter_list_is_read() {
    let (ast, errors) = parse_program("fn f[]() {}\n");
    assert!(errors.is_empty(), "{:?}", errors);
    match &ast[0].kind {
        DeclKind::Fn { signature, .. } => {
            assert_eq!(signature.ident, "f");
            assert!(signature.generics.is_empty());
            assert!(signature.params.is_empty());
        }
        other => panic!("{:?}", other),
    }
}

#[test]
fn declares_a_variable_with_a_type_and_equals() {
    let (ast, errors) = parse_program("fn f() {\n a i32 = 10\n b = a\n}\n");
    assert!(errors.is_empty(), "{:?}", errors);
    match &ast[0].kind {
        DeclKind::Fn { body, .. } => {
            assert_eq!(body.stmts.len(), 2);
            match &body.stmts[0].kind {
                StmtKind::LocalVarDeclAssign { ident, type_expr, value } => {
                    assert_eq!(ident, "a");
                    match type_expr {
                        Some(TypeExpr::Ident(name)) => assert_eq!(simple(name), "i32"),
                        other => panic!("{:?}", other),
                    }
                    assert_eq!(number(value), "10");
                }
                other => panic!("{:?}", other),
            }
            assert!(matches!(&body.stmts[1].kind, StmtKind::Expr(e) if matches!(&e.kind, ExprKind::Assign { .. })));
        }
        other => panic!("{:?}", other),
    }
}

#[test]
fn a_bare_ret_ends_at_a_semicolon_or_a_line_break() {
    let (ast, errors) = parse_program("fn f() {\n ret;\n ret\n}\n");
    assert!(errors.is_empty(), "{:?}", errors);
    match &ast[0].kind {
        DeclKind::Fn { body, .. } => {
            assert_eq!(body.stmts.len(), 2);
            assert!(matches!(&body.stmts[0].kind, StmtKind::Ret(None)));
            assert!(matches!(&body.stmts[1].kind, StmtKind::Ret(None)));
        }
        other => panic!("{:?}", other),
    }
}

#[test]
fn running_out_of_tokens_is_an_error() {
    let (tokens, _) = lex("fn main(");
    let mut parser = Parser::new(tokens, false);
    parser.parse();
    let (ast, errors) = parser.into_parts();
    assert!(ast.is_empty());
    assert_eq!(errors.len(), 1);
    match &errors[0] {
        ParserError::UnexpectedToken { msg, peeking, span: s } => {
            assert_eq!(msg, "Expected variable identifier");
            assert!(peeking.is_none());
            assert_eq!(*s, CodeSpan::default());
        }
    }
    let mut parser = Parser::new(Vec::new(), true);
    parser.parse();
    let (ast, errors) = parser.into_parts();
    assert!(ast.is_empty());
    match &errors[0] {
        ParserError::UnexpectedToken { msg, peeking, .. } => {
            assert_eq!(msg, "Expected an expression");
            assert!(peeking.is_none());
        }
    }
}

#[test]
fn crlf_line_breaks_lex_like_line_feeds() {
    let lf = "x := 1 // one\nfn f() {\n  y.z = 0x1F * 2.5e3 / 4 $\n}\n";
    let crlf = lf.replace('\n', "\r\n");
    let (t1, e1) = lex(lf);
    let (t2, e2) = lex(&crlf);
    assert_eq!(kinds(&t1), kinds(&t2));
    let texts = |ts: &[Token]| ts.iter().map(|t| t.value.clone()).collect::<Vec<_>>();
    assert_eq!(texts(&t1), texts(&t2));
    assert_eq!(e1, e2);
    assert_eq!(e1.len(), 1);
    assert_eq!(kinds(&t1).iter().filter(|k| **k == TokenKind::LineBreak).count(), 4);
}

#[test]
fn an_array_length_out_of_range_is_an_error() {
    let (ast, errors) = parse_program("fn f(a [99999999999999999999999]i32) {}\n");
    assert!(ast.is_empty());
    assert_eq!(errors.len(), 1);
    match &errors[0] {
        ParserError::UnexpectedToken { msg, peeking, span: s } => {
            assert_eq!(msg, "Array length out of range");
            assert_eq!(peeking.as_ref().map(|t| t.kind), Some(TokenKind::DecimalIntegerNumberLiteral));
            assert_eq!(*s, span(1, 9, 1, 32));
        }
    }
}

#[test]
fn consuming_a_token_of_the_wrong_kind_or_none_is_an_error() {
    let (tokens, _) = lex("a(");
    let mut parser = Parser::new(tokens, false);
    assert!(parser.try_consume_token(TokenKind::Ident, "Expected a name").is_ok());
    match parser.try_consume_token(TokenKind::Ident, "Expected a name") {
        Err(ParserError::UnexpectedToken { msg, peeking, span: s }) => {
            assert_eq!(msg, "Expected a name");
            assert_eq!(peeking.map(|t| t.kind), Some(TokenKind::OpenParen));
            assert_eq!(s, span(1, 2, 1, 3));
        }
        other => panic!("{:?}", other),
    }
    assert!(parser.try_consume_token(TokenKind::OpenParen, "Expected '('").is_ok());
    match parser.try_consume_token(TokenKind::CloseParen, "Expected ')'") {
        Err(ParserError::UnexpectedToken { msg, peeking, span: s }) => {
            assert_eq!(msg, "Expected ')'");
            assert!(peeking.is_none());
            assert_eq!(s, CodeSpan::default());
        }
        other => panic!("{:?}", other),
    }
}

#[test]
fn tokens_without_their_texts_are_found() {
    let (tokens, _) = lex("x := \"s\" + 1\n");
    assert!(moc::parser::tokens_carry_texts(&tokens));
    let d = CodeSpan::default();
    assert!(!moc::parser::tokens_carry_texts(&vec![Token::new(TokenKind::Ident, d)]));
    assert!(!moc::parser::tokens_carry_texts(&vec![Token::new(TokenKind::Fn, d), Token::new(TokenKind::StringLiteral, d)]));
    assert!(moc::parser::tokens_carry_texts(&vec![Token::new(TokenKind::Fn, d), Token::new(TokenKind::OpenParen, d)]));
}

#[test]
fn an_expression_spans_its_first_to_its_last_token() {
    let (ast, errors) = parse_expression("f(x)[1].y + 2 * -3");
    assert!(errors.is_empty(), "{:?}", errors);
    assert_eq!(ast[0].span, span(1, 1, 1, 19));
    let (ast, errors) = parse_expression("a += [1, 2]");
    assert!(errors.is_empty(), "{:?}", errors);
    assert_eq!(ast[0].span, span(1, 1, 1, 12));
}
