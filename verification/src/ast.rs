//! The abstract syntax tree, and its model in which strings are sequences of
//! characters and vectors are sequences.

use vstd::prelude::*;
use vstd::string::StrSliceExecFns;
use std::collections::VecDeque;
use crate::span::{CodeSpan, CodeLocation, span_of, merged};
use crate::token::{TokenKind, NumberLiteralKind};
use crate::op::{BinaryOp, UnaryOp};
use crate::error::push_char;

verus! {

// ---------------------------------------------------------------- exec types

/// A sequence of statements in braces.
#[derive(Debug)]
pub struct CodeBlock {
    pub stmts: Vec<Stmt>,
}

/// The modules before an item's name, as in `mod:submod:item`.
#[derive(Debug)]
pub struct ModulePath {
    pub path: VecDeque<String>,
}

/// A name with its type, as in parameters and fields.
#[derive(Debug)]
pub struct TypedVar {
    pub ident: String,
    pub type_expr: TypeExpr,
}

/// The kinds of statement.
#[derive(Debug)]
pub enum StmtKind {
    Print(Expr),
    LocalVarDecl { ident: String, type_expr: TypeExpr },
    Assignmt { assignee: Expr, new_value: Expr },
    VarOperatorAssign { assignee: Expr, operator: BinaryOp, value: Expr },
    LocalVarDeclAssign { ident: String, type_expr: Option<TypeExpr>, value: Expr },
    Break { value: Option<Expr> },
    Defer(Box<Stmt>),
    Expr(Expr),
    Ret(Option<Expr>),
    CodeBlock(CodeBlock),
    Next,
}

/// A statement and where it stands.
#[derive(Debug)]
pub struct Stmt {
    pub span: CodeSpan,
    pub kind: StmtKind,
}

/// The kinds of expression.
#[derive(Debug)]
pub enum ExprKind {
    Assign { assignee: Box<Expr>, operator: TokenKind, value: Box<Expr> },
    Binary { left_expr: Box<Expr>, operator: BinaryOp, right_expr: Box<Expr> },
    FieldAccess { called_on: Box<Expr>, member_ident: Ident },
    ArrayLiteral { elements: Vec<Expr> },
    ArrayAccessor { array: Box<Expr>, index: Box<Expr> },
    ForLoop { condition: Option<Box<Expr>>, code_block: CodeBlock },
    If { condition: Box<Expr>, if_block: CodeBlock, else_block: Option<CodeBlock> },
    BoolLiteral(bool),
    Grouping(Box<Expr>),
    FnCall { callee: Box<Expr>, args: Vec<Expr> },
    GenericFnCallPart { callee: Box<Expr>, type_args: Option<Vec<TypeExpr>> },
    Variable { ident: Ident },
    NumberLiteral(String, NumberLiteralKind),
    StringLiteral(String),
    Unary { operator: UnaryOp, expr: Box<Expr> },
    Empty,
}

/// An expression and where it stands.
#[derive(Debug)]
pub struct Expr {
    pub span: CodeSpan,
    pub kind: ExprKind,
}

/// A name, possibly with the path of modules it lives in.
#[derive(Debug)]
pub enum Ident {
    Simple(String),
    WithModulePrefix(ModulePath, String),
}

/// Type expressions.
#[derive(Debug)]
pub enum TypeExpr {
    Ident(Ident),
    Pointer(Box<TypeExpr>),
    Array { length: Option<usize>, type_expr: Box<TypeExpr> },
    Generic { ident: Ident, params: Vec<TypeExpr> },
}

/// A trait that a struct or sum type implements, with its type arguments.
#[derive(Debug)]
pub struct TraitBound {
    pub ident: Ident,
    pub args: Vec<TypeExpr>,
}

/// A generic type parameter with its trait bounds.
#[derive(Debug)]
pub struct GenericParam {
    pub ident: String,
    pub bounds: Option<Vec<Ident>>,
}

/// The signature of a function.
#[derive(Debug)]
pub struct FnSignature {
    pub ident: String,
    pub generics: Vec<GenericParam>,
    pub params: Vec<TypedVar>,
    pub return_type: Option<TypeExpr>,
}

/// The kinds of top-level declaration.
#[derive(Debug)]
pub enum DeclKind {
    Fn { signature: FnSignature, body: CodeBlock },
    Use { path: Ident, alias: Option<String> },
    Struct { ident: String, fields: Vec<TypedVar>, generics: Vec<GenericParam>, impl_traits: Vec<TraitBound> },
    Sum { ident: String, generics: Vec<GenericParam>, impl_traits: Vec<TraitBound>, variants: Vec<Variant> },
    Trait { ident: String, generics: Vec<GenericParam>, methods: Vec<FnSignature> },
    LooseExpr(Expr),
}

/// A top-level declaration and where it stands.
#[derive(Debug)]
pub struct Decl {
    pub span: CodeSpan,
    pub kind: DeclKind,
}

/// What a variant of a sum type holds.
#[derive(Debug)]
pub enum VariantData {
    Unit,
    Tuple(Vec<TypeExpr>),
    Struct(Vec<TypedVar>),
}

/// A variant of a sum type.
#[derive(Debug)]
pub struct Variant {
    pub ident: String,
    pub data: VariantData,
}

/// A program: its top-level declarations in order.
pub type Ast = Vec<Decl>;

// ---------------------------------------------------------------- models

pub enum IdentM {
    Simple(Seq<char>),
    WithModulePrefix(Seq<Seq<char>>, Seq<char>),
}

pub enum TypeExprM {
    Ident(IdentM),
    Pointer(Box<TypeExprM>),
    Array { length: Option<usize>, type_expr: Box<TypeExprM> },
    Generic { ident: IdentM, params: Seq<TypeExprM> },
}

pub struct TypedVarM {
    pub ident: Seq<char>,
    pub type_expr: TypeExprM,
}

pub struct TraitBoundM {
    pub ident: IdentM,
    pub args: Seq<TypeExprM>,
}

pub struct GenericParamM {
    pub ident: Seq<char>,
    pub bounds: Option<Seq<IdentM>>,
}

pub enum ExprKindM {
    Assign { assignee: Box<ExprM>, operator: TokenKind, value: Box<ExprM> },
    Binary { left_expr: Box<ExprM>, operator: BinaryOp, right_expr: Box<ExprM> },
    FieldAccess { called_on: Box<ExprM>, member_ident: IdentM },
    ArrayLiteral { elements: Seq<ExprM> },
    ArrayAccessor { array: Box<ExprM>, index: Box<ExprM> },
    ForLoop { condition: Option<Box<ExprM>>, code_block: Seq<StmtM> },
    If { condition: Box<ExprM>, if_block: Seq<StmtM>, else_block: Option<Seq<StmtM>> },
    BoolLiteral(bool),
    Grouping(Box<ExprM>),
    FnCall { callee: Box<ExprM>, args: Seq<ExprM> },
    GenericFnCallPart { callee: Box<ExprM>, type_args: Option<Seq<TypeExprM>> },
    Variable { ident: IdentM },
    NumberLiteral(Seq<char>, NumberLiteralKind),
    StringLiteral(Seq<char>),
    Unary { operator: UnaryOp, expr: Box<ExprM> },
    Empty,
}

pub struct ExprM {
    pub span: CodeSpan,
    pub kind: ExprKindM,
}

pub enum StmtKindM {
    Print(ExprM),
    LocalVarDecl { ident: Seq<char>, type_expr: TypeExprM },
    Assignmt { assignee: ExprM, new_value: ExprM },
    VarOperatorAssign { assignee: ExprM, operator: BinaryOp, value: ExprM },
    LocalVarDeclAssign { ident: Seq<char>, type_expr: Option<TypeExprM>, value: ExprM },
    Break { value: Option<ExprM> },
    Defer(Box<StmtM>),
    Expr(ExprM),
    Ret(Option<ExprM>),
    CodeBlock(Seq<StmtM>),
    Next,
}

pub struct StmtM {
    pub span: CodeSpan,
    pub kind: StmtKindM,
}

pub struct FnSignatureM {
    pub ident: Seq<char>,
    pub generics: Seq<GenericParamM>,
    pub params: Seq<TypedVarM>,
    pub return_type: Option<TypeExprM>,
}

pub enum VariantDataM {
    Unit,
    Tuple(Seq<TypeExprM>),
    Struct(Seq<TypedVarM>),
}

pub struct VariantM {
    pub ident: Seq<char>,
    pub data: VariantDataM,
}

pub enum DeclKindM {
    Fn { signature: FnSignatureM, body: Seq<StmtM> },
    Use { path: IdentM, alias: Option<Seq<char>> },
    Struct { ident: Seq<char>, fields: Seq<TypedVarM>, generics: Seq<GenericParamM>, impl_traits: Seq<TraitBoundM> },
    Sum { ident: Seq<char>, generics: Seq<GenericParamM>, impl_traits: Seq<TraitBoundM>, variants: Seq<VariantM> },
    Trait { ident: Seq<char>, generics: Seq<GenericParamM>, methods: Seq<FnSignatureM> },
    LooseExpr(ExprM),
}

pub struct DeclM {
    pub span: CodeSpan,
    pub kind: DeclKindM,
}

// ---------------------------------------------------------------- views

pub open spec fn strings_m(s: Seq<String>) -> Seq<Seq<char>> {
    s.map_values(|x: String| x@)
}

pub open spec fn ident_m(i: Ident) -> IdentM {
    match i {
        Ident::Simple(s) => IdentM::Simple(s@),
        Ident::WithModulePrefix(p, s) => IdentM::WithModulePrefix(strings_m(p.path@), s@),
    }
}

pub open spec fn idents_m(s: Seq<Ident>) -> Seq<IdentM> {
    s.map_values(|x: Ident| ident_m(x))
}

pub open spec fn type_m(t: TypeExpr) -> TypeExprM
    decreases t,
{
    match t {
        TypeExpr::Ident(i) => TypeExprM::Ident(ident_m(i)),
        TypeExpr::Pointer(b) => TypeExprM::Pointer(Box::new(type_m(*b))),
        TypeExpr::Array { length, type_expr } => TypeExprM::Array { length, type_expr: Box::new(type_m(*type_expr)) },
        TypeExpr::Generic { ident, params } => TypeExprM::Generic { ident: ident_m(ident), params: types_m(params@) },
    }
}

pub open spec fn types_m(s: Seq<TypeExpr>) -> Seq<TypeExprM>
    decreases s,
{
    if s.len() == 0 {
        Seq::empty()
    } else {
        types_m(s.drop_last()).push(type_m(s.last()))
    }
}

pub open spec fn opt_type_m(t: Option<TypeExpr>) -> Option<TypeExprM> {
    match t {
        Some(t) => Some(type_m(t)),
        None => None,
    }
}

pub open spec fn typed_var_m(v: TypedVar) -> TypedVarM {
    TypedVarM { ident: v.ident@, type_expr: type_m(v.type_expr) }
}

pub open spec fn typed_vars_m(s: Seq<TypedVar>) -> Seq<TypedVarM> {
    s.map_values(|x: TypedVar| typed_var_m(x))
}

pub open spec fn trait_bound_m(t: TraitBound) -> TraitBoundM {
    TraitBoundM { ident: ident_m(t.ident), args: types_m(t.args@) }
}

pub open spec fn trait_bounds_m(s: Seq<TraitBound>) -> Seq<TraitBoundM> {
    s.map_values(|x: TraitBound| trait_bound_m(x))
}

pub open spec fn generic_param_m(g: GenericParam) -> GenericParamM {
    GenericParamM {
        ident: g.ident@,
        bounds: match g.bounds {
            Some(b) => Some(idents_m(b@)),
            None => None,
        },
    }
}

pub open spec fn generic_params_m(s: Seq<GenericParam>) -> Seq<GenericParamM> {
    s.map_values(|x: GenericParam| generic_param_m(x))
}

pub open spec fn expr_m(e: Expr) -> ExprM
    decreases e,
{
    ExprM {
        span: e.span,
        kind: match e.kind {
            ExprKind::Assign { assignee, operator, value } =>
                ExprKindM::Assign { assignee: Box::new(expr_m(*assignee)), operator, value: Box::new(expr_m(*value)) },
            ExprKind::Binary { left_expr, operator, right_expr } =>
                ExprKindM::Binary { left_expr: Box::new(expr_m(*left_expr)), operator, right_expr: Box::new(expr_m(*right_expr)) },
            ExprKind::FieldAccess { called_on, member_ident } =>
                ExprKindM::FieldAccess { called_on: Box::new(expr_m(*called_on)), member_ident: ident_m(member_ident) },
            ExprKind::ArrayLiteral { elements } => ExprKindM::ArrayLiteral { elements: exprs_m(elements@) },
            ExprKind::ArrayAccessor { array, index } =>
                ExprKindM::ArrayAccessor { array: Box::new(expr_m(*array)), index: Box::new(expr_m(*index)) },
            ExprKind::ForLoop { condition, code_block } => ExprKindM::ForLoop {
                condition: match condition {
                    Some(c) => Some(Box::new(expr_m(*c))),
                    None => None,
                },
                code_block: stmts_m(code_block.stmts@),
            },
            ExprKind::If { condition, if_block, else_block } => ExprKindM::If {
                condition: Box::new(expr_m(*condition)),
                if_block: stmts_m(if_block.stmts@),
                else_block: match else_block {
                    Some(b) => Some(stmts_m(b.stmts@)),
                    None => None,
                },
            },
            ExprKind::BoolLiteral(b) => ExprKindM::BoolLiteral(b),
            ExprKind::Grouping(g) => ExprKindM::Grouping(Box::new(expr_m(*g))),
            ExprKind::FnCall { callee, args } => ExprKindM::FnCall { callee: Box::new(expr_m(*callee)), args: exprs_m(args@) },
            ExprKind::GenericFnCallPart { callee, type_args } => ExprKindM::GenericFnCallPart {
                callee: Box::new(expr_m(*callee)),
                type_args: match type_args {
                    Some(a) => Some(types_m(a@)),
                    None => None,
                },
            },
            ExprKind::Variable { ident } => ExprKindM::Variable { ident: ident_m(ident) },
            ExprKind::NumberLiteral(t, k) => ExprKindM::NumberLiteral(t@, k),
            ExprKind::StringLiteral(t) => ExprKindM::StringLiteral(t@),
            ExprKind::Unary { operator, expr } => ExprKindM::Unary { operator, expr: Box::new(expr_m(*expr)) },
            ExprKind::Empty => ExprKindM::Empty,
        },
    }
}

pub open spec fn exprs_m(s: Seq<Expr>) -> Seq<ExprM>
    decreases s,
{
    if s.len() == 0 {
        Seq::empty()
    } else {
        exprs_m(s.drop_last()).push(expr_m(s.last()))
    }
}

pub open spec fn stmt_m(s: Stmt) -> StmtM
    decreases s,
{
    StmtM {
        span: s.span,
        kind: match s.kind {
            StmtKind::Print(e) => StmtKindM::Print(expr_m(e)),
            StmtKind::LocalVarDecl { ident, type_expr } => StmtKindM::LocalVarDecl { ident: ident@, type_expr: type_m(type_expr) },
            StmtKind::Assignmt { assignee, new_value } =>
                StmtKindM::Assignmt { assignee: expr_m(assignee), new_value: expr_m(new_value) },
            StmtKind::VarOperatorAssign { assignee, operator, value } =>
                StmtKindM::VarOperatorAssign { assignee: expr_m(assignee), operator, value: expr_m(value) },
            StmtKind::LocalVarDeclAssign { ident, type_expr, value } =>
                StmtKindM::LocalVarDeclAssign { ident: ident@, type_expr: opt_type_m(type_expr), value: expr_m(value) },
            StmtKind::Break { value } => StmtKindM::Break {
                value: match value {
                    Some(e) => Some(expr_m(e)),
                    None => None,
                },
            },
            StmtKind::Defer(d) => StmtKindM::Defer(Box::new(stmt_m(*d))),
            StmtKind::Expr(e) => StmtKindM::Expr(expr_m(e)),
            StmtKind::Ret(value) => StmtKindM::Ret(match value {
                Some(e) => Some(expr_m(e)),
                None => None,
            }),
            StmtKind::CodeBlock(b) => StmtKindM::CodeBlock(stmts_m(b.stmts@)),
            StmtKind::Next => StmtKindM::Next,
        },
    }
}

pub open spec fn stmts_m(s: Seq<Stmt>) -> Seq<StmtM>
    decreases s,
{
    if s.len() == 0 {
        Seq::empty()
    } else {
        stmts_m(s.drop_last()).push(stmt_m(s.last()))
    }
}

pub open spec fn fn_signature_m(f: FnSignature) -> FnSignatureM {
    FnSignatureM {
        ident: f.ident@,
        generics: generic_params_m(f.generics@),
        params: typed_vars_m(f.params@),
        return_type: opt_type_m(f.return_type),
    }
}

pub open spec fn variant_data_m(d: VariantData) -> VariantDataM {
    match d {
        VariantData::Unit => VariantDataM::Unit,
        VariantData::Tuple(t) => VariantDataM::Tuple(types_m(t@)),
        VariantData::Struct(f) => VariantDataM::Struct(typed_vars_m(f@)),
    }
}

pub open spec fn variant_m(v: Variant) -> VariantM {
    VariantM { ident: v.ident@, data: variant_data_m(v.data) }
}

pub open spec fn variants_m(s: Seq<Variant>) -> Seq<VariantM> {
    s.map_values(|v: Variant| variant_m(v))
}

pub open spec fn fn_signatures_m(s: Seq<FnSignature>) -> Seq<FnSignatureM> {
    s.map_values(|m: FnSignature| fn_signature_m(m))
}

pub open spec fn decl_m(d: Decl) -> DeclM {
    DeclM {
        span: d.span,
        kind: match d.kind {
            DeclKind::Fn { signature, body } => DeclKindM::Fn { signature: fn_signature_m(signature), body: stmts_m(body.stmts@) },
            DeclKind::Use { path, alias } => DeclKindM::Use {
                path: ident_m(path),
                alias: match alias {
                    Some(a) => Some(a@),
                    None => None,
                },
            },
            DeclKind::Struct { ident, fields, generics, impl_traits } => DeclKindM::Struct {
                ident: ident@,
                fields: typed_vars_m(fields@),
                generics: generic_params_m(generics@),
                impl_traits: trait_bounds_m(impl_traits@),
            },
            DeclKind::Sum { ident, generics, impl_traits, variants } => DeclKindM::Sum {
                ident: ident@,
                generics: generic_params_m(generics@),
                impl_traits: trait_bounds_m(impl_traits@),
                variants: variants_m(variants@),
            },
            DeclKind::Trait { ident, generics, methods } => DeclKindM::Trait {
                ident: ident@,
                generics: generic_params_m(generics@),
                methods: fn_signatures_m(methods@),
            },
            DeclKind::LooseExpr(e) => DeclKindM::LooseExpr(expr_m(e)),
        },
    }
}

pub open spec fn decls_m(s: Seq<Decl>) -> Seq<DeclM> {
    s.map_values(|d: Decl| decl_m(d))
}

// ---------------------------------------------------------------- lemmas on views

pub proof fn lemma_types_m_push(s: Seq<TypeExpr>, t: TypeExpr)
    ensures
        types_m(s.push(t)) == types_m(s).push(type_m(t)),
{
    assert(s.push(t).drop_last() =~= s);
}

pub proof fn lemma_exprs_m_push(s: Seq<Expr>, e: Expr)
    ensures
        exprs_m(s.push(e)) == exprs_m(s).push(expr_m(e)),
{
    assert(s.push(e).drop_last() =~= s);
}

pub proof fn lemma_stmts_m_push(s: Seq<Stmt>, e: Stmt)
    ensures
        stmts_m(s.push(e)) == stmts_m(s).push(stmt_m(e)),
{
    assert(s.push(e).drop_last() =~= s);
}

// ---------------------------------------------------------------- module paths

/// The parts of `t` between colons, as `str::split_terminator(":")` gives
/// them: a trailing empty part is left out.
pub open spec fn split_colons(t: Seq<char>) -> Seq<Seq<char>> {
    split_loop(t, Seq::empty(), Seq::empty())
}

/// Splitting what is left of the text, `cur` being the part read so far.
pub open spec fn split_loop(t: Seq<char>, parts: Seq<Seq<char>>, cur: Seq<char>) -> Seq<Seq<char>>
    decreases t.len(),
{
    if t.len() == 0 {
        if cur.len() == 0 { parts } else { parts.push(cur) }
    } else if t[0] == ':' {
        split_loop(t.drop_first(), parts.push(cur), Seq::empty())
    } else {
        split_loop(t.drop_first(), parts, cur.push(t[0]))
    }
}

/// The parts of `ident` between colons, each as a string.
fn split_terminator_colons(ident: &str) -> (r: VecDeque<String>)
    ensures
        strings_m(r@) == split_colons(ident@),
{
    let n = ident.unicode_len();
    let mut parts: VecDeque<String> = VecDeque::new();
    let mut cur = String::new();
    let mut i: usize = 0;
    assert(strings_m(parts@) =~= Seq::<Seq<char>>::empty());
    assert(ident@.skip(0) =~= ident@);
    while i < n
        invariant
            n == ident@.len(),
            i <= n,
            split_loop(ident@.skip(i as int), strings_m(parts@), cur@) == split_colons(ident@),
        decreases n - i,
    {
        let c = ident.get_char(i);
        assert(ident@.skip(i as int).drop_first() =~= ident@.skip(i + 1));
        if c == ':' {
            let ghost before = strings_m(parts@);
            let part = cur;
            parts.push_back(part);
            assert(strings_m(parts@) =~= before.push(part@));
            cur = String::new();
        } else {
            push_char(&mut cur, c);
        }
        i = i + 1;
    }
    if cur.unicode_len() > 0 {
        let ghost before = strings_m(parts@);
        parts.push_back(cur);
        assert(strings_m(parts@) =~= before.push(cur@));
    }
    parts
}

/// The text that `{:?}` writes for a string: the string in double quotes, with
/// the characters that need it escaped.
pub uninterp spec fn debug_quoted(s: Seq<char>) -> Seq<char>;

/// Formats `s` as `{:?}` does.
#[verifier::external_body]
fn debug_quote(s: &str) -> (r: String)
    ensures
        r@ == debug_quoted(s@),
{
    format!("{:?}", s)
}

/// The names, each quoted as `{:?}` does, separated by `, `.
pub open spec fn quoted_list(names: Seq<Seq<char>>) -> Seq<char>
    decreases names.len(),
{
    if names.len() == 0 {
        Seq::empty()
    } else if names.len() == 1 {
        debug_quoted(names[0])
    } else {
        quoted_list(names.drop_last()) + ", "@ + debug_quoted(names.last())
    }
}

/// A module path as text: `ModuleIdentifier`, then its names in brackets.
pub open spec fn module_path_text(names: Seq<Seq<char>>) -> Seq<char> {
    "ModuleIdentifier["@ + quoted_list(names) + "]"@
}

impl ModulePath {
    pub fn new(modules: VecDeque<String>) -> (r: Self)
        ensures
            r.path == modules,
    {
        ModulePath { path: modules }
    }

    /// The path of the given module names, in order.
    pub fn from_slice(modules: &[String]) -> (r: Self)
        ensures
            strings_m(r.path@) == strings_m(modules@),
    {
        let mut path: VecDeque<String> = VecDeque::new();
        let mut i: usize = 0;
        while i < modules.len()
            invariant
                i <= modules@.len(),
                strings_m(path@) == strings_m(modules@.take(i as int)),
            decreases modules@.len() - i,
        {
            let ghost before = strings_m(path@);
            let name = modules[i].clone();
            path.push_back(name);
            assert(modules@.take(i + 1) =~= modules@.take(i as int).push(modules@[i as int]));
            assert(strings_m(path@) =~= before.push(name@));
            assert(strings_m(modules@.take(i + 1)) =~= strings_m(modules@.take(i as int)).push(name@));
            i = i + 1;
        }
        assert(modules@.take(modules@.len() as int) =~= modules@);
        ModulePath { path }
    }

    /// The modules of a qualified item name: `"mod:submod:my_function"` gives `mod:submod`.
    pub fn from_qualified_item_identifier(ident: &str) -> (r: Self)
        ensures
            strings_m(r.path@) == (if split_colons(ident@).len() > 0 {
                split_colons(ident@).drop_last()
            } else {
                split_colons(ident@)
            }),
    {
        let mut path = split_terminator_colons(ident);
        let ghost parts = strings_m(path@);
        path.pop_back();
        proof {
            if parts.len() > 0 {
                assert(strings_m(path@) =~= parts.drop_last());
            }
        }
        ModulePath { path }
    }

    /// The path of all the names between colons in `ident`.
    pub fn from_string(ident: &str) -> (r: Self)
        ensures
            strings_m(r.path@) == split_colons(ident@),
    {
        let path = split_terminator_colons(ident);
        ModulePath { path }
    }

    /// The path as text: `ModuleIdentifier`, then the names in brackets, each
    /// quoted as `{:?}` does, separated by `, `.
    pub fn to_text(&self) -> (r: String)
        ensures
            r@ == module_path_text(strings_m(self.path@)),
    {
        let mut text = String::from_str("ModuleIdentifier[");
        let ghost names = strings_m(self.path@);
        let mut i: usize = 0;
        while i < self.path.len()
            invariant
                i <= self.path@.len(),
                names == strings_m(self.path@),
                text@ == "ModuleIdentifier["@ + quoted_list(names.take(i as int)),
            decreases self.path@.len() - i,
        {
            if i > 0 {
                text.append(", ");
            }
            let quoted = debug_quote(self.path[i].as_str());
            text.append(quoted.as_str());
            proof {
                assert(names.take(i + 1).drop_last() =~= names.take(i as int));
                assert(names.take(i + 1).last() == names[i as int]);
                if i == 0 {
                    assert(names.take(1) =~= seq![names[0]]);
                }
            }
            i = i + 1;
            assert(text@ =~= "ModuleIdentifier["@ + quoted_list(names.take(i as int)));
        }
        text.append("]");
        assert(names.take(self.path@.len() as int) =~= names);
        text
    }

    /// Removes the last name of the path and returns it.
    pub fn remove_and_get_last_path(&mut self) -> (r: String)
        requires
            old(self).path@.len() > 0,
        ensures
            r == old(self).path@.last(),
            final(self).path@ == old(self).path@.drop_last(),
    {
        match self.path.pop_back() {
            Some(suffix) => suffix,
            None => String::new(),
        }
    }
}

// ---------------------------------------------------------------- constructors

impl Decl {
    pub fn new(kind: DeclKind, span: CodeSpan) -> (r: Self)
        ensures
            r == (Decl { kind, span }),
    {
        Decl { kind, span }
    }
}

impl CodeBlock {
    /// An empty block.
    pub fn new() -> (r: Self)
        ensures
            r.stmts@ == Seq::<Stmt>::empty(),
    {
        CodeBlock { stmts: Vec::new() }
    }
}

impl TypedVar {
    pub fn new(ident: String, type_expr: TypeExpr) -> (r: Self)
        ensures
            r == (TypedVar { ident, type_expr }),
    {
        TypedVar { ident, type_expr }
    }
}

impl Stmt {
    pub fn new(kind: StmtKind, span: CodeSpan) -> (r: Self)
        ensures
            r == (Stmt { kind, span }),
    {
        Stmt { kind, span }
    }
}

impl Ident {
    /// The name itself, without the module path.
    pub fn base(&self) -> (r: &String)
        ensures
            *r == match self {
                Ident::Simple(s) => *s,
                Ident::WithModulePrefix(_, s) => *s,
            },
    {
        match self {
            Ident::Simple(ident) => ident,
            Ident::WithModulePrefix(_, suffix) => suffix,
        }
    }
}

impl TypeExpr {
    /// The type of pointers to `type_expr`.
    pub fn pointer(type_expr: Self) -> (r: Self)
        ensures
            r == TypeExpr::Pointer(Box::new(type_expr)),
    {
        TypeExpr::Pointer(Box::new(type_expr))
    }
}

impl Expr {
    pub fn new(kind: ExprKind, span: CodeSpan) -> (r: Self)
        ensures
            r == (Expr { kind, span }),
    {
        Expr { kind, span }
    }

    /// The binary expression `left operator right`, spanning both operands.
    pub fn binary(left: Self, operator: BinaryOp, right: Self) -> (r: Self)
        ensures
            r == (Expr {
                span: merged(left.span, right.span),
                kind: ExprKind::Binary { left_expr: Box::new(left), operator, right_expr: Box::new(right) },
            }),
    {
        let span = left.span.merge(right.span);
        Expr::new(ExprKind::Binary { left_expr: Box::new(left), operator, right_expr: Box::new(right) }, span)
    }

    /// The unary expression `operator right`, from `start` to the end of `right`.
    pub fn unary(start: CodeLocation, operator: UnaryOp, right: Self) -> (r: Self)
        ensures
            r == (Expr {
                span: span_of(start, right.span.end),
                kind: ExprKind::Unary { operator, expr: Box::new(right) },
            }),
    {
        let span = CodeSpan { start, end: right.span.end };
        Expr::new(ExprKind::Unary { operator, expr: Box::new(right) }, span)
    }

    /// The expression in a box.
    pub fn boxed(self) -> (r: Box<Self>)
        ensures
            *r == self,
    {
        Box::new(self)
    }
}

} // verus!
