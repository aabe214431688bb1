//! The data of semantic analysis: types, symbols and symbol tables.

use vstd::prelude::*;
use std::collections::HashMap;
use crate::ast::{Ast, DeclM, decls_m};

verus! {

/// The type of a value.
pub enum Type {
    Builtin(BuiltinType),
    Custom(CustomType),
    Array(Box<Type>, usize),
    Pointer(Box<Type>),
}

/// A type declared in the program, with its size in bytes.
pub struct CustomType {
    pub name: String,
    pub byte_width: usize,
}

/// The types the language has from the start.
pub enum BuiltinType {
    SignedInt8,
    SignedInt16,
    SignedInt32,
    SignedInt64,
    SignedInt128,
    UnsignedInt8,
    UnsignedInt16,
    UnsignedInt32,
    UnsignedInt64,
    UnsignedInt128,
    Bool,
    Unknown,
    /// The type of expression statements that give no value.
    Empty,
}

/// A function with its return type.
pub struct Function {
    pub name: String,
    pub return_type: Type,
}

/// What a name stands for.
pub enum Symbol {
    Function { name: String, params: Vec<(String, Type)> },
    Struct { name: String, params: Vec<(String, Type)> },
}

/// The functions, structs and imported names of a scope, each by its name.
pub struct SymbolTable {
    pub functions: HashMap<String, Symbol>,
    pub structs: HashMap<String, Symbol>,
    pub uses: HashMap<String, Symbol>,
}

impl SymbolTable {
    /// A table with no symbols.
    pub fn new() -> (r: Self)
        ensures
            r.functions@ == Map::<String, Symbol>::empty(),
            r.structs@ == Map::<String, Symbol>::empty(),
            r.uses@ == Map::<String, Symbol>::empty(),
    {
        SymbolTable { functions: HashMap::new(), structs: HashMap::new(), uses: HashMap::new() }
    }
}

/// The symbol tables of the scopes that enclose a point of the program.
pub struct ScopeStack {
    scopes: Vec<SymbolTable>,
}

/// Semantic analysis of a program.
pub struct SemanticAnalyzer {
    ast: Ast,
}

impl View for SemanticAnalyzer {
    type V = Seq<DeclM>;

    closed spec fn view(&self) -> Seq<DeclM> {
        decls_m(self.ast@)
    }
}

impl SemanticAnalyzer {
    /// An analyzer of the program `ast`.
    pub fn new(ast: Ast) -> (r: Self)
        ensures
            r@ == decls_m(ast@),
    {
        SemanticAnalyzer { ast }
    }

    /// The symbols that the program declares; no declaration adds one yet.
    pub fn analyze(&mut self) -> (r: SymbolTable)
        ensures
            final(self)@ == old(self)@,
            r.functions@ == Map::<String, Symbol>::empty(),
            r.structs@ == Map::<String, Symbol>::empty(),
            r.uses@ == Map::<String, Symbol>::empty(),
    {
        SymbolTable::new()
    }
}

} // verus!
