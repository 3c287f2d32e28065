//! The syntax tree that the finalizer rewrites.

use vstd::prelude::*;
use crate::list::List;

verus! {

/// A name that a declaration binds. `symbol_id` is the local symbol that the
/// name stands for, until the finalizer has seen the identifier.
#[derive(Debug, PartialEq, Eq)]
pub struct BindingIdentifier {
    pub name: String,
    pub symbol_id: Option<usize>,
}

/// A use of a name. `symbol_id` is the local symbol that the use resolves
/// to; a global or unresolvable name has none.
#[derive(Debug, PartialEq, Eq)]
pub struct IdentifierReference {
    pub name: String,
    pub symbol_id: Option<usize>,
}

#[derive(Debug, PartialEq, Eq)]
pub enum Expression {
    Identifier(IdentifierReference),
    StringLiteral(String),
    NumberLiteral(u64),
    /// `callee(arguments)`; `record` is the import record of the call site,
    /// where the scanner made one.
    Call { callee: Box<Expression>, arguments: List<Expression>, record: Option<usize> },
    /// `import(source, arguments)`.
    Import { source: Box<Expression>, arguments: List<Expression>, record: usize },
    Object(List<ObjectProperty>),
    Class(Box<Class>),
    Function(Box<Function>),
    /// `(a, b, ..)`.
    Sequence(List<Expression>),
    /// `object.property`.
    Member { object: Box<Expression>, property: String },
    /// `target = value`.
    Assignment { target: Box<AssignmentTarget>, value: Box<Expression> },
}

/// `key: value`, or `key` alone where `shorthand` is set.
#[derive(Debug, PartialEq, Eq)]
pub struct ObjectProperty {
    pub key: String,
    pub value: Expression,
    pub shorthand: bool,
}

#[derive(Debug, PartialEq, Eq)]
pub enum SimpleAssignmentTarget {
    Identifier(IdentifierReference),
    /// A member expression, or any other expression that can be assigned to.
    Member(Expression),
}

#[derive(Debug, PartialEq, Eq)]
pub enum AssignmentTarget {
    Simple(SimpleAssignmentTarget),
    /// `{ properties, ...rest }`.
    Object { properties: List<AssignmentTargetProperty>, rest: Option<Box<AssignmentTarget>> },
    Array(List<AssignmentTarget>),
    WithDefault { target: Box<AssignmentTarget>, init: Box<Expression> },
}

#[derive(Debug, PartialEq, Eq)]
pub enum AssignmentTargetProperty {
    /// `{ binding }` or `{ binding = init }`.
    Identifier { binding: IdentifierReference, init: Option<Expression> },
    /// `{ name: binding }`.
    Property { name: String, binding: AssignmentTarget },
}

#[derive(Debug, PartialEq, Eq)]
pub enum BindingPattern {
    Identifier(BindingIdentifier),
    Object(ObjectPattern),
    Array(List<BindingPattern>),
    /// `left = right`.
    Assignment { left: Box<BindingPattern>, right: Box<Expression> },
}

#[derive(Debug, PartialEq, Eq)]
pub struct ObjectPattern {
    pub properties: List<BindingProperty>,
    pub rest: Option<Box<BindingPattern>>,
}

/// `key: value`, or the shorthand `value` / `value = default`.
#[derive(Debug, PartialEq, Eq)]
pub struct BindingProperty {
    pub key: String,
    pub value: BindingPattern,
    pub shorthand: bool,
}

#[derive(Debug, PartialEq, Eq)]
pub struct Function {
    pub id: Option<BindingIdentifier>,
    pub params: List<BindingPattern>,
    pub body: List<Statement>,
}

#[derive(Debug, PartialEq, Eq)]
pub struct Class {
    pub id: Option<BindingIdentifier>,
    pub super_class: Option<Expression>,
    pub methods: List<Function>,
}

#[derive(Debug, Clone, Copy, PartialEq, Eq)]
pub enum VariableKind {
    Var,
    Let,
    Const,
}

#[derive(Debug, PartialEq, Eq)]
pub struct VariableDeclarator {
    pub id: BindingPattern,
    pub init: Option<Expression>,
}

#[derive(Debug, PartialEq, Eq)]
pub struct VariableDeclaration {
    pub kind: VariableKind,
    pub declarations: List<VariableDeclarator>,
}

#[derive(Debug, PartialEq, Eq)]
pub enum Declaration {
    Variable(VariableDeclaration),
    Function(Function),
    Class(Class),
}

/// What `export default` exports.
#[derive(Debug, PartialEq, Eq)]
pub enum ExportDefaultKind {
    Expression(Expression),
    Function(Function),
    Class(Class),
}

/// An import or export construct. `record` and `source` are numbers of
/// import records of the module.
#[derive(Debug, PartialEq, Eq)]
pub enum ModuleDeclaration {
    /// `import .. from '..'`.
    Import { record: usize },
    /// `export * from '..'`, or `export * as exported from '..'`.
    ExportAll { record: usize, exported: Option<String> },
    ExportDefault(ExportDefaultKind),
    /// `export <declaration>`, `export { .. }` or `export { .. } from '..'`;
    /// `source` is the import record of the last form.
    ExportNamed { source: Option<usize>, declaration: Option<Declaration> },
}

/// A statement that can stand anywhere. Import and export constructs are
/// not among them: they stand at the top of a module only.
#[derive(Debug, PartialEq, Eq)]
pub enum Statement {
    Declaration(Declaration),
    Expression(Expression),
    Block(List<Statement>),
    Return(Option<Expression>),
    /// `var name = helper((exports, module) => { body })`.
    CommonJsWrapper { name: String, helper: String, body: List<Statement> },
    /// `var name = helper(() => { body })`.
    EsmWrapper { name: String, helper: String, body: List<Statement> },
}

#[derive(Debug, PartialEq, Eq)]
pub enum TopLevelStatement {
    Module(ModuleDeclaration),
    Plain(Statement),
}

/// A module as the parser left it.
#[derive(Debug, PartialEq, Eq)]
pub struct Program {
    pub body: List<TopLevelStatement>,
}

/// A module as it goes into an output file: no import or export construct
/// is left in it.
#[derive(Debug, PartialEq, Eq)]
pub struct FinalizedProgram {
    pub body: List<Statement>,
}

} // verus!
