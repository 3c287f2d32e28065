//! The small pieces of syntax that the finalizer puts into a tree.

use vstd::prelude::*;
use crate::ast::{BindingIdentifier, BindingPattern, Declaration, Expression, IdentifierReference, VariableDeclaration, VariableDeclarator, VariableKind};
use crate::list::List;

verus! {

/// `name`, as a binding without a symbol.
pub open spec fn id(name: String) -> BindingIdentifier {
    BindingIdentifier { name, symbol_id: None }
}

/// `name`, as an expression.
pub open spec fn id_ref(name: String) -> Expression {
    Expression::Identifier(IdentifierReference { name, symbol_id: None })
}

/// `callee(arguments)`.
pub open spec fn call_named(callee: String, arguments: List<Expression>) -> Expression {
    Expression::Call { callee: Box::new(id_ref(callee)), arguments, record: None }
}

/// `callee()`.
pub open spec fn call(callee: String) -> Expression {
    call_named(callee, List::Nil)
}

/// `callee(argument)`.
pub open spec fn call_with(callee: String, argument: Expression) -> Expression {
    call_named(callee, List::one(argument))
}

/// `callee(first, second)`.
pub open spec fn call_with_two(callee: String, first: Expression, second: Expression) -> Expression {
    call_named(callee, List::two(first, second))
}

/// `(first, second)`.
pub open spec fn seq2(first: Expression, second: Expression) -> Expression {
    Expression::Sequence(List::two(first, second))
}

/// `var name = init`.
pub open spec fn var_decl(name: String, init: Expression) -> Declaration {
    Declaration::Variable(
        VariableDeclaration {
            kind: VariableKind::Var,
            declarations: List::one(
                VariableDeclarator { id: BindingPattern::Identifier(id(name)), init: Some(init) },
            ),
        },
    )
}

/// `var name`.
pub open spec fn bare_declarator(name: String) -> VariableDeclarator {
    VariableDeclarator { id: BindingPattern::Identifier(id(name)), init: None }
}

/// Makes `name`, as an expression.
pub fn id_ref_expr(name: String) -> (r: Expression)
    ensures
        r == id_ref(name),
{
    Expression::Identifier(IdentifierReference { name, symbol_id: None })
}

/// Makes `callee()`.
pub fn call_expr_expr(callee: String) -> (r: Expression)
    ensures
        r == call(callee),
{
    Expression::Call { callee: Box::new(id_ref_expr(callee)), arguments: List::Nil, record: None }
}

/// Makes `callee(argument)`.
pub fn call_expr_with_arg_expr_expr(callee: String, argument: Expression) -> (r: Expression)
    ensures
        r == call_with(callee, argument),
{
    Expression::Call {
        callee: Box::new(id_ref_expr(callee)),
        arguments: List::single(argument),
        record: None,
    }
}

/// Makes `callee(first, second)`.
pub fn call_expr_with_2arg_expr_expr(callee: String, first: Expression, second: Expression) -> (r:
    Expression)
    ensures
        r == call_with_two(callee, first, second),
{
    Expression::Call {
        callee: Box::new(id_ref_expr(callee)),
        arguments: List::single(second).push_front(first),
        record: None,
    }
}

/// Makes `(first, second)`.
pub fn seq2_in_paren_expr(first: Expression, second: Expression) -> (r: Expression)
    ensures
        r == seq2(first, second),
{
    Expression::Sequence(List::single(second).push_front(first))
}

/// Makes `var name = init`.
pub fn var_decl_stmt(name: String, init: Expression) -> (r: Declaration)
    ensures
        r == var_decl(name, init),
{
    Declaration::Variable(
        VariableDeclaration {
            kind: VariableKind::Var,
            declarations: List::single(
                VariableDeclarator {
                    id: BindingPattern::Identifier(BindingIdentifier { name, symbol_id: None }),
                    init: Some(init),
                },
            ),
        },
    )
}

} // verus!
