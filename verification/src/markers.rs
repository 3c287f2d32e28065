//! Trees without symbol markers, and the proof that a finalized tree is one.
//!
//! A tree is unmarked where no binding and no reference in it holds a
//! symbol: every identifier has been seen by the walk.

use vstd::prelude::*;
use crate::ast::{AssignmentTarget, AssignmentTargetProperty, BindingPattern, BindingProperty, Class, Declaration, Expression, Function, ObjectPattern, ObjectProperty, Program, SimpleAssignmentTarget, Statement, VariableDeclaration, VariableDeclarator, VariableKind};
use crate::context::{Finalizer, WrapKind};
use crate::list::List;
use crate::wrapper::{assignments, closure_body, esm_wrapped, hoisted_functions, hoisted_names, inside_closure, name_declarators, property_target, property_targets, target_of, targets_of};

verus! {

/// Whether no identifier in `e` holds a symbol. The functions below say
/// the same of the other kinds of node.
pub open spec fn unmarked_expression(e: Expression) -> bool
    decreases e,
{
    match e {
        Expression::Identifier(ident) => ident.symbol_id is None,
        Expression::StringLiteral(_) => true,
        Expression::NumberLiteral(_) => true,
        Expression::Call { callee, arguments, record } => unmarked_expression(*callee)
            && unmarked_expressions(arguments),
        Expression::Import { source, arguments, record } => unmarked_expression(*source)
            && unmarked_expressions(arguments),
        Expression::Object(properties) => unmarked_object_properties(properties),
        Expression::Class(class) => unmarked_class(*class),
        Expression::Function(function) => unmarked_function(*function),
        Expression::Sequence(items) => unmarked_expressions(items),
        Expression::Member { object, property } => unmarked_expression(*object),
        Expression::Assignment { target, value } => unmarked_target(*target) && unmarked_expression(
            *value,
        ),
    }
}

pub open spec fn unmarked_optional_expression(e: Option<Expression>) -> bool
    decreases e,
{
    match e {
        Some(e) => unmarked_expression(e),
        None => true,
    }
}

pub open spec fn unmarked_object_property(p: ObjectProperty) -> bool
    decreases p,
{
    unmarked_expression(p.value)
}

pub open spec fn unmarked_simple_target(t: SimpleAssignmentTarget) -> bool
    decreases t,
{
    match t {
        SimpleAssignmentTarget::Identifier(ident) => ident.symbol_id is None,
        SimpleAssignmentTarget::Member(e) => unmarked_expression(e),
    }
}

pub open spec fn unmarked_target(t: AssignmentTarget) -> bool
    decreases t,
{
    match t {
        AssignmentTarget::Simple(s) => unmarked_simple_target(s),
        AssignmentTarget::Object { properties, rest } => unmarked_target_properties(properties)
            && match rest {
            Some(rest) => unmarked_target(*rest),
            None => true,
        },
        AssignmentTarget::Array(items) => unmarked_targets(items),
        AssignmentTarget::WithDefault { target, init } => unmarked_target(*target)
            && unmarked_expression(*init),
    }
}

pub open spec fn unmarked_target_property(p: AssignmentTargetProperty) -> bool
    decreases p,
{
    match p {
        AssignmentTargetProperty::Identifier { binding, init } => binding.symbol_id is None
            && unmarked_optional_expression(init),
        AssignmentTargetProperty::Property { name, binding } => unmarked_target(binding),
    }
}

pub open spec fn unmarked_pattern(p: BindingPattern) -> bool
    decreases p,
{
    match p {
        BindingPattern::Identifier(ident) => ident.symbol_id is None,
        BindingPattern::Object(o) => unmarked_object_pattern(o),
        BindingPattern::Array(items) => unmarked_patterns(items),
        BindingPattern::Assignment { left, right } => unmarked_pattern(*left)
            && unmarked_expression(*right),
    }
}

pub open spec fn unmarked_binding_property(p: BindingProperty) -> bool
    decreases p,
{
    unmarked_pattern(p.value)
}

pub open spec fn unmarked_object_pattern(o: ObjectPattern) -> bool
    decreases o,
{
    unmarked_binding_properties(o.properties) && match o.rest {
        Some(rest) => unmarked_pattern(*rest),
        None => true,
    }
}

pub open spec fn unmarked_function(f: Function) -> bool
    decreases f,
{
    &&& f.id matches Some(ident) ==> ident.symbol_id is None
    &&& unmarked_patterns(f.params)
    &&& unmarked_statements(f.body)
}

pub open spec fn unmarked_class(c: Class) -> bool
    decreases c,
{
    &&& c.id matches Some(ident) ==> ident.symbol_id is None
    &&& unmarked_optional_expression(c.super_class)
    &&& unmarked_functions(c.methods)
}

pub open spec fn unmarked_declarator(d: VariableDeclarator) -> bool
    decreases d,
{
    unmarked_pattern(d.id) && unmarked_optional_expression(d.init)
}

pub open spec fn unmarked_declaration(d: Declaration) -> bool
    decreases d,
{
    match d {
        Declaration::Variable(v) => unmarked_declarators(v.declarations),
        Declaration::Function(f) => unmarked_function(f),
        Declaration::Class(c) => unmarked_class(c),
    }
}

pub open spec fn unmarked_statement(s: Statement) -> bool
    decreases s,
{
    match s {
        Statement::Declaration(d) => unmarked_declaration(d),
        Statement::Expression(e) => unmarked_expression(e),
        Statement::Block(body) => unmarked_statements(body),
        Statement::Return(e) => unmarked_optional_expression(e),
        Statement::CommonJsWrapper { name, helper, body } => unmarked_statements(body),
        Statement::EsmWrapper { name, helper, body } => unmarked_statements(body),
    }
}

pub open spec fn unmarked_expressions(l: List<Expression>) -> bool
    decreases l,
{
    match l {
        List::Nil => true,
        List::Cons(head, tail) => unmarked_expression(*head) && unmarked_expressions(*tail),
    }
}

pub open spec fn unmarked_object_properties(l: List<ObjectProperty>) -> bool
    decreases l,
{
    match l {
        List::Nil => true,
        List::Cons(head, tail) => unmarked_object_property(*head) && unmarked_object_properties(*tail),
    }
}

pub open spec fn unmarked_targets(l: List<AssignmentTarget>) -> bool
    decreases l,
{
    match l {
        List::Nil => true,
        List::Cons(head, tail) => unmarked_target(*head) && unmarked_targets(*tail),
    }
}

pub open spec fn unmarked_target_properties(l: List<AssignmentTargetProperty>) -> bool
    decreases l,
{
    match l {
        List::Nil => true,
        List::Cons(head, tail) => unmarked_target_property(*head) && unmarked_target_properties(*tail),
    }
}

pub open spec fn unmarked_patterns(l: List<BindingPattern>) -> bool
    decreases l,
{
    match l {
        List::Nil => true,
        List::Cons(head, tail) => unmarked_pattern(*head) && unmarked_patterns(*tail),
    }
}

pub open spec fn unmarked_binding_properties(l: List<BindingProperty>) -> bool
    decreases l,
{
    match l {
        List::Nil => true,
        List::Cons(head, tail) => unmarked_binding_property(*head) && unmarked_binding_properties(*tail),
    }
}

pub open spec fn unmarked_functions(l: List<Function>) -> bool
    decreases l,
{
    match l {
        List::Nil => true,
        List::Cons(head, tail) => unmarked_function(*head) && unmarked_functions(*tail),
    }
}

pub open spec fn unmarked_declarators(l: List<VariableDeclarator>) -> bool
    decreases l,
{
    match l {
        List::Nil => true,
        List::Cons(head, tail) => unmarked_declarator(*head) && unmarked_declarators(*tail),
    }
}

pub open spec fn unmarked_statements(l: List<Statement>) -> bool
    decreases l,
{
    match l {
        List::Nil => true,
        List::Cons(head, tail) => unmarked_statement(*head) && unmarked_statements(*tail),
    }
}

/// What stands for a `require` call holds no marker.
pub proof fn replacement_is_unmarked(ctx: Finalizer, m: usize)
    ensures
        unmarked_expression(ctx.require_replacement(m)),
{
    reveal_with_fuel(unmarked_expression, 8);
    reveal_with_fuel(unmarked_expressions, 8);
}

/// The walk leaves no marker in an expression.
pub proof fn walk_unmarks_expression(ctx: Finalizer, e: Expression)
    ensures
        unmarked_expression(ctx.expression(e)),
    decreases e,
{
    reveal_with_fuel(unmarked_expression, 2);
    match e {
        Expression::Identifier(_) => {},
        Expression::StringLiteral(_) => {},
        Expression::NumberLiteral(_) => {},
        Expression::Call { callee, arguments, record } => {
            match ctx.require_target(e) {
                Some(m) => {
                    replacement_is_unmarked(ctx, m);
                },
                None => {
                    walk_unmarks_expression(ctx, *callee);
                    walk_unmarks_expressions(ctx, arguments);
                },
            }
        },
        Expression::Import { source, arguments, record } => {
            walk_unmarks_expression(ctx, *source);
            walk_unmarks_expressions(ctx, arguments);
        },
        Expression::Object(properties) => {
            walk_unmarks_object_properties(ctx, properties);
        },
        Expression::Class(class) => {
            walk_unmarks_class(ctx, *class);
        },
        Expression::Function(function) => {
            walk_unmarks_function(ctx, *function);
        },
        Expression::Sequence(items) => {
            walk_unmarks_expressions(ctx, items);
        },
        Expression::Member { object, property } => {
            walk_unmarks_expression(ctx, *object);
        },
        Expression::Assignment { target, value } => {
            walk_unmarks_target(ctx, *target);
            walk_unmarks_expression(ctx, *value);
        },
    }
}

proof fn walk_unmarks_optional_expression(ctx: Finalizer, e: Option<Expression>)
    ensures
        unmarked_optional_expression(ctx.optional_expression(e)),
    decreases e,
{
    match e {
        Some(e) => {
            walk_unmarks_expression(ctx, e);
        },
        None => {},
    }
}

proof fn walk_unmarks_object_property(ctx: Finalizer, p: ObjectProperty)
    ensures
        unmarked_object_property(ctx.object_property(p)),
    decreases p,
{
    walk_unmarks_expression(ctx, p.value);
}

proof fn walk_unmarks_target(ctx: Finalizer, t: AssignmentTarget)
    ensures
        unmarked_target(ctx.assignment_target(t)),
    decreases t,
{
    reveal_with_fuel(Finalizer::assignment_target, 3);
    reveal_with_fuel(Finalizer::simple_assignment_target, 3);
    reveal_with_fuel(unmarked_target, 3);
    reveal_with_fuel(unmarked_simple_target, 3);
    match t {
        AssignmentTarget::Simple(s) => {
            match s {
                SimpleAssignmentTarget::Identifier(_) => {},
                SimpleAssignmentTarget::Member(e) => {
                    walk_unmarks_expression(ctx, e);
                },
            }
        },
        AssignmentTarget::Object { properties, rest } => {
            walk_unmarks_target_properties(ctx, properties);
            match rest {
                Some(rest) => {
                    walk_unmarks_target(ctx, *rest);
                },
                None => {},
            }
        },
        AssignmentTarget::Array(items) => {
            walk_unmarks_targets(ctx, items);
        },
        AssignmentTarget::WithDefault { target, init } => {
            walk_unmarks_target(ctx, *target);
            walk_unmarks_expression(ctx, *init);
        },
    }
}

proof fn walk_unmarks_target_property(ctx: Finalizer, p: AssignmentTargetProperty)
    ensures
        unmarked_target_property(ctx.assignment_target_property(p)),
    decreases p,
{
    reveal_with_fuel(unmarked_target_property, 5);
    reveal_with_fuel(unmarked_target, 5);
    reveal_with_fuel(unmarked_simple_target, 5);
    reveal_with_fuel(unmarked_optional_expression, 5);
    match p {
        AssignmentTargetProperty::Identifier { binding, init } => {
            walk_unmarks_optional_expression(ctx, init);
        },
        AssignmentTargetProperty::Property { name, binding } => {
            walk_unmarks_target(ctx, binding);
        },
    }
}

proof fn walk_unmarks_pattern(ctx: Finalizer, p: BindingPattern)
    ensures
        unmarked_pattern(ctx.binding_pattern(p)),
    decreases p,
{
    reveal_with_fuel(Finalizer::binding_pattern, 3);
    reveal_with_fuel(Finalizer::object_pattern, 3);
    reveal_with_fuel(unmarked_pattern, 3);
    reveal_with_fuel(unmarked_object_pattern, 3);
    match p {
        BindingPattern::Identifier(_) => {},
        BindingPattern::Object(o) => {
            walk_unmarks_binding_properties(ctx, o.properties);
            match o.rest {
                Some(rest) => {
                    walk_unmarks_pattern(ctx, *rest);
                },
                None => {},
            }
        },
        BindingPattern::Array(items) => {
            walk_unmarks_patterns(ctx, items);
        },
        BindingPattern::Assignment { left, right } => {
            walk_unmarks_pattern(ctx, *left);
            walk_unmarks_expression(ctx, *right);
        },
    }
}

proof fn walk_unmarks_binding_property(ctx: Finalizer, p: BindingProperty)
    ensures
        unmarked_binding_property(ctx.binding_property(p)),
    decreases p,
{
    walk_unmarks_pattern(ctx, p.value);
}

proof fn walk_unmarks_function(ctx: Finalizer, f: Function)
    ensures
        unmarked_function(ctx.function(f)),
    decreases f,
{
    walk_unmarks_patterns(ctx, f.params);
    walk_unmarks_statements(ctx, f.body);
}

proof fn walk_unmarks_class(ctx: Finalizer, c: Class)
    ensures
        unmarked_class(ctx.class(c)),
    decreases c,
{
    walk_unmarks_optional_expression(ctx, c.super_class);
    walk_unmarks_functions(ctx, c.methods);
}

proof fn walk_unmarks_declarator(ctx: Finalizer, d: VariableDeclarator)
    ensures
        unmarked_declarator(ctx.variable_declarator(d)),
    decreases d,
{
    walk_unmarks_pattern(ctx, d.id);
    walk_unmarks_optional_expression(ctx, d.init);
    if ctx.names_anonymous_class(d) {
        let class = d.init->0->Class_0;
        assert(ctx.require_target(d.init->0) is None);
        assert(ctx.optional_expression(d.init) == Some(
            Expression::Class(Box::new(ctx.class(*class))),
        ));
        assert(unmarked_class(ctx.class(*class)));
    }
}

proof fn walk_unmarks_declaration(ctx: Finalizer, d: Declaration)
    ensures
        unmarked_declaration(ctx.declaration(d)),
    decreases d,
{
    reveal_with_fuel(unmarked_declaration, 6);
    reveal_with_fuel(unmarked_declarators, 6);
    reveal_with_fuel(unmarked_declarator, 6);
    reveal_with_fuel(unmarked_pattern, 6);
    reveal_with_fuel(unmarked_optional_expression, 6);
    reveal_with_fuel(unmarked_expression, 6);
    match d {
        Declaration::Variable(v) => {
            walk_unmarks_declarators(ctx, v.declarations);
        },
        Declaration::Function(f) => {
            walk_unmarks_function(ctx, f);
        },
        Declaration::Class(c) => {
            walk_unmarks_class(ctx, c);
        },
    }
}

proof fn walk_unmarks_statement(ctx: Finalizer, s: Statement)
    ensures
        unmarked_statement(ctx.statement(s)),
    decreases s,
{
    match s {
        Statement::Declaration(d) => {
            walk_unmarks_declaration(ctx, d);
        },
        Statement::Expression(e) => {
            walk_unmarks_expression(ctx, e);
        },
        Statement::Block(body) => {
            walk_unmarks_statements(ctx, body);
        },
        Statement::Return(e) => {
            walk_unmarks_optional_expression(ctx, e);
        },
        Statement::CommonJsWrapper { name, helper, body } => {
            walk_unmarks_statements(ctx, body);
        },
        Statement::EsmWrapper { name, helper, body } => {
            walk_unmarks_statements(ctx, body);
        },
    }
}

proof fn walk_unmarks_expressions(ctx: Finalizer, l: List<Expression>)
    ensures
        unmarked_expressions(ctx.expression_list(l)),
    decreases l,
{
    match l {
        List::Nil => {},
        List::Cons(head, tail) => {
            walk_unmarks_expression(ctx, *head);
            walk_unmarks_expressions(ctx, *tail);
        },
    }
}

proof fn walk_unmarks_object_properties(ctx: Finalizer, l: List<ObjectProperty>)
    ensures
        unmarked_object_properties(ctx.object_property_list(l)),
    decreases l,
{
    match l {
        List::Nil => {},
        List::Cons(head, tail) => {
            walk_unmarks_object_property(ctx, *head);
            walk_unmarks_object_properties(ctx, *tail);
        },
    }
}

proof fn walk_unmarks_targets(ctx: Finalizer, l: List<AssignmentTarget>)
    ensures
        unmarked_targets(ctx.assignment_target_list(l)),
    decreases l,
{
    match l {
        List::Nil => {},
        List::Cons(head, tail) => {
            walk_unmarks_target(ctx, *head);
            walk_unmarks_targets(ctx, *tail);
        },
    }
}

proof fn walk_unmarks_target_properties(ctx: Finalizer, l: List<AssignmentTargetProperty>)
    ensures
        unmarked_target_properties(ctx.assignment_target_property_list(l)),
    decreases l,
{
    match l {
        List::Nil => {},
        List::Cons(head, tail) => {
            walk_unmarks_target_property(ctx, *head);
            walk_unmarks_target_properties(ctx, *tail);
        },
    }
}

proof fn walk_unmarks_patterns(ctx: Finalizer, l: List<BindingPattern>)
    ensures
        unmarked_patterns(ctx.binding_pattern_list(l)),
    decreases l,
{
    match l {
        List::Nil => {},
        List::Cons(head, tail) => {
            walk_unmarks_pattern(ctx, *head);
            walk_unmarks_patterns(ctx, *tail);
        },
    }
}

proof fn walk_unmarks_binding_properties(ctx: Finalizer, l: List<BindingProperty>)
    ensures
        unmarked_binding_properties(ctx.binding_property_list(l)),
    decreases l,
{
    match l {
        List::Nil => {},
        List::Cons(head, tail) => {
            walk_unmarks_binding_property(ctx, *head);
            walk_unmarks_binding_properties(ctx, *tail);
        },
    }
}

proof fn walk_unmarks_functions(ctx: Finalizer, l: List<Function>)
    ensures
        unmarked_functions(ctx.function_list(l)),
    decreases l,
{
    match l {
        List::Nil => {},
        List::Cons(head, tail) => {
            walk_unmarks_function(ctx, *head);
            walk_unmarks_functions(ctx, *tail);
        },
    }
}

proof fn walk_unmarks_declarators(ctx: Finalizer, l: List<VariableDeclarator>)
    ensures
        unmarked_declarators(ctx.variable_declarator_list(l)),
    decreases l,
{
    match l {
        List::Nil => {},
        List::Cons(head, tail) => {
            walk_unmarks_declarator(ctx, *head);
            walk_unmarks_declarators(ctx, *tail);
        },
    }
}

/// The walk leaves no marker in a list of statements.
pub proof fn walk_unmarks_statements(ctx: Finalizer, l: List<Statement>)
    ensures
        unmarked_statements(ctx.statement_list(l)),
    decreases l,
{
    match l {
        List::Nil => {},
        List::Cons(head, tail) => {
            walk_unmarks_statement(ctx, *head);
            walk_unmarks_statements(ctx, *tail);
        },
    }
}

/// Two unmarked lists, one behind the other, are unmarked.
pub proof fn concat_is_unmarked(a: List<Statement>, b: List<Statement>)
    requires
        unmarked_statements(a),
        unmarked_statements(b),
    ensures
        unmarked_statements(a.concat(b)),
    decreases a,
{
    match a {
        List::Nil => {},
        List::Cons(head, tail) => {
            concat_is_unmarked(*tail, b);
        },
    }
}

proof fn target_of_is_unmarked(p: BindingPattern)
    requires
        unmarked_pattern(p),
    ensures
        unmarked_target(target_of(p)),
    decreases p,
{
    reveal_with_fuel(unmarked_pattern, 4);
    reveal_with_fuel(unmarked_object_pattern, 4);
    reveal_with_fuel(unmarked_target, 4);
    reveal_with_fuel(unmarked_simple_target, 4);
    match p {
        BindingPattern::Identifier(_) => {},
        BindingPattern::Object(o) => {
            property_targets_are_unmarked(o.properties);
            match o.rest {
                Some(rest) => {
                    target_of_is_unmarked(*rest);
                },
                None => {},
            }
        },
        BindingPattern::Array(items) => {
            targets_of_are_unmarked(items);
        },
        BindingPattern::Assignment { left, right } => {
            target_of_is_unmarked(*left);
        },
    }
}

proof fn targets_of_are_unmarked(l: List<BindingPattern>)
    requires
        unmarked_patterns(l),
    ensures
        unmarked_targets(targets_of(l)),
    decreases l,
{
    match l {
        List::Nil => {},
        List::Cons(head, tail) => {
            target_of_is_unmarked(*head);
            targets_of_are_unmarked(*tail);
        },
    }
}

proof fn property_targets_are_unmarked(l: List<BindingProperty>)
    requires
        unmarked_binding_properties(l),
    ensures
        unmarked_target_properties(property_targets(l)),
    decreases l,
{
    reveal_with_fuel(property_targets, 3);
    reveal_with_fuel(property_target, 3);
    reveal_with_fuel(unmarked_binding_properties, 4);
    reveal_with_fuel(unmarked_binding_property, 4);
    reveal_with_fuel(unmarked_target_properties, 4);
    reveal_with_fuel(unmarked_target_property, 4);
    reveal_with_fuel(unmarked_optional_expression, 4);
    match l {
        List::Nil => {},
        List::Cons(head, tail) => {
            target_of_is_unmarked(head.value);
            property_targets_are_unmarked(*tail);
        },
    }
}

proof fn assignments_are_unmarked(l: List<VariableDeclarator>)
    requires
        unmarked_declarators(l),
    ensures
        unmarked_expressions(assignments(l)),
    decreases l,
{
    reveal_with_fuel(unmarked_declarators, 4);
    reveal_with_fuel(unmarked_declarator, 4);
    reveal_with_fuel(unmarked_expressions, 4);
    reveal_with_fuel(unmarked_expression, 4);
    reveal_with_fuel(unmarked_optional_expression, 4);
    match l {
        List::Nil => {},
        List::Cons(head, tail) => {
            target_of_is_unmarked(head.id);
            assignments_are_unmarked(*tail);
        },
    }
}

proof fn name_declarators_are_unmarked(names: List<String>)
    ensures
        unmarked_declarators(name_declarators(names)),
    decreases names,
{
    reveal_with_fuel(unmarked_declarators, 4);
    reveal_with_fuel(unmarked_declarator, 4);
    reveal_with_fuel(unmarked_pattern, 4);
    reveal_with_fuel(unmarked_optional_expression, 4);
    match names {
        List::Nil => {},
        List::Cons(head, tail) => {
            name_declarators_are_unmarked(*tail);
        },
    }
}

proof fn hoisted_functions_are_unmarked(l: List<Statement>)
    requires
        unmarked_statements(l),
    ensures
        unmarked_statements(hoisted_functions(l)),
    decreases l,
{
    match l {
        List::Nil => {},
        List::Cons(head, tail) => {
            hoisted_functions_are_unmarked(*tail);
        },
    }
}

proof fn inside_closure_is_unmarked(s: Statement)
    requires
        unmarked_statement(s),
    ensures
        unmarked_statements(inside_closure(s)),
{
    reveal_with_fuel(unmarked_statements, 6);
    reveal_with_fuel(unmarked_statement, 6);
    reveal_with_fuel(unmarked_declaration, 6);
    reveal_with_fuel(unmarked_expression, 6);
    reveal_with_fuel(unmarked_target, 6);
    reveal_with_fuel(unmarked_simple_target, 6);
    reveal_with_fuel(unmarked_class, 6);
    match s {
        Statement::Declaration(Declaration::Variable(v)) => {
            assignments_are_unmarked(v.declarations);
        },
        _ => {},
    }
}

proof fn closure_body_is_unmarked(l: List<Statement>)
    requires
        unmarked_statements(l),
    ensures
        unmarked_statements(closure_body(l)),
    decreases l,
{
    match l {
        List::Nil => {},
        List::Cons(head, tail) => {
            inside_closure_is_unmarked(*head);
            closure_body_is_unmarked(*tail);
            concat_is_unmarked(inside_closure(*head), closure_body(*tail));
        },
    }
}

/// The wrapper of an ES module brings no marker in.
pub proof fn esm_wrapped_is_unmarked(name: String, helper: String, body: List<Statement>)
    requires
        unmarked_statements(body),
    ensures
        unmarked_statements(esm_wrapped(name, helper, body)),
{
    reveal_with_fuel(unmarked_statements, 3);
    hoisted_functions_are_unmarked(body);
    closure_body_is_unmarked(body);
    name_declarators_are_unmarked(hoisted_names(body));
    let wrapper = Statement::EsmWrapper { name, helper, body: closure_body(body) };
    assert(unmarked_statement(wrapper));
    let tail = if hoisted_names(body) is Nil {
        List::one(wrapper)
    } else {
        List::two(
            Statement::Declaration(
                Declaration::Variable(
                    VariableDeclaration {
                        kind: VariableKind::Var,
                        declarations: name_declarators(hoisted_names(body)),
                    },
                ),
            ),
            wrapper,
        )
    };
    assert(unmarked_statements(tail));
    concat_is_unmarked(hoisted_functions(body), tail);
}

/// No symbol marker is left in a finalized module: the walk has seen every
/// binding and every reference.
pub proof fn finalized_tree_is_unmarked(ctx: Finalizer, program: Program)
    ensures
        unmarked_statements(ctx.finalized(program).body),
{
    let body = ctx.statement_list(ctx.unlinked_body(program));
    walk_unmarks_statements(ctx, ctx.unlinked_body(program));
    reveal_with_fuel(unmarked_statements, 2);
    let info = ctx.linking_info();
    if ctx.needs_wrapper() {
        match (info.wrap_kind, info.wrapper_ref) {
            (WrapKind::Esm, Some(w)) => {
                esm_wrapped_is_unmarked(
                    ctx.name_of(w),
                    ctx.name_of(ctx.runtime.esm_min),
                    body,
                );
            },
            _ => {},
        }
    }
}

} // verus!
