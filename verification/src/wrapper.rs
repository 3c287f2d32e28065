//! The module wrapper synthesizer: what goes inside the closure of a wrapped
//! ES module, and what is hoisted in front of it.

use vstd::prelude::*;
use crate::ast::{AssignmentTarget, AssignmentTargetProperty, BindingIdentifier, BindingPattern, BindingProperty, Class, Declaration, Expression, IdentifierReference, SimpleAssignmentTarget, Statement, VariableDeclaration, VariableDeclarator, VariableKind};
use crate::list::List;
use crate::snippet::bare_declarator;

verus! {

/// `name`, as something to assign to.
pub open spec fn name_target(name: String) -> AssignmentTarget {
    AssignmentTarget::Simple(
        SimpleAssignmentTarget::Identifier(IdentifierReference { name, symbol_id: None }),
    )
}

/// The assignment target that reads as the pattern `p` does.
pub open spec fn target_of(p: BindingPattern) -> AssignmentTarget
    decreases p,
{
    match p {
        BindingPattern::Identifier(ident) => name_target(ident.name),
        BindingPattern::Object(o) => AssignmentTarget::Object {
            properties: property_targets(o.properties),
            rest: match o.rest {
                Some(rest) => Some(Box::new(target_of(*rest))),
                None => None,
            },
        },
        BindingPattern::Array(items) => AssignmentTarget::Array(targets_of(items)),
        BindingPattern::Assignment { left, right } => AssignmentTarget::WithDefault {
            target: Box::new(target_of(*left)),
            init: right,
        },
    }
}

/// The assignment targets that read as the patterns of `l` do.
pub open spec fn targets_of(l: List<BindingPattern>) -> List<AssignmentTarget>
    decreases l,
{
    match l {
        List::Nil => List::Nil,
        List::Cons(head, tail) => List::Cons(
            Box::new(target_of(*head)),
            Box::new(targets_of(*tail)),
        ),
    }
}

/// A shorthand property that binds one name and has no default stays
/// shorthand; any other becomes `key: target`.
pub open spec fn property_target(p: BindingProperty) -> AssignmentTargetProperty
    decreases p,
{
    match p.value {
        BindingPattern::Identifier(ident) if p.shorthand => AssignmentTargetProperty::Identifier {
            binding: IdentifierReference { name: ident.name, symbol_id: None },
            init: None,
        },
        _ => AssignmentTargetProperty::Property { name: p.key, binding: target_of(p.value) },
    }
}

/// The properties of an object assignment target that read as those of an object pattern do.
pub open spec fn property_targets(l: List<BindingProperty>) -> List<AssignmentTargetProperty>
    decreases l,
{
    match l {
        List::Nil => List::Nil,
        List::Cons(head, tail) => List::Cons(
            Box::new(property_target(*head)),
            Box::new(property_targets(*tail)),
        ),
    }
}

/// The names that the pattern `p` binds, in the order in which they stand.
pub open spec fn bound_names(p: BindingPattern) -> List<String>
    decreases p,
{
    match p {
        BindingPattern::Identifier(ident) => List::one(ident.name),
        BindingPattern::Object(o) => property_bound_names(o.properties).concat(
            match o.rest {
                Some(rest) => bound_names(*rest),
                None => List::Nil,
            },
        ),
        BindingPattern::Array(items) => list_bound_names(items),
        BindingPattern::Assignment { left, right } => bound_names(*left),
    }
}

/// The names that the patterns of `l` bind.
pub open spec fn list_bound_names(l: List<BindingPattern>) -> List<String>
    decreases l,
{
    match l {
        List::Nil => List::Nil,
        List::Cons(head, tail) => bound_names(*head).concat(list_bound_names(*tail)),
    }
}

/// The names that the properties of an object pattern bind.
pub open spec fn property_bound_names(l: List<BindingProperty>) -> List<String>
    decreases l,
{
    match l {
        List::Nil => List::Nil,
        List::Cons(head, tail) => bound_names(head.value).concat(property_bound_names(*tail)),
    }
}

/// The names that the declarators bind.
pub open spec fn declared_names(l: List<VariableDeclarator>) -> List<String>
    decreases l,
{
    match l {
        List::Nil => List::Nil,
        List::Cons(head, tail) => bound_names(head.id).concat(declared_names(*tail)),
    }
}

/// One assignment for each declarator that has an initializer.
pub open spec fn assignments(l: List<VariableDeclarator>) -> List<Expression>
    decreases l,
{
    match l {
        List::Nil => List::Nil,
        List::Cons(head, tail) => match head.init {
            Some(init) => List::Cons(
                Box::new(
                    Expression::Assignment {
                        target: Box::new(target_of(head.id)),
                        value: Box::new(init),
                    },
                ),
                Box::new(assignments(*tail)),
            ),
            None => assignments(*tail),
        },
    }
}

/// The names that a top-level statement of a wrapped ES module declares in
/// front of the closure: those of a variable declaration, and that of a
/// class declaration.
pub open spec fn hoisted_names_of(s: Statement) -> List<String> {
    match s {
        Statement::Declaration(Declaration::Variable(v)) => declared_names(v.declarations),
        Statement::Declaration(Declaration::Class(c)) => match c.id {
            Some(ident) => List::one(ident.name),
            None => List::Nil,
        },
        _ => List::Nil,
    }
}

/// What a top-level statement of a wrapped ES module leaves inside the
/// closure. A variable declaration leaves its assignments, as one
/// expression, or nothing where it has none; a class declaration leaves the
/// assignment of the class to its name; a function declaration leaves
/// nothing; any other statement stays.
pub open spec fn inside_closure(s: Statement) -> List<Statement> {
    match s {
        Statement::Declaration(Declaration::Variable(v)) => if assignments(v.declarations) is Nil {
            List::Nil
        } else {
            List::one(Statement::Expression(Expression::Sequence(assignments(v.declarations))))
        },
        Statement::Declaration(Declaration::Class(c)) => match c.id {
            Some(ident) => List::one(
                Statement::Expression(
                    Expression::Assignment {
                        target: Box::new(name_target(ident.name)),
                        value: Box::new(
                            Expression::Class(
                                Box::new(
                                    Class { id: None, super_class: c.super_class, methods: c.methods },
                                ),
                            ),
                        ),
                    },
                ),
            ),
            None => List::one(s),
        },
        Statement::Declaration(Declaration::Function(_)) => List::Nil,
        _ => List::one(s),
    }
}

/// Whether `s` is a function declaration.
pub open spec fn is_function_declaration(s: Statement) -> bool {
    s matches Statement::Declaration(Declaration::Function(_))
}

/// The function declarations among `l`, in their order.
pub open spec fn hoisted_functions(l: List<Statement>) -> List<Statement>
    decreases l,
{
    match l {
        List::Nil => List::Nil,
        List::Cons(head, tail) => if is_function_declaration(*head) {
            List::Cons(head, Box::new(hoisted_functions(*tail)))
        } else {
            hoisted_functions(*tail)
        },
    }
}

/// The names that `l` declares in front of the closure, in their order.
pub open spec fn hoisted_names(l: List<Statement>) -> List<String>
    decreases l,
{
    match l {
        List::Nil => List::Nil,
        List::Cons(head, tail) => hoisted_names_of(*head).concat(hoisted_names(*tail)),
    }
}

/// The statements that `l` leaves inside the closure, in their order.
pub open spec fn closure_body(l: List<Statement>) -> List<Statement>
    decreases l,
{
    match l {
        List::Nil => List::Nil,
        List::Cons(head, tail) => inside_closure(*head).concat(closure_body(*tail)),
    }
}

/// `name` without an initializer, for each of `names`.
pub open spec fn name_declarators(names: List<String>) -> List<VariableDeclarator>
    decreases names,
{
    match names {
        List::Nil => List::Nil,
        List::Cons(head, tail) => List::Cons(
            Box::new(bare_declarator(*head)),
            Box::new(name_declarators(*tail)),
        ),
    }
}

/// The statements of a wrapped ES module whose rewritten body is `body`:
/// the function declarations, one `var` for all hoisted names where there
/// are any, and the wrapper `name` made by `helper` around the rest.
pub open spec fn esm_wrapped(name: String, helper: String, body: List<Statement>) -> List<
    Statement,
> {
    let wrapper = Statement::EsmWrapper { name, helper, body: closure_body(body) };
    let names = hoisted_names(body);
    hoisted_functions(body).concat(
        if names is Nil {
            List::one(wrapper)
        } else {
            List::two(
                Statement::Declaration(
                    Declaration::Variable(
                        VariableDeclaration {
                            kind: VariableKind::Var,
                            declarations: name_declarators(names),
                        },
                    ),
                ),
                wrapper,
            )
        },
    )
}

/// Makes `name`, as something to assign to.
pub fn make_name_target(name: String) -> (r: AssignmentTarget)
    ensures
        r == name_target(name),
{
    AssignmentTarget::Simple(
        SimpleAssignmentTarget::Identifier(IdentifierReference { name, symbol_id: None }),
    )
}

/// Makes the assignment target that reads as the pattern `p` does.
pub fn into_assignment_target(p: BindingPattern) -> (r: AssignmentTarget)
    ensures
        r == target_of(p),
    decreases p,
{
    match p {
        BindingPattern::Identifier(ident) => make_name_target(ident.name),
        BindingPattern::Object(o) => AssignmentTarget::Object {
            properties: into_property_targets(o.properties),
            rest: match o.rest {
                Some(rest) => Some(Box::new(into_assignment_target(*rest))),
                None => None,
            },
        },
        BindingPattern::Array(items) => AssignmentTarget::Array(into_assignment_targets(items)),
        BindingPattern::Assignment { left, right } => AssignmentTarget::WithDefault {
            target: Box::new(into_assignment_target(*left)),
            init: right,
        },
    }
}

/// Makes the assignment targets that read as the patterns of `l` do.
pub fn into_assignment_targets(l: List<BindingPattern>) -> (r: List<AssignmentTarget>)
    ensures
        r == targets_of(l),
    decreases l,
{
    match l {
        List::Nil => List::Nil,
        List::Cons(head, tail) => {
            let head = into_assignment_target(*head);
            let tail = into_assignment_targets(*tail);
            List::Cons(Box::new(head), Box::new(tail))
        },
    }
}

/// Makes the property of an object assignment target that reads as `p` does.
pub fn into_property_target(p: BindingProperty) -> (r: AssignmentTargetProperty)
    ensures
        r == property_target(p),
    decreases p,
{
    let BindingProperty { key, value, shorthand } = p;
    match value {
        BindingPattern::Identifier(ident) => if shorthand {
            AssignmentTargetProperty::Identifier {
                binding: IdentifierReference { name: ident.name, symbol_id: None },
                init: None,
            }
        } else {
            AssignmentTargetProperty::Property {
                name: key,
                binding: into_assignment_target(BindingPattern::Identifier(ident)),
            }
        },
        other => AssignmentTargetProperty::Property {
            name: key,
            binding: into_assignment_target(other),
        },
    }
}

/// Makes the properties of an object assignment target that read as those of `l` do.
pub fn into_property_targets(l: List<BindingProperty>) -> (r: List<AssignmentTargetProperty>)
    ensures
        r == property_targets(l),
    decreases l,
{
    match l {
        List::Nil => List::Nil,
        List::Cons(head, tail) => {
            let head = into_property_target(*head);
            let tail = into_property_targets(*tail);
            List::Cons(Box::new(head), Box::new(tail))
        },
    }
}

/// The names that the pattern `p` binds, in the order in which they stand.
pub fn binding_identifiers(p: &BindingPattern) -> (r: List<String>)
    ensures
        r == bound_names(*p),
    decreases p,
{
    match p {
        BindingPattern::Identifier(ident) => List::single(ident.name.clone()),
        BindingPattern::Object(o) => {
            let first = property_binding_identifiers(&o.properties);
            let last = match &o.rest {
                Some(rest) => binding_identifiers(&**rest),
                None => List::Nil,
            };
            first.append(last)
        },
        BindingPattern::Array(items) => list_binding_identifiers(items),
        BindingPattern::Assignment { left, right: _ } => binding_identifiers(&**left),
    }
}

/// The names that the patterns of `l` bind.
pub fn list_binding_identifiers(l: &List<BindingPattern>) -> (r: List<String>)
    ensures
        r == list_bound_names(*l),
    decreases l,
{
    match l {
        List::Nil => List::Nil,
        List::Cons(head, tail) => {
            let first = binding_identifiers(&**head);
            let last = list_binding_identifiers(&**tail);
            first.append(last)
        },
    }
}

/// The names that the properties of an object pattern bind.
pub fn property_binding_identifiers(l: &List<BindingProperty>) -> (r: List<String>)
    ensures
        r == property_bound_names(*l),
    decreases l,
{
    match l {
        List::Nil => List::Nil,
        List::Cons(head, tail) => {
            let first = binding_identifiers(&head.value);
            let last = property_binding_identifiers(&**tail);
            first.append(last)
        },
    }
}

/// Splits the declarators into the names they bind and the assignments
/// that their initializers make.
pub fn convert_declarators(l: List<VariableDeclarator>) -> (r: (List<String>, List<Expression>))
    ensures
        r.0 == declared_names(l),
        r.1 == assignments(l),
    decreases l,
{
    match l {
        List::Nil => (List::Nil, List::Nil),
        List::Cons(head, tail) => {
            let VariableDeclarator { id, init } = *head;
            let names = binding_identifiers(&id);
            let (more_names, more) = convert_declarators(*tail);
            let all = match init {
                Some(init) => List::Cons(
                    Box::new(
                        Expression::Assignment {
                            target: Box::new(into_assignment_target(id)),
                            value: Box::new(init),
                        },
                    ),
                    Box::new(more),
                ),
                None => more,
            };
            (names.append(more_names), all)
        },
    }
}

/// Turns a declaration at the top of a wrapped ES module into the names it
/// declares in front of the closure and the statement it leaves inside.
pub fn convert_decl_to_assignment(decl: Declaration) -> (r: (List<String>, List<Statement>))
    ensures
        r.0 == hoisted_names_of(Statement::Declaration(decl)),
        r.1 == inside_closure(Statement::Declaration(decl)),
{
    match decl {
        Declaration::Variable(v) => {
            let (names, all) = convert_declarators(v.declarations);
            if all.is_empty() {
                (names, List::Nil)
            } else {
                (names, List::single(Statement::Expression(Expression::Sequence(all))))
            }
        },
        Declaration::Class(c) => {
            let Class { id, super_class, methods } = c;
            match id {
                Some(ident) => {
                    let name = ident.name.clone();
                    let class = Expression::Class(Box::new(Class { id: None, super_class, methods }));
                    (
                        List::single(name),
                        List::single(
                            Statement::Expression(
                                Expression::Assignment {
                                    target: Box::new(make_name_target(ident.name)),
                                    value: Box::new(class),
                                },
                            ),
                        ),
                    )
                },
                None => (
                    List::Nil,
                    List::single(
                        Statement::Declaration(
                            Declaration::Class(Class { id: None, super_class, methods }),
                        ),
                    ),
                ),
            }
        },
        Declaration::Function(f) => (List::Nil, List::Nil),
    }
}

/// The three parts of a wrapped ES module: the hoisted function
/// declarations, the hoisted names, and the body of the closure.
pub fn split_for_closure(body: List<Statement>) -> (r: (
    List<Statement>,
    List<String>,
    List<Statement>,
))
    ensures
        r.0 == hoisted_functions(body),
        r.1 == hoisted_names(body),
        r.2 == closure_body(body),
    decreases body,
{
    match body {
        List::Nil => (List::Nil, List::Nil, List::Nil),
        List::Cons(head, tail) => {
            let (functions, names, inside) = split_for_closure(*tail);
            match *head {
                Statement::Declaration(Declaration::Function(f)) => (
                    List::Cons(
                        Box::new(Statement::Declaration(Declaration::Function(f))),
                        Box::new(functions),
                    ),
                    names,
                    inside,
                ),
                Statement::Declaration(decl) => {
                    let (own_names, own) = convert_decl_to_assignment(decl);
                    (functions, own_names.append(names), own.append(inside))
                },
                other => (functions, names, List::single(other).append(inside)),
            }
        },
    }
}

/// Makes `name` without an initializer, for each of `names`.
pub fn make_name_declarators(names: List<String>) -> (r: List<VariableDeclarator>)
    ensures
        r == name_declarators(names),
    decreases names,
{
    match names {
        List::Nil => List::Nil,
        List::Cons(head, tail) => {
            let rest = make_name_declarators(*tail);
            List::Cons(
                Box::new(
                    VariableDeclarator {
                        id: BindingPattern::Identifier(
                            BindingIdentifier { name: *head, symbol_id: None },
                        ),
                        init: None,
                    },
                ),
                Box::new(rest),
            )
        },
    }
}

/// Wraps the rewritten body of an ES module.
pub fn esm_wrapper_stmts(name: String, helper: String, body: List<Statement>) -> (r: List<
    Statement,
>)
    ensures
        r == esm_wrapped(name, helper, body),
{
    let (functions, names, inside) = split_for_closure(body);
    let wrapper = Statement::EsmWrapper { name, helper, body: inside };
    if names.is_empty() {
        functions.append(List::single(wrapper))
    } else {
        let hoisted = Statement::Declaration(
            Declaration::Variable(
                VariableDeclaration {
                    kind: VariableKind::Var,
                    declarations: make_name_declarators(names),
                },
            ),
        );
        functions.append(List::single(wrapper).push_front(hoisted))
    }
}

} // verus!
