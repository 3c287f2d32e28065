//! What holds of every finalization.

use vstd::prelude::*;
use crate::ast::{AssignmentTargetProperty, BindingIdentifier, BindingPattern, BindingProperty, Declaration, Expression, IdentifierReference, ObjectProperty, Program, Statement, TopLevelStatement};
use crate::context::Finalizer;
use crate::list::List;
use crate::wrapper::{closure_body, hoisted_functions, inside_closure, is_function_declaration};

verus! {

/// Finalization is a function of what it reads: equal snapshots and equal
/// programs give equal trees.
pub proof fn finalization_is_deterministic(a: Finalizer, b: Finalizer, p: Program, q: Program)
    requires
        a == b,
        p == q,
    ensures
        a.finalized(p) == b.finalized(q),
{
}

/// A binding with a symbol that the table names gets exactly that name, and
/// no binding keeps its symbol.
pub proof fn binding_gets_canonical_name(ctx: Finalizer, ident: BindingIdentifier)
    ensures
        ctx.binding_identifier(ident).symbol_id is None,
        ident.symbol_id matches Some(s) ==> ctx.has_name(ctx.local(s)) ==> ctx.binding_identifier(
            ident,
        ).name == ctx.name_of(ctx.local(s)),
        ident.symbol_id is None ==> ctx.binding_identifier(ident).name == ident.name,
{
}

/// A reference with a symbol that the table names gets exactly that name,
/// and no reference keeps its symbol.
pub proof fn reference_gets_canonical_name(ctx: Finalizer, ident: IdentifierReference)
    ensures
        ctx.identifier_reference(ident).symbol_id is None,
        ident.symbol_id matches Some(s) ==> ctx.has_name(ctx.local(s))
            ==> ctx.identifier_reference(ident).name == ctx.name_of(ctx.local(s)),
        ident.symbol_id is None ==> ctx.identifier_reference(ident).name == ident.name,
{
}

/// A shorthand object property whose identifier keeps its text stays as it
/// reads: shorthand, with the same key and the same text. One whose
/// identifier gets a new name is written out, under the same key.
pub proof fn object_shorthand_is_preserved(ctx: Finalizer, p: ObjectProperty)
    requires
        p.shorthand,
        p.value is Identifier,
    ensures
        ctx.object_property(p).key == p.key,
        ctx.object_property(p).value is Identifier,
        ctx.object_property(p).shorthand == !ctx.renames(
            p.value->Identifier_0.name,
            p.value->Identifier_0.symbol_id,
        ),
        ctx.object_property(p).shorthand ==> ctx.object_property(p).value->Identifier_0.name@
            == p.value->Identifier_0.name@,
{
    // the property's value is an identifier, so it is no `require` call
    assert(ctx.require_target(p.value) is None);
}

/// A shorthand property of an object pattern that binds one name, alone or
/// with a default, stays shorthand exactly if that name keeps its text; its
/// key stays in any case.
pub proof fn pattern_shorthand_is_preserved(ctx: Finalizer, p: BindingProperty)
    requires
        p.shorthand,
    ensures
        ctx.binding_property(p).key == p.key,
        ctx.binding_property(p).shorthand == !ctx.shorthand_renamed(p.value),
        p.value matches BindingPattern::Identifier(ident) ==> (ctx.binding_property(p).value
            matches BindingPattern::Identifier(after) && (ctx.binding_property(p).shorthand
            ==> after.name@ == ident.name@)),
{
}

/// A shorthand property of an assignment target stays shorthand exactly if
/// its name keeps its text; else it is written out under the name it had.
pub proof fn target_shorthand_is_preserved(
    ctx: Finalizer,
    binding: IdentifierReference,
    init: Option<Expression>,
)
    ensures
        !ctx.renames(binding.name, binding.symbol_id) ==> (ctx.assignment_target_property(
            AssignmentTargetProperty::Identifier { binding, init },
        ) matches AssignmentTargetProperty::Identifier { binding: after, init: _ } && after.name@
            == binding.name@),
        ctx.renames(binding.name, binding.symbol_id) ==> (ctx.assignment_target_property(
            AssignmentTargetProperty::Identifier { binding, init },
        ) matches AssignmentTargetProperty::Property { name, binding: _ } && name == binding.name),
{
}

/// Whether every statement of `l` is a function declaration.
pub open spec fn all_function_declarations(l: List<Statement>) -> bool
    decreases l,
{
    match l {
        List::Nil => true,
        List::Cons(head, tail) => is_function_declaration(*head) && all_function_declarations(
            *tail,
        ),
    }
}

/// Whether the wrapper of an ES module takes `s` out of the closure or
/// turns it into an assignment: `s` declares a function, variables, or a
/// class with a name.
pub open spec fn is_hoisted(s: Statement) -> bool {
    match s {
        Statement::Declaration(Declaration::Function(_)) => true,
        Statement::Declaration(Declaration::Variable(_)) => true,
        Statement::Declaration(Declaration::Class(c)) => c.id is Some,
        _ => false,
    }
}

/// Whether no statement of `l` is one that the wrapper hoists.
pub open spec fn nothing_hoisted(l: List<Statement>) -> bool
    decreases l,
{
    match l {
        List::Nil => true,
        List::Cons(head, tail) => !is_hoisted(*head) && nothing_hoisted(*tail),
    }
}

proof fn concat_keeps_nothing_hoisted(a: List<Statement>, b: List<Statement>)
    requires
        nothing_hoisted(a),
        nothing_hoisted(b),
    ensures
        nothing_hoisted(a.concat(b)),
    decreases a,
{
    match a {
        List::Nil => {},
        List::Cons(head, tail) => {
            concat_keeps_nothing_hoisted(*tail, b);
        },
    }
}

/// What the wrapper of an ES module puts in front of the closure are the
/// function declarations of the body and nothing else, and inside the
/// closure no function, variable or named class declaration is left.
pub proof fn wrapper_hoists_every_declaration(body: List<Statement>)
    ensures
        all_function_declarations(hoisted_functions(body)),
        nothing_hoisted(closure_body(body)),
    decreases body,
{
    match body {
        List::Nil => {},
        List::Cons(head, tail) => {
            wrapper_hoists_every_declaration(*tail);
            assert(nothing_hoisted(inside_closure(*head))) by {
                reveal_with_fuel(nothing_hoisted, 2);
            }
            concat_keeps_nothing_hoisted(inside_closure(*head), closure_body(*tail));
        },
    }
}

proof fn concat_is_associative<T>(a: List<T>, b: List<T>, c: List<T>)
    ensures
        a.concat(b).concat(c) == a.concat(b.concat(c)),
    decreases a,
{
    match a {
        List::Nil => {},
        List::Cons(head, tail) => {
            concat_is_associative(*tail, b, c);
        },
    }
}

/// The statement pass keeps the statements in their order, and what a
/// statement becomes stands where the statement stood: the pass over two
/// runs of statements, one behind the other, gives what it gives for the
/// first run, followed by what it gives for the second.
pub proof fn statement_pass_keeps_order(
    ctx: Finalizer,
    a: List<TopLevelStatement>,
    b: List<TopLevelStatement>,
    i: int,
)
    ensures
        ctx.statement_pass(a.concat(b), i) == ctx.statement_pass(a, i).concat(
            ctx.statement_pass(b, i + a@.len()),
        ),
    decreases a,
{
    match a {
        List::Nil => {},
        List::Cons(head, tail) => {
            assert(a@.len() == 1 + tail@.len());
            if i >= ctx.module().stmt_infos@.len() {
                assert(ctx.statement_pass(b, i + a@.len()) == List::<Statement>::Nil);
            } else {
                statement_pass_keeps_order(ctx, *tail, b, i + 1);
                if ctx.included(i) {
                    concat_is_associative(
                        ctx.top_level_statement(*head),
                        ctx.statement_pass(*tail, i + 1),
                        ctx.statement_pass(b, i + 1 + tail@.len()),
                    );
                }
            }
        },
    }
}

/// A statement that is not included leaves nothing behind, whatever it is.
pub proof fn excluded_statement_is_dropped(
    ctx: Finalizer,
    s: TopLevelStatement,
    rest: List<TopLevelStatement>,
    i: int,
)
    requires
        0 <= i < ctx.module().stmt_infos@.len(),
        !ctx.module().stmt_infos@[i].is_included,
    ensures
        ctx.statement_pass(List::Cons(Box::new(s), Box::new(rest)), i) == ctx.statement_pass(
            rest,
            i + 1,
        ),
{
}

} // verus!
