//! The reference rewriter: the walk that gives every binding and every
//! reference its canonical name, and rewrites `require` calls, dynamic
//! imports and the shorthand forms that a new name would break.

use vstd::prelude::*;
use crate::ast::{AssignmentTarget, AssignmentTargetProperty, BindingIdentifier, BindingPattern, BindingProperty, Class, Declaration, Expression, Function, IdentifierReference, ObjectPattern, ObjectProperty, SimpleAssignmentTarget, Statement, VariableDeclaration, VariableDeclarator};
use crate::context::{chunk_import_path, ExportsKind, Finalizer};
use crate::list::List;
use crate::snippet::{call, call_with, id, id_ref, seq2, var_decl};

verus! {

impl Finalizer {
    /// What the walk makes of a binding.
    pub open spec fn binding_identifier(&self, ident: BindingIdentifier) -> BindingIdentifier {
        BindingIdentifier { name: self.renamed(ident.name, ident.symbol_id), symbol_id: None }
    }

    /// What the walk makes of a reference.
    pub open spec fn identifier_reference(&self, ident: IdentifierReference) -> IdentifierReference {
        IdentifierReference { name: self.renamed(ident.name, ident.symbol_id), symbol_id: None }
    }

    /// The bundled module that `e` requires: `e` is a call of the global
    /// `require` whose import record resolves to a module with a wrapper.
    pub open spec fn require_target(&self, e: Expression) -> Option<usize> {
        match e {
            Expression::Call { callee, arguments, record: Some(rec) } => match *callee {
                Expression::Identifier(id) => if id.name@ == "require"@ && id.symbol_id is None {
                    match self.importee(rec) {
                        Some(m) => if self.linking_infos@[m as int].wrapper_ref is Some {
                            Some(m)
                        } else {
                            None
                        },
                        None => None,
                    }
                } else {
                    None
                },
                _ => None,
            },
            _ => None,
        }
    }

    /// What stands for `require(..)` of module `m`: a call of its wrapper
    /// where `m` is CommonJS; else that call, then the namespace of `m`
    /// turned into an exports object.
    pub open spec fn require_replacement(&self, m: usize) -> Expression {
        let wrapper = self.name_of(self.linking_infos@[m as int].wrapper_ref.unwrap());
        if self.modules@[m as int].exports_kind == ExportsKind::CommonJs {
            call(wrapper)
        } else {
            seq2(
                call(wrapper),
                call_with(
                    self.name_of(self.runtime.to_common_js),
                    id_ref(self.name_of(self.modules@[m as int].namespace_symbol)),
                ),
            )
        }
    }

    /// The source of `import(source, arguments)` after the rewrite of the
    /// path: a lone string literal whose record resolves to a module in a
    /// chunk with a file becomes that file's path.
    pub open spec fn import_source(
        &self,
        source: Expression,
        arguments: List<Expression>,
        record: usize,
    ) -> Expression {
        match (source, arguments, self.importee(record)) {
            (Expression::StringLiteral(_), List::Nil, Some(m)) => match self.chunk_file(m) {
                Some(file) => Expression::StringLiteral(chunk_import_path(file@)),
                None => source,
            },
            _ => source,
        }
    }

    /// What the walk makes of an expression.
    pub open spec fn expression(&self, e: Expression) -> Expression
        decreases e, 1int,
    {
        match e {
            Expression::Identifier(id) => Expression::Identifier(self.identifier_reference(id)),
            Expression::StringLiteral(_) => e,
            Expression::NumberLiteral(_) => e,
            Expression::Call { callee, arguments, record } => match self.require_target(e) {
                Some(m) => self.require_replacement(m),
                None => Expression::Call {
                    callee: Box::new(self.expression(*callee)),
                    arguments: self.expression_list(arguments),
                    record,
                },
            },
            Expression::Import { source, arguments, record } => Expression::Import {
                source: Box::new(self.import_source(self.expression(*source), arguments, record)),
                arguments: self.expression_list(arguments),
                record,
            },
            Expression::Object(properties) => Expression::Object(
                self.object_property_list(properties),
            ),
            Expression::Class(class) => Expression::Class(Box::new(self.class(*class))),
            Expression::Function(function) => Expression::Function(
                Box::new(self.function(*function)),
            ),
            Expression::Sequence(items) => Expression::Sequence(self.expression_list(items)),
            Expression::Member { object, property } => Expression::Member {
                object: Box::new(self.expression(*object)),
                property,
            },
            Expression::Assignment { target, value } => Expression::Assignment {
                target: Box::new(self.assignment_target(*target)),
                value: Box::new(self.expression(*value)),
            },
        }
    }

    /// What the walk makes of an expression that may be absent.
    pub open spec fn optional_expression(&self, e: Option<Expression>) -> Option<Expression>
        decreases e, 2int,
    {
        match e {
            Some(e) => Some(self.expression(e)),
            None => None,
        }
    }

    /// What the walk makes of each expression of a list.
    pub open spec fn expression_list(&self, l: List<Expression>) -> List<Expression>
        decreases l, 0int,
    {
        match l {
            List::Nil => List::Nil,
            List::Cons(head, tail) => List::Cons(
                Box::new(self.expression(*head)),
                Box::new(self.expression_list(*tail)),
            ),
        }
    }

    /// A shorthand property stays one unless its identifier gets a new name.
    pub open spec fn object_property(&self, p: ObjectProperty) -> ObjectProperty
        decreases p, 0int,
    {
        ObjectProperty {
            key: p.key,
            value: self.expression(p.value),
            shorthand: p.shorthand && !(p.value matches Expression::Identifier(id) && self.renames(
                id.name,
                id.symbol_id,
            )),
        }
    }

    /// What the walk makes of each property of an object literal.
    pub open spec fn object_property_list(&self, l: List<ObjectProperty>) -> List<ObjectProperty>
        decreases l, 0int,
    {
        match l {
            List::Nil => List::Nil,
            List::Cons(head, tail) => List::Cons(
                Box::new(self.object_property(*head)),
                Box::new(self.object_property_list(*tail)),
            ),
        }
    }

    /// What the walk makes of a simple assignment target.
    pub open spec fn simple_assignment_target(
        &self,
        t: SimpleAssignmentTarget,
    ) -> SimpleAssignmentTarget
        decreases t, 0int,
    {
        match t {
            SimpleAssignmentTarget::Identifier(id) => SimpleAssignmentTarget::Identifier(
                self.identifier_reference(id),
            ),
            SimpleAssignmentTarget::Member(e) => SimpleAssignmentTarget::Member(self.expression(e)),
        }
    }

    /// What the walk makes of an assignment target.
    pub open spec fn assignment_target(&self, t: AssignmentTarget) -> AssignmentTarget
        decreases t, 0int,
    {
        match t {
            AssignmentTarget::Simple(s) => AssignmentTarget::Simple(
                self.simple_assignment_target(s),
            ),
            AssignmentTarget::Object { properties, rest } => AssignmentTarget::Object {
                properties: self.assignment_target_property_list(properties),
                rest: match rest {
                    Some(rest) => Some(Box::new(self.assignment_target(*rest))),
                    None => None,
                },
            },
            AssignmentTarget::Array(items) => AssignmentTarget::Array(
                self.assignment_target_list(items),
            ),
            AssignmentTarget::WithDefault { target, init } => AssignmentTarget::WithDefault {
                target: Box::new(self.assignment_target(*target)),
                init: Box::new(self.expression(*init)),
            },
        }
    }

    /// What the walk makes of each assignment target of a list.
    pub open spec fn assignment_target_list(&self, l: List<AssignmentTarget>) -> List<
        AssignmentTarget,
    >
        decreases l, 0int,
    {
        match l {
            List::Nil => List::Nil,
            List::Cons(head, tail) => List::Cons(
                Box::new(self.assignment_target(*head)),
                Box::new(self.assignment_target_list(*tail)),
            ),
        }
    }

    /// `{ a }` and `{ a = init }` become `{ a: name }` and
    /// `{ a: name = init }` where `a` gets the new name `name`.
    pub open spec fn assignment_target_property(
        &self,
        p: AssignmentTargetProperty,
    ) -> AssignmentTargetProperty
        decreases p, 0int,
    {
        match p {
            AssignmentTargetProperty::Identifier { binding, init } => {
                let renamed = AssignmentTarget::Simple(
                    SimpleAssignmentTarget::Identifier(self.identifier_reference(binding)),
                );
                if self.renames(binding.name, binding.symbol_id) {
                    AssignmentTargetProperty::Property {
                        name: binding.name,
                        binding: match init {
                            Some(init) => AssignmentTarget::WithDefault {
                                target: Box::new(renamed),
                                init: Box::new(self.expression(init)),
                            },
                            None => renamed,
                        },
                    }
                } else {
                    AssignmentTargetProperty::Identifier {
                        binding: self.identifier_reference(binding),
                        init: self.optional_expression(init),
                    }
                }
            },
            AssignmentTargetProperty::Property { name, binding } => {
                AssignmentTargetProperty::Property { name, binding: self.assignment_target(binding) }
            },
        }
    }

    /// What the walk makes of each property of an object assignment target.
    pub open spec fn assignment_target_property_list(
        &self,
        l: List<AssignmentTargetProperty>,
    ) -> List<AssignmentTargetProperty>
        decreases l, 0int,
    {
        match l {
            List::Nil => List::Nil,
            List::Cons(head, tail) => List::Cons(
                Box::new(self.assignment_target_property(*head)),
                Box::new(self.assignment_target_property_list(*tail)),
            ),
        }
    }

    /// What the walk makes of a binding pattern.
    pub open spec fn binding_pattern(&self, p: BindingPattern) -> BindingPattern
        decreases p, 0int,
    {
        match p {
            BindingPattern::Identifier(id) => BindingPattern::Identifier(
                self.binding_identifier(id),
            ),
            BindingPattern::Object(o) => BindingPattern::Object(self.object_pattern(o)),
            BindingPattern::Array(items) => BindingPattern::Array(self.binding_pattern_list(items)),
            BindingPattern::Assignment { left, right } => BindingPattern::Assignment {
                left: Box::new(self.binding_pattern(*left)),
                right: Box::new(self.expression(*right)),
            },
        }
    }

    /// What the walk makes of each binding pattern of a list.
    pub open spec fn binding_pattern_list(&self, l: List<BindingPattern>) -> List<BindingPattern>
        decreases l, 0int,
    {
        match l {
            List::Nil => List::Nil,
            List::Cons(head, tail) => List::Cons(
                Box::new(self.binding_pattern(*head)),
                Box::new(self.binding_pattern_list(*tail)),
            ),
        }
    }

    /// Whether `p`, as the value of a shorthand property, binds one name
    /// (alone or with a default) that the rewrite changes.
    pub open spec fn shorthand_renamed(&self, p: BindingPattern) -> bool {
        match p {
            BindingPattern::Identifier(id) => self.renames(id.name, id.symbol_id),
            BindingPattern::Assignment { left, right } => match *left {
                BindingPattern::Identifier(id) => self.renames(id.name, id.symbol_id),
                _ => false,
            },
            _ => false,
        }
    }

    /// What the walk makes of a property of an object pattern.
    pub open spec fn binding_property(&self, p: BindingProperty) -> BindingProperty
        decreases p, 0int,
    {
        BindingProperty {
            key: p.key,
            value: self.binding_pattern(p.value),
            shorthand: p.shorthand && !self.shorthand_renamed(p.value),
        }
    }

    /// What the walk makes of each property of an object pattern.
    pub open spec fn binding_property_list(&self, l: List<BindingProperty>) -> List<
        BindingProperty,
    >
        decreases l, 0int,
    {
        match l {
            List::Nil => List::Nil,
            List::Cons(head, tail) => List::Cons(
                Box::new(self.binding_property(*head)),
                Box::new(self.binding_property_list(*tail)),
            ),
        }
    }

    /// What the walk makes of an object pattern.
    pub open spec fn object_pattern(&self, o: ObjectPattern) -> ObjectPattern
        decreases o, 0int,
    {
        ObjectPattern {
            properties: self.binding_property_list(o.properties),
            rest: match o.rest {
                Some(rest) => Some(Box::new(self.binding_pattern(*rest))),
                None => None,
            },
        }
    }

    /// What the walk makes of a function.
    pub open spec fn function(&self, f: Function) -> Function
        decreases f, 0int,
    {
        Function {
            id: match f.id {
                Some(id) => Some(self.binding_identifier(id)),
                None => None,
            },
            params: self.binding_pattern_list(f.params),
            body: self.statement_list(f.body),
        }
    }

    /// What the walk makes of each function of a list.
    pub open spec fn function_list(&self, l: List<Function>) -> List<Function>
        decreases l, 0int,
    {
        match l {
            List::Nil => List::Nil,
            List::Cons(head, tail) => List::Cons(
                Box::new(self.function(*head)),
                Box::new(self.function_list(*tail)),
            ),
        }
    }

    /// A class keeps the text of its own name, which is the name that its
    /// body sees; only the symbol is taken off it.
    pub open spec fn class(&self, c: Class) -> Class
        decreases c, 0int,
    {
        Class {
            id: match c.id {
                Some(ident) => Some(id(ident.name)),
                None => None,
            },
            super_class: self.optional_expression(c.super_class),
            methods: self.function_list(c.methods),
        }
    }

    /// Whether `d` binds one name that the rewrite changes to a class
    /// without a name of its own.
    pub open spec fn names_anonymous_class(&self, d: VariableDeclarator) -> bool {
        &&& d.id matches BindingPattern::Identifier(ident)
        &&& self.renames(ident.name, ident.symbol_id)
        &&& d.init matches Some(Expression::Class(class))
        &&& class.id is None
    }

    /// `var a = class {}` becomes `var name = class a {}` where `a` gets the
    /// new name `name`.
    pub open spec fn variable_declarator(&self, d: VariableDeclarator) -> VariableDeclarator
        decreases d, 0int,
    {
        let init = self.optional_expression(d.init);
        VariableDeclarator {
            id: self.binding_pattern(d.id),
            init: if self.names_anonymous_class(d) {
                Some(
                    Expression::Class(
                        Box::new(
                            Class {
                                id: Some(id(d.id->Identifier_0.name)),
                                super_class: init->0->Class_0.super_class,
                                methods: init->0->Class_0.methods,
                            },
                        ),
                    ),
                )
            } else {
                init
            },
        }
    }

    /// What the walk makes of each declarator of a declaration.
    pub open spec fn variable_declarator_list(&self, l: List<VariableDeclarator>) -> List<
        VariableDeclarator,
    >
        decreases l, 0int,
    {
        match l {
            List::Nil => List::Nil,
            List::Cons(head, tail) => List::Cons(
                Box::new(self.variable_declarator(*head)),
                Box::new(self.variable_declarator_list(*tail)),
            ),
        }
    }

    /// Whether the name of the class `c` gets a new name.
    pub open spec fn class_renamed(&self, c: Class) -> bool {
        c.id matches Some(ident) && self.renames(ident.name, ident.symbol_id)
    }

    /// `class A {}` becomes `var name = class A {}` where `A` gets the new
    /// name `name`.
    pub open spec fn declaration(&self, d: Declaration) -> Declaration
        decreases d, 0int,
    {
        match d {
            Declaration::Variable(v) => Declaration::Variable(
                VariableDeclaration {
                    kind: v.kind,
                    declarations: self.variable_declarator_list(v.declarations),
                },
            ),
            Declaration::Function(f) => Declaration::Function(self.function(f)),
            Declaration::Class(c) => if self.class_renamed(c) {
                var_decl(
                    self.renamed(c.id->0.name, c.id->0.symbol_id),
                    Expression::Class(Box::new(self.class(c))),
                )
            } else {
                Declaration::Class(self.class(c))
            },
        }
    }

    /// What the walk makes of a statement.
    pub open spec fn statement(&self, s: Statement) -> Statement
        decreases s, 0int,
    {
        match s {
            Statement::Declaration(d) => Statement::Declaration(self.declaration(d)),
            Statement::Expression(e) => Statement::Expression(self.expression(e)),
            Statement::Block(body) => Statement::Block(self.statement_list(body)),
            Statement::Return(e) => Statement::Return(self.optional_expression(e)),
            Statement::CommonJsWrapper { name, helper, body } => Statement::CommonJsWrapper {
                name,
                helper,
                body: self.statement_list(body),
            },
            Statement::EsmWrapper { name, helper, body } => Statement::EsmWrapper {
                name,
                helper,
                body: self.statement_list(body),
            },
        }
    }

    /// What the walk makes of each statement of a list.
    pub open spec fn statement_list(&self, l: List<Statement>) -> List<Statement>
        decreases l, 0int,
    {
        match l {
            List::Nil => List::Nil,
            List::Cons(head, tail) => List::Cons(
                Box::new(self.statement(*head)),
                Box::new(self.statement_list(*tail)),
            ),
        }
    }
}

} // verus!
