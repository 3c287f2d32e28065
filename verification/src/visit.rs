//! The executable walk. Each function consumes a node and returns the node
//! that the spec function for that kind of node describes.

use vstd::prelude::*;
use crate::ast::{AssignmentTarget, AssignmentTargetProperty, BindingIdentifier, BindingPattern, BindingProperty, Class, Declaration, Expression, Function, IdentifierReference, ObjectPattern, ObjectProperty, SimpleAssignmentTarget, Statement, VariableDeclaration, VariableDeclarator};
use crate::context::{relative_chunk_path, ExportsKind, Finalizer, SymbolRef};
use crate::list::List;
use crate::snippet::{call_expr_expr, call_expr_with_arg_expr_expr, id_ref_expr, seq2_in_paren_expr, var_decl_stmt};

verus! {

impl Finalizer {
    /// Whether the symbol table holds a name for `r`.
    pub fn knows(&self, r: SymbolRef) -> (b: bool)
        ensures
            b == self.has_name(r),
    {
        r.owner < self.symbols.len() && r.symbol < self.symbols[r.owner].len()
    }

    /// The text of an identifier after the rewrite.
    pub fn canonical_text(&self, current: String, symbol_id: Option<usize>) -> (r: String)
        ensures
            r == self.renamed(current, symbol_id),
    {
        match symbol_id {
            Some(s) => {
                let local = SymbolRef { owner: self.id, symbol: s };
                if self.knows(local) {
                    self.canonical_name_for(local)
                } else {
                    current
                }
            },
            None => current,
        }
    }

    /// Whether the rewrite changes the text of an identifier.
    pub fn changes_name(&self, current: &String, symbol_id: Option<usize>) -> (b: bool)
        ensures
            b == self.renames(*current, symbol_id),
    {
        match symbol_id {
            Some(s) => {
                let local = SymbolRef { owner: self.id, symbol: s };
                if self.knows(local) {
                    let canonical = self.canonical_name_for(local);
                    canonical != *current
                } else {
                    false
                }
            },
            None => false,
        }
    }

    /// Gives a binding its canonical name and takes the symbol off it.
    pub fn visit_binding_identifier(&self, ident: BindingIdentifier) -> (r: BindingIdentifier)
        ensures
            r == self.binding_identifier(ident),
            r.symbol_id is None,
            ident.symbol_id is Some && self.has_name(self.local(ident.symbol_id.unwrap()))
                ==> r.name == self.name_of(self.local(ident.symbol_id.unwrap())),
            !self.renames(ident.name, ident.symbol_id) ==> r.name@ == ident.name@,
    {
        let BindingIdentifier { name, symbol_id } = ident;
        BindingIdentifier { name: self.canonical_text(name, symbol_id), symbol_id: None }
    }

    /// Gives a reference the canonical name of the symbol it resolves to and
    /// takes the symbol off it.
    pub fn visit_identifier_reference(&self, ident: IdentifierReference) -> (r: IdentifierReference)
        ensures
            r == self.identifier_reference(ident),
            r.symbol_id is None,
            ident.symbol_id is Some && self.has_name(self.local(ident.symbol_id.unwrap()))
                ==> r.name == self.name_of(self.local(ident.symbol_id.unwrap())),
            !self.renames(ident.name, ident.symbol_id) ==> r.name@ == ident.name@,
    {
        let IdentifierReference { name, symbol_id } = ident;
        IdentifierReference { name: self.canonical_text(name, symbol_id), symbol_id: None }
    }

    /// The bundled module that `e` requires, if `e` is such a call.
    pub fn required_module(&self, e: &Expression) -> (r: Option<usize>)
        requires
            self.wf(),
        ensures
            r == self.require_target(*e),
            r matches Some(m) ==> m < self.modules@.len() && *e is Call,
    {
        match e {
            Expression::Call { callee, arguments: _, record: Some(rec) } => match &**callee {
                Expression::Identifier(id) => {
                    let require = "require".to_owned();
                    if id.name == require && id.symbol_id.is_none() {
                        match self.resolve_importee(*rec) {
                            Some(m) => if self.linking_infos[m].wrapper_ref.is_some() {
                                Some(m)
                            } else {
                                None
                            },
                            None => None,
                        }
                    } else {
                        None
                    }
                },
                _ => None,
            },
            _ => None,
        }
    }

    /// The expression that stands for `require(..)` of module `m`.
    pub fn require_call(&self, m: usize) -> (r: Expression)
        requires
            self.wf(),
            m < self.modules@.len(),
            self.linking_infos@[m as int].wrapper_ref is Some,
        ensures
            r == self.require_replacement(m),
    {
        assert(self.module_wf(m as int));
        let wrapper = self.canonical_name_for(self.linking_infos[m].wrapper_ref.unwrap());
        match self.modules[m].exports_kind {
            ExportsKind::CommonJs => call_expr_expr(wrapper),
            _ => {
                let namespace = self.canonical_name_for(self.modules[m].namespace_symbol);
                let to_common_js = self.canonical_name_for(self.runtime.to_common_js);
                seq2_in_paren_expr(
                    call_expr_expr(wrapper),
                    call_expr_with_arg_expr_expr(to_common_js, id_ref_expr(namespace)),
                )
            },
        }
    }

    /// The output file that holds module `m`, where the chunk graph names one.
    pub fn chunk_file_of(&self, m: usize) -> (r: Option<&String>)
        ensures
            r matches Some(f) ==> self.chunk_file(m) == Some(*f),
            r is None ==> self.chunk_file(m) is None,
    {
        if m < self.chunk_graph.module_to_chunk.len() {
            match self.chunk_graph.module_to_chunk[m] {
                Some(c) => if c < self.chunk_graph.chunks.len() {
                    self.chunk_graph.chunks[c].file_name.as_ref()
                } else {
                    None
                },
                None => None,
            }
        } else {
            None
        }
    }

    /// Rewrites the path of a dynamic import: `source` is what the import
    /// names, `lone` says that the import has no further arguments.
    pub fn rewrite_import_source(&self, source: Expression, lone: bool, record: usize) -> (r:
        Expression)
        ensures
            forall|arguments: List<Expression>|
                lone == (arguments is Nil) ==> r == #[trigger] self.import_source(
                    source,
                    arguments,
                    record,
                ),
    {
        match source {
            Expression::StringLiteral(text) => {
                if lone {
                    match self.resolve_importee(record) {
                        Some(m) => match self.chunk_file_of(m) {
                            Some(file) => Expression::StringLiteral(relative_chunk_path(file)),
                            None => Expression::StringLiteral(text),
                        },
                        None => Expression::StringLiteral(text),
                    }
                } else {
                    Expression::StringLiteral(text)
                }
            },
            other => other,
        }
    }

    /// Walks an expression.
    pub fn visit_expression(&self, expr: Expression) -> (r: Expression)
        requires
            self.wf(),
        ensures
            r == self.expression(expr),
        decreases expr, 1int,
    {
        match self.required_module(&expr) {
            Some(m) => {
                return self.require_call(m);
            },
            None => {},
        }
        match expr {
            Expression::Identifier(id) => Expression::Identifier(
                self.visit_identifier_reference(id),
            ),
            Expression::StringLiteral(text) => Expression::StringLiteral(text),
            Expression::NumberLiteral(n) => Expression::NumberLiteral(n),
            Expression::Call { callee, arguments, record } => self.visit_call_expression(
                callee,
                arguments,
                record,
            ),
            Expression::Import { source, arguments, record } => self.visit_import_expression(
                source,
                arguments,
                record,
            ),
            Expression::Object(properties) => Expression::Object(
                self.visit_object_property_list(properties),
            ),
            Expression::Class(class) => Expression::Class(Box::new(self.visit_class(*class))),
            Expression::Function(function) => Expression::Function(
                Box::new(self.visit_function(*function)),
            ),
            Expression::Sequence(items) => Expression::Sequence(self.visit_expression_list(items)),
            Expression::Member { object, property } => Expression::Member {
                object: Box::new(self.visit_expression(*object)),
                property,
            },
            Expression::Assignment { target, value } => Expression::Assignment {
                target: Box::new(self.visit_assignment_target(*target)),
                value: Box::new(self.visit_expression(*value)),
            },
        }
    }

    /// The walk of a call that is no `require` of a bundled module.
    pub fn visit_call_expression(
        &self,
        callee: Box<Expression>,
        arguments: List<Expression>,
        record: Option<usize>,
    ) -> (r: Expression)
        requires
            self.wf(),
        ensures
            r == (Expression::Call {
                callee: Box::new(self.expression(*callee)),
                arguments: self.expression_list(arguments),
                record,
            }),
        decreases (Expression::Call { callee, arguments, record }), 0int,
    {
        let ghost whole = Expression::Call { callee, arguments, record };
        assert(whole->Call_callee == callee && whole->Call_arguments == arguments);
        let arguments = self.visit_expression_list(arguments);
        let callee = self.visit_expression(*callee);
        Expression::Call { callee: Box::new(callee), arguments, record }
    }

    /// The walk of `import(source, arguments)`.
    pub fn visit_import_expression(
        &self,
        source: Box<Expression>,
        arguments: List<Expression>,
        record: usize,
    ) -> (r: Expression)
        requires
            self.wf(),
        ensures
            r == self.expression(Expression::Import { source, arguments, record }),
        decreases (Expression::Import { source, arguments, record }), 0int,
    {
        let lone = arguments.is_empty();
        let source = self.visit_expression(*source);
        let source = self.rewrite_import_source(source, lone, record);
        let arguments = self.visit_expression_list(arguments);
        Expression::Import { source: Box::new(source), arguments, record }
    }

    /// Walks an expression that may be absent.
    pub fn visit_optional_expression(&self, e: Option<Expression>) -> (r: Option<Expression>)
        requires
            self.wf(),
        ensures
            r == self.optional_expression(e),
        decreases e, 2int,
    {
        match e {
            Some(e) => Some(self.visit_expression(e)),
            None => None,
        }
    }

    /// Walks each expression of a list.
    pub fn visit_expression_list(&self, l: List<Expression>) -> (r: List<Expression>)
        requires
            self.wf(),
        ensures
            r == self.expression_list(l),
        decreases l, 0int,
    {
        match l {
            List::Nil => List::Nil,
            List::Cons(head, tail) => {
                let head = self.visit_expression(*head);
                let tail = self.visit_expression_list(*tail);
                List::Cons(Box::new(head), Box::new(tail))
            },
        }
    }

    /// Walks a property of an object literal.
    pub fn visit_object_property(&self, prop: ObjectProperty) -> (r: ObjectProperty)
        requires
            self.wf(),
        ensures
            r == self.object_property(prop),
        decreases prop, 0int,
    {
        let ObjectProperty { key, value, shorthand } = prop;
        let expand = match &value {
            Expression::Identifier(id) => shorthand && self.changes_name(&id.name, id.symbol_id),
            _ => false,
        };
        let value = self.visit_expression(value);
        ObjectProperty { key, value, shorthand: shorthand && !expand }
    }

    /// Walks each property of an object literal.
    pub fn visit_object_property_list(&self, l: List<ObjectProperty>) -> (r: List<ObjectProperty>)
        requires
            self.wf(),
        ensures
            r == self.object_property_list(l),
        decreases l, 0int,
    {
        match l {
            List::Nil => List::Nil,
            List::Cons(head, tail) => {
                let head = self.visit_object_property(*head);
                let tail = self.visit_object_property_list(*tail);
                List::Cons(Box::new(head), Box::new(tail))
            },
        }
    }

    /// Walks a simple assignment target.
    pub fn visit_simple_assignment_target(&self, target: SimpleAssignmentTarget) -> (r:
        SimpleAssignmentTarget)
        requires
            self.wf(),
        ensures
            r == self.simple_assignment_target(target),
        decreases target, 0int,
    {
        match target {
            SimpleAssignmentTarget::Identifier(id) => SimpleAssignmentTarget::Identifier(
                self.visit_identifier_reference(id),
            ),
            SimpleAssignmentTarget::Member(e) => SimpleAssignmentTarget::Member(
                self.visit_expression(e),
            ),
        }
    }

    /// Walks an assignment target.
    pub fn visit_assignment_target(&self, target: AssignmentTarget) -> (r: AssignmentTarget)
        requires
            self.wf(),
        ensures
            r == self.assignment_target(target),
        decreases target, 0int,
    {
        match target {
            AssignmentTarget::Simple(s) => AssignmentTarget::Simple(
                self.visit_simple_assignment_target(s),
            ),
            AssignmentTarget::Object { properties, rest } => AssignmentTarget::Object {
                properties: self.visit_assignment_target_property_list(properties),
                rest: match rest {
                    Some(rest) => Some(Box::new(self.visit_assignment_target(*rest))),
                    None => None,
                },
            },
            AssignmentTarget::Array(items) => AssignmentTarget::Array(
                self.visit_assignment_target_list(items),
            ),
            AssignmentTarget::WithDefault { target, init } => AssignmentTarget::WithDefault {
                target: Box::new(self.visit_assignment_target(*target)),
                init: Box::new(self.visit_expression(*init)),
            },
        }
    }

    /// Walks each assignment target of a list.
    pub fn visit_assignment_target_list(&self, l: List<AssignmentTarget>) -> (r: List<
        AssignmentTarget,
    >)
        requires
            self.wf(),
        ensures
            r == self.assignment_target_list(l),
        decreases l, 0int,
    {
        match l {
            List::Nil => List::Nil,
            List::Cons(head, tail) => {
                let head = self.visit_assignment_target(*head);
                let tail = self.visit_assignment_target_list(*tail);
                List::Cons(Box::new(head), Box::new(tail))
            },
        }
    }

    /// Walks a property of an object assignment target.
    pub fn visit_assignment_target_property(&self, property: AssignmentTargetProperty) -> (r:
        AssignmentTargetProperty)
        requires
            self.wf(),
        ensures
            r == self.assignment_target_property(property),
        decreases property, 0int,
    {
        match property {
            AssignmentTargetProperty::Identifier { binding, init } => {
                if self.changes_name(&binding.name, binding.symbol_id) {
                    let name = binding.name.clone();
                    let target = AssignmentTarget::Simple(
                        SimpleAssignmentTarget::Identifier(self.visit_identifier_reference(binding)),
                    );
                    AssignmentTargetProperty::Property {
                        name,
                        binding: match init {
                            Some(init) => AssignmentTarget::WithDefault {
                                target: Box::new(target),
                                init: Box::new(self.visit_expression(init)),
                            },
                            None => target,
                        },
                    }
                } else {
                    AssignmentTargetProperty::Identifier {
                        binding: self.visit_identifier_reference(binding),
                        init: self.visit_optional_expression(init),
                    }
                }
            },
            AssignmentTargetProperty::Property { name, binding } => {
                AssignmentTargetProperty::Property {
                    name,
                    binding: self.visit_assignment_target(binding),
                }
            },
        }
    }

    /// Walks each property of an object assignment target.
    pub fn visit_assignment_target_property_list(&self, l: List<AssignmentTargetProperty>) -> (r:
        List<AssignmentTargetProperty>)
        requires
            self.wf(),
        ensures
            r == self.assignment_target_property_list(l),
        decreases l, 0int,
    {
        match l {
            List::Nil => List::Nil,
            List::Cons(head, tail) => {
                let head = self.visit_assignment_target_property(*head);
                let tail = self.visit_assignment_target_property_list(*tail);
                List::Cons(Box::new(head), Box::new(tail))
            },
        }
    }

    /// Walks a binding pattern.
    pub fn visit_binding_pattern(&self, pattern: BindingPattern) -> (r: BindingPattern)
        requires
            self.wf(),
        ensures
            r == self.binding_pattern(pattern),
        decreases pattern, 0int,
    {
        match pattern {
            BindingPattern::Identifier(id) => BindingPattern::Identifier(
                self.visit_binding_identifier(id),
            ),
            BindingPattern::Object(o) => BindingPattern::Object(self.visit_object_pattern(o)),
            BindingPattern::Array(items) => BindingPattern::Array(
                self.visit_binding_pattern_list(items),
            ),
            BindingPattern::Assignment { left, right } => BindingPattern::Assignment {
                left: Box::new(self.visit_binding_pattern(*left)),
                right: Box::new(self.visit_expression(*right)),
            },
        }
    }

    /// Walks each binding pattern of a list.
    pub fn visit_binding_pattern_list(&self, l: List<BindingPattern>) -> (r: List<BindingPattern>)
        requires
            self.wf(),
        ensures
            r == self.binding_pattern_list(l),
        decreases l, 0int,
    {
        match l {
            List::Nil => List::Nil,
            List::Cons(head, tail) => {
                let head = self.visit_binding_pattern(*head);
                let tail = self.visit_binding_pattern_list(*tail);
                List::Cons(Box::new(head), Box::new(tail))
            },
        }
    }

    /// Whether `p`, as the value of a shorthand property, binds one name
    /// that the rewrite changes.
    pub fn changes_shorthand(&self, p: &BindingPattern) -> (b: bool)
        ensures
            b == self.shorthand_renamed(*p),
    {
        match p {
            BindingPattern::Identifier(id) => self.changes_name(&id.name, id.symbol_id),
            BindingPattern::Assignment { left, right: _ } => match &**left {
                BindingPattern::Identifier(id) => self.changes_name(&id.name, id.symbol_id),
                _ => false,
            },
            _ => false,
        }
    }

    /// Walks a property of an object pattern.
    pub fn visit_binding_property(&self, prop: BindingProperty) -> (r: BindingProperty)
        requires
            self.wf(),
        ensures
            r == self.binding_property(prop),
        decreases prop, 0int,
    {
        let BindingProperty { key, value, shorthand } = prop;
        let expand = shorthand && self.changes_shorthand(&value);
        let value = self.visit_binding_pattern(value);
        BindingProperty { key, value, shorthand: shorthand && !expand }
    }

    /// Walks each property of an object pattern.
    pub fn visit_binding_property_list(&self, l: List<BindingProperty>) -> (r: List<
        BindingProperty,
    >)
        requires
            self.wf(),
        ensures
            r == self.binding_property_list(l),
        decreases l, 0int,
    {
        match l {
            List::Nil => List::Nil,
            List::Cons(head, tail) => {
                let head = self.visit_binding_property(*head);
                let tail = self.visit_binding_property_list(*tail);
                List::Cons(Box::new(head), Box::new(tail))
            },
        }
    }

    /// Walks an object pattern.
    pub fn visit_object_pattern(&self, pat: ObjectPattern) -> (r: ObjectPattern)
        requires
            self.wf(),
        ensures
            r == self.object_pattern(pat),
        decreases pat, 0int,
    {
        let ObjectPattern { properties, rest } = pat;
        let properties = self.visit_binding_property_list(properties);
        let rest = match rest {
            Some(rest) => Some(Box::new(self.visit_binding_pattern(*rest))),
            None => None,
        };
        ObjectPattern { properties, rest }
    }

    /// Walks a function.
    pub fn visit_function(&self, function: Function) -> (r: Function)
        requires
            self.wf(),
        ensures
            r == self.function(function),
        decreases function, 0int,
    {
        let Function { id, params, body } = function;
        let id = match id {
            Some(id) => Some(self.visit_binding_identifier(id)),
            None => None,
        };
        let params = self.visit_binding_pattern_list(params);
        let body = self.visit_statement_list(body);
        Function { id, params, body }
    }

    /// Walks each function of a list.
    pub fn visit_function_list(&self, l: List<Function>) -> (r: List<Function>)
        requires
            self.wf(),
        ensures
            r == self.function_list(l),
        decreases l, 0int,
    {
        match l {
            List::Nil => List::Nil,
            List::Cons(head, tail) => {
                let head = self.visit_function(*head);
                let tail = self.visit_function_list(*tail);
                List::Cons(Box::new(head), Box::new(tail))
            },
        }
    }

    /// Walks the parts of a class and leaves the text of its name alone.
    pub fn visit_class(&self, class: Class) -> (r: Class)
        requires
            self.wf(),
        ensures
            r == self.class(class),
        decreases class, 0int,
    {
        let Class { id, super_class, methods } = class;
        let id = match id {
            Some(ident) => Some(BindingIdentifier { name: ident.name, symbol_id: None }),
            None => None,
        };
        let super_class = self.visit_optional_expression(super_class);
        let methods = self.visit_function_list(methods);
        Class { id, super_class, methods }
    }

    /// Walks a variable declarator.
    pub fn visit_variable_declarator(&self, declarator: VariableDeclarator) -> (r:
        VariableDeclarator)
        requires
            self.wf(),
        ensures
            r == self.variable_declarator(declarator),
        decreases declarator, 0int,
    {
        let VariableDeclarator { id, init } = declarator;
        let old_name: Option<String> = match &id {
            BindingPattern::Identifier(ident) => match &init {
                Some(Expression::Class(class)) => {
                    if class.id.is_none() && self.changes_name(&ident.name, ident.symbol_id) {
                        Some(ident.name.clone())
                    } else {
                        None
                    }
                },
                _ => None,
            },
            _ => None,
        };
        let id = self.visit_binding_pattern(id);
        let init = self.visit_optional_expression(init);
        let init = match old_name {
            Some(old_name) => match init {
                Some(Expression::Class(class)) => {
                    let Class { id: _, super_class, methods } = *class;
                    Some(
                        Expression::Class(
                            Box::new(
                                Class {
                                    id: Some(BindingIdentifier { name: old_name, symbol_id: None }),
                                    super_class,
                                    methods,
                                },
                            ),
                        ),
                    )
                },
                other => other,
            },
            None => init,
        };
        VariableDeclarator { id, init }
    }

    /// Walks each declarator of a declaration.
    pub fn visit_variable_declarator_list(&self, l: List<VariableDeclarator>) -> (r: List<
        VariableDeclarator,
    >)
        requires
            self.wf(),
        ensures
            r == self.variable_declarator_list(l),
        decreases l, 0int,
    {
        match l {
            List::Nil => List::Nil,
            List::Cons(head, tail) => {
                let head = self.visit_variable_declarator(*head);
                let tail = self.visit_variable_declarator_list(*tail);
                List::Cons(Box::new(head), Box::new(tail))
            },
        }
    }

    /// Walks a declaration.
    pub fn visit_declaration_match(&self, decl: Declaration) -> (r: Declaration)
        requires
            self.wf(),
        ensures
            r == self.declaration(decl),
        decreases decl, 0int,
    {
        match decl {
            Declaration::Variable(v) => {
                let VariableDeclaration { kind, declarations } = v;
                Declaration::Variable(
                    VariableDeclaration {
                        kind,
                        declarations: self.visit_variable_declarator_list(declarations),
                    },
                )
            },
            Declaration::Function(f) => Declaration::Function(self.visit_function(f)),
            Declaration::Class(c) => {
                let new_name: Option<String> = match &c.id {
                    Some(ident) => if self.changes_name(&ident.name, ident.symbol_id) {
                        Some(self.canonical_text(ident.name.clone(), ident.symbol_id))
                    } else {
                        None
                    },
                    None => None,
                };
                let class = self.visit_class(c);
                match new_name {
                    Some(name) => var_decl_stmt(name, Expression::Class(Box::new(class))),
                    None => Declaration::Class(class),
                }
            },
        }
    }

    /// Walks a statement.
    pub fn visit_statement(&self, stmt: Statement) -> (r: Statement)
        requires
            self.wf(),
        ensures
            r == self.statement(stmt),
        decreases stmt, 0int,
    {
        match stmt {
            Statement::Declaration(d) => Statement::Declaration(self.visit_declaration_match(d)),
            Statement::Expression(e) => Statement::Expression(self.visit_expression(e)),
            Statement::Block(body) => Statement::Block(self.visit_statement_list(body)),
            Statement::Return(e) => Statement::Return(self.visit_optional_expression(e)),
            Statement::CommonJsWrapper { name, helper, body } => Statement::CommonJsWrapper {
                name,
                helper,
                body: self.visit_statement_list(body),
            },
            Statement::EsmWrapper { name, helper, body } => Statement::EsmWrapper {
                name,
                helper,
                body: self.visit_statement_list(body),
            },
        }
    }

    /// Walks each statement of a list.
    pub fn visit_statement_list(&self, l: List<Statement>) -> (r: List<Statement>)
        requires
            self.wf(),
        ensures
            r == self.statement_list(l),
        decreases l, 0int,
    {
        match l {
            List::Nil => List::Nil,
            List::Cons(head, tail) => {
                let head = self.visit_statement(*head);
                let tail = self.visit_statement_list(*tail);
                List::Cons(Box::new(head), Box::new(tail))
            },
        }
    }

    /// The walk of one top-level statement.
    pub fn visit_top_level_statement_mut(&self, stmt: Statement) -> (r: Statement)
        requires
            self.wf(),
        ensures
            r == self.statement(stmt),
    {
        self.visit_statement(stmt)
    }
}

} // verus!
