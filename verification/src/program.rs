//! The statement rewriter and the finalization of a whole module.

use vstd::prelude::*;
use crate::ast::{BindingIdentifier, Class, Declaration, ExportDefaultKind, Expression, FinalizedProgram, Function, ModuleDeclaration, Program, Statement, TopLevelStatement};
use crate::context::{ExportsKind, Finalizer, LinkingInfo, Module, WrapKind};
use crate::list::List;
use crate::snippet::{call, call_expr_expr, call_expr_with_2arg_expr_expr, call_expr_with_arg_expr_expr, call_with, call_with_two, id, id_ref, id_ref_expr, var_decl, var_decl_stmt};
use crate::wrapper::{esm_wrapped, esm_wrapper_stmts};

verus! {

impl Finalizer {
    /// The module that is finalized.
    pub open spec fn module(&self) -> Module {
        self.modules@[self.id as int]
    }

    /// Its linking result.
    pub open spec fn linking_info(&self) -> LinkingInfo {
        self.linking_infos@[self.id as int]
    }

    /// What is left of an import, or of an export from another module, of
    /// import record `record`: a call of the target's wrapper, which starts
    /// the target, where the target is a bundled module with a wrapper;
    /// nothing where the target is inlined or no bundled module. No binding
    /// is left in either case.
    pub open spec fn import_shell(&self, record: usize) -> List<Statement> {
        match self.importee(record) {
            None => List::Nil,
            Some(m) => {
                let info = self.linking_infos@[m as int];
                match info.wrapper_ref {
                    Some(w) => if info.wrap_kind != WrapKind::Unwrapped {
                        List::one(Statement::Expression(call(self.name_of(w))))
                    } else {
                        List::Nil
                    },
                    None => List::Nil,
                }
            },
        }
    }

    /// The call that starts module `m`, where `m` has an ES module wrapper.
    pub open spec fn re_export_init(&self, m: usize) -> List<Statement> {
        let info = self.linking_infos@[m as int];
        match (info.wrap_kind, info.wrapper_ref) {
            (WrapKind::Esm, Some(w)) => List::one(Statement::Expression(call(self.name_of(w)))),
            _ => List::Nil,
        }
    }

    /// The call that copies what module `m` exports onto the namespace of
    /// this module: for an ES module with dynamic exports its namespace, for
    /// a CommonJS module its exports object made into a namespace.
    pub open spec fn re_export_copy(&self, m: usize) -> List<Statement> {
        let info = self.linking_infos@[m as int];
        let importee = self.modules@[m as int];
        let copier = self.name_of(self.runtime.re_export);
        let own = id_ref(self.name_of(self.module().namespace_symbol));
        match importee.exports_kind {
            ExportsKind::Esm => if info.has_dynamic_exports {
                List::one(
                    Statement::Expression(
                        call_with_two(copier, own, id_ref(self.name_of(importee.namespace_symbol))),
                    ),
                )
            } else {
                List::Nil
            },
            ExportsKind::CommonJs => match info.wrapper_ref {
                Some(w) => List::one(
                    Statement::Expression(
                        call_with_two(
                            copier,
                            own,
                            call_with(self.name_of(self.runtime.to_esm), call(self.name_of(w))),
                        ),
                    ),
                ),
                None => List::Nil,
            },
            ExportsKind::NoExports => List::Nil,
        }
    }

    /// What stands for `export * from '..'` of import record `record`.
    pub open spec fn re_export_all(&self, record: usize) -> List<Statement> {
        match self.importee(record) {
            None => List::Nil,
            Some(m) => self.re_export_init(m).concat(self.re_export_copy(m)),
        }
    }

    /// The name that a default export without a name of its own gets.
    pub open spec fn default_name(&self) -> String {
        self.name_of(self.module().default_export_ref)
    }

    /// The declaration that stands for `export default ..`.
    pub open spec fn default_export(&self, kind: ExportDefaultKind) -> Declaration {
        match kind {
            ExportDefaultKind::Expression(e) => var_decl(self.default_name(), e),
            ExportDefaultKind::Function(f) => Declaration::Function(
                Function {
                    id: Some(
                        match f.id {
                            Some(ident) => ident,
                            None => id(self.default_name()),
                        },
                    ),
                    params: f.params,
                    body: f.body,
                },
            ),
            ExportDefaultKind::Class(c) => Declaration::Class(
                Class {
                    id: Some(
                        match c.id {
                            Some(ident) => ident,
                            None => id(self.default_name()),
                        },
                    ),
                    super_class: c.super_class,
                    methods: c.methods,
                },
            ),
        }
    }

    /// The statements that an included import or export construct becomes.
    pub open spec fn module_declaration(&self, d: ModuleDeclaration) -> List<Statement> {
        match d {
            ModuleDeclaration::Import { record } => self.import_shell(record),
            ModuleDeclaration::ExportAll { record, exported } => match exported {
                Some(_) => self.import_shell(record),
                None => self.re_export_all(record),
            },
            ModuleDeclaration::ExportDefault(kind) => List::one(
                Statement::Declaration(self.default_export(kind)),
            ),
            ModuleDeclaration::ExportNamed { source, declaration } => match source {
                Some(record) => self.import_shell(record),
                None => match declaration {
                    Some(d) => List::one(Statement::Declaration(d)),
                    None => List::Nil,
                },
            },
        }
    }

    /// The statements that an included top-level statement becomes.
    pub open spec fn top_level_statement(&self, s: TopLevelStatement) -> List<Statement> {
        match s {
            TopLevelStatement::Module(d) => self.module_declaration(d),
            TopLevelStatement::Plain(s) => List::one(s),
        }
    }

    /// Whether statement info `i` of this module is there and says
    /// "included".
    pub open spec fn included(&self, i: int) -> bool {
        0 <= i < self.module().stmt_infos@.len() && self.module().stmt_infos@[i].is_included
    }

    /// The statement pass over `stmts`, whose first statement has the
    /// statement info `i`: each included statement gives what
    /// `top_level_statement` says, in its place; the others, and those for
    /// which no statement info is left, give nothing.
    pub open spec fn statement_pass(&self, stmts: List<TopLevelStatement>, i: int) -> List<
        Statement,
    >
        decreases stmts,
    {
        match stmts {
            List::Nil => List::Nil,
            List::Cons(head, tail) => if i >= self.module().stmt_infos@.len() {
                List::Nil
            } else if self.included(i) {
                self.top_level_statement(*head).concat(self.statement_pass(*tail, i + 1))
            } else {
                self.statement_pass(*tail, i + 1)
            },
        }
    }

    /// Whether the namespace object of this module is declared: the module
    /// is an ES module and its namespace is marked as used.
    pub open spec fn namespace_referenced(&self) -> bool {
        self.module().exports_kind == ExportsKind::Esm && self.included(0)
    }

    /// `var namespace = {}`.
    pub open spec fn namespace_declaration(&self) -> Statement {
        Statement::Declaration(
            var_decl(self.name_of(self.module().namespace_symbol), Expression::Object(List::Nil)),
        )
    }

    /// The body after the statement pass, before any name is rewritten.
    pub open spec fn unlinked_body(&self, program: Program) -> List<Statement> {
        if self.namespace_referenced() {
            List::Cons(
                Box::new(self.namespace_declaration()),
                Box::new(self.statement_pass(program.body, 1)),
            )
        } else {
            self.statement_pass(program.body, 1)
        }
    }

    /// Whether the module goes into a wrapper: the linker made a statement
    /// info for the wrapper, and it is included.
    pub open spec fn needs_wrapper(&self) -> bool {
        self.linking_info().wrapper_stmt_info matches Some(i) && self.included(i as int)
    }

    /// The wrapper, where one is needed, around the rewritten body `body`.
    pub open spec fn wrapped(&self, body: List<Statement>) -> List<Statement> {
        let info = self.linking_info();
        if self.needs_wrapper() {
            match (info.wrap_kind, info.wrapper_ref) {
                (WrapKind::Cjs, Some(w)) => List::one(
                    Statement::CommonJsWrapper {
                        name: self.name_of(w),
                        helper: self.name_of(self.runtime.common_js_min),
                        body,
                    },
                ),
                (WrapKind::Esm, Some(w)) => esm_wrapped(
                    self.name_of(w),
                    self.name_of(self.runtime.esm_min),
                    body,
                ),
                _ => body,
            }
        } else {
            body
        }
    }

    /// The finalized module: the statement pass, then the walk that renames,
    /// then the wrapper.
    pub open spec fn finalized(&self, program: Program) -> FinalizedProgram {
        FinalizedProgram { body: self.wrapped(self.statement_list(self.unlinked_body(program))) }
    }

    /// Makes what is left of an import of import record `record`.
    pub fn make_import_shell(&self, record: usize) -> (r: List<Statement>)
        requires
            self.wf(),
        ensures
            r == self.import_shell(record),
    {
        match self.resolve_importee(record) {
            None => List::Nil,
            Some(m) => {
                assert(self.module_wf(m as int));
                let info = self.linking_infos[m];
                match info.wrapper_ref {
                    Some(w) => match info.wrap_kind {
                        WrapKind::Unwrapped => List::Nil,
                        _ => List::single(
                            Statement::Expression(call_expr_expr(self.canonical_name_for(w))),
                        ),
                    },
                    None => List::Nil,
                }
            },
        }
    }

    /// Makes what stands for `export * from '..'` of import record `record`.
    pub fn make_re_export_all(&self, record: usize) -> (r: List<Statement>)
        requires
            self.wf(),
        ensures
            r == self.re_export_all(record),
    {
        match self.resolve_importee(record) {
            None => List::Nil,
            Some(m) => {
                assert(self.module_wf(m as int));
                assert(self.module_wf(self.id as int));
                let info = self.linking_infos[m];
                let init = match info.wrapper_ref {
                    Some(w) => match info.wrap_kind {
                        WrapKind::Esm => List::single(
                            Statement::Expression(call_expr_expr(self.canonical_name_for(w))),
                        ),
                        _ => List::Nil,
                    },
                    None => List::Nil,
                };
                let copier = self.canonical_name_for(self.runtime.re_export);
                let own = id_ref_expr(
                    self.canonical_name_for(self.modules[self.id].namespace_symbol),
                );
                let copy = match self.modules[m].exports_kind {
                    ExportsKind::Esm => if info.has_dynamic_exports {
                        let other = id_ref_expr(
                            self.canonical_name_for(self.modules[m].namespace_symbol),
                        );
                        List::single(
                            Statement::Expression(call_expr_with_2arg_expr_expr(copier, own, other)),
                        )
                    } else {
                        List::Nil
                    },
                    ExportsKind::CommonJs => match info.wrapper_ref {
                        Some(w) => {
                            let to_esm = self.canonical_name_for(self.runtime.to_esm);
                            let exports = call_expr_with_arg_expr_expr(
                                to_esm,
                                call_expr_expr(self.canonical_name_for(w)),
                            );
                            List::single(
                                Statement::Expression(
                                    call_expr_with_2arg_expr_expr(copier, own, exports),
                                ),
                            )
                        },
                        None => List::Nil,
                    },
                    ExportsKind::NoExports => List::Nil,
                };
                init.append(copy)
            },
        }
    }

    /// Makes the declaration that stands for `export default ..`.
    pub fn make_default_export(&self, kind: ExportDefaultKind) -> (r: Declaration)
        requires
            self.wf(),
        ensures
            r == self.default_export(kind),
    {
        assert(self.module_wf(self.id as int));
        let default_ref = self.modules[self.id].default_export_ref;
        match kind {
            ExportDefaultKind::Expression(e) => var_decl_stmt(self.canonical_name_for(default_ref), e),
            ExportDefaultKind::Function(f) => {
                let Function { id, params, body } = f;
                let id = match id {
                    Some(ident) => ident,
                    None => BindingIdentifier {
                        name: self.canonical_name_for(default_ref),
                        symbol_id: None,
                    },
                };
                Declaration::Function(Function { id: Some(id), params, body })
            },
            ExportDefaultKind::Class(c) => {
                let Class { id, super_class, methods } = c;
                let id = match id {
                    Some(ident) => ident,
                    None => BindingIdentifier {
                        name: self.canonical_name_for(default_ref),
                        symbol_id: None,
                    },
                };
                Declaration::Class(Class { id: Some(id), super_class, methods })
            },
        }
    }

    /// Rewrites one included top-level statement.
    pub fn rewrite_top_level_statement(&self, stmt: TopLevelStatement) -> (r: List<Statement>)
        requires
            self.wf(),
        ensures
            r == self.top_level_statement(stmt),
    {
        match stmt {
            TopLevelStatement::Plain(s) => List::single(s),
            TopLevelStatement::Module(d) => match d {
                ModuleDeclaration::Import { record } => self.make_import_shell(record),
                ModuleDeclaration::ExportAll { record, exported } => match exported {
                    Some(_) => self.make_import_shell(record),
                    None => self.make_re_export_all(record),
                },
                ModuleDeclaration::ExportDefault(kind) => List::single(
                    Statement::Declaration(self.make_default_export(kind)),
                ),
                ModuleDeclaration::ExportNamed { source, declaration } => match source {
                    Some(record) => self.make_import_shell(record),
                    None => match declaration {
                        Some(d) => List::single(Statement::Declaration(d)),
                        None => List::Nil,
                    },
                },
            },
        }
    }

    /// The statement pass over `stmts`, whose first statement has the
    /// statement info `i`.
    pub fn run_statement_pass(&self, stmts: List<TopLevelStatement>, i: usize) -> (r: List<
        Statement,
    >)
        requires
            self.wf(),
        ensures
            r == self.statement_pass(stmts, i as int),
        decreases stmts,
    {
        match stmts {
            List::Nil => List::Nil,
            List::Cons(head, tail) => {
                if i >= self.modules[self.id].stmt_infos.len() {
                    return List::Nil;
                }
                let included = self.modules[self.id].stmt_infos[i].is_included;
                let rest = self.run_statement_pass(*tail, i + 1);
                if included {
                    self.rewrite_top_level_statement(*head).append(rest)
                } else {
                    rest
                }
            },
        }
    }

    /// Puts the rewritten body into the wrapper that the linker asked for.
    pub fn wrap_body(&self, body: List<Statement>) -> (r: List<Statement>)
        requires
            self.wf(),
        ensures
            r == self.wrapped(body),
    {
        assert(self.module_wf(self.id as int));
        let info = self.linking_infos[self.id];
        let needs_wrapper = match info.wrapper_stmt_info {
            Some(i) => self.modules[self.id].stmt_infos[i].is_included,
            None => false,
        };
        if !needs_wrapper {
            return body;
        }
        match info.wrapper_ref {
            Some(w) => match info.wrap_kind {
                WrapKind::Cjs => {
                    let name = self.canonical_name_for(w);
                    let helper = self.canonical_name_for(self.runtime.common_js_min);
                    List::single(Statement::CommonJsWrapper { name, helper, body })
                },
                WrapKind::Esm => {
                    let name = self.canonical_name_for(w);
                    let helper = self.canonical_name_for(self.runtime.esm_min);
                    esm_wrapper_stmts(name, helper, body)
                },
                WrapKind::Unwrapped => body,
            },
            None => body,
        }
    }

    /// Finalizes the module: drops what is not included, takes the import
    /// and export constructs away, gives every name its canonical form, and
    /// wraps the result where the linker asked for a wrapper.
    pub fn visit_program(&self, program: Program) -> (r: FinalizedProgram)
        requires
            self.wf(),
        ensures
            r == self.finalized(program),
    {
        assert(self.module_wf(self.id as int));
        let module = &self.modules[self.id];
        let is_namespace_referenced = match module.exports_kind {
            ExportsKind::Esm => module.stmt_infos[0].is_included,
            _ => false,
        };
        let passed = self.run_statement_pass(program.body, 1);
        let body = if is_namespace_referenced {
            let namespace = self.canonical_name_for(module.namespace_symbol);
            passed.push_front(
                Statement::Declaration(var_decl_stmt(namespace, Expression::Object(List::Nil))),
            )
        } else {
            passed
        };
        let body = self.visit_statement_list(body);
        FinalizedProgram { body: self.wrap_body(body) }
    }
}

} // verus!
