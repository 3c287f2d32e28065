use finalizer::ast::{
    AssignmentTarget, AssignmentTargetProperty, BindingIdentifier, BindingPattern, BindingProperty,
    Class, Declaration, ExportDefaultKind, Expression, FinalizedProgram, Function,
    IdentifierReference, ModuleDeclaration, ObjectPattern, ObjectProperty, Program,
    SimpleAssignmentTarget, Statement, TopLevelStatement, VariableDeclaration, VariableDeclarator,
    VariableKind,
};
use finalizer::context::{
    Chunk, ChunkGraph, ExportsKind, Finalizer, ImportRecord, LinkingInfo, Module, ModuleId,
    RuntimeHelpers, StmtInfo, SymbolRef, WrapKind,
};
use finalizer::list::List;

const RUNTIME: usize = 2;

fn s(text: &str) -> String {
    text.to_string()
}

fn list<T>(items: Vec<T>) -> List<T> {
    List::from_vec(items)
}

fn sym(owner: usize, symbol: usize) -> SymbolRef {
    SymbolRef { owner, symbol }
}

fn bind(name: &str, symbol_id: Option<usize>) -> BindingIdentifier {
    BindingIdentifier { name: s(name), symbol_id }
}

fn refer(name: &str, symbol_id: Option<usize>) -> IdentifierReference {
    IdentifierReference { name: s(name), symbol_id }
}

fn ident(name: &str, symbol_id: Option<usize>) -> Expression {
    Expression::Identifier(refer(name, symbol_id))
}

fn call(callee: &str, arguments: Vec<Expression>) -> Expression {
    Expression::Call { callee: Box::new(ident(callee, None)), arguments: list(arguments), record: None }
}

fn var(kind: VariableKind, name: BindingIdentifier, init: Option<Expression>) -> Statement {
    Statement::Declaration(Declaration::Variable(VariableDeclaration {
        kind,
        declarations: list(vec![VariableDeclarator { id: BindingPattern::Identifier(name), init }]),
    }))
}

fn info(is_included: bool, stmt_idx: Option<usize>) -> StmtInfo {
    StmtInfo { is_included, stmt_idx }
}

fn included(n: usize) -> Vec<StmtInfo> {
    let mut infos = vec![info(false, None)];
    for i in 0..n {
        infos.push(info(true, Some(i)));
    }
    infos
}

fn module(exports_kind: ExportsKind, owner: usize, stmt_infos: Vec<StmtInfo>) -> Module {
    Module {
        exports_kind,
        stmt_infos,
        import_records: vec![],
        namespace_symbol: sym(owner, 0),
        default_export_ref: sym(owner, 1),
    }
}

fn linking(wrap_kind: WrapKind, wrapper_ref: Option<SymbolRef>) -> LinkingInfo {
    LinkingInfo { wrap_kind, wrapper_ref, has_dynamic_exports: false, wrapper_stmt_info: None }
}

/// Module 0 imports module 1 through record 0 and an external module through
/// record 1; module 2 holds the runtime helpers.
fn context(this: Module, this_info: LinkingInfo, a: Module, a_info: LinkingInfo) -> Finalizer {
    let mut this = this;
    this.import_records = vec![
        ImportRecord { resolved_module: ModuleId::Normal(1) },
        ImportRecord { resolved_module: ModuleId::External(0) },
    ];
    Finalizer {
        id: 0,
        modules: vec![this, a, module(ExportsKind::Esm, RUNTIME, vec![info(false, None)])],
        linking_infos: vec![this_info, a_info, linking(WrapKind::Unwrapped, None)],
        symbols: vec![
            vec![s("b_exports"), s("b_default"), s("init_b"), s("import_a"), s("import_ext"), s("foo$1"), s("bar")],
            vec![s("a_exports"), s("a_default"), s("init_a")],
            vec![s("__reExport"), s("__toESM"), s("__toCommonJS"), s("__commonJSMin"), s("__esmMin")],
        ],
        chunk_graph: ChunkGraph {
            module_to_chunk: vec![Some(0), Some(1), None],
            chunks: vec![Chunk { file_name: Some(s("main.js")) }, Chunk { file_name: Some(s("a-chunk.js")) }],
        },
        runtime: RuntimeHelpers {
            re_export: sym(RUNTIME, 0),
            to_esm: sym(RUNTIME, 1),
            to_common_js: sym(RUNTIME, 2),
            common_js_min: sym(RUNTIME, 3),
            esm_min: sym(RUNTIME, 4),
        },
    }
}

fn plain_context(n_statements: usize) -> Finalizer {
    context(
        module(ExportsKind::Esm, 0, included(n_statements)),
        linking(WrapKind::Unwrapped, None),
        module(ExportsKind::Esm, 1, vec![info(false, None)]),
        linking(WrapKind::Unwrapped, None),
    )
}

fn importing(a_kind: ExportsKind, a_wrap: WrapKind, n_statements: usize) -> Finalizer {
    let wrapper = match a_wrap {
        WrapKind::Unwrapped => None,
        _ => Some(sym(1, 2)),
    };
    context(
        module(ExportsKind::Esm, 0, included(n_statements)),
        linking(WrapKind::Unwrapped, None),
        module(a_kind, 1, vec![info(false, None)]),
        linking(a_wrap, wrapper),
    )
}

fn run(ctx: &Finalizer, body: Vec<TopLevelStatement>) -> Vec<Statement> {
    let out: FinalizedProgram = ctx.finalize(Program { body: list(body) }).expect("well formed");
    out.body.into_vec()
}

fn log(e: Expression) -> Statement {
    Statement::Expression(call("log", vec![e]))
}

#[test]
fn list_round_trip_keeps_order() {
    let l = List::from_vec(vec![1, 2, 3]);
    assert_eq!(l, List::single(3).push_front(2).push_front(1));
    assert_eq!(l.into_vec(), vec![1, 2, 3]);
    assert!(List::<u8>::empty().is_empty());
    assert_eq!(List::<u8>::from_vec(vec![]).into_vec(), Vec::<u8>::new());
}

#[test]
fn list_append_puts_second_behind_first() {
    let l = list(vec![1, 2]).append(list(vec![3]));
    assert_eq!(l.into_vec(), vec![1, 2, 3]);
    assert_eq!(list(Vec::<u8>::new()).append(list(vec![7])).into_vec(), vec![7]);
}

#[test]
fn well_formed_context_is_accepted() {
    assert!(plain_context(0).is_well_formed());
    assert!(importing(ExportsKind::CommonJs, WrapKind::Cjs, 2).is_well_formed());
}

#[test]
fn context_without_helper_name_is_refused() {
    let mut ctx = plain_context(1);
    ctx.symbols[RUNTIME].pop();
    assert!(!ctx.is_well_formed());
    assert_eq!(ctx.finalize(Program { body: list(vec![]) }), None);
}

#[test]
fn context_with_wrap_kind_but_no_wrapper_is_refused() {
    let mut ctx = plain_context(1);
    ctx.linking_infos[1].wrap_kind = WrapKind::Esm;
    assert!(!ctx.is_well_formed());
    let mut ctx = plain_context(1);
    ctx.id = 3;
    assert!(!ctx.is_well_formed());
    let mut ctx = plain_context(1);
    ctx.modules[1].default_export_ref = sym(1, 99);
    assert!(!ctx.is_well_formed());
    let mut ctx = plain_context(1);
    ctx.linking_infos[0].wrapper_stmt_info = Some(2);
    assert!(!ctx.is_well_formed());
    let mut ctx = plain_context(1);
    ctx.modules[1].stmt_infos.clear();
    assert!(!ctx.is_well_formed());
    let mut ctx = plain_context(1);
    ctx.linking_infos.pop();
    assert!(!ctx.is_well_formed());
}

#[test]
fn finalizing_twice_gives_the_same_tree() {
    let ctx = importing(ExportsKind::Esm, WrapKind::Esm, 2);
    let body = || {
        vec![
            TopLevelStatement::Module(ModuleDeclaration::Import { record: 0 }),
            TopLevelStatement::Plain(log(ident("foo", Some(5)))),
        ]
    };
    assert_eq!(run(&ctx, body()), run(&ctx, body()));
    assert_eq!(run(&ctx.clone(), body()), run(&ctx, body()));
}

#[test]
fn binding_gets_canonical_name_and_loses_marker() {
    let ctx = plain_context(0);
    assert_eq!(ctx.visit_binding_identifier(bind("foo", Some(5))), bind("foo$1", None));
    assert_eq!(ctx.visit_binding_identifier(bind("bar", Some(6))), bind("bar", None));
    assert_eq!(ctx.visit_binding_identifier(bind("made", None)), bind("made", None));
    assert_eq!(ctx.visit_binding_identifier(bind("odd", Some(99))), bind("odd", None));
    assert_eq!(ctx.visit_identifier_reference(refer("foo", Some(5))), refer("foo$1", None));
    assert_eq!(ctx.visit_identifier_reference(refer("window", None)), refer("window", None));
    assert_eq!(ctx.canonical_name_for(sym(1, 2)), s("init_a"));
}

#[test]
fn shorthand_object_property_expands_only_when_renamed() {
    let ctx = plain_context(0);
    let renamed = ctx.visit_object_property(ObjectProperty {
        key: s("foo"),
        value: ident("foo", Some(5)),
        shorthand: true,
    });
    assert_eq!(renamed, ObjectProperty { key: s("foo"), value: ident("foo$1", None), shorthand: false });
    let kept = ctx.visit_object_property(ObjectProperty {
        key: s("bar"),
        value: ident("bar", Some(6)),
        shorthand: true,
    });
    assert_eq!(kept, ObjectProperty { key: s("bar"), value: ident("bar", None), shorthand: true });
    let explicit = ctx.visit_object_property(ObjectProperty {
        key: s("k"),
        value: ident("foo", Some(5)),
        shorthand: false,
    });
    assert_eq!(explicit, ObjectProperty { key: s("k"), value: ident("foo$1", None), shorthand: false });
}

#[test]
fn shorthand_pattern_property_expands_only_when_renamed() {
    let ctx = plain_context(0);
    let pattern = ObjectPattern {
        properties: list(vec![
            BindingProperty { key: s("foo"), value: BindingPattern::Identifier(bind("foo", Some(5))), shorthand: true },
            BindingProperty {
                key: s("foo"),
                value: BindingPattern::Assignment {
                    left: Box::new(BindingPattern::Identifier(bind("foo", Some(5)))),
                    right: Box::new(Expression::NumberLiteral(1)),
                },
                shorthand: true,
            },
            BindingProperty { key: s("bar"), value: BindingPattern::Identifier(bind("bar", Some(6))), shorthand: true },
            BindingProperty {
                key: s("k"),
                value: BindingPattern::Array(list(vec![BindingPattern::Identifier(bind("foo", Some(5)))])),
                shorthand: false,
            },
        ]),
        rest: Some(Box::new(BindingPattern::Identifier(bind("foo", Some(5))))),
    };
    let expected = ObjectPattern {
        properties: list(vec![
            BindingProperty { key: s("foo"), value: BindingPattern::Identifier(bind("foo$1", None)), shorthand: false },
            BindingProperty {
                key: s("foo"),
                value: BindingPattern::Assignment {
                    left: Box::new(BindingPattern::Identifier(bind("foo$1", None))),
                    right: Box::new(Expression::NumberLiteral(1)),
                },
                shorthand: false,
            },
            BindingProperty { key: s("bar"), value: BindingPattern::Identifier(bind("bar", None)), shorthand: true },
            BindingProperty {
                key: s("k"),
                value: BindingPattern::Array(list(vec![BindingPattern::Identifier(bind("foo$1", None))])),
                shorthand: false,
            },
        ]),
        rest: Some(Box::new(BindingPattern::Identifier(bind("foo$1", None)))),
    };
    assert_eq!(ctx.visit_object_pattern(pattern), expected);
}

#[test]
fn shorthand_assignment_target_expands_only_when_renamed() {
    let ctx = plain_context(0);
    let target = |name: &str| AssignmentTarget::Simple(SimpleAssignmentTarget::Identifier(refer(name, None)));
    assert_eq!(
        ctx.visit_assignment_target_property(AssignmentTargetProperty::Identifier {
            binding: refer("foo", Some(5)),
            init: None,
        }),
        AssignmentTargetProperty::Property { name: s("foo"), binding: target("foo$1") }
    );
    assert_eq!(
        ctx.visit_assignment_target_property(AssignmentTargetProperty::Identifier {
            binding: refer("foo", Some(5)),
            init: Some(ident("bar", Some(6))),
        }),
        AssignmentTargetProperty::Property {
            name: s("foo"),
            binding: AssignmentTarget::WithDefault {
                target: Box::new(target("foo$1")),
                init: Box::new(ident("bar", None)),
            },
        }
    );
    assert_eq!(
        ctx.visit_assignment_target_property(AssignmentTargetProperty::Identifier {
            binding: refer("bar", Some(6)),
            init: Some(ident("foo", Some(5))),
        }),
        AssignmentTargetProperty::Identifier { binding: refer("bar", None), init: Some(ident("foo$1", None)) }
    );
    assert_eq!(
        ctx.visit_simple_assignment_target(SimpleAssignmentTarget::Member(Expression::Member {
            object: Box::new(ident("foo", Some(5))),
            property: s("x"),
        })),
        SimpleAssignmentTarget::Member(Expression::Member {
            object: Box::new(ident("foo$1", None)),
            property: s("x"),
        })
    );
}

#[test]
fn esm_wrapper_hoists_function_and_var() {
    let mut ctx = plain_context(2);
    ctx.modules[0].stmt_infos.push(info(true, None));
    ctx.linking_infos[0] = LinkingInfo {
        wrap_kind: WrapKind::Esm,
        wrapper_ref: Some(sym(0, 2)),
        has_dynamic_exports: false,
        wrapper_stmt_info: Some(3),
    };
    let function = || {
        Statement::Declaration(Declaration::Function(Function {
            id: Some(bind("f", None)),
            params: list(vec![]),
            body: list(vec![]),
        }))
    };
    let out = run(
        &ctx,
        vec![
            TopLevelStatement::Plain(var(VariableKind::Var, bind("x", None), Some(Expression::NumberLiteral(1)))),
            TopLevelStatement::Plain(function()),
        ],
    );
    let assignment = Statement::Expression(Expression::Sequence(list(vec![Expression::Assignment {
        target: Box::new(AssignmentTarget::Simple(SimpleAssignmentTarget::Identifier(refer("x", None)))),
        value: Box::new(Expression::NumberLiteral(1)),
    }])));
    assert_eq!(
        out,
        vec![
            function(),
            var(VariableKind::Var, bind("x", None), None),
            Statement::EsmWrapper { name: s("init_b"), helper: s("__esmMin"), body: list(vec![assignment]) },
        ]
    );
}

#[test]
fn esm_wrapper_turns_class_and_pattern_into_assignments() {
    let mut ctx = plain_context(3);
    ctx.modules[0].stmt_infos.push(info(true, None));
    ctx.linking_infos[0] = LinkingInfo {
        wrap_kind: WrapKind::Esm,
        wrapper_ref: Some(sym(0, 2)),
        has_dynamic_exports: false,
        wrapper_stmt_info: Some(4),
    };
    let pattern = BindingPattern::Object(ObjectPattern {
        properties: list(vec![
            BindingProperty { key: s("p"), value: BindingPattern::Identifier(bind("p", None)), shorthand: true },
            BindingProperty { key: s("q"), value: BindingPattern::Identifier(bind("r", None)), shorthand: false },
        ]),
        rest: None,
    });
    let out = run(
        &ctx,
        vec![
            TopLevelStatement::Plain(Statement::Declaration(Declaration::Class(Class {
                id: Some(bind("K", None)),
                super_class: None,
                methods: list(vec![]),
            }))),
            TopLevelStatement::Plain(Statement::Declaration(Declaration::Variable(VariableDeclaration {
                kind: VariableKind::Const,
                declarations: list(vec![
                    VariableDeclarator { id: pattern, init: Some(ident("o", None)) },
                    VariableDeclarator { id: BindingPattern::Identifier(bind("u", None)), init: None },
                ]),
            }))),
            TopLevelStatement::Plain(var(VariableKind::Let, bind("v", None), None)),
        ],
    );
    let name = |n: &str| AssignmentTarget::Simple(SimpleAssignmentTarget::Identifier(refer(n, None)));
    let names = Statement::Declaration(Declaration::Variable(VariableDeclaration {
        kind: VariableKind::Var,
        declarations: list(
            ["K", "p", "r", "u", "v"]
                .iter()
                .map(|n| VariableDeclarator { id: BindingPattern::Identifier(bind(n, None)), init: None })
                .collect(),
        ),
    }));
    let inside = vec![
        Statement::Expression(Expression::Assignment {
            target: Box::new(name("K")),
            value: Box::new(Expression::Class(Box::new(Class {
                id: None,
                super_class: None,
                methods: list(vec![]),
            }))),
        }),
        Statement::Expression(Expression::Sequence(list(vec![Expression::Assignment {
            target: Box::new(AssignmentTarget::Object {
                properties: list(vec![
                    AssignmentTargetProperty::Identifier { binding: refer("p", None), init: None },
                    AssignmentTargetProperty::Property { name: s("q"), binding: name("r") },
                ]),
                rest: None,
            }),
            value: Box::new(ident("o", None)),
        }]))),
    ];
    assert_eq!(
        out,
        vec![names, Statement::EsmWrapper { name: s("init_b"), helper: s("__esmMin"), body: list(inside) }]
    );
}

#[test]
fn commonjs_wrapper_takes_the_whole_body() {
    let mut ctx = plain_context(1);
    ctx.modules[0].exports_kind = ExportsKind::CommonJs;
    ctx.modules[0].stmt_infos.push(info(true, None));
    ctx.linking_infos[0] = LinkingInfo {
        wrap_kind: WrapKind::Cjs,
        wrapper_ref: Some(sym(0, 2)),
        has_dynamic_exports: false,
        wrapper_stmt_info: Some(2),
    };
    let out = run(&ctx, vec![TopLevelStatement::Plain(log(ident("foo", Some(5))))]);
    assert_eq!(
        out,
        vec![Statement::CommonJsWrapper {
            name: s("init_b"),
            helper: s("__commonJSMin"),
            body: list(vec![log(ident("foo$1", None))]),
        }]
    );
}

#[test]
fn wrapper_that_is_not_included_is_left_out() {
    let mut ctx = plain_context(1);
    ctx.modules[0].stmt_infos.push(info(false, None));
    ctx.linking_infos[0] = LinkingInfo {
        wrap_kind: WrapKind::Cjs,
        wrapper_ref: Some(sym(0, 2)),
        has_dynamic_exports: false,
        wrapper_stmt_info: Some(2),
    };
    let out = run(&ctx, vec![TopLevelStatement::Plain(log(ident("bar", Some(6))))]);
    assert_eq!(out, vec![log(ident("bar", None))]);
}

#[test]
fn tree_shaken_export_leaves_only_the_used_declaration() {
    // module A: `export const unused = 1; export const used = 2;`
    let mut a = plain_context(2);
    a.modules[0].stmt_infos[1].is_included = false;
    a.symbols[0] = vec![s("a_ns"), s("a_default"), s("init"), s("n3"), s("n4"), s("unused"), s("used$1")];
    let export = |name: &str, symbol: usize, value: u64| {
        TopLevelStatement::Module(ModuleDeclaration::ExportNamed {
            source: None,
            declaration: Some(Declaration::Variable(VariableDeclaration {
                kind: VariableKind::Const,
                declarations: list(vec![VariableDeclarator {
                    id: BindingPattern::Identifier(bind(name, Some(symbol))),
                    init: Some(Expression::NumberLiteral(value)),
                }]),
            })),
        })
    };
    assert_eq!(
        run(&a, vec![export("unused", 5, 1), export("used", 6, 2)]),
        vec![var(VariableKind::Const, bind("used$1", None), Some(Expression::NumberLiteral(2)))]
    );
    // module B: `import { used } from './a'; log(used);`
    let mut b = plain_context(2);
    b.symbols[0][5] = s("used$1");
    assert_eq!(
        run(
            &b,
            vec![
                TopLevelStatement::Module(ModuleDeclaration::Import { record: 0 }),
                TopLevelStatement::Plain(log(ident("used", Some(5)))),
            ]
        ),
        vec![log(ident("used$1", None))]
    );
}

fn require(record: Option<usize>, callee_symbol: Option<usize>) -> Expression {
    Expression::Call {
        callee: Box::new(ident("require", callee_symbol)),
        arguments: list(vec![Expression::StringLiteral(s("./a"))]),
        record,
    }
}

#[test]
fn commonjs_requiring_esm_gets_init_and_coercion() {
    let mut ctx = importing(ExportsKind::Esm, WrapKind::Esm, 1);
    ctx.modules[0].exports_kind = ExportsKind::CommonJs;
    let out = run(
        &ctx,
        vec![TopLevelStatement::Plain(var(VariableKind::Const, bind("a", None), Some(require(Some(0), None))))],
    );
    let replaced = Expression::Sequence(list(vec![
        call("init_a", vec![]),
        call("__toCommonJS", vec![ident("a_exports", None)]),
    ]));
    assert_eq!(out, vec![var(VariableKind::Const, bind("a", None), Some(replaced))]);
}

#[test]
fn require_of_commonjs_calls_the_wrapper() {
    let ctx = importing(ExportsKind::CommonJs, WrapKind::Cjs, 1);
    assert_eq!(ctx.visit_expression(require(Some(0), None)), call("init_a", vec![]));
    assert_eq!(ctx.required_module(&require(Some(0), None)), Some(1));
    assert_eq!(ctx.require_call(1), call("init_a", vec![]));
}

#[test]
fn require_that_is_shadowed_or_external_stays() {
    let ctx = importing(ExportsKind::CommonJs, WrapKind::Cjs, 1);
    let stays = |record: Option<usize>, symbol: Option<usize>, name: &str| {
        assert_eq!(
            ctx.visit_expression(require(record, symbol)),
            Expression::Call {
                callee: Box::new(ident(name, None)),
                arguments: list(vec![Expression::StringLiteral(s("./a"))]),
                record,
            }
        );
    };
    stays(Some(0), Some(6), "bar");
    stays(Some(1), None, "require");
    stays(None, None, "require");
    stays(Some(9), None, "require");
    let unwrapped = importing(ExportsKind::Esm, WrapKind::Unwrapped, 1);
    assert_eq!(unwrapped.required_module(&require(Some(0), None)), None);
}

#[test]
fn dynamic_import_of_bundled_module_names_its_chunk() {
    let ctx = plain_context(0);
    let import = |source: Expression, arguments: Vec<Expression>, record: usize| Expression::Import {
        source: Box::new(source),
        arguments: list(arguments),
        record,
    };
    assert_eq!(
        ctx.visit_expression(import(Expression::StringLiteral(s("./a")), vec![], 0)),
        import(Expression::StringLiteral(s("./a-chunk.js")), vec![], 0)
    );
    assert_eq!(
        ctx.visit_expression(import(Expression::StringLiteral(s("ext")), vec![], 1)),
        import(Expression::StringLiteral(s("ext")), vec![], 1)
    );
    assert_eq!(
        ctx.visit_expression(import(Expression::StringLiteral(s("./a")), vec![ident("foo", Some(5))], 0)),
        import(Expression::StringLiteral(s("./a")), vec![ident("foo$1", None)], 0)
    );
    assert_eq!(
        ctx.visit_expression(import(ident("foo", Some(5)), vec![], 0)),
        import(ident("foo$1", None), vec![], 0)
    );
    assert_eq!(
        ctx.rewrite_import_source(Expression::StringLiteral(s("./a")), true, 0),
        Expression::StringLiteral(s("./a-chunk.js"))
    );
    let mut no_file = plain_context(0);
    no_file.chunk_graph.chunks[1].file_name = None;
    assert_eq!(
        no_file.visit_expression(import(Expression::StringLiteral(s("./a")), vec![], 0)),
        import(Expression::StringLiteral(s("./a")), vec![], 0)
    );
    assert_eq!(ctx.chunk_file_of(1), Some(&s("a-chunk.js")));
    assert_eq!(ctx.chunk_file_of(2), None);
}

#[test]
fn dynamic_export_re_export_copies_namespace_in_place() {
    let mut ctx = importing(ExportsKind::Esm, WrapKind::Unwrapped, 3);
    ctx.linking_infos[1].has_dynamic_exports = true;
    let out = run(
        &ctx,
        vec![
            TopLevelStatement::Plain(log(Expression::NumberLiteral(1))),
            TopLevelStatement::Module(ModuleDeclaration::ExportAll { record: 0, exported: None }),
            TopLevelStatement::Plain(log(Expression::NumberLiteral(2))),
        ],
    );
    assert_eq!(
        out,
        vec![
            log(Expression::NumberLiteral(1)),
            Statement::Expression(call("__reExport", vec![ident("b_exports", None), ident("a_exports", None)])),
            log(Expression::NumberLiteral(2)),
        ]
    );
}

#[test]
fn export_all_variants() {
    let all = || vec![TopLevelStatement::Module(ModuleDeclaration::ExportAll { record: 0, exported: None })];
    // static ES module: nothing to copy
    assert_eq!(run(&importing(ExportsKind::Esm, WrapKind::Unwrapped, 1), all()), vec![]);
    // wrapped ES module with dynamic exports: start it, then copy
    let mut ctx = importing(ExportsKind::Esm, WrapKind::Esm, 1);
    ctx.linking_infos[1].has_dynamic_exports = true;
    assert_eq!(
        run(&ctx, all()),
        vec![
            Statement::Expression(call("init_a", vec![])),
            Statement::Expression(call("__reExport", vec![ident("b_exports", None), ident("a_exports", None)])),
        ]
    );
    // CommonJS module: copy what its exports object gives as a namespace
    assert_eq!(
        run(&importing(ExportsKind::CommonJs, WrapKind::Cjs, 1), all()),
        vec![Statement::Expression(call(
            "__reExport",
            vec![ident("b_exports", None), call("__toESM", vec![call("init_a", vec![])])]
        ))]
    );
    // module without exports, external module
    assert_eq!(run(&importing(ExportsKind::NoExports, WrapKind::Unwrapped, 1), all()), vec![]);
    assert_eq!(
        run(
            &plain_context(1),
            vec![TopLevelStatement::Module(ModuleDeclaration::ExportAll { record: 1, exported: None })]
        ),
        vec![]
    );
    assert_eq!(ctx.make_re_export_all(1), List::Nil);
}

#[test]
fn import_leaves_only_what_starts_the_target() {
    let import = |record: usize| vec![TopLevelStatement::Module(ModuleDeclaration::Import { record })];
    assert_eq!(run(&importing(ExportsKind::Esm, WrapKind::Unwrapped, 1), import(0)), vec![]);
    assert_eq!(run(&importing(ExportsKind::Esm, WrapKind::Unwrapped, 1), import(1)), vec![]);
    assert_eq!(
        run(&importing(ExportsKind::Esm, WrapKind::Esm, 1), import(0)),
        vec![Statement::Expression(call("init_a", vec![]))]
    );
    let cjs = importing(ExportsKind::CommonJs, WrapKind::Cjs, 1);
    assert_eq!(cjs.make_import_shell(0), List::single(Statement::Expression(call("init_a", vec![]))));
    assert_eq!(cjs.make_import_shell(1), List::Nil);
    assert_eq!(run(&cjs, import(0)), vec![Statement::Expression(call("init_a", vec![]))]);
    // `export * as ns from` and `export { x } from` go the same way
    assert_eq!(
        run(
            &importing(ExportsKind::Esm, WrapKind::Esm, 2),
            vec![
                TopLevelStatement::Module(ModuleDeclaration::ExportAll { record: 0, exported: Some(s("ns")) }),
                TopLevelStatement::Module(ModuleDeclaration::ExportNamed { source: Some(0), declaration: None }),
            ]
        ),
        vec![Statement::Expression(call("init_a", vec![])), Statement::Expression(call("init_a", vec![]))]
    );
}

#[test]
fn collision_renamed_default_class_keeps_inner_name() {
    let ctx = plain_context(1);
    let out = run(
        &ctx,
        vec![TopLevelStatement::Module(ModuleDeclaration::ExportDefault(ExportDefaultKind::Class(Class {
            id: Some(bind("foo", Some(5))),
            super_class: None,
            methods: list(vec![Function {
                id: Some(bind("make", None)),
                params: list(vec![]),
                body: list(vec![Statement::Return(Some(ident("foo", None)))]),
            }]),
        })))],
    );
    assert_eq!(
        out,
        vec![var(
            VariableKind::Var,
            bind("foo$1", None),
            Some(Expression::Class(Box::new(Class {
                id: Some(bind("foo", None)),
                super_class: None,
                methods: list(vec![Function {
                    id: Some(bind("make", None)),
                    params: list(vec![]),
                    body: list(vec![Statement::Return(Some(ident("foo", None)))]),
                }]),
            })))
        )]
    );
}

#[test]
fn class_declaration_with_unchanged_name_stays_a_declaration() {
    let ctx = plain_context(0);
    let class = |symbol: Option<usize>, parent: Expression| Class {
        id: Some(bind("bar", symbol)),
        super_class: Some(parent),
        methods: list(vec![]),
    };
    assert_eq!(
        ctx.visit_declaration_match(Declaration::Class(class(Some(6), ident("foo", Some(5))))),
        Declaration::Class(class(None, ident("foo$1", None)))
    );
    assert_eq!(
        ctx.visit_class(class(Some(5), ident("foo", Some(5)))),
        class(None, ident("foo$1", None))
    );
}

#[test]
fn renamed_declarator_names_its_anonymous_class() {
    let ctx = plain_context(0);
    let class = |name: Option<&str>| {
        Expression::Class(Box::new(Class {
            id: name.map(|n| bind(n, None)),
            super_class: None,
            methods: list(vec![]),
        }))
    };
    assert_eq!(
        ctx.visit_variable_declarator(VariableDeclarator {
            id: BindingPattern::Identifier(bind("foo", Some(5))),
            init: Some(class(None)),
        }),
        VariableDeclarator { id: BindingPattern::Identifier(bind("foo$1", None)), init: Some(class(Some("foo"))) }
    );
    assert_eq!(
        ctx.visit_variable_declarator(VariableDeclarator {
            id: BindingPattern::Identifier(bind("bar", Some(6))),
            init: Some(class(None)),
        }),
        VariableDeclarator { id: BindingPattern::Identifier(bind("bar", None)), init: Some(class(None)) }
    );
    assert_eq!(
        ctx.visit_variable_declarator(VariableDeclarator {
            id: BindingPattern::Identifier(bind("foo", Some(5))),
            init: Some(class(Some("Own"))),
        }),
        VariableDeclarator { id: BindingPattern::Identifier(bind("foo$1", None)), init: Some(class(Some("Own"))) }
    );
}

#[test]
fn export_default_becomes_a_declaration() {
    let ctx = plain_context(3);
    let function = |id: Option<BindingIdentifier>| Function { id, params: list(vec![]), body: list(vec![]) };
    let out = run(
        &ctx,
        vec![
            TopLevelStatement::Module(ModuleDeclaration::ExportDefault(ExportDefaultKind::Expression(ident(
                "foo",
                Some(5),
            )))),
            TopLevelStatement::Module(ModuleDeclaration::ExportDefault(ExportDefaultKind::Function(function(None)))),
            TopLevelStatement::Module(ModuleDeclaration::ExportDefault(ExportDefaultKind::Function(function(Some(
                bind("foo", Some(5)),
            ))))),
        ],
    );
    assert_eq!(
        out,
        vec![
            var(VariableKind::Var, bind("b_default", None), Some(ident("foo$1", None))),
            Statement::Declaration(Declaration::Function(function(Some(bind("b_default", None))))),
            Statement::Declaration(Declaration::Function(function(Some(bind("foo$1", None))))),
        ]
    );
    assert_eq!(
        ctx.make_default_export(ExportDefaultKind::Class(Class {
            id: None,
            super_class: None,
            methods: list(vec![]),
        })),
        Declaration::Class(Class { id: Some(bind("b_default", None)), super_class: None, methods: list(vec![]) })
    );
}

#[test]
fn local_export_list_is_dropped_and_excluded_statements_vanish() {
    let mut ctx = plain_context(3);
    ctx.modules[0].stmt_infos[2].is_included = false;
    let out = run(
        &ctx,
        vec![
            TopLevelStatement::Module(ModuleDeclaration::ExportNamed { source: None, declaration: None }),
            TopLevelStatement::Plain(log(Expression::NumberLiteral(1))),
            TopLevelStatement::Plain(log(Expression::NumberLiteral(2))),
        ],
    );
    assert_eq!(out, vec![log(Expression::NumberLiteral(2))]);
    // statements beyond the statement infos are not paired with any
    let short = plain_context(1);
    assert_eq!(
        run(
            &short,
            vec![
                TopLevelStatement::Plain(log(Expression::NumberLiteral(1))),
                TopLevelStatement::Plain(log(Expression::NumberLiteral(2))),
            ]
        ),
        vec![log(Expression::NumberLiteral(1))]
    );
}

#[test]
fn referenced_namespace_is_declared_first() {
    let mut ctx = plain_context(1);
    ctx.modules[0].stmt_infos[0].is_included = true;
    let out = run(&ctx, vec![TopLevelStatement::Plain(log(Expression::NumberLiteral(1)))]);
    assert_eq!(
        out,
        vec![
            var(VariableKind::Var, bind("b_exports", None), Some(Expression::Object(list(vec![])))),
            log(Expression::NumberLiteral(1)),
        ]
    );
    ctx.modules[0].exports_kind = ExportsKind::CommonJs;
    let out = run(&ctx, vec![TopLevelStatement::Plain(log(Expression::NumberLiteral(1)))]);
    assert_eq!(out, vec![log(Expression::NumberLiteral(1))]);
}

#[test]
fn nested_nodes_are_walked() {
    let ctx = plain_context(0);
    let before = Statement::Block(list(vec![Statement::Expression(Expression::Assignment {
        target: Box::new(AssignmentTarget::Array(list(vec![AssignmentTarget::Simple(
            SimpleAssignmentTarget::Identifier(refer("foo", Some(5))),
        )]))),
        value: Box::new(Expression::Function(Box::new(Function {
            id: None,
            params: list(vec![BindingPattern::Identifier(bind("foo", Some(5)))]),
            body: list(vec![Statement::Return(Some(Expression::Object(list(vec![ObjectProperty {
                key: s("foo"),
                value: ident("foo", Some(5)),
                shorthand: true,
            }]))))]),
        }))),
    })]));
    let after = Statement::Block(list(vec![Statement::Expression(Expression::Assignment {
        target: Box::new(AssignmentTarget::Array(list(vec![AssignmentTarget::Simple(
            SimpleAssignmentTarget::Identifier(refer("foo$1", None)),
        )]))),
        value: Box::new(Expression::Function(Box::new(Function {
            id: None,
            params: list(vec![BindingPattern::Identifier(bind("foo$1", None))]),
            body: list(vec![Statement::Return(Some(Expression::Object(list(vec![ObjectProperty {
                key: s("foo"),
                value: ident("foo$1", None),
                shorthand: false,
            }]))))]),
        }))),
    })]));
    assert_eq!(ctx.visit_top_level_statement_mut(before), after);
}
