use std::borrow::Cow;

use helper_loader::{Helper, HelperLoader, HelperLoaderMode, HelperLoaderOptions, HelperLoaderStore};
use oxc_allocator::Allocator;
use oxc_ast::ast::{Argument, Expression, Program, Statement};
use oxc_parser::Parser;
use oxc_semantic::{SemanticBuilder, SymbolId};
use oxc_span::{SourceType, SPAN};
use oxc_traverse::{traverse_mut, Traverse, TraverseCtx};

fn fresh_context<'a>(allocator: &'a Allocator, source: &'a str) -> TraverseCtx<'a> {
    let program = Parser::new(allocator, source, SourceType::default()).parse().program;
    let semantic = SemanticBuilder::new().build(&program).semantic;
    let (symbols, scopes) = semantic.into_symbol_table_and_scope_tree();
    TraverseCtx::new(scopes, symbols, allocator)
}

fn store_in<'a>(mode: HelperLoaderMode) -> HelperLoaderStore<'a> {
    HelperLoaderStore::new(&HelperLoaderOptions { module_name: Cow::Borrowed("@babel/runtime"), mode })
}

fn callee_symbol(ctx: &TraverseCtx<'_>, callee: &Expression<'_>) -> (String, Option<SymbolId>) {
    match callee {
        Expression::Identifier(ident) => (
            ident.name.to_string(),
            ctx.symbols().get_reference(ident.reference_id().unwrap()).symbol_id(),
        ),
        _ => panic!("the callee is not an identifier"),
    }
}

#[test]
fn flush_of_a_new_store_is_empty() {
    let mut store = store_in(HelperLoaderMode::Runtime);
    assert_eq!(HelperLoader::new(&mut store).exit_program().len(), 0);
    assert!(store.loaded(Helper::ObjectSpread2).is_none());
    assert_eq!(store.mode(), HelperLoaderMode::Runtime);
}

#[test]
fn flush_drains_exactly_once() {
    let allocator = Allocator::default();
    let mut ctx = fresh_context(&allocator, "");
    let mut store = store_in(HelperLoaderMode::Runtime);
    store.load(Helper::ObjectSpread2, &mut ctx);
    assert!(store.loaded(Helper::ObjectSpread2).is_some());

    let first = HelperLoader::new(&mut store).exit_program();
    assert_eq!(first.len(), 1);
    assert!(store.loaded(Helper::ObjectSpread2).is_none());
    assert_eq!(store.mode(), HelperLoaderMode::Runtime);

    let second = HelperLoader::new(&mut store).exit_program();
    assert_eq!(second.len(), 0);
    assert!(store.loaded(Helper::ObjectSpread2).is_none());
}

#[test]
fn load_after_flush_starts_a_new_generation() {
    let allocator = Allocator::default();
    let mut ctx = fresh_context(&allocator, "");
    let mut store = store_in(HelperLoaderMode::Runtime);
    store.load(Helper::ObjectSpread2, &mut ctx);
    let first = HelperLoader::new(&mut store).exit_program();

    store.load(Helper::ObjectSpread2, &mut ctx);
    let second = HelperLoader::new(&mut store).exit_program();

    assert_eq!(first.len(), 1);
    assert_eq!(second.len(), 1);
    assert_eq!(first[0].local.name, "_objectSpread");
    assert_eq!(second[0].local.name, "_objectSpread2");
    assert_ne!(first[0].local.symbol_id, second[0].local.symbol_id);
    assert_eq!(second[0].source, "@babel/runtime/helpers/objectSpread2");
}

#[test]
fn call_builds_a_plain_call_of_the_helper() {
    let allocator = Allocator::default();
    let mut ctx = fresh_context(&allocator, "");
    let mut store = store_in(HelperLoaderMode::Runtime);
    let mut arguments = ctx.ast.vec();
    arguments.push(Argument::from(ctx.ast.expression_null_literal(SPAN)));
    arguments.push(Argument::from(ctx.ast.expression_boolean_literal(SPAN, true)));
    arguments.push(Argument::from(ctx.ast.expression_this(SPAN)));

    let call = store.call(Helper::ObjectSpread2, arguments, &mut ctx);

    assert_eq!(call.span, SPAN);
    assert!(!call.optional);
    assert!(call.type_parameters.is_none());
    assert_eq!(call.arguments.len(), 3);
    assert!(matches!(call.arguments[0], Argument::NullLiteral(_)));
    assert!(matches!(call.arguments[1], Argument::BooleanLiteral(_)));
    assert!(matches!(call.arguments[2], Argument::ThisExpression(_)));
    let (name, symbol) = callee_symbol(&ctx, &call.callee);
    assert_eq!(name, "_objectSpread");
    let loaded = store.loaded(Helper::ObjectSpread2).unwrap();
    assert_eq!(symbol.map(|id| oxc_index::Idx::index(id)), Some(loaded.local.symbol_id as usize));
}

#[test]
fn call_expr_wraps_the_call_as_an_expression() {
    let allocator = Allocator::default();
    let mut ctx = fresh_context(&allocator, "");
    let mut store = store_in(HelperLoaderMode::Runtime);
    let arguments = ctx.ast.vec1(Argument::from(ctx.ast.expression_null_literal(SPAN)));

    let expr = store.call_expr(Helper::ObjectSpread2, arguments, &mut ctx);

    match expr {
        Expression::CallExpression(call) => {
            assert!(!call.optional);
            assert!(call.type_parameters.is_none());
            assert_eq!(call.arguments.len(), 1);
            assert!(matches!(call.arguments[0], Argument::NullLiteral(_)));
            let (name, symbol) = callee_symbol(&ctx, &call.callee);
            assert_eq!(name, "_objectSpread");
            assert!(symbol.is_some());
        }
        _ => panic!("not a call expression"),
    }
    assert_eq!(HelperLoader::new(&mut store).exit_program().len(), 1);
}

#[test]
fn external_call_has_the_member_as_callee() {
    let allocator = Allocator::default();
    let mut ctx = fresh_context(&allocator, "");
    let mut store = store_in(HelperLoaderMode::External);
    let call = store.call(Helper::ObjectSpread2, ctx.ast.vec(), &mut ctx);
    assert_eq!(call.arguments.len(), 0);
    assert!(!call.optional);
    match &call.callee {
        Expression::StaticMemberExpression(member) => {
            assert_eq!(member.property.name, "objectSpread2");
            assert!(matches!(&member.object, Expression::Identifier(object) if object.name == "babelHelpers"));
        }
        _ => panic!("the callee is not a member expression"),
    }
}

struct SpreadObjects<'a> {
    store: HelperLoaderStore<'a>,
    replaced: usize,
    imports: Vec<(String, String, u32, bool)>,
}

impl<'a> Traverse<'a> for SpreadObjects<'a> {
    fn exit_expression(&mut self, node: &mut Expression<'a>, ctx: &mut TraverseCtx<'a>) {
        if matches!(node, Expression::ObjectExpression(_)) {
            let mut arguments = ctx.ast.vec();
            for _ in 0..self.replaced {
                arguments.push(Argument::from(ctx.ast.expression_null_literal(SPAN)));
            }
            self.replaced += 1;
            *node = self.store.call_expr(Helper::ObjectSpread2, arguments, ctx);
        }
    }

    fn exit_program(&mut self, _node: &mut Program<'a>, _ctx: &mut TraverseCtx<'a>) {
        for import in HelperLoader::new(&mut self.store).exit_program() {
            self.imports.push((
                import.source.to_string(),
                import.local.name.to_string(),
                import.local.symbol_id,
                import.type_only,
            ));
        }
    }
}

#[test]
fn two_call_sites_share_one_import() {
    let allocator = Allocator::default();
    let source = "a = {}; function f() { return {}; }";
    let mut program = Parser::new(&allocator, source, SourceType::default()).parse().program;
    let semantic = SemanticBuilder::new().build(&program).semantic;
    let (symbols, scopes) = semantic.into_symbol_table_and_scope_tree();
    let symbols_before = symbols.len();
    let mut visitor = SpreadObjects {
        store: HelperLoaderStore::new(&HelperLoaderOptions {
            module_name: Cow::Borrowed("@babel/runtime"),
            mode: HelperLoaderMode::Runtime,
        }),
        replaced: 0,
        imports: Vec::new(),
    };

    let (symbols, scopes) = traverse_mut(&mut visitor, &allocator, &mut program, symbols, scopes);

    assert_eq!(visitor.replaced, 2);
    let first_call = match &program.body[0] {
        Statement::ExpressionStatement(statement) => match &statement.expression {
            Expression::AssignmentExpression(assignment) => match &assignment.right {
                Expression::CallExpression(call) => call,
                _ => panic!("the first object was not replaced by a call"),
            },
            _ => panic!("not an assignment"),
        },
        _ => panic!("not an expression statement"),
    };
    let second_call = match &program.body[1] {
        Statement::FunctionDeclaration(function) => {
            match &function.body.as_ref().unwrap().statements[0] {
                Statement::ReturnStatement(statement) => match statement.argument.as_ref().unwrap() {
                    Expression::CallExpression(call) => call,
                    _ => panic!("the second object was not replaced by a call"),
                },
                _ => panic!("not a return statement"),
            }
        }
        _ => panic!("not a function declaration"),
    };
    assert_eq!(first_call.arguments.len(), 0);
    assert_eq!(second_call.arguments.len(), 1);
    assert!(!first_call.optional && !second_call.optional);
    let (first_name, first_reference) = match &first_call.callee {
        Expression::Identifier(ident) => (ident.name.as_str(), ident.reference_id().unwrap()),
        _ => panic!("the first callee is not an identifier"),
    };
    let (second_name, second_reference) = match &second_call.callee {
        Expression::Identifier(ident) => (ident.name.as_str(), ident.reference_id().unwrap()),
        _ => panic!("the second callee is not an identifier"),
    };
    assert_eq!(first_name, "_objectSpread");
    assert_eq!(second_name, "_objectSpread");
    assert_ne!(first_reference, second_reference);
    assert_eq!(
        symbols.get_reference(first_reference).symbol_id(),
        symbols.get_reference(second_reference).symbol_id()
    );
    assert_eq!(
        symbols.get_reference(first_reference).symbol_id().map(oxc_index::Idx::index),
        Some(symbols_before)
    );
    assert_eq!(
        visitor.imports,
        vec![(
            String::from("@babel/runtime/helpers/objectSpread2"),
            String::from("_objectSpread"),
            symbols_before as u32,
            false
        )]
    );
    assert_eq!(symbols.len(), symbols_before + 1);
    let binding = scopes.get_binding(scopes.root_scope_id(), "_objectSpread").unwrap();
    assert_eq!(oxc_index::Idx::index(binding), symbols_before);
    let references = symbols.get_resolved_reference_ids(binding);
    assert_eq!(references.len(), 2);
    assert_ne!(references[0], references[1]);
    assert!(visitor.store.loaded(Helper::ObjectSpread2).is_none());
}
