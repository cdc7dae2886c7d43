//! The syntax-tree nodes that a helper reference is made of: what they hold,
//! and their constructors.
//!
//! The nodes are opaque values of the syntax-tree crate. What a node holds is
//! named below, field by field as the crate declares it. Each function here
//! makes one call of the crate's builder, which only allocates and fills a
//! node; that the node holds what was handed in is taken on trust from the
//! builder's source.

use oxc_allocator::{Box, Vec};
use oxc_ast::ast::{
    Argument, CallExpression, Expression, IdentifierName, IdentifierReference, MemberExpression,
    TSTypeParameterInstantiation,
};
use oxc_span::{Atom, Span};
use oxc_traverse::TraverseCtx;
use vstd::prelude::*;

verus! {

#[verifier::external_type_specification]
#[verifier::external_body]
#[verifier::reject_recursive_types(T)]
pub struct ExArenaVec<'alloc, T>(Vec<'alloc, T>);

#[verifier::external_type_specification]
#[verifier::external_body]
#[verifier::reject_recursive_types(T)]
pub struct ExArenaBox<'alloc, T: ?Sized>(Box<'alloc, T>);

#[verifier::external_type_specification]
#[verifier::external_body]
pub struct ExArgument<'a>(Argument<'a>);

#[verifier::external_type_specification]
#[verifier::external_body]
pub struct ExCallExpression<'a>(CallExpression<'a>);

#[verifier::external_type_specification]
#[verifier::external_body]
pub struct ExIdentifierName<'a>(IdentifierName<'a>);

#[verifier::external_type_specification]
#[verifier::external_body]
pub struct ExMemberExpression<'a>(MemberExpression<'a>);

#[verifier::external_type_specification]
#[verifier::external_body]
pub struct ExTSTypeParameterInstantiation<'a>(TSTypeParameterInstantiation<'a>);

/// The fields of an identifier reference: its span, its name, and the index
/// of its reference in the table of references, if it has one.
pub ghost struct IdentifierReferenceParts {
    pub span: Span,
    pub name: Seq<char>,
    pub reference: Option<nat>,
}

/// The fields of an identifier name: its span and its name.
pub ghost struct IdentifierNameParts {
    pub span: Span,
    pub name: Seq<char>,
}

/// The fields of a static member access `object.property`.
pub ghost struct StaticMemberParts<'a> {
    pub span: Span,
    pub object: Expression<'a>,
    pub property: IdentifierName<'a>,
    pub optional: bool,
}

/// The fields of a call.
pub ghost struct CallParts<'a> {
    pub span: Span,
    pub callee: Expression<'a>,
    pub type_parameters: Option<Box<'a, TSTypeParameterInstantiation<'a>>>,
    pub arguments: Vec<'a, Argument<'a>>,
    pub optional: bool,
}

/// The kinds of expression that a helper reference is made of, each with the
/// node that the expression consists of.
pub ghost enum ExpressionParts<'a> {
    Identifier(IdentifierReference<'a>),
    Member(MemberExpression<'a>),
    Call(CallExpression<'a>),
    Other,
}

/// What the fields `span`, `name` and `reference_id` of an identifier
/// reference hold.
pub uninterp spec fn identifier_reference_parts(
    ident: IdentifierReference,
) -> IdentifierReferenceParts;

/// What the fields `span` and `name` of an identifier name hold.
pub uninterp spec fn identifier_name_parts(name: IdentifierName) -> IdentifierNameParts;

/// What the fields of a member expression hold, if it is a static member
/// access, and nothing if it is of another kind.
pub uninterp spec fn static_member_parts(member: MemberExpression) -> Option<StaticMemberParts>;

/// What the fields of a call expression hold.
pub uninterp spec fn call_parts(call: CallExpression) -> CallParts;

/// The node that an expression consists of, if it is an identifier, a member
/// expression or a call.
pub uninterp spec fn expression_parts(expr: Expression) -> ExpressionParts;

/// `AstBuilder::expression_from_identifier_reference`: the expression that
/// consists of the given identifier reference.
#[verifier::external_body]
pub(crate) fn expression_from_identifier_reference<'a>(
    ctx: &TraverseCtx<'a>,
    ident: IdentifierReference<'a>,
) -> (expr: Expression<'a>)
    ensures
        expression_parts(expr) == ExpressionParts::Identifier(ident),
{
    ctx.ast.expression_from_identifier_reference(ident)
}

/// `AstBuilder::identifier_name`: an identifier name node with the given span
/// and name. The name is taken as it is, without a copy.
#[verifier::external_body]
pub(crate) fn identifier_name<'a>(ctx: &TraverseCtx<'a>, span: Span, name: &'a str) -> (node:
    IdentifierName<'a>)
    ensures
        identifier_name_parts(node) == (IdentifierNameParts { span, name: name@ }),
{
    ctx.ast.identifier_name(span, Atom::from(name))
}

/// `AstBuilder::member_expression_static`: the static member access
/// `object.property` with the given span, optional (`?.`) or not.
#[verifier::external_body]
pub(crate) fn member_expression_static<'a>(
    ctx: &TraverseCtx<'a>,
    span: Span,
    object: Expression<'a>,
    property: IdentifierName<'a>,
    optional: bool,
) -> (member: MemberExpression<'a>)
    ensures
        static_member_parts(member) == Some(
            (StaticMemberParts { span, object, property, optional }),
        ),
{
    ctx.ast.member_expression_static(span, object, property, optional)
}

/// `Expression::from` on a member expression: the expression that consists of
/// the given member access.
#[verifier::external_body]
pub(crate) fn expression_from_member<'a>(member: MemberExpression<'a>) -> (expr: Expression<'a>)
    ensures
        expression_parts(expr) == ExpressionParts::Member(member),
{
    Expression::from(member)
}

/// `AstBuilder::call_expression`: a call node with the given span, callee,
/// type arguments and arguments, optional (`?.()`) or not.
#[verifier::external_body]
pub(crate) fn call_expression<'a>(
    ctx: &TraverseCtx<'a>,
    span: Span,
    callee: Expression<'a>,
    type_parameters: Option<Box<'a, TSTypeParameterInstantiation<'a>>>,
    arguments: Vec<'a, Argument<'a>>,
    optional: bool,
) -> (call: CallExpression<'a>)
    ensures
        call_parts(call) == (CallParts { span, callee, type_parameters, arguments, optional }),
{
    ctx.ast.call_expression(span, callee, type_parameters, arguments, optional)
}

/// `AstBuilder::expression_call`: as `AstBuilder::call_expression`, with the
/// call node wrapped as an expression.
#[verifier::external_body]
pub(crate) fn expression_call<'a>(
    ctx: &TraverseCtx<'a>,
    span: Span,
    callee: Expression<'a>,
    type_parameters: Option<Box<'a, TSTypeParameterInstantiation<'a>>>,
    arguments: Vec<'a, Argument<'a>>,
    optional: bool,
) -> (expr: Expression<'a>)
    ensures
        expression_parts(expr) is Call,
        call_parts(expression_parts(expr)->Call_0) == (
            CallParts { span, callee, type_parameters, arguments, optional }
        ),
{
    ctx.ast.expression_call(span, callee, type_parameters, arguments, optional)
}

} // verus!
