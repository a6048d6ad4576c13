//! Where the type variables of a tree come from: a tree is within a range
//! of the variable store when every variable in it was drawn from that
//! range. What is built from freshly drawn variables alone shares no
//! variable with anything built before or after it.

use crate::expr::{DefAnnotationModel, DefModel, ExprModel, IntroducedVariablesModel};
use crate::ident::{Loc, Symbol, TagNameModel, Variable};
use crate::pattern::PatternModel;
use crate::types::{AliasModel, TypeModel};
use vstd::prelude::*;

verus! {

/// `var` is one of the variables from `lo` up to, not including, `hi`.
pub open spec fn var_within(var: Variable, lo: int, hi: int) -> bool {
    lo <= var.index < hi
}

pub open spec fn vars_within(vars: Seq<Variable>, lo: int, hi: int) -> bool {
    forall|i: int| 0 <= i < vars.len() ==> var_within(#[trigger] vars[i], lo, hi)
}

pub open spec fn pattern_within(pattern: PatternModel, lo: int, hi: int) -> bool
    decreases pattern,
{
    match pattern {
        PatternModel::Identifier(_) => true,
        PatternModel::Underscore => true,
        PatternModel::RecordDestructure { whole_var, ext_var, destructs } => {
            &&& var_within(whole_var, lo, hi)
            &&& var_within(ext_var, lo, hi)
            &&& forall|i: int|
                0 <= i < destructs.len() ==> var_within((#[trigger] destructs[i]).value.var, lo, hi)
        },
        PatternModel::AppliedTag { whole_var, ext_var, arguments, .. } => {
            &&& var_within(whole_var, lo, hi)
            &&& var_within(ext_var, lo, hi)
            &&& patterns_within(arguments, lo, hi)
        },
    }
}

pub open spec fn patterns_within(
    patterns: Seq<(Variable, Loc<PatternModel>)>,
    lo: int,
    hi: int,
) -> bool
    decreases patterns,
{
    forall|i: int|
        0 <= i < patterns.len() ==> {
            &&& var_within((#[trigger] patterns[i]).0, lo, hi)
            &&& pattern_within(patterns[i].1.value, lo, hi)
        }
}

pub open spec fn type_within(typ: TypeModel, lo: int, hi: int) -> bool
    decreases typ,
{
    match typ {
        TypeModel::EmptyRec => true,
        TypeModel::EmptyTagUnion => true,
        TypeModel::Function(args, closure, ret) => {
            &&& types_within(args, lo, hi)
            &&& type_within(*closure, lo, hi)
            &&& type_within(*ret, lo, hi)
        },
        TypeModel::Record(fields, ext) => {
            &&& fields_within(fields, lo, hi)
            &&& type_within(*ext, lo, hi)
        },
        TypeModel::TagUnion(tags, ext) => {
            &&& tags_within(tags, lo, hi)
            &&& type_within(*ext, lo, hi)
        },
        TypeModel::Alias { type_arguments, lambda_set_variables, actual, .. } => {
            &&& fields_within(type_arguments, lo, hi)
            &&& types_within(lambda_set_variables, lo, hi)
            &&& type_within(*actual, lo, hi)
        },
        TypeModel::RecursiveTagUnion(rec, tags, ext) => {
            &&& var_within(rec, lo, hi)
            &&& tags_within(tags, lo, hi)
            &&& type_within(*ext, lo, hi)
        },
        TypeModel::Apply(_, args) => types_within(args, lo, hi),
        TypeModel::Variable(var) => var_within(var, lo, hi),
        TypeModel::Erroneous(_) => true,
        // Nothing is known of the variables of a type that is not looked
        // into.
        TypeModel::Foreign(_) => false,
    }
}

pub open spec fn types_within(types: Seq<TypeModel>, lo: int, hi: int) -> bool
    decreases types,
{
    forall|i: int| 0 <= i < types.len() ==> type_within(#[trigger] types[i], lo, hi)
}

pub open spec fn fields_within(fields: Seq<(Seq<char>, TypeModel)>, lo: int, hi: int) -> bool
    decreases fields,
{
    forall|i: int| 0 <= i < fields.len() ==> type_within((#[trigger] fields[i]).1, lo, hi)
}

pub open spec fn tags_within(tags: Seq<(TagNameModel, Seq<TypeModel>)>, lo: int, hi: int) -> bool
    decreases tags,
{
    forall|i: int| 0 <= i < tags.len() ==> types_within((#[trigger] tags[i]).1, lo, hi)
}

pub open spec fn alias_within(alias: AliasModel, lo: int, hi: int) -> bool {
    &&& forall|i: int|
        0 <= i < alias.type_variables.len() ==> var_within(
            (#[trigger] alias.type_variables[i]).1,
            lo,
            hi,
        )
    &&& types_within(alias.lambda_set_variables, lo, hi)
    &&& vars_within(alias.recursion_variables, lo, hi)
    &&& type_within(alias.typ, lo, hi)
}

pub open spec fn introduced_within(introduced: IntroducedVariablesModel, lo: int, hi: int) -> bool {
    &&& vars_within(introduced.wildcards, lo, hi)
    &&& forall|i: int|
        0 <= i < introduced.named.len() ==> var_within((#[trigger] introduced.named[i]).1, lo, hi)
    &&& forall|i: int|
        0 <= i < introduced.host_exposed_aliases.len() ==> var_within(
            (#[trigger] introduced.host_exposed_aliases[i]).1,
            lo,
            hi,
        )
}

pub open spec fn annotation_within(annotation: DefAnnotationModel, lo: int, hi: int) -> bool {
    &&& type_within(annotation.signature, lo, hi)
    &&& introduced_within(annotation.introduced_variables, lo, hi)
    &&& forall|i: int|
        0 <= i < annotation.aliases.len() ==> alias_within((#[trigger] annotation.aliases[i]).1, lo, hi)
}

pub open spec fn symbol_vars_within(vars: Seq<(Symbol, Variable)>, lo: int, hi: int) -> bool {
    forall|i: int| 0 <= i < vars.len() ==> var_within((#[trigger] vars[i]).1, lo, hi)
}

pub open spec fn expr_within(expr: ExprModel, lo: int, hi: int) -> bool
    decreases expr, 0nat,
{
    match expr {
        ExprModel::Var(_) => true,
        ExprModel::EmptyRecord => true,
        ExprModel::Call(head, arguments, _) => {
            &&& var_within(head.0, lo, hi)
            &&& expr_within(head.1.value, lo, hi)
            &&& var_within(head.2, lo, hi)
            &&& var_within(head.3, lo, hi)
            &&& exprs_within(arguments, lo, hi)
        },
        ExprModel::Closure(data) => {
            &&& var_within(data.function_type, lo, hi)
            &&& var_within(data.closure_type, lo, hi)
            &&& var_within(data.closure_ext_var, lo, hi)
            &&& var_within(data.return_type, lo, hi)
            &&& symbol_vars_within(data.captured_symbols, lo, hi)
            &&& patterns_within(data.arguments, lo, hi)
            &&& expr_within(data.loc_body.value, lo, hi)
        },
        ExprModel::Tag { variant_var, ext_var, arguments, .. } => {
            &&& var_within(variant_var, lo, hi)
            &&& var_within(ext_var, lo, hi)
            &&& exprs_within(arguments, lo, hi)
        },
        ExprModel::LetNonRec(def, body, var) => {
            &&& def_within(*def, lo, hi)
            &&& expr_within(body.value, lo, hi)
            &&& var_within(var, lo, hi)
        },
        ExprModel::ForeignCall { args, ret_var, .. } => {
            &&& var_within(ret_var, lo, hi)
            &&& forall|i: int|
                0 <= i < args.len() ==> {
                    &&& var_within((#[trigger] args[i]).0, lo, hi)
                    &&& expr_within(args[i].1, lo, hi)
                }
        },
    }
}

pub open spec fn exprs_within(exprs: Seq<(Variable, Loc<ExprModel>)>, lo: int, hi: int) -> bool
    decreases exprs, 0nat,
{
    forall|i: int|
        0 <= i < exprs.len() ==> {
            &&& var_within((#[trigger] exprs[i]).0, lo, hi)
            &&& expr_within(exprs[i].1.value, lo, hi)
        }
}

/// Every variable of the definition but those of its signature.
pub open spec fn def_body_within(def: DefModel, lo: int, hi: int) -> bool
    decreases def, 0nat,
{
    &&& pattern_within(def.loc_pattern.value, lo, hi)
    &&& expr_within(def.loc_expr.value, lo, hi)
    &&& var_within(def.expr_var, lo, hi)
    &&& symbol_vars_within(def.pattern_vars, lo, hi)
}

/// Every variable of the definition, those of its signature among them.
pub open spec fn def_within(def: DefModel, lo: int, hi: int) -> bool
    decreases def, 1nat,
{
    &&& def_body_within(def, lo, hi)
    &&& match def.annotation {
        Some(annotation) => annotation_within(annotation, lo, hi),
        None => true,
    }
}

/// The definition is made of variables from `lo` up to `hi` alone. The same
/// as `def_within`, kept under a name of its own so that a contract can
/// state it without laying the whole tree open; `reveal` it to get at the
/// variables one by one.
#[verifier::opaque]
pub open spec fn def_is_fresh(def: DefModel, lo: int, hi: int) -> bool {
    def_within(def, lo, hi)
}

/// The expression is made of variables from `lo` up to `hi` alone. The same
/// as `expr_within`, under a name of its own.
#[verifier::opaque]
pub open spec fn expr_is_fresh(expr: ExprModel, lo: int, hi: int) -> bool {
    expr_within(expr, lo, hi)
}

} // verus!
