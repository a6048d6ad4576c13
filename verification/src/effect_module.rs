//! The builtin functions of an effect type.
//!
//! A platform names an effect type, say `Effect`. A value of `Effect a` is a
//! single private tag around a function from `{}` to `a`:
//!
//! ```text
//! Effect a : [ @Effect ({} -> a) ]
//! ```
//!
//! For that type this module builds the definitions of `after`, `map`,
//! `always` and `forever`, and the definition of every value that the host
//! exposes. Each builder takes the symbols that the scope has introduced for
//! it and draws its type variables from the unit's variable store, in a fixed
//! order. The spec function beside each builder gives the tree it returns,
//! with every variable written as its distance from the first one drawn.

use crate::expr::{
    declarations_view, defs_view, exprs_view, one_expr, push_expr, Annotation, AnnotationModel,
    CalledVia, ClosureData, ClosureDataModel, Declaration, DeclarationModel, Def, DefAnnotation,
    DefAnnotationModel, DefModel, Expr, ExprModel, IntroducedVariables, IntroducedVariablesModel,
    Recursive,
};
use crate::ident::{var_at, Loc, Region, Symbol, TagName, TagNameModel, VarStore, Variable};
use crate::pattern::{
    empty_record_pattern as empty_record_pattern_model, located_patterns_view, one_pattern,
    push_pattern, two_patterns, Pattern, PatternModel,
};
use crate::types::{aliases_view, one_field, one_tag, one_type, two_types, Type, TypeModel};
use crate::variables::{def_is_fresh, expr_is_fresh, var_within};
use vstd::prelude::*;
use vstd::string::StringExecFns;

verus! {

/// The number of variables that `empty_record_pattern` draws.
pub const EMPTY_RECORD_PATTERN_VARS: u32 = 2;

/// The number of variables that `force_effect` draws.
pub const FORCE_EFFECT_VARS: u32 = 9;

/// The number of variables that `wrap_in_effect_thunk` draws besides one for
/// each captured symbol.
pub const EFFECT_THUNK_VARS: u32 = 10;

/// The pattern `{}` over the two variables drawn from `base` on.
pub open spec fn empty_record_pattern_at(base: int) -> PatternModel {
    empty_record_pattern_model(var_at(base, 0), var_at(base, 1))
}

/// The pattern `{}`, which matches the argument of a thunk.
pub fn empty_record_pattern(var_store: &mut VarStore) -> (pattern: Pattern)
    requires
        old(var_store)@ + EMPTY_RECORD_PATTERN_VARS <= u32::MAX,
    ensures
        pattern@ == empty_record_pattern_at(old(var_store)@),
        final(var_store)@ == old(var_store)@ + EMPTY_RECORD_PATTERN_VARS,
{
    let whole_var = var_store.fresh();
    let ext_var = var_store.fresh();
    Pattern::empty_record(whole_var, ext_var)
}

/// The type `[ tag ({} -> a_type) ]`, with `closure_var` for the lambda set
/// of the thunk.
pub open spec fn effect_actual(tag: TagNameModel, closure_var: Variable, a_type: TypeModel) -> TypeModel {
    TypeModel::TagUnion(
        seq![
            (
                tag,
                seq![
                    TypeModel::Function(
                        seq![TypeModel::EmptyRec],
                        Box::new(TypeModel::Variable(closure_var)),
                        Box::new(a_type),
                    ),
                ],
            ),
        ],
        Box::new(TypeModel::EmptyTagUnion),
    )
}

/// The effect type applied to `a_var`, as an alias of
/// `[ tag ({} -> a_type) ]`.
pub open spec fn effect_alias(
    effect_symbol: Symbol,
    tag: TagNameModel,
    a_name: Seq<char>,
    a_var: Variable,
    a_type: TypeModel,
    closure_var: Variable,
) -> TypeModel {
    TypeModel::Alias {
        symbol: effect_symbol,
        type_arguments: seq![(a_name, TypeModel::Variable(a_var))],
        lambda_set_variables: seq![TypeModel::Variable(closure_var)],
        actual: Box::new(effect_actual(tag, closure_var, a_type)),
    }
}

fn effect_actual_type(effect_tag_name: TagName, closure_var: Variable, a_type: Type) -> (actual: Type)
    ensures
        actual@ == effect_actual(effect_tag_name@, closure_var, a_type@),
{
    let thunk = Type::function(one_type(Type::empty_rec()), Type::variable(closure_var), a_type);
    Type::tag_union(one_tag(effect_tag_name, one_type(thunk)), Type::empty_tag_union())
}

/// The effect type applied to `a_var`. Draws one variable, for the lambda
/// set of the thunk, and records it as a wildcard.
pub fn build_effect_alias(
    effect_symbol: Symbol,
    effect_tag_name: TagName,
    a_name: &str,
    a_var: Variable,
    a_type: Type,
    var_store: &mut VarStore,
    introduced_variables: &mut IntroducedVariables,
) -> (alias: Type)
    requires
        old(var_store)@ < u32::MAX,
    ensures
        alias@ == effect_alias(
            effect_symbol,
            effect_tag_name@,
            a_name@,
            a_var,
            a_type@,
            var_at(old(var_store)@, 0),
        ),
        final(var_store)@ == old(var_store)@ + 1,
        final(introduced_variables)@ == old(introduced_variables)@.insert_wildcard(
            var_at(old(var_store)@, 0),
        ),
{
    let closure_var = var_store.fresh();
    introduced_variables.insert_wildcard(closure_var);

    let actual = effect_actual_type(effect_tag_name, closure_var, a_type);

    Type::alias(
        effect_symbol,
        one_field(String::from_str(a_name), Type::variable(a_var)),
        one_type(Type::variable(closure_var)),
        actual,
    )
}

/// The type that the effect alias stands for, over a fresh lambda set
/// variable.
pub fn build_effect_actual(effect_tag_name: TagName, a_type: Type, var_store: &mut VarStore) -> (actual:
    Type)
    requires
        old(var_store)@ < u32::MAX,
    ensures
        actual@ == effect_actual(effect_tag_name@, var_at(old(var_store)@, 0), a_type@),
        final(var_store)@ == old(var_store)@ + 1,
{
    let closure_var = var_store.fresh();
    effect_actual_type(effect_tag_name, closure_var, a_type)
}

/// The call of `callee` on one argument, written with a space.
pub open spec fn call_with(
    fn_var: Variable,
    callee: ExprModel,
    closure_var: Variable,
    ret_var: Variable,
    arg_var: Variable,
    arg: ExprModel,
) -> ExprModel {
    ExprModel::Call(
        Box::new((fn_var, Loc::at_zero(callee), closure_var, ret_var)),
        seq![(arg_var, Loc::at_zero(arg))],
        CalledVia::Space,
    )
}

/// The pattern `@Effect thunk`, which takes the thunk out of an effect.
pub open spec fn effect_pattern(
    whole_var: Variable,
    ext_var: Variable,
    tag: TagNameModel,
    thunk_var: Variable,
    thunk: Symbol,
) -> PatternModel {
    PatternModel::AppliedTag {
        whole_var,
        ext_var,
        tag_name: tag,
        arguments: seq![(thunk_var, Loc::at_zero(PatternModel::Identifier(thunk)))],
    }
}

/// The expression `@Effect closure`, which makes an effect of a thunk.
pub open spec fn effect_tag(
    variant_var: Variable,
    ext_var: Variable,
    tag: TagNameModel,
    closure_var: Variable,
    closure: ExprModel,
) -> ExprModel {
    ExprModel::Tag {
        variant_var,
        ext_var,
        name: tag,
        arguments: seq![(closure_var, Loc::at_zero(closure))],
    }
}

/// A definition without a signature that binds no variable of its own.
pub open spec fn plain_def(pattern: PatternModel, expr: ExprModel, expr_var: Variable) -> DefModel {
    DefModel {
        loc_pattern: Loc::at_zero(pattern),
        loc_expr: Loc::at_zero(expr),
        expr_var,
        pattern_vars: Seq::empty(),
        annotation: None,
    }
}

/// The tree that `force_effect` returns when the store stands at `base`:
///
/// ```text
/// @Effect thunk = effect
/// thunk {}
/// ```
pub open spec fn force_effect_at(
    effect: ExprModel,
    tag: TagNameModel,
    thunk_symbol: Symbol,
    base: int,
) -> ExprModel {
    let v = |k: int| var_at(base, k);
    ExprModel::LetNonRec(
        Box::new(plain_def(effect_pattern(v(0), v(1), tag, v(2), thunk_symbol), effect, v(3))),
        Box::new(
            Loc::at_zero(
                call_with(
                    v(5),
                    ExprModel::Var(thunk_symbol),
                    v(6),
                    v(4),
                    v(7),
                    ExprModel::EmptyRecord,
                ),
            ),
        ),
        v(8),
    )
}

/// Given `effect : Effect a`, takes the thunk out under the name
/// `thunk_symbol` and calls it, which gives a value of type `a`.
pub fn force_effect(
    effect: Expr,
    effect_tag_name: TagName,
    thunk_symbol: Symbol,
    var_store: &mut VarStore,
) -> (forced: Expr)
    requires
        old(var_store)@ + FORCE_EFFECT_VARS <= u32::MAX,
    ensures
        forced@ == force_effect_at(effect@, effect_tag_name@, thunk_symbol, old(var_store)@),
        final(var_store)@ == old(var_store)@ + FORCE_EFFECT_VARS,
{
    let whole_var = var_store.fresh();
    let ext_var = var_store.fresh();

    let thunk_var = var_store.fresh();

    let pattern = Pattern::applied_tag(
        whole_var,
        ext_var,
        effect_tag_name,
        one_pattern(thunk_var, Pattern::identifier(thunk_symbol)),
    );

    let def = Def {
        loc_pattern: Loc::at_zero(pattern),
        loc_expr: Loc::at_zero(effect),
        expr_var: var_store.fresh(),
        pattern_vars: Vec::new(),
        annotation: None,
    };

    let ret_var = var_store.fresh();

    let fn_var = var_store.fresh();
    let closure_var = var_store.fresh();
    let arguments = one_expr(var_store.fresh(), Expr::empty_record());
    let call = Expr::call(fn_var, Expr::var(thunk_symbol), closure_var, ret_var, arguments, CalledVia::Space);

    let force_thunk_call = Loc::at_zero(call);

    Expr::let_non_rec(def, force_thunk_call, var_store.fresh())
}

/// Each captured symbol with the variable drawn for it, from `base` on.
pub open spec fn captured_at(captured: Seq<Symbol>, base: int) -> Seq<(Symbol, Variable)> {
    Seq::new(captured.len(), |i: int| (captured[i], var_at(base, i)))
}

/// The closure `\{} -> body` named `name`.
pub open spec fn thunk_closure(
    arg_var: Variable,
    pattern: PatternModel,
    function_type: Variable,
    closure_type: Variable,
    closure_ext_var: Variable,
    return_type: Variable,
    name: Symbol,
    captured_symbols: Seq<(Symbol, Variable)>,
    body: ExprModel,
) -> ExprModel {
    ExprModel::Closure(
        ClosureDataModel {
            function_type,
            closure_type,
            closure_ext_var,
            return_type,
            name,
            captured_symbols,
            recursive: Recursive::NotRecursive,
            arguments: seq![(arg_var, Loc::at_zero(pattern))],
            loc_body: Box::new(Loc::at_zero(body)),
        },
    )
}

/// The tree that `wrap_in_effect_thunk` returns when the store stands at
/// `base`: `@Effect \{} -> body`, the closure named `closure_name` and
/// capturing `captured`.
pub open spec fn wrap_in_effect_thunk_at(
    body: ExprModel,
    tag: TagNameModel,
    closure_name: Symbol,
    captured: Seq<Symbol>,
    base: int,
) -> ExprModel {
    let n = captured.len() as int;
    let v = |k: int| var_at(base, n + k);
    effect_tag(
        v(7),
        v(8),
        tag,
        v(9),
        thunk_closure(
            v(0),
            empty_record_pattern_at(base + n + 1),
            v(3),
            v(4),
            v(5),
            v(6),
            closure_name,
            captured_at(captured, base),
            body,
        ),
    )
}

/// Turns `body` into `@Effect \{} -> body`.
pub fn wrap_in_effect_thunk(
    body: Expr,
    effect_tag_name: TagName,
    closure_name: Symbol,
    captured_symbols: Vec<Symbol>,
    var_store: &mut VarStore,
) -> (wrapped: Expr)
    requires
        old(var_store)@ + captured_symbols.len() + EFFECT_THUNK_VARS <= u32::MAX,
    ensures
        wrapped@ == wrap_in_effect_thunk_at(
            body@,
            effect_tag_name@,
            closure_name,
            captured_symbols@,
            old(var_store)@,
        ),
        final(var_store)@ == old(var_store)@ + captured_symbols.len() + EFFECT_THUNK_VARS,
{
    let ghost base = old(var_store)@;
    let mut captured: Vec<(Symbol, Variable)> = Vec::new();
    let mut i: usize = 0;
    while i < captured_symbols.len()
        invariant
            i <= captured_symbols.len(),
            var_store@ == base + i,
            base + captured_symbols.len() + EFFECT_THUNK_VARS <= u32::MAX,
            captured@ == captured_at(captured_symbols@.take(i as int), base),
        decreases captured_symbols.len() - i,
    {
        let var = var_store.fresh();
        captured.push((captured_symbols[i], var));
        assert(captured@ =~= captured_at(captured_symbols@.take(i + 1), base));
        i += 1;
    }
    assert(captured_symbols@.take(i as int) =~= captured_symbols@);

    // \{} -> body
    let const_closure = {
        let arg_var = var_store.fresh();
        let arguments = one_pattern(arg_var, empty_record_pattern(var_store));

        Expr::closure(
            ClosureData {
                function_type: var_store.fresh(),
                closure_type: var_store.fresh(),
                closure_ext_var: var_store.fresh(),
                return_type: var_store.fresh(),
                name: closure_name,
                captured_symbols: captured,
                recursive: Recursive::NotRecursive,
                arguments,
                loc_body: Box::new(Loc::at_zero(body)),
            },
        )
    };

    // `@Effect \{} -> body`
    let variant_var = var_store.fresh();
    let ext_var = var_store.fresh();
    Expr::tag(variant_var, ext_var, effect_tag_name, one_expr(var_store.fresh(), const_closure))
}

/// A closure that captures nothing.
pub open spec fn function_closure(
    function_type: Variable,
    closure_type: Variable,
    closure_ext_var: Variable,
    return_type: Variable,
    name: Symbol,
    recursive: Recursive,
    arguments: Seq<(Variable, Loc<PatternModel>)>,
    body: ExprModel,
) -> ExprModel {
    ExprModel::Closure(
        ClosureDataModel {
            function_type,
            closure_type,
            closure_ext_var,
            return_type,
            name,
            captured_symbols: Seq::empty(),
            recursive,
            arguments,
            loc_body: Box::new(Loc::at_zero(body)),
        },
    )
}

/// A signature that brings no alias with it and stands for no source text.
pub open spec fn signature_annotation(
    signature: TypeModel,
    introduced_variables: IntroducedVariablesModel,
) -> DefAnnotationModel {
    DefAnnotationModel {
        signature,
        introduced_variables,
        aliases: Seq::empty(),
        region: Region::zero(),
    }
}

/// The definition `symbol = expr` of type `annotation`, with `expr_var` for
/// the variable of both the name and the expression.
pub open spec fn named_def(
    symbol: Symbol,
    expr_var: Variable,
    expr: ExprModel,
    annotation: DefAnnotationModel,
) -> DefModel {
    DefModel {
        loc_pattern: Loc::at_zero(PatternModel::Identifier(symbol)),
        loc_expr: Loc::at_zero(expr),
        expr_var,
        pattern_vars: seq![(symbol, expr_var)],
        annotation: Some(annotation),
    }
}

fn make_named_def(symbol: Symbol, expr_var: Variable, expr: Expr, annotation: DefAnnotation) -> (def: Def)
    ensures
        def@ == named_def(symbol, expr_var, expr@, annotation@),
{
    let pattern = Pattern::identifier(symbol);
    let pattern_vars = vec![(symbol, expr_var)];
    assert(pattern_vars@ =~= seq![(symbol, expr_var)]);
    Def {
        loc_pattern: Loc::at_zero(pattern),
        loc_expr: Loc::at_zero(expr),
        expr_var,
        pattern_vars,
        annotation: Some(annotation),
    }
}

fn make_signature_annotation(signature: Type, introduced_variables: IntroducedVariables) -> (annotation:
    DefAnnotation)
    ensures
        annotation@ == signature_annotation(signature@, introduced_variables@),
{
    let aliases: Vec<(Symbol, crate::types::Alias)> = Vec::new();
    assert(aliases_view(aliases@) =~= Seq::empty());
    DefAnnotation { signature, introduced_variables, aliases, region: Region::zero() }
}

/// The symbols that the scope introduces for `always`: the parameter, the
/// inner closure, and the function itself.
#[derive(Clone, Copy, PartialEq, Eq, Structural, Debug)]
pub struct AlwaysSymbols {
    pub value: Symbol,
    pub inner: Symbol,
    pub always: Symbol,
}

/// The number of variables that `build_effect_always` draws.
pub const ALWAYS_VARS: u32 = 19;

/// The signature `a -> Effect a`, over the three variables from `base` on.
pub open spec fn always_signature(effect_symbol: Symbol, tag: TagNameModel, base: int) -> TypeModel {
    let a = var_at(base, 0);
    TypeModel::Function(
        seq![TypeModel::Variable(a)],
        Box::new(TypeModel::Variable(var_at(base, 2))),
        Box::new(effect_alias(effect_symbol, tag, "a"@, a, TypeModel::Variable(a), var_at(base, 1))),
    )
}

pub open spec fn always_introduced(base: int) -> IntroducedVariablesModel {
    IntroducedVariablesModel::empty().insert_named("a"@, var_at(base, 0)).insert_wildcard(
        var_at(base, 1),
    ).insert_wildcard(var_at(base, 2))
}

/// The definition that `build_effect_always` returns when the store stands
/// at `base`:
///
/// ```text
/// always : a -> Effect a
/// always = \value -> @Effect \{} -> value
/// ```
pub open spec fn always_def(
    s: AlwaysSymbols,
    effect_symbol: Symbol,
    tag: TagNameModel,
    base: int,
) -> DefModel {
    let v = |k: int| var_at(base, k);
    // \{} -> value
    let const_closure = thunk_closure(
        v(0),
        empty_record_pattern_at(base + 1),
        v(3),
        v(4),
        v(5),
        v(6),
        s.inner,
        seq![(s.value, v(7))],
        ExprModel::Var(s.value),
    );
    // \value -> @Effect \{} -> value
    let always_closure = function_closure(
        v(12),
        v(13),
        v(14),
        v(15),
        s.always,
        Recursive::NotRecursive,
        seq![(v(11), Loc::at_zero(PatternModel::Identifier(s.value)))],
        effect_tag(v(8), v(9), tag, v(10), const_closure),
    );
    named_def(
        s.always,
        v(12),
        always_closure,
        signature_annotation(
            always_signature(effect_symbol, tag, base + 16),
            always_introduced(base + 16),
        ),
    )
}

/// Builds `always`, which makes an effect that gives back a value it was
/// handed.
pub fn build_effect_always(
    symbols: &AlwaysSymbols,
    effect_symbol: Symbol,
    effect_tag_name: TagName,
    var_store: &mut VarStore,
) -> (result: (Symbol, Def))
    requires
        old(var_store)@ + ALWAYS_VARS <= u32::MAX,
    ensures
        result.0 == symbols.always,
        result.1@ == always_def(*symbols, effect_symbol, effect_tag_name@, old(var_store)@),
        final(var_store)@ == old(var_store)@ + ALWAYS_VARS,
        def_is_fresh(result.1@, old(var_store)@, final(var_store)@),
{
    proof {
        var_store.lemma_bounds();
        crate::fresh_laws::always_is_fresh(*symbols, effect_symbol, effect_tag_name@, var_store@);
        reveal(def_is_fresh);
    }
    let value_symbol = symbols.value;
    let inner_closure_symbol = symbols.inner;
    let always_symbol = symbols.always;

    // \{} -> value
    let const_closure = {
        let arg_var = var_store.fresh();
        let arguments = one_pattern(arg_var, empty_record_pattern(var_store));

        let body = Expr::var(value_symbol);

        let function_type = var_store.fresh();
        let closure_type = var_store.fresh();
        let closure_ext_var = var_store.fresh();
        let return_type = var_store.fresh();
        let captured_symbols = vec![(value_symbol, var_store.fresh())];
        assert(captured_symbols@ =~= seq![(value_symbol, var_at(old(var_store)@, 7))]);
        Expr::closure(
            ClosureData {
                function_type,
                closure_type,
                closure_ext_var,
                return_type,
                name: inner_closure_symbol,
                captured_symbols,
                recursive: Recursive::NotRecursive,
                arguments,
                loc_body: Box::new(Loc::at_zero(body)),
            },
        )
    };

    // \value -> @Effect \{} -> value
    let variant_var = var_store.fresh();
    let ext_var = var_store.fresh();
    let effect_tag_name_here = effect_tag_name.clone();
    let body = Expr::tag(
        variant_var,
        ext_var,
        effect_tag_name_here,
        one_expr(var_store.fresh(), const_closure),
    );

    let arguments = one_pattern(var_store.fresh(), Pattern::identifier(value_symbol));

    let function_var = var_store.fresh();
    let always_closure = Expr::closure(
        ClosureData {
            function_type: function_var,
            closure_type: var_store.fresh(),
            closure_ext_var: var_store.fresh(),
            return_type: var_store.fresh(),
            name: always_symbol,
            captured_symbols: Vec::new(),
            recursive: Recursive::NotRecursive,
            arguments,
            loc_body: Box::new(Loc::at_zero(body)),
        },
    );

    let mut introduced_variables = IntroducedVariables::new();

    let signature = {
        // always : a -> Effect a
        let var_a = var_store.fresh();
        introduced_variables.insert_named(String::from_str("a"), var_a);

        let effect_a = build_effect_alias(
            effect_symbol,
            effect_tag_name,
            "a",
            var_a,
            Type::variable(var_a),
            var_store,
            &mut introduced_variables,
        );

        let closure_var = var_store.fresh();
        introduced_variables.insert_wildcard(closure_var);

        Type::function(one_type(Type::variable(var_a)), Type::variable(closure_var), effect_a)
    };

    let def_annotation = make_signature_annotation(signature, introduced_variables);
    let def = make_named_def(always_symbol, function_var, always_closure, def_annotation);

    (always_symbol, def)
}

/// The symbols that the scope introduces for `map`: the thunk of the effect
/// it is given, the function it is given, `map` itself, and the inner
/// closure.
#[derive(Clone, Copy, PartialEq, Eq, Structural, Debug)]
pub struct MapSymbols {
    pub thunk: Symbol,
    pub mapper: Symbol,
    pub map: Symbol,
    pub inner: Symbol,
}

/// The number of variables that `build_effect_map` draws.
pub const MAP_VARS: u32 = 35;

/// What a signature over `a` and `b` with two effect types and two function
/// arrows introduces, from `base` on.
pub open spec fn binary_introduced(base: int) -> IntroducedVariablesModel {
    IntroducedVariablesModel::empty().insert_named("a"@, var_at(base, 0)).insert_named(
        "b"@,
        var_at(base, 1),
    ).insert_wildcard(var_at(base, 2)).insert_wildcard(var_at(base, 3)).insert_wildcard(
        var_at(base, 4),
    ).insert_wildcard(var_at(base, 5))
}

/// The signature `Effect a, (a -> b) -> Effect b`, over the six variables
/// from `base` on.
pub open spec fn map_signature(effect_symbol: Symbol, tag: TagNameModel, base: int) -> TypeModel {
    let a = var_at(base, 0);
    let b = var_at(base, 1);
    let effect_a = effect_alias(effect_symbol, tag, "a"@, a, TypeModel::Variable(a), var_at(base, 2));
    let effect_b = effect_alias(effect_symbol, tag, "b"@, b, TypeModel::Variable(b), var_at(base, 3));
    let a_to_b = TypeModel::Function(
        seq![TypeModel::Variable(a)],
        Box::new(TypeModel::Variable(var_at(base, 4))),
        Box::new(TypeModel::Variable(b)),
    );
    TypeModel::Function(
        seq![effect_a, a_to_b],
        Box::new(TypeModel::Variable(var_at(base, 5))),
        Box::new(effect_b),
    )
}

/// The definition that `build_effect_map` returns when the store stands at
/// `base`:
///
/// ```text
/// map : Effect a, (a -> b) -> Effect b
/// map = \@Effect thunk, mapper -> @Effect \{} -> mapper (thunk {})
/// ```
pub open spec fn map_def(s: MapSymbols, effect_symbol: Symbol, tag: TagNameModel, base: int) -> DefModel {
    let v = |k: int| var_at(base, k);
    // thunk {}
    let force_thunk_call = call_with(
        v(0),
        ExprModel::Var(s.thunk),
        v(1),
        v(2),
        v(3),
        ExprModel::EmptyRecord,
    );
    // mapper (thunk {})
    let mapper_call = call_with(v(4), ExprModel::Var(s.mapper), v(5), v(6), v(7), force_thunk_call);
    // \{} -> mapper (thunk {})
    let inner_closure = thunk_closure(
        v(8),
        empty_record_pattern_at(base + 9),
        v(11),
        v(12),
        v(13),
        v(14),
        s.inner,
        seq![(s.thunk, v(15)), (s.mapper, v(16))],
        mapper_call,
    );
    let arguments = seq![
        (v(17), Loc::at_zero(effect_pattern(v(18), v(19), tag, v(20), s.thunk))),
        (v(21), Loc::at_zero(PatternModel::Identifier(s.mapper))),
    ];
    let map_closure = function_closure(
        v(25),
        v(26),
        v(27),
        v(28),
        s.map,
        Recursive::NotRecursive,
        arguments,
        effect_tag(v(22), v(23), tag, v(24), inner_closure),
    );
    named_def(
        s.map,
        v(25),
        map_closure,
        signature_annotation(map_signature(effect_symbol, tag, base + 29), binary_introduced(base + 29)),
    )
}

/// Builds `map`, which makes an effect that runs another and hands what it
/// gives to a function.
pub fn build_effect_map(
    symbols: &MapSymbols,
    effect_symbol: Symbol,
    effect_tag_name: TagName,
    var_store: &mut VarStore,
) -> (result: (Symbol, Def))
    requires
        old(var_store)@ + MAP_VARS <= u32::MAX,
    ensures
        result.0 == symbols.map,
        result.1@ == map_def(*symbols, effect_symbol, effect_tag_name@, old(var_store)@),
        final(var_store)@ == old(var_store)@ + MAP_VARS,
        def_is_fresh(result.1@, old(var_store)@, final(var_store)@),
{
    proof {
        var_store.lemma_bounds();
        crate::fresh_laws::map_is_fresh(*symbols, effect_symbol, effect_tag_name@, var_store@);
        reveal(def_is_fresh);
    }
    let thunk_symbol = symbols.thunk;
    let mapper_symbol = symbols.mapper;
    let map_symbol = symbols.map;

    // `thunk {}`
    let force_thunk_call = {
        let fn_var = var_store.fresh();
        let callee = Expr::var(thunk_symbol);
        let closure_var = var_store.fresh();
        let ret_var = var_store.fresh();

        let arguments = one_expr(var_store.fresh(), Expr::empty_record());
        Expr::call(fn_var, callee, closure_var, ret_var, arguments, CalledVia::Space)
    };

    // `mapper (thunk {})`
    let mapper_call = {
        let fn_var = var_store.fresh();
        let callee = Expr::var(mapper_symbol);
        let closure_var = var_store.fresh();
        let ret_var = var_store.fresh();

        let arguments = one_expr(var_store.fresh(), force_thunk_call);
        Expr::call(fn_var, callee, closure_var, ret_var, arguments, CalledVia::Space)
    };

    let inner_closure_symbol = symbols.inner;

    // \{} -> mapper (thunk {})
    let inner_closure = {
        let arg_var = var_store.fresh();
        let arguments = one_pattern(arg_var, empty_record_pattern(var_store));

        let function_type = var_store.fresh();
        let closure_type = var_store.fresh();
        let closure_ext_var = var_store.fresh();
        let return_type = var_store.fresh();
        let thunk_var = var_store.fresh();
        let mapper_var = var_store.fresh();
        let captured_symbols = vec![(thunk_symbol, thunk_var), (mapper_symbol, mapper_var)];
        assert(captured_symbols@ =~= seq![(thunk_symbol, thunk_var), (mapper_symbol, mapper_var)]);
        Expr::closure(
            ClosureData {
                function_type,
                closure_type,
                closure_ext_var,
                return_type,
                name: inner_closure_symbol,
                captured_symbols,
                recursive: Recursive::NotRecursive,
                arguments,
                loc_body: Box::new(Loc::at_zero(mapper_call)),
            },
        )
    };

    let arguments = {
        let effect_var = var_store.fresh();
        let whole_var = var_store.fresh();
        let ext_var = var_store.fresh();
        let thunk_arguments = one_pattern(var_store.fresh(), Pattern::identifier(thunk_symbol));
        let effect = Pattern::applied_tag(whole_var, ext_var, effect_tag_name.clone(), thunk_arguments);
        let mapper_var = var_store.fresh();
        two_patterns(effect_var, effect, mapper_var, Pattern::identifier(mapper_symbol))
    };

    // `@Effect \{} -> (mapper (thunk {}))`
    let variant_var = var_store.fresh();
    let ext_var = var_store.fresh();
    let body = Expr::tag(
        variant_var,
        ext_var,
        effect_tag_name.clone(),
        one_expr(var_store.fresh(), inner_closure),
    );

    let function_var = var_store.fresh();
    let map_closure = Expr::closure(
        ClosureData {
            function_type: function_var,
            closure_type: var_store.fresh(),
            closure_ext_var: var_store.fresh(),
            return_type: var_store.fresh(),
            name: map_symbol,
            captured_symbols: Vec::new(),
            recursive: Recursive::NotRecursive,
            arguments,
            loc_body: Box::new(Loc::at_zero(body)),
        },
    );

    let mut introduced_variables = IntroducedVariables::new();

    let signature = {
        // map : Effect a, (a -> b) -> Effect b
        let var_a = var_store.fresh();
        let var_b = var_store.fresh();

        introduced_variables.insert_named(String::from_str("a"), var_a);
        introduced_variables.insert_named(String::from_str("b"), var_b);

        let effect_a = build_effect_alias(
            effect_symbol,
            effect_tag_name.clone(),
            "a",
            var_a,
            Type::variable(var_a),
            var_store,
            &mut introduced_variables,
        );

        let effect_b = build_effect_alias(
            effect_symbol,
            effect_tag_name,
            "b",
            var_b,
            Type::variable(var_b),
            var_store,
            &mut introduced_variables,
        );

        let closure_var = var_store.fresh();
        introduced_variables.insert_wildcard(closure_var);
        let a_to_b = Type::function(
            one_type(Type::variable(var_a)),
            Type::variable(closure_var),
            Type::variable(var_b),
        );

        let closure_var = var_store.fresh();
        introduced_variables.insert_wildcard(closure_var);
        Type::function(two_types(effect_a, a_to_b), Type::variable(closure_var), effect_b)
    };

    let def_annotation = make_signature_annotation(signature, introduced_variables);
    let def = make_named_def(map_symbol, function_var, map_closure, def_annotation);

    (map_symbol, def)
}

/// The symbols that the scope introduces for `after`: the thunk of the
/// effect it is given, the function that makes the next effect, `after`
/// itself, the inner closure, and the thunk of the next effect.
#[derive(Clone, Copy, PartialEq, Eq, Structural, Debug)]
pub struct AfterSymbols {
    pub thunk: Symbol,
    pub to_effect: Symbol,
    pub after: Symbol,
    pub inner: Symbol,
    pub thunk2: Symbol,
}

/// The number of variables that the body of `after` draws.
pub const AFTER_BODY_VARS: u32 = 29;

/// The number of variables that `build_effect_after` draws.
pub const AFTER_VARS: u32 = 44;

/// The signature `Effect a, (a -> Effect b) -> Effect b`, over the six
/// variables from `base` on. Both mentions of `Effect b` share one lambda
/// set variable.
pub open spec fn after_signature(effect_symbol: Symbol, tag: TagNameModel, base: int) -> TypeModel {
    let a = var_at(base, 0);
    let b = var_at(base, 1);
    let effect_a = effect_alias(effect_symbol, tag, "a"@, a, TypeModel::Variable(a), var_at(base, 2));
    let effect_b = effect_alias(effect_symbol, tag, "b"@, b, TypeModel::Variable(b), var_at(base, 3));
    let a_to_effect_b = TypeModel::Function(
        seq![TypeModel::Variable(a)],
        Box::new(TypeModel::Variable(var_at(base, 4))),
        Box::new(effect_b),
    );
    TypeModel::Function(
        seq![effect_a, a_to_effect_b],
        Box::new(TypeModel::Variable(var_at(base, 5))),
        Box::new(effect_b),
    )
}

/// The call `toEffect (thunk {})` inside `after`, over the eight variables
/// from `base` on.
pub open spec fn after_call_at(s: AfterSymbols, base: int) -> ExprModel {
    let v = |k: int| var_at(base, k);
    // thunk {}
    let force_thunk_call = call_with(
        v(0),
        ExprModel::Var(s.thunk),
        v(1),
        v(2),
        v(3),
        ExprModel::EmptyRecord,
    );
    // toEffect (thunk {})
    call_with(v(4), ExprModel::Var(s.to_effect), v(5), v(6), v(7), force_thunk_call)
}

/// The body of `after` when the store stands at `base`: an effect whose
/// thunk captures the thunk and the function that `after` was given, and
/// does this when it is called:
///
/// ```text
/// @Effect thunk2 = toEffect (thunk {})
/// thunk2 {}
/// ```
pub open spec fn after_body_at(tag: TagNameModel, s: AfterSymbols, base: int) -> ExprModel {
    wrap_in_effect_thunk_at(
        force_effect_at(after_call_at(s, base), tag, s.thunk2, base + 8),
        tag,
        s.inner,
        seq![s.thunk, s.to_effect],
        base + 8 + FORCE_EFFECT_VARS,
    )
}

/// The definition that `build_effect_after` returns when the store stands at
/// `base`:
///
/// ```text
/// after : Effect a, (a -> Effect b) -> Effect b
/// after = \@Effect thunk, toEffect ->
///     @Effect \{} ->
///         @Effect thunk2 = toEffect (thunk {})
///         thunk2 {}
/// ```
///
/// To apply `after` runs nothing. Only when the effect it gives is run is
/// the first effect run, the function applied to what it gave, and the
/// effect that the function made run in turn.
pub open spec fn after_def(
    s: AfterSymbols,
    effect_symbol: Symbol,
    tag: TagNameModel,
    base: int,
) -> DefModel {
    let v = |k: int| var_at(base, k);
    let arguments = seq![
        (v(29), Loc::at_zero(effect_pattern(v(30), v(31), tag, v(32), s.thunk))),
        (v(33), Loc::at_zero(PatternModel::Identifier(s.to_effect))),
    ];
    let after_closure = function_closure(
        v(34),
        v(35),
        v(36),
        v(37),
        s.after,
        Recursive::NotRecursive,
        arguments,
        after_body_at(tag, s, base),
    );
    named_def(
        s.after,
        v(34),
        after_closure,
        signature_annotation(
            after_signature(effect_symbol, tag, base + 38),
            binary_introduced(base + 38),
        ),
    )
}

/// Builds `after`, which makes an effect that runs another and then the
/// effect that a function makes of what the first one gave.
pub fn build_effect_after(
    symbols: &AfterSymbols,
    effect_symbol: Symbol,
    effect_tag_name: TagName,
    var_store: &mut VarStore,
) -> (result: (Symbol, Def))
    requires
        old(var_store)@ + AFTER_VARS <= u32::MAX,
    ensures
        result.0 == symbols.after,
        result.1@ == after_def(*symbols, effect_symbol, effect_tag_name@, old(var_store)@),
        final(var_store)@ == old(var_store)@ + AFTER_VARS,
        def_is_fresh(result.1@, old(var_store)@, final(var_store)@),
{
    proof {
        var_store.lemma_bounds();
        crate::fresh_laws::after_is_fresh(*symbols, effect_symbol, effect_tag_name@, var_store@);
        reveal(def_is_fresh);
    }
    let thunk_symbol = symbols.thunk;
    let to_effect_symbol = symbols.to_effect;
    let after_symbol = symbols.after;

    // `thunk {}`
    let force_thunk_call = {
        let fn_var = var_store.fresh();
        let callee = Expr::var(thunk_symbol);
        let closure_var = var_store.fresh();
        let ret_var = var_store.fresh();

        let arguments = one_expr(var_store.fresh(), Expr::empty_record());
        Expr::call(fn_var, callee, closure_var, ret_var, arguments, CalledVia::Space)
    };

    // `toEffect (thunk {})`
    let to_effect_call = {
        let fn_var = var_store.fresh();
        let callee = Expr::var(to_effect_symbol);
        let closure_var = var_store.fresh();
        let ret_var = var_store.fresh();

        let arguments = one_expr(var_store.fresh(), force_thunk_call);
        Expr::call(fn_var, callee, closure_var, ret_var, arguments, CalledVia::Space)
    };

    // @Effect thunk2 = toEffect (thunk {})
    // thunk2 {}
    let run_next = force_effect(
        to_effect_call,
        effect_tag_name.clone(),
        symbols.thunk2,
        var_store,
    );

    // `@Effect \{} -> ..`, which keeps the thunk and the function until it
    // is run
    let captured_symbols = vec![thunk_symbol, to_effect_symbol];
    assert(captured_symbols@ =~= seq![thunk_symbol, to_effect_symbol]);
    let body = wrap_in_effect_thunk(
        run_next,
        effect_tag_name.clone(),
        symbols.inner,
        captured_symbols,
        var_store,
    );

    let arguments = {
        let effect_var = var_store.fresh();
        let whole_var = var_store.fresh();
        let ext_var = var_store.fresh();
        let thunk_arguments = one_pattern(var_store.fresh(), Pattern::identifier(thunk_symbol));
        let effect = Pattern::applied_tag(whole_var, ext_var, effect_tag_name.clone(), thunk_arguments);
        let to_effect_var = var_store.fresh();
        two_patterns(effect_var, effect, to_effect_var, Pattern::identifier(to_effect_symbol))
    };

    let function_var = var_store.fresh();
    let after_closure = Expr::closure(
        ClosureData {
            function_type: function_var,
            closure_type: var_store.fresh(),
            closure_ext_var: var_store.fresh(),
            return_type: var_store.fresh(),
            name: after_symbol,
            captured_symbols: Vec::new(),
            recursive: Recursive::NotRecursive,
            arguments,
            loc_body: Box::new(Loc::at_zero(body)),
        },
    );

    let mut introduced_variables = IntroducedVariables::new();

    let signature = {
        // after : Effect a, (a -> Effect b) -> Effect b
        let var_a = var_store.fresh();
        let var_b = var_store.fresh();

        introduced_variables.insert_named(String::from_str("a"), var_a);
        introduced_variables.insert_named(String::from_str("b"), var_b);

        let effect_a = build_effect_alias(
            effect_symbol,
            effect_tag_name.clone(),
            "a",
            var_a,
            Type::variable(var_a),
            var_store,
            &mut introduced_variables,
        );

        let effect_b = build_effect_alias(
            effect_symbol,
            effect_tag_name,
            "b",
            var_b,
            Type::variable(var_b),
            var_store,
            &mut introduced_variables,
        );

        let closure_var = var_store.fresh();
        introduced_variables.insert_wildcard(closure_var);
        let a_to_effect_b = Type::function(
            one_type(Type::variable(var_a)),
            Type::variable(closure_var),
            effect_b.clone(),
        );

        let closure_var = var_store.fresh();
        introduced_variables.insert_wildcard(closure_var);
        Type::function(two_types(effect_a, a_to_effect_b), Type::variable(closure_var), effect_b)
    };

    let def_annotation = make_signature_annotation(signature, introduced_variables);
    let def = make_named_def(after_symbol, function_var, after_closure, def_annotation);

    (after_symbol, def)
}

/// The symbols that the scope introduces for `forever`: the function itself,
/// its parameter, the inner closure, and the thunks of the two effects that
/// the inner closure takes apart.
#[derive(Clone, Copy, PartialEq, Eq, Structural, Debug)]
pub struct ForeverSymbols {
    pub forever: Symbol,
    pub effect: Symbol,
    pub inner: Symbol,
    pub thunk1: Symbol,
    pub thunk2: Symbol,
}

/// The number of variables that `build_effect_forever_inner_body` draws.
pub const FOREVER_INNER_BODY_VARS: u32 = 24;

/// The number of variables that `build_effect_forever_body` draws.
pub const FOREVER_BODY_VARS: u32 = 35;

/// The number of variables that `build_effect_forever` draws.
pub const FOREVER_VARS: u32 = 46;

/// The body of the closure inside `forever` when the store stands at `base`:
///
/// ```text
/// @Effect thunk1 = effect
/// _ = thunk1 {}
/// @Effect thunk2 = forever effect
/// thunk2 {}
/// ```
pub open spec fn forever_inner_body_at(
    tag: TagNameModel,
    forever_symbol: Symbol,
    effect: Symbol,
    thunk1: Symbol,
    thunk2: Symbol,
    base: int,
) -> ExprModel {
    let v = |k: int| var_at(base, k);
    // @Effect thunk1 = effect
    let thunk_from_effect = plain_def(
        effect_pattern(v(0), v(1), tag, v(2), thunk1),
        ExprModel::Var(effect),
        v(3),
    );
    // _ = thunk1 {}
    let force_thunk1 = plain_def(
        PatternModel::Underscore,
        call_with(v(5), ExprModel::Var(thunk1), v(6), v(4), v(7), ExprModel::EmptyRecord),
        v(8),
    );
    // forever effect
    let forever_effect = call_with(
        v(9),
        ExprModel::Var(forever_symbol),
        v(10),
        v(11),
        v(12),
        ExprModel::Var(effect),
    );
    // @Effect thunk2 = forever effect
    // thunk2 {}
    let force_thunk2 = force_effect_at(forever_effect, tag, thunk2, base + 13);
    ExprModel::LetNonRec(
        Box::new(thunk_from_effect),
        Box::new(
            Loc::at_zero(
                ExprModel::LetNonRec(
                    Box::new(force_thunk1),
                    Box::new(Loc::at_zero(force_thunk2)),
                    v(22),
                ),
            ),
        ),
        v(23),
    )
}

/// Builds what the closure inside `forever` does each time it is called: run
/// the effect once, make `forever effect` anew, and run that.
pub fn build_effect_forever_inner_body(
    thunk1_symbol: Symbol,
    thunk2_symbol: Symbol,
    effect_tag_name: TagName,
    forever_symbol: Symbol,
    effect: Symbol,
    var_store: &mut VarStore,
) -> (body: Expr)
    requires
        old(var_store)@ + FOREVER_INNER_BODY_VARS <= u32::MAX,
    ensures
        body@ == forever_inner_body_at(
            effect_tag_name@,
            forever_symbol,
            effect,
            thunk1_symbol,
            thunk2_symbol,
            old(var_store)@,
        ),
        final(var_store)@ == old(var_store)@ + FOREVER_INNER_BODY_VARS,
{
    // @Effect thunk1 = effect
    let thunk_from_effect = {
        let whole_var = var_store.fresh();
        let ext_var = var_store.fresh();

        let thunk_var = var_store.fresh();

        let pattern = Pattern::applied_tag(
            whole_var,
            ext_var,
            effect_tag_name.clone(),
            one_pattern(thunk_var, Pattern::identifier(thunk1_symbol)),
        );

        Def {
            loc_pattern: Loc::at_zero(pattern),
            loc_expr: Loc::at_zero(Expr::var(effect)),
            expr_var: var_store.fresh(),
            pattern_vars: Vec::new(),
            annotation: None,
        }
    };

    // thunk1 {}
    let force_thunk_call = {
        let ret_var = var_store.fresh();
        let fn_var = var_store.fresh();
        let callee = Expr::var(thunk1_symbol);
        let closure_var = var_store.fresh();

        let arguments = one_expr(var_store.fresh(), Expr::empty_record());
        let call = Expr::call(fn_var, callee, closure_var, ret_var, arguments, CalledVia::Space);

        Loc::at_zero(call)
    };

    // _ = thunk1 {}
    let force_thunk1 = Def {
        loc_pattern: Loc::at_zero(Pattern::underscore()),
        loc_expr: force_thunk_call,
        expr_var: var_store.fresh(),
        pattern_vars: Vec::new(),
        annotation: None,
    };

    // the call that makes `forever` recursive: `forever effect`
    let forever_effect = {
        let fn_var = var_store.fresh();
        let callee = Expr::var(forever_symbol);
        let closure_var = var_store.fresh();
        let ret_var = var_store.fresh();

        let arguments = one_expr(var_store.fresh(), Expr::var(effect));
        Expr::call(fn_var, callee, closure_var, ret_var, arguments, CalledVia::Space)
    };

    // @Effect thunk2 = forever effect
    // thunk2 {}
    let force_thunk2 = Loc::at_zero(
        force_effect(forever_effect, effect_tag_name, thunk2_symbol, var_store),
    );

    let inner = Expr::let_non_rec(force_thunk1, force_thunk2, var_store.fresh());
    Expr::let_non_rec(thunk_from_effect, Loc::at_zero(inner), var_store.fresh())
}

/// The body of `forever` when the store stands at `base`: the inner body as
/// a thunk that captures the effect, wrapped in the effect tag.
pub open spec fn forever_body_at(tag: TagNameModel, s: ForeverSymbols, base: int) -> ExprModel {
    wrap_in_effect_thunk_at(
        forever_inner_body_at(tag, s.forever, s.effect, s.thunk1, s.thunk2, base),
        tag,
        s.inner,
        seq![s.effect],
        base + FOREVER_INNER_BODY_VARS,
    )
}

/// Builds the body of `forever`.
pub fn build_effect_forever_body(
    symbols: &ForeverSymbols,
    effect_tag_name: TagName,
    var_store: &mut VarStore,
) -> (body: Expr)
    requires
        old(var_store)@ + FOREVER_BODY_VARS <= u32::MAX,
    ensures
        body@ == forever_body_at(effect_tag_name@, *symbols, old(var_store)@),
        final(var_store)@ == old(var_store)@ + FOREVER_BODY_VARS,
{
    let closure_name = symbols.inner;

    let inner_body = build_effect_forever_inner_body(
        symbols.thunk1,
        symbols.thunk2,
        effect_tag_name.clone(),
        symbols.forever,
        symbols.effect,
        var_store,
    );

    let captured_symbols = vec![symbols.effect];
    assert(captured_symbols@ =~= seq![symbols.effect]);
    wrap_in_effect_thunk(inner_body, effect_tag_name, closure_name, captured_symbols, var_store)
}

/// The signature `Effect a -> Effect b`, over the five variables from `base`
/// on. Nothing ties `b` to `a`: an effect that runs forever gives no value.
pub open spec fn forever_signature(effect_symbol: Symbol, tag: TagNameModel, base: int) -> TypeModel {
    let a = var_at(base, 0);
    let b = var_at(base, 1);
    let effect_a = effect_alias(effect_symbol, tag, "a"@, a, TypeModel::Variable(a), var_at(base, 2));
    let effect_b = effect_alias(effect_symbol, tag, "b"@, b, TypeModel::Variable(b), var_at(base, 3));
    TypeModel::Function(
        seq![effect_a],
        Box::new(TypeModel::Variable(var_at(base, 4))),
        Box::new(effect_b),
    )
}

pub open spec fn forever_introduced(base: int) -> IntroducedVariablesModel {
    IntroducedVariablesModel::empty().insert_named("a"@, var_at(base, 0)).insert_named(
        "b"@,
        var_at(base, 1),
    ).insert_wildcard(var_at(base, 2)).insert_wildcard(var_at(base, 3)).insert_wildcard(
        var_at(base, 4),
    )
}

/// The definition that `build_effect_forever` returns when the store stands
/// at `base`:
///
/// ```text
/// forever : Effect a -> Effect b
/// forever = \effect ->
///     @Effect \{} ->
///         @Effect thunk1 = effect
///         _ = thunk1 {}
///         @Effect thunk2 = forever effect
///         thunk2 {}
/// ```
///
/// The closure is marked recursive, and the last thing its inner closure
/// does is to call the thunk of `forever effect`. A later phase that turns
/// closures into data relies on exactly this shape to make a loop of it.
pub open spec fn forever_def(
    s: ForeverSymbols,
    effect_symbol: Symbol,
    tag: TagNameModel,
    base: int,
) -> DefModel {
    let v = |k: int| var_at(base, k);
    let forever_closure = function_closure(
        v(37),
        v(38),
        v(39),
        v(40),
        s.forever,
        Recursive::Recursive,
        seq![(v(35), Loc::at_zero(PatternModel::Identifier(s.effect)))],
        forever_body_at(tag, s, base),
    );
    named_def(
        s.forever,
        v(36),
        forever_closure,
        signature_annotation(
            forever_signature(effect_symbol, tag, base + 41),
            forever_introduced(base + 41),
        ),
    )
}

/// Builds `forever`, which runs an effect again and again.
///
/// In meaning it is `\effect -> after effect (\_ -> forever effect)`. Built
/// that way it would grow a chain of thunks without end, so `after` is
/// written out in place.
pub fn build_effect_forever(
    symbols: &ForeverSymbols,
    effect_symbol: Symbol,
    effect_tag_name: TagName,
    var_store: &mut VarStore,
) -> (result: (Symbol, Def))
    requires
        old(var_store)@ + FOREVER_VARS <= u32::MAX,
    ensures
        result.0 == symbols.forever,
        result.1@ == forever_def(*symbols, effect_symbol, effect_tag_name@, old(var_store)@),
        final(var_store)@ == old(var_store)@ + FOREVER_VARS,
        def_is_fresh(result.1@, old(var_store)@, final(var_store)@),
{
    proof {
        var_store.lemma_bounds();
        crate::fresh_laws::forever_is_fresh(*symbols, effect_symbol, effect_tag_name@, var_store@);
        reveal(def_is_fresh);
    }
    let forever_symbol = symbols.forever;
    let effect = symbols.effect;

    let body = build_effect_forever_body(symbols, effect_tag_name.clone(), var_store);

    let arguments = one_pattern(var_store.fresh(), Pattern::identifier(effect));

    let function_var = var_store.fresh();
    let forever_closure = Expr::closure(
        ClosureData {
            function_type: var_store.fresh(),
            closure_type: var_store.fresh(),
            closure_ext_var: var_store.fresh(),
            return_type: var_store.fresh(),
            name: forever_symbol,
            captured_symbols: Vec::new(),
            recursive: Recursive::Recursive,
            arguments,
            loc_body: Box::new(Loc::at_zero(body)),
        },
    );

    let mut introduced_variables = IntroducedVariables::new();

    let signature = {
        // forever : Effect a -> Effect b
        let var_a = var_store.fresh();
        let var_b = var_store.fresh();

        introduced_variables.insert_named(String::from_str("a"), var_a);
        introduced_variables.insert_named(String::from_str("b"), var_b);

        let effect_a = build_effect_alias(
            effect_symbol,
            effect_tag_name.clone(),
            "a",
            var_a,
            Type::variable(var_a),
            var_store,
            &mut introduced_variables,
        );

        let effect_b = build_effect_alias(
            effect_symbol,
            effect_tag_name,
            "b",
            var_b,
            Type::variable(var_b),
            var_store,
            &mut introduced_variables,
        );

        let closure_var = var_store.fresh();
        introduced_variables.insert_wildcard(closure_var);

        Type::function(one_type(effect_a), Type::variable(closure_var), effect_b)
    };

    let def_annotation = make_signature_annotation(signature, introduced_variables);
    let def = make_named_def(forever_symbol, function_var, forever_closure, def_annotation);

    (forever_symbol, def)
}

/// The symbols that the scope introduces for a value that the host exposes:
/// one for each argument of the declared type, then one for the closure
/// around the host call, under the names that `host_exposed_idents` gives.
#[derive(PartialEq, Eq, Debug)]
pub struct HostExposedSymbols {
    pub arguments: Vec<Symbol>,
    pub effect_closure: Symbol,
}

/// The number of variables that `build_host_exposed_def` draws for a function
/// type besides one for each argument.
pub const HOST_EXPOSED_FUNCTION_VARS: u32 = 16;

/// The number of variables that `build_host_exposed_def` draws for a type
/// that is no function.
pub const HOST_EXPOSED_VALUE_VARS: u32 = 12;

/// The number of variables that `build_host_exposed_def` draws for a value of
/// the declared type `typ`.
pub open spec fn host_exposed_vars(typ: TypeModel) -> int {
    if typ.is_function() {
        typ.arity() + HOST_EXPOSED_FUNCTION_VARS
    } else {
        HOST_EXPOSED_VALUE_VARS as int
    }
}

/// The parameters of the exposed function: each argument symbol as a
/// pattern, with the variable drawn for it from `base` on.
pub open spec fn argument_patterns(symbols: Seq<Symbol>, base: int) -> Seq<(Variable, Loc<PatternModel>)> {
    Seq::new(
        symbols.len(),
        |i: int| (var_at(base, i), Loc::at_zero(PatternModel::Identifier(symbols[i]))),
    )
}

/// What is handed to the host function: each argument symbol as an
/// expression, with the variable drawn for it from `base` on.
pub open spec fn argument_exprs(symbols: Seq<Symbol>, base: int) -> Seq<(Variable, ExprModel)> {
    Seq::new(symbols.len(), |i: int| (var_at(base, i), ExprModel::Var(symbols[i])))
}

/// The call of the host function behind `ident`.
pub open spec fn host_call(ident: Seq<char>, args: Seq<(Variable, ExprModel)>, ret_var: Variable) -> ExprModel {
    ExprModel::ForeignCall { foreign_symbol: crate::naming::foreign_symbol_name(ident), args, ret_var }
}

/// The expression that `build_host_exposed_def` defines `symbol` as, when
/// the store stood at `base` before the definition's own variable was drawn.
///
/// For a function type of `n` arguments:
///
/// ```text
/// \arg_0, .., arg_n-1 -> @Effect \{} -> host_call arg_0 .. arg_n-1
/// ```
///
/// with the inner closure capturing exactly the arguments. For any other
/// type there is no outer closure and the host call takes nothing:
///
/// ```text
/// @Effect \{} -> host_call
/// ```
pub open spec fn host_exposed_body(
    symbol: Symbol,
    ident: Seq<char>,
    tag: TagNameModel,
    typ: TypeModel,
    arguments: Seq<Symbol>,
    effect_closure: Symbol,
    base: int,
) -> ExprModel {
    if typ.is_function() {
        let n = arguments.len() as int;
        let w = |k: int| var_at(base, n + k);
        let effect_closure = thunk_closure(
            w(6),
            empty_record_pattern_at(base + n + 7),
            w(2),
            w(3),
            w(4),
            w(5),
            effect_closure,
            captured_at(arguments, base + 1),
            host_call(ident, argument_exprs(arguments, base + 1), w(1)),
        );
        function_closure(
            w(12),
            w(13),
            w(14),
            w(15),
            symbol,
            Recursive::NotRecursive,
            argument_patterns(arguments, base + 1),
            effect_tag(w(9), w(10), tag, w(11), effect_closure),
        )
    } else {
        let v = |k: int| var_at(base, k);
        let effect_closure = thunk_closure(
            v(8),
            empty_record_pattern_at(base + 2),
            v(4),
            v(5),
            v(6),
            v(7),
            effect_closure,
            Seq::empty(),
            host_call(ident, Seq::empty(), v(1)),
        );
        effect_tag(v(9), v(10), tag, v(11), effect_closure)
    }
}

/// The definition that `build_host_exposed_def` returns when the store
/// stands at `base`. Its signature is the declared one, as it was handed in.
pub open spec fn host_exposed_def(
    symbol: Symbol,
    ident: Seq<char>,
    tag: TagNameModel,
    annotation: AnnotationModel,
    arguments: Seq<Symbol>,
    effect_closure: Symbol,
    base: int,
) -> DefModel {
    named_def(
        symbol,
        var_at(base, 0),
        host_exposed_body(symbol, ident, tag, annotation.typ, arguments, effect_closure, base),
        DefAnnotationModel {
            signature: annotation.typ,
            introduced_variables: annotation.introduced_variables,
            aliases: annotation.aliases,
            region: Region::zero(),
        },
    )
}

/// Builds the definition of a value that the host exposes under the name
/// `ident`: an effect whose thunk calls the host function, behind one
/// parameter for each argument of the declared type.
///
/// `symbols` holds one symbol for each argument of the declared type, and
/// the declared type is taken to be well formed: nothing of it is looked at
/// but the number of its arguments.
pub fn build_host_exposed_def(
    symbols: &HostExposedSymbols,
    symbol: Symbol,
    ident: &str,
    effect_tag_name: TagName,
    var_store: &mut VarStore,
    annotation: Annotation,
) -> (def: Def)
    requires
        symbols.arguments.len() == annotation@.typ.arity(),
        old(var_store)@ + host_exposed_vars(annotation@.typ) <= u32::MAX,
    ensures
        def@ == host_exposed_def(
            symbol,
            ident@,
            effect_tag_name@,
            annotation@,
            symbols.arguments@,
            symbols.effect_closure,
            old(var_store)@,
        ),
        final(var_store)@ == old(var_store)@ + host_exposed_vars(annotation@.typ),
        expr_is_fresh(def@.loc_expr.value, old(var_store)@, final(var_store)@),
        var_within(def@.expr_var, old(var_store)@, final(var_store)@),
{
    proof {
        var_store.lemma_bounds();
        crate::fresh_laws::host_exposed_body_is_fresh(
            symbol,
            ident@,
            effect_tag_name@,
            annotation@.typ,
            symbols.arguments@,
            symbols.effect_closure,
            var_store@,
        );
        reveal(expr_is_fresh);
    }
    let ghost base = old(var_store)@;
    let expr_var = var_store.fresh();

    let mut arguments: Vec<(Variable, Loc<Pattern>)> = Vec::new();
    let mut linked_symbol_arguments: Vec<(Variable, Expr)> = Vec::new();
    let mut captured_symbols: Vec<(Symbol, Variable)> = Vec::new();
    assert(located_patterns_view(arguments@) =~= Seq::empty());
    assert(exprs_view(linked_symbol_arguments@) =~= Seq::empty());

    let def_body = if annotation.typ.is_function() {
        let n = symbols.arguments.len();
        let mut i: usize = 0;
        while i < n
            invariant
                i <= n,
                n == symbols.arguments.len(),
                var_store@ == base + 1 + i,
                base + n + HOST_EXPOSED_FUNCTION_VARS <= u32::MAX,
                located_patterns_view(arguments@) == argument_patterns(
                    symbols.arguments@.take(i as int),
                    base + 1,
                ),
                captured_symbols@ == captured_at(symbols.arguments@.take(i as int), base + 1),
                exprs_view(linked_symbol_arguments@) == argument_exprs(
                    symbols.arguments@.take(i as int),
                    base + 1,
                ),
            decreases n - i,
        {
            let arg_symbol = symbols.arguments[i];

            let arg_var = var_store.fresh();

            push_pattern(&mut arguments, arg_var, Pattern::identifier(arg_symbol));

            captured_symbols.push((arg_symbol, arg_var));
            push_expr(&mut linked_symbol_arguments, arg_var, Expr::var(arg_symbol));
            proof {
                let next = symbols.arguments@.take(i + 1);
                assert(located_patterns_view(arguments@) =~= argument_patterns(next, base + 1));
                assert(captured_symbols@ =~= captured_at(next, base + 1));
                assert(exprs_view(linked_symbol_arguments@) =~= argument_exprs(next, base + 1));
            }
            i += 1;
        }
        assert(symbols.arguments@.take(i as int) =~= symbols.arguments@);

        let foreign_symbol_name = crate::naming::make_foreign_symbol_name(ident);
        let low_level_call = Expr::foreign_call(
            foreign_symbol_name,
            linked_symbol_arguments,
            var_store.fresh(),
        );

        let effect_closure_symbol = symbols.effect_closure;

        let function_type = var_store.fresh();
        let closure_type = var_store.fresh();
        let closure_ext_var = var_store.fresh();
        let return_type = var_store.fresh();
        let arg_var = var_store.fresh();
        let effect_closure = Expr::closure(
            ClosureData {
                function_type,
                closure_type,
                closure_ext_var,
                return_type,
                name: effect_closure_symbol,
                captured_symbols,
                recursive: Recursive::NotRecursive,
                arguments: one_pattern(arg_var, empty_record_pattern(var_store)),
                loc_body: Box::new(Loc::at_zero(low_level_call)),
            },
        );

        let variant_var = var_store.fresh();
        let ext_var = var_store.fresh();
        let body = Expr::tag(
            variant_var,
            ext_var,
            effect_tag_name,
            one_expr(var_store.fresh(), effect_closure),
        );

        Expr::closure(
            ClosureData {
                function_type: var_store.fresh(),
                closure_type: var_store.fresh(),
                closure_ext_var: var_store.fresh(),
                return_type: var_store.fresh(),
                name: symbol,
                captured_symbols: Vec::new(),
                recursive: Recursive::NotRecursive,
                arguments,
                loc_body: Box::new(Loc::at_zero(body)),
            },
        )
    } else {
        // not a function

        let foreign_symbol_name = crate::naming::make_foreign_symbol_name(ident);
        let low_level_call = Expr::foreign_call(
            foreign_symbol_name,
            linked_symbol_arguments,
            var_store.fresh(),
        );

        let effect_closure_symbol = symbols.effect_closure;

        let empty_record_pattern = empty_record_pattern(var_store);

        let function_type = var_store.fresh();
        let closure_type = var_store.fresh();
        let closure_ext_var = var_store.fresh();
        let return_type = var_store.fresh();
        let effect_closure = Expr::closure(
            ClosureData {
                function_type,
                closure_type,
                closure_ext_var,
                return_type,
                name: effect_closure_symbol,
                captured_symbols,
                recursive: Recursive::NotRecursive,
                arguments: one_pattern(var_store.fresh(), empty_record_pattern),
                loc_body: Box::new(Loc::at_zero(low_level_call)),
            },
        );

        let variant_var = var_store.fresh();
        let ext_var = var_store.fresh();
        Expr::tag(variant_var, ext_var, effect_tag_name, one_expr(var_store.fresh(), effect_closure))
    };

    let def_annotation = DefAnnotation {
        signature: annotation.typ,
        introduced_variables: annotation.introduced_variables,
        aliases: annotation.aliases,
        region: Region::zero(),
    };

    make_named_def(symbol, expr_var, def_body, def_annotation)
}

/// The symbols that the scope introduces for the four builtin functions,
/// under the names that `effect_idents` gives.
#[derive(Clone, Copy, PartialEq, Eq, Structural, Debug)]
pub struct EffectSymbols {
    pub after: AfterSymbols,
    pub map: MapSymbols,
    pub always: AlwaysSymbols,
    pub forever: ForeverSymbols,
}

/// The number of variables that `build_effect_builtins` draws.
pub const EFFECT_BUILTINS_VARS: u32 = 144;

/// The model of a list of names.
pub open spec fn idents_view(s: Seq<String>) -> Seq<Seq<char>> {
    Seq::new(s.len(), |i: int| s[i]@)
}

/// The names to introduce into the scope for the four builtin functions, in
/// the order in which `EffectSymbols::from_introduced` expects their symbols.
pub open spec fn effect_ident_names() -> Seq<Seq<char>> {
    seq![
        "effect_after_thunk"@,
        "effect_after_toEffect"@,
        "after"@,
        "effect_after_inner"@,
        "effect_after_thunk2"@,
        "effect_map_thunk"@,
        "effect_map_mapper"@,
        "map"@,
        "effect_map_inner"@,
        "effect_always_value"@,
        "effect_always_inner"@,
        "always"@,
        "forever"@,
        "effect"@,
        "forever_inner"@,
        "thunk1"@,
        "thunk2"@,
    ]
}

/// The names to introduce into the scope before `build_effect_builtins`.
pub fn effect_idents() -> (idents: Vec<String>)
    ensures
        idents_view(idents@) == effect_ident_names(),
{
    let idents = vec![
        String::from_str("effect_after_thunk"),
        String::from_str("effect_after_toEffect"),
        String::from_str("after"),
        String::from_str("effect_after_inner"),
        String::from_str("effect_after_thunk2"),
        String::from_str("effect_map_thunk"),
        String::from_str("effect_map_mapper"),
        String::from_str("map"),
        String::from_str("effect_map_inner"),
        String::from_str("effect_always_value"),
        String::from_str("effect_always_inner"),
        String::from_str("always"),
        String::from_str("forever"),
        String::from_str("effect"),
        String::from_str("forever_inner"),
        String::from_str("thunk1"),
        String::from_str("thunk2"),
    ];
    assert(idents_view(idents@) =~= effect_ident_names());
    idents
}

impl EffectSymbols {
    /// The symbols at the places of their names in `effect_ident_names`.
    pub open spec fn of(introduced: Seq<Symbol>) -> EffectSymbols {
        EffectSymbols {
            after: AfterSymbols {
                thunk: introduced[0],
                to_effect: introduced[1],
                after: introduced[2],
                inner: introduced[3],
                thunk2: introduced[4],
            },
            map: MapSymbols {
                thunk: introduced[5],
                mapper: introduced[6],
                map: introduced[7],
                inner: introduced[8],
            },
            always: AlwaysSymbols {
                value: introduced[9],
                inner: introduced[10],
                always: introduced[11],
            },
            forever: ForeverSymbols {
                forever: introduced[12],
                effect: introduced[13],
                inner: introduced[14],
                thunk1: introduced[15],
                thunk2: introduced[16],
            },
        }
    }

    /// Takes the symbols that the scope gave for the names of
    /// `effect_idents`, in that order. `None` when their number is wrong.
    pub fn from_introduced(introduced: &Vec<Symbol>) -> (symbols: Option<EffectSymbols>)
        ensures
            symbols == if introduced.len() == effect_ident_names().len() {
                Some(EffectSymbols::of(introduced@))
            } else {
                None
            },
    {
        if introduced.len() != 17 {
            return None;
        }
        Some(
            EffectSymbols {
                after: AfterSymbols {
                    thunk: introduced[0],
                    to_effect: introduced[1],
                    after: introduced[2],
                    inner: introduced[3],
                    thunk2: introduced[4],
                },
                map: MapSymbols {
                    thunk: introduced[5],
                    mapper: introduced[6],
                    map: introduced[7],
                    inner: introduced[8],
                },
                always: AlwaysSymbols {
                    value: introduced[9],
                    inner: introduced[10],
                    always: introduced[11],
                },
                forever: ForeverSymbols {
                    forever: introduced[12],
                    effect: introduced[13],
                    inner: introduced[14],
                    thunk1: introduced[15],
                    thunk2: introduced[16],
                },
            },
        )
    }
}

/// A list of symbols with `symbol` in it: the list itself where it holds the
/// symbol already, else the list with the symbol at its end.
pub open spec fn with_symbol(symbols: Seq<Symbol>, symbol: Symbol) -> Seq<Symbol> {
    if symbols.contains(symbol) {
        symbols
    } else {
        symbols.push(symbol)
    }
}

/// Adds `symbol` to a list that is kept free of repetitions.
pub fn insert_symbol(symbols: &mut Vec<Symbol>, symbol: Symbol)
    ensures
        final(symbols)@ == with_symbol(old(symbols)@, symbol),
        final(symbols)@.contains(symbol),
        old(symbols)@.no_duplicates() ==> final(symbols)@.no_duplicates(),
{
    let mut i: usize = 0;
    while i < symbols.len()
        invariant
            i <= symbols.len(),
            *symbols == *old(symbols),
            forall|j: int| 0 <= j < i ==> symbols[j] != symbol,
        decreases symbols.len() - i,
    {
        if symbols[i] == symbol {
            return ;
        }
        i += 1;
    }
    symbols.push(symbol);
    assert(symbols@[symbols.len() - 1] == symbol);
}

/// The declarations that `build_effect_builtins` adds when the store stands
/// at `base`: `after`, `map` and `always` each on its own, then `forever`
/// as a definition that refers to itself.
pub open spec fn effect_builtin_declarations(s: EffectSymbols, effect_symbol: Symbol, base: int) -> Seq<
    DeclarationModel,
> {
    let tag = TagNameModel::Private(effect_symbol);
    seq![
        DeclarationModel::Declare(after_def(s.after, effect_symbol, tag, base)),
        DeclarationModel::Declare(map_def(s.map, effect_symbol, tag, base + AFTER_VARS)),
        DeclarationModel::Declare(
            always_def(s.always, effect_symbol, tag, base + AFTER_VARS + MAP_VARS),
        ),
        DeclarationModel::DeclareRec(
            seq![
                forever_def(
                    s.forever,
                    effect_symbol,
                    tag,
                    base + AFTER_VARS + MAP_VARS + ALWAYS_VARS,
                ),
            ],
        ),
    ]
}

/// The exposed symbols after `build_effect_builtins`: those before it, with
/// the four functions.
pub open spec fn effect_builtin_exposed(exposed: Seq<Symbol>, s: EffectSymbols) -> Seq<Symbol> {
    with_symbol(
        with_symbol(with_symbol(with_symbol(exposed, s.after.after), s.map.map), s.always.always),
        s.forever.forever,
    )
}

fn push_declaration(declarations: &mut Vec<Declaration>, declaration: Declaration)
    ensures
        declarations_view(final(declarations)@) == declarations_view(old(declarations)@).push(
            declaration@,
        ),
{
    declarations.push(declaration);
    assert(declarations_view(declarations@) =~= declarations_view(old(declarations)@).push(
        declaration@,
    ));
}

/// Builds the functions that every effect type comes with and adds them to
/// the module: their names to `exposed_symbols`, their definitions to
/// `declarations`. The tag of the effect type is the private tag named by
/// `effect_symbol`.
///
/// Of the four only `forever` refers to itself, so it alone is declared as
/// recursive.
pub fn build_effect_builtins(
    symbols: &EffectSymbols,
    effect_symbol: Symbol,
    var_store: &mut VarStore,
    exposed_symbols: &mut Vec<Symbol>,
    declarations: &mut Vec<Declaration>,
)
    requires
        old(var_store)@ + EFFECT_BUILTINS_VARS <= u32::MAX,
    ensures
        final(var_store)@ == old(var_store)@ + EFFECT_BUILTINS_VARS,
        final(exposed_symbols)@ == effect_builtin_exposed(old(exposed_symbols)@, *symbols),
        old(exposed_symbols)@.no_duplicates() ==> final(exposed_symbols)@.no_duplicates(),
        declarations_view(final(declarations)@) == declarations_view(old(declarations)@)
            + effect_builtin_declarations(*symbols, effect_symbol, old(var_store)@),
{
    let (symbol, def) = build_effect_after(
        &symbols.after,
        effect_symbol,
        TagName::Private(effect_symbol),
        var_store,
    );
    insert_symbol(exposed_symbols, symbol);
    push_declaration(declarations, Declaration::Declare(def));

    let (symbol, def) = build_effect_map(
        &symbols.map,
        effect_symbol,
        TagName::Private(effect_symbol),
        var_store,
    );
    insert_symbol(exposed_symbols, symbol);
    push_declaration(declarations, Declaration::Declare(def));

    let (symbol, def) = build_effect_always(
        &symbols.always,
        effect_symbol,
        TagName::Private(effect_symbol),
        var_store,
    );
    insert_symbol(exposed_symbols, symbol);
    push_declaration(declarations, Declaration::Declare(def));

    let (symbol, def) = build_effect_forever(
        &symbols.forever,
        effect_symbol,
        TagName::Private(effect_symbol),
        var_store,
    );
    insert_symbol(exposed_symbols, symbol);
    let ghost forever = def@;
    let defs = vec![def];
    assert(defs_view(defs@) =~= seq![forever]);
    push_declaration(declarations, Declaration::DeclareRec(defs));

    assert(declarations_view(declarations@) =~= declarations_view(old(declarations)@)
        + effect_builtin_declarations(*symbols, effect_symbol, old(var_store)@));
}

/// The names to introduce into the scope for a value that the host exposes
/// under `ident` with the declared type `typ`: one for each argument, then
/// one for the closure around the host call.
pub open spec fn host_exposed_ident_names(ident: Seq<char>, typ: TypeModel) -> Seq<Seq<char>> {
    Seq::new(typ.arity(), |i: int| crate::naming::closure_arg_name(ident, i as nat)).push(
        crate::naming::effect_closure_name(ident),
    )
}

/// The names to introduce into the scope before `build_host_exposed_def`.
pub fn host_exposed_idents(ident: &str, annotation: &Annotation) -> (idents: Vec<String>)
    ensures
        idents_view(idents@) == host_exposed_ident_names(ident@, annotation@.typ),
{
    let n = annotation.typ.arity();
    let mut idents: Vec<String> = Vec::new();
    let mut i: usize = 0;
    while i < n
        invariant
            i <= n,
            idents.len() == i,
            forall|j: int|
                0 <= j < i ==> (#[trigger] idents[j])@ == crate::naming::closure_arg_name(
                    ident@,
                    j as nat,
                ),
        decreases n - i,
    {
        idents.push(crate::naming::make_closure_arg_name(ident, i));
        i += 1;
    }
    idents.push(crate::naming::make_effect_closure_name(ident));
    assert(idents_view(idents@) =~= host_exposed_ident_names(ident@, annotation@.typ));
    idents
}

impl HostExposedSymbols {
    /// Takes the symbols that the scope gave for the names of
    /// `host_exposed_idents`, in that order: the last is the closure's, the
    /// others are the arguments'. `None` when there is none.
    pub fn from_introduced(introduced: Vec<Symbol>) -> (symbols: Option<HostExposedSymbols>)
        ensures
            match symbols {
                Some(s) => introduced.len() > 0 && s.arguments@ == introduced@.drop_last()
                    && s.effect_closure == introduced@.last(),
                None => introduced.len() == 0,
            },
    {
        let mut arguments = introduced;
        match arguments.pop() {
            Some(effect_closure) => Some(HostExposedSymbols { arguments, effect_closure }),
            None => None,
        }
    }
}

} // verus!
