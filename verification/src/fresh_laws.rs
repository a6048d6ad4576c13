//! Every definition that the effect module builds is made of the variables
//! it drew from the store, and of no other.

use crate::effect_module::{
    after_body_at, after_call_at, after_def, after_signature, always_def, always_introduced,
    always_signature, argument_exprs, argument_patterns, binary_introduced, call_with,
    captured_at, effect_actual, effect_alias, effect_pattern, effect_tag,
    empty_record_pattern_at, force_effect_at, forever_body_at,
    forever_def, forever_inner_body_at, forever_introduced, forever_signature, function_closure,
    host_call, host_exposed_body, host_exposed_vars, map_def, map_signature, named_def, plain_def,
    signature_annotation, thunk_closure, wrap_in_effect_thunk_at, AfterSymbols, AlwaysSymbols,
    ForeverSymbols, MapSymbols, AFTER_VARS, ALWAYS_VARS, FOREVER_VARS, MAP_VARS,
};
use crate::expr::{DefAnnotationModel, ExprModel, IntroducedVariablesModel, Recursive};
use crate::ident::{var_at, Loc, Symbol, TagNameModel, Variable};
use crate::pattern::{empty_record_pattern, PatternModel};
use crate::types::TypeModel;
use crate::variables::{
    annotation_within, def_body_within, def_within, expr_within, exprs_within, fields_within,
    introduced_within, pattern_within, patterns_within, symbol_vars_within, tags_within,
    type_within, types_within, var_within, vars_within,
};
use vstd::prelude::*;

verus! {

/// The store can hand out the variables from `base` up to `base + count`.
pub open spec fn store_has(base: int, count: int) -> bool {
    0 <= base && base + count <= u32::MAX
}

proof fn lemma_call(
    fn_var: Variable,
    callee: ExprModel,
    closure_var: Variable,
    ret_var: Variable,
    arg_var: Variable,
    arg: ExprModel,
    lo: int,
    hi: int,
)
    requires
        var_within(fn_var, lo, hi),
        var_within(closure_var, lo, hi),
        var_within(ret_var, lo, hi),
        var_within(arg_var, lo, hi),
        expr_within(callee, lo, hi),
        expr_within(arg, lo, hi),
    ensures
        expr_within(call_with(fn_var, callee, closure_var, ret_var, arg_var, arg), lo, hi),
{
    let arguments = seq![(arg_var, Loc::at_zero(arg))];
    assert(exprs_within(arguments, lo, hi)) by {
        assert(arguments[0].1.value == arg);
    }
}

proof fn lemma_effect_pattern(
    whole_var: Variable,
    ext_var: Variable,
    tag: TagNameModel,
    thunk_var: Variable,
    thunk: Symbol,
    lo: int,
    hi: int,
)
    requires
        var_within(whole_var, lo, hi),
        var_within(ext_var, lo, hi),
        var_within(thunk_var, lo, hi),
    ensures
        pattern_within(effect_pattern(whole_var, ext_var, tag, thunk_var, thunk), lo, hi),
{
    let arguments = seq![(thunk_var, Loc::at_zero(PatternModel::Identifier(thunk)))];
    assert(patterns_within(arguments, lo, hi)) by {
        assert(arguments[0].1.value == PatternModel::Identifier(thunk));
        assert(pattern_within(PatternModel::Identifier(thunk), lo, hi));
    }
}

proof fn lemma_one_pattern(var: Variable, pattern: PatternModel, lo: int, hi: int)
    requires
        var_within(var, lo, hi),
        pattern_within(pattern, lo, hi),
    ensures
        patterns_within(seq![(var, Loc::at_zero(pattern))], lo, hi),
{
    let patterns = seq![(var, Loc::at_zero(pattern))];
    assert(patterns[0].1.value == pattern);
}

proof fn lemma_two_patterns(
    first_var: Variable,
    first: PatternModel,
    second_var: Variable,
    second: PatternModel,
    lo: int,
    hi: int,
)
    requires
        var_within(first_var, lo, hi),
        pattern_within(first, lo, hi),
        var_within(second_var, lo, hi),
        pattern_within(second, lo, hi),
    ensures
        patterns_within(
            seq![(first_var, Loc::at_zero(first)), (second_var, Loc::at_zero(second))],
            lo,
            hi,
        ),
{
    let patterns = seq![(first_var, Loc::at_zero(first)), (second_var, Loc::at_zero(second))];
    assert(patterns[0].1.value == first);
    assert(patterns[1].1.value == second);
}

proof fn lemma_thunk(
    arg_var: Variable,
    whole_var: Variable,
    ext_var: Variable,
    function_type: Variable,
    closure_type: Variable,
    closure_ext_var: Variable,
    return_type: Variable,
    name: Symbol,
    captured: Seq<(Symbol, Variable)>,
    body: ExprModel,
    lo: int,
    hi: int,
)
    requires
        var_within(arg_var, lo, hi),
        var_within(whole_var, lo, hi),
        var_within(ext_var, lo, hi),
        var_within(function_type, lo, hi),
        var_within(closure_type, lo, hi),
        var_within(closure_ext_var, lo, hi),
        var_within(return_type, lo, hi),
        symbol_vars_within(captured, lo, hi),
        expr_within(body, lo, hi),
    ensures
        expr_within(
            thunk_closure(
                arg_var,
                empty_record_pattern(whole_var, ext_var),
                function_type,
                closure_type,
                closure_ext_var,
                return_type,
                name,
                captured,
                body,
            ),
            lo,
            hi,
        ),
{
    assert(pattern_within(empty_record_pattern(whole_var, ext_var), lo, hi));
    lemma_one_pattern(arg_var, empty_record_pattern(whole_var, ext_var), lo, hi);
}

proof fn lemma_effect_tag(
    variant_var: Variable,
    ext_var: Variable,
    tag: TagNameModel,
    closure_var: Variable,
    closure: ExprModel,
    lo: int,
    hi: int,
)
    requires
        var_within(variant_var, lo, hi),
        var_within(ext_var, lo, hi),
        var_within(closure_var, lo, hi),
        expr_within(closure, lo, hi),
    ensures
        expr_within(effect_tag(variant_var, ext_var, tag, closure_var, closure), lo, hi),
{
    let arguments = seq![(closure_var, Loc::at_zero(closure))];
    assert(exprs_within(arguments, lo, hi)) by {
        assert(arguments[0].1.value == closure);
    }
}

proof fn lemma_function(
    function_type: Variable,
    closure_type: Variable,
    closure_ext_var: Variable,
    return_type: Variable,
    name: Symbol,
    recursive: Recursive,
    arguments: Seq<(Variable, Loc<PatternModel>)>,
    body: ExprModel,
    lo: int,
    hi: int,
)
    requires
        var_within(function_type, lo, hi),
        var_within(closure_type, lo, hi),
        var_within(closure_ext_var, lo, hi),
        var_within(return_type, lo, hi),
        patterns_within(arguments, lo, hi),
        expr_within(body, lo, hi),
    ensures
        expr_within(
            function_closure(
                function_type,
                closure_type,
                closure_ext_var,
                return_type,
                name,
                recursive,
                arguments,
                body,
            ),
            lo,
            hi,
        ),
{
}

proof fn lemma_effect_alias(
    effect_symbol: Symbol,
    tag: TagNameModel,
    a_name: Seq<char>,
    a_var: Variable,
    a_type: TypeModel,
    closure_var: Variable,
    lo: int,
    hi: int,
)
    requires
        var_within(a_var, lo, hi),
        var_within(closure_var, lo, hi),
        type_within(a_type, lo, hi),
    ensures
        type_within(effect_alias(effect_symbol, tag, a_name, a_var, a_type, closure_var), lo, hi),
        type_within(effect_actual(tag, closure_var, a_type), lo, hi),
{
    let thunk_args = seq![TypeModel::EmptyRec];
    assert(types_within(thunk_args, lo, hi)) by {
        assert(type_within(TypeModel::EmptyRec, lo, hi));
    }
    let thunk = TypeModel::Function(
        thunk_args,
        Box::new(TypeModel::Variable(closure_var)),
        Box::new(a_type),
    );
    assert(type_within(TypeModel::Variable(closure_var), lo, hi));
    assert(type_within(thunk, lo, hi));
    let payload = seq![thunk];
    assert(types_within(payload, lo, hi));
    let tags = seq![(tag, payload)];
    assert(tags_within(tags, lo, hi)) by {
        assert(tags[0].1 == payload);
    }
    assert(type_within(TypeModel::EmptyTagUnion, lo, hi));
    let actual = effect_actual(tag, closure_var, a_type);
    assert(type_within(actual, lo, hi));
    let type_arguments = seq![(a_name, TypeModel::Variable(a_var))];
    assert(fields_within(type_arguments, lo, hi)) by {
        assert(type_within(TypeModel::Variable(a_var), lo, hi));
    }
    let lambda_sets = seq![TypeModel::Variable(closure_var)];
    assert(types_within(lambda_sets, lo, hi));
}

proof fn lemma_arrow(args: Seq<TypeModel>, closure_var: Variable, ret: TypeModel, lo: int, hi: int)
    requires
        types_within(args, lo, hi),
        var_within(closure_var, lo, hi),
        type_within(ret, lo, hi),
    ensures
        type_within(
            TypeModel::Function(args, Box::new(TypeModel::Variable(closure_var)), Box::new(ret)),
            lo,
            hi,
        ),
{
    assert(type_within(TypeModel::Variable(closure_var), lo, hi));
}

proof fn lemma_named_def(
    symbol: Symbol,
    expr_var: Variable,
    expr: ExprModel,
    annotation: DefAnnotationModel,
    lo: int,
    hi: int,
)
    requires
        var_within(expr_var, lo, hi),
        expr_within(expr, lo, hi),
    ensures
        def_body_within(named_def(symbol, expr_var, expr, annotation), lo, hi),
        annotation_within(annotation, lo, hi) ==> def_within(
            named_def(symbol, expr_var, expr, annotation),
            lo,
            hi,
        ),
{
    let def = named_def(symbol, expr_var, expr, annotation);
    assert(pattern_within(PatternModel::Identifier(symbol), lo, hi));
    assert(def.pattern_vars[0].1 == expr_var);
    assert(def_body_within(def, lo, hi));
}

proof fn lemma_plain_def(pattern: PatternModel, expr: ExprModel, expr_var: Variable, lo: int, hi: int)
    requires
        pattern_within(pattern, lo, hi),
        expr_within(expr, lo, hi),
        var_within(expr_var, lo, hi),
    ensures
        def_within(plain_def(pattern, expr, expr_var), lo, hi),
{
    assert(def_body_within(plain_def(pattern, expr, expr_var), lo, hi));
}

proof fn lemma_let(
    pattern: PatternModel,
    expr: ExprModel,
    expr_var: Variable,
    body: ExprModel,
    var: Variable,
    lo: int,
    hi: int,
)
    requires
        pattern_within(pattern, lo, hi),
        expr_within(expr, lo, hi),
        var_within(expr_var, lo, hi),
        expr_within(body, lo, hi),
        var_within(var, lo, hi),
    ensures
        expr_within(
            ExprModel::LetNonRec(
                Box::new(plain_def(pattern, expr, expr_var)),
                Box::new(Loc::at_zero(body)),
                var,
            ),
            lo,
            hi,
        ),
{
    lemma_plain_def(pattern, expr, expr_var, lo, hi);
}

/// What `force_effect` builds around an expression is within the range it
/// drew from, if the expression is.
pub proof fn force_effect_is_fresh(
    effect: ExprModel,
    tag: TagNameModel,
    thunk_symbol: Symbol,
    base: int,
    lo: int,
    hi: int,
)
    requires
        store_has(base, 9),
        lo <= base,
        base + 9 <= hi,
        expr_within(effect, lo, hi),
    ensures
        expr_within(force_effect_at(effect, tag, thunk_symbol, base), lo, hi),
{
    let v = |k: int| var_at(base, k);
    lemma_effect_pattern(v(0), v(1), tag, v(2), thunk_symbol, lo, hi);
    assert(expr_within(ExprModel::Var(thunk_symbol), lo, hi));
    assert(expr_within(ExprModel::EmptyRecord, lo, hi));
    lemma_call(
        v(5),
        ExprModel::Var(thunk_symbol),
        v(6),
        v(4),
        v(7),
        ExprModel::EmptyRecord,
        lo,
        hi,
    );
    lemma_let(
        effect_pattern(v(0), v(1), tag, v(2), thunk_symbol),
        effect,
        v(3),
        call_with(v(5), ExprModel::Var(thunk_symbol), v(6), v(4), v(7), ExprModel::EmptyRecord),
        v(8),
        lo,
        hi,
    );
}

/// What `wrap_in_effect_thunk` builds around an expression is within the
/// range it drew from, if the expression is.
pub proof fn wrap_in_effect_thunk_is_fresh(
    body: ExprModel,
    tag: TagNameModel,
    closure_name: Symbol,
    captured: Seq<Symbol>,
    base: int,
    lo: int,
    hi: int,
)
    requires
        store_has(base, captured.len() as int + 10),
        lo <= base,
        base + captured.len() + 10 <= hi,
        expr_within(body, lo, hi),
    ensures
        expr_within(wrap_in_effect_thunk_at(body, tag, closure_name, captured, base), lo, hi),
{
    let n = captured.len() as int;
    let v = |k: int| var_at(base, n + k);
    assert(symbol_vars_within(captured_at(captured, base), lo, hi));
    assert(empty_record_pattern_at(base + n + 1) == empty_record_pattern(v(1), v(2)));
    lemma_thunk(
        v(0),
        v(1),
        v(2),
        v(3),
        v(4),
        v(5),
        v(6),
        closure_name,
        captured_at(captured, base),
        body,
        lo,
        hi,
    );
    lemma_effect_tag(
        v(7),
        v(8),
        tag,
        v(9),
        thunk_closure(
            v(0),
            empty_record_pattern(v(1), v(2)),
            v(3),
            v(4),
            v(5),
            v(6),
            closure_name,
            captured_at(captured, base),
            body,
        ),
        lo,
        hi,
    );
}

proof fn lemma_binary_introduced(base: int, lo: int, hi: int)
    requires
        store_has(base, 6),
        lo <= base,
        base + 6 <= hi,
    ensures
        introduced_within(binary_introduced(base), lo, hi),
{
    let introduced = binary_introduced(base);
    assert(introduced.wildcards =~= seq![
        var_at(base, 2),
        var_at(base, 3),
        var_at(base, 4),
        var_at(base, 5),
    ]);
    assert(introduced.named =~= seq![("a"@, var_at(base, 0)), ("b"@, var_at(base, 1))]);
    assert(introduced.host_exposed_aliases =~= Seq::empty());
    assert(vars_within(introduced.wildcards, lo, hi));
}

proof fn lemma_signature(signature: TypeModel, introduced: IntroducedVariablesModel, lo: int, hi: int)
    requires
        type_within(signature, lo, hi),
        introduced_within(introduced, lo, hi),
    ensures
        annotation_within(signature_annotation(signature, introduced), lo, hi),
{
}

/// The definition of `always` is made of the variables that
/// `build_effect_always` drew, and of no other.
pub proof fn always_is_fresh(s: AlwaysSymbols, effect_symbol: Symbol, tag: TagNameModel, base: int)
    requires
        store_has(base, ALWAYS_VARS as int),
    ensures
        def_within(always_def(s, effect_symbol, tag, base), base, base + ALWAYS_VARS),
{
    let lo = base;
    let hi = base + ALWAYS_VARS;
    let v = |k: int| var_at(base, k);
    let captured = seq![(s.value, v(7))];
    assert(symbol_vars_within(captured, lo, hi));
    assert(expr_within(ExprModel::Var(s.value), lo, hi));
    assert(empty_record_pattern_at(base + 1) == empty_record_pattern(v(1), v(2)));
    lemma_thunk(
        v(0),
        v(1),
        v(2),
        v(3),
        v(4),
        v(5),
        v(6),
        s.inner,
        captured,
        ExprModel::Var(s.value),
        lo,
        hi,
    );
    let const_closure = thunk_closure(
        v(0),
        empty_record_pattern(v(1), v(2)),
        v(3),
        v(4),
        v(5),
        v(6),
        s.inner,
        captured,
        ExprModel::Var(s.value),
    );
    lemma_effect_tag(v(8), v(9), tag, v(10), const_closure, lo, hi);
    assert(pattern_within(PatternModel::Identifier(s.value), lo, hi));
    lemma_one_pattern(v(11), PatternModel::Identifier(s.value), lo, hi);
    lemma_function(
        v(12),
        v(13),
        v(14),
        v(15),
        s.always,
        Recursive::NotRecursive,
        seq![(v(11), Loc::at_zero(PatternModel::Identifier(s.value)))],
        effect_tag(v(8), v(9), tag, v(10), const_closure),
        lo,
        hi,
    );

    let a = var_at(base + 16, 0);
    assert(type_within(TypeModel::Variable(a), lo, hi));
    lemma_effect_alias(
        effect_symbol,
        tag,
        "a"@,
        a,
        TypeModel::Variable(a),
        var_at(base + 16, 1),
        lo,
        hi,
    );
    assert(types_within(seq![TypeModel::Variable(a)], lo, hi));
    lemma_arrow(
        seq![TypeModel::Variable(a)],
        var_at(base + 16, 2),
        effect_alias(effect_symbol, tag, "a"@, a, TypeModel::Variable(a), var_at(base + 16, 1)),
        lo,
        hi,
    );
    let introduced = always_introduced(base + 16);
    assert(introduced.wildcards =~= seq![var_at(base + 16, 1), var_at(base + 16, 2)]);
    assert(introduced.named =~= seq![("a"@, a)]);
    assert(introduced.host_exposed_aliases =~= Seq::empty());
    assert(vars_within(introduced.wildcards, lo, hi));
    lemma_signature(always_signature(effect_symbol, tag, base + 16), introduced, lo, hi);
    lemma_named_def(
        s.always,
        v(12),
        function_closure(
            v(12),
            v(13),
            v(14),
            v(15),
            s.always,
            Recursive::NotRecursive,
            seq![(v(11), Loc::at_zero(PatternModel::Identifier(s.value)))],
            effect_tag(v(8), v(9), tag, v(10), const_closure),
        ),
        signature_annotation(always_signature(effect_symbol, tag, base + 16), introduced),
        lo,
        hi,
    );
}

/// The signatures over `a` and `b` that end in `Effect b`: what the two
/// effect types are made of is within the range.
proof fn lemma_two_effects(effect_symbol: Symbol, tag: TagNameModel, base: int, lo: int, hi: int)
    requires
        store_has(base, 4),
        lo <= base,
        base + 4 <= hi,
    ensures
        ({
            let a = var_at(base, 0);
            let b = var_at(base, 1);
            &&& type_within(TypeModel::Variable(a), lo, hi)
            &&& type_within(TypeModel::Variable(b), lo, hi)
            &&& type_within(
                effect_alias(effect_symbol, tag, "a"@, a, TypeModel::Variable(a), var_at(base, 2)),
                lo,
                hi,
            )
            &&& type_within(
                effect_alias(effect_symbol, tag, "b"@, b, TypeModel::Variable(b), var_at(base, 3)),
                lo,
                hi,
            )
        }),
{
    let a = var_at(base, 0);
    let b = var_at(base, 1);
    assert(type_within(TypeModel::Variable(a), lo, hi));
    assert(type_within(TypeModel::Variable(b), lo, hi));
    lemma_effect_alias(effect_symbol, tag, "a"@, a, TypeModel::Variable(a), var_at(base, 2), lo, hi);
    lemma_effect_alias(effect_symbol, tag, "b"@, b, TypeModel::Variable(b), var_at(base, 3), lo, hi);
}

/// The definition of `map` is made of the variables that `build_effect_map`
/// drew, and of no other.
pub proof fn map_is_fresh(s: MapSymbols, effect_symbol: Symbol, tag: TagNameModel, base: int)
    requires
        store_has(base, MAP_VARS as int),
    ensures
        def_within(map_def(s, effect_symbol, tag, base), base, base + MAP_VARS),
{
    let lo = base;
    let hi = base + MAP_VARS;
    let v = |k: int| var_at(base, k);
    assert(expr_within(ExprModel::Var(s.thunk), lo, hi));
    assert(expr_within(ExprModel::Var(s.mapper), lo, hi));
    assert(expr_within(ExprModel::EmptyRecord, lo, hi));
    lemma_call(v(0), ExprModel::Var(s.thunk), v(1), v(2), v(3), ExprModel::EmptyRecord, lo, hi);
    let force_thunk_call = call_with(
        v(0),
        ExprModel::Var(s.thunk),
        v(1),
        v(2),
        v(3),
        ExprModel::EmptyRecord,
    );
    lemma_call(v(4), ExprModel::Var(s.mapper), v(5), v(6), v(7), force_thunk_call, lo, hi);
    let mapper_call = call_with(v(4), ExprModel::Var(s.mapper), v(5), v(6), v(7), force_thunk_call);
    let captured = seq![(s.thunk, v(15)), (s.mapper, v(16))];
    assert(symbol_vars_within(captured, lo, hi));
    assert(empty_record_pattern_at(base + 9) == empty_record_pattern(v(9), v(10)));
    lemma_thunk(
        v(8),
        v(9),
        v(10),
        v(11),
        v(12),
        v(13),
        v(14),
        s.inner,
        captured,
        mapper_call,
        lo,
        hi,
    );
    let inner_closure = thunk_closure(
        v(8),
        empty_record_pattern(v(9), v(10)),
        v(11),
        v(12),
        v(13),
        v(14),
        s.inner,
        captured,
        mapper_call,
    );
    lemma_effect_pattern(v(18), v(19), tag, v(20), s.thunk, lo, hi);
    assert(pattern_within(PatternModel::Identifier(s.mapper), lo, hi));
    lemma_two_patterns(
        v(17),
        effect_pattern(v(18), v(19), tag, v(20), s.thunk),
        v(21),
        PatternModel::Identifier(s.mapper),
        lo,
        hi,
    );
    let arguments = seq![
        (v(17), Loc::at_zero(effect_pattern(v(18), v(19), tag, v(20), s.thunk))),
        (v(21), Loc::at_zero(PatternModel::Identifier(s.mapper))),
    ];
    lemma_effect_tag(v(22), v(23), tag, v(24), inner_closure, lo, hi);
    let body = effect_tag(v(22), v(23), tag, v(24), inner_closure);
    lemma_function(
        v(25),
        v(26),
        v(27),
        v(28),
        s.map,
        Recursive::NotRecursive,
        arguments,
        body,
        lo,
        hi,
    );

    let at = base + 29;
    let a = var_at(at, 0);
    let b = var_at(at, 1);
    lemma_two_effects(effect_symbol, tag, at, lo, hi);
    let effect_a = effect_alias(effect_symbol, tag, "a"@, a, TypeModel::Variable(a), var_at(at, 2));
    let effect_b = effect_alias(effect_symbol, tag, "b"@, b, TypeModel::Variable(b), var_at(at, 3));
    assert(types_within(seq![TypeModel::Variable(a)], lo, hi));
    lemma_arrow(seq![TypeModel::Variable(a)], var_at(at, 4), TypeModel::Variable(b), lo, hi);
    let a_to_b = TypeModel::Function(
        seq![TypeModel::Variable(a)],
        Box::new(TypeModel::Variable(var_at(at, 4))),
        Box::new(TypeModel::Variable(b)),
    );
    assert(types_within(seq![effect_a, a_to_b], lo, hi));
    lemma_arrow(seq![effect_a, a_to_b], var_at(at, 5), effect_b, lo, hi);
    lemma_binary_introduced(at, lo, hi);
    lemma_signature(map_signature(effect_symbol, tag, at), binary_introduced(at), lo, hi);
    lemma_named_def(
        s.map,
        v(25),
        function_closure(
            v(25),
            v(26),
            v(27),
            v(28),
            s.map,
            Recursive::NotRecursive,
            arguments,
            body,
        ),
        signature_annotation(map_signature(effect_symbol, tag, at), binary_introduced(at)),
        lo,
        hi,
    );
}

/// The definition of `after` is made of the variables that
/// `build_effect_after` drew, and of no other.
pub proof fn after_is_fresh(s: AfterSymbols, effect_symbol: Symbol, tag: TagNameModel, base: int)
    requires
        store_has(base, AFTER_VARS as int),
    ensures
        def_within(after_def(s, effect_symbol, tag, base), base, base + AFTER_VARS),
{
    let lo = base;
    let hi = base + AFTER_VARS;
    let v = |k: int| var_at(base, k);
    assert(expr_within(ExprModel::Var(s.thunk), lo, hi));
    assert(expr_within(ExprModel::Var(s.to_effect), lo, hi));
    assert(expr_within(ExprModel::EmptyRecord, lo, hi));
    lemma_call(v(0), ExprModel::Var(s.thunk), v(1), v(2), v(3), ExprModel::EmptyRecord, lo, hi);
    let force_thunk_call = call_with(
        v(0),
        ExprModel::Var(s.thunk),
        v(1),
        v(2),
        v(3),
        ExprModel::EmptyRecord,
    );
    lemma_call(v(4), ExprModel::Var(s.to_effect), v(5), v(6), v(7), force_thunk_call, lo, hi);
    let call = after_call_at(s, base);
    force_effect_is_fresh(call, tag, s.thunk2, base + 8, lo, hi);
    wrap_in_effect_thunk_is_fresh(
        force_effect_at(call, tag, s.thunk2, base + 8),
        tag,
        s.inner,
        seq![s.thunk, s.to_effect],
        base + 17,
        lo,
        hi,
    );
    let body = after_body_at(tag, s, base);
    lemma_effect_pattern(v(30), v(31), tag, v(32), s.thunk, lo, hi);
    assert(pattern_within(PatternModel::Identifier(s.to_effect), lo, hi));
    lemma_two_patterns(
        v(29),
        effect_pattern(v(30), v(31), tag, v(32), s.thunk),
        v(33),
        PatternModel::Identifier(s.to_effect),
        lo,
        hi,
    );
    let arguments = seq![
        (v(29), Loc::at_zero(effect_pattern(v(30), v(31), tag, v(32), s.thunk))),
        (v(33), Loc::at_zero(PatternModel::Identifier(s.to_effect))),
    ];
    lemma_function(
        v(34),
        v(35),
        v(36),
        v(37),
        s.after,
        Recursive::NotRecursive,
        arguments,
        body,
        lo,
        hi,
    );

    let at = base + 38;
    let a = var_at(at, 0);
    let b = var_at(at, 1);
    lemma_two_effects(effect_symbol, tag, at, lo, hi);
    let effect_a = effect_alias(effect_symbol, tag, "a"@, a, TypeModel::Variable(a), var_at(at, 2));
    let effect_b = effect_alias(effect_symbol, tag, "b"@, b, TypeModel::Variable(b), var_at(at, 3));
    assert(types_within(seq![TypeModel::Variable(a)], lo, hi));
    lemma_arrow(seq![TypeModel::Variable(a)], var_at(at, 4), effect_b, lo, hi);
    let a_to_effect_b = TypeModel::Function(
        seq![TypeModel::Variable(a)],
        Box::new(TypeModel::Variable(var_at(at, 4))),
        Box::new(effect_b),
    );
    assert(types_within(seq![effect_a, a_to_effect_b], lo, hi));
    lemma_arrow(seq![effect_a, a_to_effect_b], var_at(at, 5), effect_b, lo, hi);
    lemma_binary_introduced(at, lo, hi);
    lemma_signature(after_signature(effect_symbol, tag, at), binary_introduced(at), lo, hi);
    lemma_named_def(
        s.after,
        v(34),
        function_closure(
            v(34),
            v(35),
            v(36),
            v(37),
            s.after,
            Recursive::NotRecursive,
            arguments,
            body,
        ),
        signature_annotation(after_signature(effect_symbol, tag, at), binary_introduced(at)),
        lo,
        hi,
    );
}

/// What the inner closure of `forever` does is made of the variables that
/// were drawn for it, and of no other.
pub proof fn forever_inner_body_is_fresh(
    tag: TagNameModel,
    forever_symbol: Symbol,
    effect: Symbol,
    thunk1: Symbol,
    thunk2: Symbol,
    base: int,
    lo: int,
    hi: int,
)
    requires
        store_has(base, 24),
        lo <= base,
        base + 24 <= hi,
    ensures
        expr_within(
            forever_inner_body_at(tag, forever_symbol, effect, thunk1, thunk2, base),
            lo,
            hi,
        ),
{
    let v = |k: int| var_at(base, k);
    assert(expr_within(ExprModel::Var(effect), lo, hi));
    assert(expr_within(ExprModel::Var(thunk1), lo, hi));
    assert(expr_within(ExprModel::Var(forever_symbol), lo, hi));
    assert(expr_within(ExprModel::EmptyRecord, lo, hi));
    lemma_effect_pattern(v(0), v(1), tag, v(2), thunk1, lo, hi);
    lemma_call(v(5), ExprModel::Var(thunk1), v(6), v(4), v(7), ExprModel::EmptyRecord, lo, hi);
    let force_thunk_call = call_with(
        v(5),
        ExprModel::Var(thunk1),
        v(6),
        v(4),
        v(7),
        ExprModel::EmptyRecord,
    );
    lemma_call(
        v(9),
        ExprModel::Var(forever_symbol),
        v(10),
        v(11),
        v(12),
        ExprModel::Var(effect),
        lo,
        hi,
    );
    let forever_effect = call_with(
        v(9),
        ExprModel::Var(forever_symbol),
        v(10),
        v(11),
        v(12),
        ExprModel::Var(effect),
    );
    force_effect_is_fresh(forever_effect, tag, thunk2, base + 13, lo, hi);
    let force_thunk2 = force_effect_at(forever_effect, tag, thunk2, base + 13);
    assert(pattern_within(PatternModel::Underscore, lo, hi));
    lemma_let(PatternModel::Underscore, force_thunk_call, v(8), force_thunk2, v(22), lo, hi);
    let rest = ExprModel::LetNonRec(
        Box::new(plain_def(PatternModel::Underscore, force_thunk_call, v(8))),
        Box::new(Loc::at_zero(force_thunk2)),
        v(22),
    );
    lemma_let(
        effect_pattern(v(0), v(1), tag, v(2), thunk1),
        ExprModel::Var(effect),
        v(3),
        rest,
        v(23),
        lo,
        hi,
    );
}

/// The definition of `forever` is made of the variables that
/// `build_effect_forever` drew, and of no other.
pub proof fn forever_is_fresh(
    s: ForeverSymbols,
    effect_symbol: Symbol,
    tag: TagNameModel,
    base: int,
)
    requires
        store_has(base, FOREVER_VARS as int),
    ensures
        def_within(forever_def(s, effect_symbol, tag, base), base, base + FOREVER_VARS),
{
    let lo = base;
    let hi = base + FOREVER_VARS;
    let v = |k: int| var_at(base, k);
    forever_inner_body_is_fresh(tag, s.forever, s.effect, s.thunk1, s.thunk2, base, lo, hi);
    wrap_in_effect_thunk_is_fresh(
        forever_inner_body_at(tag, s.forever, s.effect, s.thunk1, s.thunk2, base),
        tag,
        s.inner,
        seq![s.effect],
        base + 24,
        lo,
        hi,
    );
    let body = forever_body_at(tag, s, base);
    assert(pattern_within(PatternModel::Identifier(s.effect), lo, hi));
    lemma_one_pattern(v(35), PatternModel::Identifier(s.effect), lo, hi);
    let arguments = seq![(v(35), Loc::at_zero(PatternModel::Identifier(s.effect)))];
    lemma_function(
        v(37),
        v(38),
        v(39),
        v(40),
        s.forever,
        Recursive::Recursive,
        arguments,
        body,
        lo,
        hi,
    );

    let at = base + 41;
    let a = var_at(at, 0);
    let b = var_at(at, 1);
    lemma_two_effects(effect_symbol, tag, at, lo, hi);
    let effect_a = effect_alias(effect_symbol, tag, "a"@, a, TypeModel::Variable(a), var_at(at, 2));
    let effect_b = effect_alias(effect_symbol, tag, "b"@, b, TypeModel::Variable(b), var_at(at, 3));
    assert(types_within(seq![effect_a], lo, hi));
    lemma_arrow(seq![effect_a], var_at(at, 4), effect_b, lo, hi);
    let introduced = forever_introduced(at);
    assert(introduced.wildcards =~= seq![var_at(at, 2), var_at(at, 3), var_at(at, 4)]);
    assert(introduced.named =~= seq![("a"@, a), ("b"@, b)]);
    assert(introduced.host_exposed_aliases =~= Seq::empty());
    assert(vars_within(introduced.wildcards, lo, hi));
    lemma_signature(forever_signature(effect_symbol, tag, at), introduced, lo, hi);
    lemma_named_def(
        s.forever,
        v(36),
        function_closure(
            v(37),
            v(38),
            v(39),
            v(40),
            s.forever,
            Recursive::Recursive,
            arguments,
            body,
        ),
        signature_annotation(forever_signature(effect_symbol, tag, at), introduced),
        lo,
        hi,
    );
}

/// What a host-exposed value is defined as is made of the variables that
/// `build_host_exposed_def` drew, and of no other. The signature is the
/// declared one, with the variables it came with.
pub proof fn host_exposed_body_is_fresh(
    symbol: Symbol,
    ident: Seq<char>,
    tag: TagNameModel,
    typ: TypeModel,
    arguments: Seq<Symbol>,
    effect_closure: Symbol,
    base: int,
)
    requires
        arguments.len() == typ.arity(),
        store_has(base, host_exposed_vars(typ)),
    ensures
        expr_within(
            host_exposed_body(symbol, ident, tag, typ, arguments, effect_closure, base),
            base,
            base + host_exposed_vars(typ),
        ),
        var_within(var_at(base, 0), base, base + host_exposed_vars(typ)),
{
    let lo = base;
    let hi = base + host_exposed_vars(typ);
    if typ.is_function() {
        let n = arguments.len() as int;
        let w = |k: int| var_at(base, n + k);
        let captured = captured_at(arguments, base + 1);
        assert(symbol_vars_within(captured, lo, hi));
        let args = argument_exprs(arguments, base + 1);
        let call = host_call(ident, args, w(1));
        assert(expr_within(call, lo, hi)) by {
            assert forall|i: int| 0 <= i < args.len() implies {
                &&& var_within((#[trigger] args[i]).0, lo, hi)
                &&& expr_within(args[i].1, lo, hi)
            } by {
                assert(args[i].1 == ExprModel::Var(arguments[i]));
            }
        }
        assert(empty_record_pattern_at(base + n + 7) == empty_record_pattern(w(7), w(8)));
        lemma_thunk(
            w(6),
            w(7),
            w(8),
            w(2),
            w(3),
            w(4),
            w(5),
            effect_closure,
            captured,
            call,
            lo,
            hi,
        );
        let thunk = thunk_closure(
            w(6),
            empty_record_pattern(w(7), w(8)),
            w(2),
            w(3),
            w(4),
            w(5),
            effect_closure,
            captured,
            call,
        );
        lemma_effect_tag(w(9), w(10), tag, w(11), thunk, lo, hi);
        let patterns = argument_patterns(arguments, base + 1);
        assert(patterns_within(patterns, lo, hi)) by {
            assert forall|i: int| 0 <= i < patterns.len() implies {
                &&& var_within((#[trigger] patterns[i]).0, lo, hi)
                &&& pattern_within(patterns[i].1.value, lo, hi)
            } by {
                assert(patterns[i].1.value == PatternModel::Identifier(arguments[i]));
            }
        }
        lemma_function(
            w(12),
            w(13),
            w(14),
            w(15),
            symbol,
            Recursive::NotRecursive,
            patterns,
            effect_tag(w(9), w(10), tag, w(11), thunk),
            lo,
            hi,
        );
    } else {
        let v = |k: int| var_at(base, k);
        let call = host_call(ident, Seq::empty(), v(1));
        assert(expr_within(call, lo, hi));
        assert(symbol_vars_within(Seq::empty(), lo, hi));
        assert(empty_record_pattern_at(base + 2) == empty_record_pattern(v(2), v(3)));
        lemma_thunk(
            v(8),
            v(2),
            v(3),
            v(4),
            v(5),
            v(6),
            v(7),
            effect_closure,
            Seq::empty(),
            call,
            lo,
            hi,
        );
        let thunk = thunk_closure(
            v(8),
            empty_record_pattern(v(2), v(3)),
            v(4),
            v(5),
            v(6),
            v(7),
            effect_closure,
            Seq::empty(),
            call,
        );
        lemma_effect_tag(v(9), v(10), tag, v(11), thunk, lo, hi);
    }
}

} // verus!
