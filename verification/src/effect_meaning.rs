//! The effect functions do what their names say: proved of the definitions
//! that the effect module builds, under the evaluator of `semantics`.

use crate::effect_module::{
    after_body_at, after_call_at, after_def, always_def, call_with, captured_at, effect_pattern,
    effect_tag, empty_record_pattern_at, force_effect_at,
    forever_def, forever_inner_body_at, function_closure, map_def, plain_def, thunk_closure,
    AfterSymbols, AlwaysSymbols, ForeverSymbols, MapSymbols,
};
use crate::expr::{ExprModel, Recursive};
use crate::ident::{var_at, Loc, Symbol, TagNameModel, Variable};
use crate::pattern::{empty_record_pattern, PatternModel};
use crate::semantics::{
    apply, bind, bind_all, capture, effect_of, eval, eval_all, force, gives, lemma_apply_monotone,
    lemma_force_monotone, runs_to, Value,
};
use vstd::prelude::*;

verus! {

/// The values of a list of one expression.
proof fn lemma_eval_one(
    var: Variable,
    expr: ExprModel,
    top: Map<Symbol, Value>,
    env: Map<Symbol, Value>,
    fuel: nat,
)
    ensures
        eval_all(seq![(var, Loc::at_zero(expr))], top, env, fuel, 0) == match eval(
            expr,
            top,
            env,
            fuel,
        ) {
            Some(value) => Some(seq![value]),
            None => None,
        },
{
    let exprs = seq![(var, Loc::at_zero(expr))];
    assert(exprs[0].1.value == expr);
    assert(eval_all(exprs, top, env, fuel, 1) == Some(Seq::<Value>::empty()));
    match eval(expr, top, env, fuel) {
        Some(value) => {
            assert(seq![value] + Seq::<Value>::empty() =~= seq![value]);
        },
        None => {},
    }
}

/// Matching one value against a list of one pattern.
proof fn lemma_bind_one(var: Variable, pattern: PatternModel, value: Value, env: Map<Symbol, Value>)
    ensures
        bind_all(seq![(var, Loc::at_zero(pattern))], seq![value], env, 0) == bind(pattern, value, env),
{
    let patterns = seq![(var, Loc::at_zero(pattern))];
    assert(patterns[0].1.value == pattern);
    match bind(pattern, value, env) {
        Some(bound) => {
            assert(bind_all(patterns, seq![value], bound, 1) == Some(bound));
        },
        None => {},
    }
}

/// Matching a value against `@Effect thunk` binds the thunk where the value
/// is an effect, and fails where it is none.
proof fn lemma_bind_effect(
    whole_var: Variable,
    ext_var: Variable,
    tag: TagNameModel,
    thunk_var: Variable,
    thunk: Symbol,
    value: Value,
    env: Map<Symbol, Value>,
)
    ensures
        bind(effect_pattern(whole_var, ext_var, tag, thunk_var, thunk), value, env) == match value {
            Value::Tag(name, payload) => {
                if name == tag && payload.len() == 1 {
                    Some(env.insert(thunk, payload[0]))
                } else {
                    None
                }
            },
            _ => None,
        },
{
    match value {
        Value::Tag(name, payload) => {
            if name == tag && payload.len() == 1 {
                assert(payload =~= seq![payload[0]]);
                lemma_bind_one(thunk_var, PatternModel::Identifier(thunk), payload[0], env);
            }
        },
        _ => {},
    }
}

/// `@Effect closure` has the effect around the closure's value for its
/// value.
proof fn lemma_effect_tag(
    variant_var: Variable,
    ext_var: Variable,
    tag: TagNameModel,
    closure_var: Variable,
    closure: ExprModel,
    top: Map<Symbol, Value>,
    env: Map<Symbol, Value>,
    fuel: nat,
)
    ensures
        eval(effect_tag(variant_var, ext_var, tag, closure_var, closure), top, env, fuel)
            == match eval(closure, top, env, fuel) {
            Some(thunk) => Some(effect_of(tag, thunk)),
            None => None,
        },
{
    lemma_eval_one(closure_var, closure, top, env, fuel);
}

/// A call on one argument applies the callee's value to the argument's,
/// with one less of fuel. Without fuel it has no value.
proof fn lemma_call(
    fn_var: Variable,
    callee: ExprModel,
    closure_var: Variable,
    ret_var: Variable,
    arg_var: Variable,
    arg: ExprModel,
    top: Map<Symbol, Value>,
    env: Map<Symbol, Value>,
    fuel: nat,
)
    ensures
        eval(call_with(fn_var, callee, closure_var, ret_var, arg_var, arg), top, env, fuel) == if fuel
            == 0 {
            None
        } else {
            match (eval(callee, top, env, fuel), eval(arg, top, env, fuel)) {
                (Some(function), Some(value)) => apply(
                    function,
                    seq![value],
                    top,
                    (fuel - 1) as nat,
                ),
                _ => None,
            }
        },
{
    lemma_eval_one(arg_var, arg, top, env, fuel);
}

/// A thunk has a value wherever what it captures is bound, and the call of
/// that value on the empty record is the value of the body in what was
/// captured.
proof fn lemma_thunk(
    arg_var: Variable,
    whole_var: Variable,
    ext_var: Variable,
    function_type: Variable,
    closure_type: Variable,
    closure_ext_var: Variable,
    return_type: Variable,
    name: Symbol,
    captured: Seq<(Symbol, Variable)>,
    body: ExprModel,
    top: Map<Symbol, Value>,
    env: Map<Symbol, Value>,
    fuel: nat,
    call_fuel: nat,
)
    requires
        capture(captured, env) is Some,
    ensures
        ({
            let thunk = thunk_closure(
                arg_var,
                empty_record_pattern(whole_var, ext_var),
                function_type,
                closure_type,
                closure_ext_var,
                return_type,
                name,
                captured,
                body,
            );
            &&& eval(thunk, top, env, fuel) matches Some(value)
            &&& apply(value, seq![Value::EmptyRecord], top, call_fuel) == eval(
                body,
                top,
                capture(captured, env).unwrap(),
                call_fuel,
            )
        }),
{
    lemma_bind_one(
        arg_var,
        empty_record_pattern(whole_var, ext_var),
        Value::EmptyRecord,
        capture(captured, env).unwrap(),
    );
}

/// A function of one parameter that captures nothing has a value, and the
/// call of that value is the value of the body where the parameter is bound
/// to the argument.
proof fn lemma_function_of_one(
    function_type: Variable,
    closure_type: Variable,
    closure_ext_var: Variable,
    return_type: Variable,
    name: Symbol,
    recursive: Recursive,
    param_var: Variable,
    param: Symbol,
    body: ExprModel,
    top: Map<Symbol, Value>,
    env: Map<Symbol, Value>,
    fuel: nat,
    argument: Value,
    call_fuel: nat,
)
    ensures
        ({
            let function = function_closure(
                function_type,
                closure_type,
                closure_ext_var,
                return_type,
                name,
                recursive,
                seq![(param_var, Loc::at_zero(PatternModel::Identifier(param)))],
                body,
            );
            &&& eval(function, top, env, fuel) == Some(
                Value::Closure(function->Closure_0, Map::empty()),
            )
            &&& apply(
                Value::Closure(function->Closure_0, Map::empty()),
                seq![argument],
                top,
                call_fuel,
            ) == eval(body, top, Map::<Symbol, Value>::empty().insert(param, argument), call_fuel)
        }),
{
    let nothing = capture(Seq::empty(), env).unwrap();
    assert(nothing =~= Map::<Symbol, Value>::empty());
    lemma_bind_one(param_var, PatternModel::Identifier(param), argument, nothing);
}

/// A function that takes an effect apart and one more parameter, and
/// captures nothing, has a value, and the call of that value on an effect
/// and an argument is the value of the body where the thunk and the
/// parameter are bound.
proof fn lemma_function_of_effect_and_one(
    function_type: Variable,
    closure_type: Variable,
    closure_ext_var: Variable,
    return_type: Variable,
    name: Symbol,
    recursive: Recursive,
    effect_var: Variable,
    whole_var: Variable,
    ext_var: Variable,
    tag: TagNameModel,
    thunk_var: Variable,
    thunk: Symbol,
    param_var: Variable,
    param: Symbol,
    body: ExprModel,
    top: Map<Symbol, Value>,
    env: Map<Symbol, Value>,
    fuel: nat,
    thunk_value: Value,
    argument: Value,
    call_fuel: nat,
)
    ensures
        ({
            let function = function_closure(
                function_type,
                closure_type,
                closure_ext_var,
                return_type,
                name,
                recursive,
                seq![
                    (effect_var, Loc::at_zero(effect_pattern(whole_var, ext_var, tag, thunk_var, thunk))),
                    (param_var, Loc::at_zero(PatternModel::Identifier(param))),
                ],
                body,
            );
            &&& eval(function, top, env, fuel) matches Some(value)
            &&& apply(value, seq![effect_of(tag, thunk_value), argument], top, call_fuel) == eval(
                body,
                top,
                Map::<Symbol, Value>::empty().insert(thunk, thunk_value).insert(param, argument),
                call_fuel,
            )
        }),
{
    let nothing = capture(Seq::empty(), env).unwrap();
    assert(nothing =~= Map::<Symbol, Value>::empty());
    let patterns = seq![
        (effect_var, Loc::at_zero(effect_pattern(whole_var, ext_var, tag, thunk_var, thunk))),
        (param_var, Loc::at_zero(PatternModel::Identifier(param))),
    ];
    let values = seq![effect_of(tag, thunk_value), argument];
    let first = nothing.insert(thunk, thunk_value);
    let second = first.insert(param, argument);
    lemma_bind_effect(
        whole_var,
        ext_var,
        tag,
        thunk_var,
        thunk,
        effect_of(tag, thunk_value),
        nothing,
    );
    assert(patterns[0].1.value == effect_pattern(whole_var, ext_var, tag, thunk_var, thunk));
    assert(patterns[1].1.value == PatternModel::Identifier(param));
    assert(bind(patterns[1].1.value, values[1], first) == Some(second));
    assert(bind_all(patterns, values, second, 2) == Some(second));
    assert(bind_all(patterns, values, first, 1) == Some(second));
    assert(bind_all(patterns, values, nothing, 0) == Some(second));
}

/// What can be run is an effect around its thunk.
proof fn lemma_forced_effect(effect: Value, tag: TagNameModel, top: Map<Symbol, Value>, fuel: nat)
    requires
        force(effect, tag, top, fuel) is Some,
    ensures
        effect == effect_of(tag, effect->Tag_1[0]),
        force(effect, tag, top, fuel) == apply(
            effect->Tag_1[0],
            seq![Value::EmptyRecord],
            top,
            fuel,
        ),
{
    assert(effect->Tag_1 =~= seq![effect->Tag_1[0]]);
}

/// `always value` is an effect that gives `value` when it is run.
///
/// Whatever the environment: the definition of `always` has a value, a
/// function; the function applied to any value is an effect; and that
/// effect, run, gives exactly the value. None of this needs a call, so it
/// holds under every bound on calls.
pub proof fn always_gives_back_its_value(
    s: AlwaysSymbols,
    effect_symbol: Symbol,
    tag: TagNameModel,
    base: int,
    top: Map<Symbol, Value>,
    env: Map<Symbol, Value>,
    value: Value,
    fuel: nat,
)
    ensures
        ({
            let def = always_def(s, effect_symbol, tag, base);
            &&& eval(def.loc_expr.value, top, env, fuel) matches Some(always)
            &&& apply(always, seq![value], top, fuel) matches Some(effect)
            &&& force(effect, tag, top, fuel) == Some(value)
            &&& runs_to(effect, tag, top, value)
        }),
{
    let v = |k: int| var_at(base, k);
    let inside = Map::<Symbol, Value>::empty().insert(s.value, value);
    let captured = seq![(s.value, v(7))];
    let const_closure = thunk_closure(
        v(0),
        empty_record_pattern(v(1), v(2)),
        v(3),
        v(4),
        v(5),
        v(6),
        s.inner,
        captured,
        ExprModel::Var(s.value),
    );
    let body = effect_tag(v(8), v(9), tag, v(10), const_closure);
    lemma_function_of_one(
        v(12),
        v(13),
        v(14),
        v(15),
        s.always,
        Recursive::NotRecursive,
        v(11),
        s.value,
        body,
        top,
        env,
        fuel,
        value,
        fuel,
    );
    lemma_effect_tag(v(8), v(9), tag, v(10), const_closure, top, inside, fuel);
    assert(captured[0].0 == s.value);
    assert(capture(captured, inside) is Some);
    lemma_thunk(
        v(0),
        v(1),
        v(2),
        v(3),
        v(4),
        v(5),
        v(6),
        s.inner,
        captured,
        ExprModel::Var(s.value),
        top,
        inside,
        fuel,
        fuel,
    );
    assert(capture(captured, inside).unwrap()[s.value] == value);
}

/// `map effect function` is an effect that runs `effect` and gives what
/// `function` makes of its value.
///
/// Let `effect` give `value` when it is run, and let `function` applied to
/// `value` give `mapped`, both with calls no deeper than `fuel`. Then the
/// definition of `map` has a value, a function; applied to `effect` and
/// `function` it gives an effect, which needs no call; and that effect, run
/// with one call more, gives `mapped`.
pub proof fn map_applies_the_function(
    s: MapSymbols,
    effect_symbol: Symbol,
    tag: TagNameModel,
    base: int,
    top: Map<Symbol, Value>,
    env: Map<Symbol, Value>,
    effect: Value,
    function: Value,
    value: Value,
    mapped: Value,
    fuel: nat,
)
    requires
        s.thunk != s.mapper,
        force(effect, tag, top, fuel) == Some(value),
        apply(function, seq![value], top, fuel) == Some(mapped),
    ensures
        ({
            let def = map_def(s, effect_symbol, tag, base);
            &&& eval(def.loc_expr.value, top, env, 0) matches Some(map)
            &&& apply(map, seq![effect, function], top, 0) matches Some(result)
            &&& force(result, tag, top, fuel + 1) == Some(mapped)
        }),
{
    let v = |k: int| var_at(base, k);
    lemma_forced_effect(effect, tag, top, fuel);
    let thunk = effect->Tag_1[0];
    let inside = Map::<Symbol, Value>::empty().insert(s.thunk, thunk).insert(s.mapper, function);
    let captured = seq![(s.thunk, v(15)), (s.mapper, v(16))];
    let force_thunk_call = call_with(
        v(0),
        ExprModel::Var(s.thunk),
        v(1),
        v(2),
        v(3),
        ExprModel::EmptyRecord,
    );
    let mapper_call = call_with(v(4), ExprModel::Var(s.mapper), v(5), v(6), v(7), force_thunk_call);
    let inner_closure = thunk_closure(
        v(8),
        empty_record_pattern(v(9), v(10)),
        v(11),
        v(12),
        v(13),
        v(14),
        s.inner,
        captured,
        mapper_call,
    );
    let body = effect_tag(v(22), v(23), tag, v(24), inner_closure);
    lemma_function_of_effect_and_one(
        v(25),
        v(26),
        v(27),
        v(28),
        s.map,
        Recursive::NotRecursive,
        v(17),
        v(18),
        v(19),
        tag,
        v(20),
        s.thunk,
        v(21),
        s.mapper,
        body,
        top,
        env,
        0,
        thunk,
        function,
        0,
    );
    lemma_effect_tag(v(22), v(23), tag, v(24), inner_closure, top, inside, 0);
    assert(captured[0].0 == s.thunk && captured[1].0 == s.mapper);
    assert(capture(captured, inside) is Some);
    let kept = capture(captured, inside).unwrap();
    lemma_thunk(
        v(8),
        v(9),
        v(10),
        v(11),
        v(12),
        v(13),
        v(14),
        s.inner,
        captured,
        mapper_call,
        top,
        inside,
        0,
        fuel + 1,
    );
    assert(kept[s.thunk] == thunk && kept[s.mapper] == function);
    lemma_call(
        v(0),
        ExprModel::Var(s.thunk),
        v(1),
        v(2),
        v(3),
        ExprModel::EmptyRecord,
        top,
        kept,
        fuel + 1,
    );
    lemma_call(
        v(4),
        ExprModel::Var(s.mapper),
        v(5),
        v(6),
        v(7),
        force_thunk_call,
        top,
        kept,
        fuel + 1,
    );
}

/// The same of `map` without a word of bounds: where `effect` runs to
/// `value` and `function` gives `mapped` for `value`, the effect that `map`
/// makes of them runs to `mapped`.
pub proof fn map_runs_to_the_mapped_value(
    s: MapSymbols,
    effect_symbol: Symbol,
    tag: TagNameModel,
    base: int,
    top: Map<Symbol, Value>,
    env: Map<Symbol, Value>,
    effect: Value,
    function: Value,
    value: Value,
    mapped: Value,
)
    requires
        s.thunk != s.mapper,
        runs_to(effect, tag, top, value),
        gives(function, seq![value], top, mapped),
    ensures
        ({
            let def = map_def(s, effect_symbol, tag, base);
            &&& eval(def.loc_expr.value, top, env, 0) matches Some(map)
            &&& apply(map, seq![effect, function], top, 0) matches Some(result)
            &&& runs_to(result, tag, top, mapped)
        }),
{
    let m = choose|fuel: nat| force(effect, tag, top, fuel) == Some(value);
    let n = choose|fuel: nat| apply(function, seq![value], top, fuel) == Some(mapped);
    let fuel = if m <= n {
        n
    } else {
        m
    };
    lemma_force_monotone(effect, tag, top, m, fuel);
    lemma_apply_monotone(function, seq![value], top, n, fuel);
    map_applies_the_function(
        s,
        effect_symbol,
        tag,
        base,
        top,
        env,
        effect,
        function,
        value,
        mapped,
        fuel,
    );
}

/// `after effect continuation` is an effect that runs `effect` and then the
/// effect that `continuation` makes of its value.
///
/// To apply `after` runs nothing: applied to an effect and a function it
/// gives an effect, the tag around a closure, without a call.
///
/// Let `effect` give `value` when it is run, and let `continuation` applied
/// to `value` give `next`, both with calls no deeper than `fuel`. Then to
/// run what `after` gave, with one call more, is to run `next`: it gives
/// what `next` gives, and has no value where `next` has none.
pub proof fn after_runs_the_continuation(
    s: AfterSymbols,
    effect_symbol: Symbol,
    tag: TagNameModel,
    base: int,
    top: Map<Symbol, Value>,
    env: Map<Symbol, Value>,
    effect: Value,
    continuation: Value,
    value: Value,
    next: Value,
    fuel: nat,
)
    requires
        s.thunk != s.to_effect,
        force(effect, tag, top, fuel) == Some(value),
        apply(continuation, seq![value], top, fuel) == Some(next),
    ensures
        ({
            let def = after_def(s, effect_symbol, tag, base);
            &&& eval(def.loc_expr.value, top, env, 0) matches Some(after)
            &&& apply(after, seq![effect, continuation], top, 0) matches Some(result)
            &&& result matches Value::Tag(name, payload)
            &&& name == tag
            &&& payload.len() == 1
            &&& payload[0] is Closure
            &&& force(result, tag, top, fuel + 1) == force(next, tag, top, fuel)
        }),
{
    let v = |k: int| var_at(base, k);
    lemma_forced_effect(effect, tag, top, fuel);
    let thunk = effect->Tag_1[0];
    after_runs_nothing(s, effect_symbol, tag, base, top, env, thunk, continuation, fuel + 1);
    let kept = after_kept(s, base, thunk, continuation);

    let force_thunk_call = call_with(
        v(0),
        ExprModel::Var(s.thunk),
        v(1),
        v(2),
        v(3),
        ExprModel::EmptyRecord,
    );
    let call = after_call_at(s, base);
    let u = |k: int| var_at(base + 8, k);
    let pattern = effect_pattern(u(0), u(1), tag, u(2), s.thunk2);
    let last_call = call_with(
        u(5),
        ExprModel::Var(s.thunk2),
        u(6),
        u(4),
        u(7),
        ExprModel::EmptyRecord,
    );
    let run_next = force_effect_at(call, tag, s.thunk2, base + 8);
    assert(run_next == ExprModel::LetNonRec(
        Box::new(plain_def(pattern, call, u(3))),
        Box::new(Loc::at_zero(last_call)),
        u(8),
    ));

    // toEffect (thunk {}) gives `next`.
    lemma_call(
        v(0),
        ExprModel::Var(s.thunk),
        v(1),
        v(2),
        v(3),
        ExprModel::EmptyRecord,
        top,
        kept,
        fuel + 1,
    );
    lemma_call(
        v(4),
        ExprModel::Var(s.to_effect),
        v(5),
        v(6),
        v(7),
        force_thunk_call,
        top,
        kept,
        fuel + 1,
    );
    assert(eval(call, top, kept, fuel + 1) == Some(next));

    // @Effect thunk2 = next; thunk2 {}
    lemma_bind_effect(u(0), u(1), tag, u(2), s.thunk2, next, kept);
    match bind(pattern, next, kept) {
        None => {
            assert(force(next, tag, top, fuel) is None);
            assert(eval(run_next, top, kept, fuel + 1) is None);
        },
        Some(bound) => {
            let next_thunk = next->Tag_1[0];
            assert(bound == kept.insert(s.thunk2, next_thunk));
            lemma_call(
                u(5),
                ExprModel::Var(s.thunk2),
                u(6),
                u(4),
                u(7),
                ExprModel::EmptyRecord,
                top,
                bound,
                fuel + 1,
            );
            assert(eval(ExprModel::Var(s.thunk2), top, bound, fuel + 1) == Some(next_thunk));
            assert(eval(run_next, top, kept, fuel + 1) == eval(last_call, top, bound, fuel + 1));
        },
    }
}

/// What the closure inside `after` keeps of what `after` was given: the
/// thunk of the effect, and the function.
spec fn after_kept(s: AfterSymbols, base: int, thunk: Value, continuation: Value) -> Map<
    Symbol,
    Value,
> {
    capture(
        captured_at(seq![s.thunk, s.to_effect], base + 17),
        Map::<Symbol, Value>::empty().insert(s.thunk, thunk).insert(s.to_effect, continuation),
    ).unwrap()
}

/// `after` applied to an effect and a function gives an effect without a
/// call, and to run that effect is to evaluate the body of the inner
/// closure in what it kept.
proof fn after_runs_nothing(
    s: AfterSymbols,
    effect_symbol: Symbol,
    tag: TagNameModel,
    base: int,
    top: Map<Symbol, Value>,
    env: Map<Symbol, Value>,
    thunk: Value,
    continuation: Value,
    call_fuel: nat,
)
    requires
        s.thunk != s.to_effect,
    ensures
        ({
            let def = after_def(s, effect_symbol, tag, base);
            let kept = after_kept(s, base, thunk, continuation);
            &&& eval(def.loc_expr.value, top, env, 0) matches Some(after)
            &&& apply(after, seq![effect_of(tag, thunk), continuation], top, 0) matches Some(result)
            &&& result matches Value::Tag(name, payload)
            &&& name == tag
            &&& payload.len() == 1
            &&& payload[0] is Closure
            &&& force(result, tag, top, call_fuel) == eval(
                force_effect_at(after_call_at(s, base), tag, s.thunk2, base + 8),
                top,
                kept,
                call_fuel,
            )
            &&& kept.dom().contains(s.thunk)
            &&& kept.dom().contains(s.to_effect)
            &&& kept[s.thunk] == thunk
            &&& kept[s.to_effect] == continuation
        }),
{
    let v = |k: int| var_at(base, k);
    let at = base + 17;
    let w = |k: int| var_at(at, 2 + k);
    let inside = Map::<Symbol, Value>::empty().insert(s.thunk, thunk).insert(
        s.to_effect,
        continuation,
    );
    let captured = captured_at(seq![s.thunk, s.to_effect], at);
    let run_next = force_effect_at(after_call_at(s, base), tag, s.thunk2, base + 8);
    assert(captured.len() == 2 && captured[0].0 == s.thunk && captured[1].0 == s.to_effect);
    assert(capture(captured, inside) is Some);
    let inner = thunk_closure(
        w(0),
        empty_record_pattern(w(1), w(2)),
        w(3),
        w(4),
        w(5),
        w(6),
        s.inner,
        captured,
        run_next,
    );
    assert(empty_record_pattern_at(at + 3) == empty_record_pattern(w(1), w(2)));
    let body = effect_tag(w(7), w(8), tag, w(9), inner);
    assert(body == after_body_at(tag, s, base));
    lemma_function_of_effect_and_one(
        v(34),
        v(35),
        v(36),
        v(37),
        s.after,
        Recursive::NotRecursive,
        v(29),
        v(30),
        v(31),
        tag,
        v(32),
        s.thunk,
        v(33),
        s.to_effect,
        body,
        top,
        env,
        0,
        thunk,
        continuation,
        0,
    );
    lemma_effect_tag(w(7), w(8), tag, w(9), inner, top, inside, 0);
    lemma_thunk(
        w(0),
        w(1),
        w(2),
        w(3),
        w(4),
        w(5),
        w(6),
        s.inner,
        captured,
        run_next,
        top,
        inside,
        0,
        call_fuel,
    );
}

/// The same of `after` without a word of bounds: where `effect` runs to
/// `value`, `continuation` gives the effect `next` for `value`, and `next`
/// runs to `outcome`, the effect that `after` makes of `effect` and
/// `continuation` runs to `outcome`.
pub proof fn after_runs_to_what_the_next_effect_runs_to(
    s: AfterSymbols,
    effect_symbol: Symbol,
    tag: TagNameModel,
    base: int,
    top: Map<Symbol, Value>,
    env: Map<Symbol, Value>,
    effect: Value,
    continuation: Value,
    value: Value,
    next: Value,
    outcome: Value,
)
    requires
        s.thunk != s.to_effect,
        runs_to(effect, tag, top, value),
        gives(continuation, seq![value], top, next),
        runs_to(next, tag, top, outcome),
    ensures
        ({
            let def = after_def(s, effect_symbol, tag, base);
            &&& eval(def.loc_expr.value, top, env, 0) matches Some(after)
            &&& apply(after, seq![effect, continuation], top, 0) matches Some(result)
            &&& runs_to(result, tag, top, outcome)
        }),
{
    let m = choose|fuel: nat| force(effect, tag, top, fuel) == Some(value);
    let n = choose|fuel: nat| apply(continuation, seq![value], top, fuel) == Some(next);
    let k = choose|fuel: nat| force(next, tag, top, fuel) == Some(outcome);
    let most = if m <= n {
        n
    } else {
        m
    };
    let fuel = if most <= k {
        k
    } else {
        most
    };
    lemma_force_monotone(effect, tag, top, m, fuel);
    lemma_apply_monotone(continuation, seq![value], top, n, fuel);
    lemma_force_monotone(next, tag, top, k, fuel);
    after_runs_the_continuation(
        s,
        effect_symbol,
        tag,
        base,
        top,
        env,
        effect,
        continuation,
        value,
        next,
        fuel,
    );
}

/// The value of the definition of `forever`: its closure, which captures
/// nothing.
pub open spec fn forever_value(
    s: ForeverSymbols,
    effect_symbol: Symbol,
    tag: TagNameModel,
    base: int,
) -> Value {
    Value::Closure(
        forever_def(s, effect_symbol, tag, base).loc_expr.value->Closure_0,
        Map::empty(),
    )
}

/// The closure inside `forever`, before the effect tag is put around it.
spec fn forever_thunk(s: ForeverSymbols, tag: TagNameModel, base: int) -> ExprModel {
    let at = base + 24;
    thunk_closure(
        var_at(at, 1),
        empty_record_pattern(var_at(at, 2), var_at(at, 3)),
        var_at(at, 4),
        var_at(at, 5),
        var_at(at, 6),
        var_at(at, 7),
        s.inner,
        captured_at(seq![s.effect], at),
        forever_inner_body_at(tag, s.forever, s.effect, s.thunk1, s.thunk2, base),
    )
}

/// What the closure inside `forever` sees of the effect it was made for.
spec fn forever_kept(s: ForeverSymbols, base: int, effect: Value) -> Map<Symbol, Value> {
    capture(
        captured_at(seq![s.effect], base + 24),
        Map::<Symbol, Value>::empty().insert(s.effect, effect),
    ).unwrap()
}

/// `forever` applied to an effect gives an effect, without a call: the
/// effect around the inner closure, which keeps the effect it was given.
proof fn lemma_forever_builds(
    s: ForeverSymbols,
    effect_symbol: Symbol,
    tag: TagNameModel,
    base: int,
    top: Map<Symbol, Value>,
    effect: Value,
    fuel: nat,
    call_fuel: nat,
)
    ensures
        ({
            let inside = Map::<Symbol, Value>::empty().insert(s.effect, effect);
            &&& eval(forever_thunk(s, tag, base), top, inside, fuel) matches Some(thunk)
            &&& apply(forever_value(s, effect_symbol, tag, base), seq![effect], top, fuel) == Some(
                effect_of(tag, thunk),
            )
            &&& apply(thunk, seq![Value::EmptyRecord], top, call_fuel) == eval(
                forever_inner_body_at(tag, s.forever, s.effect, s.thunk1, s.thunk2, base),
                top,
                forever_kept(s, base, effect),
                call_fuel,
            )
            &&& forever_kept(s, base, effect).dom().contains(s.effect)
            &&& forever_kept(s, base, effect)[s.effect] == effect
            &&& forall|other: Symbol|
                other != s.effect ==> !forever_kept(s, base, effect).dom().contains(other)
        }),
{
    let v = |k: int| var_at(base, k);
    let at = base + 24;
    let inside = Map::<Symbol, Value>::empty().insert(s.effect, effect);
    let captured = captured_at(seq![s.effect], at);
    let inner_body = forever_inner_body_at(tag, s.forever, s.effect, s.thunk1, s.thunk2, base);
    let thunk = forever_thunk(s, tag, base);
    let body = effect_tag(var_at(at, 8), var_at(at, 9), tag, var_at(at, 10), thunk);
    assert(captured.len() == 1 && captured[0].0 == s.effect);
    assert(capture(captured, inside) is Some);
    lemma_function_of_one(
        v(37),
        v(38),
        v(39),
        v(40),
        s.forever,
        Recursive::Recursive,
        v(35),
        s.effect,
        body,
        top,
        inside,
        fuel,
        effect,
        fuel,
    );
    lemma_effect_tag(var_at(at, 8), var_at(at, 9), tag, var_at(at, 10), thunk, top, inside, fuel);
    lemma_thunk(
        var_at(at, 1),
        var_at(at, 2),
        var_at(at, 3),
        var_at(at, 4),
        var_at(at, 5),
        var_at(at, 6),
        var_at(at, 7),
        s.inner,
        captured,
        inner_body,
        top,
        inside,
        fuel,
        call_fuel,
    );
    assert forall|other: Symbol| other != s.effect implies !forever_kept(
        s,
        base,
        effect,
    ).dom().contains(other) by {
        if forever_kept(s, base, effect).dom().contains(other) {
            let i = choose|i: int| 0 <= i < captured.len() && (#[trigger] captured[i]).0 == other;
            assert(captured[i].0 == s.effect);
        }
    }
}

/// One round of `forever` has no value, whatever the bound on calls: it
/// ends in the call of the next round, which has none.
proof fn lemma_forever_round(
    s: ForeverSymbols,
    effect_symbol: Symbol,
    tag: TagNameModel,
    base: int,
    top: Map<Symbol, Value>,
    effect: Value,
    fuel: nat,
)
    requires
        s.forever != s.effect,
        s.forever != s.thunk1,
        top.dom().contains(s.forever),
        top[s.forever] == forever_value(s, effect_symbol, tag, base),
    ensures
        eval(
            forever_inner_body_at(tag, s.forever, s.effect, s.thunk1, s.thunk2, base),
            top,
            forever_kept(s, base, effect),
            fuel,
        ) is None,
    decreases fuel,
{
    let v = |k: int| var_at(base, k);
    let kept = forever_kept(s, base, effect);
    lemma_forever_builds(s, effect_symbol, tag, base, top, effect, 0, 0);

    // @Effect thunk1 = effect
    let first_pattern = effect_pattern(v(0), v(1), tag, v(2), s.thunk1);
    let thunk_from_effect = plain_def(first_pattern, ExprModel::Var(s.effect), v(3));
    // _ = thunk1 {}
    let force_thunk_call = call_with(
        v(5),
        ExprModel::Var(s.thunk1),
        v(6),
        v(4),
        v(7),
        ExprModel::EmptyRecord,
    );
    let force_thunk1 = plain_def(PatternModel::Underscore, force_thunk_call, v(8));
    // forever effect
    let forever_effect = call_with(
        v(9),
        ExprModel::Var(s.forever),
        v(10),
        v(11),
        v(12),
        ExprModel::Var(s.effect),
    );
    // @Effect thunk2 = forever effect
    // thunk2 {}
    let w = |k: int| var_at(base + 13, k);
    let second_pattern = effect_pattern(w(0), w(1), tag, w(2), s.thunk2);
    let last_call = call_with(
        w(5),
        ExprModel::Var(s.thunk2),
        w(6),
        w(4),
        w(7),
        ExprModel::EmptyRecord,
    );
    let force_thunk2 = force_effect_at(forever_effect, tag, s.thunk2, base + 13);
    assert(force_thunk2 == ExprModel::LetNonRec(
        Box::new(plain_def(second_pattern, forever_effect, w(3))),
        Box::new(Loc::at_zero(last_call)),
        w(8),
    ));
    let rest = ExprModel::LetNonRec(
        Box::new(force_thunk1),
        Box::new(Loc::at_zero(force_thunk2)),
        v(22),
    );
    let inner_body = forever_inner_body_at(tag, s.forever, s.effect, s.thunk1, s.thunk2, base);
    assert(inner_body == ExprModel::LetNonRec(
        Box::new(thunk_from_effect),
        Box::new(Loc::at_zero(rest)),
        v(23),
    ));

    assert(eval(ExprModel::Var(s.effect), top, kept, fuel) == Some(effect));
    lemma_bind_effect(v(0), v(1), tag, v(2), s.thunk1, effect, kept);
    match bind(first_pattern, effect, kept) {
        None => {
            assert(eval(inner_body, top, kept, fuel) is None);
        },
        Some(bound) => {
            let thunk = effect->Tag_1[0];
            assert(bound == kept.insert(s.thunk1, thunk));
            assert(eval(inner_body, top, kept, fuel) == eval(rest, top, bound, fuel));
            lemma_call(
                v(5),
                ExprModel::Var(s.thunk1),
                v(6),
                v(4),
                v(7),
                ExprModel::EmptyRecord,
                top,
                bound,
                fuel,
            );
            if fuel == 0 {
                assert(eval(rest, top, bound, fuel) is None);
            } else {
                match eval(force_thunk_call, top, bound, fuel) {
                    None => {
                        assert(eval(rest, top, bound, fuel) is None);
                    },
                    Some(ignored) => {
                        assert(bind(PatternModel::Underscore, ignored, bound) == Some(bound));
                        assert(eval(rest, top, bound, fuel) == eval(force_thunk2, top, bound, fuel));

                        // The call of `forever` finds no binding of its
                        // name, so it is the top-level one.
                        assert(!bound.dom().contains(s.forever));
                        assert(eval(ExprModel::Var(s.forever), top, bound, fuel) == Some(
                            forever_value(s, effect_symbol, tag, base),
                        ));
                        let again = bound[s.effect];
                        assert(eval(ExprModel::Var(s.effect), top, bound, fuel) == Some(again));
                        lemma_call(
                            v(9),
                            ExprModel::Var(s.forever),
                            v(10),
                            v(11),
                            v(12),
                            ExprModel::Var(s.effect),
                            top,
                            bound,
                            fuel,
                        );
                        lemma_forever_builds(
                            s,
                            effect_symbol,
                            tag,
                            base,
                            top,
                            again,
                            (fuel - 1) as nat,
                            (fuel - 1) as nat,
                        );
                        let inside = Map::<Symbol, Value>::empty().insert(s.effect, again);
                        let next_thunk = eval(
                            forever_thunk(s, tag, base),
                            top,
                            inside,
                            (fuel - 1) as nat,
                        ).unwrap();
                        let looping = effect_of(tag, next_thunk);
                        assert(eval(forever_effect, top, bound, fuel) == Some(looping));
                        lemma_bind_effect(w(0), w(1), tag, w(2), s.thunk2, looping, bound);
                        let last = bound.insert(s.thunk2, next_thunk);
                        assert(bind(second_pattern, looping, bound) == Some(last));
                        assert(eval(force_thunk2, top, bound, fuel) == eval(
                            last_call,
                            top,
                            last,
                            fuel,
                        ));
                        lemma_call(
                            w(5),
                            ExprModel::Var(s.thunk2),
                            w(6),
                            w(4),
                            w(7),
                            ExprModel::EmptyRecord,
                            top,
                            last,
                            fuel,
                        );
                        assert(eval(ExprModel::Var(s.thunk2), top, last, fuel) == Some(next_thunk));
                        // The next round, with less fuel.
                        lemma_forever_round(
                            s,
                            effect_symbol,
                            tag,
                            base,
                            top,
                            again,
                            (fuel - 1) as nat,
                        );
                    },
                }
            }
        },
    }
}

/// `forever effect` is an effect that never gives a value.
///
/// Let the top level hold the definition of `forever` under its own symbol,
/// and let no parameter of it hide that symbol. Then `forever` applied to
/// any value gives an effect, without a call; and that effect, run, has no
/// value under any bound on calls: each round runs the effect once and
/// ends in the call of the next round.
pub proof fn forever_never_gives_a_value(
    s: ForeverSymbols,
    effect_symbol: Symbol,
    tag: TagNameModel,
    base: int,
    top: Map<Symbol, Value>,
    env: Map<Symbol, Value>,
    effect: Value,
)
    requires
        s.forever != s.effect,
        s.forever != s.thunk1,
        top.dom().contains(s.forever),
        top[s.forever] == forever_value(s, effect_symbol, tag, base),
    ensures
        ({
            let def = forever_def(s, effect_symbol, tag, base);
            &&& eval(def.loc_expr.value, top, env, 0) == Some(
                forever_value(s, effect_symbol, tag, base),
            )
            &&& apply(forever_value(s, effect_symbol, tag, base), seq![effect], top, 0) matches Some(
                looping,
            )
            &&& forall|fuel: nat| force(looping, tag, top, fuel) is None
            &&& forall|value: Value| !runs_to(looping, tag, top, value)
        }),
{
    let v = |k: int| var_at(base, k);
    let at = base + 24;
    let thunk = forever_thunk(s, tag, base);
    let body = effect_tag(var_at(at, 8), var_at(at, 9), tag, var_at(at, 10), thunk);
    lemma_function_of_one(
        v(37),
        v(38),
        v(39),
        v(40),
        s.forever,
        Recursive::Recursive,
        v(35),
        s.effect,
        body,
        top,
        env,
        0,
        effect,
        0,
    );
    lemma_forever_builds(s, effect_symbol, tag, base, top, effect, 0, 0);
    let inside = Map::<Symbol, Value>::empty().insert(s.effect, effect);
    let thunk_value = eval(thunk, top, inside, 0).unwrap();
    let looping = effect_of(tag, thunk_value);
    assert forall|fuel: nat| force(looping, tag, top, fuel) is None by {
        lemma_forever_builds(s, effect_symbol, tag, base, top, effect, 0, fuel);
        lemma_forever_round(s, effect_symbol, tag, base, top, effect, fuel);
    }
}

} // verus!
