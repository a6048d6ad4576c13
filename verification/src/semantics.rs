//! What a definition means: a small evaluator for expressions, written as
//! spec functions, against which the effect functions are proved to do what
//! their names say.
//!
//! The evaluator knows the empty record, tags, closures and calls. A closure
//! sees what it captured, what its parameters bind, and the values of the
//! module's top-level definitions. What the host does when it is called lies
//! outside: a foreign call has no value here.

use crate::expr::{ClosureDataModel, ExprModel};
use crate::ident::{Loc, Symbol, TagNameModel, Variable};
use crate::pattern::PatternModel;
use vstd::prelude::*;

verus! {

pub enum Value {
    EmptyRecord,
    Tag(TagNameModel, Seq<Value>),
    /// A closure with the values of what it captured.
    Closure(ClosureDataModel, Map<Symbol, Value>),
    /// A value that the evaluator does not look into.
    Opaque(int),
}

/// The environment after `value` is matched against `pattern`: `None`
/// where it does not match.
pub open spec fn bind(pattern: PatternModel, value: Value, env: Map<Symbol, Value>) -> Option<
    Map<Symbol, Value>,
>
    decreases pattern, 0nat,
{
    match pattern {
        PatternModel::Identifier(symbol) => Some(env.insert(symbol, value)),
        PatternModel::Underscore => Some(env),
        PatternModel::RecordDestructure { destructs, .. } => {
            if destructs.len() == 0 && value is EmptyRecord {
                Some(env)
            } else {
                None
            }
        },
        PatternModel::AppliedTag { tag_name, arguments, .. } => {
            match value {
                Value::Tag(name, payload) => {
                    if name == tag_name && payload.len() == arguments.len() {
                        bind_all(arguments, payload, env, 0)
                    } else {
                        None
                    }
                },
                _ => None,
            }
        },
    }
}

/// The environment after the values from place `from` on are matched, one
/// after the other, against the patterns at the same places.
pub open spec fn bind_all(
    patterns: Seq<(Variable, Loc<PatternModel>)>,
    values: Seq<Value>,
    env: Map<Symbol, Value>,
    from: int,
) -> Option<Map<Symbol, Value>>
    decreases patterns, patterns.len() - from,
{
    if 0 <= from < patterns.len() {
        match bind(patterns[from].1.value, values[from], env) {
            Some(bound) => bind_all(patterns, values, bound, from + 1),
            None => None,
        }
    } else {
        Some(env)
    }
}

/// What a closure takes along from the environment it is made in: the
/// values of the symbols it captures. `None` where one of them is unbound.
pub open spec fn capture(captured: Seq<(Symbol, Variable)>, env: Map<Symbol, Value>) -> Option<
    Map<Symbol, Value>,
> {
    if forall|i: int| 0 <= i < captured.len() ==> env.dom().contains((#[trigger] captured[i]).0) {
        Some(
            Map::new(
                |s: Symbol| exists|i: int| 0 <= i < captured.len() && (#[trigger] captured[i]).0 == s,
                |s: Symbol| env[s],
            ),
        )
    } else {
        None
    }
}

/// The value of `expr` in `env`, where no chain of calls is longer than
/// `fuel`. `None` where the expression has no value within that bound.
///
/// `top` holds the values of the top-level definitions. A symbol stands for
/// what `env` binds it to, and for what `top` holds where `env` binds
/// nothing.
pub open spec fn eval(
    expr: ExprModel,
    top: Map<Symbol, Value>,
    env: Map<Symbol, Value>,
    fuel: nat,
) -> Option<Value>
    decreases fuel, expr, 0nat,
{
    match expr {
        ExprModel::Var(symbol) => {
            if env.dom().contains(symbol) {
                Some(env[symbol])
            } else if top.dom().contains(symbol) {
                Some(top[symbol])
            } else {
                None
            }
        },
        ExprModel::EmptyRecord => Some(Value::EmptyRecord),
        ExprModel::Closure(data) => {
            match capture(data.captured_symbols, env) {
                Some(captured) => Some(Value::Closure(data, captured)),
                None => None,
            }
        },
        ExprModel::Tag { name, arguments, .. } => {
            match eval_all(arguments, top, env, fuel, 0) {
                Some(payload) => Some(Value::Tag(name, payload)),
                None => None,
            }
        },
        ExprModel::Call(head, arguments, _) => {
            if fuel == 0 {
                None
            } else {
                match (eval(head.1.value, top, env, fuel), eval_all(arguments, top, env, fuel, 0)) {
                    (Some(Value::Closure(data, captured)), Some(values)) => {
                        // The same as `apply` with one less of fuel.
                        if values.len() == data.arguments.len() {
                            match bind_all(data.arguments, values, captured, 0) {
                                Some(bound) => eval(data.loc_body.value, top, bound, (fuel - 1) as nat),
                                None => None,
                            }
                        } else {
                            None
                        }
                    },
                    _ => None,
                }
            }
        },
        ExprModel::LetNonRec(def, body, _) => {
            match eval(def.loc_expr.value, top, env, fuel) {
                Some(value) => {
                    match bind(def.loc_pattern.value, value, env) {
                        Some(bound) => eval(body.value, top, bound, fuel),
                        None => None,
                    }
                },
                None => None,
            }
        },
        ExprModel::ForeignCall { .. } => None,
    }
}

/// The values of the expressions from place `from` on.
pub open spec fn eval_all(
    exprs: Seq<(Variable, Loc<ExprModel>)>,
    top: Map<Symbol, Value>,
    env: Map<Symbol, Value>,
    fuel: nat,
    from: int,
) -> Option<Seq<Value>>
    decreases fuel, exprs, exprs.len() - from,
{
    if 0 <= from < exprs.len() {
        match (
            eval(exprs[from].1.value, top, env, fuel),
            eval_all(exprs, top, env, fuel, from + 1),
        ) {
            (Some(first), Some(rest)) => Some(seq![first] + rest),
            _ => None,
        }
    } else {
        Some(Seq::empty())
    }
}

/// What the call of `function` on `values` gives.
pub open spec fn apply(
    function: Value,
    values: Seq<Value>,
    top: Map<Symbol, Value>,
    fuel: nat,
) -> Option<Value> {
    match function {
        Value::Closure(data, captured) => {
            if values.len() == data.arguments.len() {
                match bind_all(data.arguments, values, captured, 0) {
                    Some(bound) => eval(data.loc_body.value, top, bound, fuel),
                    None => None,
                }
            } else {
                None
            }
        },
        _ => None,
    }
}

/// What running an effect gives: the call of its thunk on the empty record.
pub open spec fn force(
    effect: Value,
    tag: TagNameModel,
    top: Map<Symbol, Value>,
    fuel: nat,
) -> Option<Value> {
    match effect {
        Value::Tag(name, payload) => {
            if name == tag && payload.len() == 1 {
                apply(payload[0], seq![Value::EmptyRecord], top, fuel)
            } else {
                None
            }
        },
        _ => None,
    }
}

/// The effect with the tag `tag` around `thunk`.
pub open spec fn effect_of(tag: TagNameModel, thunk: Value) -> Value {
    Value::Tag(tag, seq![thunk])
}

/// The call of `function` on `values` gives `result`, under some bound on
/// calls.
pub open spec fn gives(
    function: Value,
    values: Seq<Value>,
    top: Map<Symbol, Value>,
    result: Value,
) -> bool {
    exists|fuel: nat| apply(function, values, top, fuel) == Some(result)
}

/// The effect, run, gives `result`, under some bound on calls.
pub open spec fn runs_to(
    effect: Value,
    tag: TagNameModel,
    top: Map<Symbol, Value>,
    result: Value,
) -> bool {
    exists|fuel: nat| force(effect, tag, top, fuel) == Some(result)
}

/// A value that was reached within a bound on calls is reached within every
/// larger bound.
pub proof fn lemma_eval_monotone(
    expr: ExprModel,
    top: Map<Symbol, Value>,
    env: Map<Symbol, Value>,
    fuel: nat,
    more: nat,
)
    requires
        eval(expr, top, env, fuel) is Some,
        fuel <= more,
    ensures
        eval(expr, top, env, more) == eval(expr, top, env, fuel),
    decreases fuel, expr, 0nat,
{
    match expr {
        ExprModel::Tag { arguments, .. } => {
            lemma_eval_all_monotone(arguments, top, env, fuel, more, 0);
        },
        ExprModel::Call(head, arguments, _) => {
            lemma_eval_monotone(head.1.value, top, env, fuel, more);
            lemma_eval_all_monotone(arguments, top, env, fuel, more, 0);
            match (eval(head.1.value, top, env, fuel), eval_all(arguments, top, env, fuel, 0)) {
                (Some(Value::Closure(data, captured)), Some(values)) => {
                    let bound = bind_all(data.arguments, values, captured, 0).unwrap();
                    lemma_eval_monotone(
                        data.loc_body.value,
                        top,
                        bound,
                        (fuel - 1) as nat,
                        (more - 1) as nat,
                    );
                },
                _ => {},
            }
        },
        ExprModel::LetNonRec(def, body, _) => {
            lemma_eval_monotone(def.loc_expr.value, top, env, fuel, more);
            let value = eval(def.loc_expr.value, top, env, fuel).unwrap();
            let bound = bind(def.loc_pattern.value, value, env).unwrap();
            lemma_eval_monotone(body.value, top, bound, fuel, more);
        },
        _ => {},
    }
}

/// The same of a list of expressions.
pub proof fn lemma_eval_all_monotone(
    exprs: Seq<(Variable, Loc<ExprModel>)>,
    top: Map<Symbol, Value>,
    env: Map<Symbol, Value>,
    fuel: nat,
    more: nat,
    from: int,
)
    requires
        eval_all(exprs, top, env, fuel, from) is Some,
        fuel <= more,
    ensures
        eval_all(exprs, top, env, more, from) == eval_all(exprs, top, env, fuel, from),
    decreases fuel, exprs, exprs.len() - from,
{
    if 0 <= from < exprs.len() {
        lemma_eval_monotone(exprs[from].1.value, top, env, fuel, more);
        lemma_eval_all_monotone(exprs, top, env, fuel, more, from + 1);
    }
}

/// The same of a call.
pub proof fn lemma_apply_monotone(
    function: Value,
    values: Seq<Value>,
    top: Map<Symbol, Value>,
    fuel: nat,
    more: nat,
)
    requires
        apply(function, values, top, fuel) is Some,
        fuel <= more,
    ensures
        apply(function, values, top, more) == apply(function, values, top, fuel),
{
    match function {
        Value::Closure(data, captured) => {
            let bound = bind_all(data.arguments, values, captured, 0).unwrap();
            lemma_eval_monotone(data.loc_body.value, top, bound, fuel, more);
        },
        _ => {},
    }
}

/// The same of running an effect.
pub proof fn lemma_force_monotone(
    effect: Value,
    tag: TagNameModel,
    top: Map<Symbol, Value>,
    fuel: nat,
    more: nat,
)
    requires
        force(effect, tag, top, fuel) is Some,
        fuel <= more,
    ensures
        force(effect, tag, top, more) == force(effect, tag, top, fuel),
{
    lemma_apply_monotone(effect->Tag_1[0], seq![Value::EmptyRecord], top, fuel, more);
}

/// A call gives at most one value, whatever the bound on calls.
pub proof fn lemma_gives_one_value(
    function: Value,
    values: Seq<Value>,
    top: Map<Symbol, Value>,
    first: Value,
    second: Value,
)
    requires
        gives(function, values, top, first),
        gives(function, values, top, second),
    ensures
        first == second,
{
    let m = choose|fuel: nat| apply(function, values, top, fuel) == Some(first);
    let n = choose|fuel: nat| apply(function, values, top, fuel) == Some(second);
    if m <= n {
        lemma_apply_monotone(function, values, top, m, n);
    } else {
        lemma_apply_monotone(function, values, top, n, m);
    }
}

} // verus!
