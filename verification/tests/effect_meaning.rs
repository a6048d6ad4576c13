use module_front::effect_module::{
    build_effect_after, build_effect_always, build_effect_forever, build_effect_map, AfterSymbols,
    AlwaysSymbols, ForeverSymbols, MapSymbols,
};
use module_front::expr::{CalledVia, ClosureData, Def, Expr, Recursive};
use module_front::ident::{Loc, ModuleId, Symbol, TagName, VarStore, Variable};
use module_front::pattern::Pattern;
use std::collections::HashMap;

// A small evaluator for the expressions that the builders make. A closure
// sees what it captured, what its parameters bind, and the top-level
// definitions. A call costs one unit of fuel.

#[derive(Clone, Debug, PartialEq)]
enum Value<'a> {
    EmptyRecord,
    Tag(TagName, Vec<Value<'a>>),
    Closure(&'a ClosureData, HashMap<Symbol, Value<'a>>),
    Opaque(i64),
}

type Env<'a> = HashMap<Symbol, Value<'a>>;

fn bind<'a>(pattern: &Pattern, value: &Value<'a>, env: &mut Env<'a>) -> bool {
    match pattern {
        Pattern::Identifier(symbol) => {
            env.insert(*symbol, value.clone());
            true
        }
        Pattern::Underscore => true,
        Pattern::RecordDestructure { destructs, .. } => {
            destructs.is_empty() && *value == Value::EmptyRecord
        }
        Pattern::AppliedTag { tag_name, arguments, .. } => match value {
            Value::Tag(name, payload) => {
                if name != tag_name || payload.len() != arguments.len() {
                    return false;
                }
                for (argument, part) in arguments.iter().zip(payload.iter()) {
                    if !bind(&argument.1.value, part, env) {
                        return false;
                    }
                }
                true
            }
            _ => false,
        },
    }
}

fn apply<'a>(
    function: &Value<'a>,
    values: &[Value<'a>],
    top: &Env<'a>,
    fuel: u32,
) -> Option<Value<'a>> {
    match function {
        Value::Closure(data, captured) => {
            if values.len() != data.arguments.len() {
                return None;
            }
            let mut env = captured.clone();
            for (argument, value) in data.arguments.iter().zip(values.iter()) {
                if !bind(&argument.1.value, value, &mut env) {
                    return None;
                }
            }
            eval(&data.loc_body.value, top, &env, fuel)
        }
        _ => None,
    }
}

fn eval<'a>(expr: &'a Expr, top: &Env<'a>, env: &Env<'a>, fuel: u32) -> Option<Value<'a>> {
    match expr {
        Expr::Var(symbol) => env.get(symbol).or(top.get(symbol)).cloned(),
        Expr::EmptyRecord => Some(Value::EmptyRecord),
        Expr::Closure(data) => {
            let mut captured = HashMap::new();
            for (symbol, _) in data.captured_symbols.iter() {
                captured.insert(*symbol, env.get(symbol)?.clone());
            }
            Some(Value::Closure(data, captured))
        }
        Expr::Tag { name, arguments, .. } => {
            let mut payload = Vec::new();
            for argument in arguments.iter() {
                payload.push(eval(&argument.1.value, top, env, fuel)?);
            }
            Some(Value::Tag(name.clone(), payload))
        }
        Expr::Call(head, arguments, _) => {
            if fuel == 0 {
                return None;
            }
            let function = eval(&head.1.value, top, env, fuel)?;
            let mut values = Vec::new();
            for argument in arguments.iter() {
                values.push(eval(&argument.1.value, top, env, fuel)?);
            }
            apply(&function, &values, top, fuel - 1)
        }
        Expr::LetNonRec(def, body, _) => {
            let value = eval(&def.loc_expr.value, top, env, fuel)?;
            let mut bound = env.clone();
            if !bind(&def.loc_pattern.value, &value, &mut bound) {
                return None;
            }
            eval(&body.value, top, &bound, fuel)
        }
        Expr::ForeignCall { .. } => None,
    }
}

fn force<'a>(effect: &Value<'a>, tag: &TagName, top: &Env<'a>, fuel: u32) -> Option<Value<'a>> {
    match effect {
        Value::Tag(name, payload) if name == tag && payload.len() == 1 => {
            apply(&payload[0], &[Value::EmptyRecord], top, fuel)
        }
        _ => None,
    }
}

fn symbol(id: u32) -> Symbol {
    Symbol::new(ModuleId { id: 32, builtin: false }, id)
}

fn tag() -> TagName {
    TagName::Private(symbol(1))
}

fn var(index: u32) -> Variable {
    Variable { index }
}

fn always_def(base: u32) -> Def {
    let s = AlwaysSymbols { value: symbol(10), inner: symbol(11), always: symbol(12) };
    build_effect_always(&s, symbol(1), tag(), &mut VarStore::new(base)).1
}

fn map_def(base: u32) -> Def {
    let s = MapSymbols { thunk: symbol(20), mapper: symbol(21), map: symbol(22), inner: symbol(23) };
    build_effect_map(&s, symbol(1), tag(), &mut VarStore::new(base)).1
}

fn after_def(base: u32) -> Def {
    let s = AfterSymbols {
        thunk: symbol(30),
        to_effect: symbol(31),
        after: symbol(32),
        inner: symbol(33),
        thunk2: symbol(34),
    };
    build_effect_after(&s, symbol(1), tag(), &mut VarStore::new(base)).1
}

fn function_of_one(name: u32, param: u32, body: Expr) -> Expr {
    Expr::Closure(ClosureData {
        function_type: var(0),
        closure_type: var(0),
        closure_ext_var: var(0),
        return_type: var(0),
        name: symbol(name),
        captured_symbols: vec![],
        recursive: Recursive::NotRecursive,
        arguments: vec![(var(0), Loc::at_zero(Pattern::Identifier(symbol(param))))],
        loc_body: Box::new(Loc::at_zero(body)),
    })
}

fn call(function: Expr, argument: Expr) -> Expr {
    Expr::Call(
        Box::new((var(0), Loc::at_zero(function), var(0), var(0))),
        vec![(var(0), Loc::at_zero(argument))],
        CalledVia::Space,
    )
}

fn wrapped(name: &str, of: Expr) -> Expr {
    Expr::Tag {
        variant_var: var(0),
        ext_var: var(0),
        name: TagName::Global(String::from(name)),
        arguments: vec![(var(0), Loc::at_zero(of))],
    }
}

fn values<'a>() -> Vec<Value<'a>> {
    vec![
        Value::EmptyRecord,
        Value::Opaque(0),
        Value::Opaque(-17),
        Value::Tag(TagName::Global(String::from("Ok")), vec![Value::Opaque(3)]),
        Value::Tag(tag(), vec![Value::Opaque(4), Value::EmptyRecord]),
    ]
}

#[test]
fn always_gives_back_its_value() {
    let def = always_def(0);
    for fuel in 0..3 {
        let always = eval(&def.loc_expr.value, &HashMap::new(), &HashMap::new(), fuel).unwrap();
        for value in values() {
            let effect = apply(&always, &[value.clone()], &HashMap::new(), fuel).unwrap();
            assert_eq!(force(&effect, &tag(), &HashMap::new(), fuel), Some(value));
        }
    }
}

#[test]
fn always_gives_back_a_function_unchanged() {
    let def = always_def(100);
    let identity = function_of_one(90, 91, Expr::Var(symbol(91)));
    let always = eval(&def.loc_expr.value, &HashMap::new(), &HashMap::new(), 0).unwrap();
    let function = eval(&identity, &HashMap::new(), &HashMap::new(), 0).unwrap();
    let effect = apply(&always, &[function.clone()], &HashMap::new(), 0).unwrap();
    assert_eq!(force(&effect, &tag(), &HashMap::new(), 0), Some(function));
}

#[test]
fn always_makes_an_effect_that_can_be_run_again() {
    let def = always_def(0);
    let always = eval(&def.loc_expr.value, &HashMap::new(), &HashMap::new(), 5).unwrap();
    let effect = apply(&always, &[Value::Opaque(8)], &HashMap::new(), 5).unwrap();
    assert_eq!(force(&effect, &tag(), &HashMap::new(), 5), Some(Value::Opaque(8)));
    assert_eq!(force(&effect, &tag(), &HashMap::new(), 5), Some(Value::Opaque(8)));
    // Run under another tag it is no effect.
    assert_eq!(force(&effect, &TagName::Private(symbol(2)), &HashMap::new(), 5), None);
}

#[test]
fn map_applies_the_function_to_what_the_effect_gives() {
    let always_def = always_def(0);
    let map_def = map_def(50);
    let wrap = function_of_one(90, 91, wrapped("Wrapped", Expr::Var(symbol(91))));
    let fuel = 4;

    let always = eval(&always_def.loc_expr.value, &HashMap::new(), &HashMap::new(), fuel).unwrap();
    let map = eval(&map_def.loc_expr.value, &HashMap::new(), &HashMap::new(), fuel).unwrap();
    let function = eval(&wrap, &HashMap::new(), &HashMap::new(), fuel).unwrap();
    for value in values() {
        let effect = apply(&always, &[value.clone()], &HashMap::new(), fuel).unwrap();
        let mapped = apply(&function, &[value.clone()], &HashMap::new(), fuel).unwrap();
        assert_eq!(mapped, Value::Tag(TagName::Global(String::from("Wrapped")), vec![value]));

        let result = apply(&map, &[effect, function.clone()], &HashMap::new(), fuel).unwrap();
        assert_eq!(force(&result, &tag(), &HashMap::new(), fuel + 1), Some(mapped));
    }
}

#[test]
fn map_does_not_run_the_effect_before_it_is_forced() {
    let map_def = map_def(0);
    let map = eval(&map_def.loc_expr.value, &HashMap::new(), &HashMap::new(), 0).unwrap();
    // With no fuel no call can be made, yet the effect is built.
    let stuck = function_of_one(90, 91, call(Expr::Var(symbol(91)), Expr::EmptyRecord));
    let thunk = eval(&stuck, &HashMap::new(), &HashMap::new(), 0).unwrap();
    let effect = Value::Tag(tag(), vec![thunk.clone()]);
    let result = apply(&map, &[effect, thunk], &HashMap::new(), 0).unwrap();
    assert!(matches!(result, Value::Tag(_, _)));
    assert_eq!(force(&result, &tag(), &HashMap::new(), 0), None);
}

#[test]
fn map_twice_applies_both_functions_in_order() {
    let always_def = always_def(0);
    let map_def = map_def(50);
    let first = function_of_one(90, 91, wrapped("First", Expr::Var(symbol(91))));
    let second = function_of_one(92, 93, wrapped("Second", Expr::Var(symbol(93))));
    let fuel = 8;

    let always = eval(&always_def.loc_expr.value, &HashMap::new(), &HashMap::new(), fuel).unwrap();
    let map = eval(&map_def.loc_expr.value, &HashMap::new(), &HashMap::new(), fuel).unwrap();
    let f = eval(&first, &HashMap::new(), &HashMap::new(), fuel).unwrap();
    let g = eval(&second, &HashMap::new(), &HashMap::new(), fuel).unwrap();

    let effect = apply(&always, &[Value::Opaque(1)], &HashMap::new(), fuel).unwrap();
    let once = apply(&map, &[effect, f], &HashMap::new(), fuel).unwrap();
    let twice = apply(&map, &[once, g], &HashMap::new(), fuel).unwrap();
    let expected = Value::Tag(
        TagName::Global(String::from("Second")),
        vec![Value::Tag(TagName::Global(String::from("First")), vec![Value::Opaque(1)])],
    );
    assert_eq!(force(&twice, &tag(), &HashMap::new(), fuel), Some(expected));
}

#[test]
fn after_runs_nothing_when_it_is_applied() {
    let after_def = after_def(0);
    let after = eval(&after_def.loc_expr.value, &HashMap::new(), &HashMap::new(), 0).unwrap();
    // Neither the effect nor the function can be called without fuel, yet
    // the effect is built.
    let stuck = function_of_one(90, 91, call(Expr::Var(symbol(91)), Expr::EmptyRecord));
    let thunk = eval(&stuck, &HashMap::new(), &HashMap::new(), 0).unwrap();
    let effect = Value::Tag(tag(), vec![thunk.clone()]);
    let result = apply(&after, &[effect, thunk], &HashMap::new(), 0).unwrap();
    match &result {
        Value::Tag(name, payload) => {
            assert_eq!(name, &tag());
            assert_eq!(payload.len(), 1);
            assert!(matches!(payload[0], Value::Closure(_, _)));
        }
        other => panic!("no effect: {:?}", other),
    }
    assert_eq!(force(&result, &tag(), &HashMap::new(), 0), None);
}

#[test]
fn after_runs_the_effect_of_the_continuation() {
    let always_def = always_def(0);
    let after_def = after_def(50);
    let fuel = 4;

    let always = eval(&always_def.loc_expr.value, &HashMap::new(), &HashMap::new(), fuel).unwrap();
    let after = eval(&after_def.loc_expr.value, &HashMap::new(), &HashMap::new(), fuel).unwrap();
    for value in values() {
        let effect = apply(&always, &[value.clone()], &HashMap::new(), fuel).unwrap();
        // The continuation is `always` itself: it makes the effect that
        // gives its argument.
        let next = apply(&always, &[value.clone()], &HashMap::new(), fuel).unwrap();
        let result = apply(&after, &[effect, always.clone()], &HashMap::new(), 0).unwrap();
        assert_eq!(
            force(&result, &tag(), &HashMap::new(), fuel + 1),
            force(&next, &tag(), &HashMap::new(), fuel)
        );
        assert_eq!(force(&result, &tag(), &HashMap::new(), fuel + 1), Some(value));
    }
}

#[test]
fn after_needs_one_call_more_than_what_it_runs() {
    let always_def = always_def(0);
    let after_def = after_def(50);
    let always = eval(&always_def.loc_expr.value, &HashMap::new(), &HashMap::new(), 0).unwrap();
    let after = eval(&after_def.loc_expr.value, &HashMap::new(), &HashMap::new(), 0).unwrap();
    let effect = apply(&always, &[Value::Opaque(2)], &HashMap::new(), 0).unwrap();
    let result = apply(&after, &[effect, always], &HashMap::new(), 0).unwrap();
    assert_eq!(force(&result, &tag(), &HashMap::new(), 0), None);
    assert_eq!(force(&result, &tag(), &HashMap::new(), 1), Some(Value::Opaque(2)));
    assert_eq!(force(&result, &tag(), &HashMap::new(), 9), Some(Value::Opaque(2)));
}

#[test]
fn after_hands_the_value_to_the_continuation() {
    let always_def = always_def(0);
    let map_def = map_def(50);
    let after_def = after_def(100);
    let wrap = function_of_one(90, 91, wrapped("Seen", Expr::Var(symbol(91))));
    let fuel = 6;

    let always = eval(&always_def.loc_expr.value, &HashMap::new(), &HashMap::new(), fuel).unwrap();
    let map = eval(&map_def.loc_expr.value, &HashMap::new(), &HashMap::new(), fuel).unwrap();
    let after = eval(&after_def.loc_expr.value, &HashMap::new(), &HashMap::new(), fuel).unwrap();
    let function = eval(&wrap, &HashMap::new(), &HashMap::new(), fuel).unwrap();

    // after (map (always 5) Seen) always  gives  Seen 5
    let five = apply(&always, &[Value::Opaque(5)], &HashMap::new(), fuel).unwrap();
    let seen = apply(&map, &[five, function], &HashMap::new(), fuel).unwrap();
    let result = apply(&after, &[seen, always], &HashMap::new(), fuel).unwrap();
    assert_eq!(
        force(&result, &tag(), &HashMap::new(), fuel),
        Some(Value::Tag(TagName::Global(String::from("Seen")), vec![Value::Opaque(5)]))
    );
}

#[test]
fn after_of_a_continuation_that_makes_no_effect_gives_no_value() {
    let always_def = always_def(0);
    let after_def = after_def(50);
    let identity = function_of_one(90, 91, Expr::Var(symbol(91)));
    let always = eval(&always_def.loc_expr.value, &HashMap::new(), &HashMap::new(), 0).unwrap();
    let after = eval(&after_def.loc_expr.value, &HashMap::new(), &HashMap::new(), 0).unwrap();
    let function = eval(&identity, &HashMap::new(), &HashMap::new(), 0).unwrap();
    let effect = apply(&always, &[Value::Opaque(2)], &HashMap::new(), 0).unwrap();
    let result = apply(&after, &[effect, function], &HashMap::new(), 0).unwrap();
    for fuel in 0..6 {
        assert_eq!(force(&result, &tag(), &HashMap::new(), fuel), None);
    }
}

#[test]
fn after_needs_an_effect_of_its_own_tag() {
    let after_def = after_def(0);
    let always_def = always_def(50);
    let after = eval(&after_def.loc_expr.value, &HashMap::new(), &HashMap::new(), 3).unwrap();
    let always = eval(&always_def.loc_expr.value, &HashMap::new(), &HashMap::new(), 3).unwrap();
    let foreign = Value::Tag(TagName::Private(symbol(2)), vec![always.clone()]);
    assert_eq!(apply(&after, &[foreign, always.clone()], &HashMap::new(), 3), None);
    assert_eq!(apply(&after, &[Value::Opaque(1), always], &HashMap::new(), 3), None);
}

fn forever_symbols() -> ForeverSymbols {
    ForeverSymbols {
        forever: symbol(40),
        effect: symbol(41),
        inner: symbol(42),
        thunk1: symbol(43),
        thunk2: symbol(44),
    }
}

#[test]
fn forever_makes_an_effect_without_running_anything() {
    let s = forever_symbols();
    let def = build_effect_forever(&s, symbol(1), tag(), &mut VarStore::new(0)).1;
    let forever = eval(&def.loc_expr.value, &HashMap::new(), &HashMap::new(), 0).unwrap();
    let looping = apply(&forever, &[Value::Opaque(1)], &HashMap::new(), 0).unwrap();
    match looping {
        Value::Tag(name, payload) => {
            assert_eq!(name, tag());
            assert_eq!(payload.len(), 1);
            assert!(matches!(payload[0], Value::Closure(_, _)));
        }
        other => panic!("no effect: {:?}", other),
    }
}

#[test]
fn forever_never_gives_a_value() {
    let s = forever_symbols();
    let always_def = always_def(0);
    let forever_def = build_effect_forever(&s, symbol(1), tag(), &mut VarStore::new(100)).1;

    let forever = eval(&forever_def.loc_expr.value, &HashMap::new(), &HashMap::new(), 0).unwrap();
    let mut top = HashMap::new();
    top.insert(s.forever, forever.clone());

    let always = eval(&always_def.loc_expr.value, &top, &HashMap::new(), 0).unwrap();
    let effect = apply(&always, &[Value::Opaque(3)], &top, 0).unwrap();
    assert_eq!(force(&effect, &tag(), &top, 0), Some(Value::Opaque(3)));

    let looping = apply(&forever, &[effect], &top, 0).unwrap();
    for fuel in 0..40 {
        assert_eq!(force(&looping, &tag(), &top, fuel), None);
    }
}

#[test]
fn forever_of_what_is_no_effect_gives_no_value_either() {
    let s = forever_symbols();
    let forever_def = build_effect_forever(&s, symbol(1), tag(), &mut VarStore::new(0)).1;
    let forever = eval(&forever_def.loc_expr.value, &HashMap::new(), &HashMap::new(), 0).unwrap();
    let mut top = HashMap::new();
    top.insert(s.forever, forever.clone());
    let looping = apply(&forever, &[Value::Opaque(3)], &top, 0).unwrap();
    for fuel in 0..10 {
        assert_eq!(force(&looping, &tag(), &top, fuel), None);
    }
}

#[test]
fn top_level_definitions_are_seen_where_nothing_hides_them() {
    let always_def = always_def(0);
    let always = eval(&always_def.loc_expr.value, &HashMap::new(), &HashMap::new(), 0).unwrap();
    let mut top = HashMap::new();
    top.insert(symbol(12), always);
    // `always {}` written as a call of the top-level symbol.
    let expr = call(Expr::Var(symbol(12)), Expr::EmptyRecord);
    let effect = eval(&expr, &top, &HashMap::new(), 1).unwrap();
    assert_eq!(force(&effect, &tag(), &top, 0), Some(Value::EmptyRecord));
    assert_eq!(eval(&expr, &HashMap::new(), &HashMap::new(), 1), None);
}
