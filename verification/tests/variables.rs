use module_front::effect_module::{
    build_effect_after, build_effect_always, build_effect_builtins, build_effect_forever,
    build_effect_map, build_host_exposed_def, AfterSymbols, AlwaysSymbols, EffectSymbols,
    ForeverSymbols, HostExposedSymbols, MapSymbols,
};
use module_front::expr::{
    Annotation, Declaration, Def, DefAnnotation, Expr, IntroducedVariables,
};
use module_front::ident::{Loc, ModuleId, Symbol, TagName, VarStore, Variable};
use module_front::pattern::Pattern;
use module_front::types::Type;

// Walks a tree and gathers every variable in it.

fn pattern_vars(pattern: &Pattern, out: &mut Vec<Variable>) {
    match pattern {
        Pattern::Identifier(_) | Pattern::Underscore => {}
        Pattern::RecordDestructure { whole_var, ext_var, destructs } => {
            out.push(*whole_var);
            out.push(*ext_var);
            for destruct in destructs.iter() {
                out.push(destruct.value.var);
            }
        }
        Pattern::AppliedTag { whole_var, ext_var, arguments, .. } => {
            out.push(*whole_var);
            out.push(*ext_var);
            located_pattern_vars(arguments, out);
        }
    }
}

fn located_pattern_vars(patterns: &Vec<(Variable, Loc<Pattern>)>, out: &mut Vec<Variable>) {
    for (var, pattern) in patterns.iter() {
        out.push(*var);
        pattern_vars(&pattern.value, out);
    }
}

fn type_vars(typ: &Type, out: &mut Vec<Variable>) {
    match typ {
        Type::EmptyRec | Type::EmptyTagUnion | Type::Erroneous(_) => {}
        Type::Foreign(number) => panic!("a builder made a type it does not look into: {}", number),
        Type::Function(args, closure, ret) => {
            for arg in args.iter() {
                type_vars(arg, out);
            }
            type_vars(closure, out);
            type_vars(ret, out);
        }
        Type::Record(fields, ext) => {
            for (_, field) in fields.iter() {
                type_vars(field, out);
            }
            type_vars(ext, out);
        }
        Type::TagUnion(tags, ext) => {
            for (_, payload) in tags.iter() {
                for t in payload.iter() {
                    type_vars(t, out);
                }
            }
            type_vars(ext, out);
        }
        Type::Alias { type_arguments, lambda_set_variables, actual, .. } => {
            for (_, t) in type_arguments.iter() {
                type_vars(t, out);
            }
            for t in lambda_set_variables.iter() {
                type_vars(t, out);
            }
            type_vars(actual, out);
        }
        Type::RecursiveTagUnion(rec, tags, ext) => {
            out.push(*rec);
            for (_, payload) in tags.iter() {
                for t in payload.iter() {
                    type_vars(t, out);
                }
            }
            type_vars(ext, out);
        }
        Type::Apply(_, args) => {
            for arg in args.iter() {
                type_vars(arg, out);
            }
        }
        Type::Variable(var) => out.push(*var),
    }
}

fn annotation_vars(annotation: &DefAnnotation, out: &mut Vec<Variable>) {
    type_vars(&annotation.signature, out);
    out.extend(annotation.introduced_variables.wildcards.iter().copied());
    out.extend(annotation.introduced_variables.named.iter().map(|(_, var)| *var));
    out.extend(annotation.introduced_variables.host_exposed_aliases.iter().map(|(_, var)| *var));
}

fn expr_vars(expr: &Expr, out: &mut Vec<Variable>) {
    match expr {
        Expr::Var(_) | Expr::EmptyRecord => {}
        Expr::Call(head, arguments, _) => {
            out.push(head.0);
            expr_vars(&head.1.value, out);
            out.push(head.2);
            out.push(head.3);
            for (var, argument) in arguments.iter() {
                out.push(*var);
                expr_vars(&argument.value, out);
            }
        }
        Expr::Closure(data) => {
            out.push(data.function_type);
            out.push(data.closure_type);
            out.push(data.closure_ext_var);
            out.push(data.return_type);
            out.extend(data.captured_symbols.iter().map(|(_, var)| *var));
            located_pattern_vars(&data.arguments, out);
            expr_vars(&data.loc_body.value, out);
        }
        Expr::Tag { variant_var, ext_var, arguments, .. } => {
            out.push(*variant_var);
            out.push(*ext_var);
            for (var, argument) in arguments.iter() {
                out.push(*var);
                expr_vars(&argument.value, out);
            }
        }
        Expr::LetNonRec(def, body, var) => {
            def_vars(def, out);
            expr_vars(&body.value, out);
            out.push(*var);
        }
        Expr::ForeignCall { args, ret_var, .. } => {
            out.push(*ret_var);
            for (var, arg) in args.iter() {
                out.push(*var);
                expr_vars(arg, out);
            }
        }
    }
}

fn def_body_vars(def: &Def, out: &mut Vec<Variable>) {
    pattern_vars(&def.loc_pattern.value, out);
    expr_vars(&def.loc_expr.value, out);
    out.push(def.expr_var);
    out.extend(def.pattern_vars.iter().map(|(_, var)| *var));
}

fn def_vars(def: &Def, out: &mut Vec<Variable>) {
    def_body_vars(def, out);
    if let Some(annotation) = &def.annotation {
        annotation_vars(annotation, out);
    }
}

fn symbol(id: u32) -> Symbol {
    Symbol::new(ModuleId { id: 33, builtin: false }, id)
}

fn tag() -> TagName {
    TagName::Private(symbol(1))
}

fn effect_symbols() -> EffectSymbols {
    EffectSymbols {
        after: AfterSymbols {
            thunk: symbol(30),
            to_effect: symbol(31),
            after: symbol(32),
            inner: symbol(33),
            thunk2: symbol(34),
        },
        map: MapSymbols { thunk: symbol(20), mapper: symbol(21), map: symbol(22), inner: symbol(23) },
        always: AlwaysSymbols { value: symbol(10), inner: symbol(11), always: symbol(12) },
        forever: ForeverSymbols {
            forever: symbol(40),
            effect: symbol(41),
            inner: symbol(42),
            thunk1: symbol(43),
            thunk2: symbol(44),
        },
    }
}

/// Every variable lies in the range, and every variable of the range
/// occurs.
fn assert_exactly_the_range(vars: &Vec<Variable>, from: u32, to: u32) {
    for var in vars.iter() {
        assert!(from <= var.index && var.index < to, "{:?} outside {}..{}", var, from, to);
    }
    for index in from..to {
        assert!(vars.contains(&Variable { index }), "{} is not used", index);
    }
}

#[test]
fn always_uses_exactly_the_variables_it_drew() {
    let mut store = VarStore::new(500);
    let (_, def) = build_effect_always(&effect_symbols().always, symbol(1), tag(), &mut store);
    let mut vars = Vec::new();
    def_vars(&def, &mut vars);
    assert_exactly_the_range(&vars, 500, store.peek());
}

#[test]
fn map_uses_exactly_the_variables_it_drew() {
    let mut store = VarStore::new(500);
    let (_, def) = build_effect_map(&effect_symbols().map, symbol(1), tag(), &mut store);
    let mut vars = Vec::new();
    def_vars(&def, &mut vars);
    assert_exactly_the_range(&vars, 500, store.peek());
}

#[test]
fn after_uses_exactly_the_variables_it_drew() {
    let mut store = VarStore::new(500);
    let (_, def) = build_effect_after(&effect_symbols().after, symbol(1), tag(), &mut store);
    let mut vars = Vec::new();
    def_vars(&def, &mut vars);
    assert_exactly_the_range(&vars, 500, store.peek());
}

#[test]
fn forever_uses_exactly_the_variables_it_drew() {
    let mut store = VarStore::new(500);
    let (_, def) = build_effect_forever(&effect_symbols().forever, symbol(1), tag(), &mut store);
    let mut vars = Vec::new();
    def_vars(&def, &mut vars);
    assert_exactly_the_range(&vars, 500, store.peek());
}

#[test]
fn the_builtins_share_no_variable() {
    let mut store = VarStore::new(0);
    let mut exposed = Vec::new();
    let mut declarations = Vec::new();
    build_effect_builtins(&effect_symbols(), symbol(1), &mut store, &mut exposed, &mut declarations);

    let mut seen: Vec<Vec<Variable>> = Vec::new();
    for declaration in declarations.iter() {
        let mut vars = Vec::new();
        match declaration {
            Declaration::Declare(def) | Declaration::Builtin(def) => def_vars(def, &mut vars),
            Declaration::DeclareRec(defs) => {
                for def in defs.iter() {
                    def_vars(def, &mut vars);
                }
            }
        }
        for earlier in seen.iter() {
            for var in vars.iter() {
                assert!(!earlier.contains(var));
            }
        }
        seen.push(vars);
    }
    let all: Vec<Variable> = seen.into_iter().flatten().collect();
    assert_exactly_the_range(&all, 0, 144);
}

#[test]
fn host_exposed_body_uses_exactly_the_variables_it_drew() {
    for arity in 0..4usize {
        let mut args = Vec::new();
        for _ in 0..arity {
            args.push(Type::EmptyRec);
        }
        let typ = Type::Function(
            args,
            Box::new(Type::Variable(Variable { index: 7 })),
            Box::new(Type::EmptyRec),
        );
        let annotation = Annotation {
            typ,
            introduced_variables: IntroducedVariables {
                wildcards: vec![Variable { index: 7 }],
                named: vec![],
                host_exposed_aliases: vec![],
            },
            references: vec![],
            aliases: vec![],
        };
        let symbols = HostExposedSymbols {
            arguments: (0..arity as u32).map(|i| symbol(100 + i)).collect(),
            effect_closure: symbol(200),
        };
        let mut store = VarStore::new(900);
        let def = build_host_exposed_def(&symbols, symbol(50), "f", tag(), &mut store, annotation);
        let mut vars = Vec::new();
        def_body_vars(&def, &mut vars);
        assert_exactly_the_range(&vars, 900, store.peek());
    }
}

#[test]
fn host_exposed_value_uses_exactly_the_variables_it_drew() {
    let annotation = Annotation {
        typ: Type::EmptyRec,
        introduced_variables: IntroducedVariables::new(),
        references: vec![],
        aliases: vec![],
    };
    let symbols = HostExposedSymbols { arguments: vec![], effect_closure: symbol(200) };
    let mut store = VarStore::new(900);
    let def = build_host_exposed_def(&symbols, symbol(50), "f", tag(), &mut store, annotation);
    let mut vars = Vec::new();
    def_body_vars(&def, &mut vars);
    assert_exactly_the_range(&vars, 900, 912);
}
