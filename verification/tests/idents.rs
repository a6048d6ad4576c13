use module_front::ident::{Loc, ModuleId, Region, Symbol, TagName, VarStore, Variable};
use module_front::naming::{
    make_closure_arg_name, make_effect_closure_name, make_foreign_symbol_name, push_decimal,
};

#[test]
fn fresh_counts_up_from_the_start() {
    let mut store = VarStore::new(7);
    assert_eq!(store.fresh(), Variable { index: 7 });
    assert_eq!(store.fresh(), Variable { index: 8 });
    assert_eq!(store.peek(), 9);
}

#[test]
fn fresh_never_repeats() {
    let mut store = VarStore::new(0);
    let mut seen: Vec<Variable> = Vec::new();
    for _ in 0..100 {
        let var = store.fresh();
        assert!(!seen.contains(&var));
        seen.push(var);
    }
}

#[test]
fn remaining_counts_down() {
    let mut store = VarStore::new(u32::MAX - 2);
    assert_eq!(store.remaining(), 2);
    store.fresh();
    assert_eq!(store.remaining(), 1);
    store.fresh();
    assert_eq!(store.remaining(), 0);
    assert_eq!(store.peek(), u32::MAX);
}

#[test]
fn symbol_knows_its_module() {
    let module_id = ModuleId { id: 12, builtin: false };
    let symbol = Symbol::new(module_id, 3);
    assert_eq!(symbol.module_id(), module_id);
    assert_eq!(symbol.ident_id, 3);
    assert!(!symbol.module_id().is_builtin());
    assert!(ModuleId { id: 1, builtin: true }.is_builtin());
}

#[test]
fn at_zero_is_the_empty_region() {
    let loc = Loc::at_zero(5u8);
    assert_eq!(loc.region, Region { start: 0, end: 0 });
    assert_eq!(loc.region, Region::zero());
    assert_eq!(loc.value, 5);
}

#[test]
fn tag_name_clone_is_equal() {
    let symbol = Symbol::new(ModuleId { id: 4, builtin: false }, 9);
    let tags = vec![
        TagName::Global(String::from("Ok")),
        TagName::Private(symbol),
        TagName::Closure(symbol),
    ];
    for tag in tags.iter() {
        assert_eq!(&tag.clone(), tag);
    }
}

#[test]
fn decimal_of_small_and_large_numbers() {
    let cases: Vec<(usize, &str)> = vec![
        (0, "0"),
        (7, "7"),
        (9, "9"),
        (10, "10"),
        (11, "11"),
        (99, "99"),
        (100, "100"),
        (1234567890, "1234567890"),
    ];
    for (n, expected) in cases {
        let mut out = String::new();
        push_decimal(&mut out, n);
        assert_eq!(out, expected);
    }
}

#[test]
fn decimal_is_appended() {
    let mut out = String::from("x_");
    push_decimal(&mut out, 42);
    assert_eq!(out, "x_42");
}

#[test]
fn decimal_agrees_with_the_standard_formatting() {
    for n in 0..2000usize {
        let mut out = String::new();
        push_decimal(&mut out, n);
        assert_eq!(out, format!("{}", n));
    }
    let mut out = String::new();
    push_decimal(&mut out, usize::MAX);
    assert_eq!(out, format!("{}", usize::MAX));
}

#[test]
fn host_names_follow_the_convention() {
    assert_eq!(make_foreign_symbol_name("putLine"), "roc_fx_putLine");
    assert_eq!(make_effect_closure_name("putLine"), "effect_closure_putLine");
    assert_eq!(make_closure_arg_name("putLine", 0), "closure_arg_putLine_0");
    assert_eq!(make_closure_arg_name("putLine", 12), "closure_arg_putLine_12");
    assert_eq!(make_foreign_symbol_name(""), "roc_fx_");
}
