use module_front::ident::{Loc, ModuleId, Region, Symbol, TagName, VarId, Variable};
use module_front::imports::{
    all_distinct, check_local_imports, check_reference, check_references, check_tables,
    constrain_imports,
    contains_symbol, find_module, find_symbol, import_symbol, insert_alias,
    introduce_builtin_imports, merge_aliases, modules_are_keys, pre_constrain_imports,
    remove_module, symbols_are_keys, ConstrainableImports, ExposedModuleTypes, HackyImport, Import,
    ImportFailure, LocalImport, StdLib, StorageSubs,
};
use module_front::solved::{AliasKind, FreeVars, SolvedType};
use module_front::types::{Alias, Problem, Type};

fn home() -> ModuleId {
    ModuleId { id: 40, builtin: false }
}

fn other(id: u32) -> ModuleId {
    ModuleId { id, builtin: false }
}

fn builtin(id: u32) -> ModuleId {
    ModuleId { id, builtin: true }
}

fn region(n: u32) -> Region {
    Region { start: n, end: n + 1 }
}

fn var(index: u32) -> Variable {
    Variable { index }
}

fn alias(n: u32) -> Alias {
    Alias {
        region: region(n),
        type_variables: vec![(String::from("a"), var(n))],
        lambda_set_variables: vec![],
        recursion_variables: vec![],
        typ: Type::Variable(var(n)),
    }
}

fn solved(n: u32) -> SolvedType {
    SolvedType::Apply(Symbol::new(builtin(1), n), vec![SolvedType::Rigid(String::from("a"))])
}

fn stdlib() -> StdLib {
    StdLib {
        types: vec![
            (Symbol::new(builtin(1), 1), (solved(1), region(10))),
            (Symbol::new(builtin(2), 1), (solved(2), region(20))),
        ],
        applies: vec![Symbol::new(builtin(1), 50)],
        aliases: vec![Symbol::new(builtin(2), 60)],
    }
}

fn valid(module: ModuleId, storage: u32) -> ExposedModuleTypes {
    ExposedModuleTypes::Valid {
        solved_types: vec![
            (Symbol::new(module, 1), solved(100 + module.id)),
            (Symbol::new(module, 2), solved(200 + module.id)),
        ],
        aliases: vec![
            (Symbol::new(module, 70), alias(module.id)),
            (Symbol::new(other(999), 71), alias(1000 + module.id)),
        ],
        stored_vars_by_symbol: vec![
            (Symbol::new(module, 2), var(2000 + module.id)),
            (Symbol::new(module, 1), var(1000 + module.id)),
        ],
        storage_subs: StorageSubs { id: storage },
    }
}

fn exposed() -> Vec<(ModuleId, ExposedModuleTypes)> {
    vec![
        (other(41), valid(other(41), 1)),
        (other(42), ExposedModuleTypes::Invalid),
        (other(43), valid(other(43), 3)),
    ]
}

fn imported_modules() -> Vec<(ModuleId, Region)> {
    vec![
        (other(41), region(1)),
        (other(42), region(2)),
        (other(43), region(3)),
        (other(44), region(4)),
        (builtin(1), region(5)),
    ]
}

fn resolve(references: &Vec<Symbol>) -> ConstrainableImports {
    assert!(all_distinct(references));
    assert!(check_tables(&imported_modules(), &exposed(), &stdlib()));
    assert_eq!(check_references(home(), references, &exposed(), &stdlib()), None);
    pre_constrain_imports(home(), references, imported_modules(), &exposed(), &stdlib())
}

#[test]
fn nothing_referenced_nothing_imported() {
    let imports = resolve(&Vec::new());
    assert!(imports.imported_symbols.is_empty());
    assert!(imports.hacky_symbols.is_empty());
    assert!(imports.imported_aliases.is_empty());
    assert_eq!(imports.unused_imports, imported_modules());
}

#[test]
fn builtin_value_is_imported_at_its_region() {
    let symbol = Symbol::new(builtin(2), 1);
    let imports = resolve(&vec![symbol]);
    assert_eq!(
        imports.imported_symbols,
        vec![Import { loc_symbol: Loc { region: region(20), value: symbol }, solved_type: solved(2) }]
    );
    assert!(imports.hacky_symbols.is_empty());
    assert!(imports.imported_aliases.is_empty());
}

#[test]
fn builtin_apply_or_alias_is_no_import_and_no_failure() {
    let apply = Symbol::new(builtin(1), 50);
    let alias = Symbol::new(builtin(2), 60);
    assert_eq!(check_reference(home(), apply, &exposed(), &stdlib()), None);
    assert_eq!(check_reference(home(), alias, &exposed(), &stdlib()), None);
    let imports = resolve(&vec![apply, alias]);
    assert!(imports.imported_symbols.is_empty());
    assert!(imports.hacky_symbols.is_empty());
    assert!(imports.imported_aliases.is_empty());
    // The module of the apply was imported and is used now.
    assert!(!imports.unused_imports.iter().any(|(m, _)| *m == builtin(1)));
}

#[test]
fn unknown_builtin_is_a_failure() {
    let unknown = Symbol::new(builtin(1), 999);
    assert_eq!(
        check_reference(home(), unknown, &exposed(), &stdlib()),
        Some(ImportFailure::MissingBuiltin(unknown))
    );
    assert_eq!(
        check_references(home(), &vec![Symbol::new(builtin(1), 1), unknown], &exposed(), &stdlib()),
        Some(ImportFailure::MissingBuiltin(unknown))
    );
}

#[test]
fn module_without_entry_is_a_failure() {
    let symbol = Symbol::new(other(44), 1);
    assert_eq!(
        check_reference(home(), symbol, &exposed(), &stdlib()),
        Some(ImportFailure::MissingModule(other(44)))
    );
}

#[test]
fn solved_type_without_stored_variable_is_a_failure() {
    let module = other(45);
    let symbol = Symbol::new(module, 1);
    let table = vec![(
        module,
        ExposedModuleTypes::Valid {
            solved_types: vec![(symbol, solved(1))],
            aliases: vec![],
            stored_vars_by_symbol: vec![],
            storage_subs: StorageSubs { id: 5 },
        },
    )];
    assert_eq!(
        check_reference(home(), symbol, &table, &stdlib()),
        Some(ImportFailure::MissingStoredVar(symbol))
    );
    // A symbol without a solved type needs no stored variable.
    assert_eq!(check_reference(home(), Symbol::new(module, 2), &table, &stdlib()), None);
}

#[test]
fn the_first_failure_is_reported() {
    let missing_module = Symbol::new(other(44), 1);
    let unknown = Symbol::new(builtin(1), 999);
    let fine = Symbol::new(other(41), 1);
    assert_eq!(
        check_references(home(), &vec![fine, missing_module, unknown], &exposed(), &stdlib()),
        Some(ImportFailure::MissingModule(other(44)))
    );
    assert_eq!(
        check_references(home(), &vec![unknown, missing_module], &exposed(), &stdlib()),
        Some(ImportFailure::MissingBuiltin(unknown))
    );
}

#[test]
fn symbol_of_the_home_module_needs_nothing() {
    let own = Symbol::new(home(), 5);
    assert_eq!(check_reference(home(), own, &exposed(), &stdlib()), None);
    let imports = resolve(&vec![own]);
    assert!(imports.imported_symbols.is_empty());
    assert_eq!(imports.unused_imports, imported_modules());
}

#[test]
fn symbol_of_a_valid_module_is_imported_both_ways() {
    let symbol = Symbol::new(other(41), 2);
    let imports = resolve(&vec![symbol]);
    assert_eq!(
        imports.imported_symbols,
        vec![Import { loc_symbol: Loc::at_zero(symbol), solved_type: solved(241) }]
    );
    assert_eq!(
        imports.hacky_symbols,
        vec![HackyImport {
            storage_subs: StorageSubs { id: 1 },
            loc_symbol: Loc::at_zero(symbol),
            variable: var(2041),
        }]
    );
    assert_eq!(
        imports.imported_aliases,
        vec![
            (Symbol::new(other(41), 70), alias(41)),
            (Symbol::new(other(999), 71), alias(1041)),
        ]
    );
}

#[test]
fn symbol_without_solved_type_is_skipped() {
    let symbol = Symbol::new(other(41), 9);
    let imports = resolve(&vec![symbol]);
    assert!(imports.imported_symbols.is_empty());
    assert!(imports.hacky_symbols.is_empty());
    // Its aliases come with an import only.
    assert!(imports.imported_aliases.is_empty());
    // The module counts as used all the same.
    assert!(!imports.unused_imports.iter().any(|(m, _)| *m == other(41)));
}

#[test]
fn symbol_of_an_invalid_module_gets_the_placeholder() {
    let symbol = Symbol::new(other(42), 7);
    assert_eq!(check_reference(home(), symbol, &exposed(), &stdlib()), None);
    let imports = resolve(&vec![symbol]);
    assert_eq!(
        imports.imported_symbols,
        vec![Import {
            loc_symbol: Loc::at_zero(symbol),
            solved_type: SolvedType::Erroneous(Problem::InvalidModule),
        }]
    );
    assert!(imports.hacky_symbols.is_empty());
    assert!(imports.imported_aliases.is_empty());
}

#[test]
fn every_symbol_of_an_invalid_module_gets_one_import() {
    let references: Vec<Symbol> = (0..5).map(|i| Symbol::new(other(42), i)).collect();
    let imports = resolve(&references);
    assert_eq!(imports.imported_symbols.len(), 5);
    for (import, symbol) in imports.imported_symbols.iter().zip(references.iter()) {
        assert_eq!(import.loc_symbol.value, *symbol);
        assert_eq!(import.solved_type, SolvedType::invalid_module());
    }
}

#[test]
fn referenced_modules_are_not_unused() {
    let references = vec![
        Symbol::new(other(43), 1),
        Symbol::new(builtin(1), 1),
        Symbol::new(other(41), 9),
    ];
    let imports = resolve(&references);
    assert_eq!(imports.unused_imports, vec![(other(42), region(2)), (other(44), region(4))]);
    for symbol in references.iter() {
        assert!(!imports.unused_imports.iter().any(|(m, _)| *m == symbol.module_id()));
    }
}

#[test]
fn module_that_was_not_imported_can_be_referred_to() {
    let table = vec![(other(60), ExposedModuleTypes::Invalid)];
    let references = vec![Symbol::new(other(60), 1)];
    let imports =
        pre_constrain_imports(home(), &references, imported_modules(), &table, &stdlib());
    assert_eq!(imports.unused_imports, imported_modules());
    assert_eq!(imports.imported_symbols.len(), 1);
}

#[test]
fn imports_come_in_the_order_of_the_references() {
    let references = vec![
        Symbol::new(other(43), 2),
        Symbol::new(builtin(1), 1),
        Symbol::new(other(42), 3),
        Symbol::new(other(41), 1),
        Symbol::new(home(), 1),
        Symbol::new(builtin(1), 50),
    ];
    let imports = resolve(&references);
    let symbols: Vec<Symbol> =
        imports.imported_symbols.iter().map(|import| import.loc_symbol.value).collect();
    assert_eq!(
        symbols,
        vec![
            Symbol::new(other(43), 2),
            Symbol::new(builtin(1), 1),
            Symbol::new(other(42), 3),
            Symbol::new(other(41), 1),
        ]
    );
    let hacky: Vec<(Symbol, Variable, u32)> = imports
        .hacky_symbols
        .iter()
        .map(|h| (h.loc_symbol.value, h.variable, h.storage_subs.id))
        .collect();
    assert_eq!(
        hacky,
        vec![(Symbol::new(other(43), 2), var(2043), 3), (Symbol::new(other(41), 1), var(1041), 1)]
    );
}

#[test]
fn each_reference_that_imports_brings_exactly_one_import() {
    let references = vec![
        Symbol::new(other(41), 1),
        Symbol::new(other(41), 2),
        Symbol::new(other(42), 1),
        Symbol::new(other(42), 2),
        Symbol::new(builtin(1), 1),
        Symbol::new(builtin(1), 50),
        Symbol::new(other(43), 9),
        Symbol::new(home(), 1),
    ];
    assert!(all_distinct(&references));
    let imports = resolve(&references);
    let brought: Vec<Symbol> =
        imports.imported_symbols.iter().map(|import| import.loc_symbol.value).collect();
    assert_eq!(brought, references[0..5].to_vec());
    assert!(all_distinct(&brought));
    assert_eq!(imports.hacky_symbols.len(), 2);
}

#[test]
fn all_distinct_finds_a_symbol_that_stands_twice() {
    let a = Symbol::new(other(41), 1);
    let b = Symbol::new(other(41), 2);
    let c = Symbol::new(other(42), 1);
    assert!(all_distinct(&Vec::new()));
    assert!(all_distinct(&vec![a]));
    assert!(all_distinct(&vec![a, b, c]));
    assert!(!all_distinct(&vec![a, a]));
    assert!(!all_distinct(&vec![a, b, c, b]));
    assert!(!all_distinct(&vec![c, a, b, c]));
}

#[test]
fn the_tables_of_the_fixture_are_maps() {
    assert!(check_tables(&imported_modules(), &exposed(), &stdlib()));
    assert!(check_tables(&Vec::new(), &Vec::new(), &StdLib {
        types: vec![],
        applies: vec![],
        aliases: vec![],
    }));
}

#[test]
fn a_key_that_stands_twice_is_found_in_every_table() {
    let mut modules = imported_modules();
    modules.push((other(41), region(9)));
    assert!(!check_tables(&modules, &exposed(), &stdlib()));

    let mut twice = exposed();
    twice.push((other(42), ExposedModuleTypes::Invalid));
    assert!(!check_tables(&imported_modules(), &twice, &stdlib()));

    let symbol = Symbol::new(other(47), 1);
    let solved_twice = vec![(
        other(47),
        ExposedModuleTypes::Valid {
            solved_types: vec![(symbol, solved(1)), (symbol, solved(2))],
            aliases: vec![],
            stored_vars_by_symbol: vec![],
            storage_subs: StorageSubs { id: 0 },
        },
    )];
    assert!(!check_tables(&imported_modules(), &solved_twice, &stdlib()));

    let alias_twice = vec![(
        other(47),
        ExposedModuleTypes::Valid {
            solved_types: vec![],
            aliases: vec![(symbol, alias(1)), (symbol, alias(2))],
            stored_vars_by_symbol: vec![],
            storage_subs: StorageSubs { id: 0 },
        },
    )];
    assert!(!check_tables(&imported_modules(), &alias_twice, &stdlib()));

    let mut types_twice = stdlib();
    types_twice.types.push((Symbol::new(builtin(1), 1), (solved(9), region(9))));
    assert!(!check_tables(&imported_modules(), &exposed(), &types_twice));

    let mut applies_twice = stdlib();
    applies_twice.applies.push(Symbol::new(builtin(1), 50));
    assert!(!check_tables(&imported_modules(), &exposed(), &applies_twice));

    let mut aliases_twice = stdlib();
    aliases_twice.aliases.push(Symbol::new(builtin(2), 60));
    assert!(!check_tables(&imported_modules(), &exposed(), &aliases_twice));
}

#[test]
fn keys_are_told_apart_by_table() {
    let a = Symbol::new(other(41), 1);
    let b = Symbol::new(other(41), 2);
    assert!(symbols_are_keys(&vec![(a, 1u8), (b, 1u8)]));
    assert!(!symbols_are_keys(&vec![(a, 1u8), (b, 2u8), (a, 3u8)]));
    assert!(modules_are_keys(&vec![(other(1), 'x'), (builtin(1), 'x')]));
    assert!(!modules_are_keys(&vec![(other(1), 'x'), (other(1), 'y')]));
    assert!(symbols_are_keys(&Vec::<(Symbol, u8)>::new()));
}

#[test]
fn the_alias_of_the_module_met_later_stands() {
    let shared = Symbol::new(other(999), 71);
    let first = resolve(&vec![Symbol::new(other(41), 1), Symbol::new(other(43), 1)]);
    assert_eq!(
        first.imported_aliases,
        vec![
            (Symbol::new(other(41), 70), alias(41)),
            (shared, alias(1043)),
            (Symbol::new(other(43), 70), alias(43)),
        ]
    );
    let second = resolve(&vec![Symbol::new(other(43), 1), Symbol::new(other(41), 1)]);
    assert_eq!(
        second.imported_aliases,
        vec![
            (Symbol::new(other(43), 70), alias(43)),
            (shared, alias(1041)),
            (Symbol::new(other(41), 70), alias(41)),
        ]
    );
}

#[test]
fn insert_alias_overwrites_in_place() {
    let mut aliases = vec![
        (Symbol::new(home(), 1), alias(1)),
        (Symbol::new(home(), 2), alias(2)),
    ];
    insert_alias(&mut aliases, Symbol::new(home(), 1), alias(9));
    insert_alias(&mut aliases, Symbol::new(home(), 3), alias(3));
    assert_eq!(
        aliases,
        vec![
            (Symbol::new(home(), 1), alias(9)),
            (Symbol::new(home(), 2), alias(2)),
            (Symbol::new(home(), 3), alias(3)),
        ]
    );
}

#[test]
fn merge_aliases_lets_the_later_entry_stand() {
    let mut aliases = vec![(Symbol::new(home(), 1), alias(1))];
    let new = vec![
        (Symbol::new(home(), 2), alias(2)),
        (Symbol::new(home(), 1), alias(5)),
        (Symbol::new(home(), 2), alias(6)),
    ];
    merge_aliases(&mut aliases, &new);
    assert_eq!(
        aliases,
        vec![(Symbol::new(home(), 1), alias(5)), (Symbol::new(home(), 2), alias(6))]
    );
}

#[test]
fn remove_module_takes_out_every_entry_of_the_module() {
    let mut modules = vec![
        (other(1), region(1)),
        (other(2), region(2)),
        (other(1), region(3)),
        (other(3), region(4)),
    ];
    remove_module(&mut modules, other(1));
    assert_eq!(modules, vec![(other(2), region(2)), (other(3), region(4))]);
    remove_module(&mut modules, other(9));
    assert_eq!(modules, vec![(other(2), region(2)), (other(3), region(4))]);
    remove_module(&mut modules, ModuleId { id: 2, builtin: true });
    assert_eq!(modules.len(), 2);
}

#[test]
fn lookups_find_the_first_place() {
    let table = vec![
        (Symbol::new(home(), 1), 'a'),
        (Symbol::new(home(), 2), 'b'),
        (Symbol::new(home(), 1), 'c'),
    ];
    assert_eq!(find_symbol(&table, Symbol::new(home(), 1)), Some(0));
    assert_eq!(find_symbol(&table, Symbol::new(home(), 2)), Some(1));
    assert_eq!(find_symbol(&table, Symbol::new(home(), 3)), None);
    let modules = vec![(other(1), 1u8), (other(2), 2u8), (other(2), 3u8)];
    assert_eq!(find_module(&modules, other(2)), Some(1));
    assert_eq!(find_module(&modules, other(3)), None);
    assert_eq!(find_module(&Vec::<(ModuleId, u8)>::new(), other(3)), None);
    let list = vec![Symbol::new(home(), 1), Symbol::new(home(), 2)];
    assert!(contains_symbol(&list, Symbol::new(home(), 2)));
    assert!(!contains_symbol(&list, Symbol::new(home(), 3)));
}

#[test]
fn import_symbol_adds_to_what_is_there() {
    let mut imports = ConstrainableImports {
        imported_symbols: vec![Import {
            loc_symbol: Loc::at_zero(Symbol::new(home(), 99)),
            solved_type: SolvedType::Error,
        }],
        hacky_symbols: vec![],
        imported_aliases: vec![(Symbol::new(other(41), 70), alias(7))],
        unused_imports: imported_modules(),
    };
    import_symbol(home(), Symbol::new(other(41), 1), &exposed(), &stdlib(), &mut imports);
    assert_eq!(imports.imported_symbols.len(), 2);
    assert_eq!(imports.imported_symbols[1].solved_type, solved(141));
    assert_eq!(imports.hacky_symbols.len(), 1);
    assert_eq!(imports.imported_aliases[0], (Symbol::new(other(41), 70), alias(41)));
    assert_eq!(imports.imported_aliases.len(), 2);
    assert_eq!(imports.unused_imports.len(), 4);
}

fn value_import(symbol: Symbol, at: Region) -> Import {
    Import { loc_symbol: Loc { region: at, value: symbol }, solved_type: solved(1) }
}

fn self_alias_import(symbol: Symbol) -> Import {
    Import {
        loc_symbol: Loc::at_zero(symbol),
        solved_type: SolvedType::Alias(
            symbol,
            vec![(String::from("a"), SolvedType::Rigid(String::from("a")))],
            vec![],
            Box::new(SolvedType::EmptyRecord),
            AliasKind::Transparent,
        ),
    }
}

fn free_vars(named: &[u32], wildcards: &[u32], unnamed: &[u32]) -> FreeVars {
    FreeVars {
        named_vars: named.iter().map(|n| (format!("n{}", n), var(*n))).collect(),
        unnamed_vars: unnamed.iter().map(|n| (VarId { index: *n }, var(*n))).collect(),
        wildcards: wildcards.iter().map(|n| var(*n)).collect(),
    }
}

#[test]
fn self_alias_gives_no_rigid_variable_and_no_def_type() {
    let symbol = Symbol::new(other(41), 70);
    let import = self_alias_import(symbol);
    assert!(import.is_self_alias());
    let local = LocalImport {
        import,
        typ: Type::Variable(var(1)),
        free_vars: free_vars(&[1, 2], &[3], &[4]),
    };
    let (rigid_vars, def_types) = constrain_imports(vec![local]);
    assert!(rigid_vars.is_empty());
    assert!(def_types.is_empty());
}

#[test]
fn alias_under_another_name_is_imported() {
    let symbol = Symbol::new(other(41), 70);
    let mut import = self_alias_import(Symbol::new(other(41), 71));
    import.loc_symbol = Loc::at_zero(symbol);
    assert!(!import.is_self_alias());
    let local = LocalImport { import, typ: Type::EmptyRec, free_vars: free_vars(&[1], &[], &[]) };
    let (rigid_vars, def_types) = constrain_imports(vec![local]);
    assert_eq!(rigid_vars, vec![var(1)]);
    assert_eq!(def_types, vec![(symbol, Loc::at_zero(Type::EmptyRec))]);
}

#[test]
fn rigid_variables_are_named_then_wildcards_then_unnamed() {
    let symbol = Symbol::new(other(41), 1);
    let local = LocalImport {
        import: value_import(symbol, region(8)),
        typ: Type::Variable(var(10)),
        free_vars: free_vars(&[10, 11], &[20, 21, 22], &[30]),
    };
    let (rigid_vars, def_types) = constrain_imports(vec![local]);
    assert_eq!(rigid_vars, vec![var(10), var(11), var(20), var(21), var(22), var(30)]);
    assert_eq!(
        def_types,
        vec![(symbol, Loc { region: region(8), value: Type::Variable(var(10)) })]
    );
}

#[test]
fn every_free_variable_becomes_rigid() {
    for (n, m, k) in [(0usize, 0usize, 0usize), (1, 0, 0), (0, 2, 0), (0, 0, 3), (4, 5, 6)] {
        let named: Vec<u32> = (0..n as u32).collect();
        let wildcards: Vec<u32> = (100..100 + m as u32).collect();
        let unnamed: Vec<u32> = (200..200 + k as u32).collect();
        let local = LocalImport {
            import: value_import(Symbol::new(other(41), 1), region(0)),
            typ: Type::EmptyRec,
            free_vars: free_vars(&named, &wildcards, &unnamed),
        };
        let (rigid_vars, def_types) = constrain_imports(vec![local]);
        assert_eq!(rigid_vars.len(), n + m + k);
        assert_eq!(def_types.len(), 1);
        for v in named.iter().chain(wildcards.iter()).chain(unnamed.iter()) {
            assert!(rigid_vars.contains(&var(*v)));
        }
    }
}

#[test]
fn imports_are_gathered_in_order() {
    let a = Symbol::new(other(41), 1);
    let b = Symbol::new(other(41), 70);
    let c = Symbol::new(other(43), 2);
    let imports = vec![
        LocalImport {
            import: value_import(a, region(1)),
            typ: Type::Variable(var(1)),
            free_vars: free_vars(&[1], &[2], &[]),
        },
        LocalImport {
            import: self_alias_import(b),
            typ: Type::EmptyRec,
            free_vars: free_vars(&[50], &[51], &[52]),
        },
        LocalImport {
            import: value_import(c, region(3)),
            typ: Type::Variable(var(3)),
            free_vars: free_vars(&[], &[3], &[4]),
        },
    ];
    let (rigid_vars, def_types) = constrain_imports(imports);
    assert_eq!(rigid_vars, vec![var(1), var(2), var(3), var(4)]);
    assert_eq!(
        def_types,
        vec![
            (a, Loc { region: region(1), value: Type::Variable(var(1)) }),
            (c, Loc { region: region(3), value: Type::Variable(var(3)) }),
        ]
    );
}

#[test]
fn tables_of_free_variables_are_checked() {
    let symbol = Symbol::new(other(41), 1);
    let good = LocalImport {
        import: value_import(symbol, region(0)),
        typ: Type::EmptyRec,
        free_vars: free_vars(&[1, 2], &[3, 3], &[4, 5]),
    };
    assert!(check_local_imports(&vec![good]));
    assert!(check_local_imports(&Vec::new()));

    let name_twice = LocalImport {
        import: value_import(symbol, region(0)),
        typ: Type::EmptyRec,
        free_vars: free_vars(&[1, 2, 1], &[], &[]),
    };
    assert!(!check_local_imports(&vec![name_twice]));

    let id_twice = LocalImport {
        import: value_import(symbol, region(0)),
        typ: Type::EmptyRec,
        free_vars: free_vars(&[], &[], &[7, 8, 7]),
    };
    assert!(!check_local_imports(&vec![id_twice]));

    // The table of an alias under its own name is not looked at.
    let ignored = LocalImport {
        import: self_alias_import(Symbol::new(other(41), 70)),
        typ: Type::EmptyRec,
        free_vars: free_vars(&[1, 1], &[], &[2, 2]),
    };
    assert!(check_local_imports(&vec![ignored]));
}

#[test]
fn no_imports_no_constraints() {
    let (rigid_vars, def_types) = constrain_imports(Vec::new());
    assert!(rigid_vars.is_empty());
    assert!(def_types.is_empty());
}

#[test]
fn imports_scope_over_the_body() {
    let symbol = Symbol::new(builtin(1), 1);
    let local = LocalImport {
        import: value_import(symbol, region(10)),
        typ: Type::Apply(symbol, vec![Type::Variable(var(5))]),
        free_vars: free_vars(&[5], &[], &[]),
    };
    let constraint = introduce_builtin_imports(vec![local], "body");
    assert_eq!(constraint.rigid_vars, vec![var(5)]);
    assert_eq!(
        constraint.def_types,
        vec![(
            symbol,
            Loc { region: region(10), value: Type::Apply(symbol, vec![Type::Variable(var(5))]) }
        )]
    );
    assert_eq!(constraint.body, "body");
}

#[test]
fn a_solved_type_that_is_not_looked_into_comes_back_as_it_went_in() {
    let module = other(48);
    let plain = Symbol::new(module, 1);
    let aliased = Symbol::new(module, 2);
    let around = SolvedType::Alias(
        aliased,
        vec![],
        vec![],
        Box::new(SolvedType::Foreign(12)),
        AliasKind::Transparent,
    );
    let table = vec![(
        module,
        ExposedModuleTypes::Valid {
            solved_types: vec![(plain, SolvedType::Foreign(11)), (aliased, around.clone())],
            aliases: vec![],
            stored_vars_by_symbol: vec![(plain, var(1)), (aliased, var(2))],
            storage_subs: StorageSubs { id: 9 },
        },
    )];
    let imports =
        pre_constrain_imports(home(), &vec![plain, aliased], Vec::new(), &table, &stdlib());
    assert_eq!(imports.imported_symbols[0].solved_type, SolvedType::Foreign(11));
    assert_eq!(imports.imported_symbols[1].solved_type, around);
    assert!(imports.imported_symbols[1].is_self_alias());
    assert!(!imports.imported_symbols[0].is_self_alias());
}

#[test]
fn tag_names_in_solved_types_survive_the_import() {
    let module = other(46);
    let symbol = Symbol::new(module, 1);
    let solved_type = SolvedType::TagUnion(
        vec![(TagName::Global(String::from("Ok")), vec![SolvedType::Wildcard])],
        Box::new(SolvedType::EmptyTagUnion),
    );
    let table = vec![(
        module,
        ExposedModuleTypes::Valid {
            solved_types: vec![(symbol, solved_type.clone())],
            aliases: vec![],
            stored_vars_by_symbol: vec![(symbol, var(1))],
            storage_subs: StorageSubs { id: 9 },
        },
    )];
    let imports = pre_constrain_imports(home(), &vec![symbol], Vec::new(), &table, &stdlib());
    assert_eq!(imports.imported_symbols[0].solved_type, solved_type);
    assert!(imports.unused_imports.is_empty());
}
