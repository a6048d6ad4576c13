//! What holds of the imports of a module, whatever is referred to and
//! whatever the other modules export.

use crate::ident::{Loc, ModuleId, Symbol};
use crate::imports::{
    def_types_of, first_index, has_key, import_step, lemma_first_index, lemma_lookup_at,
    lookup, resolvable, rigid_vars_of, with_alias, with_aliases, ConstrainableImportsModel,
    ExposedModuleTypesModel, ImportModel, LocalImportModel, StdLibModel,
};
use crate::solved::SolvedTypeModel;
use crate::types::{AliasModel, Problem};
use vstd::prelude::*;

verus! {

/// An alias that is imported under its own name adds no rigid variable and
/// no definition type, whatever was gathered before it.
pub proof fn self_alias_adds_nothing(imports: Seq<LocalImportModel>, import: LocalImportModel)
    requires
        import.import.is_self_alias(),
    ensures
        import.rigid_vars().len() == 0,
        import.def_types().len() == 0,
        rigid_vars_of(imports.push(import)) == rigid_vars_of(imports),
        def_types_of(imports.push(import)) == def_types_of(imports),
{
    assert(imports.push(import).drop_last() =~= imports);
    assert(rigid_vars_of(imports.push(import)) =~= rigid_vars_of(imports));
    assert(def_types_of(imports.push(import)) =~= def_types_of(imports));
}

/// Any other import adds as many rigid variables as its table holds named
/// variables, wildcards and unnamed variables together, each of them after
/// what was gathered before, and exactly one definition type: its local type
/// under its symbol.
pub proof fn import_adds_its_free_vars(imports: Seq<LocalImportModel>, import: LocalImportModel)
    requires
        !import.import.is_self_alias(),
    ensures
        rigid_vars_of(imports.push(import)).len() == rigid_vars_of(imports).len()
            + import.free_vars.named_vars.len() + import.free_vars.wildcards.len()
            + import.free_vars.unnamed_vars.len(),
        rigid_vars_of(imports.push(import)) == rigid_vars_of(imports)
            + import.free_vars.rigid_vars(),
        forall|i: int|
            0 <= i < import.free_vars.named_vars.len() ==> rigid_vars_of(
                imports.push(import),
            ).contains((#[trigger] import.free_vars.named_vars[i]).1),
        forall|i: int|
            0 <= i < import.free_vars.wildcards.len() ==> rigid_vars_of(
                imports.push(import),
            ).contains(#[trigger] import.free_vars.wildcards[i]),
        forall|i: int|
            0 <= i < import.free_vars.unnamed_vars.len() ==> rigid_vars_of(
                imports.push(import),
            ).contains((#[trigger] import.free_vars.unnamed_vars[i]).1),
        def_types_of(imports.push(import)).len() == def_types_of(imports).len() + 1,
        def_types_of(imports.push(import)) == def_types_of(imports).push(
            (
                import.import.loc_symbol.value,
                Loc { region: import.import.loc_symbol.region, value: import.typ },
            ),
        ),
{
    let all = rigid_vars_of(imports.push(import));
    let before = rigid_vars_of(imports).len() as int;
    let table = import.free_vars;
    let named = table.named_vars.len() as int;
    let wildcards = table.wildcards.len() as int;
    assert(imports.push(import).drop_last() =~= imports);
    assert(all == rigid_vars_of(imports) + table.rigid_vars());
    assert(def_types_of(imports.push(import)) =~= def_types_of(imports).push(
        (
            import.import.loc_symbol.value,
            Loc { region: import.import.loc_symbol.region, value: import.typ },
        ),
    ));
    assert forall|i: int| 0 <= i < table.named_vars.len() implies all.contains(
        (#[trigger] table.named_vars[i]).1,
    ) by {
        assert(all[before + i] == table.named_vars[i].1);
    }
    assert forall|i: int| 0 <= i < table.wildcards.len() implies all.contains(
        #[trigger] table.wildcards[i],
    ) by {
        assert(all[before + named + i] == table.wildcards[i]);
    }
    assert forall|i: int| 0 <= i < table.unnamed_vars.len() implies all.contains(
        (#[trigger] table.unnamed_vars[i]).1,
    ) by {
        assert(all[before + named + wildcards + i] == table.unnamed_vars[i].1);
    }
}

/// A symbol of a built-in module that has no entry among the built-in types
/// but is a built-in type application or a built-in alias can be resolved,
/// and resolving it imports nothing.
pub proof fn builtin_without_type_imports_nothing(
    home: ModuleId,
    symbol: Symbol,
    exposed: Seq<(ModuleId, ExposedModuleTypesModel)>,
    stdlib: StdLibModel,
    so_far: ConstrainableImportsModel,
)
    requires
        symbol.module_id.builtin,
        !has_key(stdlib.types, symbol),
        stdlib.applies.contains(symbol) || stdlib.aliases.contains(symbol),
    ensures
        resolvable(home, symbol, exposed, stdlib),
        import_step(home, symbol, exposed, stdlib, so_far).imported_symbols
            == so_far.imported_symbols,
        import_step(home, symbol, exposed, stdlib, so_far).hacky_symbols == so_far.hacky_symbols,
        import_step(home, symbol, exposed, stdlib, so_far).imported_aliases
            == so_far.imported_aliases,
{
}

/// A symbol of a module that failed to compile can be resolved, and
/// resolving it imports exactly one thing: the symbol at the placeholder
/// type for invalid modules.
pub proof fn invalid_module_imports_placeholder(
    home: ModuleId,
    symbol: Symbol,
    exposed: Seq<(ModuleId, ExposedModuleTypesModel)>,
    stdlib: StdLibModel,
    so_far: ConstrainableImportsModel,
)
    requires
        !symbol.module_id.builtin,
        symbol.module_id != home,
        lookup(exposed, symbol.module_id) == Some(ExposedModuleTypesModel::Invalid),
    ensures
        resolvable(home, symbol, exposed, stdlib),
        import_step(home, symbol, exposed, stdlib, so_far).imported_symbols
            == so_far.imported_symbols.push(
            ImportModel {
                loc_symbol: Loc::at_zero(symbol),
                solved_type: SolvedTypeModel::Erroneous(Problem::InvalidModule),
            },
        ),
        import_step(home, symbol, exposed, stdlib, so_far).hacky_symbols == so_far.hacky_symbols,
        import_step(home, symbol, exposed, stdlib, so_far).imported_aliases
            == so_far.imported_aliases,
{
}

/// After an alias is put under `symbol`, the table holds that alias under
/// `symbol` and what it held before under every other symbol.
pub proof fn lemma_with_alias(
    aliases: Seq<(Symbol, AliasModel)>,
    symbol: Symbol,
    alias: AliasModel,
    key: Symbol,
)
    ensures
        lookup(with_alias(aliases, symbol, alias), key) == if key == symbol {
            Some(alias)
        } else {
            lookup(aliases, key)
        },
{
    let after = with_alias(aliases, symbol, alias);
    if has_key(aliases, symbol) {
        lemma_first_index(aliases, symbol);
        let at = first_index(aliases, symbol);
        assert(after.len() == aliases.len());
        if key == symbol {
            assert forall|j: int| 0 <= j < at implies (#[trigger] after[j]).0 != key by {
                assert(aliases[j].0 != key);
            }
            assert(after[at] == (symbol, alias));
            lemma_lookup_at(after, key, at);
        } else if has_key(aliases, key) {
            lemma_first_index(aliases, key);
            let k = first_index(aliases, key);
            assert(after[k] == aliases[k]);
            assert forall|j: int| 0 <= j < k implies (#[trigger] after[j]).0 != key by {
                assert(aliases[j].0 != key);
            }
            lemma_lookup_at(after, key, k);
        } else {
            if has_key(after, key) {
                let j = choose|j: int| 0 <= j < after.len() && (#[trigger] after[j]).0 == key;
                assert(aliases[j].0 == key);
            }
        }
    } else {
        let end = aliases.len() as int;
        assert(after[end] == (symbol, alias));
        if key == symbol {
            assert forall|j: int| 0 <= j < end implies (#[trigger] after[j]).0 != key by {
                assert(aliases[j].0 != key);
            }
            lemma_lookup_at(after, key, end);
        } else if has_key(aliases, key) {
            lemma_first_index(aliases, key);
            let k = first_index(aliases, key);
            assert(after[k] == aliases[k]);
            assert forall|j: int| 0 <= j < k implies (#[trigger] after[j]).0 != key by {
                assert(aliases[j].0 != key);
            }
            lemma_lookup_at(after, key, k);
        } else {
            if has_key(after, key) {
                let j = choose|j: int| 0 <= j < after.len() && (#[trigger] after[j]).0 == key;
                if j < end {
                    assert(aliases[j].0 == key);
                }
            }
        }
    }
}

/// The alias that stands last under `key` in `new`, if any does.
pub open spec fn last_under(new: Seq<(Symbol, AliasModel)>, key: Symbol) -> Option<AliasModel>
    decreases new.len(),
{
    if new.len() == 0 {
        None
    } else if new.last().0 == key {
        Some(new.last().1)
    } else {
        last_under(new.drop_last(), key)
    }
}

/// When the aliases of a module are merged into those gathered before, the
/// newcomer wins: under a symbol that the module brings, the module's alias
/// stands afterwards, whatever stood there before. Under every other symbol
/// the table holds what it held.
pub proof fn later_alias_stands(
    aliases: Seq<(Symbol, AliasModel)>,
    new: Seq<(Symbol, AliasModel)>,
    key: Symbol,
)
    ensures
        lookup(with_aliases(aliases, new), key) == match last_under(new, key) {
            Some(alias) => Some(alias),
            None => lookup(aliases, key),
        },
    decreases new.len(),
{
    if new.len() > 0 {
        later_alias_stands(aliases, new.drop_last(), key);
        lemma_with_alias(with_aliases(aliases, new.drop_last()), new.last().0, new.last().1, key);
    }
}

} // verus!
