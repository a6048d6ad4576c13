//! The bridge between modules: what a module refers to in other modules is
//! looked up in what those modules export and turned into imports that the
//! constraints of the referring module can be built over.

use crate::ident::{Loc, ModuleId, Region, Symbol, Variable};
use crate::solved::{FreeVars, FreeVarsModel, SolvedType, SolvedTypeModel};
use crate::types::{aliases_view, Alias, AliasModel, Problem, Type, TypeModel};
use vstd::prelude::*;

verus! {

/// Names the store in which an exporting module keeps the type graph that
/// its exported variables point into. The store itself stays with the
/// driver; an import carries its name.
#[derive(Clone, Copy, PartialEq, Eq, Structural, Debug, Hash)]
pub struct StorageSubs {
    pub id: u32,
}

/// What a module exports once it is solved. A module that failed to compile
/// is `Invalid`: whatever is imported from it becomes a placeholder.
#[derive(PartialEq, Eq, Debug)]
pub enum ExposedModuleTypes {
    Invalid,
    Valid {
        solved_types: Vec<(Symbol, SolvedType)>,
        aliases: Vec<(Symbol, Alias)>,
        stored_vars_by_symbol: Vec<(Symbol, Variable)>,
        storage_subs: StorageSubs,
    },
}

pub enum ExposedModuleTypesModel {
    Invalid,
    Valid {
        solved_types: Seq<(Symbol, SolvedTypeModel)>,
        aliases: Seq<(Symbol, AliasModel)>,
        stored_vars_by_symbol: Seq<(Symbol, Variable)>,
        storage_subs: StorageSubs,
    },
}

/// The model of a table from symbols to solved types.
pub open spec fn solved_table_view(s: Seq<(Symbol, SolvedType)>) -> Seq<(Symbol, SolvedTypeModel)> {
    Seq::new(s.len(), |i: int| (s[i].0, s[i].1@))
}

impl View for ExposedModuleTypes {
    type V = ExposedModuleTypesModel;

    open spec fn view(&self) -> ExposedModuleTypesModel {
        match self {
            ExposedModuleTypes::Invalid => ExposedModuleTypesModel::Invalid,
            ExposedModuleTypes::Valid {
                solved_types,
                aliases,
                stored_vars_by_symbol,
                storage_subs,
            } => ExposedModuleTypesModel::Valid {
                solved_types: solved_table_view(solved_types@),
                aliases: aliases_view(aliases@),
                stored_vars_by_symbol: stored_vars_by_symbol@,
                storage_subs: *storage_subs,
            },
        }
    }
}

/// What every module solved so far exports, under the module's id. Where a
/// module stands twice, its first entry counts.
pub type SubsByModule = Vec<(ModuleId, ExposedModuleTypes)>;

/// The model of the table of what every solved module exports.
pub open spec fn exposed_view(s: Seq<(ModuleId, ExposedModuleTypes)>) -> Seq<
    (ModuleId, ExposedModuleTypesModel),
> {
    Seq::new(s.len(), |i: int| (s[i].0, s[i].1@))
}

/// The built-in types: the solved type and the region of every built-in
/// value, the symbols of the built-in type applications, and the symbols of
/// the built-in aliases.
#[derive(PartialEq, Eq, Debug)]
pub struct StdLib {
    pub types: Vec<(Symbol, (SolvedType, Region))>,
    pub applies: Vec<Symbol>,
    pub aliases: Vec<Symbol>,
}

pub struct StdLibModel {
    pub types: Seq<(Symbol, (SolvedTypeModel, Region))>,
    pub applies: Seq<Symbol>,
    pub aliases: Seq<Symbol>,
}

pub open spec fn builtin_types_view(s: Seq<(Symbol, (SolvedType, Region))>) -> Seq<
    (Symbol, (SolvedTypeModel, Region)),
> {
    Seq::new(s.len(), |i: int| (s[i].0, (s[i].1.0@, s[i].1.1)))
}

impl View for StdLib {
    type V = StdLibModel;

    open spec fn view(&self) -> StdLibModel {
        StdLibModel {
            types: builtin_types_view(self.types@),
            applies: self.applies@,
            aliases: self.aliases@,
        }
    }
}

/// A symbol of another module with the type that the module exports it at.
#[derive(PartialEq, Eq, Debug)]
pub struct Import {
    pub loc_symbol: Loc<Symbol>,
    pub solved_type: SolvedType,
}

pub struct ImportModel {
    pub loc_symbol: Loc<Symbol>,
    pub solved_type: SolvedTypeModel,
}

impl View for Import {
    type V = ImportModel;

    open spec fn view(&self) -> ImportModel {
        ImportModel { loc_symbol: self.loc_symbol, solved_type: self.solved_type@ }
    }
}

impl ImportModel {
    /// Whether the import is an alias under its own name. Such an alias is
    /// set up by the declaration of the module that holds it, so the import
    /// brings nothing.
    pub open spec fn is_self_alias(self) -> bool {
        self.solved_type.is_alias_of(self.loc_symbol.value)
    }
}

impl Import {
    /// Whether the import is an alias under its own name.
    pub fn is_self_alias(&self) -> (b: bool)
        ensures
            b == self@.is_self_alias(),
    {
        self.solved_type.is_alias_of(self.loc_symbol.value)
    }
}

pub open spec fn imports_view(s: Seq<Import>) -> Seq<ImportModel> {
    Seq::new(s.len(), |i: int| s[i]@)
}

/// An import that is taken straight out of the exporting module's store:
/// the variable that the symbol is stored under, and the store.
#[derive(PartialEq, Eq, Debug)]
pub struct HackyImport {
    pub storage_subs: StorageSubs,
    pub loc_symbol: Loc<Symbol>,
    pub variable: Variable,
}

/// What the references of a module amount to.
#[derive(PartialEq, Eq, Debug)]
pub struct ConstrainableImports {
    /// The imports to build constraints for, in the order of the references.
    pub imported_symbols: Vec<Import>,
    /// Those among them that can be taken out of the exporter's store.
    pub hacky_symbols: Vec<HackyImport>,
    /// The aliases of every module that something was imported from, each
    /// symbol once. Where two modules bring the same symbol, the one that
    /// was met later stands.
    pub imported_aliases: Vec<(Symbol, Alias)>,
    /// The modules that were imported and never referred to.
    pub unused_imports: Vec<(ModuleId, Region)>,
}

pub struct ConstrainableImportsModel {
    pub imported_symbols: Seq<ImportModel>,
    pub hacky_symbols: Seq<HackyImport>,
    pub imported_aliases: Seq<(Symbol, AliasModel)>,
    pub unused_imports: Seq<(ModuleId, Region)>,
}

impl View for ConstrainableImports {
    type V = ConstrainableImportsModel;

    open spec fn view(&self) -> ConstrainableImportsModel {
        ConstrainableImportsModel {
            imported_symbols: imports_view(self.imported_symbols@),
            hacky_symbols: self.hacky_symbols@,
            imported_aliases: aliases_view(self.imported_aliases@),
            unused_imports: self.unused_imports@,
        }
    }
}

/// `key` stands at place `i` of `table`, and at no place before it.
pub open spec fn is_first<K, V>(table: Seq<(K, V)>, key: K, i: int) -> bool {
    &&& 0 <= i < table.len()
    &&& table[i].0 == key
    &&& forall|j: int| 0 <= j < i ==> (#[trigger] table[j]).0 != key
}

pub open spec fn has_key<K, V>(table: Seq<(K, V)>, key: K) -> bool {
    exists|i: int| 0 <= i < table.len() && (#[trigger] table[i]).0 == key
}

/// The first place of `table` at which `key` stands.
pub open spec fn first_index<K, V>(table: Seq<(K, V)>, key: K) -> int {
    choose|i: int| is_first(table, key, i)
}

/// What `table` holds for `key`: the entry at the first place where the key
/// stands.
pub open spec fn lookup<K, V>(table: Seq<(K, V)>, key: K) -> Option<V> {
    if has_key(table, key) {
        Some(table[first_index(table, key)].1)
    } else {
        None
    }
}

/// The least place at which `key` stands in the first `n` entries.
proof fn lemma_least_place<K, V>(table: Seq<(K, V)>, key: K, n: int) -> (i: int)
    requires
        0 <= n < table.len(),
        table[n].0 == key,
    ensures
        is_first(table, key, i),
        i <= n,
    decreases n,
{
    if exists|j: int| 0 <= j < n && (#[trigger] table[j]).0 == key {
        let j = choose|j: int| 0 <= j < n && (#[trigger] table[j]).0 == key;
        lemma_least_place(table, key, j)
    } else {
        n
    }
}

/// A key that stands in a table has exactly one first place.
pub proof fn lemma_first_index<K, V>(table: Seq<(K, V)>, key: K)
    requires
        has_key(table, key),
    ensures
        is_first(table, key, first_index(table, key)),
{
    let n = choose|i: int| 0 <= i < table.len() && (#[trigger] table[i]).0 == key;
    let i = lemma_least_place(table, key, n);
}

/// The place that `is_first` holds of is the one that `lookup` reads.
pub proof fn lemma_lookup_at<K, V>(table: Seq<(K, V)>, key: K, i: int)
    requires
        is_first(table, key, i),
    ensures
        has_key(table, key),
        first_index(table, key) == i,
        lookup(table, key) == Some(table[i].1),
{
    assert(table[i].0 == key);
    lemma_first_index(table, key);
    let c = first_index(table, key);
    assert(table[c].0 == key);
    if c < i {
        assert(table[c].0 != key);
    }
    if i < c {
        assert(table[i].0 != key);
    }
}

/// Two tables with the same keys at the same places have a key at the same
/// first place.
pub proof fn lemma_same_keys<K, V, W>(a: Seq<(K, V)>, b: Seq<(K, W)>, key: K)
    requires
        a.len() == b.len(),
        forall|j: int| 0 <= j < a.len() ==> (#[trigger] a[j]).0 == (#[trigger] b[j]).0,
    ensures
        has_key(a, key) == has_key(b, key),
        has_key(a, key) ==> first_index(a, key) == first_index(b, key),
{
    if has_key(a, key) {
        lemma_first_index(a, key);
        let i = first_index(a, key);
        assert(b[i].0 == a[i].0);
        assert forall|j: int| 0 <= j < i implies (#[trigger] b[j]).0 != key by {
            assert(a[j].0 != key);
        }
        lemma_lookup_at(b, key, i);
    }
    if has_key(b, key) {
        lemma_first_index(b, key);
        let i = first_index(b, key);
        assert(a[i].0 == b[i].0);
    }
}

/// The first place at which `symbol` stands in `table`.
pub fn find_symbol<V>(table: &Vec<(Symbol, V)>, symbol: Symbol) -> (found: Option<usize>)
    ensures
        match found {
            Some(i) => is_first(table@, symbol, i as int),
            None => !has_key(table@, symbol),
        },
{
    let mut i: usize = 0;
    while i < table.len()
        invariant
            i <= table.len(),
            forall|j: int| 0 <= j < i ==> (#[trigger] table@[j]).0 != symbol,
        decreases table.len() - i,
    {
        if table[i].0 == symbol {
            return Some(i);
        }
        i += 1;
    }
    None
}

/// The first place at which `module_id` stands in `table`.
pub fn find_module<V>(table: &Vec<(ModuleId, V)>, module_id: ModuleId) -> (found: Option<usize>)
    ensures
        match found {
            Some(i) => is_first(table@, module_id, i as int),
            None => !has_key(table@, module_id),
        },
{
    let mut i: usize = 0;
    while i < table.len()
        invariant
            i <= table.len(),
            forall|j: int| 0 <= j < i ==> (#[trigger] table@[j]).0 != module_id,
        decreases table.len() - i,
    {
        if table[i].0 == module_id {
            return Some(i);
        }
        i += 1;
    }
    None
}

/// Whether `symbol` stands in `list`.
pub fn contains_symbol(list: &Vec<Symbol>, symbol: Symbol) -> (found: bool)
    ensures
        found == list@.contains(symbol),
{
    let mut i: usize = 0;
    while i < list.len()
        invariant
            i <= list.len(),
            forall|j: int| 0 <= j < i ==> list@[j] != symbol,
        decreases list.len() - i,
    {
        if list[i] == symbol {
            return true;
        }
        i += 1;
    }
    false
}

/// A table of aliases with `alias` under `symbol`: in the place of what
/// stood under the symbol before, or at the end where nothing did.
pub open spec fn with_alias(
    aliases: Seq<(Symbol, AliasModel)>,
    symbol: Symbol,
    alias: AliasModel,
) -> Seq<(Symbol, AliasModel)> {
    if has_key(aliases, symbol) {
        aliases.update(first_index(aliases, symbol), (symbol, alias))
    } else {
        aliases.push((symbol, alias))
    }
}

/// A table of aliases with every entry of `new` put into it, one after the
/// other: of two entries under one symbol the later one stands.
pub open spec fn with_aliases(
    aliases: Seq<(Symbol, AliasModel)>,
    new: Seq<(Symbol, AliasModel)>,
) -> Seq<(Symbol, AliasModel)>
    decreases new.len(),
{
    if new.len() == 0 {
        aliases
    } else {
        with_alias(with_aliases(aliases, new.drop_last()), new.last().0, new.last().1)
    }
}

/// No key stands at two places of `table`.
pub open spec fn unique_keys<K, V>(table: Seq<(K, V)>) -> bool {
    forall|i: int, j: int|
        0 <= i < j < table.len() ==> (#[trigger] table[i]).0 != (#[trigger] table[j]).0
}

/// A table in which every symbol stands once stays so when an alias is put
/// into it.
pub proof fn lemma_with_alias_unique(
    aliases: Seq<(Symbol, AliasModel)>,
    symbol: Symbol,
    alias: AliasModel,
)
    requires
        unique_keys(aliases),
    ensures
        unique_keys(with_alias(aliases, symbol, alias)),
{
    let after = with_alias(aliases, symbol, alias);
    if has_key(aliases, symbol) {
        lemma_first_index(aliases, symbol);
        assert forall|i: int, j: int| 0 <= i < j < after.len() implies (#[trigger] after[i]).0 != (
        #[trigger] after[j]).0 by {
            assert(after[i].0 == aliases[i].0);
            assert(after[j].0 == aliases[j].0);
        }
    } else {
        assert forall|i: int, j: int| 0 <= i < j < after.len() implies (#[trigger] after[i]).0 != (
        #[trigger] after[j]).0 by {
            assert(after[i] == aliases[i]);
            if j < aliases.len() {
                assert(after[j] == aliases[j]);
            }
        }
    }
}

/// A table in which every symbol stands once stays so when aliases are
/// merged into it.
pub proof fn lemma_with_aliases_unique(
    aliases: Seq<(Symbol, AliasModel)>,
    new: Seq<(Symbol, AliasModel)>,
)
    requires
        unique_keys(aliases),
    ensures
        unique_keys(with_aliases(aliases, new)),
    decreases new.len(),
{
    if new.len() > 0 {
        lemma_with_aliases_unique(aliases, new.drop_last());
        lemma_with_alias_unique(with_aliases(aliases, new.drop_last()), new.last().0, new.last().1);
    }
}

/// Puts `alias` under `symbol`, in the place of what stood there before.
pub fn insert_alias(aliases: &mut Vec<(Symbol, Alias)>, symbol: Symbol, alias: Alias)
    ensures
        aliases_view(final(aliases)@) == with_alias(aliases_view(old(aliases)@), symbol, alias@),
{
    proof {
        lemma_same_keys(aliases@, aliases_view(aliases@), symbol);
    }
    match find_symbol(aliases, symbol) {
        Some(i) => {
            proof {
                lemma_lookup_at(aliases@, symbol, i as int);
            }
            aliases.set(i, (symbol, alias));
            assert(aliases_view(aliases@) =~= aliases_view(old(aliases)@).update(
                i as int,
                (symbol, alias@),
            ));
        },
        None => {
            aliases.push((symbol, alias));
            assert(aliases_view(aliases@) =~= aliases_view(old(aliases)@).push((symbol, alias@)));
        },
    }
}

/// Puts a copy of every alias of `new` into `aliases`.
pub fn merge_aliases(aliases: &mut Vec<(Symbol, Alias)>, new: &Vec<(Symbol, Alias)>)
    ensures
        aliases_view(final(aliases)@) == with_aliases(
            aliases_view(old(aliases)@),
            aliases_view(new@),
        ),
{
    let mut i: usize = 0;
    while i < new.len()
        invariant
            i <= new.len(),
            aliases_view(aliases@) == with_aliases(
                aliases_view(old(aliases)@),
                aliases_view(new@).take(i as int),
            ),
        decreases new.len() - i,
    {
        insert_alias(aliases, new[i].0, new[i].1.clone());
        proof {
            let next = aliases_view(new@).take(i + 1);
            assert(next.drop_last() =~= aliases_view(new@).take(i as int));
            assert(next.last() == (new@[i as int].0, new@[i as int].1@));
        }
        i += 1;
    }
    assert(aliases_view(new@).take(i as int) =~= aliases_view(new@));
}

/// The imported modules without the one named `module_id`.
pub open spec fn without_module(modules: Seq<(ModuleId, Region)>, module_id: ModuleId) -> Seq<
    (ModuleId, Region),
>
    decreases modules.len(),
{
    if modules.len() == 0 {
        modules
    } else {
        let rest = without_module(modules.drop_last(), module_id);
        if modules.last().0 == module_id {
            rest
        } else {
            rest.push(modules.last())
        }
    }
}

/// Takes the module named `module_id` out of the imported modules.
pub fn remove_module(modules: &mut Vec<(ModuleId, Region)>, module_id: ModuleId)
    ensures
        final(modules)@ == without_module(old(modules)@, module_id),
{
    let mut kept: Vec<(ModuleId, Region)> = Vec::new();
    let mut i: usize = 0;
    while i < modules.len()
        invariant
            i <= modules.len(),
            *modules == *old(modules),
            kept@ == without_module(modules@.take(i as int), module_id),
        decreases modules.len() - i,
    {
        let entry = modules[i];
        if entry.0 != module_id {
            kept.push(entry);
        }
        proof {
            assert(modules@.take(i + 1).drop_last() =~= modules@.take(i as int));
        }
        i += 1;
    }
    assert(modules@.take(i as int) =~= modules@);
    *modules = kept;
}

/// Why a reference cannot be resolved. Each of these shows that an earlier
/// phase went wrong, not the program that is compiled.
#[derive(Clone, Copy, PartialEq, Eq, Structural, Debug)]
pub enum ImportFailure {
    /// A symbol of a built-in module that is neither a built-in value, nor
    /// a built-in type application, nor a built-in alias.
    MissingBuiltin(Symbol),
    /// A module that nothing is known of: it was not solved before the
    /// module that refers to it.
    MissingModule(ModuleId),
    /// A symbol that its module exports a type for, but no stored variable.
    MissingStoredVar(Symbol),
}

/// Why the reference to `symbol` from the module `home` cannot be resolved,
/// if it cannot.
pub open spec fn failure_of(
    home: ModuleId,
    symbol: Symbol,
    exposed: Seq<(ModuleId, ExposedModuleTypesModel)>,
    stdlib: StdLibModel,
) -> Option<ImportFailure> {
    let module_id = symbol.module_id;
    if module_id.builtin {
        if has_key(stdlib.types, symbol) || stdlib.applies.contains(symbol)
            || stdlib.aliases.contains(symbol) {
            None
        } else {
            Some(ImportFailure::MissingBuiltin(symbol))
        }
    } else if module_id != home {
        match lookup(exposed, module_id) {
            Some(ExposedModuleTypesModel::Valid { solved_types, stored_vars_by_symbol, .. }) => {
                if has_key(solved_types, symbol) && !has_key(stored_vars_by_symbol, symbol) {
                    Some(ImportFailure::MissingStoredVar(symbol))
                } else {
                    None
                }
            },
            Some(ExposedModuleTypesModel::Invalid) => None,
            None => Some(ImportFailure::MissingModule(module_id)),
        }
    } else {
        None
    }
}

/// The reference to `symbol` from the module `home` can be resolved.
pub open spec fn resolvable(
    home: ModuleId,
    symbol: Symbol,
    exposed: Seq<(ModuleId, ExposedModuleTypesModel)>,
    stdlib: StdLibModel,
) -> bool {
    failure_of(home, symbol, exposed, stdlib) is None
}

impl ConstrainableImportsModel {
    /// Before any reference is looked at: nothing is imported, and every
    /// imported module counts as unused.
    pub open spec fn start(imported_modules: Seq<(ModuleId, Region)>) -> ConstrainableImportsModel {
        ConstrainableImportsModel {
            imported_symbols: Seq::empty(),
            hacky_symbols: Seq::empty(),
            imported_aliases: Seq::empty(),
            unused_imports: imported_modules,
        }
    }
}

/// What one reference adds to the imports gathered so far.
///
/// The module of the symbol is used, whatever else holds. A symbol of a
/// built-in module is imported at its type in the table of built-in types;
/// one that has none there brings nothing. A symbol of another module that
/// is valid and has a type for it is imported at that type and also by its
/// stored variable, and the module's aliases are put into the table of
/// aliases; without a type it brings nothing. A symbol of an invalid module
/// is imported at the placeholder type for such modules. A symbol of the
/// module `home` itself brings nothing.
pub open spec fn import_step(
    home: ModuleId,
    symbol: Symbol,
    exposed: Seq<(ModuleId, ExposedModuleTypesModel)>,
    stdlib: StdLibModel,
    so_far: ConstrainableImportsModel,
) -> ConstrainableImportsModel {
    let module_id = symbol.module_id;
    let used = ConstrainableImportsModel {
        unused_imports: without_module(so_far.unused_imports, module_id),
        ..so_far
    };
    if module_id.builtin {
        match lookup(stdlib.types, symbol) {
            Some((solved_type, region)) => ConstrainableImportsModel {
                imported_symbols: used.imported_symbols.push(
                    ImportModel { loc_symbol: Loc { region, value: symbol }, solved_type },
                ),
                ..used
            },
            None => used,
        }
    } else if module_id != home {
        match lookup(exposed, module_id) {
            Some(
                ExposedModuleTypesModel::Valid {
                    solved_types,
                    aliases,
                    stored_vars_by_symbol,
                    storage_subs,
                },
            ) => match lookup(solved_types, symbol) {
                Some(solved_type) => ConstrainableImportsModel {
                    imported_symbols: used.imported_symbols.push(
                        ImportModel { loc_symbol: Loc::at_zero(symbol), solved_type },
                    ),
                    hacky_symbols: used.hacky_symbols.push(
                        HackyImport {
                            storage_subs,
                            loc_symbol: Loc::at_zero(symbol),
                            variable: stored_vars_by_symbol[first_index(
                                stored_vars_by_symbol,
                                symbol,
                            )].1,
                        },
                    ),
                    imported_aliases: with_aliases(used.imported_aliases, aliases),
                    ..used
                },
                None => used,
            },
            Some(ExposedModuleTypesModel::Invalid) => ConstrainableImportsModel {
                imported_symbols: used.imported_symbols.push(
                    ImportModel {
                        loc_symbol: Loc::at_zero(symbol),
                        solved_type: SolvedTypeModel::Erroneous(Problem::InvalidModule),
                    },
                ),
                ..used
            },
            None => used,
        }
    } else {
        used
    }
}

/// What the references amount to, taken one after the other.
pub open spec fn imports_after(
    home: ModuleId,
    references: Seq<Symbol>,
    exposed: Seq<(ModuleId, ExposedModuleTypesModel)>,
    stdlib: StdLibModel,
    start: ConstrainableImportsModel,
) -> ConstrainableImportsModel
    decreases references.len(),
{
    if references.len() == 0 {
        start
    } else {
        import_step(
            home,
            references.last(),
            exposed,
            stdlib,
            imports_after(home, references.drop_last(), exposed, stdlib, start),
        )
    }
}

fn push_import(imports: &mut Vec<Import>, import: Import)
    ensures
        imports_view(final(imports)@) == imports_view(old(imports)@).push(import@),
{
    imports.push(import);
    assert(imports_view(imports@) =~= imports_view(old(imports)@).push(import@));
}

/// Why the reference to `symbol` cannot be resolved, if it cannot.
pub fn check_reference(
    home: ModuleId,
    symbol: Symbol,
    exposed_types: &Vec<(ModuleId, ExposedModuleTypes)>,
    stdlib: &StdLib,
) -> (failure: Option<ImportFailure>)
    ensures
        failure == failure_of(home, symbol, exposed_view(exposed_types@), stdlib@),
{
    let module_id = symbol.module_id();
    if module_id.is_builtin() {
        proof {
            lemma_same_keys(stdlib.types@, builtin_types_view(stdlib.types@), symbol);
        }
        let known = find_symbol(&stdlib.types, symbol).is_some() || contains_symbol(
            &stdlib.applies,
            symbol,
        ) || contains_symbol(&stdlib.aliases, symbol);
        if known {
            None
        } else {
            Some(ImportFailure::MissingBuiltin(symbol))
        }
    } else if module_id != home {
        proof {
            lemma_same_keys(exposed_types@, exposed_view(exposed_types@), module_id);
        }
        match find_module(exposed_types, module_id) {
            Some(m) => {
                proof {
                    lemma_lookup_at(exposed_types@, module_id, m as int);
                    lemma_lookup_at(exposed_view(exposed_types@), module_id, m as int);
                }
                match &exposed_types[m].1 {
                    ExposedModuleTypes::Valid { solved_types, stored_vars_by_symbol, .. } => {
                        proof {
                            lemma_same_keys(solved_types@, solved_table_view(solved_types@), symbol);
                        }
                        if find_symbol(solved_types, symbol).is_some() && find_symbol(
                            stored_vars_by_symbol,
                            symbol,
                        ).is_none() {
                            Some(ImportFailure::MissingStoredVar(symbol))
                        } else {
                            None
                        }
                    },
                    ExposedModuleTypes::Invalid => None,
                }
            },
            None => Some(ImportFailure::MissingModule(module_id)),
        }
    } else {
        None
    }
}

/// The first reference that cannot be resolved, with the reason. `None`
/// when `pre_constrain_imports` can take the references.
pub fn check_references(
    home: ModuleId,
    references: &Vec<Symbol>,
    exposed_types: &Vec<(ModuleId, ExposedModuleTypes)>,
    stdlib: &StdLib,
) -> (failure: Option<ImportFailure>)
    ensures
        match failure {
            None => forall|i: int|
                0 <= i < references.len() ==> resolvable(
                    home,
                    #[trigger] references[i],
                    exposed_view(exposed_types@),
                    stdlib@,
                ),
            Some(reason) => exists|i: int|
                {
                    &&& 0 <= i < references.len()
                    &&& failure_of(
                        home,
                        #[trigger] references[i],
                        exposed_view(exposed_types@),
                        stdlib@,
                    ) == Some(reason)
                    &&& forall|j: int|
                        0 <= j < i ==> resolvable(
                            home,
                            #[trigger] references[j],
                            exposed_view(exposed_types@),
                            stdlib@,
                        )
                },
        },
{
    let mut i: usize = 0;
    while i < references.len()
        invariant
            i <= references.len(),
            forall|j: int|
                0 <= j < i ==> resolvable(
                    home,
                    #[trigger] references[j],
                    exposed_view(exposed_types@),
                    stdlib@,
                ),
        decreases references.len() - i,
    {
        let failure = check_reference(home, references[i], exposed_types, stdlib);
        if failure.is_some() {
            return failure;
        }
        i += 1;
    }
    None
}

/// Resolves one reference and adds what it brings to `imports`.
pub fn import_symbol(
    home: ModuleId,
    symbol: Symbol,
    exposed_types: &Vec<(ModuleId, ExposedModuleTypes)>,
    stdlib: &StdLib,
    imports: &mut ConstrainableImports,
)
    requires
        resolvable(home, symbol, exposed_view(exposed_types@), stdlib@),
    ensures
        final(imports)@ == import_step(
            home,
            symbol,
            exposed_view(exposed_types@),
            stdlib@,
            old(imports)@,
        ),
{
    let module_id = symbol.module_id();

    // The module is referred to, so it is not unused.
    remove_module(&mut imports.unused_imports, module_id);

    if module_id.is_builtin() {
        // What a built-in module holds is looked up in the table of
        // built-in types.
        proof {
            lemma_same_keys(stdlib.types@, builtin_types_view(stdlib.types@), symbol);
        }
        match find_symbol(&stdlib.types, symbol) {
            Some(i) => {
                proof {
                    lemma_lookup_at(stdlib.types@, symbol, i as int);
                    lemma_lookup_at(builtin_types_view(stdlib.types@), symbol, i as int);
                }
                let entry = &stdlib.types[i].1;
                let loc_symbol = Loc { value: symbol, region: entry.1 };

                push_import(
                    &mut imports.imported_symbols,
                    Import { loc_symbol, solved_type: entry.0.clone() },
                );
            },
            None => {
                // No built-in value: a type application or an alias, which
                // needs no constraint.
            },
        }
    } else if module_id != home {
        // The symbols of the module itself have their constraints already.
        proof {
            lemma_same_keys(exposed_types@, exposed_view(exposed_types@), module_id);
        }
        match find_module(exposed_types, module_id) {
            Some(m) => {
                proof {
                    lemma_lookup_at(exposed_types@, module_id, m as int);
                    lemma_lookup_at(exposed_view(exposed_types@), module_id, m as int);
                }
                match &exposed_types[m].1 {
                    ExposedModuleTypes::Valid {
                        solved_types,
                        aliases: new_aliases,
                        storage_subs,
                        stored_vars_by_symbol,
                    } => {
                        // A symbol that was exposed without a definition
                        // has no entry among the solved types.
                        proof {
                            lemma_same_keys(solved_types@, solved_table_view(solved_types@), symbol);
                        }
                        match find_symbol(solved_types, symbol) {
                            Some(t) => {
                                proof {
                                    lemma_lookup_at(solved_types@, symbol, t as int);
                                    lemma_lookup_at(
                                        solved_table_view(solved_types@),
                                        symbol,
                                        t as int,
                                    );
                                }
                                merge_aliases(&mut imports.imported_aliases, new_aliases);

                                push_import(
                                    &mut imports.imported_symbols,
                                    Import {
                                        loc_symbol: Loc::at_zero(symbol),
                                        solved_type: solved_types[t].1.clone(),
                                    },
                                );

                                match find_symbol(stored_vars_by_symbol, symbol) {
                                    Some(v) => {
                                        proof {
                                            lemma_lookup_at(stored_vars_by_symbol@, symbol, v as int);
                                        }
                                        imports.hacky_symbols.push(
                                            HackyImport {
                                                loc_symbol: Loc::at_zero(symbol),
                                                variable: stored_vars_by_symbol[v].1,
                                                storage_subs: *storage_subs,
                                            },
                                        );
                                    },
                                    None => {
                                        assert(false);
                                    },
                                }
                            },
                            None => {},
                        }
                    },
                    ExposedModuleTypes::Invalid => {
                        // Whatever comes from a module that did not compile
                        // gets the placeholder type, so that the failure
                        // stays with that module.
                        push_import(
                            &mut imports.imported_symbols,
                            Import {
                                loc_symbol: Loc::at_zero(symbol),
                                solved_type: SolvedType::invalid_module(),
                            },
                        );
                    },
                }
            },
            None => {
                assert(false);
            },
        }
    }
}

/// Some reference names a symbol of the module `module_id`.
pub open spec fn refers_to(references: Seq<Symbol>, module_id: ModuleId) -> bool {
    exists|i: int| 0 <= i < references.len() && (#[trigger] references[i]).module_id == module_id
}

/// What `without_module` keeps: every entry of another module, and nothing
/// else.
pub proof fn lemma_without_module(modules: Seq<(ModuleId, Region)>, module_id: ModuleId)
    ensures
        forall|j: int|
            0 <= j < without_module(modules, module_id).len() ==> {
                &&& (#[trigger] without_module(modules, module_id)[j]).0 != module_id
                &&& modules.contains(without_module(modules, module_id)[j])
            },
        forall|k: int|
            0 <= k < modules.len() && (#[trigger] modules[k]).0 != module_id ==> without_module(
                modules,
                module_id,
            ).contains(modules[k]),
    decreases modules.len(),
{
    let kept = without_module(modules, module_id);
    if modules.len() > 0 {
        let before = modules.drop_last();
        let rest = without_module(before, module_id);
        lemma_without_module(before, module_id);
        assert forall|j: int| 0 <= j < kept.len() implies {
            &&& (#[trigger] kept[j]).0 != module_id
            &&& modules.contains(kept[j])
        } by {
            if j < rest.len() {
                assert(kept[j] == rest[j]);
                let w = choose|w: int| 0 <= w < before.len() && before[w] == rest[j];
                assert(modules[w] == kept[j]);
            } else {
                assert(kept[j] == modules[modules.len() - 1]);
            }
        }
        assert forall|k: int|
            0 <= k < modules.len() && (#[trigger] modules[k]).0 != module_id implies kept.contains(
            modules[k],
        ) by {
            if k < before.len() {
                assert(before[k] == modules[k]);
                let w = choose|w: int| 0 <= w < rest.len() && rest[w] == before[k];
                assert(kept[w] == modules[k]);
            } else {
                assert(kept[kept.len() - 1] == modules[k]);
            }
        }
    }
}

/// Of the modules that were imported, those that are still unused after the
/// references are exactly those that no reference names.
pub proof fn lemma_unused_imports(
    home: ModuleId,
    references: Seq<Symbol>,
    exposed: Seq<(ModuleId, ExposedModuleTypesModel)>,
    stdlib: StdLibModel,
    start: ConstrainableImportsModel,
)
    ensures
        forall|j: int|
            0 <= j < imports_after(home, references, exposed, stdlib, start).unused_imports.len()
                ==> {
                &&& !refers_to(
                    references,
                    (#[trigger] imports_after(
                        home,
                        references,
                        exposed,
                        stdlib,
                        start,
                    ).unused_imports[j]).0,
                )
                &&& start.unused_imports.contains(
                    imports_after(home, references, exposed, stdlib, start).unused_imports[j],
                )
            },
        forall|k: int|
            0 <= k < start.unused_imports.len() && !refers_to(
                references,
                (#[trigger] start.unused_imports[k]).0,
            ) ==> imports_after(home, references, exposed, stdlib, start).unused_imports.contains(
                start.unused_imports[k],
            ),
    decreases references.len(),
{
    let after = imports_after(home, references, exposed, stdlib, start).unused_imports;
    if references.len() > 0 {
        let earlier = references.drop_last();
        let module_id = references.last().module_id;
        let before = imports_after(home, earlier, exposed, stdlib, start).unused_imports;
        lemma_unused_imports(home, earlier, exposed, stdlib, start);
        lemma_without_module(before, module_id);
        assert(after == without_module(before, module_id));
        assert forall|j: int| 0 <= j < after.len() implies {
            &&& !refers_to(references, (#[trigger] after[j]).0)
            &&& start.unused_imports.contains(after[j])
        } by {
            let w = choose|w: int| 0 <= w < before.len() && before[w] == after[j];
            assert(!refers_to(earlier, before[w].0));
            if refers_to(references, after[j].0) {
                let i = choose|i: int|
                    0 <= i < references.len() && (#[trigger] references[i]).module_id == after[j].0;
                if i < earlier.len() {
                    assert(earlier[i] == references[i]);
                }
            }
        }
        assert forall|k: int|
            0 <= k < start.unused_imports.len() && !refers_to(
                references,
                (#[trigger] start.unused_imports[k]).0,
            ) implies after.contains(start.unused_imports[k]) by {
            let entry = start.unused_imports[k];
            if refers_to(earlier, entry.0) {
                let i = choose|i: int|
                    0 <= i < earlier.len() && (#[trigger] earlier[i]).module_id == entry.0;
                assert(references[i] == earlier[i]);
            }
            assert(before.contains(entry));
            let w = choose|w: int| 0 <= w < before.len() && before[w] == entry;
            assert(references[references.len() - 1].module_id == module_id);
            assert(before[w].0 != module_id);
        }
    } else {
        assert forall|k: int| 0 <= k < start.unused_imports.len() implies after.contains(
            #[trigger] start.unused_imports[k],
        ) by {}
    }
}

/// The imported modules that no reference names, in the order in which they
/// were imported.
pub open spec fn unused_among(imported: Seq<(ModuleId, Region)>, references: Seq<Symbol>) -> Seq<
    (ModuleId, Region),
> {
    imported.filter(|entry: (ModuleId, Region)| !refers_to(references, entry.0))
}

/// The imported modules after the modules of `references` are taken out,
/// one after the other.
spec fn unused_fold(imported: Seq<(ModuleId, Region)>, references: Seq<Symbol>) -> Seq<
    (ModuleId, Region),
>
    decreases references.len(),
{
    if references.len() == 0 {
        imported
    } else {
        without_module(unused_fold(imported, references.drop_last()), references.last().module_id)
    }
}

proof fn lemma_refers_to_last(references: Seq<Symbol>, module_id: ModuleId)
    requires
        references.len() > 0,
    ensures
        refers_to(references, module_id) <==> refers_to(references.drop_last(), module_id)
            || references.last().module_id == module_id,
{
    let earlier = references.drop_last();
    if refers_to(references, module_id) {
        let i = choose|i: int|
            0 <= i < references.len() && (#[trigger] references[i]).module_id == module_id;
        if i < earlier.len() {
            assert(earlier[i] == references[i]);
        }
    }
    if refers_to(earlier, module_id) {
        let i = choose|i: int|
            0 <= i < earlier.len() && (#[trigger] earlier[i]).module_id == module_id;
        assert(references[i] == earlier[i]);
    }
    if references.last().module_id == module_id {
        assert(references[references.len() - 1].module_id == module_id);
    }
}

proof fn lemma_unused_fold_push(
    imported: Seq<(ModuleId, Region)>,
    entry: (ModuleId, Region),
    references: Seq<Symbol>,
)
    ensures
        unused_fold(imported.push(entry), references) == if refers_to(references, entry.0) {
            unused_fold(imported, references)
        } else {
            unused_fold(imported, references).push(entry)
        },
    decreases references.len(),
{
    if references.len() > 0 {
        let earlier = references.drop_last();
        let module_id = references.last().module_id;
        lemma_unused_fold_push(imported, entry, earlier);
        lemma_refers_to_last(references, entry.0);
        let before = unused_fold(imported, earlier);
        if !refers_to(earlier, entry.0) {
            assert(before.push(entry).drop_last() =~= before);
        }
    } else {
        assert(!refers_to(references, entry.0));
    }
}

proof fn lemma_unused_fold_is_filter(imported: Seq<(ModuleId, Region)>, references: Seq<Symbol>)
    ensures
        unused_fold(imported, references) == unused_among(imported, references),
    decreases imported.len(), references.len(),
{
    reveal(Seq::filter);
    if imported.len() == 0 {
        if references.len() > 0 {
            lemma_unused_fold_is_filter(imported, references.drop_last());
        }
    } else {
        let earlier = imported.drop_last();
        assert(imported =~= earlier.push(imported.last()));
        lemma_unused_fold_push(earlier, imported.last(), references);
        lemma_unused_fold_is_filter(earlier, references);
    }
}

/// After the references, the modules still unused are the imported modules
/// that no reference names, in the order in which they were imported.
pub proof fn lemma_unused_is_filter(
    home: ModuleId,
    references: Seq<Symbol>,
    exposed: Seq<(ModuleId, ExposedModuleTypesModel)>,
    stdlib: StdLibModel,
    start: ConstrainableImportsModel,
)
    ensures
        imports_after(home, references, exposed, stdlib, start).unused_imports == unused_among(
            start.unused_imports,
            references,
        ),
{
    lemma_unused_is_fold(home, references, exposed, stdlib, start);
    lemma_unused_fold_is_filter(start.unused_imports, references);
}

proof fn lemma_unused_is_fold(
    home: ModuleId,
    references: Seq<Symbol>,
    exposed: Seq<(ModuleId, ExposedModuleTypesModel)>,
    stdlib: StdLibModel,
    start: ConstrainableImportsModel,
)
    ensures
        imports_after(home, references, exposed, stdlib, start).unused_imports == unused_fold(
            start.unused_imports,
            references,
        ),
    decreases references.len(),
{
    if references.len() > 0 {
        lemma_unused_is_fold(home, references.drop_last(), exposed, stdlib, start);
    }
}

/// Whatever is referred to, every symbol stands once in the table of
/// imported aliases, if it did so at the start.
pub proof fn lemma_imported_aliases_unique(
    home: ModuleId,
    references: Seq<Symbol>,
    exposed: Seq<(ModuleId, ExposedModuleTypesModel)>,
    stdlib: StdLibModel,
    start: ConstrainableImportsModel,
)
    requires
        unique_keys(start.imported_aliases),
    ensures
        unique_keys(imports_after(home, references, exposed, stdlib, start).imported_aliases),
    decreases references.len(),
{
    if references.len() > 0 {
        let before = imports_after(home, references.drop_last(), exposed, stdlib, start);
        lemma_imported_aliases_unique(home, references.drop_last(), exposed, stdlib, start);
        let symbol = references.last();
        if !symbol.module_id.builtin && symbol.module_id != home {
            match lookup(exposed, symbol.module_id) {
                Some(ExposedModuleTypesModel::Valid { aliases, .. }) => {
                    lemma_with_aliases_unique(before.imported_aliases, aliases);
                },
                _ => {},
            }
        }
    }
}

impl ExposedModuleTypesModel {
    /// What a valid module exports are tables in which each symbol stands
    /// once.
    pub open spec fn is_well_formed(self) -> bool {
        match self {
            ExposedModuleTypesModel::Invalid => true,
            ExposedModuleTypesModel::Valid { solved_types, aliases, .. } => {
                &&& unique_keys(solved_types)
                &&& unique_keys(aliases)
            },
        }
    }
}

impl StdLibModel {
    /// Each built-in value has one type, and the lists of applications and
    /// aliases hold no symbol twice.
    pub open spec fn is_well_formed(self) -> bool {
        &&& unique_keys(self.types)
        &&& self.applies.no_duplicates()
        &&& self.aliases.no_duplicates()
    }
}

/// The tables that resolving goes by are maps and sets: the modules that
/// were imported, what the solved modules export, and the built-in types
/// hold each of their keys once.
pub open spec fn tables_are_maps(
    imported_modules: Seq<(ModuleId, Region)>,
    exposed: Seq<(ModuleId, ExposedModuleTypesModel)>,
    stdlib: StdLibModel,
) -> bool {
    &&& unique_keys(imported_modules)
    &&& unique_keys(exposed)
    &&& forall|i: int| 0 <= i < exposed.len() ==> (#[trigger] exposed[i]).1.is_well_formed()
    &&& stdlib.is_well_formed()
}

/// Whether each symbol stands once in `table`.
pub fn symbols_are_keys<V>(table: &Vec<(Symbol, V)>) -> (unique: bool)
    ensures
        unique == unique_keys(table@),
{
    let mut i: usize = 0;
    while i < table.len()
        invariant
            i <= table.len(),
            forall|a: int, b: int|
                0 <= a < b < i ==> (#[trigger] table@[a]).0 != (#[trigger] table@[b]).0,
        decreases table.len() - i,
    {
        let mut j: usize = 0;
        while j < i
            invariant
                j <= i,
                i < table.len(),
                forall|a: int| 0 <= a < j ==> (#[trigger] table@[a]).0 != table@[i as int].0,
            decreases i - j,
        {
            if table[j].0 == table[i].0 {
                return false;
            }
            j += 1;
        }
        i += 1;
    }
    true
}

/// Whether each module stands once in `table`.
pub fn modules_are_keys<V>(table: &Vec<(ModuleId, V)>) -> (unique: bool)
    ensures
        unique == unique_keys(table@),
{
    let mut i: usize = 0;
    while i < table.len()
        invariant
            i <= table.len(),
            forall|a: int, b: int|
                0 <= a < b < i ==> (#[trigger] table@[a]).0 != (#[trigger] table@[b]).0,
        decreases table.len() - i,
    {
        let mut j: usize = 0;
        while j < i
            invariant
                j <= i,
                i < table.len(),
                forall|a: int| 0 <= a < j ==> (#[trigger] table@[a]).0 != table@[i as int].0,
            decreases i - j,
        {
            if table[j].0 == table[i].0 {
                return false;
            }
            j += 1;
        }
        i += 1;
    }
    true
}

/// Two tables with the same keys at the same places hold each key once
/// together or not at all.
pub proof fn lemma_unique_keys_same<K, V, W>(a: Seq<(K, V)>, b: Seq<(K, W)>)
    requires
        a.len() == b.len(),
        forall|j: int| 0 <= j < a.len() ==> (#[trigger] a[j]).0 == (#[trigger] b[j]).0,
    ensures
        unique_keys(a) == unique_keys(b),
{
    if unique_keys(a) {
        assert forall|i: int, j: int| 0 <= i < j < b.len() implies (#[trigger] b[i]).0 != (
        #[trigger] b[j]).0 by {
            assert(a[i].0 == b[i].0 && a[j].0 == b[j].0);
        }
    }
    if unique_keys(b) {
        assert forall|i: int, j: int| 0 <= i < j < a.len() implies (#[trigger] a[i]).0 != (
        #[trigger] a[j]).0 by {
            assert(a[i].0 == b[i].0 && a[j].0 == b[j].0);
        }
    }
}

fn module_is_well_formed(types: &ExposedModuleTypes) -> (well_formed: bool)
    ensures
        well_formed == types@.is_well_formed(),
{
    match types {
        ExposedModuleTypes::Invalid => true,
        ExposedModuleTypes::Valid { solved_types, aliases, .. } => {
            proof {
                lemma_unique_keys_same(solved_types@, solved_table_view(solved_types@));
                lemma_unique_keys_same(aliases@, aliases_view(aliases@));
            }
            symbols_are_keys(solved_types) && symbols_are_keys(aliases)
        },
    }
}

/// Whether the tables are maps and sets, as `pre_constrain_imports` takes
/// them to be.
pub fn check_tables(
    imported_modules: &Vec<(ModuleId, Region)>,
    exposed_types: &SubsByModule,
    stdlib: &StdLib,
) -> (well_formed: bool)
    ensures
        well_formed == tables_are_maps(
            imported_modules@,
            exposed_view(exposed_types@),
            stdlib@,
        ),
{
    let ghost exposed = exposed_view(exposed_types@);
    proof {
        lemma_unique_keys_same(exposed_types@, exposed);
        lemma_unique_keys_same(stdlib.types@, builtin_types_view(stdlib.types@));
    }
    if !modules_are_keys(imported_modules) || !modules_are_keys(exposed_types) {
        return false;
    }
    if !symbols_are_keys(&stdlib.types) || !all_distinct(&stdlib.applies) || !all_distinct(
        &stdlib.aliases,
    ) {
        return false;
    }
    let mut i: usize = 0;
    while i < exposed_types.len()
        invariant
            i <= exposed_types.len(),
            exposed == exposed_view(exposed_types@),
            forall|k: int| 0 <= k < i ==> (#[trigger] exposed[k]).1.is_well_formed(),
        decreases exposed_types.len() - i,
    {
        if !module_is_well_formed(&exposed_types[i].1) {
            assert(!exposed[i as int].1.is_well_formed());
            return false;
        }
        i += 1;
    }
    true
}

/// What is left of a table that holds each key once holds each key once.
pub proof fn lemma_filter_unique<K, V>(table: Seq<(K, V)>, keep: spec_fn((K, V)) -> bool)
    requires
        unique_keys(table),
    ensures
        unique_keys(table.filter(keep)),
        forall|i: int|
            0 <= i < table.filter(keep).len() ==> table.contains(#[trigger] table.filter(keep)[i]),
    decreases table.len(),
{
    reveal(Seq::filter);
    let kept = table.filter(keep);
    if table.len() > 0 {
        let earlier = table.drop_last();
        let before = earlier.filter(keep);
        assert(unique_keys(earlier)) by {
            assert forall|i: int, j: int| 0 <= i < j < earlier.len() implies (
            #[trigger] earlier[i]).0 != (#[trigger] earlier[j]).0 by {
                assert(table[i] == earlier[i] && table[j] == earlier[j]);
            }
        }
        lemma_filter_unique(earlier, keep);
        assert forall|i: int| 0 <= i < kept.len() implies table.contains(#[trigger] kept[i]) by {
            if i < before.len() {
                assert(kept[i] == before[i]);
                let at = choose|at: int| 0 <= at < earlier.len() && earlier[at] == before[i];
                assert(table[at] == earlier[at]);
            } else {
                assert(kept[i] == table[table.len() - 1]);
            }
        }
        assert forall|i: int, j: int| 0 <= i < j < kept.len() implies (#[trigger] kept[i]).0 != (
        #[trigger] kept[j]).0 by {
            assert(kept[i] == before[i]);
            if j < before.len() {
                assert(kept[j] == before[j]);
            } else {
                let at = choose|at: int| 0 <= at < earlier.len() && earlier[at] == before[i];
                assert(table[at] == earlier[at]);
                assert(kept[j] == table[table.len() - 1]);
            }
        }
    }
}

/// What the reference to `symbol` imports, if it imports anything.
pub open spec fn import_of(
    home: ModuleId,
    symbol: Symbol,
    exposed: Seq<(ModuleId, ExposedModuleTypesModel)>,
    stdlib: StdLibModel,
) -> Option<ImportModel> {
    if symbol.module_id.builtin {
        match lookup(stdlib.types, symbol) {
            Some((solved_type, region)) => Some(
                ImportModel { loc_symbol: Loc { region, value: symbol }, solved_type },
            ),
            None => None,
        }
    } else if symbol.module_id != home {
        match lookup(exposed, symbol.module_id) {
            Some(ExposedModuleTypesModel::Valid { solved_types, .. }) => match lookup(
                solved_types,
                symbol,
            ) {
                Some(solved_type) => Some(
                    ImportModel { loc_symbol: Loc::at_zero(symbol), solved_type },
                ),
                None => None,
            },
            Some(ExposedModuleTypesModel::Invalid) => Some(
                ImportModel {
                    loc_symbol: Loc::at_zero(symbol),
                    solved_type: SolvedTypeModel::Erroneous(Problem::InvalidModule),
                },
            ),
            None => None,
        }
    } else {
        None
    }
}

/// What the reference to `symbol` takes straight out of the exporter's
/// store, if it takes anything.
pub open spec fn hacky_import_of(
    home: ModuleId,
    symbol: Symbol,
    exposed: Seq<(ModuleId, ExposedModuleTypesModel)>,
) -> Option<HackyImport> {
    if !symbol.module_id.builtin && symbol.module_id != home {
        match lookup(exposed, symbol.module_id) {
            Some(
                ExposedModuleTypesModel::Valid { solved_types, stored_vars_by_symbol, storage_subs, .. },
            ) => {
                if has_key(solved_types, symbol) {
                    Some(
                        HackyImport {
                            storage_subs,
                            loc_symbol: Loc::at_zero(symbol),
                            variable: stored_vars_by_symbol[first_index(
                                stored_vars_by_symbol,
                                symbol,
                            )].1,
                        },
                    )
                } else {
                    None
                }
            },
            _ => None,
        }
    } else {
        None
    }
}

/// The imports of the references: for each reference that imports
/// something, in the order of the references, what it imports.
pub open spec fn imports_among(
    home: ModuleId,
    references: Seq<Symbol>,
    exposed: Seq<(ModuleId, ExposedModuleTypesModel)>,
    stdlib: StdLibModel,
) -> Seq<ImportModel> {
    references.filter_map(|symbol: Symbol| import_of(home, symbol, exposed, stdlib))
}

/// The same of what is taken straight out of the exporters' stores.
pub open spec fn hacky_imports_among(
    home: ModuleId,
    references: Seq<Symbol>,
    exposed: Seq<(ModuleId, ExposedModuleTypesModel)>,
) -> Seq<HackyImport> {
    references.filter_map(|symbol: Symbol| hacky_import_of(home, symbol, exposed))
}

/// The imports after the references are those at the start and then, for
/// each reference that imports something, what it imports.
pub proof fn lemma_imports_are_per_reference(
    home: ModuleId,
    references: Seq<Symbol>,
    exposed: Seq<(ModuleId, ExposedModuleTypesModel)>,
    stdlib: StdLibModel,
    start: ConstrainableImportsModel,
)
    ensures
        imports_after(home, references, exposed, stdlib, start).imported_symbols
            == start.imported_symbols + imports_among(home, references, exposed, stdlib),
        imports_after(home, references, exposed, stdlib, start).hacky_symbols == start.hacky_symbols
            + hacky_imports_among(home, references, exposed),
    decreases references.len(),
{
    let after = imports_after(home, references, exposed, stdlib, start);
    let imported = imports_among(home, references, exposed, stdlib);
    let hacky = hacky_imports_among(home, references, exposed);
    if references.len() == 0 {
        assert(after.imported_symbols =~= start.imported_symbols + imported);
        assert(after.hacky_symbols =~= start.hacky_symbols + hacky);
    } else {
        let earlier = references.drop_last();
        let symbol = references.last();
        lemma_imports_are_per_reference(home, earlier, exposed, stdlib, start);
        let before_imported = imports_among(home, earlier, exposed, stdlib);
        let before_hacky = hacky_imports_among(home, earlier, exposed);
        match import_of(home, symbol, exposed, stdlib) {
            Some(import) => {
                assert(imported == before_imported + seq![import]);
                assert(after.imported_symbols =~= start.imported_symbols + imported);
            },
            None => {
                assert(imported == before_imported);
            },
        }
        match hacky_import_of(home, symbol, exposed) {
            Some(taken) => {
                assert(hacky == before_hacky + seq![taken]);
                assert(after.hacky_symbols =~= start.hacky_symbols + hacky);
            },
            None => {
                assert(hacky == before_hacky);
            },
        }
    }
}

/// Each import is the import of a reference, and where no symbol is
/// referred to twice, no symbol is imported twice: a reference that imports
/// something imports exactly one thing.
pub proof fn lemma_one_import_per_reference(
    home: ModuleId,
    references: Seq<Symbol>,
    exposed: Seq<(ModuleId, ExposedModuleTypesModel)>,
    stdlib: StdLibModel,
)
    ensures
        forall|k: int|
            0 <= k < imports_among(home, references, exposed, stdlib).len() ==> references.contains(
                (#[trigger] imports_among(home, references, exposed, stdlib)[k]).loc_symbol.value,
            ),
        forall|i: int|
            0 <= i < references.len() && import_of(
                home,
                #[trigger] references[i],
                exposed,
                stdlib,
            ) is Some ==> imports_among(home, references, exposed, stdlib).contains(
                import_of(home, references[i], exposed, stdlib).unwrap(),
            ),
        references.no_duplicates() ==> forall|j: int, k: int|
            0 <= j < k < imports_among(home, references, exposed, stdlib).len() ==> (
            #[trigger] imports_among(home, references, exposed, stdlib)[j]).loc_symbol.value != (
            #[trigger] imports_among(home, references, exposed, stdlib)[k]).loc_symbol.value,
    decreases references.len(),
{
    let imported = imports_among(home, references, exposed, stdlib);
    if references.len() > 0 {
        let earlier = references.drop_last();
        let symbol = references.last();
        let before = imports_among(home, earlier, exposed, stdlib);
        lemma_one_import_per_reference(home, earlier, exposed, stdlib);
        let found = import_of(home, symbol, exposed, stdlib);
        assert(imported == match found {
            Some(import) => before + seq![import],
            None => before,
        });
        assert(references[references.len() - 1] == symbol);
        assert forall|k: int| 0 <= k < imported.len() implies references.contains(
            (#[trigger] imported[k]).loc_symbol.value,
        ) by {
            if k < before.len() {
                assert(imported[k] == before[k]);
                let at = choose|at: int|
                    0 <= at < earlier.len() && earlier[at] == before[k].loc_symbol.value;
                assert(references[at] == earlier[at]);
            } else {
                assert(imported[k].loc_symbol.value == symbol);
            }
        }
        assert forall|i: int|
            0 <= i < references.len() && import_of(
                home,
                #[trigger] references[i],
                exposed,
                stdlib,
            ) is Some implies imported.contains(
            import_of(home, references[i], exposed, stdlib).unwrap(),
        ) by {
            if i < earlier.len() {
                assert(earlier[i] == references[i]);
                let import = import_of(home, references[i], exposed, stdlib).unwrap();
                let at = choose|at: int| 0 <= at < before.len() && before[at] == import;
                assert(imported[at] == import);
            } else {
                assert(imported[imported.len() - 1] == found.unwrap());
            }
        }
        if references.no_duplicates() {
            assert(earlier.no_duplicates()) by {
                assert forall|a: int, b: int|
                    0 <= a < earlier.len() && 0 <= b < earlier.len() && a != b implies earlier[a]
                    != earlier[b] by {
                    assert(references[a] == earlier[a] && references[b] == earlier[b]);
                }
            }
            assert forall|j: int, k: int| 0 <= j < k < imported.len() implies (
            #[trigger] imported[j]).loc_symbol.value != (#[trigger] imported[k]).loc_symbol.value by {
                assert(imported[j] == before[j]);
                if k < before.len() {
                    assert(imported[k] == before[k]);
                } else {
                    assert(imported[k].loc_symbol.value == symbol);
                    let at = choose|at: int|
                        0 <= at < earlier.len() && earlier[at] == before[j].loc_symbol.value;
                    assert(references[at] == earlier[at]);
                }
            }
        }
    }
}

/// Whether no symbol stands twice in `symbols`.
pub fn all_distinct(symbols: &Vec<Symbol>) -> (distinct: bool)
    ensures
        distinct == symbols@.no_duplicates(),
{
    let mut i: usize = 0;
    while i < symbols.len()
        invariant
            i <= symbols.len(),
            forall|a: int, b: int| 0 <= a < b < i ==> symbols@[a] != symbols@[b],
        decreases symbols.len() - i,
    {
        let mut j: usize = 0;
        while j < i
            invariant
                j <= i,
                i < symbols.len(),
                forall|a: int| 0 <= a < j ==> symbols@[a] != symbols@[i as int],
            decreases i - j,
        {
            if symbols[j] == symbols[i] {
                return false;
            }
            j += 1;
        }
        i += 1;
    }
    true
}

/// Resolves what a module refers to. Run this before `constrain_imports`.
///
/// This half of constraining the imports reads what other modules export,
/// so it has to run where that table is at rest; the other half needs only
/// what this one returns.
///
/// `references` holds every symbol that the module `home` refers to,
/// `imported_modules` the modules it imports with the region of each
/// import, and `exposed_types` what every module solved so far exports.
///
/// The references are a set and the tables are maps: no symbol stands twice
/// among the references, and no key twice in a table (`check_tables`). Every
/// reference has to be resolvable. One that is not shows a mistake of an
/// earlier phase, which nothing here can make good: `check_references`
/// finds it, and the caller gives up.
pub fn pre_constrain_imports(
    home: ModuleId,
    references: &Vec<Symbol>,
    imported_modules: Vec<(ModuleId, Region)>,
    exposed_types: &SubsByModule,
    stdlib: &StdLib,
) -> (imports: ConstrainableImports)
    requires
        references@.no_duplicates(),
        tables_are_maps(imported_modules@, exposed_view(exposed_types@), stdlib@),
        forall|i: int|
            0 <= i < references.len() ==> resolvable(
                home,
                #[trigger] references[i],
                exposed_view(exposed_types@),
                stdlib@,
            ),
    ensures
        imports@ == imports_after(
            home,
            references@,
            exposed_view(exposed_types@),
            stdlib@,
            ConstrainableImportsModel::start(imported_modules@),
        ),
        imports@.imported_symbols == imports_among(
            home,
            references@,
            exposed_view(exposed_types@),
            stdlib@,
        ),
        imports@.hacky_symbols == hacky_imports_among(
            home,
            references@,
            exposed_view(exposed_types@),
        ),
        forall|j: int, k: int|
            0 <= j < k < imports@.imported_symbols.len() ==> (
            #[trigger] imports@.imported_symbols[j]).loc_symbol.value != (
            #[trigger] imports@.imported_symbols[k]).loc_symbol.value,
        unique_keys(imports@.imported_aliases),
        imports.unused_imports@ == unused_among(imported_modules@, references@),
        unique_keys(imports.unused_imports@),
        forall|j: int|
            0 <= j < imports.unused_imports.len() ==> {
                &&& !refers_to(references@, (#[trigger] imports.unused_imports[j]).0)
                &&& imported_modules@.contains(imports.unused_imports[j])
            },
        forall|k: int|
            0 <= k < imported_modules.len() && !refers_to(
                references@,
                (#[trigger] imported_modules[k]).0,
            ) ==> imports.unused_imports@.contains(imported_modules[k]),
{
    let ghost exposed = exposed_view(exposed_types@);
    let ghost start = ConstrainableImportsModel::start(imported_modules@);
    let mut imports = ConstrainableImports {
        imported_symbols: Vec::new(),
        hacky_symbols: Vec::new(),
        imported_aliases: Vec::new(),
        // The modules that are referred to are taken out one by one.
        unused_imports: imported_modules,
    };
    assert(imports@.imported_symbols =~= start.imported_symbols);
    assert(imports@.imported_aliases =~= start.imported_aliases);

    let mut i: usize = 0;
    while i < references.len()
        invariant
            i <= references.len(),
            exposed == exposed_view(exposed_types@),
            forall|k: int|
                0 <= k < references.len() ==> resolvable(
                    home,
                    #[trigger] references[k],
                    exposed,
                    stdlib@,
                ),
            imports@ == imports_after(home, references@.take(i as int), exposed, stdlib@, start),
        decreases references.len() - i,
    {
        import_symbol(home, references[i], exposed_types, stdlib, &mut imports);
        proof {
            assert(references@.take(i + 1).drop_last() =~= references@.take(i as int));
        }
        i += 1;
    }
    proof {
        assert(references@.take(i as int) =~= references@);
        lemma_unused_imports(home, references@, exposed, stdlib@, start);
        lemma_unused_is_filter(home, references@, exposed, stdlib@, start);
        lemma_imported_aliases_unique(home, references@, exposed, stdlib@, start);
        lemma_filter_unique(
            imported_modules@,
            |entry: (ModuleId, Region)| !refers_to(references@, entry.0),
        );
        lemma_imports_are_per_reference(home, references@, exposed, stdlib@, start);
        lemma_one_import_per_reference(home, references@, exposed, stdlib@);
        assert(start.imported_symbols + imports_among(home, references@, exposed, stdlib@)
            =~= imports_among(home, references@, exposed, stdlib@));
        assert(start.hacky_symbols + hacky_imports_among(home, references@, exposed)
            =~= hacky_imports_among(home, references@, exposed));
        let after = imports_after(home, references@, exposed, stdlib@, start).unused_imports;
        assert(imports.unused_imports@ == after);
        assert forall|j: int| 0 <= j < imports.unused_imports.len() implies {
            &&& !refers_to(references@, (#[trigger] imports.unused_imports[j]).0)
            &&& imported_modules@.contains(imports.unused_imports[j])
        } by {
            assert(imports.unused_imports[j] == after[j]);
        }
        assert forall|k: int|
            0 <= k < imported_modules.len() && !refers_to(
                references@,
                (#[trigger] imported_modules[k]).0,
            ) implies imports.unused_imports@.contains(imported_modules[k]) by {
            assert(imported_modules[k] == start.unused_imports[k]);
        }
    }
    imports
}

/// An import with the local type that stands for its solved type in the
/// importing module, and the table of the local variables that stand for
/// the free variables of the solved type.
///
/// For an import that is an alias under its own name no local type is
/// needed: what stands in `typ` and `free_vars` is not looked at.
#[derive(PartialEq, Eq, Debug)]
pub struct LocalImport {
    pub import: Import,
    pub typ: Type,
    pub free_vars: FreeVars,
}

pub struct LocalImportModel {
    pub import: ImportModel,
    pub typ: TypeModel,
    pub free_vars: FreeVarsModel,
}

impl View for LocalImport {
    type V = LocalImportModel;

    open spec fn view(&self) -> LocalImportModel {
        LocalImportModel { import: self.import@, typ: self.typ@, free_vars: self.free_vars@ }
    }
}

pub open spec fn local_imports_view(s: Seq<LocalImport>) -> Seq<LocalImportModel> {
    Seq::new(s.len(), |i: int| s[i]@)
}

/// The model of a list of definition types.
pub open spec fn def_types_view(s: Seq<(Symbol, Loc<Type>)>) -> Seq<(Symbol, Loc<TypeModel>)> {
    Seq::new(s.len(), |i: int| (s[i].0, Loc { region: s[i].1.region, value: s[i].1.value@ }))
}

impl LocalImportModel {
    /// The variables that the import makes rigid: none for an alias under
    /// its own name, else every variable of the table.
    pub open spec fn rigid_vars(self) -> Seq<Variable> {
        if self.import.is_self_alias() {
            Seq::empty()
        } else {
            self.free_vars.rigid_vars()
        }
    }

    /// The definition types that the import gives: none for an alias under
    /// its own name, else the local type under the imported symbol, at the
    /// symbol's region.
    pub open spec fn def_types(self) -> Seq<(Symbol, Loc<TypeModel>)> {
        if self.import.is_self_alias() {
            Seq::empty()
        } else {
            seq![
                (
                    self.import.loc_symbol.value,
                    Loc { region: self.import.loc_symbol.region, value: self.typ },
                ),
            ]
        }
    }
}

impl LocalImportModel {
    /// The table of free variables is a table: each name and each unnamed
    /// variable of the solved type stands in it once. Nothing is asked of
    /// the table of an alias under its own name, which is not looked at.
    pub open spec fn is_well_formed(self) -> bool {
        self.import.is_self_alias() || {
            &&& unique_keys(self.free_vars.named_vars)
            &&& unique_keys(self.free_vars.unnamed_vars)
        }
    }
}

/// Every import comes with a table of free variables that is well formed.
pub open spec fn local_imports_are_well_formed(imports: Seq<LocalImportModel>) -> bool {
    forall|i: int| 0 <= i < imports.len() ==> (#[trigger] imports[i]).is_well_formed()
}

fn names_are_keys(table: &Vec<(String, Variable)>) -> (unique: bool)
    ensures
        unique == unique_keys(crate::ident::names_view(table@)),
{
    let ghost names = crate::ident::names_view(table@);
    let mut i: usize = 0;
    while i < table.len()
        invariant
            i <= table.len(),
            names == crate::ident::names_view(table@),
            forall|a: int, b: int|
                0 <= a < b < i ==> (#[trigger] names[a]).0 != (#[trigger] names[b]).0,
        decreases table.len() - i,
    {
        let mut j: usize = 0;
        while j < i
            invariant
                j <= i,
                i < table.len(),
                names == crate::ident::names_view(table@),
                forall|a: int| 0 <= a < j ==> (#[trigger] names[a]).0 != names[i as int].0,
            decreases i - j,
        {
            if table[j].0 == table[i].0 {
                assert(names[j as int].0 == names[i as int].0);
                return false;
            }
            j += 1;
        }
        i += 1;
    }
    true
}

fn var_ids_are_keys(table: &Vec<(crate::ident::VarId, Variable)>) -> (unique: bool)
    ensures
        unique == unique_keys(table@),
{
    let mut i: usize = 0;
    while i < table.len()
        invariant
            i <= table.len(),
            forall|a: int, b: int|
                0 <= a < b < i ==> (#[trigger] table@[a]).0 != (#[trigger] table@[b]).0,
        decreases table.len() - i,
    {
        let mut j: usize = 0;
        while j < i
            invariant
                j <= i,
                i < table.len(),
                forall|a: int| 0 <= a < j ==> (#[trigger] table@[a]).0 != table@[i as int].0,
            decreases i - j,
        {
            if table[j].0 == table[i].0 {
                return false;
            }
            j += 1;
        }
        i += 1;
    }
    true
}

/// Whether every import comes with a well-formed table of free variables,
/// as `constrain_imports` takes them to do.
pub fn check_local_imports(imports: &Vec<LocalImport>) -> (well_formed: bool)
    ensures
        well_formed == local_imports_are_well_formed(local_imports_view(imports@)),
{
    let ghost all = local_imports_view(imports@);
    let mut i: usize = 0;
    while i < imports.len()
        invariant
            i <= imports.len(),
            all == local_imports_view(imports@),
            forall|k: int| 0 <= k < i ==> (#[trigger] all[k]).is_well_formed(),
        decreases imports.len() - i,
    {
        let local = &imports[i];
        assert(all[i as int] == local@);
        if !local.import.is_self_alias() {
            if !names_are_keys(&local.free_vars.named_vars) || !var_ids_are_keys(
                &local.free_vars.unnamed_vars,
            ) {
                assert(!all[i as int].is_well_formed());
                return false;
            }
        }
        i += 1;
    }
    true
}

/// The rigid variables of all imports, in the order of the imports.
pub open spec fn rigid_vars_of(imports: Seq<LocalImportModel>) -> Seq<Variable>
    decreases imports.len(),
{
    if imports.len() == 0 {
        Seq::empty()
    } else {
        rigid_vars_of(imports.drop_last()) + imports.last().rigid_vars()
    }
}

/// The definition types of all imports, in the order of the imports.
pub open spec fn def_types_of(imports: Seq<LocalImportModel>) -> Seq<(Symbol, Loc<TypeModel>)>
    decreases imports.len(),
{
    if imports.len() == 0 {
        Seq::empty()
    } else {
        def_types_of(imports.drop_last()) + imports.last().def_types()
    }
}

/// Gathers what the constraints of a module need of its imports: the
/// variables that must stay rigid, and the type of every imported symbol.
///
/// The variables of a signature were fixed where the signature was written,
/// so all of them are rigid here: the named ones, then the wildcards, then
/// those that lost their name on the way, which are part of the signature
/// all the same.
///
/// The table of free variables of each import is a table: no name and no
/// unnamed variable stands in it twice (`check_local_imports`).
pub fn constrain_imports(imports: Vec<LocalImport>) -> (result: (
    Vec<Variable>,
    Vec<(Symbol, Loc<Type>)>,
))
    requires
        local_imports_are_well_formed(local_imports_view(imports@)),
    ensures
        result.0@ == rigid_vars_of(local_imports_view(imports@)),
        def_types_view(result.1@) == def_types_of(local_imports_view(imports@)),
{
    let ghost all = local_imports_view(imports@);
    let mut def_types: Vec<(Symbol, Loc<Type>)> = Vec::new();
    let mut rigid_vars: Vec<Variable> = Vec::new();
    assert(def_types_view(def_types@) =~= Seq::empty());

    let mut i: usize = 0;
    while i < imports.len()
        invariant
            i <= imports.len(),
            all == local_imports_view(imports@),
            rigid_vars@ == rigid_vars_of(all.take(i as int)),
            def_types_view(def_types@) == def_types_of(all.take(i as int)),
        decreases imports.len() - i,
    {
        let local = &imports[i];
        let ghost before_vars = rigid_vars@;
        let ghost before_types = def_types_view(def_types@);
        proof {
            assert(all.take(i + 1).drop_last() =~= all.take(i as int));
            assert(all.take(i + 1).last() == local@);
        }

        // What is imported is either an alias or a value.
        if local.import.is_self_alias() {
            // Nothing to do: the alias is set up where it is declared.
            assert(rigid_vars@ =~= before_vars + local@.rigid_vars());
            assert(def_types_view(def_types@) =~= before_types + local@.def_types());
        } else {
            let loc_symbol = &local.import.loc_symbol;

            def_types.push(
                (loc_symbol.value, Loc { region: loc_symbol.region, value: local.typ.clone() }),
            );
            assert(def_types_view(def_types@) =~= before_types + local@.def_types());

            let free_vars = &local.free_vars;
            let ghost table = free_vars@;
            let ghost named = Seq::new(table.named_vars.len(), |k: int| table.named_vars[k].1);
            let ghost unnamed = Seq::new(table.unnamed_vars.len(), |k: int| table.unnamed_vars[k].1);

            let mut n: usize = 0;
            while n < free_vars.named_vars.len()
                invariant
                    n <= free_vars.named_vars.len(),
                    table == free_vars@,
                    named == Seq::new(table.named_vars.len(), |k: int| table.named_vars[k].1),
                    rigid_vars@ == before_vars + named.take(n as int),
                decreases free_vars.named_vars.len() - n,
            {
                rigid_vars.push(free_vars.named_vars[n].1);
                assert(rigid_vars@ =~= before_vars + named.take(n + 1));
                n += 1;
            }
            assert(named.take(n as int) =~= named);

            let mut w: usize = 0;
            while w < free_vars.wildcards.len()
                invariant
                    w <= free_vars.wildcards.len(),
                    table == free_vars@,
                    rigid_vars@ == before_vars + named + table.wildcards.take(w as int),
                decreases free_vars.wildcards.len() - w,
            {
                rigid_vars.push(free_vars.wildcards[w]);
                assert(rigid_vars@ =~= before_vars + named + table.wildcards.take(w + 1));
                w += 1;
            }
            assert(table.wildcards.take(w as int) =~= table.wildcards);

            let mut u: usize = 0;
            while u < free_vars.unnamed_vars.len()
                invariant
                    u <= free_vars.unnamed_vars.len(),
                    table == free_vars@,
                    unnamed == Seq::new(table.unnamed_vars.len(), |k: int| table.unnamed_vars[k].1),
                    rigid_vars@ == before_vars + named + table.wildcards + unnamed.take(u as int),
                decreases free_vars.unnamed_vars.len() - u,
            {
                rigid_vars.push(free_vars.unnamed_vars[u].1);
                assert(rigid_vars@ =~= before_vars + named + table.wildcards + unnamed.take(u + 1));
                u += 1;
            }
            assert(unnamed.take(u as int) =~= unnamed);
            assert(rigid_vars@ =~= before_vars + local@.rigid_vars());
        }
        i += 1;
    }
    assert(all.take(i as int) =~= all);

    (rigid_vars, def_types)
}

/// The constraint that puts imports in scope over the constraint of a
/// module's body: the variables to keep rigid, the type of each imported
/// symbol, and the body's constraint.
#[derive(PartialEq, Eq, Debug)]
pub struct ImportConstraint<C> {
    pub rigid_vars: Vec<Variable>,
    pub def_types: Vec<(Symbol, Loc<Type>)>,
    pub body: C,
}

/// Puts `imports` in scope over `body_con`.
pub fn introduce_builtin_imports<C>(imports: Vec<LocalImport>, body_con: C) -> (constraint:
    ImportConstraint<C>)
    requires
        local_imports_are_well_formed(local_imports_view(imports@)),
    ensures
        constraint.rigid_vars@ == rigid_vars_of(local_imports_view(imports@)),
        def_types_view(constraint.def_types@) == def_types_of(local_imports_view(imports@)),
        constraint.body == body_con,
{
    let (rigid_vars, def_types) = constrain_imports(imports);
    ImportConstraint { rigid_vars, def_types, body: body_con }
}

} // verus!
