//! Identifiers shared by every phase: modules, symbols, type variables,
//! source regions and tag names.

use vstd::prelude::*;

verus! {

/// Identifies a compilation unit. `builtin` tells whether the unit is one of
/// the language's built-in modules.
#[derive(Clone, Copy, PartialEq, Eq, Structural, Debug, Hash)]
pub struct ModuleId {
    pub id: u32,
    pub builtin: bool,
}

impl ModuleId {
    pub fn is_builtin(&self) -> (b: bool)
        ensures
            b == self.builtin,
    {
        self.builtin
    }
}

/// A name resolved to the module that declares it and its index there.
#[derive(Clone, Copy, PartialEq, Eq, Structural, Debug, Hash)]
pub struct Symbol {
    pub module_id: ModuleId,
    pub ident_id: u32,
}

impl Symbol {
    pub fn new(module_id: ModuleId, ident_id: u32) -> (s: Symbol)
        ensures
            s == (Symbol { module_id, ident_id }),
    {
        Symbol { module_id, ident_id }
    }

    pub fn module_id(&self) -> (m: ModuleId)
        ensures
            m == self.module_id,
    {
        self.module_id
    }
}

/// A type variable, known by its index in the unit's variable store.
#[derive(Clone, Copy, PartialEq, Eq, Structural, Debug, Hash)]
pub struct Variable {
    pub index: u32,
}

/// The variable that lies `k` places after `base`.
pub open spec fn var_at(base: int, k: int) -> Variable {
    Variable { index: (base + k) as u32 }
}

/// A variable of an exported type, in the numbering of the exporting module.
#[derive(Clone, Copy, PartialEq, Eq, Structural, Debug, Hash)]
pub struct VarId {
    pub index: u32,
}

/// Allocator of type variables for one compilation unit. It hands out the
/// indices `next`, `next + 1`, ... and never the same index twice.
#[derive(Debug)]
pub struct VarStore {
    next: u32,
}

impl View for VarStore {
    type V = int;

    /// The index that the next call of `fresh` will hand out.
    closed spec fn view(&self) -> int {
        self.next as int
    }
}

impl VarStore {
    pub fn new(next: u32) -> (store: VarStore)
        ensures
            store@ == next,
    {
        VarStore { next }
    }

    pub fn peek(&self) -> (next: u32)
        ensures
            next == self@,
    {
        self.next
    }

    /// How many variables can still be handed out.
    pub fn remaining(&self) -> (n: u32)
        ensures
            n == u32::MAX - self@,
    {
        u32::MAX - self.next
    }

    pub proof fn lemma_bounds(&self)
        ensures
            0 <= self@ <= u32::MAX,
    {
    }

    pub fn fresh(&mut self) -> (var: Variable)
        requires
            old(self)@ < u32::MAX,
        ensures
            var == var_at(old(self)@, 0),
            final(self)@ == old(self)@ + 1,
    {
        let answer: u32 = self.next;
        self.next = answer + 1;
        Variable { index: answer }
    }
}

/// A span of source text, as byte offsets. The empty span at offset zero
/// marks nodes that no source text stands for.
#[derive(Clone, Copy, PartialEq, Eq, Structural, Debug, Hash)]
pub struct Region {
    pub start: u32,
    pub end: u32,
}

impl Region {
    pub open spec fn spec_zero() -> Region {
        Region { start: 0, end: 0 }
    }

    #[verifier::when_used_as_spec(spec_zero)]
    pub fn zero() -> (r: Region)
        ensures
            r == Region::spec_zero(),
    {
        Region { start: 0, end: 0 }
    }
}

/// A value together with the region of source it came from.
#[derive(PartialEq, Eq, Debug)]
pub struct Loc<T> {
    pub region: Region,
    pub value: T,
}

impl<T> Loc<T> {
    pub open spec fn spec_at_zero(value: T) -> Loc<T> {
        Loc { region: Region::zero(), value }
    }

    #[verifier::when_used_as_spec(spec_at_zero)]
    pub fn at_zero(value: T) -> (l: Loc<T>)
        ensures
            l == Loc::spec_at_zero(value),
    {
        Loc { region: Region::zero(), value }
    }
}

/// The name of a tag: a global one by its text, a private one or a closure
/// tag by the symbol it belongs to.
#[derive(PartialEq, Eq, Debug)]
pub enum TagName {
    Global(String),
    Private(Symbol),
    Closure(Symbol),
}

pub enum TagNameModel {
    Global(Seq<char>),
    Private(Symbol),
    Closure(Symbol),
}

impl View for TagName {
    type V = TagNameModel;

    open spec fn view(&self) -> TagNameModel {
        match self {
            TagName::Global(name) => TagNameModel::Global(name@),
            TagName::Private(symbol) => TagNameModel::Private(*symbol),
            TagName::Closure(symbol) => TagNameModel::Closure(*symbol),
        }
    }
}

impl Clone for TagName {
    fn clone(&self) -> (copy: TagName)
        ensures
            copy@ == self@,
    {
        match self {
            TagName::Global(name) => TagName::Global(name.clone()),
            TagName::Private(symbol) => TagName::Private(*symbol),
            TagName::Closure(symbol) => TagName::Closure(*symbol),
        }
    }
}

/// The model of a list of names bound to variables.
pub open spec fn names_view(s: Seq<(String, Variable)>) -> Seq<(Seq<char>, Variable)> {
    Seq::new(s.len(), |i: int| (s[i].0@, s[i].1))
}

/// A copy of a list of names bound to variables.
pub fn clone_names(names: &Vec<(String, Variable)>) -> (copy: Vec<(String, Variable)>)
    ensures
        names_view(copy@) == names_view(names@),
{
    let mut copy: Vec<(String, Variable)> = Vec::new();
    let mut i: usize = 0;
    while i < names.len()
        invariant
            i <= names.len(),
            copy.len() == i,
            forall|j: int| 0 <= j < i ==> copy[j].0@ == names[j].0@ && copy[j].1 == names[j].1,
        decreases names.len() - i,
    {
        copy.push((names[i].0.clone(), names[i].1));
        i += 1;
    }
    assert(names_view(copy@) =~= names_view(names@));
    copy
}

} // verus!
