//! Solved types: what a module exports once its types are inferred, free of
//! that module's own variable numbering.

use crate::ident::{names_view, Symbol, TagName, TagNameModel, VarId, Variable};
use crate::types::Problem;
use vstd::prelude::*;

verus! {

/// Whether an alias can be seen through.
#[derive(Clone, Copy, PartialEq, Eq, Structural, Debug)]
pub enum AliasKind {
    Transparent,
    Opaque,
}

#[derive(PartialEq, Eq, Debug)]
pub enum SolvedType {
    /// Arguments, the closure's lambda set, and the result.
    Func(Vec<SolvedType>, Box<SolvedType>, Box<SolvedType>),
    Apply(Symbol, Vec<SolvedType>),
    /// A type variable that the signature names.
    Rigid(String),
    /// A type variable without a name.
    Flex(VarId),
    Wildcard,
    Record { fields: Vec<(String, SolvedType)>, ext: Box<SolvedType> },
    EmptyRecord,
    TagUnion(Vec<(TagName, Vec<SolvedType>)>, Box<SolvedType>),
    RecursiveTagUnion(VarId, Vec<(TagName, Vec<SolvedType>)>, Box<SolvedType>),
    EmptyTagUnion,
    /// The alias's symbol, its arguments, its lambda sets, the type it
    /// stands for, and its kind.
    Alias(Symbol, Vec<(String, SolvedType)>, Vec<SolvedType>, Box<SolvedType>, AliasKind),
    /// A type that could not be given, and why.
    Erroneous(Problem),
    Error,
    /// A type that is not looked into here. Who handed it in knows it by
    /// this number and finds it again by it.
    Foreign(u32),
}

pub enum SolvedTypeModel {
    Func(Seq<SolvedTypeModel>, Box<SolvedTypeModel>, Box<SolvedTypeModel>),
    Apply(Symbol, Seq<SolvedTypeModel>),
    Rigid(Seq<char>),
    Flex(VarId),
    Wildcard,
    Record { fields: Seq<(Seq<char>, SolvedTypeModel)>, ext: Box<SolvedTypeModel> },
    EmptyRecord,
    TagUnion(Seq<(TagNameModel, Seq<SolvedTypeModel>)>, Box<SolvedTypeModel>),
    RecursiveTagUnion(VarId, Seq<(TagNameModel, Seq<SolvedTypeModel>)>, Box<SolvedTypeModel>),
    EmptyTagUnion,
    Alias(
        Symbol,
        Seq<(Seq<char>, SolvedTypeModel)>,
        Seq<SolvedTypeModel>,
        Box<SolvedTypeModel>,
        AliasKind,
    ),
    Erroneous(Problem),
    Error,
    Foreign(u32),
}

pub open spec fn solved_types_view(s: Seq<SolvedType>) -> Seq<SolvedTypeModel>
    decreases s,
{
    Seq::new(
        s.len(),
        |i: int|
            if 0 <= i < s.len() {
                s[i].model()
            } else {
                SolvedTypeModel::Error
            },
    )
}

pub open spec fn solved_fields_view(s: Seq<(String, SolvedType)>) -> Seq<(Seq<char>, SolvedTypeModel)>
    decreases s,
{
    Seq::new(
        s.len(),
        |i: int|
            if 0 <= i < s.len() {
                (s[i].0@, s[i].1.model())
            } else {
                (s[i].0@, SolvedTypeModel::Error)
            },
    )
}

pub open spec fn solved_tags_view(s: Seq<(TagName, Vec<SolvedType>)>) -> Seq<
    (TagNameModel, Seq<SolvedTypeModel>),
>
    decreases s,
{
    Seq::new(
        s.len(),
        |i: int|
            if 0 <= i < s.len() {
                (s[i].0@, solved_types_view(s[i].1@))
            } else {
                (s[i].0@, Seq::empty())
            },
    )
}

impl SolvedType {
    /// The mathematical value of this type: the same tree over sequences.
    pub open spec fn model(&self) -> SolvedTypeModel
        decreases self,
    {
        match self {
            SolvedType::Func(args, closure, ret) => SolvedTypeModel::Func(
                solved_types_view(args@),
                Box::new((**closure).model()),
                Box::new((**ret).model()),
            ),
            SolvedType::Apply(symbol, args) => SolvedTypeModel::Apply(
                *symbol,
                solved_types_view(args@),
            ),
            SolvedType::Rigid(name) => SolvedTypeModel::Rigid(name@),
            SolvedType::Flex(var) => SolvedTypeModel::Flex(*var),
            SolvedType::Wildcard => SolvedTypeModel::Wildcard,
            SolvedType::Record { fields, ext } => SolvedTypeModel::Record {
                fields: solved_fields_view(fields@),
                ext: Box::new((**ext).model()),
            },
            SolvedType::EmptyRecord => SolvedTypeModel::EmptyRecord,
            SolvedType::TagUnion(tags, ext) => SolvedTypeModel::TagUnion(
                solved_tags_view(tags@),
                Box::new((**ext).model()),
            ),
            SolvedType::RecursiveTagUnion(rec, tags, ext) => SolvedTypeModel::RecursiveTagUnion(
                *rec,
                solved_tags_view(tags@),
                Box::new((**ext).model()),
            ),
            SolvedType::EmptyTagUnion => SolvedTypeModel::EmptyTagUnion,
            SolvedType::Alias(symbol, args, lambda_sets, actual, kind) => SolvedTypeModel::Alias(
                *symbol,
                solved_fields_view(args@),
                solved_types_view(lambda_sets@),
                Box::new((**actual).model()),
                *kind,
            ),
            SolvedType::Erroneous(problem) => SolvedTypeModel::Erroneous(*problem),
            SolvedType::Error => SolvedTypeModel::Error,
            SolvedType::Foreign(number) => SolvedTypeModel::Foreign(*number),
        }
    }

    /// Whether this is the alias that `symbol` names.
    pub fn is_alias_of(&self, symbol: Symbol) -> (b: bool)
        ensures
            b == self@.is_alias_of(symbol),
    {
        match self {
            SolvedType::Alias(alias, _, _, _, _) => *alias == symbol,
            _ => false,
        }
    }

    /// The type of what an invalid module exports.
    pub fn invalid_module() -> (t: SolvedType)
        ensures
            t@ == SolvedTypeModel::Erroneous(Problem::InvalidModule),
    {
        SolvedType::Erroneous(Problem::InvalidModule)
    }
}

impl View for SolvedType {
    type V = SolvedTypeModel;

    #[verifier::inline]
    open spec fn view(&self) -> SolvedTypeModel {
        self.model()
    }
}

impl SolvedTypeModel {
    /// Whether this is the alias that `symbol` names.
    pub open spec fn is_alias_of(self, symbol: Symbol) -> bool {
        self matches SolvedTypeModel::Alias(alias, _, _, _, _) && alias == symbol
    }
}

pub fn clone_solved_types(types: &Vec<SolvedType>) -> (copy: Vec<SolvedType>)
    ensures
        solved_types_view(copy@) == solved_types_view(types@),
    decreases types,
{
    let mut copy: Vec<SolvedType> = Vec::new();
    let mut i: usize = 0;
    while i < types.len()
        invariant
            i <= types.len(),
            copy.len() == i,
            forall|j: int| 0 <= j < i ==> copy[j]@ == types[j]@,
        decreases types.len() - i,
    {
        copy.push(types[i].clone());
        i += 1;
    }
    assert(solved_types_view(copy@) =~= solved_types_view(types@));
    copy
}

pub fn clone_solved_fields(fields: &Vec<(String, SolvedType)>) -> (copy: Vec<(String, SolvedType)>)
    ensures
        solved_fields_view(copy@) == solved_fields_view(fields@),
    decreases fields,
{
    let mut copy: Vec<(String, SolvedType)> = Vec::new();
    let mut i: usize = 0;
    while i < fields.len()
        invariant
            i <= fields.len(),
            copy.len() == i,
            forall|j: int| 0 <= j < i ==> copy[j].0@ == fields[j].0@ && copy[j].1@ == fields[j].1@,
        decreases fields.len() - i,
    {
        copy.push((fields[i].0.clone(), fields[i].1.clone()));
        i += 1;
    }
    assert(solved_fields_view(copy@) =~= solved_fields_view(fields@));
    copy
}

pub fn clone_solved_tags(tags: &Vec<(TagName, Vec<SolvedType>)>) -> (copy: Vec<
    (TagName, Vec<SolvedType>),
>)
    ensures
        solved_tags_view(copy@) == solved_tags_view(tags@),
    decreases tags,
{
    let mut copy: Vec<(TagName, Vec<SolvedType>)> = Vec::new();
    let mut i: usize = 0;
    while i < tags.len()
        invariant
            i <= tags.len(),
            copy.len() == i,
            forall|j: int|
                0 <= j < i ==> copy[j].0@ == tags[j].0@ && solved_types_view(copy[j].1@)
                    == solved_types_view(tags[j].1@),
        decreases tags.len() - i,
    {
        copy.push((tags[i].0.clone(), clone_solved_types(&tags[i].1)));
        i += 1;
    }
    assert(solved_tags_view(copy@) =~= solved_tags_view(tags@));
    copy
}

impl Clone for SolvedType {
    fn clone(&self) -> (copy: SolvedType)
        ensures
            copy@ == self@,
        decreases self,
    {
        match self {
            SolvedType::Func(args, closure, ret) => SolvedType::Func(
                clone_solved_types(args),
                Box::new((&**closure).clone()),
                Box::new((&**ret).clone()),
            ),
            SolvedType::Apply(symbol, args) => SolvedType::Apply(*symbol, clone_solved_types(args)),
            SolvedType::Rigid(name) => SolvedType::Rigid(name.clone()),
            SolvedType::Flex(var) => SolvedType::Flex(*var),
            SolvedType::Wildcard => SolvedType::Wildcard,
            SolvedType::Record { fields, ext } => SolvedType::Record {
                fields: clone_solved_fields(fields),
                ext: Box::new((&**ext).clone()),
            },
            SolvedType::EmptyRecord => SolvedType::EmptyRecord,
            SolvedType::TagUnion(tags, ext) => SolvedType::TagUnion(
                clone_solved_tags(tags),
                Box::new((&**ext).clone()),
            ),
            SolvedType::RecursiveTagUnion(rec, tags, ext) => SolvedType::RecursiveTagUnion(
                *rec,
                clone_solved_tags(tags),
                Box::new((&**ext).clone()),
            ),
            SolvedType::EmptyTagUnion => SolvedType::EmptyTagUnion,
            SolvedType::Alias(symbol, args, lambda_sets, actual, kind) => SolvedType::Alias(
                *symbol,
                clone_solved_fields(args),
                clone_solved_types(lambda_sets),
                Box::new((&**actual).clone()),
                *kind,
            ),
            SolvedType::Erroneous(problem) => SolvedType::Erroneous(*problem),
            SolvedType::Error => SolvedType::Error,
            SolvedType::Foreign(number) => SolvedType::Foreign(*number),
        }
    }
}

/// The local variables that stand for the free variables of one solved
/// type: those that the signature names, those that lost their name, and
/// those that never had one.
#[derive(PartialEq, Eq, Debug)]
pub struct FreeVars {
    pub named_vars: Vec<(String, Variable)>,
    pub unnamed_vars: Vec<(VarId, Variable)>,
    pub wildcards: Vec<Variable>,
}

pub struct FreeVarsModel {
    pub named_vars: Seq<(Seq<char>, Variable)>,
    pub unnamed_vars: Seq<(VarId, Variable)>,
    pub wildcards: Seq<Variable>,
}

impl View for FreeVars {
    type V = FreeVarsModel;

    open spec fn view(&self) -> FreeVarsModel {
        FreeVarsModel {
            named_vars: names_view(self.named_vars@),
            unnamed_vars: self.unnamed_vars@,
            wildcards: self.wildcards@,
        }
    }
}

impl FreeVarsModel {
    /// Every variable of the table: the named ones, then the wildcards,
    /// then the unnamed ones.
    pub open spec fn rigid_vars(self) -> Seq<Variable> {
        Seq::new(self.named_vars.len(), |i: int| self.named_vars[i].1) + self.wildcards + Seq::new(
            self.unnamed_vars.len(),
            |i: int| self.unnamed_vars[i].1,
        )
    }
}

} // verus!
