//! The types that constraints speak of, and the aliases that stand for them.

use crate::ident::{clone_names, names_view, Region, Symbol, TagName, TagNameModel, Variable};
use vstd::prelude::*;

verus! {

/// Why a type could not be given.
#[derive(Clone, Copy, PartialEq, Eq, Structural, Debug)]
pub enum Problem {
    CanonicalizationProblem,
    CircularType,
    CyclicAlias,
    UnrecognizedIdent,
    Shadowed,
    BadTypeArguments,
    InvalidModule,
    SolvedTypeError,
}

#[derive(PartialEq, Eq, Debug)]
pub enum Type {
    EmptyRec,
    EmptyTagUnion,
    /// Arguments, the closure's lambda set, and the result.
    Function(Vec<Type>, Box<Type>, Box<Type>),
    Record(Vec<(String, Type)>, Box<Type>),
    TagUnion(Vec<(TagName, Vec<Type>)>, Box<Type>),
    Alias {
        symbol: Symbol,
        type_arguments: Vec<(String, Type)>,
        lambda_set_variables: Vec<Type>,
        actual: Box<Type>,
    },
    RecursiveTagUnion(Variable, Vec<(TagName, Vec<Type>)>, Box<Type>),
    Apply(Symbol, Vec<Type>),
    Variable(Variable),
    Erroneous(Problem),
    /// A type that is not looked into here. Who handed it in knows it by
    /// this number and finds it again by it.
    Foreign(u32),
}

pub enum TypeModel {
    EmptyRec,
    EmptyTagUnion,
    Function(Seq<TypeModel>, Box<TypeModel>, Box<TypeModel>),
    Record(Seq<(Seq<char>, TypeModel)>, Box<TypeModel>),
    TagUnion(Seq<(TagNameModel, Seq<TypeModel>)>, Box<TypeModel>),
    Alias {
        symbol: Symbol,
        type_arguments: Seq<(Seq<char>, TypeModel)>,
        lambda_set_variables: Seq<TypeModel>,
        actual: Box<TypeModel>,
    },
    RecursiveTagUnion(Variable, Seq<(TagNameModel, Seq<TypeModel>)>, Box<TypeModel>),
    Apply(Symbol, Seq<TypeModel>),
    Variable(Variable),
    Erroneous(Problem),
    Foreign(u32),
}

pub open spec fn types_view(s: Seq<Type>) -> Seq<TypeModel>
    decreases s,
{
    Seq::new(
        s.len(),
        |i: int|
            if 0 <= i < s.len() {
                s[i].model()
            } else {
                TypeModel::EmptyRec
            },
    )
}

pub open spec fn fields_view(s: Seq<(String, Type)>) -> Seq<(Seq<char>, TypeModel)>
    decreases s,
{
    Seq::new(
        s.len(),
        |i: int|
            if 0 <= i < s.len() {
                (s[i].0@, s[i].1.model())
            } else {
                (s[i].0@, TypeModel::EmptyRec)
            },
    )
}

pub open spec fn tags_view(s: Seq<(TagName, Vec<Type>)>) -> Seq<(TagNameModel, Seq<TypeModel>)>
    decreases s,
{
    Seq::new(
        s.len(),
        |i: int|
            if 0 <= i < s.len() {
                (s[i].0@, types_view(s[i].1@))
            } else {
                (s[i].0@, Seq::empty())
            },
    )
}

impl Type {
    /// The mathematical value of this type: the same tree over sequences.
    pub open spec fn model(&self) -> TypeModel
        decreases self,
    {
        match self {
            Type::EmptyRec => TypeModel::EmptyRec,
            Type::EmptyTagUnion => TypeModel::EmptyTagUnion,
            Type::Function(args, closure, ret) => TypeModel::Function(
                types_view(args@),
                Box::new((**closure).model()),
                Box::new((**ret).model()),
            ),
            Type::Record(fields, ext) => TypeModel::Record(
                fields_view(fields@),
                Box::new((**ext).model()),
            ),
            Type::TagUnion(tags, ext) => TypeModel::TagUnion(
                tags_view(tags@),
                Box::new((**ext).model()),
            ),
            Type::Alias { symbol, type_arguments, lambda_set_variables, actual } => TypeModel::Alias {
                symbol: *symbol,
                type_arguments: fields_view(type_arguments@),
                lambda_set_variables: types_view(lambda_set_variables@),
                actual: Box::new((**actual).model()),
            },
            Type::RecursiveTagUnion(rec, tags, ext) => TypeModel::RecursiveTagUnion(
                *rec,
                tags_view(tags@),
                Box::new((**ext).model()),
            ),
            Type::Apply(symbol, args) => TypeModel::Apply(*symbol, types_view(args@)),
            Type::Variable(var) => TypeModel::Variable(*var),
            Type::Erroneous(problem) => TypeModel::Erroneous(*problem),
            Type::Foreign(number) => TypeModel::Foreign(*number),
        }
    }
}

impl View for Type {
    type V = TypeModel;

    #[verifier::inline]
    open spec fn view(&self) -> TypeModel {
        self.model()
    }
}

impl TypeModel {
    /// The type under every alias that wraps it.
    pub open spec fn shallow_dealias(self) -> TypeModel
        decreases self,
    {
        match self {
            TypeModel::Alias { actual, .. } => actual.shallow_dealias(),
            _ => self,
        }
    }

    /// The number of arguments that a value of this type takes, aliases
    /// looked through: none unless it is a function.
    pub open spec fn arity(self) -> nat {
        match self.shallow_dealias() {
            TypeModel::Function(args, _, _) => args.len(),
            _ => 0,
        }
    }

    pub open spec fn is_function(self) -> bool {
        self.shallow_dealias() is Function
    }
}

pub fn clone_types(types: &Vec<Type>) -> (copy: Vec<Type>)
    ensures
        types_view(copy@) == types_view(types@),
    decreases types,
{
    let mut copy: Vec<Type> = Vec::new();
    let mut i: usize = 0;
    while i < types.len()
        invariant
            i <= types.len(),
            copy.len() == i,
            forall|j: int| 0 <= j < i ==> copy[j]@ == types[j]@,
        decreases types.len() - i,
    {
        copy.push(types[i].clone());
        i += 1;
    }
    assert(types_view(copy@) =~= types_view(types@));
    copy
}

pub fn clone_fields(fields: &Vec<(String, Type)>) -> (copy: Vec<(String, Type)>)
    ensures
        fields_view(copy@) == fields_view(fields@),
    decreases fields,
{
    let mut copy: Vec<(String, Type)> = Vec::new();
    let mut i: usize = 0;
    while i < fields.len()
        invariant
            i <= fields.len(),
            copy.len() == i,
            forall|j: int| 0 <= j < i ==> copy[j].0@ == fields[j].0@ && copy[j].1@ == fields[j].1@,
        decreases fields.len() - i,
    {
        copy.push((fields[i].0.clone(), fields[i].1.clone()));
        i += 1;
    }
    assert(fields_view(copy@) =~= fields_view(fields@));
    copy
}

pub fn clone_tags(tags: &Vec<(TagName, Vec<Type>)>) -> (copy: Vec<(TagName, Vec<Type>)>)
    ensures
        tags_view(copy@) == tags_view(tags@),
    decreases tags,
{
    let mut copy: Vec<(TagName, Vec<Type>)> = Vec::new();
    let mut i: usize = 0;
    while i < tags.len()
        invariant
            i <= tags.len(),
            copy.len() == i,
            forall|j: int|
                0 <= j < i ==> copy[j].0@ == tags[j].0@ && types_view(copy[j].1@) == types_view(
                    tags[j].1@,
                ),
        decreases tags.len() - i,
    {
        copy.push((tags[i].0.clone(), clone_types(&tags[i].1)));
        i += 1;
    }
    assert(tags_view(copy@) =~= tags_view(tags@));
    copy
}

impl Clone for Type {
    fn clone(&self) -> (copy: Type)
        ensures
            copy@ == self@,
        decreases self,
    {
        match self {
            Type::EmptyRec => Type::EmptyRec,
            Type::EmptyTagUnion => Type::EmptyTagUnion,
            Type::Function(args, closure, ret) => Type::Function(
                clone_types(args),
                Box::new((&**closure).clone()),
                Box::new((&**ret).clone()),
            ),
            Type::Record(fields, ext) => Type::Record(
                clone_fields(fields),
                Box::new((&**ext).clone()),
            ),
            Type::TagUnion(tags, ext) => Type::TagUnion(
                clone_tags(tags),
                Box::new((&**ext).clone()),
            ),
            Type::Alias { symbol, type_arguments, lambda_set_variables, actual } => Type::Alias {
                symbol: *symbol,
                type_arguments: clone_fields(type_arguments),
                lambda_set_variables: clone_types(lambda_set_variables),
                actual: Box::new((&**actual).clone()),
            },
            Type::RecursiveTagUnion(rec, tags, ext) => Type::RecursiveTagUnion(
                *rec,
                clone_tags(tags),
                Box::new((&**ext).clone()),
            ),
            Type::Apply(symbol, args) => Type::Apply(*symbol, clone_types(args)),
            Type::Variable(var) => Type::Variable(*var),
            Type::Erroneous(problem) => Type::Erroneous(*problem),
            Type::Foreign(number) => Type::Foreign(*number),
        }
    }
}

impl Type {
    pub fn empty_rec() -> (t: Type)
        ensures
            t@ == TypeModel::EmptyRec,
    {
        Type::EmptyRec
    }

    pub fn empty_tag_union() -> (t: Type)
        ensures
            t@ == TypeModel::EmptyTagUnion,
    {
        Type::EmptyTagUnion
    }

    pub fn variable(var: Variable) -> (t: Type)
        ensures
            t@ == TypeModel::Variable(var),
    {
        Type::Variable(var)
    }

    pub fn function(args: Vec<Type>, closure: Type, ret: Type) -> (t: Type)
        ensures
            t@ == TypeModel::Function(types_view(args@), Box::new(closure@), Box::new(ret@)),
    {
        Type::Function(args, Box::new(closure), Box::new(ret))
    }

    pub fn tag_union(tags: Vec<(TagName, Vec<Type>)>, ext: Type) -> (t: Type)
        ensures
            t@ == TypeModel::TagUnion(tags_view(tags@), Box::new(ext@)),
    {
        Type::TagUnion(tags, Box::new(ext))
    }

    pub fn alias(
        symbol: Symbol,
        type_arguments: Vec<(String, Type)>,
        lambda_set_variables: Vec<Type>,
        actual: Type,
    ) -> (t: Type)
        ensures
            t@ == (TypeModel::Alias {
                symbol,
                type_arguments: fields_view(type_arguments@),
                lambda_set_variables: types_view(lambda_set_variables@),
                actual: Box::new(actual@),
            }),
    {
        Type::Alias { symbol, type_arguments, lambda_set_variables, actual: Box::new(actual) }
    }

    /// The type under every alias that wraps this one.
    pub fn shallow_dealias(&self) -> (inner: &Type)
        ensures
            inner@ == self@.shallow_dealias(),
        decreases self,
    {
        match self {
            Type::Alias { actual, .. } => actual.shallow_dealias(),
            _ => self,
        }
    }

    /// Whether this type, aliases looked through, is a function type.
    pub fn is_function(&self) -> (b: bool)
        ensures
            b == self@.is_function(),
    {
        let inner = self.shallow_dealias();
        match inner {
            Type::Function(_, _, _) => {
                assert(inner@ is Function);
                true
            },
            _ => {
                assert(!(inner@ is Function));
                false
            },
        }
    }

    /// The number of arguments that a value of this type takes.
    pub fn arity(&self) -> (n: usize)
        ensures
            n == self@.arity(),
    {
        let inner = self.shallow_dealias();
        match inner {
            Type::Function(args, _, _) => {
                assert(inner@->Function_0 == types_view(args@));
                args.len()
            },
            _ => {
                assert(!(inner@ is Function));
                0
            },
        }
    }
}

/// The list that holds one type.
pub fn one_type(t: Type) -> (list: Vec<Type>)
    ensures
        types_view(list@) == seq![t@],
{
    let list = vec![t];
    assert(types_view(list@) =~= seq![t@]);
    list
}

/// The list that holds two types.
pub fn two_types(first: Type, second: Type) -> (list: Vec<Type>)
    ensures
        types_view(list@) == seq![first@, second@],
{
    let list = vec![first, second];
    assert(types_view(list@) =~= seq![first@, second@]);
    list
}

/// The list that holds one tag with the types of its payload.
pub fn one_tag(name: TagName, payload: Vec<Type>) -> (list: Vec<(TagName, Vec<Type>)>)
    ensures
        tags_view(list@) == seq![(name@, types_view(payload@))],
{
    let list = vec![(name, payload)];
    assert(tags_view(list@) =~= seq![(name@, types_view(payload@))]);
    list
}

/// The list that holds one named type.
pub fn one_field(name: String, t: Type) -> (list: Vec<(String, Type)>)
    ensures
        fields_view(list@) == seq![(name@, t@)],
{
    let list = vec![(name, t)];
    assert(fields_view(list@) =~= seq![(name@, t@)]);
    list
}

/// A name that stands for a type, with the variables it is written over.
#[derive(PartialEq, Eq, Debug)]
pub struct Alias {
    pub region: Region,
    pub type_variables: Vec<(String, Variable)>,
    pub lambda_set_variables: Vec<Type>,
    pub recursion_variables: Vec<Variable>,
    pub typ: Type,
}

pub struct AliasModel {
    pub region: Region,
    pub type_variables: Seq<(Seq<char>, Variable)>,
    pub lambda_set_variables: Seq<TypeModel>,
    pub recursion_variables: Seq<Variable>,
    pub typ: TypeModel,
}

impl View for Alias {
    type V = AliasModel;

    open spec fn view(&self) -> AliasModel {
        AliasModel {
            region: self.region,
            type_variables: names_view(self.type_variables@),
            lambda_set_variables: types_view(self.lambda_set_variables@),
            recursion_variables: self.recursion_variables@,
            typ: self.typ@,
        }
    }
}

impl Clone for Alias {
    fn clone(&self) -> (copy: Alias)
        ensures
            copy@ == self@,
    {
        let mut recursion_variables: Vec<Variable> = Vec::new();
        let mut i: usize = 0;
        while i < self.recursion_variables.len()
            invariant
                i <= self.recursion_variables.len(),
                recursion_variables@ == self.recursion_variables@.take(i as int),
            decreases self.recursion_variables.len() - i,
        {
            recursion_variables.push(self.recursion_variables[i]);
            assert(self.recursion_variables@.take(i + 1) =~= self.recursion_variables@.take(
                i as int,
            ).push(self.recursion_variables@[i as int]));
            i += 1;
        }
        assert(self.recursion_variables@.take(i as int) =~= self.recursion_variables@);
        Alias {
            region: self.region,
            type_variables: clone_names(&self.type_variables),
            lambda_set_variables: clone_types(&self.lambda_set_variables),
            recursion_variables,
            typ: self.typ.clone(),
        }
    }
}

/// The model of a list of aliases, each under the symbol that names it.
pub open spec fn aliases_view(s: Seq<(Symbol, Alias)>) -> Seq<(Symbol, AliasModel)> {
    Seq::new(s.len(), |i: int| (s[i].0, s[i].1@))
}

} // verus!
