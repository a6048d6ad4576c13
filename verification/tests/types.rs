use module_front::ident::{ModuleId, Region, Symbol, TagName, Variable};
use module_front::solved::{AliasKind, SolvedType};
use module_front::types::{Alias, Problem, Type};

fn symbol(id: u32) -> Symbol {
    Symbol::new(ModuleId { id: 20, builtin: false }, id)
}

fn var(index: u32) -> Variable {
    Variable { index }
}

fn function(args: Vec<Type>, ret: Type) -> Type {
    Type::Function(args, Box::new(Type::Variable(var(99))), Box::new(ret))
}

fn alias(of: Type) -> Type {
    Type::Alias {
        symbol: symbol(1),
        type_arguments: vec![(String::from("a"), Type::Variable(var(1)))],
        lambda_set_variables: vec![Type::Variable(var(2))],
        actual: Box::new(of),
    }
}

fn every_type() -> Vec<Type> {
    vec![
        Type::EmptyRec,
        Type::EmptyTagUnion,
        function(vec![Type::EmptyRec, Type::Variable(var(3))], Type::EmptyRec),
        Type::Record(
            vec![(String::from("name"), Type::Apply(symbol(7), vec![]))],
            Box::new(Type::EmptyRec),
        ),
        Type::TagUnion(
            vec![
                (TagName::Global(String::from("Ok")), vec![Type::Variable(var(4))]),
                (TagName::Private(symbol(8)), vec![]),
            ],
            Box::new(Type::EmptyTagUnion),
        ),
        alias(function(vec![Type::EmptyRec], Type::EmptyRec)),
        Type::RecursiveTagUnion(
            var(5),
            vec![(TagName::Global(String::from("Cons")), vec![Type::Variable(var(5))])],
            Box::new(Type::EmptyTagUnion),
        ),
        Type::Apply(symbol(9), vec![Type::EmptyRec, Type::Variable(var(6))]),
        Type::Variable(var(7)),
        Type::Erroneous(Problem::InvalidModule),
        Type::Foreign(7),
        function(vec![Type::Foreign(0)], Type::Foreign(1)),
    ]
}

#[test]
fn clone_of_a_type_is_equal() {
    for t in every_type().iter() {
        assert_eq!(&t.clone(), t);
    }
}

#[test]
fn shallow_dealias_strips_every_alias() {
    let inner = function(vec![Type::EmptyRec], Type::EmptyRec);
    let wrapped = alias(alias(alias(function(vec![Type::EmptyRec], Type::EmptyRec))));
    assert_eq!(wrapped.shallow_dealias(), &inner);
    assert_eq!(inner.shallow_dealias(), &inner);
}

#[test]
fn shallow_dealias_leaves_aliases_below_the_top() {
    let below = function(vec![alias(Type::EmptyRec)], alias(Type::EmptyRec));
    let expected = function(vec![alias(Type::EmptyRec)], alias(Type::EmptyRec));
    assert_eq!(alias(below).shallow_dealias(), &expected);
}

#[test]
fn arity_counts_the_arguments_of_a_function() {
    assert_eq!(function(vec![], Type::EmptyRec).arity(), 0);
    assert_eq!(function(vec![Type::EmptyRec], Type::EmptyRec).arity(), 1);
    assert_eq!(
        function(vec![Type::EmptyRec, Type::EmptyRec, Type::EmptyRec], Type::EmptyRec).arity(),
        3
    );
    assert_eq!(alias(function(vec![Type::EmptyRec, Type::EmptyRec], Type::EmptyRec)).arity(), 2);
}

#[test]
fn a_type_that_is_not_looked_into_is_no_function() {
    assert_eq!(Type::Foreign(4).arity(), 0);
    assert!(!Type::Foreign(4).is_function());
    assert_eq!(alias(Type::Foreign(4)).shallow_dealias(), &Type::Foreign(4));
    // Around it, a function is a function still.
    assert_eq!(function(vec![Type::Foreign(1), Type::Foreign(2)], Type::Foreign(3)).arity(), 2);
}

#[test]
fn arity_of_what_is_no_function_is_zero() {
    assert_eq!(Type::EmptyRec.arity(), 0);
    assert_eq!(alias(Type::Apply(symbol(3), vec![Type::EmptyRec])).arity(), 0);
    assert!(!Type::EmptyRec.is_function());
    assert!(!alias(Type::EmptyRec).is_function());
    assert!(function(vec![], Type::EmptyRec).is_function());
    assert!(alias(function(vec![], Type::EmptyRec)).is_function());
}

#[test]
fn clone_of_an_alias_is_equal() {
    let a = Alias {
        region: Region { start: 3, end: 9 },
        type_variables: vec![(String::from("a"), var(1)), (String::from("b"), var(2))],
        lambda_set_variables: vec![Type::Variable(var(3))],
        recursion_variables: vec![var(4), var(5)],
        typ: alias(Type::EmptyRec),
    };
    assert_eq!(a.clone(), a);
}

#[test]
fn clone_of_a_solved_type_is_equal() {
    let types = vec![
        SolvedType::Func(
            vec![SolvedType::Rigid(String::from("a")), SolvedType::Wildcard],
            Box::new(SolvedType::Wildcard),
            Box::new(SolvedType::Flex(module_front::ident::VarId { index: 3 })),
        ),
        SolvedType::Apply(symbol(1), vec![SolvedType::EmptyRecord]),
        SolvedType::Record {
            fields: vec![(String::from("x"), SolvedType::EmptyRecord)],
            ext: Box::new(SolvedType::EmptyRecord),
        },
        SolvedType::TagUnion(
            vec![(TagName::Global(String::from("A")), vec![SolvedType::Error])],
            Box::new(SolvedType::EmptyTagUnion),
        ),
        SolvedType::RecursiveTagUnion(
            module_front::ident::VarId { index: 1 },
            vec![(TagName::Global(String::from("B")), vec![])],
            Box::new(SolvedType::EmptyTagUnion),
        ),
        SolvedType::Alias(
            symbol(2),
            vec![(String::from("a"), SolvedType::Rigid(String::from("a")))],
            vec![SolvedType::Wildcard],
            Box::new(SolvedType::EmptyRecord),
            AliasKind::Opaque,
        ),
        SolvedType::Erroneous(Problem::InvalidModule),
        SolvedType::Error,
        SolvedType::Foreign(3),
    ];
    for t in types.iter() {
        assert_eq!(&t.clone(), t);
    }
}

#[test]
fn is_alias_of_looks_at_the_top_only() {
    let inner = SolvedType::Alias(
        symbol(2),
        vec![],
        vec![],
        Box::new(SolvedType::EmptyRecord),
        AliasKind::Transparent,
    );
    assert!(inner.is_alias_of(symbol(2)));
    assert!(!inner.is_alias_of(symbol(3)));
    let around = SolvedType::Apply(symbol(2), vec![inner]);
    assert!(!around.is_alias_of(symbol(2)));
    assert!(!SolvedType::EmptyRecord.is_alias_of(symbol(2)));
    assert_eq!(SolvedType::invalid_module(), SolvedType::Erroneous(Problem::InvalidModule));
}
