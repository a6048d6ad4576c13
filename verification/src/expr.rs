//! Expressions and definitions: the trees that later phases infer types for
//! and compile.

use crate::ident::{names_view, Loc, Region, Symbol, TagName, TagNameModel, Variable};
use crate::pattern::{located_patterns_view, Pattern, PatternModel};
use crate::types::{aliases_view, Alias, AliasModel, Type, TypeModel};
use vstd::prelude::*;

verus! {

/// Whether a closure calls itself, and if so whether only in tail position.
#[derive(Clone, Copy, PartialEq, Eq, Structural, Debug)]
pub enum Recursive {
    NotRecursive,
    Recursive,
    TailRecursive,
}

/// How a call was written in the source.
#[derive(Clone, Copy, PartialEq, Eq, Structural, Debug)]
pub enum CalledVia {
    Space,
    BinOp,
    UnaryOp,
}

/// The type variables that a signature brought into being: the named ones
/// in the order they were bound, and the anonymous ones.
#[derive(PartialEq, Eq, Debug)]
pub struct IntroducedVariables {
    pub wildcards: Vec<Variable>,
    pub named: Vec<(String, Variable)>,
    pub host_exposed_aliases: Vec<(Symbol, Variable)>,
}

pub struct IntroducedVariablesModel {
    pub wildcards: Seq<Variable>,
    pub named: Seq<(Seq<char>, Variable)>,
    pub host_exposed_aliases: Seq<(Symbol, Variable)>,
}

impl View for IntroducedVariables {
    type V = IntroducedVariablesModel;

    open spec fn view(&self) -> IntroducedVariablesModel {
        IntroducedVariablesModel {
            wildcards: self.wildcards@,
            named: names_view(self.named@),
            host_exposed_aliases: self.host_exposed_aliases@,
        }
    }
}

impl IntroducedVariablesModel {
    pub open spec fn empty() -> IntroducedVariablesModel {
        IntroducedVariablesModel {
            wildcards: Seq::empty(),
            named: Seq::empty(),
            host_exposed_aliases: Seq::empty(),
        }
    }

    pub open spec fn insert_named(self, name: Seq<char>, var: Variable) -> IntroducedVariablesModel {
        IntroducedVariablesModel { named: self.named.push((name, var)), ..self }
    }

    pub open spec fn insert_wildcard(self, var: Variable) -> IntroducedVariablesModel {
        IntroducedVariablesModel { wildcards: self.wildcards.push(var), ..self }
    }
}

impl IntroducedVariables {
    pub fn new() -> (vars: IntroducedVariables)
        ensures
            vars@ == IntroducedVariablesModel::empty(),
    {
        let vars = IntroducedVariables {
            wildcards: Vec::new(),
            named: Vec::new(),
            host_exposed_aliases: Vec::new(),
        };
        assert(names_view(vars.named@) =~= Seq::empty());
        vars
    }

    /// Binds `name` to `var`, after the bindings made so far.
    pub fn insert_named(&mut self, name: String, var: Variable)
        ensures
            final(self)@ == old(self)@.insert_named(name@, var),
    {
        self.named.push((name, var));
        assert(names_view(self.named@) =~= names_view(old(self).named@).push((name@, var)));
    }

    pub fn insert_wildcard(&mut self, var: Variable)
        ensures
            final(self)@ == old(self)@.insert_wildcard(var),
    {
        self.wildcards.push(var);
    }
}

/// A signature as it was declared, before any definition is attached to it.
#[derive(PartialEq, Eq, Debug)]
pub struct Annotation {
    pub typ: Type,
    pub introduced_variables: IntroducedVariables,
    pub references: Vec<Symbol>,
    pub aliases: Vec<(Symbol, Alias)>,
}

pub struct AnnotationModel {
    pub typ: TypeModel,
    pub introduced_variables: IntroducedVariablesModel,
    pub references: Seq<Symbol>,
    pub aliases: Seq<(Symbol, AliasModel)>,
}

impl View for Annotation {
    type V = AnnotationModel;

    open spec fn view(&self) -> AnnotationModel {
        AnnotationModel {
            typ: self.typ@,
            introduced_variables: self.introduced_variables@,
            references: self.references@,
            aliases: aliases_view(self.aliases@),
        }
    }
}

/// The signature that a definition carries.
#[derive(PartialEq, Eq, Debug)]
pub struct DefAnnotation {
    pub signature: Type,
    pub introduced_variables: IntroducedVariables,
    pub aliases: Vec<(Symbol, Alias)>,
    pub region: Region,
}

pub struct DefAnnotationModel {
    pub signature: TypeModel,
    pub introduced_variables: IntroducedVariablesModel,
    pub aliases: Seq<(Symbol, AliasModel)>,
    pub region: Region,
}

impl View for DefAnnotation {
    type V = DefAnnotationModel;

    open spec fn view(&self) -> DefAnnotationModel {
        DefAnnotationModel {
            signature: self.signature@,
            introduced_variables: self.introduced_variables@,
            aliases: aliases_view(self.aliases@),
            region: self.region,
        }
    }
}

/// The model of a signature that may be absent.
pub open spec fn annotation_view(annotation: Option<DefAnnotation>) -> Option<DefAnnotationModel> {
    match annotation {
        Some(a) => Some(a@),
        None => None,
    }
}

#[derive(PartialEq, Eq, Debug)]
pub struct Def {
    pub loc_pattern: Loc<Pattern>,
    pub loc_expr: Loc<Expr>,
    pub expr_var: Variable,
    pub pattern_vars: Vec<(Symbol, Variable)>,
    pub annotation: Option<DefAnnotation>,
}

pub struct DefModel {
    pub loc_pattern: Loc<PatternModel>,
    pub loc_expr: Loc<ExprModel>,
    pub expr_var: Variable,
    pub pattern_vars: Seq<(Symbol, Variable)>,
    pub annotation: Option<DefAnnotationModel>,
}

#[derive(PartialEq, Eq, Debug)]
pub struct ClosureData {
    pub function_type: Variable,
    pub closure_type: Variable,
    pub closure_ext_var: Variable,
    pub return_type: Variable,
    pub name: Symbol,
    pub captured_symbols: Vec<(Symbol, Variable)>,
    pub recursive: Recursive,
    pub arguments: Vec<(Variable, Loc<Pattern>)>,
    pub loc_body: Box<Loc<Expr>>,
}

pub struct ClosureDataModel {
    pub function_type: Variable,
    pub closure_type: Variable,
    pub closure_ext_var: Variable,
    pub return_type: Variable,
    pub name: Symbol,
    pub captured_symbols: Seq<(Symbol, Variable)>,
    pub recursive: Recursive,
    pub arguments: Seq<(Variable, Loc<PatternModel>)>,
    pub loc_body: Box<Loc<ExprModel>>,
}

#[derive(PartialEq, Eq, Debug)]
pub enum Expr {
    Var(Symbol),
    EmptyRecord,
    /// The callee with its function, closure and result variables; the
    /// arguments; how the call was written.
    Call(Box<(Variable, Loc<Expr>, Variable, Variable)>, Vec<(Variable, Loc<Expr>)>, CalledVia),
    Closure(ClosureData),
    Tag { variant_var: Variable, ext_var: Variable, name: TagName, arguments: Vec<(Variable, Loc<Expr>)> },
    /// A definition, the expression it scopes over, and that expression's
    /// variable.
    LetNonRec(Box<Def>, Box<Loc<Expr>>, Variable),
    /// A call of a function that the host provides under the given name.
    ForeignCall { foreign_symbol: String, args: Vec<(Variable, Expr)>, ret_var: Variable },
}

pub enum ExprModel {
    Var(Symbol),
    EmptyRecord,
    Call(
        Box<(Variable, Loc<ExprModel>, Variable, Variable)>,
        Seq<(Variable, Loc<ExprModel>)>,
        CalledVia,
    ),
    Closure(ClosureDataModel),
    Tag {
        variant_var: Variable,
        ext_var: Variable,
        name: TagNameModel,
        arguments: Seq<(Variable, Loc<ExprModel>)>,
    },
    LetNonRec(Box<DefModel>, Box<Loc<ExprModel>>, Variable),
    ForeignCall { foreign_symbol: Seq<char>, args: Seq<(Variable, ExprModel)>, ret_var: Variable },
}

/// The model of a list of expressions, each with its variable and region.
pub open spec fn located_exprs_view(s: Seq<(Variable, Loc<Expr>)>) -> Seq<(Variable, Loc<ExprModel>)>
    decreases s,
{
    Seq::new(
        s.len(),
        |i: int|
            if 0 <= i < s.len() {
                (s[i].0, Loc { region: s[i].1.region, value: s[i].1.value.model() })
            } else {
                (s[i].0, Loc { region: s[i].1.region, value: ExprModel::EmptyRecord })
            },
    )
}

/// The model of a list of expressions, each with its variable.
pub open spec fn exprs_view(s: Seq<(Variable, Expr)>) -> Seq<(Variable, ExprModel)>
    decreases s,
{
    Seq::new(
        s.len(),
        |i: int|
            if 0 <= i < s.len() {
                (s[i].0, s[i].1.model())
            } else {
                (s[i].0, ExprModel::EmptyRecord)
            },
    )
}

impl Def {
    /// The mathematical value of this definition.
    pub open spec fn model(&self) -> DefModel
        decreases self,
    {
        DefModel {
            loc_pattern: Loc { region: self.loc_pattern.region, value: self.loc_pattern.value@ },
            loc_expr: Loc { region: self.loc_expr.region, value: self.loc_expr.value.model() },
            expr_var: self.expr_var,
            pattern_vars: self.pattern_vars@,
            annotation: annotation_view(self.annotation),
        }
    }
}

impl View for Def {
    type V = DefModel;

    #[verifier::inline]
    open spec fn view(&self) -> DefModel {
        self.model()
    }
}

impl Expr {
    /// The mathematical value of this expression: the same tree over
    /// sequences.
    pub open spec fn model(&self) -> ExprModel
        decreases self,
    {
        match self {
            Expr::Var(symbol) => ExprModel::Var(*symbol),
            Expr::EmptyRecord => ExprModel::EmptyRecord,
            Expr::Call(callee, arguments, called_via) => ExprModel::Call(
                Box::new(
                    (
                        (**callee).0,
                        Loc { region: (**callee).1.region, value: (**callee).1.value.model() },
                        (**callee).2,
                        (**callee).3,
                    ),
                ),
                located_exprs_view(arguments@),
                *called_via,
            ),
            Expr::Closure(data) => ExprModel::Closure(
                ClosureDataModel {
                    function_type: data.function_type,
                    closure_type: data.closure_type,
                    closure_ext_var: data.closure_ext_var,
                    return_type: data.return_type,
                    name: data.name,
                    captured_symbols: data.captured_symbols@,
                    recursive: data.recursive,
                    arguments: located_patterns_view(data.arguments@),
                    loc_body: Box::new(
                        Loc { region: data.loc_body.region, value: data.loc_body.value.model() },
                    ),
                },
            ),
            Expr::Tag { variant_var, ext_var, name, arguments } => ExprModel::Tag {
                variant_var: *variant_var,
                ext_var: *ext_var,
                name: name@,
                arguments: located_exprs_view(arguments@),
            },
            Expr::LetNonRec(def, body, var) => ExprModel::LetNonRec(
                Box::new((**def).model()),
                Box::new(Loc { region: body.region, value: body.value.model() }),
                *var,
            ),
            Expr::ForeignCall { foreign_symbol, args, ret_var } => ExprModel::ForeignCall {
                foreign_symbol: foreign_symbol@,
                args: exprs_view(args@),
                ret_var: *ret_var,
            },
        }
    }

    pub fn var(symbol: Symbol) -> (expr: Expr)
        ensures
            expr@ == ExprModel::Var(symbol),
    {
        Expr::Var(symbol)
    }

    pub fn empty_record() -> (expr: Expr)
        ensures
            expr@ == ExprModel::EmptyRecord,
    {
        Expr::EmptyRecord
    }

    /// The call of `callee`, placed at the empty region, on `arguments`.
    pub fn call(
        fn_var: Variable,
        callee: Expr,
        closure_var: Variable,
        ret_var: Variable,
        arguments: Vec<(Variable, Loc<Expr>)>,
        called_via: CalledVia,
    ) -> (expr: Expr)
        ensures
            expr@ == ExprModel::Call(
                Box::new((fn_var, Loc::at_zero(callee@), closure_var, ret_var)),
                located_exprs_view(arguments@),
                called_via,
            ),
    {
        Expr::Call(Box::new((fn_var, Loc::at_zero(callee), closure_var, ret_var)), arguments, called_via)
    }

    pub fn closure(data: ClosureData) -> (expr: Expr)
        ensures
            expr@ == ExprModel::Closure(
                ClosureDataModel {
                    function_type: data.function_type,
                    closure_type: data.closure_type,
                    closure_ext_var: data.closure_ext_var,
                    return_type: data.return_type,
                    name: data.name,
                    captured_symbols: data.captured_symbols@,
                    recursive: data.recursive,
                    arguments: located_patterns_view(data.arguments@),
                    loc_body: Box::new(
                        Loc { region: data.loc_body.region, value: data.loc_body.value@ },
                    ),
                },
            ),
    {
        Expr::Closure(data)
    }

    pub fn tag(
        variant_var: Variable,
        ext_var: Variable,
        name: TagName,
        arguments: Vec<(Variable, Loc<Expr>)>,
    ) -> (expr: Expr)
        ensures
            expr@ == (ExprModel::Tag {
                variant_var,
                ext_var,
                name: name@,
                arguments: located_exprs_view(arguments@),
            }),
    {
        Expr::Tag { variant_var, ext_var, name, arguments }
    }

    pub fn let_non_rec(def: Def, body: Loc<Expr>, var: Variable) -> (expr: Expr)
        ensures
            expr@ == ExprModel::LetNonRec(
                Box::new(def@),
                Box::new(Loc { region: body.region, value: body.value@ }),
                var,
            ),
    {
        Expr::LetNonRec(Box::new(def), Box::new(body), var)
    }

    pub fn foreign_call(foreign_symbol: String, args: Vec<(Variable, Expr)>, ret_var: Variable) -> (expr:
        Expr)
        ensures
            expr@ == (ExprModel::ForeignCall {
                foreign_symbol: foreign_symbol@,
                args: exprs_view(args@),
                ret_var,
            }),
    {
        Expr::ForeignCall { foreign_symbol, args, ret_var }
    }
}

impl View for Expr {
    type V = ExprModel;

    #[verifier::inline]
    open spec fn view(&self) -> ExprModel {
        self.model()
    }
}

/// The list that holds one expression, placed at the empty region.
pub fn one_expr(var: Variable, expr: Expr) -> (list: Vec<(Variable, Loc<Expr>)>)
    ensures
        located_exprs_view(list@) == seq![(var, Loc::at_zero(expr@))],
{
    let list = vec![(var, Loc::at_zero(expr))];
    assert(located_exprs_view(list@) =~= seq![(var, Loc::at_zero(expr@))]);
    list
}

/// Adds one expression with its variable to the end of a list.
pub fn push_expr(list: &mut Vec<(Variable, Expr)>, var: Variable, expr: Expr)
    ensures
        exprs_view(final(list)@) == exprs_view(old(list)@).push((var, expr@)),
{
    list.push((var, expr));
    assert(exprs_view(list@) =~= exprs_view(old(list)@).push((var, expr@)));
}

/// A top-level declaration of a module.
#[derive(PartialEq, Eq, Debug)]
pub enum Declaration {
    Declare(Def),
    /// Definitions that may refer to themselves and to each other.
    DeclareRec(Vec<Def>),
    Builtin(Def),
}

pub enum DeclarationModel {
    Declare(DefModel),
    DeclareRec(Seq<DefModel>),
    Builtin(DefModel),
}

pub open spec fn defs_view(s: Seq<Def>) -> Seq<DefModel> {
    Seq::new(s.len(), |i: int| s[i]@)
}

impl View for Declaration {
    type V = DeclarationModel;

    open spec fn view(&self) -> DeclarationModel {
        match self {
            Declaration::Declare(def) => DeclarationModel::Declare(def@),
            Declaration::DeclareRec(defs) => DeclarationModel::DeclareRec(defs_view(defs@)),
            Declaration::Builtin(def) => DeclarationModel::Builtin(def@),
        }
    }
}

pub open spec fn declarations_view(s: Seq<Declaration>) -> Seq<DeclarationModel> {
    Seq::new(s.len(), |i: int| s[i]@)
}

} // verus!
