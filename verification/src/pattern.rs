//! Patterns: what the left side of a definition or a parameter may be.

use crate::ident::{Loc, Symbol, TagName, TagNameModel, Variable};
use vstd::prelude::*;

verus! {

/// One field taken out of a record by a record pattern.
#[derive(Clone, Copy, PartialEq, Eq, Structural, Debug)]
pub struct RecordDestruct {
    pub var: Variable,
    pub symbol: Symbol,
}

#[derive(PartialEq, Eq, Debug)]
pub enum Pattern {
    Identifier(Symbol),
    AppliedTag {
        whole_var: Variable,
        ext_var: Variable,
        tag_name: TagName,
        arguments: Vec<(Variable, Loc<Pattern>)>,
    },
    RecordDestructure { whole_var: Variable, ext_var: Variable, destructs: Vec<Loc<RecordDestruct>> },
    Underscore,
}

pub enum PatternModel {
    Identifier(Symbol),
    AppliedTag {
        whole_var: Variable,
        ext_var: Variable,
        tag_name: TagNameModel,
        arguments: Seq<(Variable, Loc<PatternModel>)>,
    },
    RecordDestructure { whole_var: Variable, ext_var: Variable, destructs: Seq<Loc<RecordDestruct>> },
    Underscore,
}

/// The model of a list of patterns, each with its variable and its region.
pub open spec fn located_patterns_view(s: Seq<(Variable, Loc<Pattern>)>) -> Seq<
    (Variable, Loc<PatternModel>),
>
    decreases s,
{
    Seq::new(
        s.len(),
        |i: int|
            if 0 <= i < s.len() {
                (s[i].0, Loc { region: s[i].1.region, value: s[i].1.value.model() })
            } else {
                (s[i].0, Loc { region: s[i].1.region, value: PatternModel::Underscore })
            },
    )
}

impl Pattern {
    /// The mathematical value of this pattern: the same tree over sequences.
    pub open spec fn model(&self) -> PatternModel
        decreases self,
    {
        match self {
            Pattern::Identifier(symbol) => PatternModel::Identifier(*symbol),
            Pattern::AppliedTag { whole_var, ext_var, tag_name, arguments } => PatternModel::AppliedTag {
                whole_var: *whole_var,
                ext_var: *ext_var,
                tag_name: tag_name@,
                arguments: located_patterns_view(arguments@),
            },
            Pattern::RecordDestructure { whole_var, ext_var, destructs } => PatternModel::RecordDestructure {
                whole_var: *whole_var,
                ext_var: *ext_var,
                destructs: destructs@,
            },
            Pattern::Underscore => PatternModel::Underscore,
        }
    }

    pub fn identifier(symbol: Symbol) -> (pattern: Pattern)
        ensures
            pattern@ == PatternModel::Identifier(symbol),
    {
        Pattern::Identifier(symbol)
    }

    pub fn underscore() -> (pattern: Pattern)
        ensures
            pattern@ == PatternModel::Underscore,
    {
        Pattern::Underscore
    }

    pub fn applied_tag(
        whole_var: Variable,
        ext_var: Variable,
        tag_name: TagName,
        arguments: Vec<(Variable, Loc<Pattern>)>,
    ) -> (pattern: Pattern)
        ensures
            pattern@ == (PatternModel::AppliedTag {
                whole_var,
                ext_var,
                tag_name: tag_name@,
                arguments: located_patterns_view(arguments@),
            }),
    {
        Pattern::AppliedTag { whole_var, ext_var, tag_name, arguments }
    }

    /// The pattern `{}`, which takes no field out of the record it meets.
    pub fn empty_record(whole_var: Variable, ext_var: Variable) -> (pattern: Pattern)
        ensures
            pattern@ == empty_record_pattern(whole_var, ext_var),
    {
        Pattern::RecordDestructure { whole_var, ext_var, destructs: Vec::new() }
    }
}

impl View for Pattern {
    type V = PatternModel;

    #[verifier::inline]
    open spec fn view(&self) -> PatternModel {
        self.model()
    }
}

/// The pattern `{}` with its two variables.
pub open spec fn empty_record_pattern(whole_var: Variable, ext_var: Variable) -> PatternModel {
    PatternModel::RecordDestructure { whole_var, ext_var, destructs: Seq::empty() }
}

/// The list that holds one pattern, placed at the empty region.
pub fn one_pattern(var: Variable, pattern: Pattern) -> (list: Vec<(Variable, Loc<Pattern>)>)
    ensures
        located_patterns_view(list@) == seq![(var, Loc::at_zero(pattern@))],
{
    let list = vec![(var, Loc::at_zero(pattern))];
    assert(located_patterns_view(list@) =~= seq![(var, Loc::at_zero(pattern@))]);
    list
}

/// The list that holds two patterns, each placed at the empty region.
pub fn two_patterns(first_var: Variable, first: Pattern, second_var: Variable, second: Pattern) -> (list:
    Vec<(Variable, Loc<Pattern>)>)
    ensures
        located_patterns_view(list@) == seq![
            (first_var, Loc::at_zero(first@)),
            (second_var, Loc::at_zero(second@)),
        ],
{
    let list = vec![(first_var, Loc::at_zero(first)), (second_var, Loc::at_zero(second))];
    assert(located_patterns_view(list@) =~= seq![
        (first_var, Loc::at_zero(first@)),
        (second_var, Loc::at_zero(second@)),
    ]);
    list
}

/// Adds one pattern, placed at the empty region, to the end of a list.
pub fn push_pattern(list: &mut Vec<(Variable, Loc<Pattern>)>, var: Variable, pattern: Pattern)
    ensures
        located_patterns_view(final(list)@) == located_patterns_view(old(list)@).push(
            (var, Loc::at_zero(pattern@)),
        ),
{
    list.push((var, Loc::at_zero(pattern)));
    assert(located_patterns_view(list@) =~= located_patterns_view(old(list)@).push(
        (var, Loc::at_zero(pattern@)),
    ));
}

} // verus!
