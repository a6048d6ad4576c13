//! What holds of every definition that the effect module builds, whatever
//! symbols and variables it was given.

use crate::effect_module::{
    after_def, forever_def, host_exposed_body, AfterSymbols, ForeverSymbols,
};
use crate::expr::{DefModel, ExprModel, Recursive};
use crate::ident::{Symbol, TagNameModel};
use crate::naming::foreign_symbol_name;
use crate::pattern::PatternModel;
use crate::types::TypeModel;
use vstd::prelude::*;

verus! {

/// `expr` is the call `callee arg`.
pub open spec fn is_call_of(expr: ExprModel, callee: Symbol, arg: ExprModel) -> bool {
    &&& expr matches ExprModel::Call(head, args, _)
    &&& head.1.value == ExprModel::Var(callee)
    &&& args.len() == 1
    &&& args[0].1.value == arg
}

/// `pattern` is `@Effect thunk`: it takes the thunk out of an effect.
pub open spec fn takes_thunk(pattern: PatternModel, tag: TagNameModel, thunk: Symbol) -> bool {
    &&& pattern matches PatternModel::AppliedTag { tag_name, arguments, .. }
    &&& tag_name == tag
    &&& arguments.len() == 1
    &&& arguments[0].1.value == PatternModel::Identifier(thunk)
}

/// `body` is what the inner closure of `forever` does:
///
/// ```text
/// @Effect thunk1 = effect
/// _ = thunk1 {}
/// @Effect thunk2 = forever effect
/// thunk2 {}
/// ```
pub open spec fn is_forever_step(body: ExprModel, tag: TagNameModel, s: ForeverSymbols) -> bool {
    &&& body matches ExprModel::LetNonRec(first, after_first, _)
    &&& takes_thunk(first.loc_pattern.value, tag, s.thunk1)
    &&& first.loc_expr.value == ExprModel::Var(s.effect)
    &&& after_first.value matches ExprModel::LetNonRec(second, after_second, _)
    &&& second.loc_pattern.value == PatternModel::Underscore
    &&& is_call_of(second.loc_expr.value, s.thunk1, ExprModel::EmptyRecord)
    &&& after_second.value matches ExprModel::LetNonRec(third, last, _)
    &&& takes_thunk(third.loc_pattern.value, tag, s.thunk2)
    &&& is_call_of(third.loc_expr.value, s.forever, ExprModel::Var(s.effect))
    &&& is_call_of(last.value, s.thunk2, ExprModel::EmptyRecord)
}

/// `def` has the shape from which a later phase makes a loop that needs no
/// stack: it defines `s.forever` as a closure that is marked recursive and
/// takes the effect; the closure gives an effect whose thunk captures the
/// effect alone, runs it once, and ends in the call of the thunk of
/// `forever effect`, where `forever` is the very symbol being defined.
pub open spec fn is_forever_loop(def: DefModel, tag: TagNameModel, s: ForeverSymbols) -> bool {
    &&& def.loc_pattern.value == PatternModel::Identifier(s.forever)
    &&& def.loc_expr.value matches ExprModel::Closure(outer)
    &&& outer.name == s.forever
    &&& outer.recursive == Recursive::Recursive
    &&& outer.captured_symbols.len() == 0
    &&& outer.arguments.len() == 1
    &&& outer.arguments[0].1.value == PatternModel::Identifier(s.effect)
    &&& outer.loc_body.value matches ExprModel::Tag { name, arguments, .. }
    &&& name == tag
    &&& arguments.len() == 1
    &&& arguments[0].1.value matches ExprModel::Closure(inner)
    &&& inner.name == s.inner
    &&& inner.recursive == Recursive::NotRecursive
    &&& inner.captured_symbols.len() == 1
    &&& inner.captured_symbols[0].0 == s.effect
    &&& inner.arguments.len() == 1
    &&& inner.arguments[0].1.value matches PatternModel::RecordDestructure { destructs, .. }
    &&& destructs.len() == 0
    &&& is_forever_step(inner.loc_body.value, tag, s)
}

/// The symbol that the recursive call inside a definition of the shape
/// `is_forever_loop` calls.
pub open spec fn forever_callee(def: DefModel) -> ExprModel {
    let outer = def.loc_expr.value->Closure_0;
    let inner = outer.loc_body.value->Tag_arguments[0].1.value->Closure_0;
    let after_first = inner.loc_body.value->LetNonRec_1;
    let after_second = after_first.value->LetNonRec_1;
    let third = after_second.value->LetNonRec_0;
    third.loc_expr.value->Call_0.1.value
}

/// Whatever symbols, tag and variables `forever` is built from, its
/// definition has the shape `is_forever_loop`: the closure is marked
/// recursive, and the call inside it names the symbol that the definition
/// itself introduces.
pub proof fn forever_calls_itself(
    s: ForeverSymbols,
    effect_symbol: Symbol,
    tag: TagNameModel,
    base: int,
)
    ensures
        is_forever_loop(forever_def(s, effect_symbol, tag, base), tag, s),
        forever_def(s, effect_symbol, tag, base).loc_expr.value->Closure_0.recursive
            == Recursive::Recursive,
        forever_callee(forever_def(s, effect_symbol, tag, base)) == ExprModel::Var(s.forever),
        forever_def(s, effect_symbol, tag, base).loc_pattern.value == PatternModel::Identifier(
            s.forever,
        ),
{
}

/// Whatever symbols, tag and variables `after` is built from, it forces
/// nothing when it is applied: the body of its closure is the effect tag
/// around a closure. That closure captures the thunk and the function, in
/// this order, and does this:
///
/// ```text
/// @Effect thunk2 = toEffect (thunk {})
/// thunk2 {}
/// ```
pub proof fn after_wraps_a_thunk(s: AfterSymbols, effect_symbol: Symbol, tag: TagNameModel, base: int)
    ensures
        ({
            let def = after_def(s, effect_symbol, tag, base);
            &&& def.loc_pattern.value == PatternModel::Identifier(s.after)
            &&& def.loc_expr.value matches ExprModel::Closure(outer)
            &&& outer.name == s.after
            &&& outer.recursive == Recursive::NotRecursive
            &&& outer.captured_symbols.len() == 0
            &&& outer.arguments.len() == 2
            &&& takes_thunk(outer.arguments[0].1.value, tag, s.thunk)
            &&& outer.arguments[1].1.value == PatternModel::Identifier(s.to_effect)
            &&& outer.loc_body.value matches ExprModel::Tag { name, arguments, .. }
            &&& name == tag
            &&& arguments.len() == 1
            &&& arguments[0].1.value matches ExprModel::Closure(inner)
            &&& inner.name == s.inner
            &&& inner.recursive == Recursive::NotRecursive
            &&& inner.captured_symbols.len() == 2
            &&& inner.captured_symbols[0].0 == s.thunk
            &&& inner.captured_symbols[1].0 == s.to_effect
            &&& inner.arguments.len() == 1
            &&& inner.arguments[0].1.value matches PatternModel::RecordDestructure { destructs, .. }
            &&& destructs.len() == 0
            &&& inner.loc_body.value matches ExprModel::LetNonRec(bound, last, _)
            &&& takes_thunk(bound.loc_pattern.value, tag, s.thunk2)
            &&& bound.loc_expr.value matches ExprModel::Call(head, made_of, _)
            &&& head.1.value == ExprModel::Var(s.to_effect)
            &&& made_of.len() == 1
            &&& is_call_of(made_of[0].1.value, s.thunk, ExprModel::EmptyRecord)
            &&& is_call_of(last.value, s.thunk2, ExprModel::EmptyRecord)
        }),
{
}

/// For a declared function type with as many arguments as there are
/// argument symbols, the exposed value is a closure with one parameter for
/// each argument. Behind the effect tag stands a closure that captures
/// exactly the arguments and hands them, in order, to the host function
/// named after `ident`.
pub proof fn host_exposed_function_takes_every_argument(
    symbol: Symbol,
    ident: Seq<char>,
    tag: TagNameModel,
    typ: TypeModel,
    arguments: Seq<Symbol>,
    effect_closure: Symbol,
    base: int,
)
    requires
        typ.is_function(),
        arguments.len() == typ.arity(),
    ensures
        ({
            let body = host_exposed_body(symbol, ident, tag, typ, arguments, effect_closure, base);
            &&& body matches ExprModel::Closure(outer)
            &&& outer.name == symbol
            &&& outer.arguments.len() == typ.arity()
            &&& forall|i: int|
                0 <= i < arguments.len() ==> (#[trigger] outer.arguments[i]).1.value
                    == PatternModel::Identifier(arguments[i])
            &&& outer.loc_body.value matches ExprModel::Tag { name, arguments: wrapped, .. }
            &&& name == tag
            &&& wrapped.len() == 1
            &&& wrapped[0].1.value matches ExprModel::Closure(inner)
            &&& inner.name == effect_closure
            &&& inner.captured_symbols.len() == typ.arity()
            &&& forall|i: int|
                0 <= i < arguments.len() ==> (#[trigger] inner.captured_symbols[i]).0
                    == arguments[i]
            &&& inner.loc_body.value matches ExprModel::ForeignCall { foreign_symbol, args, .. }
            &&& foreign_symbol == foreign_symbol_name(ident)
            &&& args.len() == typ.arity()
            &&& forall|i: int|
                0 <= i < arguments.len() ==> (#[trigger] args[i]).1 == ExprModel::Var(arguments[i])
        }),
{
}

/// For a declared type that is no function, the exposed value is the effect
/// itself, with no closure around it, and the host function named after
/// `ident` is called on nothing.
pub proof fn host_exposed_value_takes_nothing(
    symbol: Symbol,
    ident: Seq<char>,
    tag: TagNameModel,
    typ: TypeModel,
    arguments: Seq<Symbol>,
    effect_closure: Symbol,
    base: int,
)
    requires
        !typ.is_function(),
    ensures
        ({
            let body = host_exposed_body(symbol, ident, tag, typ, arguments, effect_closure, base);
            &&& body matches ExprModel::Tag { name, arguments: wrapped, .. }
            &&& name == tag
            &&& wrapped.len() == 1
            &&& wrapped[0].1.value matches ExprModel::Closure(inner)
            &&& inner.name == effect_closure
            &&& inner.captured_symbols.len() == 0
            &&& inner.loc_body.value matches ExprModel::ForeignCall { foreign_symbol, args, .. }
            &&& foreign_symbol == foreign_symbol_name(ident)
            &&& args.len() == 0
        }),
{
}

} // verus!
