//! Module-level front end of a type-inferring compiler.
//!
//! Two things happen to a module before its types are inferred.
//!
//! What it refers to in other modules is resolved against what those
//! modules export, and becomes imports that the module's constraints are
//! built over ([`imports`]). A module that failed to compile exports
//! placeholders, so that its failure stays its own.
//!
//! A module that declares an effect type gets the functions that every
//! effect type comes with (`after`, `map`, `always`, `forever`) and a
//! definition for every value that the host exposes ([`effect_module`]).
//! They are built as trees, node by node, and from then on are definitions
//! like any other.
//!
//! Every tree has a mathematical model, written `tree@`: the same tree over
//! sequences. The spec function beside a builder gives the model of what
//! the builder returns, and the builder is proved to return exactly that.
//! What holds of every such tree is proved in the modules of laws:
//!
//! - [`effect_laws`]: the shape of `forever` and of host-exposed values;
//! - [`effect_meaning`]: what `always`, `map`, `after` and `forever` do when
//!   they are evaluated ([`semantics`]);
//! - [`fresh_laws`]: a definition is made of the variables drawn for it
//!   ([`variables`]);
//! - [`import_laws`]: what each kind of reference imports.

pub mod ident;
pub mod naming;
pub mod types;
pub mod solved;
pub mod pattern;
pub mod expr;
pub mod variables;
pub mod semantics;
pub mod effect_module;
pub mod effect_laws;
pub mod effect_meaning;
pub mod fresh_laws;
pub mod imports;
pub mod import_laws;
