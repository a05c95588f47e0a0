//! Building an enum's variants from type declarations dispersed over many
//! source files.
//!
//! A type declaration (a struct, type alias, enum or union) is marked as a
//! case of a named group by an `enum_builder_variant(Group)` annotation. A
//! group is an enum declaration named `Group`; expanding it means scanning a
//! directory tree for source files, collecting every marked declaration whose
//! argument names the group, and replacing the enum's body with one variant
//! per discovered type, each wrapping a value of that type.
//!
//! This crate holds the verified core of that expansion: recognizing the
//! marker among a declaration's annotations, resolving the scan
//! root from the builder's own arguments, classifying and collecting the
//! qualifying declarations, and rendering the replacement enum declaration as
//! text. Declarations reach it as plain values: the surrounding
//! tool walks the file system, parses each file, and hands over each top-level
//! declaration's shape, name, generic parameter text and annotations.

mod model;
mod marker;
mod resolve;
mod synth;
mod laws;

pub use model::Annotation;
pub use model::Decl;
pub use model::DeclKind;
pub use model::is_marker;
pub use model::has_marker;
pub use model::is_candidate_shape;
pub use model::qualifies;
pub use model::variant_model;
pub use model::discovered_variants;
pub use marker::valid_variant;
pub use resolve::BuilderAction;
pub use resolve::BuilderArg;
pub use resolve::TargetItem;
pub use resolve::action_view;
pub use resolve::trim_lead;
pub use resolve::trim_trail;
pub use resolve::unquoted;
pub use resolve::apply_arg;
pub use resolve::resolved_root;
pub use resolve::planned_action;
pub use resolve::trim_quote_marks;
pub use resolve::resolve_scan_root;
pub use resolve::plan_expansion;
pub use synth::Variant;
pub use synth::variant_view;
pub use synth::variant_text;
pub use synth::joined_variant_text;
pub use synth::enum_text;
pub use synth::render_variant;
pub use synth::collect_variants;
pub use synth::synthesize_enum;
pub use synth::build_enum;
pub use laws::lemma_discovery_completeness;
pub use laws::lemma_discovery_soundness;
pub use laws::lemma_generic_fidelity;
pub use laws::lemma_shape_filtering;
