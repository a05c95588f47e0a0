//! Plain-value model of the source text that the builder reads.
//!
//! The builder never sees a syntax tree here: the surrounding tool renders
//! each top-level declaration to this model — its shape, its name, its
//! generic parameter list verbatim as text, and its annotations as raw token
//! text — and the verified logic works on these values alone.

use vstd::prelude::*;

verus! {

/// One annotation attached to a declaration, as raw token text.
pub struct Annotation {
    /// Whether the annotation has the "named list with arguments" shape
    /// (`name(tokens)`), the only shape a marker can take.
    pub is_list: bool,
    /// The annotation's path, rendered as text.
    pub path: String,
    /// The annotation's argument tokens, rendered as text.
    pub args: String,
}

/// The shape of a top-level declaration. Only the first four shapes can
/// become variants; everything else (functions, traits, constants, impls,
/// imports, modules, ...) is `Other` and is discarded without inspection.
#[derive(Clone, Copy, PartialEq, Eq, Structural)]
pub enum DeclKind {
    Struct,
    Alias,
    Enum,
    Union,
    Other,
}

/// One top-level declaration of a scanned source file.
pub struct Decl {
    /// The declaration's shape.
    pub kind: DeclKind,
    /// The declared name. Meaningful only for the four candidate shapes.
    pub name: String,
    /// The generic parameter list, rendered verbatim as text (empty when the
    /// declaration has none). It is re-emitted unchanged.
    pub generics: String,
    /// The declaration's annotations, in source order.
    pub attrs: Vec<Annotation>,
}

/// Whether one annotation is the marker claiming membership in `group`: a
/// named list whose path renders exactly to the marker's name and whose
/// argument tokens render exactly to the group's name.
pub open spec fn is_marker(a: Annotation, group: Seq<char>) -> bool {
    a.is_list && a.path@ == "enum_builder_variant"@ && a.args@ == group
}

/// Whether some annotation in the sequence is a marker for `group`.
pub open spec fn has_marker(attrs: Seq<Annotation>, group: Seq<char>) -> bool {
    exists|i: int| 0 <= i < attrs.len() && is_marker(attrs[i], group)
}

/// Whether a declaration's shape can become a variant at all.
pub open spec fn is_candidate_shape(k: DeclKind) -> bool {
    !(k is Other)
}

/// Whether a declaration becomes a variant of `group`: it has a candidate
/// shape and carries a marker naming the group.
pub open spec fn qualifies(d: Decl, group: Seq<char>) -> bool {
    is_candidate_shape(d.kind) && has_marker(d.attrs@, group)
}

/// What one qualifying declaration contributes to the synthesized
/// enumeration: its name and its generic parameter text, both verbatim.
pub open spec fn variant_model(d: Decl) -> (Seq<char>, Seq<char>) {
    (d.name@, d.generics@)
}

/// The variants discovered in `decls` for `group`, in discovery order: one
/// `(name, generics)` pair per qualifying declaration, duplicates kept.
pub open spec fn discovered_variants(decls: Seq<Decl>, group: Seq<char>) -> Seq<
    (Seq<char>, Seq<char>),
>
    decreases decls.len(),
{
    if decls.len() == 0 {
        seq![]
    } else if qualifies(decls.last(), group) {
        discovered_variants(decls.drop_last(), group).push(variant_model(decls.last()))
    } else {
        discovered_variants(decls.drop_last(), group)
    }
}

} // verus!
