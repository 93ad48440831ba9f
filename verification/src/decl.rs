//! Data model of the declarations the expander works on.
//!
//! The host compiler parses a declaration and hands it over in this shape:
//! plain strings for identifiers, a list of segments for a path type, and
//! the raw source text for any other type expression.

use vstd::prelude::*;

verus! {

/// A type expression as written on a field.
///
/// Only plain path types (a chain of identifier segments) take part in
/// classification; any composite or generic type expression is carried
/// verbatim as the text it was written with.
pub enum TypeExpr {
    /// A path type such as `u8` or `std::string::String`, one identifier
    /// per segment.
    Path { segments: Vec<String> },
    /// Any other type expression, kept as its source text.
    Verbatim { source: String },
}

/// The mathematical shape of a [`TypeExpr`].
pub enum TypeExprModel {
    Path(Seq<Seq<char>>),
    Verbatim(Seq<char>),
}

impl View for TypeExpr {
    type V = TypeExprModel;

    open spec fn view(&self) -> TypeExprModel {
        match self {
            TypeExpr::Path { segments } => TypeExprModel::Path(segments.deep_view()),
            TypeExpr::Verbatim { source } => TypeExprModel::Verbatim(source.view()),
        }
    }
}

/// The field list of a struct-like declaration.
pub enum FieldList {
    /// Tuple-style fields, one type expression each.
    Unnamed { types: Vec<TypeExpr> },
    /// Fields with names.
    Named,
    /// No fields at all (a unit struct).
    Unit,
}

/// The mathematical shape of a [`FieldList`].
pub enum FieldListModel {
    Unnamed(Seq<TypeExprModel>),
    Named,
    Unit,
}

impl View for FieldList {
    type V = FieldListModel;

    open spec fn view(&self) -> FieldListModel {
        match self {
            FieldList::Unnamed { types } => FieldListModel::Unnamed(
                types.view().map_values(|t: TypeExpr| t.view()),
            ),
            FieldList::Named => FieldListModel::Named,
            FieldList::Unit => FieldListModel::Unit,
        }
    }
}

/// One parsed declaration handed to the expander.
pub enum ItemDecl {
    /// A struct-like declaration: its name and its field list.
    Struct { name: String, fields: FieldList },
    /// Anything that is not a struct (an enum, a union, a function, ...).
    NonStruct,
}

/// The mathematical shape of an [`ItemDecl`].
pub enum ItemDeclModel {
    Struct { name: Seq<char>, fields: FieldListModel },
    NonStruct,
}

impl View for ItemDecl {
    type V = ItemDeclModel;

    open spec fn view(&self) -> ItemDeclModel {
        match self {
            ItemDecl::Struct { name, fields } => ItemDeclModel::Struct {
                name: name.view(),
                fields: fields.view(),
            },
            ItemDecl::NonStruct => ItemDeclModel::NonStruct,
        }
    }
}

/// Path segments joined with `::`, exactly as the declaration wrote them.
pub open spec fn spec_join_path(segments: Seq<Seq<char>>) -> Seq<char>
    decreases segments.len(),
{
    if segments.len() == 0 {
        Seq::empty()
    } else if segments.len() == 1 {
        segments[0]
    } else {
        spec_join_path(segments.drop_last()) + "::"@ + segments.last()
    }
}

/// The source text a [`TypeExpr`] stands for.
pub open spec fn spec_type_text(t: TypeExprModel) -> Seq<char> {
    match t {
        TypeExprModel::Path(segments) => spec_join_path(segments),
        TypeExprModel::Verbatim(source) => source,
    }
}

/// Joins path segments with `::` into one owned string.
pub fn join_path(segments: &Vec<String>) -> (r: String)
    ensures
        r.view() == spec_join_path(segments.deep_view()),
{
    let ghost model: Seq<Seq<char>> = segments.deep_view();
    let mut out = String::new();
    let mut i: usize = 0;
    while i < segments.len()
        invariant
            i <= segments.len(),
            model == segments.deep_view(),
            model.len() == segments.len(),
            forall|j: int| 0 <= j < segments.len() ==> model[j] == segments[j].view(),
            out.view() == spec_join_path(model.take(i as int)),
        decreases segments.len() - i,
    {
        if i > 0 {
            out.append("::");
        }
        out.append(segments[i].as_str());
        proof {
            assert(model.take(i + 1).drop_last() =~= model.take(i as int));
            assert(model.take(i + 1).last() == model[i as int]);
            if i == 0 {
                assert(out.view() =~= spec_join_path(model.take(i + 1)));
            }
        }
        i = i + 1;
    }
    proof {
        assert(model.take(segments.len() as int) =~= model);
    }
    out
}

/// Renders a type expression back to its source text.
pub fn render_type(t: &TypeExpr) -> (r: String)
    ensures
        r.view() == spec_type_text(t.view()),
{
    match t {
        TypeExpr::Path { segments } => join_path(segments),
        TypeExpr::Verbatim { source } => source.clone(),
    }
}

} // verus!
