//! Rendering of the generated bundle.
//!
//! For an accepted declaration the expander emits the source text of:
//! an inherent accessor (by copy for scalar fields, by reference
//! otherwise), the conversions the classification calls for, and an
//! implementation of the [`crate::ValueStruct`] capability.  A rejected
//! declaration yields a fixed diagnostic and no generated text.

use vstd::prelude::*;
use crate::classify::ParsedType;
use crate::classify::parse_field_type;
use crate::classify::spec_parse_field_type;
use crate::decl::FieldList;
use crate::decl::FieldListModel;
use crate::decl::ItemDecl;
use crate::decl::ItemDeclModel;
use crate::decl::TypeExpr;
use crate::decl::render_type;
use crate::decl::spec_type_text;

verus! {

/// Why a declaration was rejected before any generation ran.
#[derive(Clone, Copy, PartialEq, Eq, Structural, Debug)]
pub enum ExpandError {
    /// The declaration is not a struct at all.
    NotAStruct,
    /// The declaration is a struct, but not one with exactly one unnamed
    /// field.
    NotOneUnnamedField,
}

/// The fixed diagnostic text of each rejection.
pub open spec fn spec_error_message(e: ExpandError) -> Seq<char> {
    match e {
        ExpandError::NotAStruct => "ValueStruct works only on structs".view(),
        ExpandError::NotOneUnnamedField => "ValueStruct works only on structs with one unnamed field".view(),
    }
}

impl ExpandError {
    /// The diagnostic text to report at the declaration site.
    pub fn message(&self) -> (r: String)
        ensures
            r.view() == spec_error_message(*self),
    {
        match self {
            ExpandError::NotAStruct => "ValueStruct works only on structs".to_owned(),
            ExpandError::NotOneUnnamedField => "ValueStruct works only on structs with one unnamed field".to_owned(),
        }
    }
}

/// Text of the inherent accessor: scalar fields are returned by copy,
/// every other field by an immutable reference.
pub open spec fn spec_accessor_text(
    name: Seq<char>,
    ty: Seq<char>,
    parsed: Option<ParsedType>,
) -> Seq<char> {
    if parsed == Some(ParsedType::ScalarType) {
        "impl ".view() + name + " {\n    #[inline]\n    pub fn value(&self) -> ".view() + ty
            + " {\n        self.0\n    }\n}\n\n".view()
    } else {
        "impl ".view() + name + " {\n    #[inline]\n    pub fn value(&self) -> &".view() + ty
            + " {\n        &self.0\n    }\n}\n\n".view()
    }
}

/// Text of the uniform capability implementation; its accessor always
/// returns a reference, whatever the classification.
pub open spec fn spec_capability_text(name: Seq<char>, ty: Seq<char>) -> Seq<char> {
    "impl ValueStruct for ".view() + name + " {\n    type ValueType = ".view() + ty
        + ";\n\n    #[inline]\n    fn value(&self) -> &Self::ValueType {\n        &self.0\n    }\n}\n\n".view()
}

/// Text of the by-value conversion, emitted for every classification.
pub open spec fn spec_from_value_text(name: Seq<char>, ty: Seq<char>) -> Seq<char> {
    "impl std::convert::From<".view() + ty + "> for ".view() + name
        + " {\n    fn from(value: ".view() + ty + ") -> Self {\n        ".view() + name
        + "(value)\n    }\n}\n\n".view()
}

/// Text of the by-reference conversion, which clones the referenced
/// value to take ownership of it.
pub open spec fn spec_from_ref_text(name: Seq<char>, ty: Seq<char>) -> Seq<char> {
    "impl std::convert::From<&".view() + ty + "> for ".view() + name
        + " {\n    fn from(value: &".view() + ty + ") -> Self {\n        ".view() + name
        + "(value.clone())\n    }\n}\n\n".view()
}

/// Text of the extra conversions of a textual wrapper: construction from
/// a string slice, the always-successful parse shim, and the plain
/// string-slice view of the wrapped value.
pub open spec fn spec_textual_extras_text(name: Seq<char>) -> Seq<char> {
    "impl std::convert::From<&str> for ".view() + name
        + " {\n    fn from(value: &str) -> Self {\n        ".view() + name
        + "(String::from(value))\n    }\n}\n\nimpl std::str::FromStr for ".view() + name
        + " {\n    type Err = std::string::ParseError;\n\n    fn from_str(s: &str) -> Result<Self, Self::Err> {\n        Ok(".view()
        + name
        + "(s.into()))\n    }\n}\n\nimpl std::convert::AsRef<str> for ".view() + name
        + " {\n    fn as_ref(&self) -> &str {\n        self.value().as_str()\n    }\n}\n\n".view()
}

/// The whole generated bundle for one accepted declaration.
///
/// Every classification gets the accessor, the capability implementation
/// and the by-value conversion.  Textual and other fields also get the
/// cloning by-reference conversion; textual fields get the string-slice
/// conversions on top.  A scalar field accepts only its exact value.
pub open spec fn spec_bundle_text(
    name: Seq<char>,
    ty: Seq<char>,
    parsed: Option<ParsedType>,
) -> Seq<char> {
    match parsed {
        Some(ParsedType::StringType) => spec_accessor_text(name, ty, parsed)
            + spec_textual_extras_text(name) + spec_capability_text(name, ty)
            + spec_from_value_text(name, ty) + spec_from_ref_text(name, ty),
        Some(ParsedType::ScalarType) => spec_accessor_text(name, ty, parsed)
            + spec_capability_text(name, ty) + spec_from_value_text(name, ty),
        None => spec_accessor_text(name, ty, parsed) + spec_capability_text(name, ty)
            + spec_from_value_text(name, ty) + spec_from_ref_text(name, ty),
    }
}

/// Emits the inherent accessor declaration.
pub fn create_value_accessor(
    struct_name: &String,
    field_type: &String,
    parsed: Option<ParsedType>,
) -> (r: String)
    ensures
        r.view() == spec_accessor_text(struct_name.view(), field_type.view(), parsed),
{
    let mut out = String::new();
    out.append("impl ");
    out.append(struct_name.as_str());
    if matches!(parsed, Some(ParsedType::ScalarType)) {
        out.append(" {\n    #[inline]\n    pub fn value(&self) -> ");
        out.append(field_type.as_str());
        out.append(" {\n        self.0\n    }\n}\n\n");
        proof {
            assert(out.view() =~= spec_accessor_text(
                struct_name.view(),
                field_type.view(),
                parsed,
            ));
        }
    } else {
        out.append(" {\n    #[inline]\n    pub fn value(&self) -> &");
        out.append(field_type.as_str());
        out.append(" {\n        &self.0\n    }\n}\n\n");
        proof {
            assert(out.view() =~= spec_accessor_text(
                struct_name.view(),
                field_type.view(),
                parsed,
            ));
        }
    }
    out
}

/// Emits the conversions and the capability implementation that the
/// classification calls for.
pub fn create_dependent_impls(
    struct_name: &String,
    field_type: &String,
    parsed: Option<ParsedType>,
) -> (r: String)
    ensures
        r.view() == match parsed {
            Some(ParsedType::StringType) => spec_textual_extras_text(struct_name.view())
                + spec_capability_text(struct_name.view(), field_type.view())
                + spec_from_value_text(struct_name.view(), field_type.view())
                + spec_from_ref_text(struct_name.view(), field_type.view()),
            Some(ParsedType::ScalarType) => spec_capability_text(struct_name.view(), field_type.view())
                + spec_from_value_text(struct_name.view(), field_type.view()),
            None => spec_capability_text(struct_name.view(), field_type.view())
                + spec_from_value_text(struct_name.view(), field_type.view())
                + spec_from_ref_text(struct_name.view(), field_type.view()),
        },
{
    let mut out = String::new();
    if matches!(parsed, Some(ParsedType::StringType)) {
        append_textual_extras(&mut out, struct_name);
    }
    append_capability_impl(&mut out, struct_name, field_type);
    append_from_value_impl(&mut out, struct_name, field_type);
    if !matches!(parsed, Some(ParsedType::ScalarType)) {
        append_from_ref_impl(&mut out, struct_name, field_type);
    }
    proof {
        assert(Seq::<char>::empty() + spec_textual_extras_text(struct_name.view())
            =~= spec_textual_extras_text(struct_name.view()));
        assert(Seq::<char>::empty() + spec_capability_text(struct_name.view(), field_type.view())
            =~= spec_capability_text(struct_name.view(), field_type.view()));
    }
    out
}

/// Appends the textual extra conversions.
fn append_textual_extras(out: &mut String, struct_name: &String)
    ensures
        final(out).view() == old(out).view() + spec_textual_extras_text(struct_name.view()),
{
    out.append("impl std::convert::From<&str> for ");
    out.append(struct_name.as_str());
    out.append(" {\n    fn from(value: &str) -> Self {\n        ");
    out.append(struct_name.as_str());
    out.append("(String::from(value))\n    }\n}\n\nimpl std::str::FromStr for ");
    out.append(struct_name.as_str());
    out.append(
        " {\n    type Err = std::string::ParseError;\n\n    fn from_str(s: &str) -> Result<Self, Self::Err> {\n        Ok(",
    );
    out.append(struct_name.as_str());
    out.append("(s.into()))\n    }\n}\n\nimpl std::convert::AsRef<str> for ");
    out.append(struct_name.as_str());
    out.append(" {\n    fn as_ref(&self) -> &str {\n        self.value().as_str()\n    }\n}\n\n");
    proof {
        assert(out.view() =~= old(out).view() + spec_textual_extras_text(struct_name.view()));
    }
}

/// Appends the capability implementation.
fn append_capability_impl(out: &mut String, struct_name: &String, field_type: &String)
    ensures
        final(out).view() == old(out).view() + spec_capability_text(
            struct_name.view(),
            field_type.view(),
        ),
{
    out.append("impl ValueStruct for ");
    out.append(struct_name.as_str());
    out.append(" {\n    type ValueType = ");
    out.append(field_type.as_str());
    out.append(
        ";\n\n    #[inline]\n    fn value(&self) -> &Self::ValueType {\n        &self.0\n    }\n}\n\n",
    );
    proof {
        assert(out.view() =~= old(out).view() + spec_capability_text(
            struct_name.view(),
            field_type.view(),
        ));
    }
}

/// Appends the by-value conversion.
fn append_from_value_impl(out: &mut String, struct_name: &String, field_type: &String)
    ensures
        final(out).view() == old(out).view() + spec_from_value_text(
            struct_name.view(),
            field_type.view(),
        ),
{
    out.append("impl std::convert::From<");
    out.append(field_type.as_str());
    out.append("> for ");
    out.append(struct_name.as_str());
    out.append(" {\n    fn from(value: ");
    out.append(field_type.as_str());
    out.append(") -> Self {\n        ");
    out.append(struct_name.as_str());
    out.append("(value)\n    }\n}\n\n");
    proof {
        assert(out.view() =~= old(out).view() + spec_from_value_text(
            struct_name.view(),
            field_type.view(),
        ));
    }
}

/// Appends the cloning by-reference conversion.
fn append_from_ref_impl(out: &mut String, struct_name: &String, field_type: &String)
    ensures
        final(out).view() == old(out).view() + spec_from_ref_text(
            struct_name.view(),
            field_type.view(),
        ),
{
    out.append("impl std::convert::From<&");
    out.append(field_type.as_str());
    out.append("> for ");
    out.append(struct_name.as_str());
    out.append(" {\n    fn from(value: &");
    out.append(field_type.as_str());
    out.append(") -> Self {\n        ");
    out.append(struct_name.as_str());
    out.append("(value.clone())\n    }\n}\n\n");
    proof {
        assert(out.view() =~= old(out).view() + spec_from_ref_text(
            struct_name.view(),
            field_type.view(),
        ));
    }
}

/// What the expander returns for any declaration: the bundle text where
/// the declaration is a struct with exactly one unnamed field, and the
/// fitting rejection otherwise.
pub open spec fn spec_expand(item: ItemDeclModel) -> Result<Seq<char>, ExpandError> {
    match item {
        ItemDeclModel::Struct { name, fields } => match fields {
            FieldListModel::Unnamed(types) => if types.len() == 1 {
                Ok(spec_bundle_text(name, spec_type_text(types[0]), spec_parse_field_type(types[0])))
            } else {
                Err(ExpandError::NotOneUnnamedField)
            },
            _ => Err(ExpandError::NotOneUnnamedField),
        },
        ItemDeclModel::NonStruct => Err(ExpandError::NotAStruct),
    }
}

/// Expands one declaration into the generated bundle, or rejects it.
///
/// Acceptance is decided before classification: exactly the structs with
/// one unnamed field are accepted, and every accepted declaration yields
/// the full bundle for its classification.
pub fn value_struct_macro(input: &ItemDecl) -> (r: Result<String, ExpandError>)
    ensures
        match (r, spec_expand(input.view())) {
            (Ok(text), Ok(spec_text)) => text.view() == spec_text,
            (Err(e), Err(spec_e)) => e == spec_e,
            _ => false,
        },
{
    match input {
        ItemDecl::Struct { name, fields } => match fields {
            FieldList::Unnamed { types } => if types.len() == 1 {
                let field_type = &types[0];
                let parsed = parse_field_type(field_type);
                let ty = render_type(field_type);
                let mut out = create_value_accessor(name, &ty, parsed);
                let impls = create_dependent_impls(name, &ty, parsed);
                out.append(impls.as_str());
                proof {
                    let model = types.view().map_values(|t: TypeExpr| t.view());
                    assert(model[0] == types[0].view());
                    assert(out.view() =~= spec_bundle_text(
                        name.view(),
                        spec_type_text(model[0]),
                        spec_parse_field_type(model[0]),
                    ));
                }
                Ok(out)
            } else {
                Err(ExpandError::NotOneUnnamedField)
            },
            _ => Err(ExpandError::NotOneUnnamedField),
        },
        ItemDecl::NonStruct => Err(ExpandError::NotAStruct),
    }
}

} // verus!
