//! Classification of a wrapper's field type.
//!
//! The single field of a wrapper declaration is sorted into one of three
//! groups by the exact text of its type path: the canonical growable
//! string type, one of the built-in integer types, or anything else.
//! Classification never fails: an unmatched type simply gets no special
//! treatment and falls under the default generation path.

use vstd::prelude::*;
use crate::decl::TypeExpr;
use crate::decl::TypeExprModel;
use crate::decl::join_path;
use crate::decl::spec_join_path;

verus! {

/// The two classifications that change what is generated; every other
/// field type is `None` and takes the default path.
#[derive(Clone, Copy, PartialEq, Eq, Structural, Debug)]
pub enum ParsedType {
    /// The field is the canonical growable string type.
    StringType,
    /// The field is a built-in fixed-width or pointer-sized integer type.
    ScalarType,
}

/// The exact path texts that name the canonical string type.
pub open spec fn spec_is_textual_path(path: Seq<char>) -> bool {
    ||| path == "String".view()
    ||| path == "std::string::String".view()
}

/// The exact path texts that name a built-in integer type.
pub open spec fn spec_is_scalar_path(path: Seq<char>) -> bool {
    ||| path == "i8".view()
    ||| path == "i16".view()
    ||| path == "i32".view()
    ||| path == "i64".view()
    ||| path == "i128".view()
    ||| path == "isize".view()
    ||| path == "u8".view()
    ||| path == "u16".view()
    ||| path == "u32".view()
    ||| path == "u64".view()
    ||| path == "u128".view()
    ||| path == "usize".view()
}

/// What [`parse_field_type`] returns: only a plain path type is matched,
/// by the literal text of its joined segments; everything else is `None`.
pub open spec fn spec_parse_field_type(t: TypeExprModel) -> Option<ParsedType> {
    match t {
        TypeExprModel::Path(segments) => {
            let path = spec_join_path(segments);
            if spec_is_textual_path(path) {
                Some(ParsedType::StringType)
            } else if spec_is_scalar_path(path) {
                Some(ParsedType::ScalarType)
            } else {
                None
            }
        },
        TypeExprModel::Verbatim(_) => None,
    }
}

/// Compares an owned string against a literal, by contents.
fn string_eq_lit(s: &String, lit: &str) -> (r: bool)
    ensures
        r == (s.view() == lit.view()),
{
    let owned: String = lit.to_owned();
    *s == owned
}

/// Classifies a field type by the exact, case-sensitive text of its path.
pub fn parse_field_type(field_type: &TypeExpr) -> (r: Option<ParsedType>)
    ensures
        r == spec_parse_field_type(field_type.view()),
{
    match field_type {
        TypeExpr::Path { segments } => {
            let full_type_path = join_path(segments);
            if string_eq_lit(&full_type_path, "String") || string_eq_lit(
                &full_type_path,
                "std::string::String",
            ) {
                Some(ParsedType::StringType)
            } else if string_eq_lit(&full_type_path, "i8") || string_eq_lit(&full_type_path, "i16")
                || string_eq_lit(&full_type_path, "i32") || string_eq_lit(&full_type_path, "i64")
                || string_eq_lit(&full_type_path, "i128") || string_eq_lit(
                &full_type_path,
                "isize",
            ) || string_eq_lit(&full_type_path, "u8") || string_eq_lit(&full_type_path, "u16")
                || string_eq_lit(&full_type_path, "u32") || string_eq_lit(&full_type_path, "u64")
                || string_eq_lit(&full_type_path, "u128") || string_eq_lit(
                &full_type_path,
                "usize",
            ) {
                Some(ParsedType::ScalarType)
            } else {
                None
            }
        },
        TypeExpr::Verbatim { .. } => None,
    }
}

} // verus!
