use rvs::classify::ParsedType;
use rvs::classify::parse_field_type;
use rvs::decl::FieldList;
use rvs::decl::ItemDecl;
use rvs::decl::TypeExpr;
use rvs::decl::render_type;
use rvs::emit::ExpandError;
use rvs::emit::value_struct_macro;

fn path(segments: &[&str]) -> TypeExpr {
    TypeExpr::Path { segments: segments.iter().map(|s| String::from(*s)).collect() }
}

fn one_field_struct(name: &str, field: TypeExpr) -> ItemDecl {
    ItemDecl::Struct {
        name: String::from(name),
        fields: FieldList::Unnamed { types: vec![field] },
    }
}

#[test]
fn classifies_short_string_name() {
    assert_eq!(parse_field_type(&path(&["String"])), Some(ParsedType::StringType));
}

#[test]
fn classifies_fully_qualified_string_name() {
    assert_eq!(
        parse_field_type(&path(&["std", "string", "String"])),
        Some(ParsedType::StringType)
    );
}

#[test]
fn classifies_every_scalar_name() {
    let names = ["i8", "i16", "i32", "i64", "i128", "isize", "u8", "u16", "u32", "u64", "u128",
        "usize"];
    for name in names {
        assert_eq!(parse_field_type(&path(&[name])), Some(ParsedType::ScalarType));
    }
}

#[test]
fn unknown_paths_fall_to_other() {
    assert_eq!(parse_field_type(&path(&["Vec"])), None);
    assert_eq!(parse_field_type(&path(&["std", "String"])), None);
    assert_eq!(parse_field_type(&path(&["string"])), None);
    assert_eq!(parse_field_type(&path(&["bool"])), None);
}

#[test]
fn composite_types_fall_to_other() {
    let verbatim = TypeExpr::Verbatim { source: String::from("Vec<u8>") };
    assert_eq!(parse_field_type(&verbatim), None);
}

#[test]
fn renders_joined_path() {
    assert_eq!(render_type(&path(&["std", "string", "String"])), "std::string::String");
    assert_eq!(
        render_type(&TypeExpr::Verbatim { source: String::from("Vec<u8>") }),
        "Vec<u8>"
    );
}

#[test]
fn rejects_non_struct_declarations() {
    let r = value_struct_macro(&ItemDecl::NonStruct);
    assert_eq!(r, Err(ExpandError::NotAStruct));
    assert_eq!(ExpandError::NotAStruct.message(), "ValueStruct works only on structs");
}

#[test]
fn rejects_wrong_field_shapes() {
    let zero = ItemDecl::Struct {
        name: String::from("Empty"),
        fields: FieldList::Unnamed { types: vec![] },
    };
    let two = ItemDecl::Struct {
        name: String::from("Pair"),
        fields: FieldList::Unnamed { types: vec![path(&["u8"]), path(&["u8"])] },
    };
    let named = ItemDecl::Struct { name: String::from("Named"), fields: FieldList::Named };
    let unit = ItemDecl::Struct { name: String::from("Unit"), fields: FieldList::Unit };
    for decl in [zero, two, named, unit] {
        assert_eq!(value_struct_macro(&decl), Err(ExpandError::NotOneUnnamedField));
    }
    assert_eq!(
        ExpandError::NotOneUnnamedField.message(),
        "ValueStruct works only on structs with one unnamed field"
    );
}

#[test]
fn emits_scalar_bundle_exactly() {
    let decl = one_field_struct("SimpleIntValueStruct", path(&["u8"]));
    let out = value_struct_macro(&decl).expect("one unnamed field is accepted");
    let mut expected = String::new();
    expected.push_str(
        "impl SimpleIntValueStruct {\n    #[inline]\n    pub fn value(&self) -> u8 {\n        self.0\n    }\n}\n\n",
    );
    expected.push_str(
        "impl ValueStruct for SimpleIntValueStruct {\n    type ValueType = u8;\n\n    #[inline]\n    fn value(&self) -> &Self::ValueType {\n        &self.0\n    }\n}\n\n",
    );
    expected.push_str(
        "impl std::convert::From<u8> for SimpleIntValueStruct {\n    fn from(value: u8) -> Self {\n        SimpleIntValueStruct(value)\n    }\n}\n\n",
    );
    assert_eq!(out, expected);
}

#[test]
fn emits_textual_bundle_exactly() {
    let decl = one_field_struct("UserId", path(&["String"]));
    let out = value_struct_macro(&decl).expect("one unnamed field is accepted");
    let mut expected = String::new();
    expected.push_str(
        "impl UserId {\n    #[inline]\n    pub fn value(&self) -> &String {\n        &self.0\n    }\n}\n\n",
    );
    expected.push_str(
        "impl std::convert::From<&str> for UserId {\n    fn from(value: &str) -> Self {\n        UserId(String::from(value))\n    }\n}\n\n",
    );
    expected.push_str(
        "impl std::str::FromStr for UserId {\n    type Err = std::string::ParseError;\n\n    fn from_str(s: &str) -> Result<Self, Self::Err> {\n        Ok(UserId(s.into()))\n    }\n}\n\n",
    );
    expected.push_str(
        "impl std::convert::AsRef<str> for UserId {\n    fn as_ref(&self) -> &str {\n        self.value().as_str()\n    }\n}\n\n",
    );
    expected.push_str(
        "impl ValueStruct for UserId {\n    type ValueType = String;\n\n    #[inline]\n    fn value(&self) -> &Self::ValueType {\n        &self.0\n    }\n}\n\n",
    );
    expected.push_str(
        "impl std::convert::From<String> for UserId {\n    fn from(value: String) -> Self {\n        UserId(value)\n    }\n}\n\n",
    );
    expected.push_str(
        "impl std::convert::From<&String> for UserId {\n    fn from(value: &String) -> Self {\n        UserId(value.clone())\n    }\n}\n\n",
    );
    assert_eq!(out, expected);
}

#[test]
fn emits_other_bundle_exactly() {
    let decl = one_field_struct("SimplePointValueStruct", path(&["Point"]));
    let out = value_struct_macro(&decl).expect("one unnamed field is accepted");
    let mut expected = String::new();
    expected.push_str(
        "impl SimplePointValueStruct {\n    #[inline]\n    pub fn value(&self) -> &Point {\n        &self.0\n    }\n}\n\n",
    );
    expected.push_str(
        "impl ValueStruct for SimplePointValueStruct {\n    type ValueType = Point;\n\n    #[inline]\n    fn value(&self) -> &Self::ValueType {\n        &self.0\n    }\n}\n\n",
    );
    expected.push_str(
        "impl std::convert::From<Point> for SimplePointValueStruct {\n    fn from(value: Point) -> Self {\n        SimplePointValueStruct(value)\n    }\n}\n\n",
    );
    expected.push_str(
        "impl std::convert::From<&Point> for SimplePointValueStruct {\n    fn from(value: &Point) -> Self {\n        SimplePointValueStruct(value.clone())\n    }\n}\n\n",
    );
    assert_eq!(out, expected);
}

#[test]
fn generic_field_type_gets_default_bundle() {
    let decl = one_field_struct("Bytes", TypeExpr::Verbatim { source: String::from("Vec<u8>") });
    let out = value_struct_macro(&decl).expect("one unnamed field is accepted");
    let mut expected = String::new();
    expected.push_str(
        "impl Bytes {\n    #[inline]\n    pub fn value(&self) -> &Vec<u8> {\n        &self.0\n    }\n}\n\n",
    );
    expected.push_str(
        "impl ValueStruct for Bytes {\n    type ValueType = Vec<u8>;\n\n    #[inline]\n    fn value(&self) -> &Self::ValueType {\n        &self.0\n    }\n}\n\n",
    );
    expected.push_str(
        "impl std::convert::From<Vec<u8>> for Bytes {\n    fn from(value: Vec<u8>) -> Self {\n        Bytes(value)\n    }\n}\n\n",
    );
    expected.push_str(
        "impl std::convert::From<&Vec<u8>> for Bytes {\n    fn from(value: &Vec<u8>) -> Self {\n        Bytes(value.clone())\n    }\n}\n\n",
    );
    assert_eq!(out, expected);
}
