//! Worked expansions, one per classification.
//!
//! These types carry, with proofs, exactly the bundle the emitter renders
//! for them: the inherent accessor, the conversions of their
//! classification, and the [`crate::ValueStruct`] capability.  They are
//! what generic code over the capability, and the crate's tests, operate
//! on.

use vstd::prelude::*;
use crate::ValueStruct;

verus! {

/// A textual wrapper: a distinct identity for one owned string.
pub struct UserId(pub String);

impl UserId {
    /// Accessor: a borrowed view of the wrapped text.
    #[inline]
    pub fn value(&self) -> (r: &String)
        ensures
            *r == self.0,
    {
        &self.0
    }
}

impl ValueStruct for UserId {
    type ValueType = String;

    open spec fn value_spec(&self) -> String {
        self.0
    }

    fn value(&self) -> (r: &String) {
        &self.0
    }
}

impl core::convert::From<String> for UserId {
    /// Construction from the owned string: wraps it unchanged.
    fn from(value: String) -> (r: Self) {
        UserId(value)
    }
}

impl vstd::std_specs::convert::FromSpecImpl<String> for UserId {
    open spec fn obeys_from_spec() -> bool {
        true
    }

    open spec fn from_spec(v: String) -> Self {
        UserId(v)
    }
}

impl core::convert::From<&String> for UserId {
    /// Construction from a reference: clones the referenced string, so the
    /// wrapper owns storage of its own.
    fn from(value: &String) -> (r: Self) {
        UserId(value.clone())
    }
}

impl vstd::std_specs::convert::FromSpecImpl<&String> for UserId {
    open spec fn obeys_from_spec() -> bool {
        true
    }

    open spec fn from_spec(v: &String) -> Self {
        UserId(*v)
    }
}

impl core::convert::From<&str> for UserId {
    /// Construction from a string slice: copies the view into a newly
    /// allocated owned string with the same contents.
    fn from(value: &str) -> (r: Self)
        ensures
            r.0.view() == value.view(),
    {
        UserId(value.to_owned())
    }
}

/// No spec-level `from` is claimed here: the conversion allocates a fresh
/// owned string, which a spec function cannot name.  The exact contract
/// stands on the conversion itself: its result wraps text equal to the
/// slice's contents.
impl vstd::std_specs::convert::FromSpecImpl<&str> for UserId {
    open spec fn obeys_from_spec() -> bool {
        false
    }

    open spec fn from_spec(v: &str) -> Self {
        choose|u: UserId| u.0.view() == v.view()
    }
}

impl core::str::FromStr for UserId {
    type Err = std::string::ParseError;

    /// The parse shim of a textual wrapper: it always succeeds and wraps
    /// the text.
    fn from_str(s: &str) -> (r: Result<Self, Self::Err>)
        ensures
            r matches Ok(u) && u.0.view() == s.view(),
    {
        Ok(UserId(s.to_owned()))
    }
}

impl core::convert::AsRef<str> for UserId {
    /// The wrapper used where a plain string view is expected.
    fn as_ref(&self) -> (r: &str)
        ensures
            r.view() == self.0.view(),
    {
        self.value().as_str()
    }
}

/// A second textual wrapper: the same expansion as [`UserId`], written
/// out for a wrapper of its own identity.
pub struct SimpleStrValueStruct(pub String);

impl SimpleStrValueStruct {
    /// Accessor: a borrowed view of the wrapped text.
    #[inline]
    pub fn value(&self) -> (r: &String)
        ensures
            *r == self.0,
    {
        &self.0
    }
}

impl ValueStruct for SimpleStrValueStruct {
    type ValueType = String;

    open spec fn value_spec(&self) -> String {
        self.0
    }

    fn value(&self) -> (r: &String) {
        &self.0
    }
}

impl core::convert::From<String> for SimpleStrValueStruct {
    /// Construction from the owned string: wraps it unchanged.
    fn from(value: String) -> (r: Self) {
        SimpleStrValueStruct(value)
    }
}

impl vstd::std_specs::convert::FromSpecImpl<String> for SimpleStrValueStruct {
    open spec fn obeys_from_spec() -> bool {
        true
    }

    open spec fn from_spec(v: String) -> Self {
        SimpleStrValueStruct(v)
    }
}

impl core::convert::From<&String> for SimpleStrValueStruct {
    /// Construction from a reference: clones the referenced string, so the
    /// wrapper owns storage of its own.
    fn from(value: &String) -> (r: Self) {
        SimpleStrValueStruct(value.clone())
    }
}

impl vstd::std_specs::convert::FromSpecImpl<&String> for SimpleStrValueStruct {
    open spec fn obeys_from_spec() -> bool {
        true
    }

    open spec fn from_spec(v: &String) -> Self {
        SimpleStrValueStruct(*v)
    }
}

impl core::convert::From<&str> for SimpleStrValueStruct {
    /// Construction from a string slice: copies the view into a newly
    /// allocated owned string with the same contents.
    fn from(value: &str) -> (r: Self)
        ensures
            r.0.view() == value.view(),
    {
        SimpleStrValueStruct(value.to_owned())
    }
}

/// As for [`UserId`]: the exact contract of this conversion stands on the
/// conversion itself, not on a spec-level `from`.
impl vstd::std_specs::convert::FromSpecImpl<&str> for SimpleStrValueStruct {
    open spec fn obeys_from_spec() -> bool {
        false
    }

    open spec fn from_spec(v: &str) -> Self {
        choose|u: SimpleStrValueStruct| u.0.view() == v.view()
    }
}

impl core::str::FromStr for SimpleStrValueStruct {
    type Err = std::string::ParseError;

    /// The parse shim of a textual wrapper: it always succeeds and wraps
    /// the text.
    fn from_str(s: &str) -> (r: Result<Self, Self::Err>)
        ensures
            r matches Ok(u) && u.0.view() == s.view(),
    {
        Ok(SimpleStrValueStruct(s.to_owned()))
    }
}

impl core::convert::AsRef<str> for SimpleStrValueStruct {
    /// The wrapper used where a plain string view is expected.
    fn as_ref(&self) -> (r: &str)
        ensures
            r.view() == self.0.view(),
    {
        self.value().as_str()
    }
}

/// A scalar wrapper: a distinct identity for one eight-bit value.
pub struct SimpleIntValueStruct(pub u8);

impl SimpleIntValueStruct {
    /// Accessor: a scalar is cheap to copy, so it is returned by value.
    #[inline]
    pub fn value(&self) -> (r: u8)
        ensures
            r == self.0,
    {
        self.0
    }
}

impl ValueStruct for SimpleIntValueStruct {
    type ValueType = u8;

    open spec fn value_spec(&self) -> u8 {
        self.0
    }

    fn value(&self) -> (r: &u8) {
        &self.0
    }
}

impl core::convert::From<u8> for SimpleIntValueStruct {
    /// The one conversion of a scalar wrapper: its exact value, by value.
    fn from(value: u8) -> (r: Self) {
        SimpleIntValueStruct(value)
    }
}

impl vstd::std_specs::convert::FromSpecImpl<u8> for SimpleIntValueStruct {
    open spec fn obeys_from_spec() -> bool {
        true
    }

    open spec fn from_spec(v: u8) -> Self {
        SimpleIntValueStruct(v)
    }
}

/// A field type outside both enumerations: it is classified as other and
/// gets the default conversion bundle.
#[derive(Clone, Copy, PartialEq, Eq, Structural, Debug)]
pub struct Point {
    pub x: u64,
    pub y: u64,
}

/// A wrapper around an arbitrary other type.
pub struct SimplePointValueStruct(pub Point);

impl SimplePointValueStruct {
    /// Accessor: an arbitrary field may be expensive or impossible to
    /// copy, so a borrowed view is returned.
    #[inline]
    pub fn value(&self) -> (r: &Point)
        ensures
            *r == self.0,
    {
        &self.0
    }
}

impl ValueStruct for SimplePointValueStruct {
    type ValueType = Point;

    open spec fn value_spec(&self) -> Point {
        self.0
    }

    fn value(&self) -> (r: &Point) {
        &self.0
    }
}

impl core::convert::From<Point> for SimplePointValueStruct {
    /// Construction from the exact field type: wraps it unchanged.
    fn from(value: Point) -> (r: Self) {
        SimplePointValueStruct(value)
    }
}

impl vstd::std_specs::convert::FromSpecImpl<Point> for SimplePointValueStruct {
    open spec fn obeys_from_spec() -> bool {
        true
    }

    open spec fn from_spec(v: Point) -> Self {
        SimplePointValueStruct(v)
    }
}

impl core::convert::From<&Point> for SimplePointValueStruct {
    /// Construction from a reference: clones the referenced value, so the
    /// wrapper owns a value of its own.
    fn from(value: &Point) -> (r: Self) {
        SimplePointValueStruct(value.clone())
    }
}

impl vstd::std_specs::convert::FromSpecImpl<&Point> for SimplePointValueStruct {
    open spec fn obeys_from_spec() -> bool {
        true
    }

    open spec fn from_spec(v: &Point) -> Self {
        SimplePointValueStruct(*v)
    }
}

/// Law: for a scalar wrapper, constructing from a value and reading the
/// value back is the identity, by equality of the values.
pub proof fn lemma_scalar_round_trip(v: u8)
    ensures
        <SimpleIntValueStruct as vstd::std_specs::convert::FromSpec<u8>>::from_spec(
            v,
        ).value_spec() == v,
{
}

/// Law: for a textual wrapper, construction from the owned string and
/// from a reference to it both yield a wrapper whose wrapped value equals
/// the original text.  Construction from a borrowed string slice is
/// stated on the conversions themselves: both `From<&str>` and the parse
/// shim ensure that the wrapped text equals the slice's contents.
pub proof fn lemma_textual_round_trip(s: String)
    ensures
        <UserId as vstd::std_specs::convert::FromSpec<String>>::from_spec(s).value_spec() == s,
        <UserId as vstd::std_specs::convert::FromSpec<&String>>::from_spec(&s).value_spec() == s,
{
}

/// Law: for a wrapper around an arbitrary other type, construction by
/// value wraps the input unchanged, and construction from a reference
/// stores a value equal to the referenced one — a clone of its own, which
/// later changes to the original cannot reach.
pub proof fn lemma_other_round_trip(p: Point)
    ensures
        <SimplePointValueStruct as vstd::std_specs::convert::FromSpec<Point>>::from_spec(
            p,
        ).value_spec() == p,
        <SimplePointValueStruct as vstd::std_specs::convert::FromSpec<&Point>>::from_spec(
            &p,
        ).value_spec() == p,
{
}

} // verus!
