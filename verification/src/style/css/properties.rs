//! CSS property values as written in a style sheet.
use vstd::prelude::*;

verus! {

/// The value of a CSS property, as parsed. Numbers keep their literal text.
#[derive(Debug)]
pub enum PropertyValue {
    /// A keyword: `auto`, `none`, `block`.
    Keyword(String),
    /// A number: `16`, `0.5`.
    Number(String),
    /// A number with a unit: `16px`, `2rem`.
    Dimension(String, String),
    /// A percentage: `50` for `50%`.
    Percentage(String),
    /// A hexadecimal color, without the `#`: `3b82f6`, `fff`.
    Color(String),
    /// A quoted string: `"Helvetica"`.
    String(String),
    /// A comma (separator in a list).
    Comma,
    /// A list of values.
    List(Vec<PropertyValue>),
}

/// The mathematical model of a property value.
pub enum SpecValue {
    Keyword(Seq<char>),
    Number(Seq<char>),
    Dimension(Seq<char>, Seq<char>),
    Percentage(Seq<char>),
    Color(Seq<char>),
    Str(Seq<char>),
    Comma,
    List(Seq<SpecValue>),
}

pub open spec fn value_view(v: PropertyValue) -> SpecValue
    decreases v,
{
    match v {
        PropertyValue::Keyword(s) => SpecValue::Keyword(s@),
        PropertyValue::Number(s) => SpecValue::Number(s@),
        PropertyValue::Dimension(n, u) => SpecValue::Dimension(n@, u@),
        PropertyValue::Percentage(s) => SpecValue::Percentage(s@),
        PropertyValue::Color(s) => SpecValue::Color(s@),
        PropertyValue::String(s) => SpecValue::Str(s@),
        PropertyValue::Comma => SpecValue::Comma,
        PropertyValue::List(parts) => SpecValue::List(values_view(parts@)),
    }
}

pub open spec fn values_view(parts: Seq<PropertyValue>) -> Seq<SpecValue>
    decreases parts,
{
    if parts.len() == 0 {
        Seq::empty()
    } else {
        values_view(parts.subrange(0, parts.len() - 1)).push(value_view(parts[parts.len() - 1]))
    }
}

impl View for PropertyValue {
    type V = SpecValue;

    open spec fn view(&self) -> SpecValue {
        value_view(*self)
    }
}

} // verus!
