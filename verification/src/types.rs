//! Enumerated value types of the document model, each with the exact
//! schema keyword it renders to.

use vstd::prelude::*;

verus! {

/// The kind of line a border is drawn with. The set is closed: the
/// schema only recognises these spellings. `Nil` is the explicit
/// "no border here" kind, distinct from omitting the border element.
#[derive(Debug, Clone, Copy, PartialEq, Eq, Structural)]
pub enum BorderType {
    Single,
    Thick,
    Double,
    Dotted,
    Dashed,
    DotDash,
    DotDotDash,
    Triple,
    Nil,
}

/// The schema keyword for a border kind.
pub open spec fn border_type_str(t: BorderType) -> Seq<char> {
    match t {
        BorderType::Single => "single"@,
        BorderType::Thick => "thick"@,
        BorderType::Double => "double"@,
        BorderType::Dotted => "dotted"@,
        BorderType::Dashed => "dashed"@,
        BorderType::DotDash => "dotDash"@,
        BorderType::DotDotDash => "dotDotDash"@,
        BorderType::Triple => "triple"@,
        BorderType::Nil => "nil"@,
    }
}

/// The schema keyword for a border kind, exactly `border_type_str`.
pub fn border_type_keyword(t: BorderType) -> (r: &'static str)
    ensures
        r@ == border_type_str(t),
{
    match t {
        BorderType::Single => "single",
        BorderType::Thick => "thick",
        BorderType::Double => "double",
        BorderType::Dotted => "dotted",
        BorderType::Dashed => "dashed",
        BorderType::DotDash => "dotDash",
        BorderType::DotDotDash => "dotDotDash",
        BorderType::Triple => "triple",
        BorderType::Nil => "nil",
    }
}

/// The six positions a table border can occupy. The set is closed and
/// exhaustive: every operation over borders handles exactly these six.
#[derive(Debug, Clone, Copy, PartialEq, Eq, Structural)]
pub enum TableBorderPosition {
    Top,
    Left,
    Bottom,
    Right,
    InsideH,
    InsideV,
}

/// The namespace-qualified element name a border position renders under.
pub open spec fn position_tag(p: TableBorderPosition) -> Seq<char> {
    match p {
        TableBorderPosition::Top => "w:top"@,
        TableBorderPosition::Left => "w:left"@,
        TableBorderPosition::Bottom => "w:bottom"@,
        TableBorderPosition::Right => "w:right"@,
        TableBorderPosition::InsideH => "w:insideH"@,
        TableBorderPosition::InsideV => "w:insideV"@,
    }
}

/// The element name for a border position, exactly `position_tag`.
pub fn position_tag_str(p: TableBorderPosition) -> (r: &'static str)
    ensures
        r@ == position_tag(p),
{
    match p {
        TableBorderPosition::Top => "w:top",
        TableBorderPosition::Left => "w:left",
        TableBorderPosition::Bottom => "w:bottom",
        TableBorderPosition::Right => "w:right",
        TableBorderPosition::InsideH => "w:insideH",
        TableBorderPosition::InsideV => "w:insideV",
    }
}

/// One of the three required control points in a field-code life cycle.
#[derive(Debug, Clone, Copy, PartialEq, Eq, Structural)]
pub enum FieldCharType {
    Begin,
    Separate,
    End,
}

/// The schema keyword for a field-char kind.
pub open spec fn field_char_type_str(t: FieldCharType) -> Seq<char> {
    match t {
        FieldCharType::Begin => "begin"@,
        FieldCharType::Separate => "separate"@,
        FieldCharType::End => "end"@,
    }
}

/// The keyword for a field-char kind, exactly `field_char_type_str`.
pub fn field_char_type_keyword(t: FieldCharType) -> (r: &'static str)
    ensures
        r@ == field_char_type_str(t),
{
    match t {
        FieldCharType::Begin => "begin",
        FieldCharType::Separate => "separate",
        FieldCharType::End => "end",
    }
}

} // verus!
