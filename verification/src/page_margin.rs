//! Page margins: a flat value object of seven signed measurements in
//! twentieths of a point, consumed by the section-properties renderer.

use vstd::prelude::*;

verus! {

/// The seven page-margin measurements, each in twentieths of a point.
/// A plain value object: it carries no internal invariant beyond its
/// fields being finite integers, and it is owned by the page
/// configuration that embeds it.
#[derive(Debug, Clone, PartialEq)]
pub struct PageMargin {
    pub top: i32,
    pub left: i32,
    pub bottom: i32,
    pub right: i32,
    pub header: i32,
    pub footer: i32,
    pub gutter: i32,
}

} // verus!
