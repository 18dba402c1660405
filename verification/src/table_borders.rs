//! Table borders: a positional collection of six fixed slots, each
//! holding an optional border specification, with default, override and
//! nil-clearing semantics, rendered in the schema's fixed child order.

use crate::build_xml::opt_xml;
use crate::build_xml::BuildXML;
use crate::types::border_type_keyword;
use crate::types::border_type_str;
use crate::types::position_tag;
use crate::types::position_tag_str;
use crate::types::BorderType;
use crate::types::TableBorderPosition;
use crate::xml_builder::dec_str;
use crate::xml_builder::usize_string;
use crate::xml_builder::XmlBuilder;
use vstd::prelude::*;
use vstd::string::StringExecFns;

verus! {

/// One border specification: the line kind, the size in eighths of a
/// point, the spacing, the color as a hex string, and the position that
/// keys it inside `TableBorders`. The position is bound once at
/// construction: no builder method reassigns it.
#[derive(Debug, Clone, PartialEq)]
pub struct TableBorder {
    pub border_type: BorderType,
    pub size: usize,
    pub color: String,
    pub position: TableBorderPosition,
    pub space: usize,
}

impl TableBorder {
    /// The state every freshly constructed border is in: kind `Single`,
    /// size 2, spacing 0, color `000000`, at the given position.
    pub open spec fn is_default_at(&self, position: TableBorderPosition) -> bool {
        &&& self.position == position
        &&& self.border_type == BorderType::Single
        &&& self.size == 2
        &&& self.space == 0
        &&& self.color@ == "000000"@
    }

    /// A cleared border: the construction defaults with the kind forced
    /// to `Nil`, so the position still renders — explicitly empty.
    pub open spec fn is_nil_at(&self, position: TableBorderPosition) -> bool {
        &&& self.position == position
        &&& self.border_type == BorderType::Nil
        &&& self.size == 2
        &&& self.space == 0
        &&& self.color@ == "000000"@
    }

    /// A border at `position` with the documented defaults.
    pub fn new(position: TableBorderPosition) -> (r: TableBorder)
        ensures
            r.is_default_at(position),
    {
        TableBorder {
            position,
            border_type: BorderType::Single,
            size: 2,
            space: 0,
            color: String::from_str("000000"),
        }
    }

    /// The same border with its color replaced.
    pub fn color(self, color: &str) -> (r: TableBorder)
        ensures
            r.color@ == color@,
            r.border_type == self.border_type,
            r.size == self.size,
            r.position == self.position,
            r.space == self.space,
    {
        let mut b = self;
        b.color = color.to_owned();
        b
    }

    /// The same border with its size replaced.
    pub fn size(self, size: usize) -> (r: TableBorder)
        ensures
            r.size == size,
            r.border_type == self.border_type,
            r.color == self.color,
            r.position == self.position,
            r.space == self.space,
    {
        let mut b = self;
        b.size = size;
        b
    }

    /// The same border with its line kind replaced.
    pub fn border_type(self, border_type: BorderType) -> (r: TableBorder)
        ensures
            r.border_type == border_type,
            r.size == self.size,
            r.color == self.color,
            r.position == self.position,
            r.space == self.space,
    {
        let mut b = self;
        b.border_type = border_type;
        b
    }
}

impl BuildXML for TableBorder {
    /// A self-closing element named for the position, with the
    /// attributes `w:val`, `w:sz`, `w:space`, `w:color` in exactly that
    /// order.
    closed spec fn spec_xml(&self) -> Seq<char> {
        "<"@ + position_tag(self.position) + " "@ + "w:val"@ + "=\""@ + border_type_str(
            self.border_type,
        ) + "\""@ + " "@ + "w:sz"@ + "=\""@ + dec_str(self.size as nat) + "\""@ + " "@ + "w:space"@
            + "=\""@ + dec_str(self.space as nat) + "\""@ + " "@ + "w:color"@ + "=\""@
            + self.color@ + "\""@ + " />"@
    }

    fn build_string(&self) -> (r: String) {
        let sz = usize_string(self.size);
        let space = usize_string(self.space);
        let b = XmlBuilder::new()
            .open_start(position_tag_str(self.position))
            .attr("w:val", border_type_keyword(self.border_type))
            .attr("w:sz", sz.as_str())
            .attr("w:space", space.as_str())
            .attr("w:color", self.color.as_str())
            .close_self();
        let s = b.build();
        proof {
            assert(s@ =~= self.spec_xml());
        }
        s
    }
}

/// The six-slot positional collection of table borders. A present slot
/// renders its border; an absent slot renders nothing, leaving the
/// consumer's default in force. The slots are keyed by position: a
/// border always sits in the slot its own position names.
#[derive(Debug, Clone, PartialEq)]
pub struct TableBorders {
    top: Option<TableBorder>,
    left: Option<TableBorder>,
    bottom: Option<TableBorder>,
    right: Option<TableBorder>,
    inside_h: Option<TableBorder>,
    inside_v: Option<TableBorder>,
}

impl TableBorders {
    /// The border stored for a position, if any.
    pub closed spec fn get(self, p: TableBorderPosition) -> Option<TableBorder> {
        match p {
            TableBorderPosition::Top => self.top,
            TableBorderPosition::Left => self.left,
            TableBorderPosition::Bottom => self.bottom,
            TableBorderPosition::Right => self.right,
            TableBorderPosition::InsideH => self.inside_h,
            TableBorderPosition::InsideV => self.inside_v,
        }
    }

    /// Key consistency: whatever border a slot holds was constructed for
    /// that slot's position.
    pub open spec fn wf(self) -> bool {
        forall|p: TableBorderPosition|
            match #[trigger] self.get(p) {
                Option::Some(b) => b.position == p,
                Option::None => true,
            }
    }

    /// All six positions hold a border in its construction-default state.
    pub open spec fn all_slots_default(self) -> bool {
        forall|p: TableBorderPosition|
            match #[trigger] self.get(p) {
                Option::Some(b) => b.is_default_at(p),
                Option::None => false,
            }
    }

    /// All six positions are absent.
    pub open spec fn all_slots_empty(self) -> bool {
        forall|p: TableBorderPosition| #[trigger] self.get(p) is None
    }

    /// All six positions hold an explicitly cleared (`Nil`) border.
    pub open spec fn all_slots_nil(self) -> bool {
        forall|p: TableBorderPosition|
            match #[trigger] self.get(p) {
                Option::Some(b) => b.is_nil_at(p),
                Option::None => false,
            }
    }

    /// All six positions present, each with the documented defaults.
    pub fn new() -> (r: TableBorders)
        ensures
            r.all_slots_default(),
            r.wf(),
    {
        Default::default()
    }

    /// All six positions absent: the wrapper renders with zero children.
    pub fn with_empty() -> (r: TableBorders)
        ensures
            r.all_slots_empty(),
            r.wf(),
    {
        let r = TableBorders {
            top: Option::None,
            left: Option::None,
            bottom: Option::None,
            right: Option::None,
            inside_h: Option::None,
            inside_v: Option::None,
        };
        proof {
            assert forall|p: TableBorderPosition| #[trigger] r.get(p) is None by {
                match p {
                    TableBorderPosition::Top => {},
                    TableBorderPosition::Left => {},
                    TableBorderPosition::Bottom => {},
                    TableBorderPosition::Right => {},
                    TableBorderPosition::InsideH => {},
                    TableBorderPosition::InsideV => {},
                }
            }
        }
        r
    }

    /// The border stored for a position, exactly `get`.
    pub fn border(&self, position: TableBorderPosition) -> (r: Option<&TableBorder>)
        ensures
            match r {
                Option::Some(b) => self.get(position) == Some(*b),
                Option::None => self.get(position) is None,
            },
    {
        match position {
            TableBorderPosition::Top => self.top.as_ref(),
            TableBorderPosition::Left => self.left.as_ref(),
            TableBorderPosition::Bottom => self.bottom.as_ref(),
            TableBorderPosition::Right => self.right.as_ref(),
            TableBorderPosition::InsideH => self.inside_h.as_ref(),
            TableBorderPosition::InsideV => self.inside_v.as_ref(),
        }
    }

    /// Replaces the slot that `border`'s own position names with that
    /// border, leaving the other five slots untouched.
    pub fn set(self, border: TableBorder) -> (r: Self)
        ensures
            r.get(border.position) == Some(border),
            forall|p: TableBorderPosition|
                p != border.position ==> #[trigger] r.get(p) == self.get(p),
            self.wf() ==> r.wf(),
    {
        let mut s = self;
        match border.position {
            TableBorderPosition::Top => s.top = Option::Some(border),
            TableBorderPosition::Left => s.left = Option::Some(border),
            TableBorderPosition::Bottom => s.bottom = Option::Some(border),
            TableBorderPosition::Right => s.right = Option::Some(border),
            TableBorderPosition::InsideH => s.inside_h = Option::Some(border),
            TableBorderPosition::InsideV => s.inside_v = Option::Some(border),
        };
        proof {
            if self.wf() {
                assert forall|p: TableBorderPosition|
                    match #[trigger] s.get(p) {
                        Option::Some(b) => b.position == p,
                        Option::None => true,
                    } by {
                    if p != border.position {
                        assert(s.get(p) == self.get(p));
                    }
                }
            }
        }
        s
    }

    /// Stores at `position` a border with the kind forced to `Nil` and
    /// every other field at its construction default — an explicit
    /// nil-style element, not an absence — leaving the other five slots
    /// untouched.
    pub fn clear(self, position: TableBorderPosition) -> (r: Self)
        ensures
            match r.get(position) {
                Option::Some(b) => b.is_nil_at(position),
                Option::None => false,
            },
            forall|p: TableBorderPosition| p != position ==> #[trigger] r.get(p) == self.get(p),
            self.wf() ==> r.wf(),
    {
        let nil = TableBorder::new(position).border_type(BorderType::Nil);
        let mut s = self;
        match position {
            TableBorderPosition::Top => s.top = Option::Some(nil),
            TableBorderPosition::Left => s.left = Option::Some(nil),
            TableBorderPosition::Bottom => s.bottom = Option::Some(nil),
            TableBorderPosition::Right => s.right = Option::Some(nil),
            TableBorderPosition::InsideH => s.inside_h = Option::Some(nil),
            TableBorderPosition::InsideV => s.inside_v = Option::Some(nil),
        };
        proof {
            if self.wf() {
                assert forall|p: TableBorderPosition|
                    match #[trigger] s.get(p) {
                        Option::Some(b) => b.position == p,
                        Option::None => true,
                    } by {
                    if p != position {
                        assert(s.get(p) == self.get(p));
                    }
                }
            }
        }
        s
    }

    /// Applies `clear` to every position: all six slots hold an
    /// explicitly cleared border.
    pub fn clear_all(self) -> (r: Self)
        ensures
            r.all_slots_nil(),
            r.wf(),
    {
        let mut s = self;
        s.top = Option::Some(
            TableBorder::new(TableBorderPosition::Top).border_type(BorderType::Nil),
        );
        s.left = Option::Some(
            TableBorder::new(TableBorderPosition::Left).border_type(BorderType::Nil),
        );
        s.bottom = Option::Some(
            TableBorder::new(TableBorderPosition::Bottom).border_type(BorderType::Nil),
        );
        s.right = Option::Some(
            TableBorder::new(TableBorderPosition::Right).border_type(BorderType::Nil),
        );
        s.inside_h = Option::Some(
            TableBorder::new(TableBorderPosition::InsideH).border_type(BorderType::Nil),
        );
        s.inside_v = Option::Some(
            TableBorder::new(TableBorderPosition::InsideV).border_type(BorderType::Nil),
        );
        s
    }
}

impl Default for TableBorders {
    /// All six positions present, each with the documented defaults.
    fn default() -> (r: TableBorders)
        ensures
            r.all_slots_default(),
            r.wf(),
    {
        TableBorders {
            top: Option::Some(TableBorder::new(TableBorderPosition::Top)),
            left: Option::Some(TableBorder::new(TableBorderPosition::Left)),
            bottom: Option::Some(TableBorder::new(TableBorderPosition::Bottom)),
            right: Option::Some(TableBorder::new(TableBorderPosition::Right)),
            inside_h: Option::Some(TableBorder::new(TableBorderPosition::InsideH)),
            inside_v: Option::Some(TableBorder::new(TableBorderPosition::InsideV)),
        }
    }
}

impl BuildXML for TableBorders {
    /// The `w:tblBorders` wrapper containing, in the fixed order Top,
    /// Left, Bottom, Right, InsideH, InsideV, each present slot's
    /// rendered border; absent slots contribute nothing.
    closed spec fn spec_xml(&self) -> Seq<char> {
        "<"@ + "w:tblBorders"@ + ">"@ + opt_xml(self.top) + opt_xml(self.left) + opt_xml(
            self.bottom,
        ) + opt_xml(self.right) + opt_xml(self.inside_h) + opt_xml(self.inside_v) + "</"@
            + "w:tblBorders"@ + ">"@
    }

    fn build_string(&self) -> (r: String) {
        let b = XmlBuilder::new()
            .open_start("w:tblBorders")
            .open_end()
            .add_optional_child(&self.top)
            .add_optional_child(&self.left)
            .add_optional_child(&self.bottom)
            .add_optional_child(&self.right)
            .add_optional_child(&self.inside_h)
            .add_optional_child(&self.inside_v)
            .close();
        let s = b.build();
        proof {
            assert(s@ =~= self.spec_xml());
        }
        s
    }
}

/// The rendering of one construction-default border at a position: the
/// position's element with `val="single" sz="2" space="0" color="000000"`.
pub open spec fn default_border_xml(p: TableBorderPosition) -> Seq<char> {
    "<"@ + position_tag(p) + " "@ + "w:val"@ + "=\""@ + "single"@ + "\""@ + " "@ + "w:sz"@ + "=\""@
        + dec_str(2) + "\""@ + " "@ + "w:space"@ + "=\""@ + dec_str(0) + "\""@ + " "@ + "w:color"@
        + "=\""@ + "000000"@ + "\""@ + " />"@
}

/// An all-default borders value renders exactly six child elements, in
/// the fixed order Top, Left, Bottom, Right, InsideH, InsideV, each
/// with the documented default attributes.
pub proof fn lemma_default_renders_six(b: TableBorders)
    requires
        b.all_slots_default(),
    ensures
        b.spec_xml() == "<"@ + "w:tblBorders"@ + ">"@ + default_border_xml(
            TableBorderPosition::Top,
        ) + default_border_xml(TableBorderPosition::Left) + default_border_xml(
            TableBorderPosition::Bottom,
        ) + default_border_xml(TableBorderPosition::Right) + default_border_xml(
            TableBorderPosition::InsideH,
        ) + default_border_xml(TableBorderPosition::InsideV) + "</"@ + "w:tblBorders"@ + ">"@,
{
    assert(b.get(TableBorderPosition::Top) matches Some(x) && x.is_default_at(
        TableBorderPosition::Top,
    ));
    assert(b.get(TableBorderPosition::Left) matches Some(x) && x.is_default_at(
        TableBorderPosition::Left,
    ));
    assert(b.get(TableBorderPosition::Bottom) matches Some(x) && x.is_default_at(
        TableBorderPosition::Bottom,
    ));
    assert(b.get(TableBorderPosition::Right) matches Some(x) && x.is_default_at(
        TableBorderPosition::Right,
    ));
    assert(b.get(TableBorderPosition::InsideH) matches Some(x) && x.is_default_at(
        TableBorderPosition::InsideH,
    ));
    assert(b.get(TableBorderPosition::InsideV) matches Some(x) && x.is_default_at(
        TableBorderPosition::InsideV,
    ));
    assert(b.spec_xml() =~= "<"@ + "w:tblBorders"@ + ">"@ + default_border_xml(
        TableBorderPosition::Top,
    ) + default_border_xml(TableBorderPosition::Left) + default_border_xml(
        TableBorderPosition::Bottom,
    ) + default_border_xml(TableBorderPosition::Right) + default_border_xml(
        TableBorderPosition::InsideH,
    ) + default_border_xml(TableBorderPosition::InsideV) + "</"@ + "w:tblBorders"@ + ">"@);
}

/// An all-absent borders value renders the wrapper with zero children:
/// nothing stands between the start tag and the end tag.
pub proof fn lemma_empty_renders_no_children(b: TableBorders)
    requires
        b.all_slots_empty(),
    ensures
        b.spec_xml() == "<"@ + "w:tblBorders"@ + ">"@ + "</"@ + "w:tblBorders"@ + ">"@,
{
    assert(b.get(TableBorderPosition::Top) is None);
    assert(b.get(TableBorderPosition::Left) is None);
    assert(b.get(TableBorderPosition::Bottom) is None);
    assert(b.get(TableBorderPosition::Right) is None);
    assert(b.get(TableBorderPosition::InsideH) is None);
    assert(b.get(TableBorderPosition::InsideV) is None);
    assert(b.spec_xml() =~= "<"@ + "w:tblBorders"@ + ">"@ + "</"@ + "w:tblBorders"@ + ">"@);
}

} // verus!
