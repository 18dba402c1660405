//! Runs and their children: literal text, field-code control characters,
//! and instruction text. A run renders its children in insertion order.

use crate::build_xml::seq_xml;
use crate::build_xml::BuildXML;
use crate::instr_to_c::InstrToC;
use crate::types::field_char_type_keyword;
use crate::types::field_char_type_str;
use crate::types::FieldCharType;
use crate::xml_builder::bool_str;
use crate::xml_builder::bool_string;
use crate::xml_builder::escape_xml;
use crate::xml_builder::XmlBuilder;
use vstd::prelude::*;
use vstd::string::StringExecFns;

verus! {

/// The run-property element every run carries; modelled here as the
/// empty placeholder the schema still requires to be present.
#[derive(Debug, Clone, PartialEq)]
pub struct RunProperty {}

impl RunProperty {
    /// The empty run property.
    pub fn new() -> (r: Self)
        ensures
            r == (RunProperty {  }),
    {
        RunProperty {  }
    }
}

impl BuildXML for RunProperty {
    /// The self-closing `w:rPr` element.
    open spec fn spec_xml(&self) -> Seq<char> {
        "<"@ + "w:rPr"@ + " />"@
    }

    fn build_string(&self) -> (r: String) {
        let b = XmlBuilder::new().open_start("w:rPr").close_self();
        let s = b.build();
        proof {
            assert(s@ =~= self.spec_xml());
        }
        s
    }
}

/// One of the three control points in a field-code life cycle. The
/// dirty flag is supplied per occurrence and rendered exactly as given,
/// never recomputed.
#[derive(Debug, Clone, PartialEq)]
pub struct FieldChar {
    pub field_char_type: FieldCharType,
    pub dirty: bool,
}

impl FieldChar {
    /// A field char of the given kind with the given dirty flag.
    pub fn new(field_char_type: FieldCharType, dirty: bool) -> (r: Self)
        ensures
            r == (FieldChar { field_char_type, dirty }),
    {
        FieldChar { field_char_type, dirty }
    }
}

impl BuildXML for FieldChar {
    /// A self-closing `w:fldChar` element with the kind keyword and the
    /// dirty flag, in that attribute order.
    open spec fn spec_xml(&self) -> Seq<char> {
        "<"@ + "w:fldChar"@ + " "@ + "w:fldCharType"@ + "=\""@ + field_char_type_str(
            self.field_char_type,
        ) + "\""@ + " "@ + "w:dirty"@ + "=\""@ + bool_str(self.dirty) + "\""@ + " />"@
    }

    fn build_string(&self) -> (r: String) {
        let b = XmlBuilder::new()
            .open_start("w:fldChar")
            .attr("w:fldCharType", field_char_type_keyword(self.field_char_type))
            .attr("w:dirty", bool_string(self.dirty))
            .close_self();
        let s = b.build();
        proof {
            assert(s@ =~= self.spec_xml());
        }
        s
    }
}

/// A literal text child, rendered with space preservation and with its
/// characters XML-escaped.
#[derive(Debug, Clone, PartialEq)]
pub struct Text {
    pub text: String,
}

impl Text {
    /// A text child holding exactly the given characters.
    pub fn new(text: &str) -> (r: Self)
        ensures
            r.text@ == text@,
    {
        Text { text: text.to_owned() }
    }
}

impl BuildXML for Text {
    /// A `w:t` element with `xml:space="preserve"`, the text escaped.
    open spec fn spec_xml(&self) -> Seq<char> {
        "<"@ + "w:t"@ + " "@ + "xml:space"@ + "=\""@ + "preserve"@ + "\""@ + ">"@ + escape_xml(
            self.text@,
        ) + "</"@ + "w:t"@ + ">"@
    }

    fn build_string(&self) -> (r: String) {
        let b = XmlBuilder::new()
            .open_start("w:t")
            .attr("xml:space", "preserve")
            .open_end()
            .text(self.text.as_str())
            .close();
        let s = b.build();
        proof {
            assert(s@ =~= self.spec_xml());
        }
        s
    }
}

/// An instruction-text element. The contained instruction is spelled
/// as its literal string and XML-escaped as text content.
#[derive(Debug, Clone, PartialEq)]
pub enum InstrText {
    TOC(InstrToC),
}

impl BuildXML for InstrText {
    /// A `w:instrText` element holding the escaped instruction string.
    open spec fn spec_xml(&self) -> Seq<char> {
        match self {
            InstrText::TOC(i) => "<"@ + "w:instrText"@ + ">"@ + escape_xml(i.spec_text()) + "</"@
                + "w:instrText"@ + ">"@,
        }
    }

    fn build_string(&self) -> (r: String) {
        match self {
            InstrText::TOC(i) => {
                let t = i.text_string();
                let b = XmlBuilder::new()
                    .open_start("w:instrText")
                    .open_end()
                    .text(t.as_str())
                    .close();
                let s = b.build();
                proof {
                    assert(s@ =~= self.spec_xml());
                }
                s
            },
        }
    }
}

/// A child of a run: literal text, a field-code control character, or
/// instruction text.
#[derive(Debug, Clone, PartialEq)]
pub enum RunChild {
    Text(Text),
    FieldChar(FieldChar),
    InstrText(InstrText),
}

impl BuildXML for RunChild {
    /// Each variant renders exactly as the contained element does.
    open spec fn spec_xml(&self) -> Seq<char> {
        match self {
            RunChild::Text(t) => t.spec_xml(),
            RunChild::FieldChar(f) => f.spec_xml(),
            RunChild::InstrText(i) => i.spec_xml(),
        }
    }

    fn build_string(&self) -> (r: String) {
        match self {
            RunChild::Text(t) => t.build_string(),
            RunChild::FieldChar(f) => f.build_string(),
            RunChild::InstrText(i) => i.build_string(),
        }
    }
}

/// A run: the smallest container of rendered content, holding its run
/// property and its children in insertion order.
#[derive(Debug, Clone, PartialEq)]
pub struct Run {
    pub run_property: RunProperty,
    pub children: Vec<RunChild>,
}

impl Run {
    /// An empty run.
    pub fn new() -> (r: Self)
        ensures
            r.run_property == (RunProperty {  }),
            r.children@ == Seq::<RunChild>::empty(),
    {
        Run { run_property: RunProperty::new(), children: Vec::new() }
    }

    /// The same run with a text child holding the given characters
    /// appended after the existing children.
    pub fn add_text(self, text: &str) -> (r: Self)
        ensures
            r.run_property == self.run_property,
            exists|t: Text|
                #![auto]
                r.children@ == self.children@.push(RunChild::Text(t)) && t.text@ == text@,
    {
        let mut run = self;
        run.children.push(RunChild::Text(Text::new(text)));
        run
    }

    /// The same run with a field char of the given kind and dirty flag
    /// appended after the existing children.
    pub fn add_field_char(self, t: FieldCharType, dirty: bool) -> (r: Self)
        ensures
            r.run_property == self.run_property,
            r.children@ == self.children@.push(
                RunChild::FieldChar((FieldChar { field_char_type: t, dirty })),
            ),
    {
        let mut run = self;
        run.children.push(RunChild::FieldChar(FieldChar::new(t, dirty)));
        run
    }

    /// The same run with the given instruction text appended after the
    /// existing children.
    pub fn add_instr_text(self, i: InstrText) -> (r: Self)
        ensures
            r.run_property == self.run_property,
            r.children@ == self.children@.push(RunChild::InstrText(i)),
    {
        let mut run = self;
        run.children.push(RunChild::InstrText(i));
        run
    }
}

impl BuildXML for Run {
    /// The `w:r` wrapper: the run property, then every child in
    /// insertion order.
    open spec fn spec_xml(&self) -> Seq<char> {
        "<"@ + "w:r"@ + ">"@ + self.run_property.spec_xml() + seq_xml(self.children@) + "</"@
            + "w:r"@ + ">"@
    }

    fn build_string(&self) -> (r: String) {
        let b = XmlBuilder::new()
            .open_start("w:r")
            .open_end()
            .add_child(&self.run_property)
            .add_children(&self.children)
            .close();
        let s = b.build();
        proof {
            assert(s@ =~= self.spec_xml());
        }
        s
    }
}

} // verus!
