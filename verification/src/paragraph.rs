//! Paragraphs: identified containers of runs, rendered in insertion
//! order. Paragraph identifiers are threaded explicitly through the
//! value — there is no hidden generator — so rendering stays a pure
//! function of the paragraph alone.

use crate::build_xml::seq_xml;
use crate::build_xml::BuildXML;
use crate::run::Run;
use crate::run::RunProperty;
use crate::xml_builder::XmlBuilder;
use vstd::prelude::*;
use vstd::string::StringExecFns;

verus! {

/// The fixed placeholder paragraph identifier a fresh paragraph carries
/// until a caller threads its own through `id`.
pub open spec fn default_para_id() -> Seq<char> {
    "12345678"@
}

/// The paragraph property set; modelled as the placeholder carrying the
/// run property the schema requires.
#[derive(Debug, Clone, PartialEq)]
pub struct ParagraphProperty {
    pub run_property: RunProperty,
}

impl ParagraphProperty {
    /// The empty paragraph property.
    pub fn new() -> (r: Self)
        ensures
            r == (ParagraphProperty { run_property: RunProperty {  } }),
    {
        ParagraphProperty { run_property: RunProperty::new() }
    }
}

impl BuildXML for ParagraphProperty {
    /// The `w:pPr` wrapper holding the run property placeholder.
    open spec fn spec_xml(&self) -> Seq<char> {
        "<"@ + "w:pPr"@ + ">"@ + self.run_property.spec_xml() + "</"@ + "w:pPr"@ + ">"@
    }

    fn build_string(&self) -> (r: String) {
        let b = XmlBuilder::new()
            .open_start("w:pPr")
            .open_end()
            .add_child(&self.run_property)
            .close();
        let s = b.build();
        proof {
            assert(s@ =~= self.spec_xml());
        }
        s
    }
}

/// A child of a paragraph.
#[derive(Debug, Clone, PartialEq)]
pub enum ParagraphChild {
    Run(Run),
}

impl BuildXML for ParagraphChild {
    /// Each variant renders exactly as the contained element does.
    open spec fn spec_xml(&self) -> Seq<char> {
        match self {
            ParagraphChild::Run(r) => r.spec_xml(),
        }
    }

    fn build_string(&self) -> (r: String) {
        match self {
            ParagraphChild::Run(run) => run.build_string(),
        }
    }
}

/// A paragraph: its identifier, its property set, and its children in
/// insertion order.
#[derive(Debug, Clone, PartialEq)]
pub struct Paragraph {
    pub id: String,
    pub property: ParagraphProperty,
    pub children: Vec<ParagraphChild>,
}

impl Paragraph {
    /// An empty paragraph carrying the placeholder identifier.
    pub fn new() -> (r: Self)
        ensures
            r.id@ == default_para_id(),
            r.property == (ParagraphProperty { run_property: RunProperty {  } }),
            r.children@ == Seq::<ParagraphChild>::empty(),
    {
        Paragraph {
            id: String::from_str("12345678"),
            property: ParagraphProperty::new(),
            children: Vec::new(),
        }
    }

    /// The same paragraph with its identifier replaced by one the
    /// caller threads through explicitly.
    pub fn id(self, id: &str) -> (r: Self)
        ensures
            r.id@ == id@,
            r.property == self.property,
            r.children@ == self.children@,
    {
        let mut p = self;
        p.id = id.to_owned();
        p
    }

    /// The same paragraph with the given run appended after the
    /// existing children.
    pub fn add_run(self, run: Run) -> (r: Self)
        ensures
            r.id == self.id,
            r.property == self.property,
            r.children@ == self.children@.push(ParagraphChild::Run(run)),
    {
        let mut p = self;
        p.children.push(ParagraphChild::Run(run));
        p
    }
}

impl BuildXML for Paragraph {
    /// The `w:p` wrapper with its identifier attribute, then the
    /// property set, then every child in insertion order.
    open spec fn spec_xml(&self) -> Seq<char> {
        "<"@ + "w:p"@ + " "@ + "w14:paraId"@ + "=\""@ + self.id@ + "\""@ + ">"@
            + self.property.spec_xml() + seq_xml(self.children@) + "</"@ + "w:p"@ + ">"@
    }

    fn build_string(&self) -> (r: String) {
        let b = XmlBuilder::new()
            .open_start("w:p")
            .attr("w14:paraId", self.id.as_str())
            .open_end()
            .add_child(&self.property)
            .add_children(&self.children)
            .close();
        let s = b.build();
        proof {
            assert(s@ =~= self.spec_xml());
        }
        s
    }
}

} // verus!
