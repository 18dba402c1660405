//! The property element of a structured content tag: the run-property
//! placeholder plus an optional alias label.

use crate::build_xml::BuildXML;
use crate::run::RunProperty;
use crate::xml_builder::XmlBuilder;
use vstd::prelude::*;
use vstd::string::StringExecFns;

verus! {

/// The rendering of the optional alias: a self-closing `w:alias`
/// element carrying the label, or nothing when no alias is set.
pub open spec fn alias_xml(a: Option<String>) -> Seq<char> {
    match a {
        Option::Some(s) => "<"@ + "w:alias"@ + " "@ + "w:val"@ + "=\""@ + s@ + "\""@ + " />"@,
        Option::None => Seq::<char>::empty(),
    }
}

/// The properties of a structured content tag.
#[derive(Debug, Clone, PartialEq)]
pub struct StructuredDataTagProperty {
    pub run_property: RunProperty,
    pub alias: Option<String>,
}

impl StructuredDataTagProperty {
    /// Properties with no alias.
    pub fn new() -> (r: Self)
        ensures
            r.run_property == (RunProperty {  }),
            r.alias is None,
    {
        StructuredDataTagProperty { run_property: RunProperty::new(), alias: Option::None }
    }

    /// The same properties with the alias label set.
    pub fn alias(self, a: &str) -> (r: Self)
        ensures
            r.run_property == self.run_property,
            r.alias matches Some(s) && s@ == a@,
    {
        let mut p = self;
        p.alias = Option::Some(a.to_owned());
        p
    }
}

impl BuildXML for StructuredDataTagProperty {
    /// The `w:sdtPr` wrapper: the run property placeholder, then the
    /// alias element when an alias is set.
    open spec fn spec_xml(&self) -> Seq<char> {
        "<"@ + "w:sdtPr"@ + ">"@ + self.run_property.spec_xml() + alias_xml(self.alias) + "</"@
            + "w:sdtPr"@ + ">"@
    }

    fn build_string(&self) -> (r: String) {
        let b = XmlBuilder::new().open_start("w:sdtPr").open_end().add_child(&self.run_property);
        let b = match &self.alias {
            Option::Some(a) => b.open_start("w:alias").attr("w:val", a.as_str()).close_self(),
            Option::None => b,
        };
        let b = b.close();
        let s = b.build();
        proof {
            assert(s@ =~= self.spec_xml());
        }
        s
    }
}

} // verus!
