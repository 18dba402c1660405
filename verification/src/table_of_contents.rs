//! The table of contents: an aggregate owning a field instruction and
//! an ordered sequence of items. Rendering expands it into either a
//! placeholder field-code pair (no items) or the itemized entries, each
//! carrying a copy of the parent's shared state — the two render paths
//! are mutually exclusive, never combined.

use crate::build_xml::seq_xml;
use crate::build_xml::BuildXML;
use crate::instr_to_c::InstrToC;
use crate::paragraph::default_para_id;
use crate::paragraph::Paragraph;
use crate::paragraph::ParagraphChild;
use crate::paragraph::ParagraphProperty;
use crate::run::FieldChar;
use crate::run::InstrText;
use crate::run::Run;
use crate::run::RunChild;
use crate::run::RunProperty;
use crate::run::Text;
use crate::structured_data_tag::StructuredDataTagProperty;
use crate::types::FieldCharType;
use crate::xml_builder::XmlBuilder;
use vstd::prelude::*;

verus! {

/// One produced entry of a table of contents: its own text, and — once
/// finalized under its parent — a copy of the parent's instruction and
/// dirty flag, plus a page reference that defaults to the parent's
/// placeholder when the item did not set one.
#[derive(Debug, Clone, PartialEq)]
pub struct TableOfContentsItem {
    pub instr: InstrToC,
    pub text: String,
    pub dirty: bool,
    pub page_ref: Option<String>,
}

impl TableOfContentsItem {
    /// An item with empty text, a fresh instruction, no page reference.
    pub fn new() -> (r: Self)
        ensures
            r.instr.heading_styles_range is None,
            r.instr.styles_with_levels@ == Seq::<crate::instr_to_c::StyleWithLevel>::empty(),
            !r.instr.hyperlink,
            r.text@ == Seq::<char>::empty(),
            !r.dirty,
            r.page_ref is None,
    {
        TableOfContentsItem {
            instr: InstrToC::new(),
            text: String::new(),
            dirty: false,
            page_ref: Option::None,
        }
    }

    /// The same item with its text content replaced.
    pub fn text(self, text: &str) -> (r: Self)
        ensures
            r.text@ == text@,
            r.instr == self.instr,
            r.dirty == self.dirty,
            r.page_ref == self.page_ref,
    {
        let mut it = self;
        it.text = text.to_owned();
        it
    }

    /// The same item with its own page reference set.
    pub fn page_ref(self, page_ref: &str) -> (r: Self)
        ensures
            r.page_ref matches Some(p) && p@ == page_ref@,
            r.instr == self.instr,
            r.text == self.text,
            r.dirty == self.dirty,
    {
        let mut it = self;
        it.page_ref = Option::Some(page_ref.to_owned());
        it
    }

    /// The finalized copy of this item under its parent's shared state:
    /// the parent's instruction and dirty flag are copied onto the item
    /// (an explicit value copy, never aliasing), and an item lacking its
    /// own page reference receives the parent's placeholder verbatim.
    pub fn finalized(&self, instr: &InstrToC, dirty: bool, placeholder: &Option<String>) -> (r:
        Self)
        ensures
            r.instr.heading_styles_range == instr.heading_styles_range,
            r.instr.styles_with_levels@ == instr.styles_with_levels@,
            r.instr.hyperlink == instr.hyperlink,
            r.instr.spec_text() == instr.spec_text(),
            r.text == self.text,
            r.dirty == dirty,
            self.page_ref is Some ==> r.page_ref == self.page_ref,
            self.page_ref is None ==> r.page_ref == *placeholder,
    {
        TableOfContentsItem {
            instr: instr.duplicate(),
            text: self.text.clone(),
            dirty,
            page_ref: match &self.page_ref {
                Option::Some(p) => Option::Some(p.clone()),
                Option::None => match placeholder {
                    Option::Some(p) => Option::Some(p.clone()),
                    Option::None => Option::None,
                },
            },
        }
    }
}

/// The rendering of an optional page reference: a text child holding
/// the reference, or nothing when none is set.
pub open spec fn page_ref_xml(p: Option<String>) -> Seq<char> {
    match p {
        Option::Some(s) => (Text { text: s }).spec_xml(),
        Option::None => Seq::<char>::empty(),
    }
}

/// The run an item expands into: a Begin field char carrying the item's
/// dirty flag, the instruction text, a Separate field char, the item's
/// text, its page reference when present, and an End field char.
pub open spec fn item_run_xml(item: TableOfContentsItem) -> Seq<char> {
    "<"@ + "w:r"@ + ">"@ + (RunProperty {  }).spec_xml() + ((FieldChar {
        field_char_type: FieldCharType::Begin,
        dirty: item.dirty,
    }).spec_xml() + (InstrText::TOC(item.instr)).spec_xml() + (FieldChar {
        field_char_type: FieldCharType::Separate,
        dirty: false,
    }).spec_xml() + (Text { text: item.text }).spec_xml() + page_ref_xml(item.page_ref)
        + (FieldChar { field_char_type: FieldCharType::End, dirty: false }).spec_xml()) + "</"@
        + "w:r"@ + ">"@
}

impl BuildXML for TableOfContentsItem {
    /// One paragraph, under the placeholder identifier, holding exactly
    /// the item's expanded run.
    open spec fn spec_xml(&self) -> Seq<char> {
        "<"@ + "w:p"@ + " "@ + "w14:paraId"@ + "=\""@ + default_para_id() + "\""@ + ">"@
            + (ParagraphProperty { run_property: RunProperty {  } }).spec_xml() + item_run_xml(
            *self,
        ) + "</"@ + "w:p"@ + ">"@
    }

    #[verifier::rlimit(100)]
    fn build_string(&self) -> (r: String) {
        let r1 = Run::new().add_field_char(FieldCharType::Begin, self.dirty);
        let r2 = r1.add_instr_text(InstrText::TOC(self.instr.duplicate()));
        let r3 = r2.add_field_char(FieldCharType::Separate, false);
        let r4 = r3.add_text(self.text.as_str());
        let ghost c4 = r4.children@;
        let r5 = match &self.page_ref {
            Option::Some(p) => r4.add_text(p.as_str()),
            Option::None => r4,
        };
        let ghost c5 = r5.children@;
        let run = r5.add_field_char(FieldCharType::End, false);
        let ghost runv = run;
        let par = Paragraph::new().add_run(run);
        let s = par.build_string();
        proof {
            let c = runv.children@;
            if self.page_ref is Some {
                assert(c.len() == 6);
                assert(c[4] matches RunChild::Text(t) && t.text@ == self.page_ref->0@) by {
                    assert(c[4] == c5[4]);
                    assert(c5[4] == c5.last());
                }
            } else {
                assert(c.len() == 5);
            }
            assert(c[3] matches RunChild::Text(t) && t.text@ == self.text@) by {
                assert(c[3] == c4[3]);
                assert(c4[3] == c4.last());
            }
            lemma_single_run_paragraph(par, runv);
            lemma_item_run_xml(runv, *self);
            assert(s@ =~= self.spec_xml());
        }
        s
    }
}

/// The rendering of a paragraph holding exactly one run: the paragraph
/// wrapper around that run's rendering.
proof fn lemma_single_run_paragraph(par: Paragraph, run: Run)
    requires
        par.children@ == Seq::<ParagraphChild>::empty().push(ParagraphChild::Run(run)),
    ensures
        par.spec_xml() == "<"@ + "w:p"@ + " "@ + "w14:paraId"@ + "=\""@ + par.id@ + "\""@ + ">"@
            + par.property.spec_xml() + run.spec_xml() + "</"@ + "w:p"@ + ">"@,
{
    let pc = ParagraphChild::Run(run);
    assert(par.children@.drop_last() =~= Seq::<ParagraphChild>::empty());
    assert(par.children@.last() == pc);
    assert(seq_xml(Seq::<ParagraphChild>::empty()) == Seq::<char>::empty());
    assert(seq_xml(par.children@) == Seq::<char>::empty() + pc.spec_xml());
    assert(seq_xml(par.children@) =~= pc.spec_xml());
}

/// The rendering of the run an item finalizes into, child by child.
#[verifier::rlimit(100)]
proof fn lemma_item_run_xml(run: Run, item: TableOfContentsItem)
    requires
        run.run_property == (RunProperty {  }),
        ({
            let c = run.children@;
            &&& (item.page_ref is None ==> c.len() == 5)
            &&& (item.page_ref is Some ==> c.len() == 6)
            &&& c[0] == RunChild::FieldChar(
                (FieldChar { field_char_type: FieldCharType::Begin, dirty: item.dirty }),
            )
            &&& (c[1] matches RunChild::InstrText(i) && (i matches InstrText::TOC(t)
                && t.spec_text() == item.instr.spec_text()))
            &&& c[2] == RunChild::FieldChar(
                (FieldChar { field_char_type: FieldCharType::Separate, dirty: false }),
            )
            &&& (c[3] matches RunChild::Text(t) && t.text@ == item.text@)
            &&& (item.page_ref is Some ==> (c[4] matches RunChild::Text(t) && t.text@
                == item.page_ref->0@))
            &&& c.last() == RunChild::FieldChar(
                (FieldChar { field_char_type: FieldCharType::End, dirty: false }),
            )
        }),
    ensures
        run.spec_xml() == item_run_xml(item),
{
    let c = run.children@;
    let n: int = c.len() as int;
    assert(c.take(0) =~= Seq::<RunChild>::empty());
    crate::build_xml::lemma_seq_xml_empty(c.take(0));
    crate::build_xml::lemma_seq_xml_take_succ(c, 1);
    crate::build_xml::lemma_seq_xml_take_succ(c, 2);
    crate::build_xml::lemma_seq_xml_take_succ(c, 3);
    crate::build_xml::lemma_seq_xml_take_succ(c, 4);
    crate::build_xml::lemma_seq_xml_take_succ(c, 5);
    assert(c.take(n) =~= c);
    assert(seq_xml(c.take(1)) =~= c[0].spec_xml());
    assert(c[1].spec_xml() == (InstrText::TOC(item.instr)).spec_xml());
    assert(c[3].spec_xml() == (Text { text: item.text }).spec_xml());
    if item.page_ref is Some {
        crate::build_xml::lemma_seq_xml_take_succ(c, 6);
        assert(c[5] == c.last());
        assert(c[4].spec_xml() == page_ref_xml(item.page_ref));
        assert(seq_xml(c) == c[0].spec_xml() + c[1].spec_xml() + c[2].spec_xml() + c[3].spec_xml()
            + c[4].spec_xml() + c[5].spec_xml());
    } else {
        assert(c[4] == c.last());
        assert(seq_xml(c) == c[0].spec_xml() + c[1].spec_xml() + c[2].spec_xml() + c[3].spec_xml()
            + c[4].spec_xml());
        assert(seq_xml(c) =~= c[0].spec_xml() + c[1].spec_xml() + c[2].spec_xml() + c[3].spec_xml()
            + page_ref_xml(item.page_ref) + c[4].spec_xml());
    }
}

/// The table of contents aggregate: the shared field instruction, the
/// ordered items, the auto and dirty flags, an optional alias label,
/// and an optional page-reference placeholder handed to items that
/// lack their own reference.
#[derive(Debug, Clone, PartialEq)]
pub struct TableOfContents {
    pub instr: InstrToC,
    pub items: Vec<TableOfContentsItem>,
    pub auto: bool,
    pub dirty: bool,
    pub alias: Option<String>,
    pub page_ref_placeholder: Option<String>,
}

impl TableOfContents {
    /// The finalized copy of one item under this aggregate's shared
    /// state: the parent's instruction and dirty flag replace the
    /// item's, and a missing page reference receives the placeholder.
    pub open spec fn spec_finalize(&self, it: TableOfContentsItem) -> TableOfContentsItem {
        TableOfContentsItem {
            instr: self.instr,
            text: it.text,
            dirty: self.dirty,
            page_ref: if it.page_ref is Some {
                it.page_ref
            } else {
                self.page_ref_placeholder
            },
        }
    }

    /// The finalized items, in the order they were added.
    pub open spec fn spec_items_finalized(&self) -> Seq<TableOfContentsItem> {
        self.items@.map_values(|it: TableOfContentsItem| self.spec_finalize(it))
    }

    /// The first placeholder paragraph: one run with a Begin field char
    /// (dirty), the instruction text, and a Separate field char (not
    /// dirty).
    pub open spec fn placeholder_par1_xml(instr: InstrToC) -> Seq<char> {
        "<"@ + "w:p"@ + " "@ + "w14:paraId"@ + "=\""@ + default_para_id() + "\""@ + ">"@
            + (ParagraphProperty { run_property: RunProperty {  } }).spec_xml() + ("<"@ + "w:r"@
            + ">"@ + (RunProperty {  }).spec_xml() + ((FieldChar {
            field_char_type: FieldCharType::Begin,
            dirty: true,
        }).spec_xml() + (InstrText::TOC(instr)).spec_xml() + (FieldChar {
            field_char_type: FieldCharType::Separate,
            dirty: false,
        }).spec_xml()) + "</"@ + "w:r"@ + ">"@) + "</"@ + "w:p"@ + ">"@
    }

    /// The second placeholder paragraph: one run with an End field char
    /// (not dirty).
    pub open spec fn placeholder_par2_xml() -> Seq<char> {
        "<"@ + "w:p"@ + " "@ + "w14:paraId"@ + "=\""@ + default_para_id() + "\""@ + ">"@
            + (ParagraphProperty { run_property: RunProperty {  } }).spec_xml() + ("<"@ + "w:r"@
            + ">"@ + (RunProperty {  }).spec_xml() + (FieldChar {
            field_char_type: FieldCharType::End,
            dirty: false,
        }).spec_xml() + "</"@ + "w:r"@ + ">"@) + "</"@ + "w:p"@ + ">"@
    }

    /// The placeholder rendered when no items exist: the two-paragraph
    /// field-code pair a word processor re-evaluates when the document
    /// is opened.
    pub open spec fn placeholder_xml(instr: InstrToC) -> Seq<char> {
        Self::placeholder_par1_xml(instr) + Self::placeholder_par2_xml()
    }

    /// An empty table of contents: fresh instruction, no items, no
    /// flags, no alias, no placeholder.
    pub fn new() -> (r: Self)
        ensures
            r.instr.heading_styles_range is None,
            r.instr.styles_with_levels@ == Seq::<crate::instr_to_c::StyleWithLevel>::empty(),
            !r.instr.hyperlink,
            r.items@ == Seq::<TableOfContentsItem>::empty(),
            !r.auto,
            !r.dirty,
            r.alias is None,
            r.page_ref_placeholder is None,
    {
        TableOfContents {
            instr: InstrToC::new(),
            items: Vec::new(),
            auto: false,
            dirty: false,
            alias: Option::None,
            page_ref_placeholder: Option::None,
        }
    }

    /// The same aggregate with the instruction's heading-style range
    /// set; everything else is untouched.
    pub fn heading_styles_range(self, start: usize, end: usize) -> (r: Self)
        ensures
            r.instr.heading_styles_range == Some((start, end)),
            r.instr.styles_with_levels@ == self.instr.styles_with_levels@,
            r.instr.hyperlink == self.instr.hyperlink,
            r.items@ == self.items@,
            r.auto == self.auto,
            r.dirty == self.dirty,
            r.alias == self.alias,
            r.page_ref_placeholder == self.page_ref_placeholder,
    {
        let mut t = self;
        t.instr = t.instr.heading_styles_range(start, end);
        t
    }

    /// The same aggregate with one more style-level entry appended to
    /// the instruction; everything else is untouched.
    pub fn add_style_with_level(self, s: crate::instr_to_c::StyleWithLevel) -> (r: Self)
        ensures
            r.instr.styles_with_levels@ == self.instr.styles_with_levels@.push(s),
            r.instr.heading_styles_range == self.instr.heading_styles_range,
            r.instr.hyperlink == self.instr.hyperlink,
            r.items@ == self.items@,
            r.auto == self.auto,
            r.dirty == self.dirty,
            r.alias == self.alias,
            r.page_ref_placeholder == self.page_ref_placeholder,
    {
        let mut t = self;
        t.instr = t.instr.add_style_with_level(s);
        t
    }

    /// The same aggregate with the instruction's hyperlink switch on;
    /// everything else is untouched.
    pub fn hyperlink(self) -> (r: Self)
        ensures
            r.instr.hyperlink,
            r.instr.heading_styles_range == self.instr.heading_styles_range,
            r.instr.styles_with_levels@ == self.instr.styles_with_levels@,
            r.items@ == self.items@,
            r.auto == self.auto,
            r.dirty == self.dirty,
            r.alias == self.alias,
            r.page_ref_placeholder == self.page_ref_placeholder,
    {
        let mut t = self;
        t.instr = t.instr.hyperlink();
        t
    }

    /// The same aggregate with the alias label set; everything else is
    /// untouched.
    pub fn alias(self, a: &str) -> (r: Self)
        ensures
            r.alias matches Some(s) && s@ == a@,
            r.instr == self.instr,
            r.items@ == self.items@,
            r.auto == self.auto,
            r.dirty == self.dirty,
            r.page_ref_placeholder == self.page_ref_placeholder,
    {
        let mut t = self;
        t.alias = Option::Some(a.to_owned());
        t
    }

    /// The same aggregate with the item appended after the existing
    /// items; everything else is untouched.
    pub fn add_item(self, t: TableOfContentsItem) -> (r: Self)
        ensures
            r.items@ == self.items@.push(t),
            r.instr == self.instr,
            r.auto == self.auto,
            r.dirty == self.dirty,
            r.alias == self.alias,
            r.page_ref_placeholder == self.page_ref_placeholder,
    {
        let mut toc = self;
        toc.items.push(t);
        toc
    }

    /// The same aggregate marked auto; everything else is untouched.
    pub fn auto(self) -> (r: Self)
        ensures
            r.auto,
            r.instr == self.instr,
            r.items@ == self.items@,
            r.dirty == self.dirty,
            r.alias == self.alias,
            r.page_ref_placeholder == self.page_ref_placeholder,
    {
        let mut t = self;
        t.auto = true;
        t
    }

    /// The same aggregate marked dirty; everything else is untouched.
    pub fn dirty(self) -> (r: Self)
        ensures
            r.dirty,
            r.instr == self.instr,
            r.items@ == self.items@,
            r.auto == self.auto,
            r.alias == self.alias,
            r.page_ref_placeholder == self.page_ref_placeholder,
    {
        let mut t = self;
        t.dirty = true;
        t
    }
}

impl BuildXML for TableOfContents {
    /// The structured-tag wrapper: the properties (with the alias when
    /// set), then the content element holding either the placeholder
    /// pair (no items) or every finalized item in insertion order, then
    /// a line break before the closing wrapper tag.
    open spec fn spec_xml(&self) -> Seq<char> {
        "<"@ + "w:sdt"@ + ">"@ + (StructuredDataTagProperty {
            run_property: RunProperty {  },
            alias: self.alias,
        }).spec_xml() + "<"@ + "w:sdtContent"@ + ">"@ + (if self.items@.len() == 0 {
            Self::placeholder_xml(self.instr)
        } else {
            seq_xml(self.spec_items_finalized())
        }) + "</"@ + "w:sdtContent"@ + ">"@ + "\n"@ + "</"@ + "w:sdt"@ + ">"@
    }

    #[verifier::rlimit(100)]
    fn build_string(&self) -> (r: String) {
        let prop = match &self.alias {
            Option::Some(a) => StructuredDataTagProperty::new().alias(a.as_str()),
            Option::None => StructuredDataTagProperty::new(),
        };
        proof {
            assert(prop.spec_xml() == (StructuredDataTagProperty {
                run_property: RunProperty {  },
                alias: self.alias,
            }).spec_xml());
        }
        proof {
            assert(Seq::<char>::empty() + "<"@ =~= "<"@);
        }
        let b = XmlBuilder::new()
            .open_start("w:sdt")
            .open_end()
            .add_child(&prop)
            .open_start("w:sdtContent")
            .open_end();
        let ghost pre = b.buf();
        let b = if self.items.len() == 0 {
            let p1 = Paragraph::new().add_run(
                Run::new()
                    .add_field_char(FieldCharType::Begin, true)
                    .add_instr_text(InstrText::TOC(self.instr.duplicate()))
                    .add_field_char(FieldCharType::Separate, false),
            );
            let p2 = Paragraph::new().add_run(Run::new().add_field_char(FieldCharType::End, false));
            proof {
                lemma_placeholder_pair(p1, p2, self.instr);
                assert((pre + p1.spec_xml()) + p2.spec_xml() =~= pre + (p1.spec_xml()
                    + p2.spec_xml()));
            }
            b.add_child(&p1).add_child(&p2)
        } else {
            let ghost content0 = b.buf();
            let ghost tags0 = b.tags();
            let mut b2 = b;
            let n: usize = self.items.len();
            let mut i: usize = 0;
            while i < n
                invariant
                    i <= n,
                    n == self.items@.len(),
                    b2.buf() == content0 + seq_xml(self.spec_items_finalized().take(i as int)),
                    b2.tags() == tags0,
                    !b2.in_tag(),
                decreases n - i,
            {
                let fin = self.items[i].finalized(&self.instr, self.dirty, &self.page_ref_placeholder);
                proof {
                    assert(fin.spec_xml() == self.spec_finalize(self.items@[i as int]).spec_xml());
                    assert(self.spec_items_finalized()[i as int] == self.spec_finalize(
                        self.items@[i as int],
                    ));
                }
                b2 = b2.add_child(&fin);
                proof {
                    let f = self.spec_items_finalized();
                    assert(f.take(i as int + 1).drop_last() =~= f.take(i as int));
                    assert(f.take(i as int + 1).last() == f[i as int]);
                }
                i = i + 1;
            }
            proof {
                assert(self.spec_items_finalized().take(n as int) =~= self.spec_items_finalized());
            }
            b2
        };
        let b = b.close().line_break().close();
        let s = b.build();
        proof {
            assert(s@ =~= self.spec_xml());
        }
        s
    }
}

/// The rendering of the two placeholder paragraphs: exactly the
/// placeholder pair of the given instruction.
#[verifier::rlimit(100)]
proof fn lemma_placeholder_pair(p1: Paragraph, p2: Paragraph, instr: InstrToC)
    requires
        p1.id@ == default_para_id(),
        p1.property == (ParagraphProperty { run_property: RunProperty {  } }),
        p2.id@ == default_para_id(),
        p2.property == (ParagraphProperty { run_property: RunProperty {  } }),
        ({
            &&& p1.children@.len() == 1
            &&& (p1.children@[0] matches ParagraphChild::Run(r) && {
                &&& r.run_property == (RunProperty {  })
                &&& r.children@.len() == 3
                &&& r.children@[0] == RunChild::FieldChar(
                    (FieldChar { field_char_type: FieldCharType::Begin, dirty: true }),
                )
                &&& (r.children@[1] matches RunChild::InstrText(it) && (it matches InstrText::TOC(
                    t,
                ) && t.spec_text() == instr.spec_text()))
                &&& r.children@[2] == RunChild::FieldChar(
                    (FieldChar { field_char_type: FieldCharType::Separate, dirty: false }),
                )
            })
        }),
        ({
            &&& p2.children@.len() == 1
            &&& (p2.children@[0] matches ParagraphChild::Run(r) && {
                &&& r.run_property == (RunProperty {  })
                &&& r.children@.len() == 1
                &&& r.children@[0] == RunChild::FieldChar(
                    (FieldChar { field_char_type: FieldCharType::End, dirty: false }),
                )
            })
        }),
    ensures
        p1.spec_xml() + p2.spec_xml() == TableOfContents::placeholder_xml(instr),
{
    let r1 = p1.children@[0]->Run_0;
    let r2 = p2.children@[0]->Run_0;
    assert(p1.children@ =~= Seq::<ParagraphChild>::empty().push(ParagraphChild::Run(r1)));
    assert(p2.children@ =~= Seq::<ParagraphChild>::empty().push(ParagraphChild::Run(r2)));
    lemma_single_run_paragraph(p1, r1);
    lemma_single_run_paragraph(p2, r2);
    let c1 = r1.children@;
    assert(c1.take(0) =~= Seq::<RunChild>::empty());
    crate::build_xml::lemma_seq_xml_empty(c1.take(0));
    crate::build_xml::lemma_seq_xml_take_succ(c1, 1);
    crate::build_xml::lemma_seq_xml_take_succ(c1, 2);
    crate::build_xml::lemma_seq_xml_take_succ(c1, 3);
    assert(c1.take(3) =~= c1);
    assert(seq_xml(c1.take(1)) =~= c1[0].spec_xml());
    assert(c1[1].spec_xml() == (InstrText::TOC(instr)).spec_xml());
    assert(seq_xml(c1) == c1[0].spec_xml() + c1[1].spec_xml() + c1[2].spec_xml());
    assert(p1.spec_xml() == TableOfContents::placeholder_par1_xml(instr));
    let c2 = r2.children@;
    assert(c2.take(0) =~= Seq::<RunChild>::empty());
    crate::build_xml::lemma_seq_xml_empty(c2.take(0));
    crate::build_xml::lemma_seq_xml_take_succ(c2, 1);
    assert(c2.take(1) =~= c2);
    assert(seq_xml(c2) =~= c2[0].spec_xml());
    assert(p2.spec_xml() == TableOfContents::placeholder_par2_xml());
}

/// Shared-state propagation: in the finalized sequence every item
/// carries the parent's instruction and the parent's dirty flag; an
/// item lacking its own page reference receives the parent's
/// placeholder verbatim, and one holding its own keeps it; each item's
/// own text stays; and the sequence keeps its length and order.
pub proof fn lemma_item_finalization(t: TableOfContents, k: int)
    requires
        0 <= k < t.items@.len(),
    ensures
        t.spec_items_finalized().len() == t.items@.len(),
        t.spec_items_finalized()[k].instr == t.instr,
        t.spec_items_finalized()[k].dirty == t.dirty,
        t.spec_items_finalized()[k].text == t.items@[k].text,
        t.items@[k].page_ref is Some ==> t.spec_items_finalized()[k].page_ref
            == t.items@[k].page_ref,
        t.items@[k].page_ref is None ==> t.spec_items_finalized()[k].page_ref
            == t.page_ref_placeholder,
{
}

} // verus!
