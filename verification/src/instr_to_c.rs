//! The table-of-contents field instruction: a heading-style range, an
//! optional list of style-with-level entries, and a hyperlink flag,
//! spelled as the literal instruction string a word processor evaluates.

use crate::xml_builder::dec_str;
use crate::xml_builder::usize_string;
use vstd::prelude::*;
use vstd::string::StringExecFns;

verus! {

/// A style name paired with the outline level its headings enter the
/// table of contents at.
#[derive(Debug, Clone, PartialEq)]
pub struct StyleWithLevel {
    pub style: String,
    pub level: usize,
}

impl StyleWithLevel {
    /// A style-with-level entry with exactly the given name and level.
    pub fn new(style: &str, level: usize) -> (r: Self)
        ensures
            r.style@ == style@,
            r.level == level,
    {
        StyleWithLevel { style: style.to_owned(), level }
    }

    /// A field-for-field copy: an explicit value copy, never aliasing.
    pub fn duplicate(&self) -> (r: Self)
        ensures
            r == *self,
    {
        StyleWithLevel { style: self.style.clone(), level: self.level }
    }
}

/// One entry of the style-level switch: the style name, a comma, the
/// decimal level.
pub open spec fn style_entry_str(s: StyleWithLevel) -> Seq<char> {
    s.style@ + ","@ + dec_str(s.level as nat)
}

/// The comma-separated spelling of the style-level entries, in order.
pub open spec fn styles_list_str(s: Seq<StyleWithLevel>) -> Seq<char>
    decreases s.len(),
{
    if s.len() == 0 {
        Seq::empty()
    } else if s.len() == 1 {
        style_entry_str(s[0])
    } else {
        styles_list_str(s.drop_last()) + ","@ + style_entry_str(s.last())
    }
}

/// The table-of-contents field instruction. Captured into a
/// `TableOfContents` it is immutable; it is copied, never shared, into
/// each rendered item.
#[derive(Debug, Clone, PartialEq)]
pub struct InstrToC {
    /// The heading-style range switch: headings styled at levels
    /// `start` through `end` enter the table.
    pub heading_styles_range: Option<(usize, usize)>,
    /// Extra style-with-level entries for the style-level switch.
    pub styles_with_levels: Vec<StyleWithLevel>,
    /// Whether entries are rendered as hyperlinks.
    pub hyperlink: bool,
}

impl InstrToC {
    /// The literal instruction string: `TOC`, then the heading-style
    /// range switch `\o "start-end"` when a range is set, then the
    /// style-level switch `\t "style,level,..."` when entries exist,
    /// then the hyperlink switch `\h` when the flag is set. A range
    /// with start above end is spelled exactly as given, not rejected.
    pub open spec fn spec_text(&self) -> Seq<char> {
        "TOC"@ + (match self.heading_styles_range {
            Option::Some(r) => " \\o \""@ + dec_str(r.0 as nat) + "-"@ + dec_str(r.1 as nat)
                + "\""@,
            Option::None => Seq::<char>::empty(),
        }) + (if self.styles_with_levels@.len() == 0 {
            Seq::<char>::empty()
        } else {
            " \\t \""@ + styles_list_str(self.styles_with_levels@) + "\""@
        }) + (if self.hyperlink {
            " \\h"@
        } else {
            Seq::<char>::empty()
        })
    }

    /// An instruction with no range, no style entries, no hyperlink.
    pub fn new() -> (r: Self)
        ensures
            r.heading_styles_range is None,
            r.styles_with_levels@ == Seq::<StyleWithLevel>::empty(),
            !r.hyperlink,
    {
        InstrToC { heading_styles_range: Option::None, styles_with_levels: Vec::new(), hyperlink: false }
    }

    /// The same instruction with the heading-style range set.
    pub fn heading_styles_range(self, start: usize, end: usize) -> (r: Self)
        ensures
            r.heading_styles_range == Some((start, end)),
            r.styles_with_levels@ == self.styles_with_levels@,
            r.hyperlink == self.hyperlink,
    {
        let mut i = self;
        i.heading_styles_range = Option::Some((start, end));
        i
    }

    /// The same instruction with one more style-level entry appended.
    pub fn add_style_with_level(self, s: StyleWithLevel) -> (r: Self)
        ensures
            r.styles_with_levels@ == self.styles_with_levels@.push(s),
            r.heading_styles_range == self.heading_styles_range,
            r.hyperlink == self.hyperlink,
    {
        let mut i = self;
        i.styles_with_levels.push(s);
        i
    }

    /// The same instruction with the hyperlink switch turned on.
    pub fn hyperlink(self) -> (r: Self)
        ensures
            r.hyperlink,
            r.heading_styles_range == self.heading_styles_range,
            r.styles_with_levels@ == self.styles_with_levels@,
    {
        let mut i = self;
        i.hyperlink = true;
        i
    }

    /// A field-for-field copy: an explicit value copy, never aliasing.
    pub fn duplicate(&self) -> (r: Self)
        ensures
            r.heading_styles_range == self.heading_styles_range,
            r.styles_with_levels@ == self.styles_with_levels@,
            r.hyperlink == self.hyperlink,
            r.spec_text() == self.spec_text(),
    {
        let mut styles: Vec<StyleWithLevel> = Vec::new();
        let n: usize = self.styles_with_levels.len();
        let mut i: usize = 0;
        while i < n
            invariant
                i <= n,
                n == self.styles_with_levels@.len(),
                styles@ == self.styles_with_levels@.take(i as int),
            decreases n - i,
        {
            styles.push(self.styles_with_levels[i].duplicate());
            proof {
                assert(styles@ =~= self.styles_with_levels@.take(i as int + 1));
            }
            i = i + 1;
        }
        proof {
            assert(self.styles_with_levels@.take(n as int) =~= self.styles_with_levels@);
        }
        InstrToC {
            heading_styles_range: self.heading_styles_range,
            styles_with_levels: styles,
            hyperlink: self.hyperlink,
        }
    }

    /// The instruction string, exactly `spec_text`.
    pub fn text_string(&self) -> (r: String)
        ensures
            r@ == self.spec_text(),
    {
        let mut s = String::from_str("TOC");
        match self.heading_styles_range {
            Option::Some(range) => {
                s.append(" \\o \"");
                let a = usize_string(range.0);
                s.append(a.as_str());
                s.append("-");
                let b = usize_string(range.1);
                s.append(b.as_str());
                s.append("\"");
            },
            Option::None => {},
        }
        let n: usize = self.styles_with_levels.len();
        if n > 0 {
            s.append(" \\t \"");
            let ghost listed = s@;
            let mut i: usize = 0;
            while i < n
                invariant
                    i <= n,
                    n == self.styles_with_levels@.len(),
                    s@ == listed + styles_list_str(self.styles_with_levels@.take(i as int)),
                decreases n - i,
            {
                if i > 0 {
                    s.append(",");
                }
                let entry = &self.styles_with_levels[i];
                s.append(entry.style.as_str());
                s.append(",");
                let lv = usize_string(entry.level);
                s.append(lv.as_str());
                proof {
                    let v = self.styles_with_levels@;
                    assert(v.take(i as int + 1).drop_last() =~= v.take(i as int));
                    assert(v.take(i as int + 1).last() == v[i as int]);
                    if i == 0 {
                        assert(v.take(1)[0] == v[0]);
                    }
                    assert(s@ =~= listed + styles_list_str(v.take(i as int + 1)));
                }
                i = i + 1;
            }
            s.append("\"");
            proof {
                assert(self.styles_with_levels@.take(n as int) =~= self.styles_with_levels@);
            }
        }
        if self.hyperlink {
            s.append(" \\h");
        }
        proof {
            assert(s@ =~= self.spec_text());
        }
        s
    }
}

} // verus!
