//! A low-level, reusable XML emitter: a pure accumulator of characters
//! with a stack of open tag names. Operations append exactly the
//! characters their contracts state — attributes in the order they are
//! added, no implicit whitespace, no reordering — and `build` hands the
//! accumulated buffer back.

use crate::build_xml::opt_xml;
use crate::build_xml::seq_xml;
use crate::build_xml::BuildXML;
use vstd::prelude::*;
use vstd::string::StrSliceExecFns;
use vstd::string::StringExecFns;

verus! {

/// Relies on `String::push`: the std documentation says it appends the
/// given character to the end of the string.
pub assume_specification[ String::push ](s: &mut String, ch: char)
    ensures
        final(s)@ == old(s)@.push(ch),
;

/// The decimal digit character for a value below ten.
pub open spec fn digit_char(d: nat) -> char {
    if d == 0 {
        '0'
    } else if d == 1 {
        '1'
    } else if d == 2 {
        '2'
    } else if d == 3 {
        '3'
    } else if d == 4 {
        '4'
    } else if d == 5 {
        '5'
    } else if d == 6 {
        '6'
    } else if d == 7 {
        '7'
    } else if d == 8 {
        '8'
    } else {
        '9'
    }
}

/// The decimal rendering of `n`, most significant digit first, with no
/// leading zeros (a single `0` for zero itself).
pub open spec fn dec_str(n: nat) -> Seq<char>
    decreases n,
{
    if n < 10 {
        seq![digit_char(n)]
    } else {
        dec_str(n / 10) + seq![digit_char(n % 10)]
    }
}

/// The spelling of a boolean attribute value.
pub open spec fn bool_str(b: bool) -> Seq<char> {
    if b {
        "true"@
    } else {
        "false"@
    }
}

/// XML text escaping of one character: the four characters with markup
/// meaning become entity references, every other character stands as is.
pub open spec fn esc_char(c: char) -> Seq<char> {
    if c == '&' {
        "&amp;"@
    } else if c == '<' {
        "&lt;"@
    } else if c == '>' {
        "&gt;"@
    } else if c == '"' {
        "&quot;"@
    } else {
        seq![c]
    }
}

/// XML text escaping over a whole character sequence.
pub open spec fn escape_xml(s: Seq<char>) -> Seq<char>
    decreases s.len(),
{
    if s.len() == 0 {
        Seq::empty()
    } else {
        escape_xml(s.drop_last()) + esc_char(s.last())
    }
}

/// The one-character string for a decimal digit.
fn digit_str(d: usize) -> (r: &'static str)
    requires
        d < 10,
    ensures
        r@ == seq![digit_char(d as nat)],
{
    let r: &'static str = match d {
        0 => "0",
        1 => "1",
        2 => "2",
        3 => "3",
        4 => "4",
        5 => "5",
        6 => "6",
        7 => "7",
        8 => "8",
        _ => "9",
    };
    proof {
        reveal_strlit("0");
        reveal_strlit("1");
        reveal_strlit("2");
        reveal_strlit("3");
        reveal_strlit("4");
        reveal_strlit("5");
        reveal_strlit("6");
        reveal_strlit("7");
        reveal_strlit("8");
        reveal_strlit("9");
        assert(r@ =~= seq![digit_char(d as nat)]);
    }
    r
}

/// Appends the decimal digits of `n` to `s`.
fn push_dec_digits(s: &mut String, n: usize)
    ensures
        final(s)@ == old(s)@ + dec_str(n as nat),
    decreases n,
{
    if n >= 10 {
        push_dec_digits(s, n / 10);
    }
    s.append(digit_str(n % 10));
}

/// The decimal string for an unsigned size, exactly `dec_str`.
pub fn usize_string(n: usize) -> (r: String)
    ensures
        r@ == dec_str(n as nat),
{
    let mut s = String::new();
    push_dec_digits(&mut s, n);
    s
}

/// The spelling of a boolean attribute value, exactly `bool_str`.
pub fn bool_string(b: bool) -> (r: &'static str)
    ensures
        r@ == bool_str(b),
{
    if b {
        "true"
    } else {
        "false"
    }
}

/// A pure accumulator for nested tagged XML. The buffer holds the
/// characters emitted so far; the stack holds the names of the open
/// tags, outermost first; while a start tag stands open it still
/// accepts attributes.
pub struct XmlBuilder {
    buffer: String,
    stack: Vec<String>,
    in_start_tag: bool,
}

impl XmlBuilder {
    /// The characters accumulated so far.
    pub closed spec fn buf(&self) -> Seq<char> {
        self.buffer@
    }

    /// The names of the open tags, outermost first.
    pub closed spec fn tags(&self) -> Seq<Seq<char>> {
        self.stack@.map_values(|t: String| t@)
    }

    /// Whether a start tag stands open, awaiting attributes.
    pub closed spec fn in_tag(&self) -> bool {
        self.in_start_tag
    }

    /// A builder with an empty buffer and no open tags.
    pub fn new() -> (r: Self)
        ensures
            r.buf() == Seq::<char>::empty(),
            r.tags() == Seq::<Seq<char>>::empty(),
            !r.in_tag(),
    {
        let r = XmlBuilder { buffer: String::new(), stack: Vec::new(), in_start_tag: false };
        proof {
            assert(r.tags() =~= Seq::<Seq<char>>::empty());
        }
        r
    }

    /// Begins a start tag: emits `<` and the tag name, leaving the tag
    /// open for attributes, and records the name for the matching close.
    pub fn open_start(self, tag: &str) -> (r: Self)
        requires
            !self.in_tag(),
        ensures
            r.buf() == self.buf() + "<"@ + tag@,
            r.tags() == self.tags().push(tag@),
            r.in_tag(),
    {
        let mut b = self;
        b.buffer.append("<");
        b.buffer.append(tag);
        b.stack.push(tag.to_owned());
        b.in_start_tag = true;
        proof {
            assert(b.tags() =~= self.tags().push(tag@));
        }
        b
    }

    /// Emits one attribute inside the open start tag, exactly in the
    /// order called: a space, the name, `="`, the value as given, `"`.
    pub fn attr(self, key: &str, value: &str) -> (r: Self)
        requires
            self.in_tag(),
        ensures
            r.buf() == self.buf() + " "@ + key@ + "=\""@ + value@ + "\""@,
            r.tags() == self.tags(),
            r.in_tag(),
    {
        let mut b = self;
        b.buffer.append(" ");
        b.buffer.append(key);
        b.buffer.append("=\"");
        b.buffer.append(value);
        b.buffer.append("\"");
        b
    }

    /// Finishes the open start tag with `>`; the tag stays open for
    /// children until `close`.
    pub fn open_end(self) -> (r: Self)
        requires
            self.in_tag(),
        ensures
            r.buf() == self.buf() + ">"@,
            r.tags() == self.tags(),
            !r.in_tag(),
    {
        let mut b = self;
        b.buffer.append(">");
        b.in_start_tag = false;
        b
    }

    /// Finishes the open start tag as a self-closing element with ` />`,
    /// taking its name back off the stack.
    pub fn close_self(self) -> (r: Self)
        requires
            self.in_tag(),
            self.tags().len() > 0,
        ensures
            r.buf() == self.buf() + " />"@,
            r.tags() == self.tags().drop_last(),
            !r.in_tag(),
    {
        let mut b = self;
        b.buffer.append(" />");
        let _popped = b.stack.pop();
        b.in_start_tag = false;
        proof {
            assert(b.tags() =~= self.tags().drop_last());
        }
        b
    }

    /// Closes the innermost open tag: emits `</`, its recorded name, `>`.
    pub fn close(self) -> (r: Self)
        requires
            !self.in_tag(),
            self.tags().len() > 0,
        ensures
            r.buf() == self.buf() + "</"@ + self.tags().last() + ">"@,
            r.tags() == self.tags().drop_last(),
            !r.in_tag(),
    {
        let mut b = self;
        let popped = b.stack.pop();
        b.buffer.append("</");
        match popped {
            Option::Some(tag) => {
                b.buffer.append(tag.as_str());
            },
            Option::None => {},
        }
        b.buffer.append(">");
        proof {
            assert(b.tags() =~= self.tags().drop_last());
        }
        b
    }

    /// Emits a raw line break between elements.
    pub fn line_break(self) -> (r: Self)
        requires
            !self.in_tag(),
        ensures
            r.buf() == self.buf() + "\n"@,
            r.tags() == self.tags(),
            !r.in_tag(),
    {
        let mut b = self;
        b.buffer.append("\n");
        b
    }

    /// Emits character data, escaped for XML text content.
    pub fn text(self, s: &str) -> (r: Self)
        requires
            !self.in_tag(),
        ensures
            r.buf() == self.buf() + escape_xml(s@),
            r.tags() == self.tags(),
            !r.in_tag(),
    {
        let mut b = self;
        let escaped = escape_string(s);
        b.buffer.append(escaped.as_str());
        b
    }

    /// Emits one child element's full rendering.
    pub fn add_child<T: BuildXML>(self, child: &T) -> (r: Self)
        requires
            !self.in_tag(),
        ensures
            r.buf() == self.buf() + child.spec_xml(),
            r.tags() == self.tags(),
            !r.in_tag(),
    {
        let mut b = self;
        let s = child.build_string();
        b.buffer.append(s.as_str());
        b
    }

    /// Emits an optional child: nothing at all when absent, the child's
    /// full rendering when present.
    pub fn add_optional_child<T: BuildXML>(self, child: &Option<T>) -> (r: Self)
        requires
            !self.in_tag(),
        ensures
            r.buf() == self.buf() + opt_xml(*child),
            r.tags() == self.tags(),
            !r.in_tag(),
    {
        match child {
            Option::Some(c) => self.add_child(c),
            Option::None => self,
        }
    }

    /// Emits a sequence of children, in their given order.
    pub fn add_children<T: BuildXML>(self, children: &Vec<T>) -> (r: Self)
        requires
            !self.in_tag(),
        ensures
            r.buf() == self.buf() + seq_xml(children@),
            r.tags() == self.tags(),
            !r.in_tag(),
    {
        let ghost start = self.buf();
        let ghost tags0 = self.tags();
        let mut b = self;
        let n: usize = children.len();
        let mut i: usize = 0;
        while i < n
            invariant
                i <= n,
                n == children@.len(),
                b.buf() == start + seq_xml(children@.take(i as int)),
                b.tags() == tags0,
                !b.in_tag(),
            decreases n - i,
        {
            b = b.add_child(&children[i]);
            proof {
                assert(children@.take(i as int + 1).drop_last() =~= children@.take(i as int));
                assert(children@.take(i as int + 1).last() == children@[i as int]);
            }
            i = i + 1;
        }
        proof {
            assert(children@.take(n as int) =~= children@);
        }
        b
    }

    /// Hands back the accumulated characters.
    pub fn build(self) -> (r: String)
        ensures
            r@ == self.buf(),
    {
        self.buffer
    }
}

/// XML-escapes a string's characters, exactly `escape_xml`.
fn escape_string(s: &str) -> (r: String)
    ensures
        r@ == escape_xml(s@),
{
    let mut out = String::new();
    let len: usize = s.unicode_len();
    let mut i: usize = 0;
    while i < len
        invariant
            i <= len,
            len == s@.len(),
            out@ == escape_xml(s@.take(i as int)),
        decreases len - i,
    {
        let c = s.get_char(i);
        if c == '&' {
            out.append("&amp;");
        } else if c == '<' {
            out.append("&lt;");
        } else if c == '>' {
            out.append("&gt;");
        } else if c == '"' {
            out.append("&quot;");
        } else {
            out.push(c);
        }
        proof {
            assert(s@.take(i as int + 1).drop_last() =~= s@.take(i as int));
            assert(s@.take(i as int + 1).last() == s@[i as int]);
            assert(out@ =~= escape_xml(s@.take(i as int + 1)));
        }
        i = i + 1;
    }
    proof {
        assert(s@.take(len as int) =~= s@);
    }
    out
}

} // verus!
