//! The single capability shared by every element of the document model:
//! rendering itself to an XML character sequence, and from there to bytes.

use vstd::prelude::*;
use vstd::string::StrSliceExecFns;
use vstd::utf8::encode_utf8;

verus! {

/// An element of the document model: any value that can render itself to
/// an XML fragment. `spec_xml` is the mathematical statement of that
/// fragment; `build_string` and `build` are the executable renderers,
/// each pinned to `spec_xml` exactly. Because the contract is a function
/// of the value alone, rendering is deterministic: two calls on equal
/// values yield identical output.
pub trait BuildXML: Sized {
    /// The XML character sequence this element renders to.
    spec fn spec_xml(&self) -> Seq<char>;

    /// Render this element to a string of XML.
    fn build_string(&self) -> (r: String)
        ensures
            r@ == self.spec_xml(),
    ;

    /// Render this element to UTF-8 encoded XML bytes.
    fn build(&self) -> (r: Vec<u8>)
        ensures
            r@ == encode_utf8(self.spec_xml()),
    {
        let s = self.build_string();
        s.as_str().as_bytes_vec()
    }
}

/// The rendering of a sequence of elements: the concatenation of each
/// element's rendering, in sequence order. Insertion order is render order.
pub open spec fn seq_xml<T: BuildXML>(s: Seq<T>) -> Seq<char>
    decreases s.len(),
{
    if s.len() == 0 {
        Seq::empty()
    } else {
        seq_xml(s.drop_last()) + s.last().spec_xml()
    }
}

/// The rendering of an optional element: an absent value contributes
/// nothing at all; a present value contributes its full rendering.
pub open spec fn opt_xml<T: BuildXML>(o: Option<T>) -> Seq<char> {
    match o {
        Option::Some(x) => x.spec_xml(),
        Option::None => Seq::empty(),
    }
}

/// The empty sequence renders to no characters.
pub proof fn lemma_seq_xml_empty<T: BuildXML>(s: Seq<T>)
    requires
        s.len() == 0,
    ensures
        seq_xml(s) == Seq::<char>::empty(),
{
}

/// One unfolding step of `seq_xml` over a prefix.
pub proof fn lemma_seq_xml_take_succ<T: BuildXML>(s: Seq<T>, j: int)
    requires
        0 < j <= s.len(),
    ensures
        seq_xml(s.take(j)) == seq_xml(s.take(j - 1)) + s[j - 1].spec_xml(),
{
    assert(s.take(j).drop_last() =~= s.take(j - 1));
    assert(s.take(j).last() == s[j - 1]);
}

/// Order preservation: appending a child to a sequence appends exactly
/// that child's rendering at the end of the sequence's rendering, leaving
/// the renderings of the earlier children in place.
pub proof fn lemma_seq_xml_push<T: BuildXML>(s: Seq<T>, x: T)
    ensures
        seq_xml(s.push(x)) == seq_xml(s) + x.spec_xml(),
{
    assert(s.push(x).drop_last() =~= s);
    assert(s.push(x).last() == x);
}

/// Order preservation over whole sequences: the rendering of a
/// concatenation is the concatenation of the renderings, so children
/// added earlier always stand before children added later.
pub proof fn lemma_seq_xml_concat<T: BuildXML>(s1: Seq<T>, s2: Seq<T>)
    ensures
        seq_xml(s1 + s2) == seq_xml(s1) + seq_xml(s2),
    decreases s2.len(),
{
    if s2.len() == 0 {
        assert(s1 + s2 =~= s1);
        assert(seq_xml(s1) + seq_xml(s2) =~= seq_xml(s1));
    } else {
        lemma_seq_xml_concat(s1, s2.drop_last());
        assert((s1 + s2).drop_last() =~= s1 + s2.drop_last());
        assert((s1 + s2).last() == s2.last());
        assert(seq_xml(s1) + (seq_xml(s2.drop_last()) + s2.last().spec_xml()) =~= (seq_xml(s1)
            + seq_xml(s2.drop_last())) + s2.last().spec_xml());
    }
}

/// Idempotence of rendering: the contract of `build_string` and `build`
/// is a function of the element value alone, with no hidden state, so any
/// two renderings of equal values are identical character for character.
pub proof fn lemma_render_deterministic<T: BuildXML>(x: T, r1: Seq<char>, r2: Seq<char>)
    requires
        r1 == x.spec_xml(),
        r2 == x.spec_xml(),
    ensures
        r1 == r2,
{
}

} // verus!
