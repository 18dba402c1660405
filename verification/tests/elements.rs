use docx_core::BuildXML;
use docx_core::FieldCharType;
use docx_core::McFallback;
use docx_core::PageMargin;
use docx_core::Paragraph;
use docx_core::Run;
use docx_core::Text;
use docx_core::XmlBuilder;

#[test]
fn test_mc_fallback_renders_nothing() {
    let b = McFallback::new().build();
    assert!(b.is_empty());
}

#[test]
fn test_field_char_kinds() {
    let b = docx_core::run::FieldChar::new(FieldCharType::Separate, false).build();
    assert_eq!(
        std::str::from_utf8(&b).unwrap(),
        r#"<w:fldChar w:fldCharType="separate" w:dirty="false" />"#
    );
    let b = docx_core::run::FieldChar::new(FieldCharType::Begin, true).build();
    assert_eq!(
        std::str::from_utf8(&b).unwrap(),
        r#"<w:fldChar w:fldCharType="begin" w:dirty="true" />"#
    );
    let b = docx_core::run::FieldChar::new(FieldCharType::End, false).build();
    assert_eq!(
        std::str::from_utf8(&b).unwrap(),
        r#"<w:fldChar w:fldCharType="end" w:dirty="false" />"#
    );
}

#[test]
fn test_text_escapes_markup_characters() {
    let b = Text::new(r#"a<b>&"c""#).build();
    assert_eq!(
        std::str::from_utf8(&b).unwrap(),
        r#"<w:t xml:space="preserve">a&lt;b&gt;&amp;&quot;c&quot;</w:t>"#
    );
}

#[test]
fn test_run_children_render_in_insertion_order() {
    let b = Run::new().add_text("one").add_text("two").add_text("three").build();
    assert_eq!(
        std::str::from_utf8(&b).unwrap(),
        r#"<w:r><w:rPr /><w:t xml:space="preserve">one</w:t><w:t xml:space="preserve">two</w:t><w:t xml:space="preserve">three</w:t></w:r>"#
    );
}

#[test]
fn test_paragraph_with_runs() {
    let b = Paragraph::new()
        .add_run(Run::new().add_text("Hello"))
        .add_run(Run::new().add_text(" World"))
        .build();
    assert_eq!(
        std::str::from_utf8(&b).unwrap(),
        r#"<w:p w14:paraId="12345678"><w:pPr><w:rPr /></w:pPr><w:r><w:rPr /><w:t xml:space="preserve">Hello</w:t></w:r><w:r><w:rPr /><w:t xml:space="preserve"> World</w:t></w:r></w:p>"#
    );
}

#[test]
fn test_paragraph_threaded_id() {
    let b = Paragraph::new().id("0000AB12").add_run(Run::new().add_text("x")).build();
    let s = String::from_utf8(b).unwrap();
    assert!(s.starts_with(r#"<w:p w14:paraId="0000AB12">"#));
}

#[test]
fn test_xml_builder_attribute_order() {
    let b = XmlBuilder::new()
        .open_start("w:pgMar")
        .attr("w:top", "1985")
        .attr("w:right", "1701")
        .attr("w:bottom", "1701")
        .attr("w:left", "1701")
        .attr("w:header", "851")
        .attr("w:footer", "992")
        .attr("w:gutter", "0")
        .close_self()
        .build();
    assert_eq!(
        b,
        r#"<w:pgMar w:top="1985" w:right="1701" w:bottom="1701" w:left="1701" w:header="851" w:footer="992" w:gutter="0" />"#
    );
}

#[test]
fn test_xml_builder_nesting_and_text() {
    let b = XmlBuilder::new()
        .open_start("w:outer")
        .open_end()
        .open_start("w:inner")
        .open_end()
        .text(r#"1 < 2 & "3""#)
        .close()
        .close()
        .build();
    assert_eq!(b, r#"<w:outer><w:inner>1 &lt; 2 &amp; &quot;3&quot;</w:inner></w:outer>"#);
}

#[test]
fn test_page_margin_fields() {
    let m = PageMargin {
        top: 1985,
        left: 1701,
        bottom: 1701,
        right: 1701,
        header: 851,
        footer: 992,
        gutter: 0,
    };
    let copy = m.clone();
    assert_eq!(m, copy);
    assert_eq!(m.top, 1985);
    assert_eq!(m.gutter, 0);
}

#[test]
fn test_run_build_is_idempotent() {
    let r = Run::new().add_text("same").add_field_char(FieldCharType::End, false);
    assert_eq!(r.build(), r.build());
}
