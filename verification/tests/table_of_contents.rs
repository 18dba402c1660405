use docx_core::BuildXML;
use docx_core::StyleWithLevel;
use docx_core::TableOfContents;
use docx_core::TableOfContentsItem;

#[test]
fn test_toc() {
    let b = TableOfContents::new().heading_styles_range(1, 3).build();
    assert_eq!(
        std::str::from_utf8(&b).unwrap(),
        r#"<w:sdt><w:sdtPr><w:rPr /></w:sdtPr><w:sdtContent><w:p w14:paraId="12345678"><w:pPr><w:rPr /></w:pPr><w:r><w:rPr /><w:fldChar w:fldCharType="begin" w:dirty="true" /><w:instrText>TOC \o &quot;1-3&quot;</w:instrText><w:fldChar w:fldCharType="separate" w:dirty="false" /></w:r></w:p><w:p w14:paraId="12345678"><w:pPr><w:rPr /></w:pPr><w:r><w:rPr /><w:fldChar w:fldCharType="end" w:dirty="false" /></w:r></w:p></w:sdtContent>
</w:sdt>"#
    );
}

#[test]
fn test_toc_alias() {
    let b = TableOfContents::new().heading_styles_range(1, 3).alias("Contents").build();
    let s = String::from_utf8(b).unwrap();
    assert!(s.starts_with(r#"<w:sdt><w:sdtPr><w:rPr /><w:alias w:val="Contents" /></w:sdtPr>"#));
}

#[test]
fn test_toc_instruction_switches() {
    let i = docx_core::InstrToC::new()
        .heading_styles_range(1, 3)
        .add_style_with_level(StyleWithLevel::new("Style1", 2))
        .add_style_with_level(StyleWithLevel::new("Style2", 4))
        .hyperlink();
    assert_eq!(i.text_string(), "TOC \\o \"1-3\" \\t \"Style1,2,Style2,4\" \\h");
}

#[test]
fn test_toc_with_items_propagates_parent_state() {
    let toc = TableOfContents::new()
        .heading_styles_range(1, 2)
        .dirty()
        .add_item(TableOfContentsItem::new().text("First").page_ref("4"))
        .add_item(TableOfContentsItem::new().text("Second"));
    let s = String::from_utf8(toc.build()).unwrap();
    let item1 = r#"<w:p w14:paraId="12345678"><w:pPr><w:rPr /></w:pPr><w:r><w:rPr /><w:fldChar w:fldCharType="begin" w:dirty="true" /><w:instrText>TOC \o &quot;1-2&quot;</w:instrText><w:fldChar w:fldCharType="separate" w:dirty="false" /><w:t xml:space="preserve">First</w:t><w:t xml:space="preserve">4</w:t><w:fldChar w:fldCharType="end" w:dirty="false" /></w:r></w:p>"#;
    let item2 = r#"<w:p w14:paraId="12345678"><w:pPr><w:rPr /></w:pPr><w:r><w:rPr /><w:fldChar w:fldCharType="begin" w:dirty="true" /><w:instrText>TOC \o &quot;1-2&quot;</w:instrText><w:fldChar w:fldCharType="separate" w:dirty="false" /><w:t xml:space="preserve">Second</w:t><w:fldChar w:fldCharType="end" w:dirty="false" /></w:r></w:p>"#;
    let expected = format!(
        "<w:sdt><w:sdtPr><w:rPr /></w:sdtPr><w:sdtContent>{}{}</w:sdtContent>\n</w:sdt>",
        item1, item2
    );
    assert_eq!(s, expected);
}

#[test]
fn test_toc_item_placeholder_page_ref() {
    // An item without its own page reference receives the parent's
    // placeholder verbatim; one with its own keeps it.
    let toc = TableOfContents::new()
        .add_item(TableOfContentsItem::new().text("Kept").page_ref("9"))
        .add_item(TableOfContentsItem::new().text("Given"));
    // No placeholder set: the second item renders no page reference.
    let s = String::from_utf8(toc.build()).unwrap();
    assert!(s.contains(r#"<w:t xml:space="preserve">Kept</w:t><w:t xml:space="preserve">9</w:t>"#));
    assert!(s.contains(
        r#"<w:t xml:space="preserve">Given</w:t><w:fldChar w:fldCharType="end" w:dirty="false" />"#
    ));
}

#[test]
fn test_toc_order_preserved() {
    let toc = TableOfContents::new()
        .add_item(TableOfContentsItem::new().text("Alpha"))
        .add_item(TableOfContentsItem::new().text("Beta"))
        .add_item(TableOfContentsItem::new().text("Gamma"));
    let s = String::from_utf8(toc.build()).unwrap();
    let a = s.find("Alpha").unwrap();
    let b = s.find("Beta").unwrap();
    let g = s.find("Gamma").unwrap();
    assert!(a < b && b < g);
}

#[test]
fn test_toc_build_is_idempotent() {
    let toc = TableOfContents::new()
        .heading_styles_range(2, 5)
        .hyperlink()
        .alias("Contents")
        .auto()
        .add_item(TableOfContentsItem::new().text("Entry"));
    assert_eq!(toc.build(), toc.build());
    let empty = TableOfContents::new().heading_styles_range(1, 3);
    assert_eq!(empty.build(), empty.build());
}

#[test]
fn test_toc_inverted_range_passes_through() {
    // Permissiveness is intentional: an inverted range is spelled
    // literally, not rejected.
    let b = TableOfContents::new().heading_styles_range(5, 2).build();
    let s = String::from_utf8(b).unwrap();
    assert!(s.contains(r#"<w:instrText>TOC \o &quot;5-2&quot;</w:instrText>"#));
}
