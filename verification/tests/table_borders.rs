use docx_core::BorderType;
use docx_core::BuildXML;
use docx_core::TableBorder;
use docx_core::TableBorderPosition;
use docx_core::TableBorders;

#[test]
fn test_table_borders() {
    let b = TableBorders::new().build();
    assert_eq!(
        std::str::from_utf8(&b).unwrap(),
        r#"<w:tblBorders><w:top w:val="single" w:sz="2" w:space="0" w:color="000000" /><w:left w:val="single" w:sz="2" w:space="0" w:color="000000" /><w:bottom w:val="single" w:sz="2" w:space="0" w:color="000000" /><w:right w:val="single" w:sz="2" w:space="0" w:color="000000" /><w:insideH w:val="single" w:sz="2" w:space="0" w:color="000000" /><w:insideV w:val="single" w:sz="2" w:space="0" w:color="000000" /></w:tblBorders>"#
    );
}

#[test]
fn test_table_borders_set() {
    let b = TableBorders::new()
        .set(TableBorder::new(TableBorderPosition::Left).color("AAAAAA"))
        .clear(TableBorderPosition::Top)
        .build();
    assert_eq!(
        std::str::from_utf8(&b).unwrap(),
        r#"<w:tblBorders><w:top w:val="nil" w:sz="2" w:space="0" w:color="000000" /><w:left w:val="single" w:sz="2" w:space="0" w:color="AAAAAA" /><w:bottom w:val="single" w:sz="2" w:space="0" w:color="000000" /><w:right w:val="single" w:sz="2" w:space="0" w:color="000000" /><w:insideH w:val="single" w:sz="2" w:space="0" w:color="000000" /><w:insideV w:val="single" w:sz="2" w:space="0" w:color="000000" /></w:tblBorders>"#
    );
}

#[test]
fn test_with_empty_renders_no_children() {
    let b = TableBorders::with_empty().build();
    assert_eq!(std::str::from_utf8(&b).unwrap(), r#"<w:tblBorders></w:tblBorders>"#);
}

#[test]
fn test_clear_all() {
    let b = TableBorders::new()
        .set(TableBorder::new(TableBorderPosition::Left).color("AAAAAA"))
        .clear_all()
        .build();
    assert_eq!(
        std::str::from_utf8(&b).unwrap(),
        r#"<w:tblBorders><w:top w:val="nil" w:sz="2" w:space="0" w:color="000000" /><w:left w:val="nil" w:sz="2" w:space="0" w:color="000000" /><w:bottom w:val="nil" w:sz="2" w:space="0" w:color="000000" /><w:right w:val="nil" w:sz="2" w:space="0" w:color="000000" /><w:insideH w:val="nil" w:sz="2" w:space="0" w:color="000000" /><w:insideV w:val="nil" w:sz="2" w:space="0" w:color="000000" /></w:tblBorders>"#
    );
}

#[test]
fn test_border_builder_methods() {
    let b = TableBorder::new(TableBorderPosition::Bottom)
        .size(4)
        .color("FF0000")
        .border_type(BorderType::Double)
        .build();
    assert_eq!(
        std::str::from_utf8(&b).unwrap(),
        r#"<w:bottom w:val="double" w:sz="4" w:space="0" w:color="FF0000" />"#
    );
}

#[test]
fn test_border_size_zero_and_large() {
    let b = TableBorder::new(TableBorderPosition::Right).size(0).build();
    assert_eq!(
        std::str::from_utf8(&b).unwrap(),
        r#"<w:right w:val="single" w:sz="0" w:space="0" w:color="000000" />"#
    );
    let b = TableBorder::new(TableBorderPosition::Right).size(1234567890).build();
    assert_eq!(
        std::str::from_utf8(&b).unwrap(),
        r#"<w:right w:val="single" w:sz="1234567890" w:space="0" w:color="000000" />"#
    );
}

#[test]
fn test_set_then_clear_every_position_leaves_others_untouched() {
    let positions = [
        TableBorderPosition::Top,
        TableBorderPosition::Left,
        TableBorderPosition::Bottom,
        TableBorderPosition::Right,
        TableBorderPosition::InsideH,
        TableBorderPosition::InsideV,
    ];
    let tags = ["w:top", "w:left", "w:bottom", "w:right", "w:insideH", "w:insideV"];
    for (i, p) in positions.iter().enumerate() {
        let b = TableBorders::new()
            .set(TableBorder::new(*p).color("BBBBBB"))
            .build();
        let s = String::from_utf8(b).unwrap();
        for (j, tag) in tags.iter().enumerate() {
            let expected = if i == j {
                format!(r#"<{} w:val="single" w:sz="2" w:space="0" w:color="BBBBBB" />"#, tag)
            } else {
                format!(r#"<{} w:val="single" w:sz="2" w:space="0" w:color="000000" />"#, tag)
            };
            assert!(s.contains(&expected));
        }
        let c = TableBorders::new().clear(*p).build();
        let s = String::from_utf8(c).unwrap();
        for (j, tag) in tags.iter().enumerate() {
            let expected = if i == j {
                format!(r#"<{} w:val="nil" w:sz="2" w:space="0" w:color="000000" />"#, tag)
            } else {
                format!(r#"<{} w:val="single" w:sz="2" w:space="0" w:color="000000" />"#, tag)
            };
            assert!(s.contains(&expected));
        }
    }
}

#[test]
fn test_borders_build_is_idempotent() {
    let borders = TableBorders::new()
        .set(TableBorder::new(TableBorderPosition::InsideV).color("123ABC"))
        .clear(TableBorderPosition::Left);
    assert_eq!(borders.build(), borders.build());
}
