//! A typed in-memory model of WordprocessingML document fragments that
//! renders itself to schema-exact XML bytes.

pub mod build_xml;
pub mod instr_to_c;
pub mod mc_fallback;
pub mod page_margin;
pub mod paragraph;
pub mod run;
pub mod structured_data_tag;
pub mod table_borders;
pub mod table_of_contents;
pub mod types;
pub mod xml_builder;

pub use build_xml::BuildXML;
pub use instr_to_c::InstrToC;
pub use instr_to_c::StyleWithLevel;
pub use mc_fallback::McFallback;
pub use page_margin::PageMargin;
pub use paragraph::Paragraph;
pub use run::FieldChar;
pub use run::InstrText;
pub use run::Run;
pub use run::Text;
pub use structured_data_tag::StructuredDataTagProperty;
pub use table_borders::TableBorder;
pub use table_borders::TableBorders;
pub use table_of_contents::TableOfContents;
pub use table_of_contents::TableOfContentsItem;
pub use types::BorderType;
pub use types::FieldCharType;
pub use types::TableBorderPosition;
pub use xml_builder::XmlBuilder;
