//! Gramps genealogy tools: person-graph analysis, streaming extraction of
//! persons, families and events from Gramps XML, the Gramps XML output
//! vocabulary, and the diff/selection merge used by the integrate tool.

pub mod error;
pub mod text;
pub mod names;
pub mod xml;
pub mod xml_reader;
pub mod handles;
pub mod tally;
pub mod types;
pub mod file_content;
pub mod generations;
pub mod dsu;
pub mod walks;
pub mod extract;
pub mod header;
pub mod integrate;
pub mod merge;
pub mod serialization_map;
pub mod xml_writer;
pub mod report;
pub mod dates;
pub mod graph_names;
pub mod graph_scan;
pub mod inline_fields;
pub mod typed_values;
pub mod type_names;
pub mod person_records;
pub mod person_detail;
pub mod family_detail;
pub mod event_detail;
pub mod place_detail;
pub mod source_detail;
pub mod repository_detail;
pub mod citation_detail;
pub mod note_detail;
pub mod tag_detail;
pub mod media_detail;
pub mod parser;
pub mod document_writer;

pub use error::Error;
pub use dsu::Dsu;
pub use generations::{compute_generation_table, compute_generations, FamilyGroupGenerationTable, MAX_GENERATION};
pub use types::{FamilyRecord, ParsedEvent, ParsedFamily, ParsedPerson};
pub use extract::{extract_events, extract_families, extract_persons};
pub use header::detect_schema_version;
pub use xml::{read_handle_attr, read_hlink_attr, strip_prefix};
pub use integrate::{DiffRow, IntegrateError, Selection};
pub use merge::{merge_diff_viz, MergedRow, RowKind};
pub use serialization_map::SerializationMap;
pub use xml_writer::{GraphXmlWriter, SerializationError};
pub use dates::{parse_dateval, DateRecord};
pub use graph_scan::{parse_gramps_records, parse_gramps_xml, resolve_edges, GraphRecords};
pub use person_detail::parse_people_detail;
pub use family_detail::parse_families_detail;
pub use event_detail::parse_events_detail;
pub use place_detail::parse_places_detail;
pub use source_detail::parse_sources_detail;
pub use repository_detail::parse_repositories_detail;
pub use citation_detail::parse_citations_detail;
pub use note_detail::parse_notes_detail;
pub use tag_detail::parse_tags_detail;
pub use media_detail::parse_media_detail;
pub use parser::{parse_graph, read_document, DocumentDetail, Parser};
