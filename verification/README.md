# gramps_reader

Verified tools for Gramps genealogy data, written in Verus.

- `src/` is the verified library:
  - `dsu`, `generations`, `walks`, `tally`, `handles`: family groups
    (connected components of the person graph), generation layering and
    the family-group size × generation-span table;
  - `xml`, `xml_reader`, `names`, `extract`, `header`, `text`, `types`,
    `error`: streaming extraction of persons, families and events from
    Gramps XML, and schema version detection;
  - `graph_scan`, `graph_names`: reading a whole document into node
    records of the ten primary types (handle, id, text fields, event
    dates) and edge records for its references; building the graph (one
    object per handle, references between existing objects) or resolving
    its references (placeholder objects for missing targets, recorded as
    inferred);
  - `person_detail`, `family_detail`, `event_detail`, `place_detail`,
    `source_detail`, `repository_detail`, `citation_detail`, `note_detail`,
    `tag_detail`, `media_detail`, `person_records`, `typed_values`: the ten
    primary object kinds read in full detail;
  - `parser`: a whole document read at once (its records and every
    kind in full detail), and `parse_graph`, which checks the schema version,
    reads the document and resolves its references;
  - `inline_fields`: the child-element lines written for a node's own
    fields (gender, names, event type and date, titles, notes, tags...);
  - `dates`: structured `<dateval>` dates, read from a tag and written back
    as an element line, with their round-trip laws;
  - `serialization_map`, `xml_writer`: the Gramps XML vocabulary and the
    document frame (namespace, header, dates, sections, escaping);
  - `document_writer`: a whole document written from the library's own
    graph (`WriteGraph`), sections in the map's order and sorted by handle;
  - `file_content`: the text of a Gramps file from its bytes, gzip
    decompressed with `flate2` when the magic bytes say so;
  - `integrate`, `merge`, `report`: the full outer join of diff rows with
    visualizer selections, and the content of its reports.
- `app/` holds the edges that are not verified: reading files' bytes,
  parsing the diff CSV and the selections JSON, and serializing the
  reports.
- `tests/` holds the tests.

XML is read with `quick_xml`; each extractor is a verified fold over the
events the reader returns, and its contract is stated over those events.

## Design notes

- Collections. Sets and maps keyed by handle strings are held in
  vectors with an explicit invariant rather than in `HashSet`/`HashMap`:
  `HandleSet` (no handle twice, insertion order kept) and `Dsu` (parent
  links by index). The count tables (`SizeTally`, `PairTally`) are keyed by
  the numbers themselves and list their keys in insertion order; their
  text-keyed, sorted JSON shape is made in `app/`. With string keys the
  contracts over `HashMap`/`HashSet` could not be proved. vstd does specify
  `BTreeMap` (`std_specs/btree.rs`), but only for key types that obey its
  ordering model (`obeys_cmp`), which it does not establish for `String`;
  numeric keys and vectors keep every contract provable.
- Scope. All ten primary object kinds are read in full detail: names with
  surnames and their prefixes, gender, event references with roles,
  attributes, addresses, URLs, LDS ordinances, child references with their
  relations, event types and dates, place names and enclosing places,
  repository references with call numbers and media types, citation pages
  and confidence, note text and format, tag names, colours and priorities,
  media paths and MIME types. A typed graph (as the `typed-graph` crate
  models one) is not part of this library: here the graph read is the
  library's own records, resolved by `resolve_edges` (a placeholder
  object, recorded as inferred, for each missing target), and the graph
  written is a `WriteGraph` that holds, as plain values, what the writer
  reads of each object and reference (typed values such as a gender number
  or an event type's display text, role and relation texts, reference
  variant names). The schema validation of a typed graph is not part of
  the library.
