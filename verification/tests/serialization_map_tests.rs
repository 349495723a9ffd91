use gramps_reader::serialization_map::{SerializationMap, XmlChildSource};

#[test]
fn serialization_map_new_has_all_primary_types() {
    let map = SerializationMap::new();
    let expected_types = [
        "Tag", "Event", "Person", "Family", "Citation", "Source", "Place", "Media", "Repository", "Note",
    ];
    for type_label in &expected_types {
        assert!(map.type_map.contains_key(type_label), "Missing type: {}", type_label);
    }
    assert_eq!(map.type_map.len(), 10);
}

#[test]
fn serialization_map_person_mapping() {
    let map = SerializationMap::new();
    let person = map.type_map.get("Person").unwrap();
    assert_eq!(person.element_name, "person");
    assert_eq!(person.section_name, "people");

    let handle_attr = person.attributes.iter().find(|a| a.field == "handle");
    assert!(handle_attr.is_some());
    assert_eq!(handle_attr.unwrap().attr_name, "handle");

    let gramps_id_attr = person.attributes.iter().find(|a| a.field == "gramps_id");
    assert!(gramps_id_attr.is_some());
    assert_eq!(gramps_id_attr.unwrap().attr_name, "id");
}

#[test]
fn serialization_map_section_order() {
    let map = SerializationMap::new();
    let expected = vec![
        "tags", "events", "people", "families", "citations", "sources", "places", "objects", "repositories",
        "notes",
    ];
    assert_eq!(map.section_order, expected);
}

#[test]
fn serialization_map_edge_exists() {
    let map = SerializationMap::new();
    for e in [
        "PersonFamily", "PersonEventRef", "FamilyChildRef", "FamilyFather", "FamilyMother", "PersonCitation",
        "PersonNote", "PersonMediaRef", "PersonTag", "EventPlace", "CitationSource", "EventCitation",
        "EventNote", "EventMediaRef", "EventTag",
    ] {
        assert!(map.edge_map.contains_key(e), "missing edge {e}");
    }
}

#[test]
fn serialization_map_edge_parent_element() {
    let map = SerializationMap::new();
    let person_event_ref = map.edge_map.get("PersonEventRef").unwrap();
    assert_eq!(person_event_ref.parent_element, "person");
    assert_eq!(person_event_ref.element_name, "eventref");
}

#[test]
fn serialization_map_default() {
    let map = SerializationMap::default();
    let map2 = SerializationMap::new();
    assert_eq!(map, map2);
}

#[test]
fn serialization_map_details() {
    let map = SerializationMap::new();
    assert_eq!(map.edge_map.len(), 35);
    assert!(!map.type_map.contains_key("person"));
    assert!(map.edge_map.get("FamilyRelation").is_none());
    let child_ref = map.edge_map.get("FamilyChildRef").unwrap();
    assert_eq!(
        child_ref.attributes,
        vec![
            ("hlink".to_string(), "hlink".to_string()),
            ("relation".to_string(), "rel".to_string())
        ]
    );
    let place = map.type_map.get("Place").unwrap();
    assert_eq!(place.element_name, "placeobj");
    assert_eq!(place.attributes.len(), 3);
    let person = map.type_map.get("Person").unwrap();
    assert_eq!(person.children[2].element_name, "name");
    assert_eq!(person.children[2].source, XmlChildSource::Array("alternate_names".to_string()));
    let notes = map.type_for_section("notes").unwrap();
    assert_eq!(notes.element_name, "note");
    assert!(map.type_for_section("nothing").is_none());
}
