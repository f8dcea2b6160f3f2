use luma_weaver::legacy_catalog::{builtin_node_definition, builtin_node_definitions};
use luma_weaver::schema::NodeTypeId;

#[test]
fn earlier_catalog_lists_its_node_types_in_order() {
    let definitions = builtin_node_definitions();
    assert_eq!(definitions.len(), 46);
    assert_eq!(definitions[0].id, NodeTypeId::FLOAT_CONSTANT);
    assert_eq!(definitions[0].display_name, "Float Constant");
    assert_eq!(definitions[0].outputs[0].display_name, "Value");
    assert_eq!(definitions[45].id, NodeTypeId::FRAME_BRIGHTNESS);
    assert!(definitions.iter().all(|definition| !definition.needs_io));
    for (i, a) in definitions.iter().enumerate() {
        for b in &definitions[i + 1..] {
            assert_ne!(a.id, b.id);
        }
    }
}

#[test]
fn earlier_catalog_lookup_finds_each_entry() {
    for definition in builtin_node_definitions() {
        let found = builtin_node_definition(&definition.id).expect("listed id");
        assert_eq!(found.id, definition.id);
        assert_eq!(found.display_name, definition.display_name);
    }
    assert!(builtin_node_definition("test.unknown").is_none());
    assert_eq!(
        builtin_node_definition(NodeTypeId::FLOAT_CONSTANT).map(|d| d.display_name),
        Some("Float Constant".to_owned())
    );
}
