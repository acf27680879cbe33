use bevy_contact_projective_decals::{decal_label, resolved_decals, DepthCompare, PipelineSettings};

#[test]
fn label_gets_decal_prefix() {
    assert_eq!(decal_label("pbr_opaque_mesh_pipeline"), "decal_pbr_opaque_mesh_pipeline");
}

#[test]
fn empty_label_becomes_prefix() {
    assert_eq!(decal_label(""), "decal_");
}

#[test]
fn specialize_prefixes_label_and_disables_depth_test() {
    let mut p = PipelineSettings {
        label: Some("main".to_string()),
        depth_compare: Some(DepthCompare::GreaterEqual),
    };
    p.specialize_for_decal();
    assert_eq!(p.label.as_deref(), Some("decal_main"));
    assert_eq!(p.depth_compare, Some(DepthCompare::Always));
}

#[test]
fn specialize_leaves_missing_parts_missing() {
    let mut p = PipelineSettings { label: None, depth_compare: None };
    p.specialize_for_decal();
    assert_eq!(p.label, None);
    assert_eq!(p.depth_compare, None);
}

#[test]
fn specialize_twice_prefixes_twice() {
    let mut p = PipelineSettings {
        label: Some("x".to_string()),
        depth_compare: Some(DepthCompare::Always),
    };
    p.specialize_for_decal();
    p.specialize_for_decal();
    assert_eq!(p.label.as_deref(), Some("decal_decal_x"));
    assert_eq!(p.depth_compare, Some(DepthCompare::Always));
}

#[test]
fn decals_with_missing_material_are_skipped() {
    let spawned = vec![(10u64, Some("red")), (11, None), (12, Some("blue")), (13, None)];
    assert_eq!(resolved_decals(spawned), vec![(10u64, "red"), (12, "blue")]);
}

#[test]
fn no_spawned_decals_gives_nothing() {
    let spawned: Vec<(u64, Option<u8>)> = Vec::new();
    assert!(resolved_decals(spawned).is_empty());
}

#[test]
fn all_materials_missing_gives_nothing() {
    let spawned: Vec<(u64, Option<u8>)> = vec![(1, None), (2, None)];
    assert!(resolved_decals(spawned).is_empty());
}

#[test]
fn spawn_order_is_kept() {
    let spawned = vec![(3u32, Some(30u8)), (1, Some(10)), (2, Some(20))];
    assert_eq!(resolved_decals(spawned), vec![(3u32, 30u8), (1, 10), (2, 20)]);
}
