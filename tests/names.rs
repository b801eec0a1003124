use voxel_dom::errors::Error;
use voxel_dom::key_path::{resolve, AttributeKey};
use voxel_dom::names::{FieldName, Vec3PropName, VoxelAttributeName, VoxelTagName};

#[test]
fn tag_names_are_closed() {
    assert!(matches!(VoxelTagName::from_str("body"), Ok(VoxelTagName::Body)));
    assert!(matches!(VoxelTagName::from_str("div"), Ok(VoxelTagName::Div)));
    assert!(matches!(VoxelTagName::from_str("span"), Err(Error::VoxelTagNameParseError(_))));
    assert!(matches!(VoxelTagName::from_str("Body"), Err(Error::VoxelTagNameParseError(_))));
    assert_eq!(VoxelTagName::from_str("span").err().unwrap().message(), "unknown tag: span");
}

#[test]
fn dataset_names_need_the_prefix() {
    assert!(matches!(
        VoxelAttributeName::from_dataset_str("data-transform"),
        Ok(VoxelAttributeName::Transform)
    ));
    assert!(matches!(
        VoxelAttributeName::from_dataset_str("transform"),
        Err(Error::VoxelAttributeNameParseError(_))
    ));
    assert!(matches!(
        VoxelAttributeName::from_dataset_str("data-style"),
        Err(Error::VoxelAttributeNameParseError(_))
    ));
    assert!(matches!(VoxelAttributeName::from_str("transform"), Ok(VoxelAttributeName::Transform)));
    let e = VoxelAttributeName::from_dataset_str("transform").err().unwrap();
    assert_eq!(e.message(), "expected prefix `data-`");
    let e = VoxelAttributeName::from_dataset_str("data-Transform").err().unwrap();
    assert_eq!(e.message(), "unknown attribute: Transform");
    let e = VoxelAttributeName::from_str("style").err().unwrap();
    assert_eq!(e.message(), "unknown attribute: style");
}

#[test]
fn component_names_are_closed() {
    assert!(matches!(Vec3PropName::from_str("x"), Ok(Vec3PropName::X)));
    assert!(matches!(Vec3PropName::from_str("z"), Ok(Vec3PropName::Z)));
    assert!(matches!(Vec3PropName::from_str("w"), Err(Error::VXStyleNameParseError(_))));
    assert_eq!(Vec3PropName::from_str("X").err().unwrap().message(), "unknown Vec3 property: X");
    assert_eq!(FieldName::from_str("scale"), Some(FieldName::Scale));
    assert_eq!(FieldName::from_str("size"), None);
}

#[test]
fn resolve_recognized_paths() {
    assert_eq!(resolve("data-transform"), Some(AttributeKey::Whole));
    assert_eq!(resolve("data-transform.rotation"), Some(AttributeKey::Field(FieldName::Rotation)));
    assert_eq!(
        resolve("data-transform.translation.x"),
        Some(AttributeKey::Leaf(FieldName::Translation, Vec3PropName::X))
    );
    assert_eq!(
        resolve("data-transform.scale.z"),
        Some(AttributeKey::Leaf(FieldName::Scale, Vec3PropName::Z))
    );
}

#[test]
fn resolve_unrecognized_paths() {
    for key in [
        "foo",
        "",
        "transform",
        "data-transform.",
        "data-transform..x",
        "data-transform.size",
        "data-transform.rotation.x",
        "data-transform.translation.w",
        "data-transform.translation.x.y",
        "data-Transform",
        "id",
    ] {
        assert_eq!(resolve(key), None, "{}", key);
    }
}
