use ego_tree::NodeRef;
use scraper::{node::Element, Html, Node, Selector};
use voxel_dom::dom::{MarkupElement, MarkupNode, VoxelData, VoxelElement};
use voxel_dom::errors::Error;
use voxel_dom::names::VoxelTagName;
use voxel_dom::project::{Attribute, Readings};
use voxel_dom::value::{Quat, Transform, Vec3};

fn f32_bits(v: &serde_json::Value) -> Option<u32> {
    v.as_f64().map(|f| (f as f32).to_bits())
}

fn json_vec3(v: &serde_json::Value) -> Option<Vec3> {
    let o = v.as_object()?;
    Some(Vec3 { x: f32_bits(o.get("x")?)?, y: f32_bits(o.get("y")?)?, z: f32_bits(o.get("z")?)? })
}

fn json_quat(v: &serde_json::Value) -> Option<Quat> {
    let a = v.as_object()?.get("m128")?.as_array()?;
    if a.len() != 4 {
        return None;
    }
    Some(Quat { x: f32_bits(&a[0])?, y: f32_bits(&a[1])?, z: f32_bits(&a[2])?, w: f32_bits(&a[3])? })
}

fn json_transform(v: &serde_json::Value) -> Option<Transform> {
    let o = v.as_object()?;
    Some(Transform {
        translation: json_vec3(o.get("translation")?)?,
        rotation: json_quat(o.get("rotation")?)?,
        scale: json_vec3(o.get("scale")?)?,
    })
}

fn readings(text: &str) -> Readings {
    let json: Option<serde_json::Value> = serde_json::from_str(text).ok();
    Readings {
        number: text.parse::<f32>().ok().map(f32::to_bits),
        vec3: json.as_ref().and_then(json_vec3),
        quat: json.as_ref().and_then(json_quat),
        transform: json.as_ref().and_then(json_transform),
    }
}

fn markup_element(node: NodeRef<'_, Node>, element: &Element) -> MarkupElement {
    MarkupElement {
        name: element.name().to_string(),
        attrs: element
            .attrs()
            .map(|(key, val)| Attribute { key: key.to_string(), value: readings(val) })
            .collect(),
        children: node.children().map(markup_node).collect(),
    }
}

fn markup_node(node: NodeRef<'_, Node>) -> MarkupNode {
    match node.value() {
        Node::Element(element) => MarkupNode::Element(markup_element(node, element)),
        _ => MarkupNode::Other,
    }
}

fn parse_with(s: &str, selector: &str) -> Result<VoxelData, Error> {
    let html = Html::parse_document(s);
    let selector = Selector::parse(selector).unwrap();
    let root = html.select(&selector).next().map(|e| markup_element(*e, e.value()));
    VoxelData::from_parsed(html.errors.len(), root.as_ref(), "a <body> element is required")
}

fn parse(s: &str) -> Result<VoxelData, Error> {
    parse_with(s, "body")
}

fn translation_x(e: &VoxelElement) -> f32 {
    f32::from_bits(e.transform.translation.x)
}

#[test]
fn test_voxel_data_from_str() {
    let invalid_html_strs = vec![
        // missing <!DOCTYPE html>
        r#"
            <html>
                <body></body>
            </html>
        "#,
    ];

    let valid_html_strs = vec![
        r#"
            <!DOCTYPE html>
            <html></html>
        "#,
        r#"
            <!DOCTYPE html>
            <body></body>
        "#,
        r#"
            <!DOCTYPE html>
            <html>
                <body></body>
            </html>
        "#,
    ];

    let transform_tests: Vec<(&str, [f32; 3])> = vec![
        ("", [0.0, 0.0, 0.0]),
        (
            r#" data-transform='{"translation":{"x":17.0,"y":18.0,"z":19.0}, "rotation":{"m128":[0.0,0.0,0.0,0.0]}, "scale":{"x":2.0,"y":2.0,"z":2.0}}'>"#,
            [17.0, 18.0, 19.0],
        ),
        (r#" data-transform.translation='{"x":17.0,"y":18.0,"z":19.0}'>"#, [17.0, 18.0, 19.0]),
        (
            r#" data-transform.translation.x="7" data-transform.translation.y="8" data-transform.translation.z="9">"#,
            [7.0, 8.0, 9.0],
        ),
    ];

    for html_str in invalid_html_strs {
        assert!(parse(html_str).is_err());
    }

    for html_str in valid_html_strs {
        assert!(parse(html_str).is_ok());
    }

    for (s, t) in transform_tests {
        let html_str = format!(
            r#"
                <!DOCTYPE html>
                <html>
                    <body{}>
                        <div{}>
                        </div>
                    </body>
                </html>
            "#,
            s, s,
        );

        let result = parse(&html_str);
        assert!(result.is_ok());

        let vd = result.unwrap();

        let root = vd.root().transform.translation;
        assert_eq!(t[0], f32::from_bits(root.x));
        assert_eq!(t[1], f32::from_bits(root.y));
        assert_eq!(t[2], f32::from_bits(root.z));

        assert_eq!(vd.elements().len(), 1);
        let first = vd.elements()[0].transform.translation;
        assert_eq!(t[0], f32::from_bits(first.x));
        assert_eq!(t[1], f32::from_bits(first.y));
        assert_eq!(t[2], f32::from_bits(first.z));
    }
}

#[test]
fn test_voxel_data_from_str_with_selector() {
    let html = r#"<!DOCTYPE html>
        <html><body><div id="root" data-transform.scale.x="3"><div></div></div></body></html>"#;
    let vd = parse_with(html, "div#root").unwrap();
    assert_eq!(vd.root().tag(), VoxelTagName::Div);
    assert_eq!(f32::from_bits(vd.root().transform.scale.x), 3.0);
    assert_eq!(vd.elements().len(), 1);
    assert!(matches!(parse_with(html, "div#missing"), Err(Error::VoxelDataParseError(_))));
}

fn element(name: &str, x: f32, children: Vec<MarkupNode>) -> MarkupElement {
    MarkupElement {
        name: name.to_string(),
        attrs: vec![Attribute {
            key: "data-transform.translation.x".to_string(),
            value: Readings { number: Some(x.to_bits()), vec3: None, quat: None, transform: None },
        }],
        children,
    }
}

#[test]
fn flattened_elements_are_in_preorder() {
    // <body><div a/><div b><div c/></div></body>
    let c = element("div", 3.0, vec![]);
    let b = element("div", 2.0, vec![MarkupNode::Element(c)]);
    let a = element("div", 1.0, vec![]);
    let root = element(
        "body",
        0.0,
        vec![MarkupNode::Element(a), MarkupNode::Other, MarkupNode::Element(b)],
    );
    let vd = VoxelData::from_element(&root).unwrap();
    let order: Vec<f32> = vd.elements().iter().map(translation_x).collect();
    assert_eq!(order, vec![1.0, 2.0, 3.0]);
    assert_eq!(translation_x(vd.root()), 0.0);
    assert_eq!(vd.root().children().len(), 2);
    assert_eq!(vd.elements()[1].children().len(), 1);
    assert_eq!(vd.root().tag(), VoxelTagName::Body);
}

#[test]
fn unknown_tag_anywhere_fails_the_build() {
    let deep = element("span", 3.0, vec![]);
    let b = element("div", 2.0, vec![MarkupNode::Element(deep)]);
    let root = element("body", 0.0, vec![MarkupNode::Element(b)]);
    let e = VoxelData::from_element(&root).err().unwrap();
    assert!(matches!(e, Error::VoxelTagNameParseError(_)));
    assert_eq!(e.message(), "unknown tag: span");
    let top = element("section", 0.0, vec![]);
    assert!(matches!(VoxelData::from_element(&top), Err(Error::VoxelTagNameParseError(_))));
}

#[test]
fn from_parsed_reports_document_errors() {
    let root = element("body", 0.0, vec![]);
    let missing = "a <body> element is required";
    let e = VoxelData::from_parsed(1, Some(&root), missing).err().unwrap();
    assert!(matches!(e, Error::VoxelDataParseError(_)));
    assert_eq!(e.message(), "received (1) html parsing error(s)");
    let e = VoxelData::from_parsed(120, Some(&root), missing).err().unwrap();
    assert_eq!(e.message(), "received (120) html parsing error(s)");
    let e = VoxelData::from_parsed(0, None, missing).err().unwrap();
    assert!(matches!(e, Error::VoxelDataParseError(_)));
    assert_eq!(e.message(), "a <body> element is required");
    let vd = VoxelData::from_parsed(0, Some(&root), missing).unwrap();
    assert!(vd.elements().is_empty());
}

#[test]
fn deep_clone_keeps_the_subtree() {
    let c = element("div", 3.0, vec![]);
    let root = element("body", 1.0, vec![MarkupNode::Element(c)]);
    let vd = VoxelData::from_element(&root).unwrap();
    let copy = vd.root().deep_clone();
    assert_eq!(copy.transform, vd.root().transform);
    assert_eq!(copy.children().len(), 1);
    assert_eq!(translation_x(&copy.children()[0]), 3.0);
}
