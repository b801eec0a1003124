use vstd::prelude::*;
use crate::key_path::{resolve, resolve_spec, AttributeKey};
use crate::names::{FieldName, Vec3PropName};
use crate::value::{accepts_leaf, default_transform, leaf_accepted, Quat, Transform, Vec3};

verus! {

/// What the text of one attribute value reads as, in each form that an
/// attribute may give: a single number, a vector, a rotation or a whole
/// transform (`None` where the text is not of that form).
#[derive(Clone, Copy, Debug, PartialEq, Eq, Structural)]
pub struct Readings {
    pub number: Option<u32>,
    pub vec3: Option<Vec3>,
    pub quat: Option<Quat>,
    pub transform: Option<Transform>,
}

/// One attribute of an element: its name and what its value reads as.
#[derive(Debug)]
pub struct Attribute {
    pub key: String,
    pub value: Readings,
}

/// `v` with component `p` set to `b`.
pub open spec fn with_component(v: Vec3, p: Vec3PropName, b: u32) -> Vec3 {
    match p {
        Vec3PropName::X => Vec3 { x: b, ..v },
        Vec3PropName::Y => Vec3 { y: b, ..v },
        Vec3PropName::Z => Vec3 { z: b, ..v },
    }
}

/// The vector field `f` of `t` (the rotation has no vector: the translation
/// stands in for it, and nothing reads it there).
pub open spec fn vector_field(t: Transform, f: FieldName) -> Vec3 {
    match f {
        FieldName::Scale => t.scale,
        _ => t.translation,
    }
}

/// The component `p` of `v`.
pub open spec fn component(v: Vec3, p: Vec3PropName) -> u32 {
    match p {
        Vec3PropName::X => v.x,
        Vec3PropName::Y => v.y,
        Vec3PropName::Z => v.z,
    }
}

/// `t` with its vector field `f` replaced by `v`.
pub open spec fn with_vector_field(t: Transform, f: FieldName, v: Vec3) -> Transform {
    match f {
        FieldName::Scale => Transform { scale: v, ..t },
        _ => Transform { translation: v, ..t },
    }
}

/// The effect of one attribute on the transform built so far.
pub open spec fn apply_spec(t: Transform, a: Attribute) -> Transform {
    match resolve_spec(a.key@) {
        None => t,
        Some(AttributeKey::Whole) => match a.value.transform {
            Some(w) => w,
            None => t,
        },
        Some(AttributeKey::Field(FieldName::Rotation)) => match a.value.quat {
            Some(q) => Transform { rotation: q, ..t },
            None => t,
        },
        Some(AttributeKey::Field(f)) => match a.value.vec3 {
            Some(v) => with_vector_field(t, f, v),
            None => t,
        },
        Some(AttributeKey::Leaf(f, p)) => match a.value.number {
            Some(b) => if leaf_accepted(f, b) {
                with_vector_field(t, f, with_component(vector_field(t, f), p, b))
            } else {
                t
            },
            None => t,
        },
    }
}

/// The transform that a sequence of attributes gives: the default, then each
/// attribute applied in order.
pub open spec fn project_spec(attrs: Seq<Attribute>) -> Transform
    decreases attrs.len(),
{
    if attrs.len() == 0 {
        default_transform()
    } else {
        apply_spec(project_spec(attrs.drop_last()), attrs.last())
    }
}

/// Applies one attribute to `t`.
pub fn apply(t: &mut Transform, a: &Attribute)
    ensures
        *final(t) == apply_spec(*old(t), *a),
{
    match resolve(a.key.as_str()) {
        None => {},
        Some(AttributeKey::Whole) => {
            if let Some(w) = a.value.transform {
                *t = w;
            }
        },
        Some(AttributeKey::Field(FieldName::Rotation)) => {
            if let Some(q) = a.value.quat {
                t.rotation = q;
            }
        },
        Some(AttributeKey::Field(f)) => {
            if let Some(v) = a.value.vec3 {
                match f {
                    FieldName::Scale => t.scale = v,
                    _ => t.translation = v,
                }
            }
        },
        Some(AttributeKey::Leaf(f, p)) => {
            if let Some(b) = a.value.number {
                if accepts_leaf(f, b) {
                    let target: &mut Vec3 = match f {
                        FieldName::Scale => &mut t.scale,
                        _ => &mut t.translation,
                    };
                    match p {
                        Vec3PropName::X => target.x = b,
                        Vec3PropName::Y => target.y = b,
                        Vec3PropName::Z => target.z = b,
                    }
                }
            }
        },
    }
}

/// The transform of an element with the attributes `attrs`, in their order.
pub fn project(attrs: &Vec<Attribute>) -> (r: Transform)
    ensures
        r == project_spec(attrs@),
{
    let mut t = Transform::default();
    let mut i: usize = 0;
    while i < attrs.len()
        invariant
            i <= attrs@.len(),
            t == project_spec(attrs@.take(i as int)),
        decreases attrs@.len() - i,
    {
        assert(attrs@.take(i + 1).drop_last() =~= attrs@.take(i as int));
        apply(&mut t, &attrs[i]);
        i += 1;
    }
    assert(attrs@.take(attrs@.len() as int) =~= attrs@);
    t
}

} // verus!
