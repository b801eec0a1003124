use vstd::prelude::*;
use crate::names::{
    attribute_of_dataset, field_of, prop_of, FieldName, VoxelAttributeName, Vec3PropName,
};
use crate::text::{split_dots, split_dots_exec};

verus! {

/// What a recognized attribute name asks for.
#[derive(Clone, Copy, Debug, PartialEq, Eq, Structural)]
pub enum AttributeKey {
    /// `data-transform`: the whole transform at once.
    Whole,
    /// `data-transform.<field>`: one field at once.
    Field(FieldName),
    /// `data-transform.<field>.<component>`: one component of a vector field.
    Leaf(FieldName, Vec3PropName),
}

/// The component vocabulary of a field: vector fields have `x`, `y`, `z`; the
/// rotation has none.
pub open spec fn leaf_of(f: FieldName, s: Seq<char>) -> Option<Vec3PropName> {
    if f == FieldName::Rotation {
        None
    } else {
        prop_of(s)
    }
}

/// What a name split at its dots asks for: one to three pieces, the first a
/// dataset namespace, each later one from the vocabulary of the one before.
pub open spec fn classify(segs: Seq<Seq<char>>) -> Option<AttributeKey> {
    if segs.len() < 1 || segs.len() > 3 || attribute_of_dataset(segs[0]) is None {
        None
    } else if segs.len() == 1 {
        Some(AttributeKey::Whole)
    } else {
        match field_of(segs[1]) {
            None => None,
            Some(f) => if segs.len() == 2 {
                Some(AttributeKey::Field(f))
            } else {
                match leaf_of(f, segs[2]) {
                    None => None,
                    Some(p) => Some(AttributeKey::Leaf(f, p)),
                }
            },
        }
    }
}

/// What an attribute name asks for, if it is recognized at all.
pub open spec fn resolve_spec(key: Seq<char>) -> Option<AttributeKey> {
    classify(split_dots(key))
}

/// Resolves an attribute name against the recognized vocabulary.
pub fn resolve(key: &str) -> (r: Option<AttributeKey>)
    ensures
        r == resolve_spec(key@),
{
    let parts = split_dots_exec(key);
    let ghost segs = parts@.map_values(|x: &str| x@);
    assert(segs.len() == parts@.len());
    let n = parts.len();
    if n < 1 || n > 3 {
        return None;
    }
    assert(segs[0] == parts@[0]@);
    match VoxelAttributeName::from_dataset_str(parts[0]) {
        Err(_) => {
            return None;
        },
        Ok(_) => {},
    }
    if n == 1 {
        return Some(AttributeKey::Whole);
    }
    assert(segs[1] == parts@[1]@);
    let f = match FieldName::from_str(parts[1]) {
        None => {
            return None;
        },
        Some(f) => f,
    };
    if n == 2 {
        return Some(AttributeKey::Field(f));
    }
    assert(segs[2] == parts@[2]@);
    if f == FieldName::Rotation {
        return None;
    }
    match Vec3PropName::from_str(parts[2]) {
        Ok(p) => Some(AttributeKey::Leaf(f, p)),
        Err(_) => None,
    }
}

} // verus!
