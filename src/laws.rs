use vstd::prelude::*;
use crate::key_path::{resolve_spec, AttributeKey};
use crate::names::{FieldName, Vec3PropName};
use crate::project::{
    apply_spec, component, project_spec, vector_field, with_vector_field, Attribute,
};
use crate::text::split_dots;
use crate::value::{default_transform, is_negative_bits, leaf_accepted, negatives_rejected, Transform, Vec3};

verus! {

/// With no attributes, an element gets the default transform.
pub proof fn lemma_no_attributes_give_default()
    ensures
        project_spec(Seq::<Attribute>::empty()) == default_transform(),
{
}

/// Applying any attribute a second time right after the first changes nothing.
pub proof fn lemma_projection_idempotent(attrs: Seq<Attribute>, a: Attribute)
    ensures
        project_spec(attrs.push(a).push(a)) == project_spec(attrs.push(a)),
{
    let s = attrs.push(a).push(a);
    assert(s.drop_last() =~= attrs.push(a));
    assert(attrs.push(a).drop_last() =~= attrs);
}

/// A whole-field attribute given after a component attribute of the same
/// field overrides it; given before it, the component attribute wins for its
/// component.
pub proof fn lemma_later_attribute_wins(
    attrs: Seq<Attribute>,
    leaf: Attribute,
    field: Attribute,
    f: FieldName,
    p: Vec3PropName,
    v: Vec3,
)
    requires
        resolve_spec(leaf.key@) == Some(AttributeKey::Leaf(f, p)),
        resolve_spec(field.key@) == Some(AttributeKey::Field(f)),
        field.value.vec3 == Some(v),
    ensures
        project_spec(attrs.push(leaf).push(field)) == apply_spec(project_spec(attrs), field),
        vector_field(project_spec(attrs.push(leaf).push(field)), f) == v,
        leaf.value.number is Some && leaf_accepted(f, leaf.value.number->0) ==> component(
            vector_field(project_spec(attrs.push(field).push(leaf)), f),
            p,
        ) == leaf.value.number->0,
{
    assert(f != FieldName::Rotation);
    assert(attrs.push(leaf).push(field).drop_last() =~= attrs.push(leaf));
    assert(attrs.push(leaf).drop_last() =~= attrs);
    let t = project_spec(attrs);
    let t1 = apply_spec(t, leaf);
    assert(project_spec(attrs.push(leaf)) == t1);
    assert(project_spec(attrs.push(leaf).push(field)) == apply_spec(t1, field));
    assert(apply_spec(t1, field) == with_vector_field(t1, f, v));
    assert(apply_spec(t, field) == with_vector_field(t, f, v));
    if f == FieldName::Scale {
        assert(with_vector_field(t1, f, v) == with_vector_field(t, f, v));
    } else {
        assert(with_vector_field(t1, f, v) == with_vector_field(t, f, v));
    }
    assert(attrs.push(field).push(leaf).drop_last() =~= attrs.push(field));
    assert(attrs.push(field).drop_last() =~= attrs);
}

/// Appending the same attributes to two lists that give the same transform
/// gives the same transform.
pub proof fn lemma_same_suffix(x: Seq<Attribute>, y: Seq<Attribute>, post: Seq<Attribute>)
    requires
        project_spec(x) == project_spec(y),
    ensures
        project_spec(x + post) == project_spec(y + post),
    decreases post.len(),
{
    if post.len() == 0 {
        assert(x + post =~= x);
        assert(y + post =~= y);
    } else {
        lemma_same_suffix(x, y, post.drop_last());
        assert((x + post).drop_last() =~= x + post.drop_last());
        assert((y + post).drop_last() =~= y + post.drop_last());
    }
}

/// An attribute that leaves every transform as it was can be removed from
/// anywhere in the list without changing the result.
pub proof fn lemma_inert_attribute_removable(
    pre: Seq<Attribute>,
    a: Attribute,
    post: Seq<Attribute>,
)
    requires
        forall|t: Transform| #[trigger] apply_spec(t, a) == t,
    ensures
        project_spec(pre.push(a) + post) == project_spec(pre + post),
{
    assert(pre.push(a).drop_last() =~= pre);
    assert(project_spec(pre.push(a)) == apply_spec(project_spec(pre), a));
    lemma_same_suffix(pre.push(a), pre, post);
}

/// A component attribute whose number is below zero, for a field that refuses
/// negatives, leaves the result as it would be without it, wherever it stands.
pub proof fn lemma_negative_component_ignored(
    pre: Seq<Attribute>,
    a: Attribute,
    post: Seq<Attribute>,
    f: FieldName,
    p: Vec3PropName,
    n: u32,
)
    requires
        resolve_spec(a.key@) == Some(AttributeKey::Leaf(f, p)),
        a.value.number == Some(n),
        is_negative_bits(n),
        negatives_rejected(f),
    ensures
        project_spec(pre.push(a) + post) == project_spec(pre + post),
{
    assert forall|t: Transform| #[trigger] apply_spec(t, a) == t by {}
    lemma_inert_attribute_removable(pre, a, post);
}

/// An attribute whose name is not recognized, wherever it stands, leaves the
/// result as it would be without it.
pub proof fn lemma_unrecognized_attribute_ignored(
    pre: Seq<Attribute>,
    a: Attribute,
    post: Seq<Attribute>,
)
    requires
        resolve_spec(a.key@) is None,
    ensures
        project_spec(pre.push(a) + post) == project_spec(pre + post),
{
    assert forall|t: Transform| #[trigger] apply_spec(t, a) == t by {}
    lemma_inert_attribute_removable(pre, a, post);
}

proof fn lemma_first_piece_is_prefix(s: Seq<char>)
    ensures
        split_dots(s).len() >= 1,
        split_dots(s)[0].is_prefix_of(s),
        split_dots(s).len() == 1 ==> split_dots(s)[0] == s,
    decreases s.len(),
{
    if s.len() > 0 {
        lemma_first_piece_is_prefix(s.drop_last());
        let p = split_dots(s.drop_last());
        if s.last() == '.' {
            assert(split_dots(s)[0] == p[0]);
        } else if p.len() > 1 {
            assert(split_dots(s)[0] == p[0]);
        } else {
            assert(s.drop_last().push(s.last()) =~= s);
            assert(split_dots(s)[0] =~= s);
        }
    }
}

/// A name that does not start with `data-` is never recognized.
pub proof fn lemma_unprefixed_name_unrecognized(key: Seq<char>)
    requires
        !"data-"@.is_prefix_of(key),
    ensures
        resolve_spec(key) is None,
{
    lemma_first_piece_is_prefix(key);
    let first = split_dots(key)[0];
    if "data-"@.is_prefix_of(first) {
        assert("data-"@.is_prefix_of(key));
    }
}

} // verus!
