use vstd::prelude::*;
use crate::errors::{message_of, Error};
use crate::text::{str_eq, strip_prefix};

verus! {

/// The element tags that a voxel document may use.
#[derive(Clone, Copy, Debug, PartialEq, Eq, Structural)]
pub enum VoxelTagName {
    Body,
    Div,
}

/// The tag that a tag name denotes, if any.
pub open spec fn tag_of(s: Seq<char>) -> Option<VoxelTagName> {
    if s == "body"@ {
        Some(VoxelTagName::Body)
    } else if s == "div"@ {
        Some(VoxelTagName::Div)
    } else {
        None
    }
}

impl VoxelTagName {
    /// Reads a tag name; any name but `body` and `div` is an error.
    pub fn from_str(s: &str) -> (r: Result<VoxelTagName, Error>)
        ensures
            r is Ok <==> tag_of(s@) is Some,
            r is Ok ==> tag_of(s@) == Some(r->Ok_0),
            r is Err ==> r->Err_0 is VoxelTagNameParseError,
            r is Err ==> message_of(r->Err_0)@ == "unknown tag: "@ + s@,
    {
        if str_eq(s, "body") {
            Ok(VoxelTagName::Body)
        } else if str_eq(s, "div") {
            Ok(VoxelTagName::Div)
        } else {
            Err(Error::VoxelTagNameParseError(String::from_str("unknown tag: ").concat(s)))
        }
    }
}

/// The attribute namespaces: the first piece of a recognized attribute name.
#[derive(Clone, Copy, Debug, PartialEq, Eq, Hash, Structural)]
pub enum VoxelAttributeName {
    Transform,
}

/// The namespace that a name without its `data-` prefix denotes, if any.
pub open spec fn attribute_of(s: Seq<char>) -> Option<VoxelAttributeName> {
    if s == "transform"@ {
        Some(VoxelAttributeName::Transform)
    } else {
        None
    }
}

/// The namespace that a full dataset name (`data-transform`) denotes, if any.
pub open spec fn attribute_of_dataset(s: Seq<char>) -> Option<VoxelAttributeName> {
    if "data-"@.is_prefix_of(s) {
        attribute_of(s.skip(5))
    } else {
        None
    }
}

impl VoxelAttributeName {
    /// Reads a dataset name: the `data-` prefix, then a namespace name.
    pub fn from_dataset_str(s: &str) -> (r: Result<VoxelAttributeName, Error>)
        ensures
            r is Ok <==> attribute_of_dataset(s@) is Some,
            r is Ok ==> attribute_of_dataset(s@) == Some(r->Ok_0),
            r is Err ==> r->Err_0 is VoxelAttributeNameParseError,
            !"data-"@.is_prefix_of(s@) ==> r is Err && message_of(r->Err_0)@
                == "expected prefix `data-`"@,
            "data-"@.is_prefix_of(s@) && r is Err ==> message_of(r->Err_0)@ == "unknown attribute: "@
                + s@.skip(5),
    {
        proof {
            reveal_strlit("data-");
        }
        match strip_prefix(s, "data-") {
            Some(rest) => Self::from_str(rest),
            None => Err(Error::VoxelAttributeNameParseError(
                String::from_str("expected prefix `data-`"),
            )),
        }
    }

    /// Reads a namespace name without its prefix.
    pub fn from_str(s: &str) -> (r: Result<VoxelAttributeName, Error>)
        ensures
            r is Ok <==> attribute_of(s@) is Some,
            r is Ok ==> attribute_of(s@) == Some(r->Ok_0),
            r is Err ==> r->Err_0 is VoxelAttributeNameParseError,
            r is Err ==> message_of(r->Err_0)@ == "unknown attribute: "@ + s@,
    {
        if str_eq(s, "transform") {
            Ok(VoxelAttributeName::Transform)
        } else {
            Err(Error::VoxelAttributeNameParseError(
                String::from_str("unknown attribute: ").concat(s),
            ))
        }
    }
}

/// The fields of a transform: the second piece of a recognized attribute name.
#[derive(Clone, Copy, Debug, PartialEq, Eq, Structural)]
pub enum FieldName {
    Translation,
    Rotation,
    Scale,
}

/// The field that a name denotes, if any.
pub open spec fn field_of(s: Seq<char>) -> Option<FieldName> {
    if s == "translation"@ {
        Some(FieldName::Translation)
    } else if s == "rotation"@ {
        Some(FieldName::Rotation)
    } else if s == "scale"@ {
        Some(FieldName::Scale)
    } else {
        None
    }
}

impl FieldName {
    /// Reads a field name.
    pub fn from_str(s: &str) -> (r: Option<FieldName>)
        ensures
            r == field_of(s@),
    {
        if str_eq(s, "translation") {
            Some(FieldName::Translation)
        } else if str_eq(s, "rotation") {
            Some(FieldName::Rotation)
        } else if str_eq(s, "scale") {
            Some(FieldName::Scale)
        } else {
            None
        }
    }
}

/// The components of a vector: the third piece of a recognized attribute name.
#[derive(Clone, Copy, Debug, PartialEq, Eq, Structural)]
pub enum Vec3PropName {
    X,
    Y,
    Z,
}

/// The component that a name denotes, if any.
pub open spec fn prop_of(s: Seq<char>) -> Option<Vec3PropName> {
    if s == "x"@ {
        Some(Vec3PropName::X)
    } else if s == "y"@ {
        Some(Vec3PropName::Y)
    } else if s == "z"@ {
        Some(Vec3PropName::Z)
    } else {
        None
    }
}

impl Vec3PropName {
    /// Reads a vector component name; any name but `x`, `y` and `z` is an error.
    pub fn from_str(s: &str) -> (r: Result<Vec3PropName, Error>)
        ensures
            r is Ok <==> prop_of(s@) is Some,
            r is Ok ==> prop_of(s@) == Some(r->Ok_0),
            r is Err ==> r->Err_0 is VXStyleNameParseError,
            r is Err ==> message_of(r->Err_0)@ == "unknown Vec3 property: "@ + s@,
    {
        if str_eq(s, "x") {
            Ok(Vec3PropName::X)
        } else if str_eq(s, "y") {
            Ok(Vec3PropName::Y)
        } else if str_eq(s, "z") {
            Ok(Vec3PropName::Z)
        } else {
            Err(Error::VXStyleNameParseError(String::from_str("unknown Vec3 property: ").concat(s)))
        }
    }
}

} // verus!
