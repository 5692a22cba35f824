//! Schema-level concept type records decoded from server answers.
use vstd::prelude::*;

verus! {

/// Annotations are used to specify extra schema constraints.
#[derive(Clone, Copy, Debug, PartialEq, Eq, Hash)]
pub enum Annotation {
    Key,
    Unique,
}

/// The type of the values that instances of an attribute type hold.
#[derive(Clone, Debug, PartialEq, Eq)]
pub enum ValueType {
    Boolean,
    Integer,
    Double,
    Decimal,
    String,
    Date,
    Datetime,
    DatetimeTZ,
    Duration,
    Struct(String),
}

/// Entity types represent the classification of independent objects in the data model
/// of the business domain.
#[derive(Clone, Debug, PartialEq, Eq)]
pub struct EntityType {
    pub label: String,
}

/// Relation types represent relationships between types. Relation types have roles.
#[derive(Clone, Debug, PartialEq, Eq)]
pub struct RelationType {
    pub label: String,
}

/// Attribute types represent properties that other types can own. The value type,
/// where known, is fixed for every instance of the attribute type.
#[derive(Clone, Debug, PartialEq, Eq)]
pub struct AttributeType {
    pub label: String,
    pub value_type: Option<ValueType>,
}

/// Roles are internal types used by relations; a role type is identified by its
/// label scoped to the relation type that owns it.
#[derive(Clone, Debug, PartialEq, Eq)]
pub struct RoleType {
    pub label: ScopedLabel,
}

/// A label relative to a scope: `scope:name`.
#[derive(Clone, Debug, PartialEq, Eq)]
pub struct ScopedLabel {
    pub scope: String,
    pub name: String,
}

#[derive(Clone, Debug, PartialEq, Eq)]
pub enum ThingType {
    EntityType(EntityType),
    RelationType(RelationType),
    AttributeType(AttributeType),
}

impl ThingType {
    /// The label of the type, whatever its category.
    pub open spec fn spec_label(&self) -> Seq<char> {
        match self {
            ThingType::EntityType(t) => t.label@,
            ThingType::RelationType(t) => t.label@,
            ThingType::AttributeType(t) => t.label@,
        }
    }

    /// Retrieves the unique label of the `ThingType`.
    pub fn label(&self) -> (r: &str)
        ensures
            r@ == self.spec_label(),
    {
        match self {
            ThingType::EntityType(entity_type) => entity_type.label.as_str(),
            ThingType::RelationType(relation_type) => relation_type.label.as_str(),
            ThingType::AttributeType(attribute_type) => attribute_type.label.as_str(),
        }
    }
}

/// The separator between the scope and the name of a scoped label.
pub open spec fn separator() -> Seq<char> {
    seq![':']
}

impl ScopedLabel {
    /// The text form of the label: the scope, a colon, then the name.
    pub open spec fn spec_text(&self) -> Seq<char> {
        self.scope@ + separator() + self.name@
    }

    /// Writes the label as `scope:name`.
    pub fn to_string(&self) -> (r: String)
        ensures
            r@ == self.spec_text(),
    {
        let mut r = self.scope.clone();
        r.append(":");
        proof {
            reveal_strlit(":");
        }
        r.append(self.name.as_str());
        r
    }
}

} // verus!
