//! The strictly typed resource object, the capability its attribute type
//! supplies, and the fallible upgrade conversions into it.

use vstd::prelude::*;
use crate::links::{Link, LinkV, Links};
use crate::meta::Meta;
use crate::object::conversion_error::{
    AttributesError, ObjectConversionError, ObjectConversionErrorV,
};
use crate::object::generic::{GenericObject, GenericObjectV};
use crate::object::identifier::{Identifier, IdentifierV};
use crate::relationships::{Relationship, RelationshipV, Relationships};
use crate::string_map::{StringMap, entries_insert};
use crate::value::{JsonValue, EntriesV};
use crate::codec::{DeepClone, opt_view};

verus! {

/// Strictly typed attributes of a resource object: the capability a type
/// must supply to declare its type tag, optional default links, and the
/// structural conversion to and from a flat attribute mapping.
pub trait Attributes: Sized {
    /// The stable type tag of resources carrying these attributes. A
    /// verifying implementation overrides this; left alone it is an
    /// unspecified string.
    open spec fn spec_kind() -> Seq<char> {
        arbitrary()
    }

    /// The default links of a resource with a given id. A verifying
    /// implementation overrides this.
    open spec fn spec_links(id: Seq<char>) -> Option<Seq<(Seq<char>, LinkV)>> {
        arbitrary()
    }

    /// Whether an attribute value and a flat mapping stand for the same
    /// data: the relation that serialization and re-materialization are
    /// held to. A verifying implementation overrides this.
    open spec fn maps_to(&self, m: EntriesV) -> bool {
        arbitrary()
    }

    /// The `type` field of the resulting resource object; stable across
    /// calls.
    fn kind() -> (r: String)
        ensures
            r@ == Self::spec_kind(),
    ;

    /// Called at construction with the intended id, to allow default links
    /// to be provided.
    fn links(id: &str) -> (r: Option<Links>)
        ensures
            opt_view(r) == Self::spec_links(id@),
    ;

    /// Serializes the attributes into a flat mapping standing for the same
    /// data.
    fn to_map(&self) -> (m: StringMap<JsonValue>)
        ensures
            self.maps_to(m@),
    ;

    /// Re-materializes attributes from a flat mapping: it succeeds exactly
    /// where some attribute value stands for the mapping.
    fn from_map(m: &StringMap<JsonValue>) -> (r: Result<Self, AttributesError>)
        ensures
            match r {
                Ok(a) => a.maps_to(m@),
                Err(_) => forall|a: Self| !a.maps_to(m@),
            },
    ;
}

/// A resource object whose attributes are strictly typed; the type tag is
/// carried by the attribute type rather than stored.
#[derive(Debug, PartialEq)]
pub struct ResourceObject<A> {
    /// The object identifier which together with `A::kind` must identify a
    /// unique resource.
    pub id: String,
    /// Attributes representing some of the resource's data.
    pub attributes: Option<A>,
    /// Describes relationships between this resource and others.
    pub relationships: Option<Relationships>,
    /// Contains links relating to the resource.
    pub links: Option<Links>,
    /// Contains non-standard meta information.
    pub meta: Option<Meta>,
}

/// The specification-level value of a typed resource object. The attribute
/// value itself stands in the view: what it means on the wire is given by
/// the attribute type's `maps_to` relation.
pub struct ResourceObjectV<A> {
    pub id: Seq<char>,
    pub attributes: Option<A>,
    pub relationships: Option<Seq<(Seq<char>, RelationshipV)>>,
    pub links: Option<Seq<(Seq<char>, LinkV)>>,
    pub meta: Option<EntriesV>,
}

impl<A> View for ResourceObject<A> {
    type V = ResourceObjectV<A>;

    open spec fn view(&self) -> ResourceObjectV<A> {
        ResourceObjectV {
            id: self.id@,
            attributes: match self.attributes {
                Option::Some(ref a) => Some(*a),
                Option::None => None,
            },
            relationships: opt_view(self.relationships),
            links: opt_view(self.links),
            meta: opt_view(self.meta),
        }
    }
}

impl<A: Attributes> ResourceObject<A> {
    /// A resource with the given id and attributes; the links are the
    /// attribute type's default links for that id, everything else is
    /// absent.
    pub fn new(id: String, attributes: Option<A>) -> (r: Self)
        ensures
            r@ == (ResourceObjectV {
                id: id@,
                attributes,
                relationships: None,
                links: A::spec_links(id@),
                meta: None,
            }),
    {
        Self { links: A::links(id.as_str()), id, attributes, relationships: None, meta: None }
    }

    /// Inserts an entry into the relationship map, creating the map if it
    /// does not exist.
    pub fn add_relationship(&mut self, name: String, relationship: Relationship)
        ensures
            final(self)@ == (ResourceObjectV {
                relationships: Some(
                    entries_insert(
                        match old(self)@.relationships {
                            Option::Some(rs) => rs,
                            Option::None => Seq::empty(),
                        },
                        name@,
                        relationship@,
                    ),
                ),
                ..old(self)@
            }),
    {
        if let Some(r) = &mut self.relationships {
            r.insert(name, relationship);
        } else {
            let mut r = Relationships::new();
            r.insert(name, relationship);
            self.relationships = Some(r);
        }
    }

    /// Inserts an entry into the link map, creating the map if it does not
    /// exist.
    pub fn add_link(&mut self, name: String, link: Link)
        ensures
            final(self)@ == (ResourceObjectV {
                links: Some(
                    entries_insert(
                        match old(self)@.links {
                            Option::Some(ls) => ls,
                            Option::None => Seq::empty(),
                        },
                        name@,
                        link@,
                    ),
                ),
                ..old(self)@
            }),
    {
        if let Some(l) = &mut self.links {
            l.insert(name, link);
        } else {
            let mut l = Links::new();
            l.insert(name, link);
            self.links = Some(l);
        }
    }
}

/// The typed resource a generic object upgrades to, where the upgrade
/// succeeds: the type tag must match and any attribute mapping must
/// re-materialize.
/// Whether a generic object is a downgrade of a typed resource: id,
/// relationships, links and metadata agree, the stored tag is the
/// attribute type's, and any attribute value stands for the stored flat
/// mapping.
pub open spec fn downgrade_rel<A: Attributes>(r: ResourceObjectV<A>, g: GenericObjectV) -> bool {
    &&& g.id == r.id
    &&& g.kind == A::spec_kind()
    &&& g.relationships == r.relationships
    &&& g.links == r.links
    &&& g.meta == r.meta
    &&& match (r.attributes, g.attributes) {
        (Option::None, Option::None) => true,
        (Option::Some(a), Option::Some(m)) => a.maps_to(m),
        _ => false,
    }
}

/// Whether a typed resource is an upgrade of a generic object: the stored
/// tag is the attribute type's, id, relationships, links and metadata are
/// copied, and the attribute value stands for the stored flat mapping.
pub open spec fn upgrade_rel<A: Attributes>(g: GenericObjectV, r: ResourceObjectV<A>) -> bool {
    &&& g.kind == A::spec_kind()
    &&& r.id == g.id
    &&& r.relationships == g.relationships
    &&& r.links == g.links
    &&& r.meta == g.meta
    &&& match (g.attributes, r.attributes) {
        (Option::None, Option::None) => true,
        (Option::Some(m), Option::Some(a)) => a.maps_to(m),
        _ => false,
    }
}

/// The typed resource an identifier upgrades to, where the type tag
/// matches: only id and metadata carry over.
pub open spec fn spec_upgrade_identifier<A: Attributes>(v: IdentifierV) -> ResourceObjectV<A> {
    ResourceObjectV { id: v.id, attributes: None, relationships: None, links: None, meta: v.meta }
}

impl<A: Attributes> ResourceObject<A> {
    /// Upgrades a generic object, consuming it: all-or-nothing, with a
    /// type-mismatch error carrying both tags, or a materialization error
    /// where no attribute value stands for the stored mapping.
    pub fn try_from_generic(go: GenericObject) -> (r: Result<Self, ObjectConversionError>)
        ensures
            match r {
                Ok(ro) => upgrade_rel::<A>(go@, ro@),
                Err(e) => {
                    &&& (go@.kind != A::spec_kind() ==> e@
                        == ObjectConversionErrorV::ImproperType {
                        expected: A::spec_kind(),
                        got: go@.kind,
                    })
                    &&& (go@.kind == A::spec_kind() ==> {
                        &&& e@ is FailedDeserialization
                        &&& go@.attributes matches Option::Some(m) && (forall|a: A|
                            !(#[trigger] a.maps_to(m)))
                    })
                },
            },
    {
        let tag = A::kind();
        if !crate::value::str_eq(go.kind.as_str(), tag.as_str()) {
            return Err(ObjectConversionError::ImproperType { expected: tag, got: go.kind });
        }
        let attributes: Option<A> = if let Some(m) = &go.attributes {
            match A::from_map(m) {
                Ok(a) => Some(a),
                Err(e) => {
                    return Err(ObjectConversionError::FailedDeserialization(e));
                },
            }
        } else {
            None
        };
        Ok(
            Self {
                id: go.id,
                attributes,
                relationships: go.relationships,
                links: go.links,
                meta: go.meta,
            },
        )
    }

    /// Upgrades a generic object, copying it.
    pub fn try_from_generic_ref(go: &GenericObject) -> (r: Result<Self, ObjectConversionError>)
        ensures
            match r {
                Ok(ro) => upgrade_rel::<A>(go@, ro@),
                Err(e) => {
                    &&& (go@.kind != A::spec_kind() ==> e@
                        == ObjectConversionErrorV::ImproperType {
                        expected: A::spec_kind(),
                        got: go@.kind,
                    })
                    &&& (go@.kind == A::spec_kind() ==> {
                        &&& e@ is FailedDeserialization
                        &&& go@.attributes matches Option::Some(m) && (forall|a: A|
                            !(#[trigger] a.maps_to(m)))
                    })
                },
            },
    {
        Self::try_from_generic(go.deep_clone())
    }

    /// Upgrades an identifier, consuming it: only the type tag can fail.
    pub fn try_from_identifier(id: Identifier) -> (r: Result<Self, ObjectConversionError>)
        ensures
            match r {
                Ok(ro) => id@.kind == A::spec_kind() && ro@ == spec_upgrade_identifier::<A>(id@),
                Err(e) => id@.kind != A::spec_kind() && e@
                    == ObjectConversionErrorV::ImproperType {
                    expected: A::spec_kind(),
                    got: id@.kind,
                },
            },
    {
        let tag = A::kind();
        if !crate::value::str_eq(id.kind.as_str(), tag.as_str()) {
            return Err(ObjectConversionError::ImproperType { expected: tag, got: id.kind });
        }
        Ok(Self { id: id.id, attributes: None, relationships: None, links: None, meta: id.meta })
    }

    /// Upgrades an identifier, copying it.
    pub fn try_from_identifier_ref(id: &Identifier) -> (r: Result<Self, ObjectConversionError>)
        ensures
            match r {
                Ok(ro) => id@.kind == A::spec_kind() && ro@ == spec_upgrade_identifier::<A>(id@),
                Err(e) => id@.kind != A::spec_kind() && e@
                    == ObjectConversionErrorV::ImproperType {
                    expected: A::spec_kind(),
                    got: id@.kind,
                },
            },
    {
        Self::try_from_identifier(id.deep_clone())
    }
}

/// Law: downgrading is total and lossless on the shared fields. Shrinking
/// a typed resource through its generic form preserves id, type tag and
/// metadata exactly; relationships and links survive the generic hop and
/// are dropped only at the identity hop.
pub proof fn lemma_downgrade_lossless<A: Attributes>(r: ResourceObjectV<A>, g: GenericObjectV)
    requires
        downgrade_rel::<A>(r, g),
    ensures
        crate::object::identifier::spec_identifier_of_generic(g)
            == crate::object::identifier::spec_identifier_of_resource::<A>(r),
        g.id == r.id,
        g.kind == A::spec_kind(),
        g.meta == r.meta,
        g.relationships == r.relationships,
        g.links == r.links,
        crate::object::identifier::spec_identifier_of_resource::<A>(r).id == r.id,
        crate::object::identifier::spec_identifier_of_resource::<A>(r).kind == A::spec_kind(),
        crate::object::identifier::spec_identifier_of_resource::<A>(r).meta == r.meta,
{
}

/// Law: upgrading is the left inverse of downgrading, for any attribute
/// type whose materialization is the identity round-trip through the flat
/// mapping: where two attribute values stand for one mapping only when
/// they are equal, upgrading a downgraded resource gives the resource
/// back.
pub proof fn lemma_upgrade_after_downgrade<A: Attributes>(
    r: ResourceObjectV<A>,
    g: GenericObjectV,
    r2: ResourceObjectV<A>,
)
    requires
        downgrade_rel::<A>(r, g),
        upgrade_rel::<A>(g, r2),
        forall|a1: A, a2: A, m: EntriesV|
            #![trigger a1.maps_to(m), a2.maps_to(m)]
            a1.maps_to(m) && a2.maps_to(m) ==> a1 == a2,
    ensures
        r2 == r,
{
}

/// Law: a mismatched tag always fails the upgrade and never yields a
/// partial object: no typed resource is an upgrade of a generic object
/// whose stored tag is not the attribute type's.
pub proof fn lemma_tag_mismatch_fails<A: Attributes>(g: GenericObjectV, r: ResourceObjectV<A>)
    requires
        g.kind != A::spec_kind(),
    ensures
        !upgrade_rel::<A>(g, r),
{
}

} // verus!
