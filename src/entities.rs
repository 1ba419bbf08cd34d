//! The affiliation entity as the repository façade hands it out, and the
//! requests that create or rename one.

use vstd::prelude::*;
use crate::ids::AffiliationId;

verus! {

/// An affiliation without its version.
#[derive(Debug, Clone)]
pub struct Affiliation {
    pub id: AffiliationId,
    pub name: String,
}

impl Affiliation {
    pub fn new(id: i64, name: String) -> (r: Affiliation)
        ensures
            r.id == AffiliationId(id),
            r.name@ == name@,
    {
        Affiliation { id: AffiliationId(id), name }
    }

    pub fn id(&self) -> (r: &AffiliationId)
        ensures
            *r == self.id,
    {
        &self.id
    }

    pub fn name(&self) -> (r: &str)
        ensures
            r@ == self.name@,
    {
        self.name.as_str()
    }
}

/// An affiliation as plain values.
#[derive(Debug, Clone)]
pub struct AffiliationDto {
    pub id: i64,
    pub name: String,
}

impl AffiliationDto {
    pub fn from_entity(entity: Affiliation) -> (r: AffiliationDto)
        ensures
            r.id == entity.id.0,
            r.name@ == entity.name@,
    {
        AffiliationDto { id: entity.id.0, name: entity.name }
    }
}

/// A request to create an affiliation.
#[derive(Debug, Clone)]
pub struct CreateAffiliation {
    pub id: i64,
    pub name: String,
}

/// A request to rename an affiliation.
#[derive(Debug, Clone)]
pub struct UpdateAffiliation {
    pub id: i64,
    pub name: String,
}

} // verus!
