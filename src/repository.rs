//! The per-entity repository capability set, and the interactors that
//! serve create, rename and delete requests through it.

use vstd::prelude::*;
use crate::version::{UpdateSignature, is_minute_stamp};
use crate::ids::AffiliationId;
use crate::objects::AffiliationObject;
use crate::record::LatestEq;
use crate::entities::{Affiliation, AffiliationDto, CreateAffiliation, UpdateAffiliation};
use crate::store::{Database, EntityKind, RepositoryError, livers_refer, row_with_name};
use crate::table::{has_key, index_of, lookup};

verus! {

/// The entity of a stored affiliation row.
pub open spec fn entity_of(a: AffiliationObject) -> Affiliation {
    Affiliation { id: a.affiliation_id, name: a.name }
}

/// What a repository of affiliations can do. Each write is atomic: when it
/// fails, the stored rows are unchanged.
pub trait AffiliationRepository: Sized {
    /// The stored affiliation rows.
    spec fn rows(&self) -> Seq<AffiliationObject>;

    spec fn valid(&self) -> bool;

    /// The repository refuses to delete the affiliation stored under `id`,
    /// because other stored rows still refer to it.
    spec fn refuses_delete(&self, id: i64) -> bool;

    /// Stores a new affiliation with the given version.
    fn create(&mut self, create: &Affiliation, version: UpdateSignature) -> (r: Result<
        (),
        RepositoryError,
    >)
        requires
            old(self).valid(),
        ensures
            final(self).valid(),
            r is Ok <==> !has_key(old(self).rows(), create.id.0),
            r is Ok ==> final(self).rows() == old(self).rows().push(
                AffiliationObject { affiliation_id: create.id, name: create.name, version },
            ),
            r is Err ==> r == Err::<(), RepositoryError>(
                RepositoryError::AlreadyExists { entity: EntityKind::Affiliation, id: create.id.0 },
            ) && final(self).rows() == old(self).rows(),
    ;

    /// Replaces the name of the stored affiliation; its version stays.
    fn update(&mut self, update: &Affiliation) -> (r: Result<(), RepositoryError>)
        requires
            old(self).valid(),
        ensures
            final(self).valid(),
            r is Ok <==> has_key(old(self).rows(), update.id.0),
            r is Ok ==> final(self).rows() == old(self).rows().update(
                index_of(old(self).rows(), update.id.0),
                AffiliationObject {
                    name: update.name,
                    ..old(self).rows()[index_of(old(self).rows(), update.id.0)]
                },
            ),
            r is Err ==> r == Err::<(), RepositoryError>(
                RepositoryError::NotFound { entity: EntityKind::Affiliation, id: update.id.0 },
            ) && final(self).rows() == old(self).rows(),
    ;

    /// Removes the stored affiliation; it may refuse while others refer to it.
    fn delete(&mut self, delete: &AffiliationId) -> (r: Result<(), RepositoryError>)
        requires
            old(self).valid(),
        ensures
            final(self).valid(),
            !has_key(old(self).rows(), delete.0) ==> r == Err::<(), RepositoryError>(
                RepositoryError::NotFound { entity: EntityKind::Affiliation, id: delete.0 },
            ),
            has_key(old(self).rows(), delete.0) && !old(self).refuses_delete(delete.0) ==> r is Ok,
            r is Ok ==> has_key(old(self).rows(), delete.0) && final(self).rows() == old(
                self,
            ).rows().remove(index_of(old(self).rows(), delete.0)),
            r is Err ==> final(self).rows() == old(self).rows(),
    ;

    fn fetch_all(&self) -> (r: Vec<Affiliation>)
        ensures
            r@.len() == self.rows().len(),
            forall|i: int| 0 <= i < r@.len() ==> #[trigger] r@[i] == entity_of(self.rows()[i]),
    ;

    fn fetch_from_id(&self, id: &AffiliationId) -> (r: Option<Affiliation>)
        requires
            self.valid(),
        ensures
            match lookup(self.rows(), id.0) {
                Some(a) => r == Some(entity_of(a)),
                None => r is None,
            },
    ;

    /// The first stored affiliation named exactly `name`.
    fn fetch_from_name(&self, name: &str) -> (r: Option<Affiliation>)
        ensures
            match row_with_name(self.rows(), name@) {
                Some(i) => r == Some(entity_of(self.rows()[i])),
                None => r is None,
            },
    ;
}

fn entity(a: AffiliationObject) -> (r: Affiliation)
    ensures
        r == entity_of(a),
{
    Affiliation { id: a.affiliation_id, name: a.name }
}

impl AffiliationRepository for Database {
    open spec fn rows(&self) -> Seq<AffiliationObject> {
        self@.affiliations
    }

    open spec fn valid(&self) -> bool {
        self.wf()
    }

    open spec fn refuses_delete(&self, id: i64) -> bool {
        livers_refer(self@.livers, id)
    }

    fn create(&mut self, create: &Affiliation, version: UpdateSignature) -> (r: Result<
        (),
        RepositoryError,
    >) {
        let request = CreateAffiliation { id: create.id.0, name: create.name.clone() };
        match self.create_affiliation(request, version) {
            Ok(_) => Ok(()),
            Err(e) => Err(e),
        }
    }

    fn update(&mut self, update: &Affiliation) -> (r: Result<(), RepositoryError>) {
        let request = UpdateAffiliation { id: update.id.0, name: update.name.clone() };
        match self.update_affiliation(request) {
            Ok(_) => Ok(()),
            Err(e) => Err(e),
        }
    }

    fn delete(&mut self, delete: &AffiliationId) -> (r: Result<(), RepositoryError>) {
        self.delete_affiliation(delete.0)
    }

    fn fetch_all(&self) -> (r: Vec<Affiliation>) {
        let rows = self.fetch_all_affiliations();
        let mut out: Vec<Affiliation> = Vec::new();
        let mut i: usize = 0;
        while i < rows.len()
            invariant
                i <= rows@.len(),
                rows@ == self@.affiliations,
                out@.len() == i,
                forall|j: int| 0 <= j < i ==> #[trigger] out@[j] == entity_of(rows@[j]),
            decreases rows@.len() - i,
        {
            out.push(entity(rows[i].duplicate()));
            i = i + 1;
        }
        out
    }

    fn fetch_from_id(&self, id: &AffiliationId) -> (r: Option<Affiliation>) {
        match self.fetch_affiliation_by_id(id.0) {
            Some(a) => Some(entity(a)),
            None => None,
        }
    }

    fn fetch_from_name(&self, name: &str) -> (r: Option<Affiliation>) {
        match self.fetch_affiliation_by_name(name) {
            Some(a) => Some(entity(a)),
            None => None,
        }
    }
}

/// Serves requests to create an affiliation.
pub struct CreateInteractor<R> {
    pub affiliation_repo: R,
}

/// Serves requests to rename an affiliation.
pub struct UpdateInteractor<R> {
    pub affiliation_repo: R,
}

/// Serves requests to delete an affiliation.
pub struct DeleteInteractor<R> {
    pub affiliation_repo: R,
}

impl<R: AffiliationRepository> CreateInteractor<R> {
    pub fn new(repo: R) -> (r: CreateInteractor<R>)
        ensures
            r.affiliation_repo == repo,
    {
        CreateInteractor { affiliation_repo: repo }
    }

    /// Creates the affiliation, versioned with the current minute (or the
    /// irregular version 1 when the clock cannot be read).
    pub fn create(&mut self, create: CreateAffiliation) -> (r: Result<AffiliationDto, RepositoryError>)
        requires
            old(self).affiliation_repo.valid(),
        ensures
            final(self).affiliation_repo.valid(),
            r is Ok <==> !has_key(old(self).affiliation_repo.rows(), create.id),
            r matches Ok(dto) ==> dto.id == create.id && dto.name@ == create.name@ && ({
                let before = old(self).affiliation_repo.rows();
                let after = final(self).affiliation_repo.rows();
                &&& after.len() == before.len() + 1
                &&& after.drop_last() == before
                &&& after.last().affiliation_id == AffiliationId(create.id)
                &&& after.last().name@ == create.name@
                &&& after.last().version.0 == 1 || (after.last().version.0 >= 2
                    && is_minute_stamp(after.last().version.0))
            }),
            r is Err ==> r == Err::<AffiliationDto, RepositoryError>(
                RepositoryError::AlreadyExists { entity: EntityKind::Affiliation, id: create.id },
            ) && final(self).affiliation_repo.rows() == old(self).affiliation_repo.rows(),
    {
        let aff = Affiliation::new(create.id, create.name);
        let version = UpdateSignature::now_or_irregular();
        match self.affiliation_repo.create(&aff, version) {
            Ok(()) => {
                assert(self.affiliation_repo.rows().drop_last() =~= old(
                    self,
                ).affiliation_repo.rows());
                Ok(AffiliationDto::from_entity(aff))
            },
            Err(e) => Err(e),
        }
    }
}

impl<R: AffiliationRepository> UpdateInteractor<R> {
    pub fn new(repo: R) -> (r: UpdateInteractor<R>)
        ensures
            r.affiliation_repo == repo,
    {
        UpdateInteractor { affiliation_repo: repo }
    }

    /// Renames the affiliation stored under `update.id`.
    pub fn update(&mut self, update: UpdateAffiliation) -> (r: Result<AffiliationDto, RepositoryError>)
        requires
            old(self).affiliation_repo.valid(),
        ensures
            final(self).affiliation_repo.valid(),
            r is Ok <==> has_key(old(self).affiliation_repo.rows(), update.id),
            r matches Ok(dto) ==> dto.id == update.id && dto.name@ == update.name@ && ({
                let before = old(self).affiliation_repo.rows();
                let i = index_of(before, update.id);
                final(self).affiliation_repo.rows() == before.update(
                    i,
                    AffiliationObject { name: update.name, ..before[i] },
                )
            }),
            r is Err ==> r == Err::<AffiliationDto, RepositoryError>(
                RepositoryError::NotFound { entity: EntityKind::Affiliation, id: update.id },
            ) && final(self).affiliation_repo.rows() == old(self).affiliation_repo.rows(),
    {
        let id = AffiliationId::new(update.id);
        match self.affiliation_repo.fetch_from_id(&id) {
            None => Err(RepositoryError::NotFound { entity: EntityKind::Affiliation, id: update.id }),
            Some(target) => {
                let renamed = Affiliation { name: update.name, ..target };
                match self.affiliation_repo.update(&renamed) {
                    Ok(()) => Ok(AffiliationDto::from_entity(renamed)),
                    Err(e) => Err(e),
                }
            },
        }
    }
}

impl<R: AffiliationRepository> DeleteInteractor<R> {
    pub fn new(repo: R) -> (r: DeleteInteractor<R>)
        ensures
            r.affiliation_repo == repo,
    {
        DeleteInteractor { affiliation_repo: repo }
    }

    /// Deletes the affiliation stored under `delete`.
    pub fn delete(&mut self, delete: i64) -> (r: Result<(), RepositoryError>)
        requires
            old(self).affiliation_repo.valid(),
        ensures
            final(self).affiliation_repo.valid(),
            !has_key(old(self).affiliation_repo.rows(), delete) ==> r == Err::<(), RepositoryError>(
                RepositoryError::NotFound { entity: EntityKind::Affiliation, id: delete },
            ),
            has_key(old(self).affiliation_repo.rows(), delete)
                && !old(self).affiliation_repo.refuses_delete(delete) ==> r is Ok,
            r is Ok ==> final(self).affiliation_repo.rows() == old(
                self,
            ).affiliation_repo.rows().remove(index_of(old(self).affiliation_repo.rows(), delete)),
            r is Err ==> final(self).affiliation_repo.rows() == old(self).affiliation_repo.rows(),
    {
        let id = AffiliationId::new(delete);
        self.affiliation_repo.delete(&id)
    }
}

} // verus!
