//! Application records and the store: atomic upsert and find.

use vstd::prelude::*;

use crate::securite::{copier_option, vue_option};

verus! {

/// A persisted application record. `creation` and `modification` are
/// timestamps in milliseconds.
#[derive(Clone, Debug)]
pub struct DocApplication {
    pub application_id: String,
    pub user_id: String,
    pub nom: Option<String>,
    pub actif: bool,
    pub creation: u64,
    pub modification: u64,
}

pub ghost struct DocApplicationVue {
    pub application_id: Seq<char>,
    pub user_id: Seq<char>,
    pub nom: Option<Seq<char>>,
    pub actif: bool,
    pub creation: u64,
    pub modification: u64,
}

impl DocApplication {
    /// A copy of the record.
    pub fn copie(&self) -> (r: DocApplication)
        ensures
            r@ == self@,
    {
        DocApplication {
            application_id: self.application_id.clone(),
            user_id: self.user_id.clone(),
            nom: copier_option(&self.nom),
            actif: self.actif,
            creation: self.creation,
            modification: self.modification,
        }
    }
}

impl View for DocApplication {
    type V = DocApplicationVue;

    open spec fn view(&self) -> DocApplicationVue {
        DocApplicationVue {
            application_id: self.application_id@,
            user_id: self.user_id@,
            nom: vue_option(self.nom),
            actif: self.actif,
            creation: self.creation,
            modification: self.modification,
        }
    }
}

/// Selects the record of an application; when `user_id` is set, only if
/// that user owns it.
#[derive(Clone, Debug)]
pub struct FiltreApplication {
    pub application_id: String,
    pub user_id: Option<String>,
}

/// An atomic update-or-insert of one application record. On a match of
/// the filter the name (when `modifier_nom`) and the active flag are set.
/// Otherwise a record is inserted with the filter's application id, the
/// owner `user_id`, and the creation time. The modification time is
/// touched either way.
#[derive(Clone, Debug)]
pub struct OperationUpsert {
    pub filtre: FiltreApplication,
    pub modifier_nom: bool,
    pub nom: Option<String>,
    pub actif: bool,
    pub user_id: String,
}

pub ghost struct OperationUpsertVue {
    pub application_id: Seq<char>,
    pub filtre_user_id: Option<Seq<char>>,
    pub modifier_nom: bool,
    pub nom: Option<Seq<char>>,
    pub actif: bool,
    pub user_id: Seq<char>,
}

impl View for OperationUpsert {
    type V = OperationUpsertVue;

    open spec fn view(&self) -> OperationUpsertVue {
        OperationUpsertVue {
            application_id: self.filtre.application_id@,
            filtre_user_id: vue_option(self.filtre.user_id),
            modifier_nom: self.modifier_nom,
            nom: vue_option(self.nom),
            actif: self.actif,
            user_id: self.user_id@,
        }
    }
}

/// Failure of a store operation.
#[derive(Clone, Debug)]
pub enum ErreurStockage {
    /// An insert would give a second record the same application id.
    CleDupliquee(String),
    /// Any other failure reported by a store.
    Autre(String),
}

/// No two records share an application id.
pub open spec fn ids_uniques(docs: Seq<DocApplicationVue>) -> bool {
    forall|i: int, j: int|
        0 <= i < docs.len() && 0 <= j < docs.len() && i != j ==> #[trigger] docs[i].application_id
            != #[trigger] docs[j].application_id
}

/// Index of the record with the given application id, or -1.
pub open spec fn position(docs: Seq<DocApplicationVue>, id: Seq<char>) -> int {
    if exists|i: int| 0 <= i < docs.len() && #[trigger] docs[i].application_id == id {
        choose|i: int| 0 <= i < docs.len() && #[trigger] docs[i].application_id == id
    } else {
        -1
    }
}

pub open spec fn filtre_accepte(d: DocApplicationVue, op: OperationUpsertVue) -> bool {
    &&& d.application_id == op.application_id
    &&& match op.filtre_user_id {
        Some(u) => d.user_id == u,
        None => true,
    }
}

pub open spec fn doc_mis_a_jour(
    d: DocApplicationVue,
    op: OperationUpsertVue,
    maintenant: u64,
) -> DocApplicationVue {
    DocApplicationVue {
        application_id: d.application_id,
        user_id: d.user_id,
        nom: if op.modifier_nom {
            op.nom
        } else {
            d.nom
        },
        actif: op.actif,
        creation: d.creation,
        modification: maintenant,
    }
}

pub open spec fn doc_insere(op: OperationUpsertVue, maintenant: u64) -> DocApplicationVue {
    DocApplicationVue {
        application_id: op.application_id,
        user_id: op.user_id,
        nom: if op.modifier_nom {
            op.nom
        } else {
            None
        },
        actif: op.actif,
        creation: maintenant,
        modification: maintenant,
    }
}

/// The records after an upsert at time `maintenant`, or `None` when the
/// upsert must fail: the application id is taken by a record that the
/// filter does not accept, so an insert would duplicate the key.
pub open spec fn resultat_upsert(
    docs: Seq<DocApplicationVue>,
    op: OperationUpsertVue,
    maintenant: u64,
) -> Option<Seq<DocApplicationVue>> {
    let p = position(docs, op.application_id);
    if p < 0 {
        Some(docs.push(doc_insere(op, maintenant)))
    } else if filtre_accepte(docs[p], op) {
        Some(docs.update(p, doc_mis_a_jour(docs[p], op, maintenant)))
    } else {
        None
    }
}

/// The records owned by `user_id`, in store order.
pub open spec fn docs_usager(docs: Seq<DocApplicationVue>, user_id: Seq<char>) -> Seq<
    DocApplicationVue,
>
    decreases docs.len(),
{
    if docs.len() == 0 {
        Seq::empty()
    } else {
        let avant = docs_usager(docs.drop_last(), user_id);
        if docs.last().user_id == user_id {
            avant.push(docs.last())
        } else {
            avant
        }
    }
}

/// The record of `application_id`, if `user_id` owns it.
pub open spec fn application_usager(
    docs: Seq<DocApplicationVue>,
    application_id: Seq<char>,
    user_id: Seq<char>,
) -> Option<DocApplicationVue> {
    let p = position(docs, application_id);
    if p >= 0 && docs[p].user_id == user_id {
        Some(docs[p])
    } else {
        None
    }
}

pub open spec fn vues(docs: Seq<DocApplication>) -> Seq<DocApplicationVue> {
    docs.map_values(|d: DocApplication| d@)
}

/// In a store whose ids are unique, the record at `i` is the one that
/// `position` finds.
pub proof fn lemme_position(docs: Seq<DocApplicationVue>, i: int)
    requires
        ids_uniques(docs),
        0 <= i < docs.len(),
    ensures
        position(docs, docs[i].application_id) == i,
{
    let id = docs[i].application_id;
    assert(docs[i].application_id == id);
    let p = position(docs, id);
    assert(0 <= p < docs.len() && docs[p].application_id == id);
}

/// The application records, with unique application ids. This in-memory
/// store has the semantics of the persistent store's atomic upsert and
/// find operations.
#[derive(Debug)]
pub struct MagasinApplications {
    docs: Vec<DocApplication>,
}

impl View for MagasinApplications {
    type V = Seq<DocApplicationVue>;

    closed spec fn view(&self) -> Seq<DocApplicationVue> {
        vues(self.docs@)
    }
}

impl MagasinApplications {
    pub open spec fn bien_forme(&self) -> bool {
        ids_uniques(self@)
    }

    pub fn new() -> (r: Self)
        ensures
            r@ == Seq::<DocApplicationVue>::empty(),
            r.bien_forme(),
    {
        let r = MagasinApplications { docs: Vec::new() };
        assert(r@ =~= Seq::<DocApplicationVue>::empty());
        r
    }

    pub fn nombre(&self) -> (r: usize)
        ensures
            r == self@.len(),
    {
        self.docs.len()
    }

    fn chercher(&self, application_id: &String) -> (r: Option<usize>)
        requires
            self.bien_forme(),
        ensures
            match r {
                Some(i) => i < self@.len() && self@[i as int].application_id == application_id@
                    && position(self@, application_id@) == i,
                None => position(self@, application_id@) == -1,
            },
    {
        let mut i: usize = 0;
        while i < self.docs.len()
            invariant
                i <= self.docs.len(),
                self.bien_forme(),
                self@.len() == self.docs@.len(),
                forall|k: int| 0 <= k < i ==> (#[trigger] self@[k]).application_id != application_id@,
            decreases self.docs.len() - i,
        {
            proof {
                assert(self@[i as int] == self.docs@[i as int]@);
            }
            if self.docs[i].application_id == *application_id {
                proof {
                    lemme_position(self@, i as int);
                }
                return Some(i);
            }
            i = i + 1;
        }
        proof {
            assert(!exists|k: int|
                0 <= k < self@.len() && #[trigger] self@[k].application_id == application_id@);
        }
        None
    }

    /// The record of `application_id`, if `user_id` owns it.
    pub fn trouver_application(&self, application_id: &String, user_id: &String) -> (r: Option<
        DocApplication,
    >)
        requires
            self.bien_forme(),
        ensures
            match r {
                Some(d) => application_usager(self@, application_id@, user_id@) == Some(d@),
                None => application_usager(self@, application_id@, user_id@) is None,
            },
    {
        match self.chercher(application_id) {
            Some(i) => {
                proof {
                    assert(self@[i as int] == self.docs@[i as int]@);
                }
                if self.docs[i].user_id == *user_id {
                    Some(self.docs[i].copie())
                } else {
                    None
                }
            },
            None => None,
        }
    }

    /// The records owned by `user_id`, in store order.
    pub fn trouver_par_usager(&self, user_id: &String) -> (r: Vec<DocApplication>)
        ensures
            vues(r@) == docs_usager(self@, user_id@),
    {
        let mut r: Vec<DocApplication> = Vec::new();
        let mut i: usize = 0;
        while i < self.docs.len()
            invariant
                i <= self.docs.len(),
                self@.len() == self.docs@.len(),
                vues(r@) == docs_usager(self@.subrange(0, i as int), user_id@),
            decreases self.docs.len() - i,
        {
            let ghost avant = r@;
            proof {
                assert(self@.subrange(0, i + 1).drop_last() =~= self@.subrange(0, i as int));
                assert(self@.subrange(0, i + 1).last() == self.docs@[i as int]@);
            }
            if self.docs[i].user_id == *user_id {
                r.push(self.docs[i].copie());
                proof {
                    assert(vues(r@) =~= vues(avant).push(self.docs@[i as int]@));
                }
            }
            i = i + 1;
        }
        proof {
            assert(self@.subrange(0, self@.len() as int) =~= self@);
        }
        r
    }

    /// Applies `op` at time `maintenant` as one atomic step and returns the
    /// record as it stands after it. On failure the store is unchanged.
    pub fn upsert(&mut self, op: &OperationUpsert, maintenant: u64) -> (r: Result<
        DocApplication,
        ErreurStockage,
    >)
        requires
            old(self).bien_forme(),
        ensures
            final(self).bien_forme(),
            match resultat_upsert(old(self)@, op@, maintenant) {
                Some(docs) => final(self)@ == docs && r is Ok && r->Ok_0@ == docs[position(
                    docs,
                    op@.application_id,
                )],
                None => {
                    &&& final(self)@ == old(self)@
                    &&& r matches Err(ErreurStockage::CleDupliquee(id)) && id@ == op@.application_id
                },
            },
    {
        let ghost docs0 = self@;
        match self.chercher(&op.filtre.application_id) {
            Some(i) => {
                proof {
                    assert(self@[i as int] == self.docs@[i as int]@);
                }
                let accepte = match &op.filtre.user_id {
                    Some(u) => self.docs[i].user_id == *u,
                    None => true,
                };
                if !accepte {
                    return Err(ErreurStockage::CleDupliquee(op.filtre.application_id.clone()));
                }
                let ancien = &self.docs[i];
                let nom = if op.modifier_nom {
                    copier_option(&op.nom)
                } else {
                    copier_option(&ancien.nom)
                };
                let doc = DocApplication {
                    application_id: ancien.application_id.clone(),
                    user_id: ancien.user_id.clone(),
                    nom,
                    actif: op.actif,
                    creation: ancien.creation,
                    modification: maintenant,
                };
                self.docs.set(i, doc.copie());
                proof {
                    let nouveaux = docs0.update(i as int, doc_mis_a_jour(docs0[i as int], op@, maintenant));
                    assert(self@ =~= nouveaux);
                    assert forall|a: int, b: int|
                        0 <= a < nouveaux.len() && 0 <= b < nouveaux.len() && a != b implies #[trigger] nouveaux[a].application_id
                            != #[trigger] nouveaux[b].application_id by {
                        assert(docs0[a].application_id != docs0[b].application_id);
                    }
                    lemme_position(nouveaux, i as int);
                }
                Ok(doc)
            },
            None => {
                let doc = DocApplication {
                    application_id: op.filtre.application_id.clone(),
                    user_id: op.user_id.clone(),
                    nom: if op.modifier_nom {
                        copier_option(&op.nom)
                    } else {
                        None
                    },
                    actif: op.actif,
                    creation: maintenant,
                    modification: maintenant,
                };
                self.docs.push(doc.copie());
                proof {
                    let nouveaux = docs0.push(doc_insere(op@, maintenant));
                    assert(self@ =~= nouveaux);
                    assert forall|a: int, b: int|
                        0 <= a < nouveaux.len() && 0 <= b < nouveaux.len() && a != b implies #[trigger] nouveaux[a].application_id
                            != #[trigger] nouveaux[b].application_id by {
                        if a < docs0.len() && b < docs0.len() {
                            assert(docs0[a].application_id != docs0[b].application_id);
                        } else if a < docs0.len() {
                            assert(docs0[a].application_id != op@.application_id);
                        } else {
                            assert(docs0[b].application_id != op@.application_id);
                        }
                    }
                    lemme_position(nouveaux, docs0.len() as int);
                }
                Ok(doc)
            },
        }
    }
}

} // verus!
