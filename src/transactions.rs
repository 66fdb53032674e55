//! The transactions of the domain and their idempotent application.

use vstd::prelude::*;

use crate::magasin::{
    DocApplicationVue, ErreurStockage, FiltreApplication, MagasinApplications, OperationUpsert,
    OperationUpsertVue, doc_insere, doc_mis_a_jour, filtre_accepte, ids_uniques, lemme_position,
    position, resultat_upsert,
};
use crate::gestionnaire::{Aiguillage, aiguillage_valide, aiguiller_categorie};
use crate::securite::{Categorie, ContexteConfiance, copier_option, vue_option};

verus! {

/// Content of a transaction that saves an application.
#[derive(Clone, Debug)]
pub struct TransactionSauvegarderApplication {
    pub application_id: String,
    pub nom: Option<String>,
    pub actif: Option<bool>,
}

/// The decoded content of a transaction, by action.
#[derive(Clone, Debug)]
pub enum ContenuTransaction {
    CreerNouvelleApplication,
    SauvegarderApplication(TransactionSauvegarderApplication),
}

/// A transaction to apply: its id, the user id of the certificate that
/// signed it (if any), and its content.
#[derive(Clone, Debug)]
pub struct TransactionApplication {
    pub uuid_transaction: String,
    pub user_id: Option<String>,
    pub contenu: ContenuTransaction,
}

#[derive(Clone, Debug)]
pub enum ErreurTransaction {
    /// The certificate of the transaction names no user.
    UserIdAbsent,
    /// The store operation failed.
    Stockage(ErreurStockage),
}

/// Acknowledgement of an applied transaction.
#[derive(Clone, Debug)]
pub struct ReponseTransaction {
    pub ok: bool,
    pub application_id: String,
}

/// Creation: keyed by the transaction id; the new application starts
/// inactive and belongs to the signer.
pub open spec fn operation_creer(uuid_transaction: Seq<char>, user_id: Seq<char>) -> OperationUpsertVue {
    OperationUpsertVue {
        application_id: uuid_transaction,
        filtre_user_id: None,
        modifier_nom: false,
        nom: None,
        actif: false,
        user_id,
    }
}

/// Save: keyed by the application id and the signer, so that nobody
/// overwrites another user's record; `actif` defaults to false.
pub open spec fn operation_sauvegarder(
    user_id: Seq<char>,
    contenu: TransactionSauvegarderApplication,
) -> OperationUpsertVue {
    OperationUpsertVue {
        application_id: contenu.application_id@,
        filtre_user_id: Some(user_id),
        modifier_nom: true,
        nom: vue_option(contenu.nom),
        actif: match contenu.actif {
            Some(b) => b,
            None => false,
        },
        user_id,
    }
}

/// The store operation of a transaction, or `None` when its certificate
/// names no user.
pub open spec fn operation_transaction(t: TransactionApplication) -> Option<OperationUpsertVue> {
    match t.user_id {
        None => None,
        Some(u) => Some(
            match t.contenu {
                ContenuTransaction::CreerNouvelleApplication => operation_creer(
                    t.uuid_transaction@,
                    u@,
                ),
                ContenuTransaction::SauvegarderApplication(c) => operation_sauvegarder(u@, c),
            },
        ),
    }
}

/// An operation whose owner filter, when there is one, is its own owner.
pub open spec fn operation_coherente(op: OperationUpsertVue) -> bool {
    op.filtre_user_id is Some ==> op.filtre_user_id == Some(op.user_id)
}

/// Authorizes and routes a transaction. Transactions have been vetted by a
/// command already, so only the secure exchange lets them in by level.
pub fn consommer_transaction(
    ctx: &ContexteConfiance,
    domaine: &str,
    action: &str,
    correlation_id: &Option<String>,
) -> (r: Aiguillage)
    ensures
        aiguillage_valide(r, *ctx, Categorie::Transaction, domaine@, action@, *correlation_id),
{
    aiguiller_categorie(ctx, Categorie::Transaction, domaine, action, correlation_id)
}

pub fn transaction_creer_nouvelle_application(
    uuid_transaction: &String,
    user_id: &Option<String>,
) -> (r: Result<OperationUpsert, ErreurTransaction>)
    ensures
        match user_id {
            None => r matches Err(ErreurTransaction::UserIdAbsent),
            Some(u) => r is Ok && r->Ok_0@ == operation_creer(uuid_transaction@, u@),
        },
{
    match user_id {
        None => Err(ErreurTransaction::UserIdAbsent),
        Some(u) => Ok(
            OperationUpsert {
                filtre: FiltreApplication {
                    application_id: uuid_transaction.clone(),
                    user_id: None,
                },
                modifier_nom: false,
                nom: None,
                actif: false,
                user_id: u.clone(),
            },
        ),
    }
}

pub fn transaction_sauvegarder_application(
    user_id: &Option<String>,
    contenu: &TransactionSauvegarderApplication,
) -> (r: Result<OperationUpsert, ErreurTransaction>)
    ensures
        match user_id {
            None => r matches Err(ErreurTransaction::UserIdAbsent),
            Some(u) => r is Ok && r->Ok_0@ == operation_sauvegarder(u@, *contenu),
        },
{
    match user_id {
        None => Err(ErreurTransaction::UserIdAbsent),
        Some(u) => {
            let actif = match contenu.actif {
                Some(b) => b,
                None => false,
            };
            Ok(
                OperationUpsert {
                    filtre: FiltreApplication {
                        application_id: contenu.application_id.clone(),
                        user_id: Some(u.clone()),
                    },
                    modifier_nom: true,
                    nom: copier_option(&contenu.nom),
                    actif,
                    user_id: u.clone(),
                },
            )
        },
    }
}

/// Applies a transaction to the store at time `maintenant` as one atomic
/// upsert, and acknowledges it with the application id. A transaction
/// whose certificate names no user leaves the store untouched; a failed
/// store operation is returned as such.
pub fn aiguillage_transaction(
    magasin: &mut MagasinApplications,
    transaction: &TransactionApplication,
    maintenant: u64,
) -> (r: Result<ReponseTransaction, ErreurTransaction>)
    requires
        old(magasin).bien_forme(),
    ensures
        final(magasin).bien_forme(),
        match operation_transaction(*transaction) {
            None => r matches Err(ErreurTransaction::UserIdAbsent) && final(magasin)@ == old(
                magasin,
            )@,
            Some(op) => match resultat_upsert(old(magasin)@, op, maintenant) {
                Some(docs) => final(magasin)@ == docs && r is Ok && r->Ok_0.ok
                    && r->Ok_0.application_id@ == op.application_id,
                None => {
                    &&& final(magasin)@ == old(magasin)@
                    &&& r matches Err(ErreurTransaction::Stockage(ErreurStockage::CleDupliquee(id)))
                        && id@ == op.application_id
                },
            },
        },
{
    let op = match &transaction.contenu {
        ContenuTransaction::CreerNouvelleApplication => transaction_creer_nouvelle_application(
            &transaction.uuid_transaction,
            &transaction.user_id,
        ),
        ContenuTransaction::SauvegarderApplication(c) => transaction_sauvegarder_application(
            &transaction.user_id,
            c,
        ),
    };
    let op = match op {
        Ok(op) => op,
        Err(e) => {
            return Err(e);
        },
    };
    match magasin.upsert(&op, maintenant) {
        Ok(_) => Ok(
            ReponseTransaction { ok: true, application_id: op.filtre.application_id.clone() },
        ),
        Err(e) => Err(ErreurTransaction::Stockage(e)),
    }
}

/// An upsert keeps application ids unique.
pub proof fn lemme_upsert_unicite(docs: Seq<DocApplicationVue>, op: OperationUpsertVue, t: u64)
    requires
        ids_uniques(docs),
        resultat_upsert(docs, op, t) is Some,
    ensures
        ids_uniques(resultat_upsert(docs, op, t)->Some_0),
        0 <= position(resultat_upsert(docs, op, t)->Some_0, op.application_id),
{
    let s = resultat_upsert(docs, op, t)->Some_0;
    let p = position(docs, op.application_id);
    if p < 0 {
        assert(!exists|i: int| 0 <= i < docs.len() && #[trigger] docs[i].application_id == op.application_id);
        assert forall|a: int, b: int|
            0 <= a < s.len() && 0 <= b < s.len() && a != b implies #[trigger] s[a].application_id
                != #[trigger] s[b].application_id by {
            if a < docs.len() && b < docs.len() {
                assert(docs[a].application_id != docs[b].application_id);
            } else if a < docs.len() {
                assert(docs[a].application_id != op.application_id);
            } else {
                assert(docs[b].application_id != op.application_id);
            }
        }
        lemme_position(s, docs.len() as int);
    } else {
        assert(0 <= p < docs.len() && docs[p].application_id == op.application_id);
        assert forall|a: int, b: int|
            0 <= a < s.len() && 0 <= b < s.len() && a != b implies #[trigger] s[a].application_id
                != #[trigger] s[b].application_id by {
            assert(docs[a].application_id != docs[b].application_id);
        }
        lemme_position(s, p);
    }
}

/// Running a coherent upsert a second time, at `t2`, changes nothing in
/// the store but the record's modification time.
pub proof fn lemme_upsert_rejoue(
    docs: Seq<DocApplicationVue>,
    op: OperationUpsertVue,
    t1: u64,
    t2: u64,
)
    requires
        ids_uniques(docs),
        operation_coherente(op),
        resultat_upsert(docs, op, t1) is Some,
    ensures
        ({
            let s1 = resultat_upsert(docs, op, t1)->Some_0;
            let p = position(s1, op.application_id);
            &&& 0 <= p < s1.len()
            &&& resultat_upsert(s1, op, t2) == Some(
                s1.update(
                    p,
                    DocApplicationVue {
                        application_id: s1[p].application_id,
                        user_id: s1[p].user_id,
                        nom: s1[p].nom,
                        actif: s1[p].actif,
                        creation: s1[p].creation,
                        modification: t2,
                    },
                ),
            )
        }),
{
    let s1 = resultat_upsert(docs, op, t1)->Some_0;
    lemme_upsert_unicite(docs, op, t1);
    let p0 = position(docs, op.application_id);
    let p = position(s1, op.application_id);
    if p0 < 0 {
        lemme_position(s1, docs.len() as int);
        assert(s1[p] == doc_insere(op, t1));
    } else {
        assert(0 <= p0 < docs.len() && docs[p0].application_id == op.application_id);
        lemme_position(s1, p0);
        assert(s1[p] == doc_mis_a_jour(docs[p0], op, t1));
    }
    assert(filtre_accepte(s1[p], op));
}

/// Applying the same transaction twice, at `t1` then at `t2`, leaves one
/// record for the application: as the second application makes it, with
/// the creation time of the first.
pub proof fn transaction_rejouee_idempotente(
    docs: Seq<DocApplicationVue>,
    transaction: TransactionApplication,
    t1: u64,
    t2: u64,
)
    requires
        ids_uniques(docs),
        operation_transaction(transaction) is Some,
        resultat_upsert(docs, operation_transaction(transaction)->Some_0, t1) is Some,
    ensures
        ({
            let op = operation_transaction(transaction)->Some_0;
            let s1 = resultat_upsert(docs, op, t1)->Some_0;
            let s2 = resultat_upsert(s1, op, t2)->Some_0;
            let p = position(s1, op.application_id);
            &&& resultat_upsert(s1, op, t2) is Some
            &&& 0 <= p < s1.len()
            &&& s2.len() == s1.len()
            &&& position(s2, op.application_id) == p
            &&& s2[p] == doc_mis_a_jour(s1[p], op, t2)
            &&& s2[p].creation == s1[p].creation
            &&& forall|i: int| 0 <= i < s1.len() && i != p ==> s2[i] == s1[i]
        }),
{
    let op = operation_transaction(transaction)->Some_0;
    lemme_upsert_rejoue(docs, op, t1, t2);
    let s1 = resultat_upsert(docs, op, t1)->Some_0;
    lemme_upsert_unicite(s1, op, t2);
    let s2 = resultat_upsert(s1, op, t2)->Some_0;
    let p = position(s1, op.application_id);
    lemme_position(s2, p);
}

/// A save signed by `user_id` neither changes nor returns a record of
/// another user: on success every other user's record stays as it was, and
/// the record returned is the signer's.
pub proof fn sauvegarde_isolee(
    docs: Seq<DocApplicationVue>,
    transaction: TransactionApplication,
    t: u64,
)
    requires
        ids_uniques(docs),
        transaction.user_id is Some,
        transaction.contenu is SauvegarderApplication,
    ensures
        ({
            let u = transaction.user_id->Some_0@;
            let op = operation_transaction(transaction)->Some_0;
            resultat_upsert(docs, op, t) matches Some(s) ==> {
                &&& s.len() >= docs.len()
                &&& forall|j: int|
                    0 <= j < s.len() && #[trigger] s[j].user_id != u ==> j < docs.len() && s[j]
                        == docs[j]
                &&& forall|j: int|
                    0 <= j < docs.len() && #[trigger] docs[j].user_id != u ==> s[j] == docs[j]
                &&& s[position(s, op.application_id)].user_id == u
            }
        }),
{
    let op = operation_transaction(transaction)->Some_0;
    if resultat_upsert(docs, op, t) is Some {
        lemme_upsert_unicite(docs, op, t);
        let p0 = position(docs, op.application_id);
        let s = resultat_upsert(docs, op, t)->Some_0;
        if p0 < 0 {
            lemme_position(s, docs.len() as int);
        } else {
            assert(0 <= p0 < docs.len() && docs[p0].application_id == op.application_id);
            lemme_position(s, p0);
        }
    }
}

} // verus!
