//! Commands: authorization, and the transactions they produce.

use vstd::prelude::*;

use crate::constantes::ROLE_COMPTE_PRIVE;
use crate::gestionnaire::{Aiguillage, aiguillage_valide, aiguiller_categorie};
use crate::magasin::OperationUpsertVue;
use crate::securite::{
    Categorie, ContexteConfiance, RefusAutorisation, contient_role, copier_option, possede_role,
    vue_option,
};
use crate::transactions::{
    ContenuTransaction, TransactionApplication, TransactionSauvegarderApplication, operation_creer,
    operation_sauvegarder, operation_transaction,
};

verus! {

/// Why a command that was let in is not turned into a transaction.
#[derive(Clone, Debug)]
pub enum ErreurCommande {
    /// The credential names no user.
    UserIdAbsent,
    /// Neither a private account nor the owner's global delegation.
    Refusee(RefusAutorisation),
}

/// Who may change applications: a private account, or the owner's global
/// delegation.
pub open spec fn acteur_autorise(ctx: ContexteConfiance) -> bool {
    possede_role(ctx.roles@, ROLE_COMPTE_PRIVE@) || ctx.delegation_globale
}

/// The outcome of a command handler over the transaction `t` that it builds
/// to be persisted and applied, with `op` the store operation it must have.
pub open spec fn commande_valide(
    r: Result<TransactionApplication, ErreurCommande>,
    ctx: ContexteConfiance,
    correlation_id: Option<String>,
    uuid_transaction: Seq<char>,
    op: spec_fn(Seq<char>) -> OperationUpsertVue,
) -> bool {
    match ctx.user_id {
        None => r matches Err(ErreurCommande::UserIdAbsent),
        Some(u) => if acteur_autorise(ctx) {
            &&& r is Ok
            &&& r->Ok_0.uuid_transaction@ == uuid_transaction
            &&& vue_option(r->Ok_0.user_id) == Some(u@)
            &&& operation_transaction(r->Ok_0) == Some(op(u@))
        } else {
            &&& r matches Err(ErreurCommande::Refusee(refus))
            &&& vue_option(r->Err_0->Refusee_0.correlation_id) == vue_option(correlation_id)
        },
    }
}

/// Authorizes and routes a command.
pub fn consommer_commande(
    ctx: &ContexteConfiance,
    domaine: &str,
    action: &str,
    correlation_id: &Option<String>,
) -> (r: Aiguillage)
    ensures
        aiguillage_valide(r, *ctx, Categorie::Commande, domaine@, action@, *correlation_id),
{
    aiguiller_categorie(ctx, Categorie::Commande, domaine, action, correlation_id)
}

fn verifier_acteur(ctx: &ContexteConfiance, correlation_id: &Option<String>) -> (r: Result<
    String,
    ErreurCommande,
>)
    ensures
        match ctx.user_id {
            None => r matches Err(ErreurCommande::UserIdAbsent),
            Some(u) => if acteur_autorise(*ctx) {
                r is Ok && r->Ok_0@ == u@
            } else {
                &&& r matches Err(ErreurCommande::Refusee(refus))
                &&& vue_option(r->Err_0->Refusee_0.correlation_id) == vue_option(*correlation_id)
            },
        },
{
    let user_id = match &ctx.user_id {
        Some(u) => u.clone(),
        None => {
            return Err(ErreurCommande::UserIdAbsent);
        },
    };
    if contient_role(&ctx.roles, ROLE_COMPTE_PRIVE) || ctx.delegation_globale {
        Ok(user_id)
    } else {
        Err(
            ErreurCommande::Refusee(
                RefusAutorisation { correlation_id: copier_option(correlation_id) },
            ),
        )
    }
}

/// Turns a creation command into the transaction to persist, with id
/// `uuid_transaction` and the user of the credential as owner.
pub fn commande_creer_nouvelle_application(
    ctx: &ContexteConfiance,
    correlation_id: &Option<String>,
    uuid_transaction: &String,
) -> (r: Result<TransactionApplication, ErreurCommande>)
    ensures
        commande_valide(
            r,
            *ctx,
            *correlation_id,
            uuid_transaction@,
            |u: Seq<char>| operation_creer(uuid_transaction@, u),
        ),
{
    let user_id = match verifier_acteur(ctx, correlation_id) {
        Ok(u) => u,
        Err(e) => {
            return Err(e);
        },
    };
    Ok(
        TransactionApplication {
            uuid_transaction: uuid_transaction.clone(),
            user_id: Some(user_id),
            contenu: ContenuTransaction::CreerNouvelleApplication,
        },
    )
}

/// Turns a save command into the transaction to persist, with id
/// `uuid_transaction` and the user of the credential as owner.
pub fn commande_sauvegarder_application(
    ctx: &ContexteConfiance,
    correlation_id: &Option<String>,
    uuid_transaction: &String,
    commande: &TransactionSauvegarderApplication,
) -> (r: Result<TransactionApplication, ErreurCommande>)
    ensures
        commande_valide(
            r,
            *ctx,
            *correlation_id,
            uuid_transaction@,
            |u: Seq<char>| operation_sauvegarder(u, *commande),
        ),
{
    let user_id = match verifier_acteur(ctx, correlation_id) {
        Ok(u) => u,
        Err(e) => {
            return Err(e);
        },
    };
    let contenu = TransactionSauvegarderApplication {
        application_id: commande.application_id.clone(),
        nom: copier_option(&commande.nom),
        actif: commande.actif,
    };
    Ok(
        TransactionApplication {
            uuid_transaction: uuid_transaction.clone(),
            user_id: Some(user_id),
            contenu: ContenuTransaction::SauvegarderApplication(contenu),
        },
    )
}

} // verus!
