//! Queries on the application records of the asking user.

use vstd::prelude::*;

use crate::constantes::{MSG_ACCES_REFUSE, MSG_APPLICATION_INCONNUE};
use crate::gestionnaire::{Aiguillage, aiguillage_valide, aiguiller_categorie};
use crate::magasin::{DocApplication, MagasinApplications, application_usager, docs_usager, vues};
use crate::securite::{Categorie, ContexteConfiance};

verus! {

/// Answer to a query whose credential names no user: `{ok: false, msg}`.
#[derive(Clone, Debug)]
pub struct ReponseRefus {
    pub ok: bool,
    pub msg: String,
}

/// Answer to a query that found nothing: `{ok: false, err}`.
#[derive(Clone, Debug)]
pub struct ReponseErreur {
    pub ok: bool,
    pub err: String,
}

#[derive(Clone, Debug)]
pub enum ReponseRequete {
    Refus(ReponseRefus),
    Applications(Vec<DocApplication>),
    Application(DocApplication),
    Erreur(ReponseErreur),
}

pub open spec fn acces_refuse(r: ReponseRequete) -> bool {
    r matches ReponseRequete::Refus(refus) && !refus.ok && refus.msg@ == MSG_ACCES_REFUSE@
}

/// Authorizes and routes a query.
pub fn consommer_requete(
    ctx: &ContexteConfiance,
    domaine: &str,
    action: &str,
    correlation_id: &Option<String>,
) -> (r: Aiguillage)
    ensures
        aiguillage_valide(r, *ctx, Categorie::Requete, domaine@, action@, *correlation_id),
{
    aiguiller_categorie(ctx, Categorie::Requete, domaine, action, correlation_id)
}

/// The user on whose records a query runs, or the refusal to answer when
/// the credential names none.
pub fn usager_requete(ctx: &ContexteConfiance) -> (r: Result<String, ReponseRefus>)
    ensures
        match ctx.user_id {
            Some(u) => r is Ok && r->Ok_0@ == u@,
            None => r is Err && !r->Err_0.ok && r->Err_0.msg@ == MSG_ACCES_REFUSE@,
        },
{
    match &ctx.user_id {
        Some(u) => Ok(u.clone()),
        None => Err(ReponseRefus { ok: false, msg: String::from_str(MSG_ACCES_REFUSE) }),
    }
}

/// The applications of the user of the credential, in store order.
pub fn requete_get_liste_applications(ctx: &ContexteConfiance, magasin: &MagasinApplications) -> (r:
    ReponseRequete)
    ensures
        match ctx.user_id {
            None => acces_refuse(r),
            Some(u) => r matches ReponseRequete::Applications(v) && vues(v@) == docs_usager(
                magasin@,
                u@,
            ),
        },
{
    match usager_requete(ctx) {
        Err(refus) => ReponseRequete::Refus(refus),
        Ok(user_id) => ReponseRequete::Applications(magasin.trouver_par_usager(&user_id)),
    }
}

/// The application `application_id`, if the user of the credential owns it.
pub fn requete_get_application(
    ctx: &ContexteConfiance,
    application_id: &String,
    magasin: &MagasinApplications,
) -> (r: ReponseRequete)
    requires
        magasin.bien_forme(),
    ensures
        match ctx.user_id {
            None => acces_refuse(r),
            Some(u) => match application_usager(magasin@, application_id@, u@) {
                Some(d) => r matches ReponseRequete::Application(x) && x@ == d,
                None => r matches ReponseRequete::Erreur(e) && !e.ok && e.err@
                    == MSG_APPLICATION_INCONNUE@,
            },
        },
{
    match usager_requete(ctx) {
        Err(refus) => ReponseRequete::Refus(refus),
        Ok(user_id) => match magasin.trouver_application(application_id, &user_id) {
            Some(d) => ReponseRequete::Application(d),
            None => ReponseRequete::Erreur(
                ReponseErreur { ok: false, err: String::from_str(MSG_APPLICATION_INCONNUE) },
            ),
        },
    }
}

} // verus!
