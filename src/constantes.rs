//! Names of the domain, its collections, queues and actions.

use vstd::prelude::*;

verus! {

pub const DOMAINE_NOM: &'static str = "Landing";

pub const NOM_COLLECTION_TRANSACTIONS: &'static str = "Landing";

pub const NOM_COLLECTION_APPLICATIONS: &'static str = "Landing/applications";

pub const NOM_Q_TRANSACTIONS: &'static str = "Landing/transactions";

pub const NOM_Q_VOLATILS: &'static str = "Landing/volatils";

pub const NOM_Q_TRIGGERS: &'static str = "Landing/triggers";

pub const TRANSACTION_CREER_NOUVELLE_APPLICATION: &'static str = "creerNouvelleApplication";

pub const TRANSACTION_SAUVEGARDER_APPLICATION: &'static str = "sauvegarderApplication";

pub const REQUETE_LISTE_APPLICATIONS: &'static str = "getListeApplications";

pub const REQUETE_APPLICATION: &'static str = "getApplication";

pub const CHAMP_USER_ID: &'static str = "user_id";

pub const CHAMP_APPLICATION_ID: &'static str = "application_id";

/// Role carried by the credential of an end-user's private account.
pub const ROLE_COMPTE_PRIVE: &'static str = "compte_prive";

/// Message returned to a query whose credential names no user.
pub const MSG_ACCES_REFUSE: &'static str = "Access denied";

/// Message returned when the requested application is not in the store.
pub const MSG_APPLICATION_INCONNUE: &'static str = "Application inconnue";

} // verus!
