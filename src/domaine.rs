//! The maintenance schedule: which sub-tasks a tick runs, and the timers.

use vstd::prelude::*;

verus! {

/// Time between two ticks of the maintenance loop, in milliseconds.
pub const DUREE_ATTENTE: u64 = 20000;

/// Time between two loads of the key holders' certificates, in milliseconds.
pub const INTERVALLE_CHARGEMENT_CERTIFICATS: u64 = 300000;

/// Time between two resubmissions of unacknowledged transactions, in
/// milliseconds.
pub const INTERVALLE_ENTRETIEN_TRANSACTIONS: u64 = 300000;

/// The timers of the maintenance loop. Times are in milliseconds.
#[derive(Clone, Copy, Debug, PartialEq, Eq, Structural)]
pub struct EtatEntretien {
    pub prochain_chargement_certificats: u64,
    pub prochain_entretien_transactions: u64,
    pub certificat_emis: bool,
}

/// The sub-tasks to run during one tick.
#[derive(Clone, Copy, Debug, PartialEq, Eq, Structural)]
pub struct TachesEntretien {
    pub charger_certificats: bool,
    pub entretien_validateur: bool,
    pub resoumettre_transactions: bool,
    pub emettre_certificat: bool,
}

#[derive(Clone, Copy, Debug, PartialEq, Eq, Structural)]
pub enum ResultatTache {
    NonExecutee,
    Reussie,
    Echouee,
}

/// How the sub-tasks of a tick went. Upkeep of the certificate validator
/// has no timer, so its outcome is not recorded.
#[derive(Clone, Copy, Debug, PartialEq, Eq, Structural)]
pub struct ResultatsEntretien {
    pub charger_certificats: ResultatTache,
    pub resoumettre_transactions: ResultatTache,
    pub emettre_certificat: ResultatTache,
}

pub open spec fn aucune_tache() -> TachesEntretien {
    TachesEntretien {
        charger_certificats: false,
        entretien_validateur: false,
        resoumettre_transactions: false,
        emettre_certificat: false,
    }
}

/// What runs in a tick at time `maintenant`: nothing while a bulk rebuild is
/// in progress; otherwise the validator upkeep, each timed sub-task whose
/// time has come, and the emission of the local certificate until it has
/// once succeeded.
pub open spec fn taches_a_executer(e: EtatEntretien, maintenant: u64, regeneration: bool) -> TachesEntretien {
    if regeneration {
        aucune_tache()
    } else {
        TachesEntretien {
            charger_certificats: maintenant >= e.prochain_chargement_certificats,
            entretien_validateur: true,
            resoumettre_transactions: maintenant >= e.prochain_entretien_transactions,
            emettre_certificat: !e.certificat_emis,
        }
    }
}

/// `maintenant + intervalle`, held at the largest time.
pub open spec fn echeance(maintenant: u64, intervalle: u64) -> u64 {
    if maintenant + intervalle > u64::MAX {
        u64::MAX
    } else {
        (maintenant + intervalle) as u64
    }
}

/// A timer moves on by its interval after a run of its sub-task that
/// succeeded, and stays otherwise, so that a failure is retried next tick.
pub open spec fn prochaine_echeance(
    prochain: u64,
    execute: bool,
    resultat: ResultatTache,
    maintenant: u64,
    intervalle: u64,
) -> u64 {
    if execute && resultat == ResultatTache::Reussie {
        echeance(maintenant, intervalle)
    } else {
        prochain
    }
}

/// The timers after a tick at `maintenant` that ran `taches` with outcome
/// `r`; an outcome counts only for a sub-task that was to run.
pub open spec fn etat_apres(
    e: EtatEntretien,
    maintenant: u64,
    taches: TachesEntretien,
    r: ResultatsEntretien,
) -> EtatEntretien {
    EtatEntretien {
        prochain_chargement_certificats: prochaine_echeance(
            e.prochain_chargement_certificats,
            taches.charger_certificats,
            r.charger_certificats,
            maintenant,
            INTERVALLE_CHARGEMENT_CERTIFICATS,
        ),
        prochain_entretien_transactions: prochaine_echeance(
            e.prochain_entretien_transactions,
            taches.resoumettre_transactions,
            r.resoumettre_transactions,
            maintenant,
            INTERVALLE_ENTRETIEN_TRANSACTIONS,
        ),
        certificat_emis: e.certificat_emis || (taches.emettre_certificat && r.emettre_certificat
            == ResultatTache::Reussie),
    }
}

fn reporter(prochain: u64, execute: bool, resultat: ResultatTache, maintenant: u64, intervalle: u64) -> (r: u64)
    ensures
        r == prochaine_echeance(prochain, execute, resultat, maintenant, intervalle),
{
    if execute && resultat == ResultatTache::Reussie {
        if maintenant > u64::MAX - intervalle {
            u64::MAX
        } else {
            maintenant + intervalle
        }
    } else {
        prochain
    }
}

impl EtatEntretien {
    /// The timers at start: every sub-task is due at once.
    pub fn new(maintenant: u64) -> (r: Self)
        ensures
            r.prochain_chargement_certificats == maintenant,
            r.prochain_entretien_transactions == maintenant,
            !r.certificat_emis,
    {
        EtatEntretien {
            prochain_chargement_certificats: maintenant,
            prochain_entretien_transactions: maintenant,
            certificat_emis: false,
        }
    }

    /// The sub-tasks to run in the tick at `maintenant`, given whether a
    /// bulk rebuild is reported in progress.
    pub fn taches_dues(&self, maintenant: u64, regeneration: bool) -> (r: TachesEntretien)
        ensures
            r == taches_a_executer(*self, maintenant, regeneration),
    {
        if regeneration {
            TachesEntretien {
                charger_certificats: false,
                entretien_validateur: false,
                resoumettre_transactions: false,
                emettre_certificat: false,
            }
        } else {
            TachesEntretien {
                charger_certificats: maintenant >= self.prochain_chargement_certificats,
                entretien_validateur: true,
                resoumettre_transactions: maintenant >= self.prochain_entretien_transactions,
                emettre_certificat: !self.certificat_emis,
            }
        }
    }

    /// Records the outcome of the tick at `maintenant` that ran `taches`.
    pub fn enregistrer(
        &mut self,
        maintenant: u64,
        taches: TachesEntretien,
        resultats: ResultatsEntretien,
    )
        ensures
            *final(self) == etat_apres(*old(self), maintenant, taches, resultats),
    {
        self.prochain_chargement_certificats = reporter(
            self.prochain_chargement_certificats,
            taches.charger_certificats,
            resultats.charger_certificats,
            maintenant,
            INTERVALLE_CHARGEMENT_CERTIFICATS,
        );
        self.prochain_entretien_transactions = reporter(
            self.prochain_entretien_transactions,
            taches.resoumettre_transactions,
            resultats.resoumettre_transactions,
            maintenant,
            INTERVALLE_ENTRETIEN_TRANSACTIONS,
        );
        self.certificat_emis = self.certificat_emis || (taches.emettre_certificat
            && resultats.emettre_certificat == ResultatTache::Reussie);
    }
}

/// While a bulk rebuild is in progress a tick runs no sub-task, and
/// whatever outcome is reported for it, no timer moves.
pub proof fn regeneration_suspend_entretien(
    e: EtatEntretien,
    maintenant: u64,
    r: ResultatsEntretien,
)
    ensures
        taches_a_executer(e, maintenant, true) == aucune_tache(),
        etat_apres(e, maintenant, taches_a_executer(e, maintenant, true), r) == e,
{
}

/// The local certificate is emitted in every tick outside a bulk rebuild
/// until one emission succeeds, and never after that.
pub proof fn certificat_emis_une_fois(
    e: EtatEntretien,
    maintenant: u64,
    regeneration: bool,
    r: ResultatsEntretien,
)
    ensures
        taches_a_executer(e, maintenant, regeneration).emettre_certificat == (!regeneration
            && !e.certificat_emis),
        e.certificat_emis ==> etat_apres(
            e,
            maintenant,
            taches_a_executer(e, maintenant, regeneration),
            r,
        ).certificat_emis,
{
}

} // verus!
