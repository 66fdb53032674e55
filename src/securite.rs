//! The trust context of a message and the authorization policy.

use vstd::prelude::*;

use crate::constantes::ROLE_COMPTE_PRIVE;

verus! {

/// Exchange levels on which a credential may be valid.
#[derive(Clone, Copy, Debug, PartialEq, Eq, Structural)]
pub enum Securite {
    L1Public,
    L2Prive,
    L3Protege,
    L4Secure,
}

/// Kind of an incoming message.
#[derive(Clone, Copy, Debug, PartialEq, Eq, Structural)]
pub enum Categorie {
    Commande,
    Requete,
    Transaction,
    Evenement,
}

/// Facts taken from the sender's verified credential, once per message.
#[derive(Clone, Debug)]
pub struct ContexteConfiance {
    pub user_id: Option<String>,
    pub roles: Vec<String>,
    pub exchanges: Vec<Securite>,
    pub delegation_globale: bool,
}

/// The rule of the policy through which a message was let in.
#[derive(Clone, Copy, Debug, PartialEq, Eq, Structural)]
pub enum RegleAutorisation {
    CompteUsager,
    Exchange,
    DelegationGlobale,
}

/// A refusal, with the correlation id of the refused message.
#[derive(Clone, Debug)]
pub struct RefusAutorisation {
    pub correlation_id: Option<String>,
}

#[derive(Clone, Debug)]
pub enum Autorisation {
    Accordee(RegleAutorisation),
    Refusee(RefusAutorisation),
}

pub open spec fn vue_option(o: Option<String>) -> Option<Seq<char>> {
    match o {
        Some(s) => Some(s@),
        None => None,
    }
}

pub open spec fn possede_role(roles: Seq<String>, role: Seq<char>) -> bool {
    exists|i: int| 0 <= i < roles.len() && #[trigger] roles[i]@ == role
}

/// Whether an exchange level is enough, by itself, for a message of the category.
pub open spec fn niveau_accepte(c: Categorie, s: Securite) -> bool {
    match c {
        Categorie::Commande => s == Securite::L2Prive || s == Securite::L3Protege || s
            == Securite::L4Secure,
        Categorie::Requete => s == Securite::L2Prive || s == Securite::L3Protege,
        Categorie::Transaction => s == Securite::L4Secure,
        Categorie::Evenement => false,
    }
}

pub open spec fn exchange_accepte(exchanges: Seq<Securite>, c: Categorie) -> bool {
    exists|i: int| 0 <= i < exchanges.len() && niveau_accepte(c, #[trigger] exchanges[i])
}

/// An authenticated end-user acting on their own data.
pub open spec fn compte_usager(ctx: ContexteConfiance) -> bool {
    ctx.user_id is Some && possede_role(ctx.roles@, ROLE_COMPTE_PRIVE@)
}

/// The first rule of the policy that lets the message in, if any.
pub open spec fn regle_autorisation(ctx: ContexteConfiance, c: Categorie) -> Option<
    RegleAutorisation,
> {
    if compte_usager(ctx) {
        Some(RegleAutorisation::CompteUsager)
    } else if exchange_accepte(ctx.exchanges@, c) {
        Some(RegleAutorisation::Exchange)
    } else if ctx.delegation_globale {
        Some(RegleAutorisation::DelegationGlobale)
    } else {
        None
    }
}

pub fn copier_option(o: &Option<String>) -> (r: Option<String>)
    ensures
        vue_option(r) == vue_option(*o),
{
    match o {
        Some(s) => Some(s.clone()),
        None => None,
    }
}

/// Whether `roles` holds `role`.
pub fn contient_role(roles: &Vec<String>, role: &str) -> (r: bool)
    ensures
        r == possede_role(roles@, role@),
{
    let cible = String::from_str(role);
    let mut i: usize = 0;
    while i < roles.len()
        invariant
            i <= roles.len(),
            cible@ == role@,
            forall|k: int| 0 <= k < i ==> (#[trigger] roles@[k])@ != role@,
        decreases roles.len() - i,
    {
        if roles[i] == cible {
            return true;
        }
        i = i + 1;
    }
    false
}

/// Whether the exchange level is enough, by itself, for a message of the category.
pub fn niveau_suffisant(c: Categorie, s: Securite) -> (r: bool)
    ensures
        r == niveau_accepte(c, s),
{
    match c {
        Categorie::Commande => match s {
            Securite::L1Public => false,
            _ => true,
        },
        Categorie::Requete => match s {
            Securite::L2Prive | Securite::L3Protege => true,
            _ => false,
        },
        Categorie::Transaction => match s {
            Securite::L4Secure => true,
            _ => false,
        },
        Categorie::Evenement => false,
    }
}

/// Whether one of the credential's exchange levels is enough for the category.
pub fn verifier_exchanges(exchanges: &Vec<Securite>, c: Categorie) -> (r: bool)
    ensures
        r == exchange_accepte(exchanges@, c),
{
    let mut i: usize = 0;
    while i < exchanges.len()
        invariant
            i <= exchanges.len(),
            forall|k: int| 0 <= k < i ==> !niveau_accepte(c, #[trigger] exchanges@[k]),
        decreases exchanges.len() - i,
    {
        if niveau_suffisant(c, exchanges[i]) {
            return true;
        }
        i = i + 1;
    }
    false
}

/// Whether the credential belongs to an end-user's private account.
pub fn est_compte_usager(ctx: &ContexteConfiance) -> (r: bool)
    ensures
        r == compte_usager(*ctx),
{
    ctx.user_id.is_some() && contient_role(&ctx.roles, ROLE_COMPTE_PRIVE)
}

/// Decides whether a message of category `c` is let in. The rules are tried
/// in order: a private account with a user id, then an exchange level that
/// is enough for the category, then the owner's global delegation. A
/// refusal carries the message's correlation id.
pub fn autoriser(ctx: &ContexteConfiance, c: Categorie, correlation_id: &Option<String>) -> (r:
    Autorisation)
    ensures
        match r {
            Autorisation::Accordee(regle) => regle_autorisation(*ctx, c) == Some(regle),
            Autorisation::Refusee(refus) => regle_autorisation(*ctx, c) is None && vue_option(
                refus.correlation_id,
            ) == vue_option(*correlation_id),
        },
{
    if est_compte_usager(ctx) {
        Autorisation::Accordee(RegleAutorisation::CompteUsager)
    } else if verifier_exchanges(&ctx.exchanges, c) {
        Autorisation::Accordee(RegleAutorisation::Exchange)
    } else if ctx.delegation_globale {
        Autorisation::Accordee(RegleAutorisation::DelegationGlobale)
    } else {
        Autorisation::Refusee(RefusAutorisation { correlation_id: copier_option(correlation_id) })
    }
}

/// Once a message is let in as a private account's, the exchange levels and
/// the delegation of its credential cannot turn the decision into a refusal.
pub proof fn autorisation_compte_usager_stable(
    ctx: ContexteConfiance,
    autre: ContexteConfiance,
    c: Categorie,
)
    requires
        regle_autorisation(ctx, c) == Some(RegleAutorisation::CompteUsager),
        vue_option(autre.user_id) == vue_option(ctx.user_id),
        autre.roles@ == ctx.roles@,
    ensures
        regle_autorisation(autre, c) == Some(RegleAutorisation::CompteUsager),
{
}

} // verus!
