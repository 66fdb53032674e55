//! Routing of incoming messages, and the domain's queues and index.

use vstd::prelude::*;

use crate::commandes::consommer_commande;
use crate::constantes::{
    CHAMP_APPLICATION_ID, DOMAINE_NOM, NOM_COLLECTION_APPLICATIONS, NOM_COLLECTION_TRANSACTIONS,
    NOM_Q_TRANSACTIONS, NOM_Q_TRIGGERS, NOM_Q_VOLATILS, REQUETE_APPLICATION,
    REQUETE_LISTE_APPLICATIONS, TRANSACTION_CREER_NOUVELLE_APPLICATION,
    TRANSACTION_SAUVEGARDER_APPLICATION,
};
use crate::evenements::consommer_evenement;
use crate::requetes::consommer_requete;
use crate::securite::{
    Autorisation, Categorie, Securite, ContexteConfiance, RefusAutorisation, autoriser, regle_autorisation,
    vue_option,
};
use crate::transactions::consommer_transaction;

verus! {

/// The actions that this domain handles.
#[derive(Clone, Copy, Debug, PartialEq, Eq, Structural)]
pub enum ActionDomaine {
    CreerNouvelleApplication,
    SauvegarderApplication,
    GetListeApplications,
    GetApplication,
}

/// What becomes of an incoming message, decided before its payload is read.
#[derive(Clone, Debug)]
pub enum Aiguillage {
    /// Refused; the sender gets a structured refusal.
    RefusRepondu(RefusAutorisation),
    /// Refused; the message is dropped with a log entry.
    RefusIgnore(RefusAutorisation),
    /// No handler for this domain and action; the message is dropped.
    Inconnue,
    /// Let in: decode the payload and run the action's handler.
    Traiter(ActionDomaine),
}

/// Header of an incoming message, with the facts of its credential.
#[derive(Clone, Debug)]
pub struct EnteteMessage {
    pub categorie: Categorie,
    pub domaine: String,
    pub action: String,
    pub correlation_id: Option<String>,
    pub contexte: ContexteConfiance,
}

/// The handler registered for an action of a category, if any.
pub open spec fn action_enregistree(c: Categorie, domaine: Seq<char>, action: Seq<char>) -> Option<
    ActionDomaine,
> {
    if domaine != DOMAINE_NOM@ {
        None
    } else {
        match c {
            Categorie::Commande | Categorie::Transaction => if action
                == TRANSACTION_CREER_NOUVELLE_APPLICATION@ {
                Some(ActionDomaine::CreerNouvelleApplication)
            } else if action == TRANSACTION_SAUVEGARDER_APPLICATION@ {
                Some(ActionDomaine::SauvegarderApplication)
            } else {
                None
            },
            Categorie::Requete => if action == REQUETE_LISTE_APPLICATIONS@ {
                Some(ActionDomaine::GetListeApplications)
            } else if action == REQUETE_APPLICATION@ {
                Some(ActionDomaine::GetApplication)
            } else {
                None
            },
            Categorie::Evenement => None,
        }
    }
}

/// Whether a refused message of the category gets an answer.
pub open spec fn refus_avec_reponse(c: Categorie) -> bool {
    c == Categorie::Commande || c == Categorie::Requete
}

/// The routing of a message: refused (answered or dropped by category),
/// unknown, or handed to its handler.
pub open spec fn aiguillage_valide(
    r: Aiguillage,
    ctx: ContexteConfiance,
    c: Categorie,
    domaine: Seq<char>,
    action: Seq<char>,
    correlation_id: Option<String>,
) -> bool {
    match regle_autorisation(ctx, c) {
        None => match r {
            Aiguillage::RefusRepondu(refus) => refus_avec_reponse(c) && vue_option(
                refus.correlation_id,
            ) == vue_option(correlation_id),
            Aiguillage::RefusIgnore(refus) => !refus_avec_reponse(c) && vue_option(
                refus.correlation_id,
            ) == vue_option(correlation_id),
            _ => false,
        },
        Some(_) => match action_enregistree(c, domaine, action) {
            None => r is Inconnue,
            Some(a) => r == Aiguillage::Traiter(a),
        },
    }
}

fn egales(a: &str, b: &str) -> (r: bool)
    ensures
        r == (a@ == b@),
{
    String::from_str(a) == String::from_str(b)
}

/// Looks up the handler registered for an action of a category.
pub fn trouver_action(c: Categorie, domaine: &str, action: &str) -> (r: Option<ActionDomaine>)
    ensures
        r == action_enregistree(c, domaine@, action@),
{
    if !egales(domaine, DOMAINE_NOM) {
        return None;
    }
    match c {
        Categorie::Commande | Categorie::Transaction => {
            if egales(action, TRANSACTION_CREER_NOUVELLE_APPLICATION) {
                Some(ActionDomaine::CreerNouvelleApplication)
            } else if egales(action, TRANSACTION_SAUVEGARDER_APPLICATION) {
                Some(ActionDomaine::SauvegarderApplication)
            } else {
                None
            }
        },
        Categorie::Requete => {
            if egales(action, REQUETE_LISTE_APPLICATIONS) {
                Some(ActionDomaine::GetListeApplications)
            } else if egales(action, REQUETE_APPLICATION) {
                Some(ActionDomaine::GetApplication)
            } else {
                None
            }
        },
        Categorie::Evenement => None,
    }
}

/// Authorizes a message of category `c`, then looks up its handler. A
/// refusal is answered for commands and queries and dropped otherwise.
pub fn aiguiller_categorie(
    ctx: &ContexteConfiance,
    c: Categorie,
    domaine: &str,
    action: &str,
    correlation_id: &Option<String>,
) -> (r: Aiguillage)
    ensures
        aiguillage_valide(r, *ctx, c, domaine@, action@, *correlation_id),
{
    match autoriser(ctx, c, correlation_id) {
        Autorisation::Refusee(refus) => match c {
            Categorie::Commande | Categorie::Requete => Aiguillage::RefusRepondu(refus),
            _ => Aiguillage::RefusIgnore(refus),
        },
        Autorisation::Accordee(_) => match trouver_action(c, domaine, action) {
            Some(a) => Aiguillage::Traiter(a),
            None => Aiguillage::Inconnue,
        },
    }
}

/// Routes an incoming message by its category.
pub fn aiguiller(entete: &EnteteMessage) -> (r: Aiguillage)
    ensures
        aiguillage_valide(
            r,
            entete.contexte,
            entete.categorie,
            entete.domaine@,
            entete.action@,
            entete.correlation_id,
        ),
{
    let domaine = entete.domaine.as_str();
    let action = entete.action.as_str();
    match entete.categorie {
        Categorie::Commande => consommer_commande(
            &entete.contexte,
            domaine,
            action,
            &entete.correlation_id,
        ),
        Categorie::Requete => consommer_requete(
            &entete.contexte,
            domaine,
            action,
            &entete.correlation_id,
        ),
        Categorie::Transaction => consommer_transaction(
            &entete.contexte,
            domaine,
            action,
            &entete.correlation_id,
        ),
        Categorie::Evenement => consommer_evenement(
            &entete.contexte,
            domaine,
            action,
            &entete.correlation_id,
        ),
    }
}

/// Time to live of the messages of the volatile queue, in milliseconds.
pub const DEFAULT_Q_TTL: u32 = 300000;

/// The manager of the Landing domain: its names, queues and storage.
#[derive(Clone, Debug)]
pub struct GestionnaireLanding {}

/// A routing key bound on an exchange.
#[derive(Clone, Debug)]
pub struct ConfigRoutingExchange {
    pub routing_key: String,
    pub exchange: Securite,
}

#[derive(Clone, Debug)]
pub struct ConfigQueue {
    pub nom_queue: String,
    pub routing_keys: Vec<ConfigRoutingExchange>,
    pub ttl: Option<u32>,
    pub durable: bool,
    pub autodelete: bool,
}

/// A queue that the domain listens on.
#[derive(Clone, Debug)]
pub enum QueueType {
    ExchangeQueue(ConfigQueue),
    /// The queue of scheduled triggers of a domain, on an exchange.
    Triggers(String, Securite),
}

#[derive(Clone, Debug)]
pub struct ChampIndex {
    pub nom_champ: String,
    pub direction: i32,
}

/// An index on a collection of the store.
#[derive(Clone, Debug)]
pub struct ConfigIndex {
    pub collection: String,
    pub nom_index: String,
    pub champs: Vec<ChampIndex>,
    pub unique: bool,
}

/// `type_message.Landing.action`
pub open spec fn cle_routage(type_message: Seq<char>, action: Seq<char>) -> Seq<char> {
    type_message + "."@ + DOMAINE_NOM@ + "."@ + action
}

pub open spec fn routage(
    rk: ConfigRoutingExchange,
    type_message: Seq<char>,
    action: Seq<char>,
    exchange: Securite,
) -> bool {
    rk.routing_key@ == cle_routage(type_message, action) && rk.exchange == exchange
}

/// The volatile queue carries the queries and commands on the private
/// exchange; the transaction queue the transactions on the secure exchange;
/// the trigger queue is on the protected exchange.
pub open spec fn queues_domaine(q: Seq<QueueType>) -> bool {
    &&& q.len() == 3
    &&& q[0] matches QueueType::ExchangeQueue(c) && {
        let rks = c.routing_keys@;
        &&& c.nom_queue@ == NOM_Q_VOLATILS@
        &&& rks.len() == 4
        &&& routage(rks[0], "requete"@, REQUETE_LISTE_APPLICATIONS@, Securite::L2Prive)
        &&& routage(rks[1], "requete"@, REQUETE_APPLICATION@, Securite::L2Prive)
        &&& routage(
            rks[2],
            "commande"@,
            TRANSACTION_CREER_NOUVELLE_APPLICATION@,
            Securite::L2Prive,
        )
        &&& routage(rks[3], "commande"@, TRANSACTION_SAUVEGARDER_APPLICATION@, Securite::L2Prive)
        &&& c.ttl == Some(DEFAULT_Q_TTL)
        &&& c.durable && !c.autodelete
    }
    &&& q[1] matches QueueType::ExchangeQueue(c) && {
        let rks = c.routing_keys@;
        &&& c.nom_queue@ == NOM_Q_TRANSACTIONS@
        &&& rks.len() == 2
        &&& routage(
            rks[0],
            "transaction"@,
            TRANSACTION_CREER_NOUVELLE_APPLICATION@,
            Securite::L4Secure,
        )
        &&& routage(
            rks[1],
            "transaction"@,
            TRANSACTION_SAUVEGARDER_APPLICATION@,
            Securite::L4Secure,
        )
        &&& c.ttl is None
        &&& c.durable && !c.autodelete
    }
    &&& q[2] matches QueueType::Triggers(d, s) && d@ == DOMAINE_NOM@ && s == Securite::L3Protege
}

fn routage_exchange(type_message: &str, action: &str, exchange: Securite) -> (r:
    ConfigRoutingExchange)
    ensures
        routage(r, type_message@, action@, exchange),
{
    let cle = String::from_str(type_message).concat(".").concat(DOMAINE_NOM).concat(".").concat(
        action,
    );
    ConfigRoutingExchange { routing_key: cle, exchange }
}

/// The queues of the domain, with their routing keys.
pub fn preparer_queues() -> (r: Vec<QueueType>)
    ensures
        queues_domaine(r@),
{
    let mut rk_volatils: Vec<ConfigRoutingExchange> = Vec::new();
    rk_volatils.push(routage_exchange("requete", REQUETE_LISTE_APPLICATIONS, Securite::L2Prive));
    rk_volatils.push(routage_exchange("requete", REQUETE_APPLICATION, Securite::L2Prive));
    rk_volatils.push(
        routage_exchange("commande", TRANSACTION_CREER_NOUVELLE_APPLICATION, Securite::L2Prive),
    );
    rk_volatils.push(
        routage_exchange("commande", TRANSACTION_SAUVEGARDER_APPLICATION, Securite::L2Prive),
    );

    let mut rk_transactions: Vec<ConfigRoutingExchange> = Vec::new();
    rk_transactions.push(
        routage_exchange("transaction", TRANSACTION_CREER_NOUVELLE_APPLICATION, Securite::L4Secure),
    );
    rk_transactions.push(
        routage_exchange("transaction", TRANSACTION_SAUVEGARDER_APPLICATION, Securite::L4Secure),
    );

    let mut queues: Vec<QueueType> = Vec::new();
    queues.push(
        QueueType::ExchangeQueue(
            ConfigQueue {
                nom_queue: String::from_str(NOM_Q_VOLATILS),
                routing_keys: rk_volatils,
                ttl: Some(DEFAULT_Q_TTL),
                durable: true,
                autodelete: false,
            },
        ),
    );
    queues.push(
        QueueType::ExchangeQueue(
            ConfigQueue {
                nom_queue: String::from_str(NOM_Q_TRANSACTIONS),
                routing_keys: rk_transactions,
                ttl: None,
                durable: true,
                autodelete: false,
            },
        ),
    );
    queues.push(QueueType::Triggers(String::from_str(DOMAINE_NOM), Securite::L3Protege));
    queues
}

/// The unique index on the application id of the application records.
pub fn preparer_index_mongodb_custom() -> (r: ConfigIndex)
    ensures
        r.collection@ == NOM_COLLECTION_APPLICATIONS@,
        r.nom_index@ == "applications"@,
        r.champs@.len() == 1,
        r.champs@[0].nom_champ@ == CHAMP_APPLICATION_ID@,
        r.champs@[0].direction == 1,
        r.unique,
{
    let mut champs: Vec<ChampIndex> = Vec::new();
    champs.push(ChampIndex { nom_champ: String::from_str(CHAMP_APPLICATION_ID), direction: 1 });
    ConfigIndex {
        collection: String::from_str(NOM_COLLECTION_APPLICATIONS),
        nom_index: String::from_str("applications"),
        champs,
        unique: true,
    }
}

impl GestionnaireLanding {
    pub fn new() -> Self {
        GestionnaireLanding {  }
    }

    pub fn get_nom_domaine(&self) -> (r: String)
        ensures
            r@ == DOMAINE_NOM@,
    {
        String::from_str(DOMAINE_NOM)
    }

    pub fn get_collection_transactions(&self) -> (r: Option<String>)
        ensures
            vue_option(r) == Some(NOM_COLLECTION_TRANSACTIONS@),
    {
        Some(String::from_str(NOM_COLLECTION_TRANSACTIONS))
    }

    pub fn get_collections_documents(&self) -> (r: Vec<String>)
        ensures
            r@.len() == 1,
            r@[0]@ == NOM_COLLECTION_APPLICATIONS@,
    {
        let mut r: Vec<String> = Vec::new();
        r.push(String::from_str(NOM_COLLECTION_APPLICATIONS));
        r
    }

    pub fn get_q_transactions(&self) -> (r: Option<String>)
        ensures
            vue_option(r) == Some(NOM_Q_TRANSACTIONS@),
    {
        Some(String::from_str(NOM_Q_TRANSACTIONS))
    }

    pub fn get_q_volatils(&self) -> (r: Option<String>)
        ensures
            vue_option(r) == Some(NOM_Q_VOLATILS@),
    {
        Some(String::from_str(NOM_Q_VOLATILS))
    }

    pub fn get_q_triggers(&self) -> (r: Option<String>)
        ensures
            vue_option(r) == Some(NOM_Q_TRIGGERS@),
    {
        Some(String::from_str(NOM_Q_TRIGGERS))
    }

    /// Backups of this domain are encrypted.
    pub fn chiffrer_backup(&self) -> (r: bool)
        ensures
            r,
    {
        true
    }

    /// The transaction collections whose unacknowledged transactions the
    /// maintenance loop resubmits.
    pub fn collections_transactions(&self) -> (r: Vec<String>)
        ensures
            r@.len() == 1,
            r@[0]@ == NOM_COLLECTION_TRANSACTIONS@,
    {
        let mut r: Vec<String> = Vec::new();
        match self.get_collection_transactions() {
            Some(nom) => r.push(nom),
            None => {},
        }
        r
    }
}

} // verus!
