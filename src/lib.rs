//! Message processing for the Landing domain: authorization of incoming
//! messages, routing to handlers, idempotent application of transactions to
//! the application store, and the maintenance schedule.

pub mod constantes;
pub mod securite;
pub mod magasin;
pub mod transactions;
pub mod gestionnaire;
pub mod commandes;
pub mod requetes;
pub mod evenements;
pub mod domaine;
