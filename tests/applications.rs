use landing::commandes::{
    commande_creer_nouvelle_application, commande_sauvegarder_application, ErreurCommande,
};
use landing::magasin::{ErreurStockage, MagasinApplications};
use landing::requetes::{requete_get_application, requete_get_liste_applications, ReponseRequete};
use landing::securite::{ContexteConfiance, Securite};
use landing::transactions::{
    aiguillage_transaction, transaction_creer_nouvelle_application,
    transaction_sauvegarder_application, ContenuTransaction, ErreurTransaction,
    TransactionApplication, TransactionSauvegarderApplication,
};

fn creation(uuid: &str, user_id: &str) -> TransactionApplication {
    TransactionApplication {
        uuid_transaction: uuid.to_string(),
        user_id: Some(user_id.to_string()),
        contenu: ContenuTransaction::CreerNouvelleApplication,
    }
}

fn sauvegarde(uuid: &str, user_id: &str, application_id: &str, nom: Option<&str>, actif: Option<bool>) -> TransactionApplication {
    TransactionApplication {
        uuid_transaction: uuid.to_string(),
        user_id: Some(user_id.to_string()),
        contenu: ContenuTransaction::SauvegarderApplication(TransactionSauvegarderApplication {
            application_id: application_id.to_string(),
            nom: nom.map(|n| n.to_string()),
            actif,
        }),
    }
}

fn usager(user_id: Option<&str>) -> ContexteConfiance {
    ContexteConfiance {
        user_id: user_id.map(|u| u.to_string()),
        roles: vec!["compte_prive".to_string()],
        exchanges: vec![],
        delegation_globale: false,
    }
}

fn application(m: &MagasinApplications, application_id: &str, user_id: &str) -> Option<landing::magasin::DocApplication> {
    match requete_get_application(&usager(Some(user_id)), &application_id.to_string(), m) {
        ReponseRequete::Application(d) => Some(d),
        _ => None,
    }
}

#[test]
fn scenario_creation_app_1() {
    let mut m = MagasinApplications::new();
    let r = aiguillage_transaction(&mut m, &creation("app-1", "u1"), 1000).unwrap();
    assert!(r.ok);
    assert_eq!(r.application_id, "app-1");
    assert_eq!(m.nombre(), 1);
    let d = application(&m, "app-1", "u1").unwrap();
    assert_eq!(d.application_id, "app-1");
    assert_eq!(d.user_id, "u1");
    assert!(!d.actif);
    assert_eq!(d.nom, None);
    assert_eq!(d.creation, 1000);
    assert_eq!(d.modification, 1000);
}

#[test]
fn scenario_sauvegarde_apres_creation() {
    let mut m = MagasinApplications::new();
    aiguillage_transaction(&mut m, &creation("app-1", "u1"), 1000).unwrap();
    let r = aiguillage_transaction(&mut m, &sauvegarde("tx-2", "u1", "app-1", Some("Notes"), Some(true)), 2000).unwrap();
    assert!(r.ok);
    assert_eq!(r.application_id, "app-1");
    assert_eq!(m.nombre(), 1);
    let d = application(&m, "app-1", "u1").unwrap();
    assert_eq!(d.application_id, "app-1");
    assert_eq!(d.user_id, "u1");
    assert_eq!(d.nom, Some("Notes".to_string()));
    assert!(d.actif);
    assert_eq!(d.creation, 1000);
    assert_eq!(d.modification, 2000);
}

#[test]
fn creation_rejouee_idempotente() {
    let mut m = MagasinApplications::new();
    let t = creation("app-1", "u1");
    aiguillage_transaction(&mut m, &t, 1000).unwrap();
    aiguillage_transaction(&mut m, &t, 3000).unwrap();
    assert_eq!(m.nombre(), 1);
    let d = application(&m, "app-1", "u1").unwrap();
    assert!(!d.actif);
    assert_eq!(d.creation, 1000);
    assert_eq!(d.modification, 3000);
}

#[test]
fn sauvegarde_rejouee_idempotente() {
    let mut m = MagasinApplications::new();
    let t = sauvegarde("tx-1", "u1", "app-9", Some("Carnet"), Some(true));
    aiguillage_transaction(&mut m, &t, 10).unwrap();
    let premiere = application(&m, "app-9", "u1").unwrap();
    aiguillage_transaction(&mut m, &t, 20).unwrap();
    assert_eq!(m.nombre(), 1);
    let d = application(&m, "app-9", "u1").unwrap();
    assert_eq!(d.application_id, premiere.application_id);
    assert_eq!(d.user_id, premiere.user_id);
    assert_eq!(d.nom, premiere.nom);
    assert_eq!(d.actif, premiere.actif);
    assert_eq!(d.creation, 10);
    assert_eq!(d.modification, 20);
}

#[test]
fn sauvegarde_sans_actif_desactive() {
    let mut m = MagasinApplications::new();
    aiguillage_transaction(&mut m, &sauvegarde("tx-1", "u1", "app-2", Some("A"), Some(true)), 10).unwrap();
    aiguillage_transaction(&mut m, &sauvegarde("tx-2", "u1", "app-2", None, None), 20).unwrap();
    let d = application(&m, "app-2", "u1").unwrap();
    assert!(!d.actif);
    assert_eq!(d.nom, None);
    assert_eq!(d.creation, 10);
}

#[test]
fn sauvegarde_autre_usager_isolee() {
    let mut m = MagasinApplications::new();
    aiguillage_transaction(&mut m, &creation("app-1", "u1"), 1000).unwrap();
    let r = aiguillage_transaction(&mut m, &sauvegarde("tx-b", "u2", "app-1", Some("Vol"), Some(true)), 2000);
    match r {
        Err(ErreurTransaction::Stockage(ErreurStockage::CleDupliquee(id))) => assert_eq!(id, "app-1"),
        _ => panic!("a save by another user must fail"),
    }
    assert_eq!(m.nombre(), 1);
    let d = application(&m, "app-1", "u1").unwrap();
    assert_eq!(d.user_id, "u1");
    assert_eq!(d.nom, None);
    assert!(!d.actif);
    assert_eq!(d.modification, 1000);
    assert!(application(&m, "app-1", "u2").is_none());
}

#[test]
fn requete_application_autre_usager_inconnue() {
    let mut m = MagasinApplications::new();
    aiguillage_transaction(&mut m, &creation("app-1", "u1"), 1000).unwrap();
    match requete_get_application(&usager(Some("u2")), &"app-1".to_string(), &m) {
        ReponseRequete::Erreur(e) => {
            assert!(!e.ok);
            assert_eq!(e.err, "Application inconnue");
        }
        _ => panic!("another user's application must not be returned"),
    }
}

#[test]
fn transaction_sans_usager() {
    let mut m = MagasinApplications::new();
    let t = TransactionApplication {
        uuid_transaction: "app-1".to_string(),
        user_id: None,
        contenu: ContenuTransaction::CreerNouvelleApplication,
    };
    assert!(matches!(aiguillage_transaction(&mut m, &t, 5), Err(ErreurTransaction::UserIdAbsent)));
    assert_eq!(m.nombre(), 0);
    assert!(matches!(transaction_creer_nouvelle_application(&"x".to_string(), &None), Err(ErreurTransaction::UserIdAbsent)));
    let c = TransactionSauvegarderApplication { application_id: "x".to_string(), nom: None, actif: None };
    assert!(matches!(transaction_sauvegarder_application(&None, &c), Err(ErreurTransaction::UserIdAbsent)));
}

#[test]
fn operations_upsert_composees() {
    let op = transaction_creer_nouvelle_application(&"tx-7".to_string(), &Some("u1".to_string())).unwrap();
    assert_eq!(op.filtre.application_id, "tx-7");
    assert_eq!(op.filtre.user_id, None);
    assert!(!op.modifier_nom);
    assert!(!op.actif);
    assert_eq!(op.user_id, "u1");

    let c = TransactionSauvegarderApplication { application_id: "app-3".to_string(), nom: Some("N".to_string()), actif: Some(true) };
    let op = transaction_sauvegarder_application(&Some("u1".to_string()), &c).unwrap();
    assert_eq!(op.filtre.application_id, "app-3");
    assert_eq!(op.filtre.user_id, Some("u1".to_string()));
    assert!(op.modifier_nom);
    assert_eq!(op.nom, Some("N".to_string()));
    assert!(op.actif);
    assert_eq!(op.user_id, "u1");
}

#[test]
fn liste_applications_par_usager() {
    let mut m = MagasinApplications::new();
    aiguillage_transaction(&mut m, &creation("a", "u1"), 1).unwrap();
    aiguillage_transaction(&mut m, &creation("b", "u2"), 2).unwrap();
    aiguillage_transaction(&mut m, &creation("c", "u1"), 3).unwrap();
    match requete_get_liste_applications(&usager(Some("u1")), &m) {
        ReponseRequete::Applications(v) => {
            let ids: Vec<String> = v.iter().map(|d| d.application_id.clone()).collect();
            assert_eq!(ids, vec!["a".to_string(), "c".to_string()]);
        }
        _ => panic!("the user's applications are expected"),
    }
    match requete_get_liste_applications(&usager(Some("u3")), &m) {
        ReponseRequete::Applications(v) => assert!(v.is_empty()),
        _ => panic!("an empty list is expected"),
    }
}

#[test]
fn scenario_liste_sans_usager_refusee() {
    let m = MagasinApplications::new();
    let ctx = ContexteConfiance {
        user_id: None,
        roles: vec![],
        exchanges: vec![Securite::L2Prive],
        delegation_globale: false,
    };
    match requete_get_liste_applications(&ctx, &m) {
        ReponseRequete::Refus(r) => {
            assert!(!r.ok);
            assert_eq!(r.msg, "Access denied");
        }
        _ => panic!("access must be denied"),
    }
    match requete_get_application(&ctx, &"app-1".to_string(), &m) {
        ReponseRequete::Refus(r) => {
            assert!(!r.ok);
            assert_eq!(r.msg, "Access denied");
        }
        _ => panic!("access must be denied"),
    }
}

#[test]
fn commande_creation_construit_transaction() {
    let t = commande_creer_nouvelle_application(&usager(Some("u1")), &None, &"tx-1".to_string()).unwrap();
    assert_eq!(t.uuid_transaction, "tx-1");
    assert_eq!(t.user_id, Some("u1".to_string()));
    assert!(matches!(t.contenu, ContenuTransaction::CreerNouvelleApplication));
}

#[test]
fn commande_sauvegarde_construit_transaction() {
    let c = TransactionSauvegarderApplication { application_id: "app-1".to_string(), nom: Some("Notes".to_string()), actif: Some(true) };
    let t = commande_sauvegarder_application(&usager(Some("u1")), &None, &"tx-2".to_string(), &c).unwrap();
    assert_eq!(t.uuid_transaction, "tx-2");
    assert_eq!(t.user_id, Some("u1".to_string()));
    match t.contenu {
        ContenuTransaction::SauvegarderApplication(s) => {
            assert_eq!(s.application_id, "app-1");
            assert_eq!(s.nom, Some("Notes".to_string()));
            assert_eq!(s.actif, Some(true));
        }
        _ => panic!("a save transaction is expected"),
    }
}

#[test]
fn commande_sans_usager() {
    let r = commande_creer_nouvelle_application(&usager(None), &None, &"tx-1".to_string());
    assert!(matches!(r, Err(ErreurCommande::UserIdAbsent)));
}

#[test]
fn commande_sans_role_ni_delegation_refusee() {
    let ctx = ContexteConfiance {
        user_id: Some("u1".to_string()),
        roles: vec![],
        exchanges: vec![Securite::L4Secure],
        delegation_globale: false,
    };
    let c = TransactionSauvegarderApplication { application_id: "app-1".to_string(), nom: None, actif: None };
    match commande_sauvegarder_application(&ctx, &Some("corr-3".to_string()), &"tx".to_string(), &c) {
        Err(ErreurCommande::Refusee(refus)) => assert_eq!(refus.correlation_id, Some("corr-3".to_string())),
        _ => panic!("the command must be refused"),
    }
    let delegue = ContexteConfiance { delegation_globale: true, ..ctx };
    assert!(commande_sauvegarder_application(&delegue, &None, &"tx".to_string(), &c).is_ok());
}

#[test]
fn commande_puis_transaction_appliquee() {
    let mut m = MagasinApplications::new();
    let t = commande_creer_nouvelle_application(&usager(Some("u1")), &None, &"app-5".to_string()).unwrap();
    let r = aiguillage_transaction(&mut m, &t, 7).unwrap();
    assert_eq!(r.application_id, "app-5");
    assert_eq!(application(&m, "app-5", "u1").unwrap().creation, 7);
}
