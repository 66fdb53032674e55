//! Events addressed to the domain.

use vstd::prelude::*;

use crate::gestionnaire::{Aiguillage, aiguillage_valide, aiguiller_categorie};
use crate::securite::{Categorie, ContexteConfiance};

verus! {

/// Authorizes and routes an event. This domain registers no event, so an
/// event that is let in is dropped as unknown; a refused one is dropped too.
pub fn consommer_evenement(
    ctx: &ContexteConfiance,
    domaine: &str,
    action: &str,
    correlation_id: &Option<String>,
) -> (r: Aiguillage)
    ensures
        aiguillage_valide(r, *ctx, Categorie::Evenement, domaine@, action@, *correlation_id),
        !(r is Traiter),
{
    aiguiller_categorie(ctx, Categorie::Evenement, domaine, action, correlation_id)
}

} // verus!
