//! Who may act on a post: its owner, and nobody else.

use vstd::prelude::*;
use crate::principal::Principal;

verus! {

/// The refusal: the acting principal is not the owner.
#[derive(Debug, Clone, Copy, PartialEq, Eq, Structural)]
pub struct Unauthorized;

/// Lets `derived_principal` act on what `resource_owner_principal` owns
/// exactly when the two are the same principal. Ownership is the only rule.
///
/// The first argument is a principal that a credential was derived to: the
/// question is asked only after [`crate::delegation::derive_principal`] has
/// succeeded.
pub fn authorize(derived_principal: &Principal, resource_owner_principal: &Principal) -> (r: Result<
    (),
    Unauthorized,
>)
    ensures
        r is Ok <==> derived_principal@ == resource_owner_principal@,
{
    if derived_principal.same_as(resource_owner_principal) {
        Ok(())
    } else {
        Err(Unauthorized)
    }
}

} // verus!
