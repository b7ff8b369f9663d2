//! Service identities: a freshly drawn unique token and the display name
//! derived from it and the recursion depth of the instance being provisioned.

use vstd::prelude::*;
use crate::digits::{dec_rep, u64_to_string};
use crate::level::MAX_LEVEL;

verus! {

/// The identity of one provisioning run: a unique token and the display
/// name under which the new service is created.
pub struct ServiceIdentity {
    /// The generated unique token.
    pub token: String,
    /// The derived display name.
    pub name: String,
}

/// The display name derived from a token and the depth of the instance
/// being provisioned.
pub open spec fn derived_name(token: Seq<char>, next_level: nat) -> Seq<char> {
    token + "_level_"@ + dec_rep(next_level)
}

/// Relies on nanoid::format with nanoid's default random source and its
/// URL-safe alphabet of 64 characters: the result holds exactly 21
/// characters. The characters are random; nothing else is assumed of them.
#[verifier::external_body]
fn fresh_token() -> (r: String)
    ensures
        r@.len() == 21,
{
    nanoid::format(nanoid::rngs::default, &nanoid::alphabet::SAFE, 21)
}

/// Generates the identity for one provisioning run at the given current
/// depth: a fresh token, and the name derived from it and the depth one
/// greater.
pub fn generate(current_level: u32) -> (r: ServiceIdentity)
    requires
        current_level <= MAX_LEVEL,
    ensures
        r.token@.len() == 21,
        r.name@ == derived_name(r.token@, current_level as nat + 1),
{
    let token = fresh_token();
    let next: u64 = current_level as u64 + 1;
    let mut name = token.clone();
    name.append("_level_");
    let level_text = u64_to_string(next);
    name.append(level_text.as_str());
    proof {
        assert(name@ =~= derived_name(token@, current_level as nat + 1));
    }
    ServiceIdentity { token, name }
}

} // verus!
