//! The account status the renderer shows, read from the session shared by the
//! suite's apps. A missing session simply means signed out.

use vstd::prelude::*;

use std::collections::BTreeMap;

verus! {

/// The account state the renderer renders. `signed_in == false` means no
/// shared session is present; every other field is then empty.
#[derive(Debug, Clone)]
pub struct AccountStatus {
    pub signed_in: bool,
    pub sub: String,
    pub email: Option<String>,
    pub church_ids: Vec<String>,
    pub app_grants: BTreeMap<String, Vec<String>>,
    /// Whether the cached claims are still within their offline-grace window.
    pub claims_fresh: bool,
}

impl AccountStatus {
    /// The signed-out state.
    pub fn signed_out() -> (s: Self)
        ensures
            !s.signed_in,
            s.sub@.len() == 0,
            s.email is None,
            s.church_ids@.len() == 0,
            s.app_grants@ == Map::<String, Vec<String>>::empty(),
            !s.claims_fresh,
    {
        AccountStatus {
            signed_in: false,
            sub: String::new(),
            email: None,
            church_ids: Vec::new(),
            app_grants: BTreeMap::new(),
            claims_fresh: false,
        }
    }
}

} // verus!
