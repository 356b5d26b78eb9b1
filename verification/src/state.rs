use vstd::prelude::*;

verus! {

/// What the handlers know of the running server: where the Proxmox API is, the API token that
/// authenticates against it, and the administrator's credentials for basic authentication.
pub struct AppState {
    pub proxmox_url: String,
    pub proxmox_token_id: String,
    pub proxmox_token_secret: String,
    pub username_admin: Option<String>,
    pub password_admin: Option<String>,
}

} // verus!
