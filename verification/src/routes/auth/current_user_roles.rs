use vstd::prelude::*;

verus! {

/// The roles of the user of the UI.
#[derive(Debug)]
pub struct UserRolesResponse {
    pub is_admin: bool,
    pub is_viewer: bool,
    pub is_provider: bool,
    pub provider_id: Option<String>,
}

/// Every user of the UI is an administrator.
pub fn current_user_roles() -> (r: UserRolesResponse)
    ensures
        r.is_admin,
        !r.is_viewer,
        !r.is_provider,
        r.provider_id is None,
{
    UserRolesResponse { is_admin: true, is_viewer: false, is_provider: false, provider_id: None }
}

} // verus!
