use vstd::prelude::*;
use crate::api::ApiError;
use crate::models::{ConnectionStats, ConnectionStatus, LoginResponse, UserInfo};
use crate::state::AppState;

verus! {

/// Relies on uuid's `Uuid::new_v4` and its `to_string`: a random version-4
/// identifier in hyphenated form. Nothing is promised of its value.
#[verifier::external_body]
fn random_identifier() -> (r: String) {
    uuid::Uuid::new_v4().to_string()
}

/// The only account the demonstration backend accepts.
pub open spec fn is_demo_account(username: Seq<char>, password: Seq<char>) -> bool {
    username == "demo"@ && password == "demo"@
}

/// Signs in with the given identifiers for the new user and token.
/// Empty credentials are a bad request; anything but the demonstration account
/// is refused; the demonstration account is signed in and stored in `state`.
pub fn login_with_ids(
    state: &mut AppState,
    username: &str,
    password: &str,
    user_id: String,
    token_id: &str,
) -> (r: Result<LoginResponse, ApiError>)
    ensures
        (username@.len() == 0 || password@.len() == 0) ==> (r matches Err(e) && e.code == 400
            && e.message@ == "Username and password required"@ && *final(state) == *old(state)),
        (username@.len() > 0 && password@.len() > 0 && !is_demo_account(username@, password@))
            ==> (r matches Err(e) && e.code == 401
            && e.message@ == "Invalid username or password"@ && *final(state) == *old(state)),
        is_demo_account(username@, password@) ==> (r matches Ok(resp) && {
            &&& resp.user.id == user_id
            &&& resp.user.username@ == username@
            &&& resp.user.email@ == "demo@example.com"@
            &&& resp.token@ == "token_"@ + token_id@
            &&& final(state).user == Some(resp.user)
            &&& final(state).token == Some(resp.token)
            &&& final(state).connection_stats == old(state).connection_stats
            &&& final(state).settings == old(state).settings
        }),
{
    proof {
        reveal_strlit("demo");
    }
    if username.is_empty() || password.is_empty() {
        return Err(ApiError::bad_request("Username and password required"));
    }
    let name = username.to_owned();
    let secret = password.to_owned();
    let demo = "demo".to_owned();
    if name == demo && secret == demo {
        let user = UserInfo { id: user_id, username: name, email: "demo@example.com".to_owned() };
        let mut token = "token_".to_owned();
        token.append(token_id);
        state.set_user(user.duplicate());
        state.set_token(token.clone());
        Ok(LoginResponse { token, user })
    } else {
        Err(ApiError::invalid_credentials())
    }
}

/// Signs in with freshly drawn random identifiers; see `login_with_ids`.
pub fn login(state: &mut AppState, username: &str, password: &str) -> (r: Result<
    LoginResponse,
    ApiError,
>)
    ensures
        (username@.len() == 0 || password@.len() == 0) ==> (r matches Err(e) && e.code == 400
            && e.message@ == "Username and password required"@ && *final(state) == *old(state)),
        (username@.len() > 0 && password@.len() > 0 && !is_demo_account(username@, password@))
            ==> (r matches Err(e) && e.code == 401
            && e.message@ == "Invalid username or password"@ && *final(state) == *old(state)),
        is_demo_account(username@, password@) ==> (r matches Ok(resp) && {
            &&& resp.user.username@ == username@
            &&& resp.user.email@ == "demo@example.com"@
            &&& resp.token@.len() >= 6
            &&& resp.token@.subrange(0, 6) == "token_"@
            &&& final(state).user == Some(resp.user)
            &&& final(state).token == Some(resp.token)
        }),
{
    let user_id = random_identifier();
    let token_id = random_identifier();
    let r = login_with_ids(state, username, password, user_id, token_id.as_str());
    proof {
        reveal_strlit("token_");
        assert(("token_"@ + token_id@).subrange(0, 6) =~= "token_"@);
    }
    r
}

/// First half of connecting: the session is marked as connecting to `node_id`.
pub fn begin_connection(state: &mut AppState, node_id: String) -> (r: ConnectionStats)
    ensures
        r == final(state).connection_stats,
        r.status == ConnectionStatus::Connecting,
        r.connected_node == Some(node_id),
        r.upload_speed == old(state).connection_stats.upload_speed,
        r.download_speed == old(state).connection_stats.download_speed,
        r.total_uploaded == old(state).connection_stats.total_uploaded,
        r.total_downloaded == old(state).connection_stats.total_downloaded,
        r.connection_time == old(state).connection_stats.connection_time,
        r.ip_address == old(state).connection_stats.ip_address,
{
    let mut stats = state.get_stats();
    stats.status = ConnectionStatus::Connecting;
    stats.connected_node = Some(node_id);
    state.update_stats(stats.duplicate());
    stats
}

/// Second half of connecting: the session is connected with its tunnel address.
pub fn complete_connection(state: &mut AppState) -> (r: ConnectionStats)
    ensures
        r == final(state).connection_stats,
        r.status == ConnectionStatus::Connected,
        r.ip_address matches Some(a) && a@ == "10.8.0.2"@,
        r.connected_node == old(state).connection_stats.connected_node,
        r.upload_speed == old(state).connection_stats.upload_speed,
        r.download_speed == old(state).connection_stats.download_speed,
        r.total_uploaded == old(state).connection_stats.total_uploaded,
        r.total_downloaded == old(state).connection_stats.total_downloaded,
        r.connection_time == old(state).connection_stats.connection_time,
{
    let mut stats = state.get_stats();
    stats.status = ConnectionStatus::Connected;
    stats.ip_address = Some("10.8.0.2".to_owned());
    state.update_stats(stats.duplicate());
    stats
}

/// First half of disconnecting: the session is marked as disconnecting.
pub fn begin_disconnection(state: &mut AppState) -> (r: ConnectionStats)
    ensures
        r == final(state).connection_stats,
        r.status == ConnectionStatus::Disconnecting,
        r.connected_node == old(state).connection_stats.connected_node,
        r.ip_address == old(state).connection_stats.ip_address,
        r.upload_speed == old(state).connection_stats.upload_speed,
        r.download_speed == old(state).connection_stats.download_speed,
        r.total_uploaded == old(state).connection_stats.total_uploaded,
        r.total_downloaded == old(state).connection_stats.total_downloaded,
        r.connection_time == old(state).connection_stats.connection_time,
{
    let mut stats = state.get_stats();
    stats.status = ConnectionStatus::Disconnecting;
    state.update_stats(stats.duplicate());
    stats
}

/// Second half of disconnecting: no node, no address, speeds zero; totals kept.
pub fn complete_disconnection(state: &mut AppState) -> (r: ConnectionStats)
    ensures
        r == final(state).connection_stats,
        r.status == ConnectionStatus::Disconnected,
        r.connected_node is None,
        r.ip_address is None,
        r.upload_speed == 0,
        r.download_speed == 0,
        r.total_uploaded == old(state).connection_stats.total_uploaded,
        r.total_downloaded == old(state).connection_stats.total_downloaded,
        r.connection_time == old(state).connection_stats.connection_time,
{
    let mut stats = state.get_stats();
    stats.status = ConnectionStatus::Disconnected;
    stats.connected_node = None;
    stats.ip_address = None;
    stats.upload_speed = 0;
    stats.download_speed = 0;
    state.update_stats(stats.duplicate());
    stats
}

} // verus!
