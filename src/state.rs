use vstd::prelude::*;
use crate::models::{AppSettings, ConnectionStats, UserInfo};

verus! {

/// The client's session: signed-in user and token, connection counters and
/// settings. Callers that share it across threads wrap it in a lock.
#[derive(Debug)]
pub struct AppState {
    pub user: Option<UserInfo>,
    pub token: Option<String>,
    pub connection_stats: ConnectionStats,
    pub settings: AppSettings,
}

impl AppState {
    pub fn new() -> (r: AppState)
        ensures
            r.user is None,
            r.token is None,
            r.connection_stats.is_idle(),
            r.settings.is_initial(),
    {
        AppState {
            user: None,
            token: None,
            connection_stats: ConnectionStats::default(),
            settings: AppSettings::default(),
        }
    }

    pub fn set_user(&mut self, user: UserInfo)
        ensures
            final(self).user == Some(user),
            final(self).token == old(self).token,
            final(self).connection_stats == old(self).connection_stats,
            final(self).settings == old(self).settings,
    {
        self.user = Some(user);
    }

    pub fn get_user(&self) -> (r: Option<UserInfo>)
        ensures
            r == self.user,
    {
        match &self.user {
            Some(u) => Some(u.duplicate()),
            None => None,
        }
    }

    pub fn set_token(&mut self, token: String)
        ensures
            final(self).token == Some(token),
            final(self).user == old(self).user,
            final(self).connection_stats == old(self).connection_stats,
            final(self).settings == old(self).settings,
    {
        self.token = Some(token);
    }

    pub fn get_token(&self) -> (r: Option<String>)
        ensures
            r == self.token,
    {
        match &self.token {
            Some(t) => Some(t.clone()),
            None => None,
        }
    }

    /// Signs out: forgets the user and the token.
    pub fn clear_auth(&mut self)
        ensures
            final(self).user is None,
            final(self).token is None,
            final(self).connection_stats == old(self).connection_stats,
            final(self).settings == old(self).settings,
    {
        self.user = None;
        self.token = None;
    }

    pub fn is_authenticated(&self) -> (r: bool)
        ensures
            r == self.token is Some,
    {
        self.token.is_some()
    }

    pub fn update_stats(&mut self, stats: ConnectionStats)
        ensures
            final(self).connection_stats == stats,
            final(self).user == old(self).user,
            final(self).token == old(self).token,
            final(self).settings == old(self).settings,
    {
        self.connection_stats = stats;
    }

    pub fn get_stats(&self) -> (r: ConnectionStats)
        ensures
            r == self.connection_stats,
    {
        self.connection_stats.duplicate()
    }
}

impl Default for AppState {
    fn default() -> (r: AppState)
        ensures
            r.user is None,
            r.token is None,
            r.connection_stats.is_idle(),
            r.settings.is_initial(),
    {
        AppState::new()
    }
}

} // verus!
