//! Sessions of signed-in users: their claims, roles, expiry and the session cookie.
use vstd::prelude::*;

use crate::bindings::unix_timestamp_now;
use crate::error::ArsaError;
use crate::text::{opt_text, str_eq};

verus! {

/// Sessions whose token expires within this many seconds are refreshed.
pub const SESSION_REFRESH_WINDOW_SECONDS: usize = 300;

/// The name of the session cookie.
pub const SESSION_COOKIE_NAME: &'static str = "session";

/// How long the session cookie lives, in seconds.
pub const SESSION_MAX_AGE_SECONDS: u64 = 86400;

/// The realm roles of a user.
#[derive(Debug, Clone)]
pub struct RealmAccess {
    pub roles: Vec<String>,
}

/// The claims of a signed-in user, kept for the lifetime of the session.
#[derive(Debug, Clone)]
pub struct Claims {
    sub: String,
    preferred_username: Option<String>,
    realm_access: Option<RealmAccess>,
    exp: usize,
    picture: Option<String>,
    refresh_token: Option<String>,
}

/// The roles, as plain values.
pub open spec fn roles_view(r: Option<RealmAccess>) -> Option<Seq<Seq<char>>> {
    match r {
        Some(ra) => Some(ra.roles@.map_values(|s: String| s@)),
        None => None,
    }
}

/// What a session knows of its user.
pub struct ClaimsModel {
    pub sub: Seq<char>,
    pub preferred_username: Option<Seq<char>>,
    pub roles: Option<Seq<Seq<char>>>,
    pub exp: nat,
    pub picture: Option<Seq<char>>,
    pub refresh_token: Option<Seq<char>>,
}

impl View for Claims {
    type V = ClaimsModel;

    closed spec fn view(&self) -> ClaimsModel {
        ClaimsModel {
            sub: self.sub@,
            preferred_username: opt_text(self.preferred_username),
            roles: roles_view(self.realm_access),
            exp: self.exp as nat,
            picture: opt_text(self.picture),
            refresh_token: opt_text(self.refresh_token),
        }
    }
}

/// Whether the claims grant `role`: the realm roles are known and hold it.
pub open spec fn spec_has_role(c: ClaimsModel, role: Seq<char>) -> bool {
    c.roles matches Some(rs) && rs.contains(role)
}

/// Whether a token expiring at `exp` is due for a refresh at time `now`.
pub open spec fn spec_needs_refresh(exp: nat, now: nat, window: nat) -> bool {
    exp <= now + window
}

fn clone_opt(o: &Option<String>) -> (r: Option<String>)
    ensures
        r == *o,
{
    match o {
        Some(s) => Some(s.clone()),
        None => None,
    }
}

fn clone_realm(o: &Option<RealmAccess>) -> (r: Option<RealmAccess>)
    ensures
        roles_view(r) == roles_view(*o),
{
    match o {
        Some(ra) => {
            let roles = ra.roles.clone();
            proof {
                assert(roles@ =~= ra.roles@);
            }
            Some(RealmAccess { roles })
        },
        None => None,
    }
}

impl Claims {
    /// Claims of a user.
    pub fn new(
        sub: String,
        preferred_username: Option<String>,
        realm_access: Option<RealmAccess>,
        exp: usize,
        picture: Option<String>,
        refresh_token: Option<String>,
    ) -> (r: Claims)
        ensures
            r@ == (ClaimsModel {
                sub: sub@,
                preferred_username: opt_text(preferred_username),
                roles: roles_view(realm_access),
                exp: exp as nat,
                picture: opt_text(picture),
                refresh_token: opt_text(refresh_token),
            }),
    {
        Claims { sub, preferred_username, realm_access, exp, picture, refresh_token }
    }

    /// Whether the user holds the realm role `role`.
    pub fn has_role(&self, role: &str) -> (r: bool)
        ensures
            r == spec_has_role(self@, role@),
    {
        match &self.realm_access {
            Some(ra) => {
                let mut i: usize = 0;
                while i < ra.roles.len()
                    invariant
                        i <= ra.roles@.len(),
                        self.realm_access == Some(*ra),
                        forall|j: int| 0 <= j < i ==> (#[trigger] ra.roles@[j])@ != role@,
                    decreases ra.roles@.len() - i,
                {
                    if str_eq(ra.roles[i].as_str(), role) {
                        proof {
                            let rs = ra.roles@.map_values(|s: String| s@);
                            assert(rs[i as int] == role@);
                            assert(rs.contains(role@));
                            assert(self.realm_access == Some(*ra));
                            assert(self@.roles == Some(rs));
                        }
                        return true;
                    }
                    i = i + 1;
                }
                proof {
                    let rs = ra.roles@.map_values(|s: String| s@);
                    assert forall|j: int| 0 <= j < rs.len() implies rs[j] != role@ by {
                        assert(rs[j] == ra.roles@[j]@);
                    }
                }
                false
            },
            None => false,
        }
    }

    /// The identity of the user.
    pub fn get_user(&self) -> (r: String)
        ensures
            r@ == self@.sub,
    {
        self.sub.clone()
    }

    /// The user name the user prefers, if the provider gave one.
    pub fn preferred_username(&self) -> (r: Option<String>)
        ensures
            opt_text(r) == self@.preferred_username,
    {
        clone_opt(&self.preferred_username)
    }

    /// The address of the user's picture, if the provider gave one.
    pub fn picture(&self) -> (r: Option<String>)
        ensures
            opt_text(r) == self@.picture,
    {
        clone_opt(&self.picture)
    }

    /// The realm roles of the user, if the provider gave them.
    pub fn realm_access(&self) -> (r: Option<RealmAccess>)
        ensures
            roles_view(r) == self@.roles,
    {
        clone_realm(&self.realm_access)
    }

    /// The time the token expires, in seconds since the Unix epoch.
    pub fn expires_at(&self) -> (r: usize)
        ensures
            r as nat == self@.exp,
    {
        self.exp
    }

    /// The refresh token of the session, if the provider gave one.
    pub fn refresh_token(&self) -> (r: Option<String>)
        ensures
            opt_text(r) == self@.refresh_token,
    {
        clone_opt(&self.refresh_token)
    }

    /// Whether the session must be refreshed at time `now` (seconds since the Unix epoch):
    /// its token expires within `refresh_window_seconds`.
    pub fn needs_refresh_at(&self, now: usize, refresh_window_seconds: usize) -> (r: bool)
        requires
            now + refresh_window_seconds <= usize::MAX,
        ensures
            r == spec_needs_refresh(self@.exp, now as nat, refresh_window_seconds as nat),
    {
        self.exp <= now + refresh_window_seconds
    }

    /// Whether the session must be refreshed now, by the system clock.
    ///
    /// Where the clock plus the window exceeds `usize::MAX`, every token is due.
    pub fn needs_refresh(&self, refresh_window_seconds: usize) -> (r: bool)
        ensures
            self@.exp <= refresh_window_seconds ==> r,
            exists|now: nat|
                #![trigger spec_needs_refresh(self@.exp, now, refresh_window_seconds as nat)]
                now <= usize::MAX && r == (now + refresh_window_seconds > usize::MAX
                    || spec_needs_refresh(self@.exp, now, refresh_window_seconds as nat)),
    {
        let now = unix_timestamp_now() as usize;
        let due = if now > usize::MAX - refresh_window_seconds {
            true
        } else {
            self.needs_refresh_at(now, refresh_window_seconds)
        };
        proof {
            // The clock reading `now` is the witness.
            assert(spec_needs_refresh(self@.exp, now as nat, refresh_window_seconds as nat) == (
            self@.exp <= now + refresh_window_seconds));
        }
        due
    }

    /// The claims after a token refresh at time `now`: the new token lives `expires_in`
    /// seconds from now when the provider says so, else the old expiry stays; a new refresh
    /// token replaces the old one. Everything else is kept.
    pub fn refreshed(
        &self,
        now: usize,
        expires_in: Option<usize>,
        new_refresh_token: Option<String>,
    ) -> (r: Claims)
        requires
            expires_in matches Some(d) ==> now + d <= usize::MAX,
        ensures
            r@.sub == self@.sub,
            r@.preferred_username == self@.preferred_username,
            r@.roles == self@.roles,
            r@.picture == self@.picture,
            r@.exp == match expires_in {
                Some(d) => now + d,
                None => self@.exp as int,
            },
            r@.refresh_token == match new_refresh_token {
                Some(t) => Some(t@),
                None => self@.refresh_token,
            },
    {
        let exp = match expires_in {
            Some(d) => now + d,
            None => self.exp,
        };
        let refresh_token = match new_refresh_token {
            Some(t) => Some(t),
            None => clone_opt(&self.refresh_token),
        };
        Claims {
            sub: self.sub.clone(),
            preferred_username: clone_opt(&self.preferred_username),
            realm_access: clone_realm(&self.realm_access),
            exp,
            picture: clone_opt(&self.picture),
            refresh_token,
        }
    }
}

/// A refresh never changes who the user is nor which roles they hold.
pub proof fn lemma_refresh_keeps_roles(before: ClaimsModel, after: ClaimsModel, role: Seq<char>)
    requires
        after.sub == before.sub,
        after.roles == before.roles,
    ensures
        spec_has_role(after, role) == spec_has_role(before, role),
{
}

/// A token that has expired by `now` is always due for a refresh, whatever the window.
pub proof fn lemma_expired_needs_refresh(exp: nat, now: nat, window: nat)
    requires
        exp <= now,
    ensures
        spec_needs_refresh(exp, now, window),
{
}

/// A token that lives beyond the window is not due for a refresh.
pub proof fn lemma_fresh_token_kept(exp: nat, now: nat, window: nat)
    requires
        exp > now + window,
    ensures
        !spec_needs_refresh(exp, now, window),
{
}

/// Once due, a session stays due as time goes on.
pub proof fn lemma_needs_refresh_monotone(exp: nat, now: nat, later: nat, window: nat)
    requires
        now <= later,
        spec_needs_refresh(exp, now, window),
    ensures
        spec_needs_refresh(exp, later, window),
{
}

/// Who may see a cookie from another site.
#[derive(Debug, Clone, Copy, PartialEq, Eq, Structural)]
pub enum SameSitePolicy {
    Strict,
    Lax,
    /// Sent with cross-site requests too (`SameSite=None`).
    Unrestricted,
}

/// A cookie to set on the client.
#[derive(Debug)]
pub struct SessionCookie {
    pub name: String,
    pub value: String,
    pub path: String,
    pub http_only: bool,
    pub same_site: SameSitePolicy,
    pub secure: bool,
    pub max_age_seconds: u64,
}

/// The cookie that carries a session: `session=<id>` for the whole site, hidden from
/// scripts, sent only over TLS, also cross-site, for one day.
pub fn build_session_cookie(session_id: &str) -> (r: SessionCookie)
    ensures
        r.name@ == SESSION_COOKIE_NAME@,
        r.value@ == session_id@,
        r.path@ == "/"@,
        r.http_only,
        r.same_site == SameSitePolicy::Unrestricted,
        r.secure,
        r.max_age_seconds == SESSION_MAX_AGE_SECONDS,
{
    SessionCookie {
        name: SESSION_COOKIE_NAME.to_owned(),
        value: session_id.to_owned(),
        path: "/".to_owned(),
        http_only: true,
        same_site: SameSitePolicy::Unrestricted,
        secure: true,
        max_age_seconds: SESSION_MAX_AGE_SECONDS,
    }
}

/// The authorization code and state of a provider callback; both must be present.
pub fn callback_params(code: Option<String>, state: Option<String>) -> (r: Result<
    (String, String),
    ArsaError,
>)
    ensures
        (code is Some && state is Some) ==> (r matches Ok((c, s)) && c == code->0 && s
            == state->0),
        !(code is Some && state is Some) ==> r matches Err(ArsaError::BadRequest),
{
    match code {
        Some(c) => match state {
            Some(s) => Ok((c, s)),
            None => Err(ArsaError::BadRequest),
        },
        None => Err(ArsaError::BadRequest),
    }
}

/// The name a user is stored under: their preferred user name, or `User`.
pub fn user_display_name(preferred_username: &Option<String>) -> (r: String)
    ensures
        r@ == match preferred_username {
            Some(n) => n@,
            None => "User"@,
        },
{
    match preferred_username {
        Some(n) => n.clone(),
        None => "User".to_owned(),
    }
}

/// A request is let through only for users holding the access role.
pub fn authorize(claims: &Claims, access_role: &str) -> (r: Result<(), ArsaError>)
    ensures
        spec_has_role(claims@, access_role@) ==> r is Ok,
        !spec_has_role(claims@, access_role@) ==> r matches Err(ArsaError::Unauthorized),
{
    if claims.has_role(access_role) {
        Ok(())
    } else {
        Err(ArsaError::Unauthorized)
    }
}

} // verus!
