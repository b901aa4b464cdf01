//! Who may do what: roles, the claims that a token carries, and the rules
//! of access. Signing and checking tokens stands outside.

use vstd::prelude::*;
use crate::time::{Timestamp, MILLIS_PER_HOUR, clamp_i64};
use crate::text::is_text;
use crate::runtime::current_time;


verus! {

#[derive(Debug)]
pub struct User {
    pub id: String,
    pub username: String,
    pub email: String,
    pub role: UserRole,
    pub created_at: Timestamp,
    pub last_login: Option<Timestamp>,
    pub active: bool,
}

#[derive(Clone, Copy, Debug, PartialEq, Eq, Structural)]
pub enum UserRole {
    Admin,
    Operator,
    Viewer,
    SystemMonitor,
}

/// What a token says of its bearer. `exp` and `iat` are seconds since the
/// Unix epoch; an instant before the epoch counts as zero.
#[derive(Debug)]
pub struct Claims {
    /// The identifier of the user.
    pub sub: String,
    pub username: String,
    pub role: UserRole,
    pub exp: u64,
    pub iat: u64,
}

#[derive(Debug)]
pub struct LoginRequest {
    pub username: String,
    pub password: String,
}

#[derive(Debug)]
pub struct LoginResponse {
    pub token: String,
    pub user: UserInfo,
    pub expires_at: Timestamp,
}

#[derive(Debug)]
pub struct UserInfo {
    pub id: String,
    pub username: String,
    pub email: String,
    pub role: UserRole,
}

/// A user whose token was found good.
#[derive(Debug)]
pub struct AuthenticatedUser(pub Claims);

/// The role that an operation asks for.
#[derive(Debug)]
pub struct RequireRole(pub UserRole);

/// The status that answers a request without a good token.
pub const STATUS_UNAUTHORIZED: u16 = 401;

/// The status that answers a request that the role does not allow.
pub const STATUS_FORBIDDEN: u16 = 403;

/// How long a login lasts, in hours.
pub const LOGIN_HOURS: i64 = 24;

/// Whether a user in the role `held` may do what asks for the role
/// `required`: every role what asks for that role itself, an administrator
/// everything, an operator also what a viewer or a system monitor may, a
/// system monitor also what a viewer may.
pub open spec fn permits(required: UserRole, held: UserRole) -> bool {
    held == required || match (required, held) {
        (_, UserRole::Admin) => true,
        (UserRole::Viewer, UserRole::Operator) => true,
        (UserRole::SystemMonitor, UserRole::Operator) => true,
        (UserRole::Viewer, UserRole::SystemMonitor) => true,
        _ => false,
    }
}

impl RequireRole {
    pub fn check_permission(&self, user_role: &UserRole) -> (allowed: bool)
        ensures
            allowed == permits(self.0, *user_role),
    {
        match (&self.0, user_role) {
            (_, UserRole::Admin) => true,
            (UserRole::Operator, UserRole::Operator) => true,
            (UserRole::Viewer, UserRole::Operator) => true,
            (UserRole::SystemMonitor, UserRole::Operator) => true,
            (UserRole::SystemMonitor, UserRole::SystemMonitor) => true,
            (UserRole::Viewer, UserRole::SystemMonitor) => true,
            (UserRole::Viewer, UserRole::Viewer) => true,
            _ => false,
        }
    }
}

/// Every role may do what asks for that role; an administrator may do
/// everything; nobody else may do what asks for an administrator; everybody
/// may do what asks for a viewer, and a viewer nothing more.
pub proof fn lemma_permission_ladder(required: UserRole, held: UserRole)
    ensures
        permits(held, held),
        permits(required, UserRole::Admin),
        permits(UserRole::Admin, held) <==> held == UserRole::Admin,
        permits(UserRole::Viewer, held),
        permits(required, UserRole::Viewer) <==> required == UserRole::Viewer,
{
}

/// Whole seconds since the epoch at `instant`, and zero before the epoch.
pub open spec fn epoch_seconds(instant: Timestamp) -> u64 {
    if instant.millis < 0 {
        0
    } else {
        (instant.millis / 1000) as u64
    }
}

/// The span of `hours` hours in milliseconds, held in range.
pub open spec fn hours_as_millis(hours: u64) -> int {
    clamp_i64(hours * MILLIS_PER_HOUR)
}

/// The users that are known, in the order in which a login is tried
/// against them: name, password, identifier, address, role.
pub open spec fn known_user(username: Seq<char>, password: Seq<char>) -> Option<
    (Seq<char>, Seq<char>, UserRole),
> {
    if username == "admin"@ && password == "admin123"@ {
        Some(("user_admin_001"@, "admin@railway.gov.in"@, UserRole::Admin))
    } else if username == "operator"@ && password == "operator123"@ {
        Some(("user_operator_001"@, "operator@railway.gov.in"@, UserRole::Operator))
    } else if username == "viewer"@ && password == "viewer123"@ {
        Some(("user_viewer_001"@, "viewer@railway.gov.in"@, UserRole::Viewer))
    } else {
        None
    }
}

/// The settings of token handling.
#[derive(Debug)]
pub struct AuthService {
    pub secret: String,
    pub token_expiry_hours: u64,
}

fn seconds_of(instant: Timestamp) -> (seconds: u64)
    ensures
        seconds == epoch_seconds(instant),
{
    if instant.millis < 0 {
        0
    } else {
        (instant.millis / 1000) as u64
    }
}

impl AuthService {
    pub fn new(secret: &str, token_expiry_hours: u64) -> (service: AuthService)
        ensures
            service.secret@ == secret@,
            service.token_expiry_hours == token_expiry_hours,
    {
        AuthService { secret: secret.to_owned(), token_expiry_hours }
    }

    /// The claims of a token that is issued to `user` at `now`: it expires
    /// after the configured number of hours.
    pub fn claims_for(&self, user: &User, now: Timestamp) -> (claims: Claims)
        ensures
            claims.sub@ == user.id@,
            claims.username@ == user.username@,
            claims.role == user.role,
            claims.iat == epoch_seconds(now),
            claims.exp == epoch_seconds(
                now.spec_plus_millis(hours_as_millis(self.token_expiry_hours)),
            ),
    {
        let span: i64 = if self.token_expiry_hours > (i64::MAX / MILLIS_PER_HOUR) as u64 {
            i64::MAX
        } else {
            self.token_expiry_hours as i64 * MILLIS_PER_HOUR
        };
        Claims {
            sub: user.id.clone(),
            username: user.username.clone(),
            role: user.role,
            exp: seconds_of(now.plus_millis(span)),
            iat: seconds_of(now),
        }
    }

    /// Whether claims have run out at `now`.
    pub fn is_expired(claims: &Claims, now: Timestamp) -> (expired: bool)
        ensures
            expired == (claims.exp < epoch_seconds(now)),
    {
        claims.exp < seconds_of(now)
    }

    /// The user that the credentials stand for, as of `now`, if they are
    /// those of a known user.
    pub fn authenticate_at(&self, username: &str, password: &str, now: Timestamp) -> (user: Option<User>)
        ensures
            match known_user(username@, password@) {
                Some((id, email, role)) => user matches Some(u) && u.id@ == id && u.username@
                    == username@ && u.email@ == email && u.role == role && u.created_at == now
                    && u.last_login == Some(now) && u.active,
                None => user is None,
            },
    {
        let name = username.to_owned();
        let word = password.to_owned();
        let found: Option<(&str, &str, UserRole)> = if is_text(&name, "admin") && is_text(
            &word,
            "admin123",
        ) {
            Some(("user_admin_001", "admin@railway.gov.in", UserRole::Admin))
        } else if is_text(&name, "operator") && is_text(&word, "operator123") {
            Some(("user_operator_001", "operator@railway.gov.in", UserRole::Operator))
        } else if is_text(&name, "viewer") && is_text(&word, "viewer123") {
            Some(("user_viewer_001", "viewer@railway.gov.in", UserRole::Viewer))
        } else {
            None
        };
        match found {
            Some((id, email, role)) => Some(
                User {
                    id: id.to_owned(),
                    username: name,
                    email: email.to_owned(),
                    role,
                    created_at: now,
                    last_login: Some(now),
                    active: true,
                },
            ),
            None => None,
        }
    }

    /// The user that the credentials stand for, as of the current instant.
    pub fn authenticate_user(&self, username: &str, password: &str) -> (user: Option<User>)
        ensures
            match known_user(username@, password@) {
                Some((id, email, role)) => user matches Some(u) && u.id@ == id && u.username@
                    == username@ && u.email@ == email && u.role == role && u.last_login == Some(
                    u.created_at,
                ) && u.active,
                None => user is None,
            },
    {
        let now = current_time();
        self.authenticate_at(username, password, now)
    }

    /// The answer to a login that succeeded at `now` with `token`.
    pub fn login_response(token: String, user: User, now: Timestamp) -> (response: LoginResponse)
        ensures
            response.token@ == token@,
            response.user.id@ == user.id@,
            response.user.username@ == user.username@,
            response.user.email@ == user.email@,
            response.user.role == user.role,
            response.expires_at == now.spec_plus_millis(LOGIN_HOURS * MILLIS_PER_HOUR),
    {
        LoginResponse {
            token,
            user: UserInfo {
                id: user.id,
                username: user.username,
                email: user.email,
                role: user.role,
            },
            expires_at: now.plus_millis(LOGIN_HOURS * MILLIS_PER_HOUR),
        }
    }
}

/// The token that an authorization header carries: what follows "Bearer ".
pub open spec fn bearer_token_of(header: Seq<char>) -> Option<Seq<char>> {
    if header.len() >= 7 && header.subrange(0, 7) == "Bearer "@ {
        Some(header.subrange(7, header.len() as int))
    } else {
        None
    }
}

/// The token that an authorization header carries, if it carries one.
pub fn bearer_token(header: &str) -> (token: Option<String>)
    ensures
        match token {
            Some(t) => bearer_token_of(header@) == Some(t@),
            None => bearer_token_of(header@) is None,
        },
{
    proof {
        reveal_strlit("Bearer ");
    }
    let length = header.unicode_len();
    if length < 7 {
        return None;
    }
    let matches_prefix = header.get_char(0) == 'B' && header.get_char(1) == 'e' && header.get_char(
        2,
    ) == 'a' && header.get_char(3) == 'r' && header.get_char(4) == 'e' && header.get_char(5)
        == 'r' && header.get_char(6) == ' ';
    if !matches_prefix {
        assert(header@.subrange(0, 7) != "Bearer "@) by {
            if header@.subrange(0, 7) == "Bearer "@ {
                assert(header@.subrange(0, 7)[0] == 'B');
                assert(header@.subrange(0, 7)[1] == 'e');
                assert(header@.subrange(0, 7)[2] == 'a');
                assert(header@.subrange(0, 7)[3] == 'r');
                assert(header@.subrange(0, 7)[4] == 'e');
                assert(header@.subrange(0, 7)[5] == 'r');
                assert(header@.subrange(0, 7)[6] == ' ');
            }
        }
        return None;
    }
    assert(header@.subrange(0, 7) =~= "Bearer "@);
    Some(header.substring_char(7, length).to_owned())
}

/// Lets the user pass if the role allows what asks for `required_role`, and
/// answers with "forbidden" otherwise.
pub fn require_role(required_role: UserRole, user: AuthenticatedUser) -> (passed: Result<
    AuthenticatedUser,
    u16,
>)
    ensures
        match passed {
            Ok(u) => permits(required_role, user.0.role) && u == user,
            Err(status) => !permits(required_role, user.0.role) && status == STATUS_FORBIDDEN,
        },
{
    let rule = RequireRole(required_role);
    if rule.check_permission(&user.0.role) {
        Ok(user)
    } else {
        Err(STATUS_FORBIDDEN)
    }
}

/// What is shown of the user behind a token.
pub fn get_user_info(user: AuthenticatedUser) -> (info: UserInfo)
    ensures
        info.id@ == user.0.sub@,
        info.username@ == user.0.username@,
        info.email@ == user.0.username@ + "@railway.gov.in"@,
        info.role == user.0.role,
{
    let mut email = user.0.username.clone();
    email.append("@railway.gov.in");
    UserInfo { id: user.0.sub, username: user.0.username, email, role: user.0.role }
}

} // verus!
