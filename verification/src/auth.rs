use vstd::prelude::*;
use vstd::string::{StrSliceExecFns, StringExecFns};

use rand::rngs::ThreadRng;
use rand::Rng;

use crate::error::{AppError, ApiAppError, ApiErrorCode};
use crate::model::{Role, UserId};

verus! {

#[verifier::external_type_specification]
#[verifier::external_body]
pub struct ExThreadRng(rand::rngs::ThreadRng);

/// `rand::thread_rng`: the thread's random generator. Nothing is stated of it.
#[verifier::external_body]
fn thread_rng() -> ThreadRng {
    rand::thread_rng()
}

/// `Rng::gen_range(0..n)` from rand: a random index below `n` (rand panics
/// on an empty range, so `n` must be positive). Which index comes is not stated.
#[verifier::external_body]
fn gen_index(rng: &mut ThreadRng, n: usize) -> (i: usize)
    requires
        n > 0,
    ensures
        i < n,
{
    rng.gen_range(0..n)
}

/// The length of a temporary password.
pub const TEMP_PASSWORD_LEN: usize = 12;

/// The characters of a temporary password: letters and digits without the
/// look-alikes 0/O and 1/l/I.
pub open spec fn password_chars() -> Seq<char> {
    "ABCDEFGHJKMNPQRSTUVWXYZabcdefghijkmnpqrstuvwxyz23456789"@
}

/// The temporary password spelled by `draws`: character `draws[i]` of
/// [`password_chars`] at each position.
pub fn password_from_draws(draws: &Vec<usize>) -> (p: String)
    requires
        draws@.len() == TEMP_PASSWORD_LEN,
        forall|i: int| 0 <= i < draws@.len() ==> #[trigger] draws@[i] < password_chars().len(),
    ensures
        p@ == Seq::new(TEMP_PASSWORD_LEN as nat, |i: int| password_chars()[draws@[i] as int]),
{
    let chars: &str = "ABCDEFGHJKMNPQRSTUVWXYZabcdefghijkmnpqrstuvwxyz23456789";
    proof {
        reveal_strlit("ABCDEFGHJKMNPQRSTUVWXYZabcdefghijkmnpqrstuvwxyz23456789");
    }
    let mut p = String::new();
    let mut k: usize = 0;
    while k < TEMP_PASSWORD_LEN
        invariant
            k <= TEMP_PASSWORD_LEN,
            chars@ == password_chars(),
            password_chars().len() == 55,
            draws@.len() == TEMP_PASSWORD_LEN,
            forall|i: int| 0 <= i < draws@.len() ==> #[trigger] draws@[i] < password_chars().len(),
            p@ == Seq::new(k as nat, |i: int| password_chars()[draws@[i] as int]),
        decreases TEMP_PASSWORD_LEN - k,
    {
        let idx = draws[k];
        assert(draws@[k as int] < password_chars().len());
        let one = chars.substring_char(idx, idx + 1);
        p.append(one);
        assert(p@ =~= Seq::new((k + 1) as nat, |i: int| password_chars()[draws@[i] as int]));
        k = k + 1;
    }
    p
}

/// A temporary password: twelve characters drawn at random, each from
/// [`password_chars`] (which leaves out look-alike characters).
pub fn generate_temp_password() -> (p: String)
    ensures
        p@.len() == TEMP_PASSWORD_LEN,
        forall|i: int| 0 <= i < p@.len() ==> password_chars().contains(#[trigger] p@[i]),
{
    let n: usize = 55;
    assert(password_chars().len() == 55) by {
        reveal_strlit("ABCDEFGHJKMNPQRSTUVWXYZabcdefghijkmnpqrstuvwxyz23456789");
    }
    let mut rng = thread_rng();
    let mut draws: Vec<usize> = Vec::new();
    while draws.len() < TEMP_PASSWORD_LEN
        invariant
            draws@.len() <= TEMP_PASSWORD_LEN,
            n == password_chars().len(),
            n == 55,
            forall|i: int| 0 <= i < draws@.len() ==> #[trigger] draws@[i] < password_chars().len(),
        decreases TEMP_PASSWORD_LEN - draws@.len(),
    {
        let idx = gen_index(&mut rng, n);
        draws.push(idx);
    }
    let p = password_from_draws(&draws);
    assert forall|i: int| 0 <= i < p@.len() implies password_chars().contains(#[trigger] p@[i]) by {
        assert(p@[i] == password_chars()[draws@[i] as int]);
    }
    p
}

/// The first login check: the account must exist (`Some(disabled)`) and not be disabled.
pub fn login_account_gate(account_disabled: Option<bool>) -> (r: Result<(), AppError>)
    ensures
        account_disabled is None ==> (r matches Err(AppError::InvalidCredentials)),
        account_disabled == Some(true) ==> (r matches Err(AppError::UserDisabled)),
        account_disabled == Some(false) ==> r is Ok,
{
    match account_disabled {
        None => Err(AppError::InvalidCredentials),
        Some(true) => Err(AppError::UserDisabled),
        Some(false) => Ok(()),
    }
}

/// The password check of a login: `Some(true)` when the password matches,
/// `Some(false)` when it does not, `None` when it could not be checked.
pub fn login_password_gate(verified: Option<bool>) -> (r: Result<(), AppError>)
    ensures
        verified == Some(true) ==> r is Ok,
        verified != Some(true) ==> (r matches Err(AppError::InvalidCredentials)),
{
    match verified {
        Some(true) => Ok(()),
        _ => Err(AppError::InvalidCredentials),
    }
}

/// The token check of a refresh: the token must be known (`Some((revoked, expired))`),
/// not revoked and not expired.
pub fn refresh_token_gate(token: Option<(bool, bool)>) -> (r: Result<(), AppError>)
    ensures
        token == Some((false, false)) ==> r is Ok,
        token != Some((false, false)) ==> (r matches Err(AppError::SessionInvalid)),
{
    match token {
        Some((false, false)) => Ok(()),
        _ => Err(AppError::SessionInvalid),
    }
}

/// The account check of a refresh: the token's account must exist (`Some(disabled)`)
/// and not be disabled.
pub fn refresh_account_gate(account_disabled: Option<bool>) -> (r: Result<(), AppError>)
    ensures
        account_disabled is None ==> (r matches Err(AppError::SessionInvalid)),
        account_disabled == Some(true) ==> (r matches Err(AppError::UserDisabled)),
        account_disabled == Some(false) ==> r is Ok,
{
    match account_disabled {
        None => Err(AppError::SessionInvalid),
        Some(true) => Err(AppError::UserDisabled),
        Some(false) => Ok(()),
    }
}

/// The 128-bit value of the UUID that `text` spells, as the uuid crate parses
/// it, or `None` where it spells none.
pub uninterp spec fn uuid_value(text: Seq<char>) -> Option<u128>;

/// `Uuid::from_str` (then `as_u128`) from the uuid crate.
#[verifier::external_body]
fn parse_uuid(text: &str) -> (r: Option<u128>)
    ensures
        r == uuid_value(text@),
{
    text.parse::<uuid::Uuid>().ok().map(|u| u.as_u128())
}

/// The claims of a verified access token.
pub struct Claims {
    /// The user's identifier, as text.
    pub sub: String,
    pub role: Role,
}

/// The authenticated caller of a request.
#[derive(Clone, Copy, Debug)]
pub struct AuthUser {
    pub user_id: UserId,
    pub role: Role,
}

/// An authenticated caller with the administrator role.
#[derive(Clone, Copy, Debug)]
pub struct AdminUser(pub AuthUser);

/// The message of a request that needs authentication.
pub open spec fn auth_required_message() -> Seq<char> {
    "認証が必要です"@
}

/// The caller named by the claims of the request's access token (`None`:
/// no token, or a token that does not verify); its subject must be a UUID.
pub fn auth_user_from_claims(claims: Option<Claims>) -> (r: Result<AuthUser, ApiAppError>)
    ensures
        match claims {
            Some(c) => match uuid_value(c.sub@) {
                Some(id) => r == Ok::<AuthUser, ApiAppError>(AuthUser { user_id: id, role: c.role }),
                None => r matches Err(e) && e.0 == ApiErrorCode::Unauthorized && e.1@ == auth_required_message(),
            },
            None => r matches Err(e) && e.0 == ApiErrorCode::Unauthorized && e.1@ == auth_required_message(),
        },
{
    match claims {
        Some(c) => match parse_uuid(c.sub.as_str()) {
            Some(id) => Ok(AuthUser { user_id: id, role: c.role }),
            None => Err(ApiAppError(ApiErrorCode::Unauthorized, String::from_str("認証が必要です"))),
        },
        None => Err(ApiAppError(ApiErrorCode::Unauthorized, String::from_str("認証が必要です"))),
    }
}

/// The message of a request that needs the administrator role.
pub open spec fn admin_required_message() -> Seq<char> {
    "管理者権限が必要です"@
}

/// An administrator endpoint admits only callers with the administrator role.
pub fn require_admin(user: AuthUser) -> (r: Result<AdminUser, ApiAppError>)
    ensures
        user.role == Role::Admin ==> r == Ok::<AdminUser, ApiAppError>(AdminUser(user)),
        user.role != Role::Admin ==> (r matches Err(e) && e.0 == ApiErrorCode::Forbidden
            && e.1@ == admin_required_message()),
{
    if !user.role.is_admin() {
        return Err(ApiAppError(ApiErrorCode::Forbidden, String::from_str("管理者権限が必要です")));
    }
    Ok(AdminUser(user))
}

/// The message of a request without a valid session.
pub open spec fn session_invalid_message() -> Seq<char> {
    "セッションが無効です"@
}

/// A refresh needs the refresh-token cookie.
pub fn require_refresh_cookie(cookie: Option<String>) -> (r: Result<String, ApiAppError>)
    ensures
        match cookie {
            Some(v) => r == Ok::<String, ApiAppError>(v),
            None => r matches Err(e) && e.0 == ApiErrorCode::Unauthorized && e.1@ == session_invalid_message(),
        },
{
    match cookie {
        Some(v) => Ok(v),
        None => Err(ApiAppError(ApiErrorCode::Unauthorized, String::from_str("セッションが無効です"))),
    }
}

/// The caller's own name (`None`: the account no longer exists, which needs authentication again).
pub fn me_username(found: Option<String>) -> (r: Result<String, ApiAppError>)
    ensures
        match found {
            Some(n) => r == Ok::<String, ApiAppError>(n),
            None => r matches Err(e) && e.0 == ApiErrorCode::Unauthorized && e.1@ == auth_required_message(),
        },
{
    match found {
        Some(n) => Ok(n),
        None => Err(ApiAppError(ApiErrorCode::Unauthorized, String::from_str("認証が必要です"))),
    }
}

} // verus!
