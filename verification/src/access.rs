use vstd::prelude::*;
use vstd::string::{StrSliceExecFns, StringExecFns};

use crate::error::AppError;
use crate::model::{GroupId, UserId};
use crate::text::{trim, trim_str};

verus! {

/// The longest group name, in characters.
pub const GROUP_NAME_MAX_LEN: usize = 30;

/// Whether `requester` may act on a group owned by `group_owner` (`None`: no such group).
pub fn check_group_owner(group_owner: Option<UserId>, requester: UserId) -> (r: Result<(), AppError>)
    ensures
        match group_owner {
            None => r matches Err(AppError::NotFound),
            Some(owner) => if owner == requester { r is Ok } else { r matches Err(AppError::Forbidden) },
        },
{
    match group_owner {
        None => Err(AppError::NotFound),
        Some(owner) => if owner == requester {
            Ok(())
        } else {
            Err(AppError::Forbidden)
        },
    }
}

/// Whether a filter (of group `filter_group`; `None`: no such filter) belongs
/// to group `group_id`; a filter of another group counts as not found.
pub fn check_filter_in_group(filter_group: Option<GroupId>, group_id: GroupId) -> (r: Result<(), AppError>)
    ensures
        r is Ok <==> filter_group == Some(group_id),
        r is Err ==> (r matches Err(AppError::NotFound)),
{
    match filter_group {
        Some(g) => if g == group_id {
            Ok(())
        } else {
            Err(AppError::NotFound)
        },
        None => Err(AppError::NotFound),
    }
}

/// The looked-up value, or `NotFound`.
pub fn require_found<T>(found: Option<T>) -> (r: Result<T, AppError>)
    ensures
        match found {
            Some(v) => r == Ok::<T, AppError>(v),
            None => r matches Err(AppError::NotFound),
        },
{
    match found {
        Some(v) => Ok(v),
        None => Err(AppError::NotFound),
    }
}

/// The message of an unacceptable group name.
pub open spec fn group_name_message() -> Seq<char> {
    "グループ名は1〜30文字で入力してください"@
}

/// A group name, trimmed; it must keep 1 to 30 characters.
pub fn validate_group_name(name: &str) -> (r: Result<String, AppError>)
    ensures
        match r {
            Ok(n) => n@ == trim(name@) && 1 <= n@.len() <= GROUP_NAME_MAX_LEN,
            Err(e) => (trim(name@).len() == 0 || trim(name@).len() > GROUP_NAME_MAX_LEN)
                && (e matches AppError::InvalidInput(m) && m@ == group_name_message()),
        },
{
    let n = trim_str(name);
    let len = n.as_str().unicode_len();
    if len == 0 || len > GROUP_NAME_MAX_LEN {
        return Err(AppError::InvalidInput(String::from_str("グループ名は1〜30文字で入力してください")));
    }
    Ok(n)
}

/// The message when the ticker is missing.
pub open spec fn ticker_missing_message() -> Seq<char> {
    "tickerを入力してください"@
}

/// The message when the company name is missing.
pub open spec fn company_missing_message() -> Seq<char> {
    "company_nameを入力してください"@
}

/// Checks a filter's fields: its canonical ticker and its company name must
/// not be blank. Gives the trimmed company name.
pub fn validate_filter_fields(normalized_ticker: &str, company_name: &str) -> (r: Result<String, AppError>)
    ensures
        normalized_ticker@.len() == 0 ==> (r matches Err(AppError::InvalidInput(m)) && m@ == ticker_missing_message()),
        normalized_ticker@.len() > 0 && trim(company_name@).len() == 0 ==> (r matches Err(AppError::InvalidInput(m))
            && m@ == company_missing_message()),
        normalized_ticker@.len() > 0 && trim(company_name@).len() > 0 ==> (r matches Ok(c) && c@ == trim(company_name@)),
{
    if normalized_ticker.is_empty() {
        return Err(AppError::InvalidInput(String::from_str("tickerを入力してください")));
    }
    let company = trim_str(company_name);
    if company.as_str().is_empty() {
        return Err(AppError::InvalidInput(String::from_str("company_nameを入力してください")));
    }
    Ok(company)
}

/// The message when the user name is missing.
pub open spec fn username_missing_message() -> Seq<char> {
    "ユーザ名を入力してください"@
}

/// The message when the password is missing.
pub open spec fn password_missing_message() -> Seq<char> {
    "パスワードを入力してください"@
}

/// A new user's name, trimmed; it must not be blank.
pub fn validate_username(username: &str) -> (r: Result<String, AppError>)
    ensures
        trim(username@).len() == 0 ==> (r matches Err(AppError::InvalidInput(m)) && m@ == username_missing_message()),
        trim(username@).len() > 0 ==> (r matches Ok(n) && n@ == trim(username@)),
{
    let n = trim_str(username);
    if n.as_str().is_empty() {
        return Err(AppError::InvalidInput(String::from_str("ユーザ名を入力してください")));
    }
    Ok(n)
}

/// An administrator's name (trimmed) and password: neither may be blank, the name checked first.
pub fn validate_admin_credentials(username: &str, password: &str) -> (r: Result<String, AppError>)
    ensures
        trim(username@).len() == 0 ==> (r matches Err(AppError::InvalidInput(m)) && m@ == username_missing_message()),
        trim(username@).len() > 0 && password@.len() == 0 ==> (r matches Err(AppError::InvalidInput(m))
            && m@ == password_missing_message()),
        trim(username@).len() > 0 && password@.len() > 0 ==> (r matches Ok(n) && n@ == trim(username@)),
{
    let n = validate_username(username)?;
    if password.is_empty() {
        return Err(AppError::InvalidInput(String::from_str("パスワードを入力してください")));
    }
    Ok(n)
}

/// A user name already in use is refused.
pub fn ensure_username_free(taken: bool) -> (r: Result<(), AppError>)
    ensures
        taken ==> (r matches Err(AppError::UsernameAlreadyExists)),
        !taken ==> r is Ok,
{
    if taken {
        Err(AppError::UsernameAlreadyExists)
    } else {
        Ok(())
    }
}

} // verus!
