use vstd::prelude::*;
use vstd::string::StringExecFns;

verus! {

/// What a use case of the service can fail with.
#[derive(Debug)]
pub enum AppError {
    UsernameAlreadyExists,
    InvalidInput(String),
    InvalidCredentials,
    UserDisabled,
    SessionInvalid,
    TokenError,
    /// A storage failure, with the storage layer's own description.
    Repository(String),
    NotFound,
    Forbidden,
    CryptoError,
    ImportEmpty,
    ScraperError(String),
    MonitorNotHealthy,
    /// Saving an export's xlsx file failed (the message says why). It is
    /// answered exactly as `InvalidInput` with the same message is.
    ExportSaveFailed(String),
}

/// The error codes of the API envelope.
#[derive(Debug, Clone, Copy, PartialEq, Eq, Structural)]
pub enum ApiErrorCode {
    Unauthorized,
    Forbidden,
    NotFound,
    AlreadyExists,
    InvalidRequest,
    NotifyConfigMissing,
    NotifySendFailed,
    NotifyRejected,
    ImportEmpty,
    InternalError,
}

/// The HTTP status that answers each error code.
pub open spec fn status_of(code: ApiErrorCode) -> u16 {
    match code {
        ApiErrorCode::Unauthorized => 401,
        ApiErrorCode::Forbidden => 403,
        ApiErrorCode::NotFound => 404,
        ApiErrorCode::AlreadyExists => 409,
        ApiErrorCode::InvalidRequest => 422,
        ApiErrorCode::NotifyConfigMissing => 422,
        ApiErrorCode::NotifySendFailed => 502,
        ApiErrorCode::NotifyRejected => 502,
        ApiErrorCode::ImportEmpty => 422,
        ApiErrorCode::InternalError => 500,
    }
}

impl ApiErrorCode {
    /// The HTTP status code (as its number) that carries this error.
    pub fn status_code(self) -> (s: u16)
        ensures
            s == status_of(self),
    {
        match self {
            ApiErrorCode::Unauthorized => 401,
            ApiErrorCode::Forbidden => 403,
            ApiErrorCode::NotFound => 404,
            ApiErrorCode::AlreadyExists => 409,
            ApiErrorCode::InvalidRequest => 422,
            ApiErrorCode::NotifyConfigMissing => 422,
            ApiErrorCode::NotifySendFailed => 502,
            ApiErrorCode::NotifyRejected => 502,
            ApiErrorCode::ImportEmpty => 422,
            ApiErrorCode::InternalError => 500,
        }
    }
}

/// The error part of the API envelope.
#[derive(Debug)]
pub struct ApiError {
    pub code: ApiErrorCode,
    pub message: String,
}

/// An error answered by a handler: its code and the message shown to the client.
#[derive(Debug)]
pub struct ApiAppError(pub ApiErrorCode, pub String);

/// The code under which an application error is answered.
pub open spec fn api_code_of(e: AppError) -> ApiErrorCode {
    match e {
        AppError::UsernameAlreadyExists => ApiErrorCode::AlreadyExists,
        AppError::InvalidInput(_) => ApiErrorCode::InvalidRequest,
        AppError::InvalidCredentials => ApiErrorCode::Unauthorized,
        AppError::UserDisabled => ApiErrorCode::Forbidden,
        AppError::SessionInvalid => ApiErrorCode::Unauthorized,
        AppError::TokenError => ApiErrorCode::InternalError,
        AppError::NotFound => ApiErrorCode::NotFound,
        AppError::Forbidden => ApiErrorCode::Forbidden,
        AppError::CryptoError => ApiErrorCode::InternalError,
        AppError::Repository(_) => ApiErrorCode::InternalError,
        AppError::ImportEmpty => ApiErrorCode::ImportEmpty,
        AppError::ScraperError(_) => ApiErrorCode::InternalError,
        AppError::MonitorNotHealthy => ApiErrorCode::InternalError,
        AppError::ExportSaveFailed(_) => ApiErrorCode::InvalidRequest,
    }
}

/// The message with which an application error is answered.
pub open spec fn api_message_of(e: AppError) -> Seq<char> {
    match e {
        AppError::UsernameAlreadyExists => "ユーザ名は既に使用されています"@,
        AppError::InvalidInput(m) => "入力が不正です: "@ + m@,
        AppError::InvalidCredentials => "ユーザ名またはパスワードが正しくありません"@,
        AppError::UserDisabled => "アカウントが無効化されています"@,
        AppError::SessionInvalid => "セッションが無効です"@,
        AppError::TokenError => "トークンの処理に失敗しました"@,
        AppError::NotFound => "対象が見つかりません"@,
        AppError::Forbidden => "この操作を行う権限がありません"@,
        AppError::CryptoError => "設定の処理に失敗しました"@,
        AppError::Repository(_) => "内部エラーが発生しました"@,
        AppError::ImportEmpty => "インポート対象の行が1件もありません"@,
        AppError::ScraperError(_) => "内部エラーが発生しました"@,
        AppError::MonitorNotHealthy => "内部エラーが発生しました"@,
        AppError::ExportSaveFailed(m) => "入力が不正です: "@ + m@,
    }
}

impl ApiAppError {
    /// The answer to an application error.
    pub fn from_app_error(e: AppError) -> (r: ApiAppError)
        ensures
            r.0 == api_code_of(e),
            r.1@ == api_message_of(e),
    {
        match e {
            AppError::UsernameAlreadyExists => ApiAppError(
                ApiErrorCode::AlreadyExists,
                String::from_str("ユーザ名は既に使用されています"),
            ),
            AppError::InvalidInput(m) => {
                let mut s = String::from_str("入力が不正です: ");
                s.append(m.as_str());
                ApiAppError(ApiErrorCode::InvalidRequest, s)
            },
            AppError::InvalidCredentials => ApiAppError(
                ApiErrorCode::Unauthorized,
                String::from_str("ユーザ名またはパスワードが正しくありません"),
            ),
            AppError::UserDisabled => ApiAppError(
                ApiErrorCode::Forbidden,
                String::from_str("アカウントが無効化されています"),
            ),
            AppError::SessionInvalid => ApiAppError(
                ApiErrorCode::Unauthorized,
                String::from_str("セッションが無効です"),
            ),
            AppError::TokenError => ApiAppError(
                ApiErrorCode::InternalError,
                String::from_str("トークンの処理に失敗しました"),
            ),
            AppError::NotFound => ApiAppError(
                ApiErrorCode::NotFound,
                String::from_str("対象が見つかりません"),
            ),
            AppError::Forbidden => ApiAppError(
                ApiErrorCode::Forbidden,
                String::from_str("この操作を行う権限がありません"),
            ),
            AppError::CryptoError => ApiAppError(
                ApiErrorCode::InternalError,
                String::from_str("設定の処理に失敗しました"),
            ),
            AppError::Repository(_) => ApiAppError(
                ApiErrorCode::InternalError,
                String::from_str("内部エラーが発生しました"),
            ),
            AppError::ImportEmpty => ApiAppError(
                ApiErrorCode::ImportEmpty,
                String::from_str("インポート対象の行が1件もありません"),
            ),
            AppError::ScraperError(_) => ApiAppError(
                ApiErrorCode::InternalError,
                String::from_str("内部エラーが発生しました"),
            ),
            AppError::MonitorNotHealthy => ApiAppError(
                ApiErrorCode::InternalError,
                String::from_str("内部エラーが発生しました"),
            ),
            AppError::ExportSaveFailed(m) => {
                let mut s = String::from_str("入力が不正です: ");
                s.append(m.as_str());
                ApiAppError(ApiErrorCode::InvalidRequest, s)
            },
        }
    }
}

/// The envelope of every API answer: data on success, an error otherwise.
pub struct ApiResponse<T> {
    pub data: Option<T>,
    pub error: Option<ApiError>,
}

impl<T> ApiResponse<T> {
    /// A successful answer carrying `data`.
    pub fn ok(data: T) -> (r: Self)
        ensures
            r.data == Some(data),
            r.error is None,
    {
        ApiResponse { data: Some(data), error: None }
    }
}

impl ApiResponse<()> {
    /// A failed answer carrying an error code and its message.
    pub fn err(code: ApiErrorCode, message: String) -> (r: Self)
        ensures
            r.data is None,
            r.error matches Some(e) && e.code == code && e.message@ == message@,
    {
        ApiResponse { data: None, error: Some(ApiError { code, message }) }
    }
}

} // verus!

verus! {

/// Each error code is answered with its own HTTP status: 401 Unauthorized,
/// 403 Forbidden, 404 Not Found, 409 Conflict, 422 Unprocessable Entity for
/// bad requests, missing notification settings and empty imports, 502 Bad
/// Gateway for failed or rejected sends, 500 for internal errors. In
/// particular an unauthenticated caller (401) and a caller without the right
/// (403) are told apart, and every code but the internal one is a 4xx or 502.
pub proof fn law_status_table(c: ApiErrorCode)
    ensures
        c == ApiErrorCode::Unauthorized <==> status_of(c) == 401,
        c == ApiErrorCode::Forbidden <==> status_of(c) == 403,
        c == ApiErrorCode::NotFound <==> status_of(c) == 404,
        c == ApiErrorCode::AlreadyExists <==> status_of(c) == 409,
        (c == ApiErrorCode::InvalidRequest || c == ApiErrorCode::NotifyConfigMissing || c == ApiErrorCode::ImportEmpty)
            <==> status_of(c) == 422,
        (c == ApiErrorCode::NotifySendFailed || c == ApiErrorCode::NotifyRejected) <==> status_of(c) == 502,
        c == ApiErrorCode::InternalError <==> status_of(c) == 500,
{
}

} // verus!
