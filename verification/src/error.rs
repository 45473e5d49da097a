//! The errors that a request can end in, and what is reported of each.

use vstd::prelude::*;
use vstd::string::StringExecFns;
use crate::delegation::AuthError;
use crate::response::ApiResponse;

verus! {

/// Why a request failed.
#[derive(Debug, Clone, PartialEq, Eq)]
pub enum AppError {
    /// A principal's textual form could not be read.
    InvalidPrincipal(String),
    /// The user's profile could not be fetched.
    UserProfileFetchError(String),
    /// There is no such user.
    UserNotFound,
    /// The storage service did not commit.
    StorageError(String),
    /// Something failed that the caller cannot mend.
    InternalError(String),
    /// The record registry could not be reached.
    AgentError(String),
    /// The credential was refused, for the reason given.
    InvalidDelegatedIdentity(AuthError),
    /// There is no such post.
    PostNotFound(String),
    /// The credential speaks for someone other than the post's owner.
    Unauthorized(String),
    /// The record registry refused the request.
    CanisterError(String),
    /// A value could not be serialised.
    SerializationError(String),
}

/// The mathematical content of an [`AppError`].
pub enum AppErrorView {
    InvalidPrincipal(Seq<char>),
    UserProfileFetchError(Seq<char>),
    UserNotFound,
    StorageError(Seq<char>),
    InternalError(Seq<char>),
    AgentError(Seq<char>),
    InvalidDelegatedIdentity(AuthError),
    PostNotFound(Seq<char>),
    Unauthorized(Seq<char>),
    CanisterError(Seq<char>),
    SerializationError(Seq<char>),
}

impl View for AppError {
    type V = AppErrorView;

    open spec fn view(&self) -> AppErrorView {
        match self {
            AppError::InvalidPrincipal(m) => AppErrorView::InvalidPrincipal(m@),
            AppError::UserProfileFetchError(m) => AppErrorView::UserProfileFetchError(m@),
            AppError::UserNotFound => AppErrorView::UserNotFound,
            AppError::StorageError(m) => AppErrorView::StorageError(m@),
            AppError::InternalError(m) => AppErrorView::InternalError(m@),
            AppError::AgentError(m) => AppErrorView::AgentError(m@),
            AppError::InvalidDelegatedIdentity(e) => AppErrorView::InvalidDelegatedIdentity(*e),
            AppError::PostNotFound(m) => AppErrorView::PostNotFound(m@),
            AppError::Unauthorized(m) => AppErrorView::Unauthorized(m@),
            AppError::CanisterError(m) => AppErrorView::CanisterError(m@),
            AppError::SerializationError(m) => AppErrorView::SerializationError(m@),
        }
    }
}

/// The words that tell why a credential was refused.
pub open spec fn auth_error_text(e: AuthError) -> Seq<char> {
    match e {
        AuthError::InvalidDelegation => "a link of the delegation chain is broken or forged"@,
        AuthError::DelegationExpired => "a link of the delegation chain has expired"@,
        AuthError::KeyFormatError => "a key is malformed"@,
        AuthError::EmptyChainKeyMismatch => "the signing key is not the root key of an empty delegation chain"@,
    }
}

/// The status code that the transport reports for an error.
pub open spec fn status_of(e: AppErrorView) -> u16 {
    match e {
        AppErrorView::InvalidPrincipal(_) => 400,
        AppErrorView::UserProfileFetchError(_) => 400,
        AppErrorView::UserNotFound => 404,
        AppErrorView::StorageError(_) => 503,
        AppErrorView::InternalError(_) => 500,
        AppErrorView::AgentError(_) => 502,
        AppErrorView::InvalidDelegatedIdentity(_) => 400,
        AppErrorView::PostNotFound(_) => 404,
        AppErrorView::Unauthorized(_) => 403,
        AppErrorView::CanisterError(_) => 502,
        AppErrorView::SerializationError(_) => 500,
    }
}

/// The message that is reported for an error.
pub open spec fn message_of(e: AppErrorView) -> Seq<char> {
    match e {
        AppErrorView::InvalidPrincipal(m) => "Invalid principal: "@ + m,
        AppErrorView::UserProfileFetchError(m) => "Failed to fetch user profile: "@ + m,
        AppErrorView::UserNotFound => "User not found"@,
        AppErrorView::StorageError(m) => "Storage error: "@ + m,
        AppErrorView::InternalError(m) => "Internal server error: "@ + m,
        AppErrorView::AgentError(m) => "Agent error: "@ + m,
        AppErrorView::InvalidDelegatedIdentity(e) => "Invalid delegated identity: "@
            + auth_error_text(e),
        AppErrorView::PostNotFound(m) => "Post not found: "@ + m,
        AppErrorView::Unauthorized(m) => "Unauthorized: "@ + m,
        AppErrorView::CanisterError(m) => "Canister error: "@ + m,
        AppErrorView::SerializationError(m) => "Serialization error: "@ + m,
    }
}

/// `prefix` followed by `rest`.
fn prefixed(prefix: &str, rest: &str) -> (r: String)
    ensures
        r@ == prefix@ + rest@,
{
    String::from_str(prefix).concat(rest)
}

impl AuthError {
    /// The words that tell why the credential was refused.
    pub fn message(&self) -> (r: String)
        ensures
            r@ == auth_error_text(*self),
    {
        match self {
            AuthError::InvalidDelegation => String::from_str(
                "a link of the delegation chain is broken or forged",
            ),
            AuthError::DelegationExpired => String::from_str(
                "a link of the delegation chain has expired",
            ),
            AuthError::KeyFormatError => String::from_str("a key is malformed"),
            AuthError::EmptyChainKeyMismatch => String::from_str(
                "the signing key is not the root key of an empty delegation chain",
            ),
        }
    }
}

impl AppError {
    /// The status code that the transport reports for this error.
    pub fn status_code(&self) -> (r: u16)
        ensures
            r == status_of(self@),
    {
        match self {
            AppError::InvalidPrincipal(_) => 400,
            AppError::UserProfileFetchError(_) => 400,
            AppError::UserNotFound => 404,
            AppError::StorageError(_) => 503,
            AppError::InternalError(_) => 500,
            AppError::AgentError(_) => 502,
            AppError::InvalidDelegatedIdentity(_) => 400,
            AppError::PostNotFound(_) => 404,
            AppError::Unauthorized(_) => 403,
            AppError::CanisterError(_) => 502,
            AppError::SerializationError(_) => 500,
        }
    }

    /// The message that is reported for this error.
    pub fn message(&self) -> (r: String)
        ensures
            r@ == message_of(self@),
    {
        match self {
            AppError::InvalidPrincipal(m) => prefixed("Invalid principal: ", m.as_str()),
            AppError::UserProfileFetchError(m) => prefixed(
                "Failed to fetch user profile: ",
                m.as_str(),
            ),
            AppError::UserNotFound => String::from_str("User not found"),
            AppError::StorageError(m) => prefixed("Storage error: ", m.as_str()),
            AppError::InternalError(m) => prefixed("Internal server error: ", m.as_str()),
            AppError::AgentError(m) => prefixed("Agent error: ", m.as_str()),
            AppError::InvalidDelegatedIdentity(e) => prefixed(
                "Invalid delegated identity: ",
                e.message().as_str(),
            ),
            AppError::PostNotFound(m) => prefixed("Post not found: ", m.as_str()),
            AppError::Unauthorized(m) => prefixed("Unauthorized: ", m.as_str()),
            AppError::CanisterError(m) => prefixed("Canister error: ", m.as_str()),
            AppError::SerializationError(m) => prefixed("Serialization error: ", m.as_str()),
        }
    }

    /// The response that reports this error: no data, the error's message
    /// and its status code.
    pub fn to_api_response<T>(&self) -> (r: ApiResponse<T>)
        ensures
            r.is_failure(message_of(self@), status_of(self@)),
    {
        ApiResponse {
            success: false,
            data: None,
            error_message: Some(self.message()),
            status_code: self.status_code(),
        }
    }
}

} // verus!
