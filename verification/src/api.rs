//! Settings of the HTTP subservice, its reply envelope, and the replies that
//! do not depend on any handler's own work.

use vstd::prelude::*;
use vstd::string::StringExecFns;
use crate::text::{decimal, push_decimal};

verus! {

/// The code of a reply that reports success.
pub const CODE_OK: i32 = 0;

/// The code of a reply that reports a failure.
pub const CODE_FAILED: i32 = -1;

/// The HTTP status sent with the reply to an unknown route.
pub const STATUS_NOT_FOUND: u16 = 404;

/// The HTTP status sent with the reply to a request that failed on the way.
pub const STATUS_INTERNAL_SERVER_ERROR: u16 = 500;

/// Where the HTTP subservice listens and how long a request may take.
#[derive(Clone, Debug)]
pub struct ApiServiceArgs {
    pub address: String,
    pub port: u16,
    /// Seconds allowed to a request, and to the drain at shutdown.
    pub timeout: u64,
}

impl ApiServiceArgs {
    /// The address to bind: `address:port`.
    pub open spec fn listen_addr_spec(&self) -> Seq<char> {
        self.address@ + ":"@ + decimal(self.port as nat)
    }

    /// The address to bind.
    pub fn listen_addr(&self) -> (addr: String)
        ensures
            addr@ == self.listen_addr_spec(),
    {
        let mut addr = String::new();
        addr.append(self.address.as_str());
        addr.append(":");
        push_decimal(&mut addr, self.port as u64);
        assert(addr@ =~= self.listen_addr_spec());
        addr
    }
}

/// Another name for the settings of the HTTP subservice.
pub type ApiServerArgs = ApiServiceArgs;

/// What a handler can report as the reason of a failure.
#[derive(Clone, Copy, Debug, PartialEq, Eq, Structural)]
pub enum ApiError {
    InternalError,
    WrongCredentials,
    MissingCredentials,
    TokenCreation,
    InvalidToken,
}

impl ApiError {
    /// The text of the error.
    pub open spec fn message_spec(self) -> Seq<char> {
        match self {
            ApiError::InternalError => "internal error"@,
            ApiError::WrongCredentials => "wrong credentials"@,
            ApiError::MissingCredentials => "missing credentials"@,
            ApiError::TokenCreation => "token creation failed"@,
            ApiError::InvalidToken => "invalid token"@,
        }
    }

    /// The text of the error.
    pub fn message(&self) -> (m: String)
        ensures
            m@ == self.message_spec(),
    {
        let text = match self {
            ApiError::InternalError => "internal error",
            ApiError::WrongCredentials => "wrong credentials",
            ApiError::MissingCredentials => "missing credentials",
            ApiError::TokenCreation => "token creation failed",
            ApiError::InvalidToken => "invalid token",
        };
        String::from_str(text)
    }
}

/// The envelope of every reply: a code, a message and, where there is any,
/// the data.
#[derive(Debug)]
pub struct ApiResponse<T> {
    code: i32,
    message: String,
    data: Option<T>,
}

/// An envelope as the contracts see it.
pub ghost struct ApiResponseView<T> {
    pub code: i32,
    pub message: Seq<char>,
    pub data: Option<T>,
}

impl<T> View for ApiResponse<T> {
    type V = ApiResponseView<T>;

    closed spec fn view(&self) -> ApiResponseView<T> {
        ApiResponseView { code: self.code, message: self.message@, data: self.data }
    }
}

impl<T> ApiResponse<T> {
    /// An envelope of the three parts given.
    pub fn new(code: i32, message: String, data: Option<T>) -> (r: Self)
        ensures
            r@ == (ApiResponseView { code, message: message@, data }),
    {
        Self { code, message, data }
    }

    /// The envelope of a success.
    pub fn ok(data: Option<T>) -> (r: Self)
        ensures
            r@ == (ApiResponseView { code: CODE_OK, message: "successful"@, data }),
    {
        Self::new(CODE_OK, String::from_str("successful"), data)
    }

    /// The envelope of a failure: the code and message given, and no data.
    pub fn err(code: i32, message: String) -> (r: Self)
        ensures
            r@ == (ApiResponseView { code, message: message@, data: None::<T> }),
    {
        Self::new(code, message, None)
    }

    /// The code of the envelope.
    pub fn code(&self) -> (c: i32)
        ensures
            c == self@.code,
    {
        self.code
    }

    /// The message of the envelope.
    pub fn message(&self) -> (m: &String)
        ensures
            m@ == self@.message,
    {
        &self.message
    }

    /// The data of the envelope.
    pub fn data(&self) -> (d: &Option<T>)
        ensures
            *d == self@.data,
    {
        &self.data
    }

    /// Takes the data out of the envelope.
    pub fn into_data(self) -> (d: Option<T>)
        ensures
            d == self@.data,
    {
        self.data
    }
}

/// The message of the reply to an unknown route.
pub open spec fn not_found_message(method: Seq<char>, uri: Seq<char>) -> Seq<char> {
    method + " "@ + uri + " Not Found"@
}

/// The message of the reply to a request that failed on the way.
pub open spec fn failed_message(method: Seq<char>, uri: Seq<char>) -> Seq<char> {
    method + " "@ + uri + " failed"@
}

/// The reply to a request for a route that does not exist: the status and
/// the envelope.
pub fn handler_404(method: &str, uri: &str) -> (r: (u16, ApiResponse<String>))
    ensures
        r.0 == STATUS_NOT_FOUND,
        r.1@ == (ApiResponseView {
            code: CODE_FAILED,
            message: not_found_message(method@, uri@),
            data: None::<String>,
        }),
{
    let mut message = String::new();
    message.append(method);
    message.append(" ");
    message.append(uri);
    message.append(" Not Found");
    assert(message@ =~= not_found_message(method@, uri@));
    (STATUS_NOT_FOUND, ApiResponse::err(CODE_FAILED, message))
}

/// The reply to a request that a layer gave up on, with the layer's own
/// words as the data.
pub fn handle_error(method: &str, uri: &str, err: String) -> (r: (u16, ApiResponse<String>))
    ensures
        r.0 == STATUS_INTERNAL_SERVER_ERROR,
        r.1@ == (ApiResponseView {
            code: CODE_FAILED,
            message: failed_message(method@, uri@),
            data: Some(err),
        }),
{
    let mut message = String::new();
    message.append(method);
    message.append(" ");
    message.append(uri);
    message.append(" failed");
    assert(message@ =~= failed_message(method@, uri@));
    (STATUS_INTERNAL_SERVER_ERROR, ApiResponse::new(CODE_FAILED, message, Some(err)))
}

/// The reply of the health route.
pub fn health() -> (r: ApiResponse<String>)
    ensures
        r@.code == CODE_OK,
        r@.message == "successful"@,
        r@.data is Some,
        r@.data->0@ == "healthy"@,
{
    ApiResponse::ok(Some(String::from_str("healthy")))
}

/// The reply to a request that carries no valid token.
pub fn invalid_token() -> (r: ApiResponse<ApiError>)
    ensures
        r@ == (ApiResponseView {
            code: CODE_FAILED,
            message: ApiError::InvalidToken.message_spec(),
            data: None::<ApiError>,
        }),
{
    ApiResponse::err(CODE_FAILED, ApiError::InvalidToken.message())
}

/// The reply of the route that sets the logging level. `applied` is `None`
/// where the request named no level, and otherwise tells whether the level
/// was accepted.
pub fn logging(applied: Option<bool>) -> (r: ApiResponse<String>)
    ensures
        applied == Some(false) ==> r@ == (ApiResponseView {
            code: CODE_FAILED,
            message: "failed"@,
            data: None::<String>,
        }),
        applied != Some(false) ==> {
            &&& r@.code == CODE_OK
            &&& r@.message == "successful"@
            &&& r@.data is Some
            &&& r@.data->0@ == "success"@
        },
{
    match applied {
        Some(false) => ApiResponse::err(CODE_FAILED, String::from_str("failed")),
        _ => ApiResponse::ok(Some(String::from_str("success"))),
    }
}

/// The claims that a token carries.
#[derive(Debug)]
pub struct Claims {
    pub sub: String,
    pub company: String,
    pub exp: usize,
}

impl Claims {
    /// The claims in words: the subject as the email, then the company.
    pub open spec fn describe_spec(&self) -> Seq<char> {
        "Email: "@ + self.sub@ + "\nCompany: "@ + self.company@
    }

    /// The claims in words.
    pub fn describe(&self) -> (s: String)
        ensures
            s@ == self.describe_spec(),
    {
        let mut s = String::new();
        s.append("Email: ");
        s.append(self.sub.as_str());
        s.append("\nCompany: ");
        s.append(self.company.as_str());
        assert(s@ =~= self.describe_spec());
        s
    }
}

/// The reply of the protected test route, which only a request with valid
/// claims reaches.
pub fn test(claims: &Claims) -> (r: ApiResponse<String>)
    ensures
        r@.code == CODE_OK,
        r@.message == "successful"@,
        r@.data is Some,
        r@.data->0@ == "test"@,
{
    ApiResponse::ok(Some(String::from_str("test")))
}

/// The body that answers a successful login.
#[derive(Debug)]
pub struct AuthBody {
    pub access_token: String,
    pub token_type: String,
}

impl AuthBody {
    /// The body for a bearer token.
    pub fn new(access_token: String) -> (b: Self)
        ensures
            b.access_token == access_token,
            b.token_type@ == "Bearer"@,
    {
        Self { access_token, token_type: String::from_str("Bearer") }
    }
}

/// The query of the badges route.
#[derive(Debug)]
pub struct BadgeQueryParams {
    pub badges: Option<Vec<String>>,
}

impl BadgeQueryParams {
    /// The badges asked for; none where the query names none.
    pub fn into_badges(self) -> (badges: Vec<String>)
        ensures
            badges@ == match self.badges {
                Some(list) => list@,
                None => Seq::<String>::empty(),
            },
    {
        match self.badges {
            Some(list) => list,
            None => Vec::new(),
        }
    }
}

/// The query of the logging route.
#[derive(Debug)]
pub struct LoggingLevelParams {
    pub level: Option<String>,
}

} // verus!
