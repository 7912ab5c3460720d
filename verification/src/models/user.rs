//! User-facing records of the authentication endpoints: the outbound
//! registration/login payload and the typed results and errors.

use vstd::prelude::*;

verus! {

/// Errors of the login operation.
#[derive(Debug, Clone)]
pub enum LoginError {
    /// The request could not be sent or the response body could not be
    /// read (connection refused, timeout, broken transfer).
    ConnectionError,
    /// A response arrived but its body did not parse as a success
    /// record.  The raw body is kept verbatim so a caller can surface
    /// the server-supplied message.
    CredentialsError(String),
}

/// The successful login payload: user id, username, and an opaque
/// bearer token.  The token arrives on the wire under the key
/// `jwtToken`; this record pins it to the one canonical field.
#[derive(Debug, Clone, PartialEq, Eq)]
pub struct LoginResult {
    pub id: i32,
    pub username: String,
    pub jwt_token: String,
}

/// Errors of the register operation.
#[derive(Debug, Clone)]
pub enum RegisterError {
    /// The request could not be sent or the response body could not be
    /// read.
    ConnectionError,
    /// The server answered with the exact sentinel body
    /// `"Email already exists"`; the sentinel is carried verbatim.
    EmailError(String),
    /// The server answered with the exact sentinel body
    /// `"Username already exists"`; the sentinel is carried verbatim.
    UsernameError(String),
    /// Reserved for server-reported password rejections; no operation
    /// of this library produces it.
    PasswordError(String),
    /// A response arrived that matched no sentinel and did not parse as
    /// a success record; the raw body is kept verbatim.
    CredentialsError(String),
}

/// The successful registration payload.  The token arrives on the wire
/// under the key `jwt`.
#[derive(Debug, Clone, PartialEq, Eq)]
pub struct RegisterResult {
    pub id: i32,
    pub username: String,
    pub email: String,
    pub jwt: String,
}

/// The outbound registration/login payload.
///
/// `secret_key` is present only for privileged (admin) registration;
/// when it is `None` the serialized payload omits the key entirely
/// rather than sending `null`.
#[derive(Debug, Clone)]
pub struct User {
    pub username: String,
    pub email: String,
    pub password: String,
    pub confirm_password: String,
    pub secret_key: Option<String>,
}

impl User {
    /// A standard (non-privileged) payload: no secret key.
    pub fn new(username: &str, email: &str, password: &str, confirm_password: &str) -> (user: User)
        ensures
            user.username@ == username@,
            user.email@ == email@,
            user.password@ == password@,
            user.confirm_password@ == confirm_password@,
            user.secret_key is None,
    {
        User {
            username: String::from_str(username),
            email: String::from_str(email),
            password: String::from_str(password),
            confirm_password: String::from_str(confirm_password),
            secret_key: None,
        }
    }

    /// The payload with every field empty and no secret key.
    pub fn empty() -> (user: User)
        ensures
            user.username@ == Seq::<char>::empty(),
            user.email@ == Seq::<char>::empty(),
            user.password@ == Seq::<char>::empty(),
            user.confirm_password@ == Seq::<char>::empty(),
            user.secret_key is None,
    {
        User {
            username: String::new(),
            email: String::new(),
            password: String::new(),
            confirm_password: String::new(),
            secret_key: None,
        }
    }

    /// The same payload marked for privileged registration: the given
    /// secret key will be serialized under the `secretKey` field.
    pub fn with_secret_key(self, secret_key: &str) -> (user: User)
        ensures
            user.username@ == self.username@,
            user.email@ == self.email@,
            user.password@ == self.password@,
            user.confirm_password@ == self.confirm_password@,
            user.secret_key matches Some(k) && k@ == secret_key@,
    {
        User { secret_key: Some(String::from_str(secret_key)), ..self }
    }
}

} // verus!
