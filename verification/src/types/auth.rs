//! Validated wrappers for user names, passwords and bearer tokens, and API
//! key records.
use vstd::prelude::*;
use crate::types::time::UtcTime;

verus! {

/// Whether `c` is an ASCII letter or digit.
pub open spec fn is_ascii_alphanumeric(c: char) -> bool {
    ('a' <= c && c <= 'z') || ('A' <= c && c <= 'Z') || ('0' <= c && c <= '9')
}

/// The characters a user name may hold: ASCII letters and digits, `_`, `@`,
/// `.`, `+` and `-`.
pub open spec fn is_username_char(c: char) -> bool {
    is_ascii_alphanumeric(c) || c == '_' || c == '@' || c == '.' || c == '+' || c == '-'
}

/// The characters a token may hold: ASCII letters and digits, `_`, `\` and `-`.
pub open spec fn is_token_char(c: char) -> bool {
    is_ascii_alphanumeric(c) || c == '_' || c == '\\' || c == '-'
}

/// Whether `s` is non-empty and made only of user-name characters.
pub open spec fn matches_username_pattern(s: Seq<char>) -> bool {
    s.len() > 0 && forall|i: int| 0 <= i < s.len() ==> is_username_char(#[trigger] s[i])
}

/// Whether `s` is non-empty and made only of token characters.
pub open spec fn matches_token_pattern(s: Seq<char>) -> bool {
    s.len() > 0 && forall|i: int| 0 <= i < s.len() ==> is_token_char(#[trigger] s[i])
}

/// The length of a text in bytes of UTF-8, as `str::len` counts it.
pub open spec fn byte_len(s: Seq<char>) -> nat {
    vstd::utf8::encode_utf8(s).len()
}

/// The pattern of user names: one or more ASCII letters, digits, `_`, `@`,
/// `.`, `+` or `-`, from start to end.
pub const USERNAME_PATTERN: &'static str = r"^[a-zA-Z0-9_@.+\-]+$";

/// The pattern of tokens: one or more ASCII letters, digits, `_`, `\` or
/// `-`, from start to end.
pub const TOKEN_PATTERN: &'static str = r"^[a-zA-Z0-9_\\-]+$";

/// `Regex::new` of `pattern`, then `Regex::is_match` of `s`. Both patterns
/// of the library are valid, so `Regex::new` succeeds on them, and each
/// matches exactly the non-empty texts made only of the characters of its
/// class.
#[verifier::external_body]
fn pattern_is_match(pattern: &str, s: &str) -> (r: bool)
    requires
        pattern@ == USERNAME_PATTERN@ || pattern@ == TOKEN_PATTERN@,
    ensures
        pattern@ == USERNAME_PATTERN@ ==> r == matches_username_pattern(s@),
        pattern@ == TOKEN_PATTERN@ ==> r == matches_token_pattern(s@),
{
    match regex::Regex::new(pattern) {
        Ok(re) => re.is_match(s),
        Err(_) => false,
    }
}

/// The verdict of user-name validation: `None` when valid, else the reason.
pub open spec fn username_problem(s: &str) -> Option<Seq<char>> {
    if s@.len() == 0 {
        Some("Username cannot be empty"@)
    } else if byte_len(s@) > 50 {
        Some("Username cannot be longer than 50 characters"@)
    } else if !matches_username_pattern(s@) {
        Some("Username contains invalid characters"@)
    } else {
        None
    }
}

/// The verdict of password validation: `None` when valid, else the reason.
pub open spec fn password_problem(s: &str) -> Option<Seq<char>> {
    if s@.len() == 0 {
        Some("Password cannot be empty"@)
    } else if byte_len(s@) < 8 {
        Some("Password must be at least 8 characters long"@)
    } else if byte_len(s@) > 128 {
        Some("Password cannot be longer than 128 characters"@)
    } else {
        None
    }
}

/// The verdict of token validation: `None` when valid, else the reason.
pub open spec fn token_problem(s: &str) -> Option<Seq<char>> {
    if s@.len() == 0 {
        Some("Token cannot be empty"@)
    } else if byte_len(s@) < 10 {
        Some("Token must be at least 10 characters long"@)
    } else if byte_len(s@) > 256 {
        Some("Token cannot be longer than 256 characters"@)
    } else if !matches_token_pattern(s@) {
        Some("Token contains invalid characters"@)
    } else {
        None
    }
}

/// A user name.
#[derive(Debug, Clone)]
pub struct Username(String);

impl View for Username {
    type V = Seq<char>;

    closed spec fn view(&self) -> Seq<char> {
        self.0@
    }
}

impl Username {
    /// Creates a user name, checking that it is non-empty, at most 50 bytes
    /// long and made only of letters, digits, `_ @ . + -`.
    pub fn new(username: &str) -> (r: Result<Username, String>)
        ensures
            username_problem(username) is None ==> (r matches Ok(u) && u@ == username@),
            username_problem(username) matches Some(m) ==> (r matches Err(e) && e@ == m),
    {
        if username.is_empty() {
            return Err(String::from_str("Username cannot be empty"));
        }
        if username.as_bytes().len() > 50 {
            return Err(String::from_str("Username cannot be longer than 50 characters"));
        }
        if !pattern_is_match(USERNAME_PATTERN, username) {
            return Err(String::from_str("Username contains invalid characters"));
        }
        Ok(Username(String::from_str(username)))
    }

    /// Creates a user name without checking it.
    pub fn new_unchecked(username: String) -> (r: Username)
        ensures
            r@ == username@,
    {
        Username(username)
    }

    /// The name as text.
    pub fn as_str(&self) -> (r: &str)
        ensures
            r@ == self@,
    {
        self.0.as_str()
    }

    /// The name as an owned string.
    pub fn into_inner(self) -> (r: String)
        ensures
            r@ == self@,
    {
        self.0
    }
}

/// A password; it prints as `[REDACTED]`.
#[derive(Clone)]
pub struct Password(String);

impl View for Password {
    type V = Seq<char>;

    closed spec fn view(&self) -> Seq<char> {
        self.0@
    }
}

impl Password {
    /// Creates a password, checking that it is between 8 and 128 bytes long.
    pub fn new(password: &str) -> (r: Result<Password, String>)
        ensures
            password_problem(password) is None ==> (r matches Ok(p) && p@ == password@),
            password_problem(password) matches Some(m) ==> (r matches Err(e) && e@ == m),
    {
        if password.is_empty() {
            return Err(String::from_str("Password cannot be empty"));
        }
        if password.as_bytes().len() < 8 {
            return Err(String::from_str("Password must be at least 8 characters long"));
        }
        if password.as_bytes().len() > 128 {
            return Err(String::from_str("Password cannot be longer than 128 characters"));
        }
        Ok(Password(String::from_str(password)))
    }

    /// Creates a password without checking it.
    pub fn new_unchecked(password: String) -> (r: Password)
        ensures
            r@ == password@,
    {
        Password(password)
    }

    /// The secret password text.
    pub fn expose_secret(&self) -> (r: &str)
        ensures
            r@ == self@,
    {
        self.0.as_str()
    }

    /// The length of the password in bytes.
    pub fn len(&self) -> (r: usize)
        ensures
            r == byte_len(self@),
    {
        self.0.as_str().as_bytes().len()
    }

    /// Whether the password is empty.
    pub fn is_empty(&self) -> (r: bool)
        ensures
            r == (self@.len() == 0),
    {
        self.0.as_str().is_empty()
    }

    /// What the password prints as.
    pub fn redacted(&self) -> (r: &'static str)
        ensures
            r@ == "[REDACTED]"@,
    {
        "[REDACTED]"
    }
}

/// A bearer token; it prints as `[REDACTED]`.
#[derive(Clone)]
pub struct Token(String);

impl View for Token {
    type V = Seq<char>;

    closed spec fn view(&self) -> Seq<char> {
        self.0@
    }
}

impl Token {
    /// Creates a token, checking that it is between 10 and 256 bytes long and
    /// made only of letters, digits, `_ \ -`.
    pub fn new(token: &str) -> (r: Result<Token, String>)
        ensures
            token_problem(token) is None ==> (r matches Ok(t) && t@ == token@),
            token_problem(token) matches Some(m) ==> (r matches Err(e) && e@ == m),
    {
        if token.is_empty() {
            return Err(String::from_str("Token cannot be empty"));
        }
        if token.as_bytes().len() < 10 {
            return Err(String::from_str("Token must be at least 10 characters long"));
        }
        if token.as_bytes().len() > 256 {
            return Err(String::from_str("Token cannot be longer than 256 characters"));
        }
        if !pattern_is_match(TOKEN_PATTERN, token) {
            return Err(String::from_str("Token contains invalid characters"));
        }
        Ok(Token(String::from_str(token)))
    }

    /// Creates a token without checking it.
    pub fn new_unchecked(token: String) -> (r: Token)
        ensures
            r@ == token@,
    {
        Token(token)
    }

    /// The secret token text.
    pub fn expose_secret(&self) -> (r: &str)
        ensures
            r@ == self@,
    {
        self.0.as_str()
    }

    /// What the token prints as.
    pub fn redacted(&self) -> (r: &'static str)
        ensures
            r@ == "[REDACTED]"@,
    {
        "[REDACTED]"
    }
}

/// An API key: its id, name, permissions and dates.
#[derive(Debug, Clone)]
pub struct ApiKey {
    pub key_id: String,
    pub name: String,
    pub description: Option<String>,
    pub permissions: Vec<String>,
    pub created_at: UtcTime,
    pub expires_at: Option<UtcTime>,
    pub last_used: Option<UtcTime>,
}

} // verus!
