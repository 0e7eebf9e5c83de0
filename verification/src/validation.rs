//! Domain validation of login credentials.
//!
//! An account name must be non-empty after trimming, at most 20 grapheme
//! clusters long, and free of a fixed set of forbidden characters; a password
//! must be non-empty after trimming and between 8 and 48 grapheme clusters.
//! Validation happens before storage is touched, and the error messages are
//! internal only: the login flow collapses them all to `Unauthorized` so no
//! rule is revealed to the client.

use vstd::prelude::*;

verus! {

/// Number of extended grapheme clusters in a string, as
/// `unicode_segmentation` counts them.
pub uninterp spec fn grapheme_count_of(s: Seq<char>) -> nat;

/// Plain ASCII without carriage returns: text in which every character is
/// its own grapheme cluster.
pub open spec fn plain_ascii(s: Seq<char>) -> bool {
    forall|i: int| 0 <= i < s.len() ==> (#[trigger] s[i]) <= '\u{007F}' && s[i] != '\r'
}

/// Relies on unicode_segmentation's `graphemes(s, true)`: the extended
/// grapheme cluster segmentation of a string depends on its characters
/// alone; every cluster holds at least one character, and in ASCII text
/// without carriage returns every character is its own cluster.
#[verifier::external_body]
fn grapheme_count(s: &str) -> (n: usize)
    ensures
        n == grapheme_count_of(s@),
        n <= s@.len(),
        plain_ascii(s@) ==> n == s@.len(),
{
    unicode_segmentation::UnicodeSegmentation::graphemes(s, true).count()
}

/// The characters with the Unicode `White_Space` property, i.e. those that
/// trimming removes.
pub open spec fn is_whitespace_char(c: char) -> bool {
    ||| c == '\u{0009}'
    ||| c == '\u{000A}'
    ||| c == '\u{000B}'
    ||| c == '\u{000C}'
    ||| c == '\u{000D}'
    ||| c == ' '
    ||| c == '\u{0085}'
    ||| c == '\u{00A0}'
    ||| c == '\u{1680}'
    ||| ('\u{2000}' <= c && c <= '\u{200A}')
    ||| c == '\u{2028}'
    ||| c == '\u{2029}'
    ||| c == '\u{202F}'
    ||| c == '\u{205F}'
    ||| c == '\u{3000}'
}

fn is_whitespace_char_exec(c: char) -> (r: bool)
    ensures
        r == is_whitespace_char(c),
{
    c == '\u{0009}' || c == '\u{000A}' || c == '\u{000B}' || c == '\u{000C}' || c == '\u{000D}'
        || c == ' ' || c == '\u{0085}' || c == '\u{00A0}' || c == '\u{1680}'
        || ('\u{2000}' <= c && c <= '\u{200A}') || c == '\u{2028}' || c == '\u{2029}'
        || c == '\u{202F}' || c == '\u{205F}' || c == '\u{3000}'
}

/// A string is blank when every character is whitespace; trimming such a
/// string leaves it empty.
pub open spec fn all_whitespace(s: Seq<char>) -> bool {
    forall|i: int| 0 <= i < s.len() ==> is_whitespace_char(#[trigger] s[i])
}

fn is_all_whitespace(s: &String) -> (r: bool)
    ensures
        r == all_whitespace(s@),
{
    let len = s.as_str().unicode_len();
    let mut i: usize = 0;
    while i < len
        invariant
            i <= len,
            len == s@.len(),
            forall|j: int| 0 <= j < i ==> is_whitespace_char(#[trigger] s@[j]),
        decreases len - i,
    {
        if !is_whitespace_char_exec(s.as_str().get_char(i)) {
            return false;
        }
        i = i + 1;
    }
    true
}

/// The characters an account name may not contain.
pub open spec fn is_forbidden_char(c: char) -> bool {
    ||| c == '/'
    ||| c == '('
    ||| c == ')'
    ||| c == '"'
    ||| c == '<'
    ||| c == '>'
    ||| c == '\\'
    ||| c == '{'
    ||| c == '}'
    ||| c == ';'
}

fn is_forbidden_char_exec(c: char) -> (r: bool)
    ensures
        r == is_forbidden_char(c),
{
    c == '/' || c == '(' || c == ')' || c == '"' || c == '<' || c == '>' || c == '\\'
        || c == '{' || c == '}' || c == ';'
}

pub open spec fn has_forbidden_char(s: Seq<char>) -> bool {
    exists|i: int| 0 <= i < s.len() && is_forbidden_char(#[trigger] s[i])
}

fn contains_forbidden_char(s: &String) -> (r: bool)
    ensures
        r == has_forbidden_char(s@),
{
    let len = s.as_str().unicode_len();
    let mut i: usize = 0;
    while i < len
        invariant
            i <= len,
            len == s@.len(),
            forall|j: int| 0 <= j < i ==> !is_forbidden_char(#[trigger] s@[j]),
        decreases len - i,
    {
        if is_forbidden_char_exec(s.as_str().get_char(i)) {
            return true;
        }
        i = i + 1;
    }
    false
}

/// Internal description of why a credential was rejected; logged, never
/// shown to the client.
#[derive(Debug)]
pub struct LoginDataError {
    message: String,
}

impl View for LoginDataError {
    type V = Seq<char>;

    closed spec fn view(&self) -> Seq<char> {
        self.message@
    }
}

impl LoginDataError {
    fn new(message: String) -> (r: Self)
        ensures
            r@ == message@,
    {
        LoginDataError { message }
    }

    /// The internal message, for the log sink.
    pub fn message(&self) -> (r: &String)
        ensures
            r@ == self@,
    {
        &self.message
    }
}

/// The domain rules an account name must satisfy.
pub open spec fn valid_account_name(s: Seq<char>) -> bool {
    &&& !all_whitespace(s)
    &&& grapheme_count_of(s) <= 20
    &&& !has_forbidden_char(s)
}

/// The message with which an account name submission is rejected, if any;
/// the rules are checked in exactly this order.
pub open spec fn account_name_error(s: Option<Seq<char>>) -> Option<Seq<char>> {
    match s {
        Option::None => Some("Missing account name field"@),
        Option::Some(v) => if all_whitespace(v) {
            Some("Missing account name"@)
        } else if grapheme_count_of(v) > 20 {
            Some("Account name too long"@)
        } else if has_forbidden_char(v) {
            Some("Account name contains invalid chars"@)
        } else {
            None
        },
    }
}

/// An account name that passed validation.
#[derive(Debug, Clone)]
pub struct AccountName {
    inner: String,
}

impl View for AccountName {
    type V = Seq<char>;

    closed spec fn view(&self) -> Seq<char> {
        self.inner@
    }
}

impl AccountName {
    /// Validates a submitted account name: the field must be present,
    /// non-blank, at most 20 grapheme clusters, and free of forbidden
    /// characters. Exactly the invalid inputs are rejected, each with its
    /// internal message.
    pub fn parse(s: &Option<String>) -> (r: Result<AccountName, LoginDataError>)
        ensures
            match r {
                Ok(n) => {
                    &&& account_name_error(view_opt(s)) is None
                    &&& s matches Some(v) && n@ == v@
                    &&& valid_account_name(n@)
                },
                Err(e) => account_name_error(view_opt(s)) == Some(e@),
            },
            match s {
                Option::Some(v) => !all_whitespace(v@) ==> grapheme_count_of(v@) <= v@.len() && (
                plain_ascii(v@) ==> grapheme_count_of(v@) == v@.len()),
                Option::None => true,
            },
    {
        match s {
            Option::None => Err(LoginDataError::new("Missing account name field".to_owned())),
            Option::Some(v) => {
                if is_all_whitespace(v) {
                    Err(LoginDataError::new("Missing account name".to_owned()))
                } else if grapheme_count(v.as_str()) > 20 {
                    Err(LoginDataError::new("Account name too long".to_owned()))
                } else if contains_forbidden_char(v) {
                    Err(LoginDataError::new("Account name contains invalid chars".to_owned()))
                } else {
                    Ok(AccountName { inner: v.clone() })
                }
            },
        }
    }

    /// The validated name.
    pub fn as_str(&self) -> (r: &str)
        ensures
            r@ == self@,
    {
        self.inner.as_str()
    }
}

/// The domain rules a password must satisfy.
pub open spec fn valid_password(s: Seq<char>) -> bool {
    &&& !all_whitespace(s)
    &&& 8 <= grapheme_count_of(s) <= 48
}

/// The message with which a password submission is rejected, if any; the
/// rules are checked in exactly this order.
pub open spec fn password_error(s: Option<Seq<char>>) -> Option<Seq<char>> {
    match s {
        Option::None => Some("Missing pw field"@),
        Option::Some(v) => if all_whitespace(v) {
            Some("Missing pw"@)
        } else if grapheme_count_of(v) > 48 {
            Some("Password too long"@)
        } else if grapheme_count_of(v) < 8 {
            Some("Password too short"@)
        } else {
            None
        },
    }
}

/// A password that passed validation.
#[derive(Debug, Clone)]
pub struct AccountPassword {
    inner: String,
}

impl View for AccountPassword {
    type V = Seq<char>;

    closed spec fn view(&self) -> Seq<char> {
        self.inner@
    }
}

impl AccountPassword {
    /// Validates a submitted password: the field must be present, non-blank,
    /// and between 8 and 48 grapheme clusters. Exactly the invalid inputs
    /// are rejected, each with its internal message.
    pub fn parse(s: &Option<String>) -> (r: Result<AccountPassword, LoginDataError>)
        ensures
            match r {
                Ok(p) => {
                    &&& password_error(view_opt(s)) is None
                    &&& s matches Some(v) && p@ == v@
                    &&& valid_password(p@)
                },
                Err(e) => password_error(view_opt(s)) == Some(e@),
            },
            match s {
                Option::Some(v) => !all_whitespace(v@) ==> grapheme_count_of(v@) <= v@.len() && (
                plain_ascii(v@) ==> grapheme_count_of(v@) == v@.len()),
                Option::None => true,
            },
    {
        match s {
            Option::None => Err(LoginDataError::new("Missing pw field".to_owned())),
            Option::Some(v) => {
                if is_all_whitespace(v) {
                    Err(LoginDataError::new("Missing pw".to_owned()))
                } else if grapheme_count(v.as_str()) > 48 {
                    Err(LoginDataError::new("Password too long".to_owned()))
                } else if grapheme_count(v.as_str()) < 8 {
                    Err(LoginDataError::new("Password too short".to_owned()))
                } else {
                    Ok(AccountPassword { inner: v.clone() })
                }
            },
        }
    }

    /// The validated password.
    pub fn as_str(&self) -> (r: &str)
        ensures
            r@ == self@,
    {
        self.inner.as_str()
    }
}

/// Validated login credentials: an account name and a password.
#[derive(Debug)]
pub struct LoginData {
    pub account_name: AccountName,
    pub password: AccountPassword,
}

/// A submitted credential pair is valid when both fields are present and
/// both pass their domain rules.
pub open spec fn valid_login(account: Option<Seq<char>>, pw: Option<Seq<char>>) -> bool {
    &&& account matches Some(a) && valid_account_name(a)
    &&& pw matches Some(p) && valid_password(p)
}

impl LoginData {
    /// Validates a submitted credential pair and succeeds exactly on valid
    /// pairs. The account name is checked first: on failure the error is the
    /// account name's, else the password's.
    pub fn parse(account: &Option<String>, pw: &Option<String>) -> (r: Result<
        LoginData,
        LoginDataError,
    >)
        ensures
            match r {
                Ok(d) => {
                    &&& account_name_error(view_opt(account)) is None
                    &&& password_error(view_opt(pw)) is None
                    &&& account matches Some(a) && d.account_name@ == a@
                    &&& pw matches Some(p) && d.password@ == p@
                    &&& valid_login(view_opt(account), view_opt(pw))
                },
                Err(e) => {
                    &&& !valid_login(view_opt(account), view_opt(pw))
                    &&& match account_name_error(view_opt(account)) {
                        Some(m) => e@ == m,
                        None => password_error(view_opt(pw)) == Some(e@),
                    }
                },
            },
    {
        let account_name = match AccountName::parse(account) {
            Ok(n) => n,
            Err(e) => {
                return Err(e);
            },
        };
        let password = match AccountPassword::parse(pw) {
            Ok(p) => p,
            Err(e) => {
                return Err(e);
            },
        };
        Ok(LoginData { account_name, password })
    }
}

/// The view of an optional string.
pub open spec fn view_opt(s: &Option<String>) -> Option<Seq<char>> {
    match s {
        Option::Some(v) => Some(v@),
        Option::None => None,
    }
}

} // verus!
