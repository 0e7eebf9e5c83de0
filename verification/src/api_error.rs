//! Closed taxonomy of client-visible failure kinds and their display strings.
//!
//! Every internal failure is recovered into an `ApiErrorType` at its point of
//! origin and rendered by the envelope step. `DbError` and `Unexpected` never
//! leak implementation detail beyond a generic label; `Unauthorized` is the
//! deliberately coarse default for every authentication-adjacent failure, and
//! `Expired` is kept distinct so a client can tell "log in again" from
//! "access denied".

use vstd::prelude::*;

verus! {

/// The closed set of error kinds a failing operation can be classified into.
#[derive(Debug, Clone)]
pub enum ApiErrorType {
    BadRequest,
    DbError,
    NotFoundError,
    Unauthorized,
    Unexpected(String),
    Expired,
}

impl ApiErrorType {
    /// The client-safe string this kind renders to inside the envelope. The
    /// catch-all variant renders a fixed generic label: its detail never
    /// reaches the client.
    pub open spec fn label_view(&self) -> Seq<char> {
        match self {
            ApiErrorType::BadRequest => "Bad Request"@,
            ApiErrorType::DbError => "DB Error"@,
            ApiErrorType::NotFoundError => "Not found requested API endpoint"@,
            ApiErrorType::Unauthorized => "Unauthorized"@,
            ApiErrorType::Unexpected(_) => "Unexpected Error"@,
            ApiErrorType::Expired => "Expired"@,
        }
    }

    /// Renders the client-safe display string for this error kind.
    pub fn label(&self) -> (r: String)
        ensures
            r@ == self.label_view(),
    {
        match self {
            ApiErrorType::BadRequest => "Bad Request".to_owned(),
            ApiErrorType::DbError => "DB Error".to_owned(),
            ApiErrorType::NotFoundError => "Not found requested API endpoint".to_owned(),
            ApiErrorType::Unauthorized => "Unauthorized".to_owned(),
            ApiErrorType::Unexpected(_) => "Unexpected Error".to_owned(),
            ApiErrorType::Expired => "Expired".to_owned(),
        }
    }

    /// The detailed cause of an unclassified failure, for the log sink only;
    /// every other kind carries none.
    pub fn detail(&self) -> (r: Option<&String>)
        ensures
            match self {
                ApiErrorType::Unexpected(m) => r matches Some(d) && d@ == m@,
                _ => r is None,
            },
    {
        match self {
            ApiErrorType::Unexpected(m) => Some(m),
            _ => None,
        }
    }
}

} // verus!
