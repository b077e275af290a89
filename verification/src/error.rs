//! The error surface handed to the interface. Categories are actionable; internal
//! detail is never carried by `Internal`.

use vstd::prelude::*;

verus! {

#[derive(Debug)]
pub enum CoreError {
    Auth { message: String },
    Network,
    NotFound,
    Forbidden,
    RateLimited { retry_after_ms: u64 },
    Encryption { message: String },
    Internal,
}

impl CoreError {
    /// The text that describes the error to a person.
    pub open spec fn display_text(self) -> Seq<char> {
        match self {
            CoreError::Auth { message } => "authentication failed: "@ + message@,
            CoreError::Network => "network error"@,
            CoreError::NotFound => "not found"@,
            CoreError::Forbidden => "forbidden"@,
            CoreError::RateLimited { .. } => "rate limited"@,
            CoreError::Encryption { message } => "encryption error: "@ + message@,
            CoreError::Internal => "internal error"@,
        }
    }

    /// The error's text, for a person to read.
    pub fn to_string(&self) -> (s: String)
        ensures
            s@ == self.display_text(),
    {
        match self {
            CoreError::Auth { message } => {
                let mut s = "authentication failed: ".to_owned();
                s.append(message.as_str());
                s
            },
            CoreError::Network => "network error".to_owned(),
            CoreError::NotFound => "not found".to_owned(),
            CoreError::Forbidden => "forbidden".to_owned(),
            CoreError::RateLimited { .. } => "rate limited".to_owned(),
            CoreError::Encryption { message } => {
                let mut s = "encryption error: ".to_owned();
                s.append(message.as_str());
                s
            },
            CoreError::Internal => "internal error".to_owned(),
        }
    }
}

impl Clone for CoreError {
    fn clone(&self) -> (res: Self)
        ensures
            res == *self,
    {
        match self {
            CoreError::Auth { message } => CoreError::Auth { message: message.clone() },
            CoreError::Network => CoreError::Network,
            CoreError::NotFound => CoreError::NotFound,
            CoreError::Forbidden => CoreError::Forbidden,
            CoreError::RateLimited { retry_after_ms } => CoreError::RateLimited {
                retry_after_ms: *retry_after_ms,
            },
            CoreError::Encryption { message } => CoreError::Encryption { message: message.clone() },
            CoreError::Internal => CoreError::Internal,
        }
    }
}

} // verus!
