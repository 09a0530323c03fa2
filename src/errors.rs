//! The application's error type, the HTTP status of each error, and the JSON
//! body that reports it.
use vstd::prelude::*;
use vstd::string::StringExecFns;

use crate::json::{json_quoted, quote};
use crate::store::StoreError;

verus! {

#[derive(Debug)]
pub enum AppError {
    InternalError,
    BadRequest(String),
    Unauthorized,
    Forbidden,
    NotFound(String),
    Conflict(String),
    DatabaseError(StoreError),
    PasswordHashError,
    AwsError(String),
    InvalidOtp,
    OtpExpired,
}

/// The decimal digit of value `d`.
pub open spec fn digit_char(d: nat) -> char {
    "0123456789"@[d as int]
}

/// The decimal text of `n`, without leading zeros.
pub open spec fn decimal(n: nat) -> Seq<char>
    decreases n,
{
    if n < 10 {
        seq![digit_char(n)]
    } else {
        decimal(n / 10) + seq![digit_char(n % 10)]
    }
}

fn digit_text(d: u16) -> (r: String)
    requires
        d < 10,
    ensures
        r@ == seq![digit_char(d as nat)],
{
    let digits = "0123456789";
    proof {
        reveal_strlit("0123456789");
    }
    let i: usize = d as usize;
    let s = digits.substring_char(i, i + 1);
    assert(s@ =~= seq![digit_char(d as nat)]);
    String::from_str(s)
}

/// The decimal text of `n`.
pub fn decimal_text(n: u16) -> (r: String)
    ensures
        r@ == decimal(n as nat),
    decreases n,
{
    if n < 10 {
        digit_text(n)
    } else {
        let mut s = decimal_text(n / 10);
        let d = digit_text(n % 10);
        s.append(d.as_str());
        s
    }
}

impl AppError {
    /// The HTTP status code of this error.
    pub open spec fn spec_status_code(&self) -> u16 {
        match self {
            AppError::InternalError => 500,
            AppError::BadRequest(_) => 400,
            AppError::Unauthorized => 401,
            AppError::Forbidden => 403,
            AppError::NotFound(_) => 404,
            AppError::Conflict(_) => 409,
            AppError::DatabaseError(_) => 500,
            AppError::PasswordHashError => 500,
            AppError::AwsError(_) => 500,
            AppError::InvalidOtp => 400,
            AppError::OtpExpired => 400,
        }
    }

    pub fn status_code(&self) -> (r: u16)
        ensures
            r == self.spec_status_code(),
    {
        match self {
            AppError::InternalError => 500,
            AppError::BadRequest(_) => 400,
            AppError::Unauthorized => 401,
            AppError::Forbidden => 403,
            AppError::NotFound(_) => 404,
            AppError::Conflict(_) => 409,
            AppError::DatabaseError(_) => 500,
            AppError::PasswordHashError => 500,
            AppError::AwsError(_) => 500,
            AppError::InvalidOtp => 400,
            AppError::OtpExpired => 400,
        }
    }

    /// The human-readable description of this error.
    pub open spec fn spec_message(&self) -> Seq<char> {
        match self {
            AppError::InternalError => "Internal server error"@,
            AppError::BadRequest(s) => "Bad request: "@ + s@,
            AppError::Unauthorized => "Unauthorized"@,
            AppError::Forbidden => "Forbidden"@,
            AppError::NotFound(s) => "Not found: "@ + s@,
            AppError::Conflict(s) => "Conflict: "@ + s@,
            AppError::DatabaseError(e) => "Database error: "@ + e.spec_message(),
            AppError::PasswordHashError => "Password hash error"@,
            AppError::AwsError(s) => "AWS error: "@ + s@,
            AppError::InvalidOtp => "Invalid OTP"@,
            AppError::OtpExpired => "OTP expired"@,
        }
    }

    pub fn message(&self) -> (r: String)
        ensures
            r@ == self.spec_message(),
    {
        match self {
            AppError::InternalError => String::from_str("Internal server error"),
            AppError::BadRequest(s) => String::from_str("Bad request: ").concat(s.as_str()),
            AppError::Unauthorized => String::from_str("Unauthorized"),
            AppError::Forbidden => String::from_str("Forbidden"),
            AppError::NotFound(s) => String::from_str("Not found: ").concat(s.as_str()),
            AppError::Conflict(s) => String::from_str("Conflict: ").concat(s.as_str()),
            AppError::DatabaseError(e) => {
                let m = e.message();
                String::from_str("Database error: ").concat(m.as_str())
            },
            AppError::PasswordHashError => String::from_str("Password hash error"),
            AppError::AwsError(s) => String::from_str("AWS error: ").concat(s.as_str()),
            AppError::InvalidOtp => String::from_str("Invalid OTP"),
            AppError::OtpExpired => String::from_str("OTP expired"),
        }
    }

    /// What the error body tells the client: database details stay inside.
    pub open spec fn spec_public_message(&self) -> Seq<char> {
        match self {
            AppError::DatabaseError(_) => "Database error occurred"@,
            _ => self.spec_message(),
        }
    }

    /// The JSON body of the error response: `{"code":<status>,"error":<text>}`.
    pub open spec fn spec_body(&self) -> Seq<char> {
        "{\"code\":"@ + decimal(self.spec_status_code() as nat) + ",\"error\":"@ + json_quoted(
            self.spec_public_message(),
        ) + "}"@
    }

    pub fn error_body(&self) -> (r: String)
        ensures
            r@ == self.spec_body(),
    {
        let text = match self {
            AppError::DatabaseError(_) => String::from_str("Database error occurred"),
            _ => self.message(),
        };
        let mut s = String::from_str("{\"code\":");
        let code = decimal_text(self.status_code());
        s.append(code.as_str());
        s.append(",\"error\":");
        let q = quote(text.as_str());
        s.append(q.as_str());
        s.append("}");
        s
    }
}

} // verus!
