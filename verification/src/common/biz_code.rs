//! Business codes: the closed set of result codes of the services, each
//! with its canonical reason phrase.
use vstd::prelude::*;

use crate::common::text::{concat2, str_eq};

verus! {

broadcast use vstd::string::group_string_axioms;

/// A business result code. Only the listed codes exist; each has a
/// six-character code text and a reason phrase.
#[allow(non_camel_case_types)]
#[derive(Debug, Clone, Copy, PartialEq, Eq, Structural, Hash)]
pub enum BizCode {
    /// The request succeeded.
    SUCCESS,
    /// An unexpected failure.
    SYSTEM_ERROR,
    /// No static OAuth account is configured.
    STATIC_OAUTH_NOT_CONFIG,
    /// bcrypt failed to hash or verify.
    BCRYPT_ERROR,
    /// The credentials do not match.
    WRONG_CREDENTIALS,
    /// The bearer token is not valid.
    JWT_INVALID,
    /// A bearer token could not be created.
    JWT_CREATION_ERR,
    /// The login has expired.
    LOGIN_TIMEOUT,
    /// The authorization header is malformed.
    INVALID_AUTH_HEADER,
    /// The caller lacks the permission.
    NO_PERMISSION,
    /// The logout succeeded.
    LOGOUT_SUCCESS,
    /// The user id is unknown.
    LOGIN_UID_ERR,
    /// The password is wrong.
    LOGIN_PWD_ERR,
    /// A database failure.
    DATABASE_ERROR,
    /// An ORM failure.
    DIESEL_ERROR,
    /// No such user.
    USER_NOT_FOUND,
    /// A log body could not be turned into JSON.
    LOG_TO_JSON_STRING_ERROR,
    /// A log could not be sent to the server.
    REQWEST_ERROR,
}

/// The business code whose code text is `num`, if any.
pub open spec fn code_for_text(num: Seq<char>) -> Option<BizCode> {
    if num == "000000"@ {
        Some(BizCode::SUCCESS)
    } else     if num == "000001"@ {
        Some(BizCode::SYSTEM_ERROR)
    } else     if num == "000002"@ {
        Some(BizCode::STATIC_OAUTH_NOT_CONFIG)
    } else     if num == "BE0001"@ {
        Some(BizCode::BCRYPT_ERROR)
    } else     if num == "AU0001"@ {
        Some(BizCode::WRONG_CREDENTIALS)
    } else     if num == "AU0002"@ {
        Some(BizCode::JWT_INVALID)
    } else     if num == "AU0003"@ {
        Some(BizCode::JWT_CREATION_ERR)
    } else     if num == "AU0004"@ {
        Some(BizCode::LOGIN_TIMEOUT)
    } else     if num == "AU0005"@ {
        Some(BizCode::INVALID_AUTH_HEADER)
    } else     if num == "AU0006"@ {
        Some(BizCode::NO_PERMISSION)
    } else     if num == "AU0007"@ {
        Some(BizCode::LOGOUT_SUCCESS)
    } else     if num == "AU0008"@ {
        Some(BizCode::LOGIN_UID_ERR)
    } else     if num == "AU0009"@ {
        Some(BizCode::LOGIN_PWD_ERR)
    } else     if num == "DB0001"@ {
        Some(BizCode::DATABASE_ERROR)
    } else     if num == "ORM001"@ {
        Some(BizCode::DIESEL_ERROR)
    } else     if num == "UR0001"@ {
        Some(BizCode::USER_NOT_FOUND)
    } else     if num == "LG0001"@ {
        Some(BizCode::LOG_TO_JSON_STRING_ERROR)
    } else     if num == "NET001"@ {
        Some(BizCode::REQWEST_ERROR)
    } else {
        None
    }
}

/// The reason phrase registered for a code text, if any.
pub open spec fn reason_for_code(num: Seq<char>) -> Option<Seq<char>> {
    match code_for_text(num) {
        Some(c) => Some(c.reason_text()),
        None => None,
    }
}

impl BizCode {
    /// The code text of this business code.
    pub open spec fn code_text(self) -> Seq<char> {
        match self {
            BizCode::SUCCESS => "000000"@,
            BizCode::SYSTEM_ERROR => "000001"@,
            BizCode::STATIC_OAUTH_NOT_CONFIG => "000002"@,
            BizCode::BCRYPT_ERROR => "BE0001"@,
            BizCode::WRONG_CREDENTIALS => "AU0001"@,
            BizCode::JWT_INVALID => "AU0002"@,
            BizCode::JWT_CREATION_ERR => "AU0003"@,
            BizCode::LOGIN_TIMEOUT => "AU0004"@,
            BizCode::INVALID_AUTH_HEADER => "AU0005"@,
            BizCode::NO_PERMISSION => "AU0006"@,
            BizCode::LOGOUT_SUCCESS => "AU0007"@,
            BizCode::LOGIN_UID_ERR => "AU0008"@,
            BizCode::LOGIN_PWD_ERR => "AU0009"@,
            BizCode::DATABASE_ERROR => "DB0001"@,
            BizCode::DIESEL_ERROR => "ORM001"@,
            BizCode::USER_NOT_FOUND => "UR0001"@,
            BizCode::LOG_TO_JSON_STRING_ERROR => "LG0001"@,
            BizCode::REQWEST_ERROR => "NET001"@,
        }
    }

    /// The reason phrase of this business code.
    pub open spec fn reason_text(self) -> Seq<char> {
        match self {
            BizCode::SUCCESS => "Success"@,
            BizCode::SYSTEM_ERROR => "System error"@,
            BizCode::STATIC_OAUTH_NOT_CONFIG => "static oauth info not config"@,
            BizCode::BCRYPT_ERROR => "Bcrypt error"@,
            BizCode::WRONG_CREDENTIALS => "wrong credentials"@,
            BizCode::JWT_INVALID => "jwt token not valid"@,
            BizCode::JWT_CREATION_ERR => "jwt token creation error"@,
            BizCode::LOGIN_TIMEOUT => "Login timeout"@,
            BizCode::INVALID_AUTH_HEADER => "invalid auth2 header"@,
            BizCode::NO_PERMISSION => "no permission"@,
            BizCode::LOGOUT_SUCCESS => "Logout success"@,
            BizCode::LOGIN_UID_ERR => "Login uid incorrect"@,
            BizCode::LOGIN_PWD_ERR => "Login password incorrect"@,
            BizCode::DATABASE_ERROR => "Database error"@,
            BizCode::DIESEL_ERROR => "Diesel error"@,
            BizCode::USER_NOT_FOUND => "User not found"@,
            BizCode::LOG_TO_JSON_STRING_ERROR => "LogBody to json string error"@,
            BizCode::REQWEST_ERROR => "Send log to server error"@,
        }
    }

    /// `code: reason`, the text of `code_reason`.
    pub open spec fn code_reason_text(self) -> Seq<char> {
        self.code_text() + ": "@ + self.reason_text()
    }

    /// The code text.
    pub fn code(&self) -> (r: &'static str)
        ensures
            r@ == self.code_text(),
    {
        match self {
            BizCode::SUCCESS => "000000",
            BizCode::SYSTEM_ERROR => "000001",
            BizCode::STATIC_OAUTH_NOT_CONFIG => "000002",
            BizCode::BCRYPT_ERROR => "BE0001",
            BizCode::WRONG_CREDENTIALS => "AU0001",
            BizCode::JWT_INVALID => "AU0002",
            BizCode::JWT_CREATION_ERR => "AU0003",
            BizCode::LOGIN_TIMEOUT => "AU0004",
            BizCode::INVALID_AUTH_HEADER => "AU0005",
            BizCode::NO_PERMISSION => "AU0006",
            BizCode::LOGOUT_SUCCESS => "AU0007",
            BizCode::LOGIN_UID_ERR => "AU0008",
            BizCode::LOGIN_PWD_ERR => "AU0009",
            BizCode::DATABASE_ERROR => "DB0001",
            BizCode::DIESEL_ERROR => "ORM001",
            BizCode::USER_NOT_FOUND => "UR0001",
            BizCode::LOG_TO_JSON_STRING_ERROR => "LG0001",
            BizCode::REQWEST_ERROR => "NET001",
        }
    }

    /// The reason phrase, looked up by the code text.
    pub fn reason(&self) -> (r: Option<&'static str>)
        ensures
            r matches Some(t) && t@ == self.reason_text(),
    {
        proof {
            lemma_code_registered(*self);
        }
        canonical_reason(self.code())
    }

    /// `code: reason`.
    pub fn code_reason(&self) -> (r: String)
        ensures
            r@ == self.code_reason_text(),
    {
        let reason = match self.reason() {
            Some(t) => t,
            None => "",
        };
        let mut r = concat2(self.code(), ": ");
        r.append(reason);
        r
    }
}

/// Looks a code text up in the table of registered codes.
pub fn canonical_reason(num: &str) -> (r: Option<&'static str>)
    ensures
        match r {
            Some(t) => reason_for_code(num@) == Some(t@),
            None => reason_for_code(num@) is None,
        },
{
    if str_eq(num, "000000") {
        return Some("Success");
    }
    if str_eq(num, "000001") {
        return Some("System error");
    }
    if str_eq(num, "000002") {
        return Some("static oauth info not config");
    }
    if str_eq(num, "BE0001") {
        return Some("Bcrypt error");
    }
    if str_eq(num, "AU0001") {
        return Some("wrong credentials");
    }
    if str_eq(num, "AU0002") {
        return Some("jwt token not valid");
    }
    if str_eq(num, "AU0003") {
        return Some("jwt token creation error");
    }
    if str_eq(num, "AU0004") {
        return Some("Login timeout");
    }
    if str_eq(num, "AU0005") {
        return Some("invalid auth2 header");
    }
    if str_eq(num, "AU0006") {
        return Some("no permission");
    }
    if str_eq(num, "AU0007") {
        return Some("Logout success");
    }
    if str_eq(num, "AU0008") {
        return Some("Login uid incorrect");
    }
    if str_eq(num, "AU0009") {
        return Some("Login password incorrect");
    }
    if str_eq(num, "DB0001") {
        return Some("Database error");
    }
    if str_eq(num, "ORM001") {
        return Some("Diesel error");
    }
    if str_eq(num, "UR0001") {
        return Some("User not found");
    }
    if str_eq(num, "LG0001") {
        return Some("LogBody to json string error");
    }
    if str_eq(num, "NET001") {
        return Some("Send log to server error");
    }
    None
}

/// Every business code is found again from its own code text.
pub proof fn lemma_code_for_own_text(c: BizCode)
    ensures
        code_for_text(c.code_text()) == Some(c),
{
    reveal_strlit("000000");
    reveal_strlit("000001");
    reveal_strlit("000002");
    reveal_strlit("BE0001");
    reveal_strlit("AU0001");
    reveal_strlit("AU0002");
    reveal_strlit("AU0003");
    reveal_strlit("AU0004");
    reveal_strlit("AU0005");
    reveal_strlit("AU0006");
    reveal_strlit("AU0007");
    reveal_strlit("AU0008");
    reveal_strlit("AU0009");
    reveal_strlit("DB0001");
    reveal_strlit("ORM001");
    reveal_strlit("UR0001");
    reveal_strlit("LG0001");
    reveal_strlit("NET001");
    match c {
        BizCode::SUCCESS => {
        },
        BizCode::SYSTEM_ERROR => {
            assert("000001"@[5] != "000000"@[5]);
        },
        BizCode::STATIC_OAUTH_NOT_CONFIG => {
            assert("000002"@[5] != "000000"@[5]);
            assert("000002"@[5] != "000001"@[5]);
        },
        BizCode::BCRYPT_ERROR => {
            assert("BE0001"@[0] != "000000"@[0]);
            assert("BE0001"@[0] != "000001"@[0]);
            assert("BE0001"@[0] != "000002"@[0]);
        },
        BizCode::WRONG_CREDENTIALS => {
            assert("AU0001"@[0] != "000000"@[0]);
            assert("AU0001"@[0] != "000001"@[0]);
            assert("AU0001"@[0] != "000002"@[0]);
            assert("AU0001"@[0] != "BE0001"@[0]);
        },
        BizCode::JWT_INVALID => {
            assert("AU0002"@[0] != "000000"@[0]);
            assert("AU0002"@[0] != "000001"@[0]);
            assert("AU0002"@[0] != "000002"@[0]);
            assert("AU0002"@[0] != "BE0001"@[0]);
            assert("AU0002"@[5] != "AU0001"@[5]);
        },
        BizCode::JWT_CREATION_ERR => {
            assert("AU0003"@[0] != "000000"@[0]);
            assert("AU0003"@[0] != "000001"@[0]);
            assert("AU0003"@[0] != "000002"@[0]);
            assert("AU0003"@[0] != "BE0001"@[0]);
            assert("AU0003"@[5] != "AU0001"@[5]);
            assert("AU0003"@[5] != "AU0002"@[5]);
        },
        BizCode::LOGIN_TIMEOUT => {
            assert("AU0004"@[0] != "000000"@[0]);
            assert("AU0004"@[0] != "000001"@[0]);
            assert("AU0004"@[0] != "000002"@[0]);
            assert("AU0004"@[0] != "BE0001"@[0]);
            assert("AU0004"@[5] != "AU0001"@[5]);
            assert("AU0004"@[5] != "AU0002"@[5]);
            assert("AU0004"@[5] != "AU0003"@[5]);
        },
        BizCode::INVALID_AUTH_HEADER => {
            assert("AU0005"@[0] != "000000"@[0]);
            assert("AU0005"@[0] != "000001"@[0]);
            assert("AU0005"@[0] != "000002"@[0]);
            assert("AU0005"@[0] != "BE0001"@[0]);
            assert("AU0005"@[5] != "AU0001"@[5]);
            assert("AU0005"@[5] != "AU0002"@[5]);
            assert("AU0005"@[5] != "AU0003"@[5]);
            assert("AU0005"@[5] != "AU0004"@[5]);
        },
        BizCode::NO_PERMISSION => {
            assert("AU0006"@[0] != "000000"@[0]);
            assert("AU0006"@[0] != "000001"@[0]);
            assert("AU0006"@[0] != "000002"@[0]);
            assert("AU0006"@[0] != "BE0001"@[0]);
            assert("AU0006"@[5] != "AU0001"@[5]);
            assert("AU0006"@[5] != "AU0002"@[5]);
            assert("AU0006"@[5] != "AU0003"@[5]);
            assert("AU0006"@[5] != "AU0004"@[5]);
            assert("AU0006"@[5] != "AU0005"@[5]);
        },
        BizCode::LOGOUT_SUCCESS => {
            assert("AU0007"@[0] != "000000"@[0]);
            assert("AU0007"@[0] != "000001"@[0]);
            assert("AU0007"@[0] != "000002"@[0]);
            assert("AU0007"@[0] != "BE0001"@[0]);
            assert("AU0007"@[5] != "AU0001"@[5]);
            assert("AU0007"@[5] != "AU0002"@[5]);
            assert("AU0007"@[5] != "AU0003"@[5]);
            assert("AU0007"@[5] != "AU0004"@[5]);
            assert("AU0007"@[5] != "AU0005"@[5]);
            assert("AU0007"@[5] != "AU0006"@[5]);
        },
        BizCode::LOGIN_UID_ERR => {
            assert("AU0008"@[0] != "000000"@[0]);
            assert("AU0008"@[0] != "000001"@[0]);
            assert("AU0008"@[0] != "000002"@[0]);
            assert("AU0008"@[0] != "BE0001"@[0]);
            assert("AU0008"@[5] != "AU0001"@[5]);
            assert("AU0008"@[5] != "AU0002"@[5]);
            assert("AU0008"@[5] != "AU0003"@[5]);
            assert("AU0008"@[5] != "AU0004"@[5]);
            assert("AU0008"@[5] != "AU0005"@[5]);
            assert("AU0008"@[5] != "AU0006"@[5]);
            assert("AU0008"@[5] != "AU0007"@[5]);
        },
        BizCode::LOGIN_PWD_ERR => {
            assert("AU0009"@[0] != "000000"@[0]);
            assert("AU0009"@[0] != "000001"@[0]);
            assert("AU0009"@[0] != "000002"@[0]);
            assert("AU0009"@[0] != "BE0001"@[0]);
            assert("AU0009"@[5] != "AU0001"@[5]);
            assert("AU0009"@[5] != "AU0002"@[5]);
            assert("AU0009"@[5] != "AU0003"@[5]);
            assert("AU0009"@[5] != "AU0004"@[5]);
            assert("AU0009"@[5] != "AU0005"@[5]);
            assert("AU0009"@[5] != "AU0006"@[5]);
            assert("AU0009"@[5] != "AU0007"@[5]);
            assert("AU0009"@[5] != "AU0008"@[5]);
        },
        BizCode::DATABASE_ERROR => {
            assert("DB0001"@[0] != "000000"@[0]);
            assert("DB0001"@[0] != "000001"@[0]);
            assert("DB0001"@[0] != "000002"@[0]);
            assert("DB0001"@[0] != "BE0001"@[0]);
            assert("DB0001"@[0] != "AU0001"@[0]);
            assert("DB0001"@[0] != "AU0002"@[0]);
            assert("DB0001"@[0] != "AU0003"@[0]);
            assert("DB0001"@[0] != "AU0004"@[0]);
            assert("DB0001"@[0] != "AU0005"@[0]);
            assert("DB0001"@[0] != "AU0006"@[0]);
            assert("DB0001"@[0] != "AU0007"@[0]);
            assert("DB0001"@[0] != "AU0008"@[0]);
            assert("DB0001"@[0] != "AU0009"@[0]);
        },
        BizCode::DIESEL_ERROR => {
            assert("ORM001"@[0] != "000000"@[0]);
            assert("ORM001"@[0] != "000001"@[0]);
            assert("ORM001"@[0] != "000002"@[0]);
            assert("ORM001"@[0] != "BE0001"@[0]);
            assert("ORM001"@[0] != "AU0001"@[0]);
            assert("ORM001"@[0] != "AU0002"@[0]);
            assert("ORM001"@[0] != "AU0003"@[0]);
            assert("ORM001"@[0] != "AU0004"@[0]);
            assert("ORM001"@[0] != "AU0005"@[0]);
            assert("ORM001"@[0] != "AU0006"@[0]);
            assert("ORM001"@[0] != "AU0007"@[0]);
            assert("ORM001"@[0] != "AU0008"@[0]);
            assert("ORM001"@[0] != "AU0009"@[0]);
            assert("ORM001"@[0] != "DB0001"@[0]);
        },
        BizCode::USER_NOT_FOUND => {
            assert("UR0001"@[0] != "000000"@[0]);
            assert("UR0001"@[0] != "000001"@[0]);
            assert("UR0001"@[0] != "000002"@[0]);
            assert("UR0001"@[0] != "BE0001"@[0]);
            assert("UR0001"@[0] != "AU0001"@[0]);
            assert("UR0001"@[0] != "AU0002"@[0]);
            assert("UR0001"@[0] != "AU0003"@[0]);
            assert("UR0001"@[0] != "AU0004"@[0]);
            assert("UR0001"@[0] != "AU0005"@[0]);
            assert("UR0001"@[0] != "AU0006"@[0]);
            assert("UR0001"@[0] != "AU0007"@[0]);
            assert("UR0001"@[0] != "AU0008"@[0]);
            assert("UR0001"@[0] != "AU0009"@[0]);
            assert("UR0001"@[0] != "DB0001"@[0]);
            assert("UR0001"@[0] != "ORM001"@[0]);
        },
        BizCode::LOG_TO_JSON_STRING_ERROR => {
            assert("LG0001"@[0] != "000000"@[0]);
            assert("LG0001"@[0] != "000001"@[0]);
            assert("LG0001"@[0] != "000002"@[0]);
            assert("LG0001"@[0] != "BE0001"@[0]);
            assert("LG0001"@[0] != "AU0001"@[0]);
            assert("LG0001"@[0] != "AU0002"@[0]);
            assert("LG0001"@[0] != "AU0003"@[0]);
            assert("LG0001"@[0] != "AU0004"@[0]);
            assert("LG0001"@[0] != "AU0005"@[0]);
            assert("LG0001"@[0] != "AU0006"@[0]);
            assert("LG0001"@[0] != "AU0007"@[0]);
            assert("LG0001"@[0] != "AU0008"@[0]);
            assert("LG0001"@[0] != "AU0009"@[0]);
            assert("LG0001"@[0] != "DB0001"@[0]);
            assert("LG0001"@[0] != "ORM001"@[0]);
            assert("LG0001"@[0] != "UR0001"@[0]);
        },
        BizCode::REQWEST_ERROR => {
            assert("NET001"@[0] != "000000"@[0]);
            assert("NET001"@[0] != "000001"@[0]);
            assert("NET001"@[0] != "000002"@[0]);
            assert("NET001"@[0] != "BE0001"@[0]);
            assert("NET001"@[0] != "AU0001"@[0]);
            assert("NET001"@[0] != "AU0002"@[0]);
            assert("NET001"@[0] != "AU0003"@[0]);
            assert("NET001"@[0] != "AU0004"@[0]);
            assert("NET001"@[0] != "AU0005"@[0]);
            assert("NET001"@[0] != "AU0006"@[0]);
            assert("NET001"@[0] != "AU0007"@[0]);
            assert("NET001"@[0] != "AU0008"@[0]);
            assert("NET001"@[0] != "AU0009"@[0]);
            assert("NET001"@[0] != "DB0001"@[0]);
            assert("NET001"@[0] != "ORM001"@[0]);
            assert("NET001"@[0] != "UR0001"@[0]);
            assert("NET001"@[0] != "LG0001"@[0]);
        },
    }
}

/// Every business code is registered under its own code text with its own
/// reason phrase.
pub proof fn lemma_code_registered(c: BizCode)
    ensures
        reason_for_code(c.code_text()) == Some(c.reason_text()),
{
    lemma_code_for_own_text(c);
}

/// Distinct business codes have distinct code texts.
pub proof fn lemma_code_text_injective(a: BizCode, b: BizCode)
    ensures
        a.code_text() == b.code_text() ==> a == b,
{
    lemma_code_for_own_text(a);
    lemma_code_for_own_text(b);
}

} // verus!
