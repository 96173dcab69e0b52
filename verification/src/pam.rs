//! PAM results: the return codes and the errors the library makes of them.
use vstd::prelude::*;

use crate::scrambler::Scrambler;

verus! {

/// A PAM return code, one variant per code of Linux-PAM, named as PAM names it.
#[allow(non_camel_case_types)]
#[derive(Clone, Copy, Debug, PartialEq, Eq, Structural)]
pub enum PamCode {
    SUCCESS,
    OPEN_ERR,
    SYMBOL_ERR,
    SERVICE_ERR,
    SYSTEM_ERR,
    BUF_ERR,
    PERM_DENIED,
    AUTH_ERR,
    CRED_INSUFFICIENT,
    AUTHINFO_UNAVAIL,
    USER_UNKNOWN,
    MAXTRIES,
    NEW_AUTHTOK_REQD,
    ACCT_EXPIRED,
    SESSION_ERR,
    CRED_UNAVAIL,
    CRED_EXPIRED,
    CRED_ERR,
    NO_MODULE_DATA,
    CONV_ERR,
    AUTHTOK_ERR,
    AUTHTOK_RECOVERY_ERR,
    AUTHTOK_LOCK_BUSY,
    AUTHTOK_DISABLE_AGING,
    TRY_AGAIN,
    IGNORE,
    ABORT,
    AUTHTOK_EXPIRED,
    MODULE_UNKNOWN,
    BAD_ITEM,
    CONV_AGAIN,
    INCOMPLETE,
}

/// The name of a return code as PAM spells it.
pub open spec fn code_name(code: PamCode) -> Seq<char> {
    match code {
        PamCode::SUCCESS => "SUCCESS"@,
        PamCode::OPEN_ERR => "OPEN_ERR"@,
        PamCode::SYMBOL_ERR => "SYMBOL_ERR"@,
        PamCode::SERVICE_ERR => "SERVICE_ERR"@,
        PamCode::SYSTEM_ERR => "SYSTEM_ERR"@,
        PamCode::BUF_ERR => "BUF_ERR"@,
        PamCode::PERM_DENIED => "PERM_DENIED"@,
        PamCode::AUTH_ERR => "AUTH_ERR"@,
        PamCode::CRED_INSUFFICIENT => "CRED_INSUFFICIENT"@,
        PamCode::AUTHINFO_UNAVAIL => "AUTHINFO_UNAVAIL"@,
        PamCode::USER_UNKNOWN => "USER_UNKNOWN"@,
        PamCode::MAXTRIES => "MAXTRIES"@,
        PamCode::NEW_AUTHTOK_REQD => "NEW_AUTHTOK_REQD"@,
        PamCode::ACCT_EXPIRED => "ACCT_EXPIRED"@,
        PamCode::SESSION_ERR => "SESSION_ERR"@,
        PamCode::CRED_UNAVAIL => "CRED_UNAVAIL"@,
        PamCode::CRED_EXPIRED => "CRED_EXPIRED"@,
        PamCode::CRED_ERR => "CRED_ERR"@,
        PamCode::NO_MODULE_DATA => "NO_MODULE_DATA"@,
        PamCode::CONV_ERR => "CONV_ERR"@,
        PamCode::AUTHTOK_ERR => "AUTHTOK_ERR"@,
        PamCode::AUTHTOK_RECOVERY_ERR => "AUTHTOK_RECOVERY_ERR"@,
        PamCode::AUTHTOK_LOCK_BUSY => "AUTHTOK_LOCK_BUSY"@,
        PamCode::AUTHTOK_DISABLE_AGING => "AUTHTOK_DISABLE_AGING"@,
        PamCode::TRY_AGAIN => "TRY_AGAIN"@,
        PamCode::IGNORE => "IGNORE"@,
        PamCode::ABORT => "ABORT"@,
        PamCode::AUTHTOK_EXPIRED => "AUTHTOK_EXPIRED"@,
        PamCode::MODULE_UNKNOWN => "MODULE_UNKNOWN"@,
        PamCode::BAD_ITEM => "BAD_ITEM"@,
        PamCode::CONV_AGAIN => "CONV_AGAIN"@,
        PamCode::INCOMPLETE => "INCOMPLETE"@,
    }
}

/// How a failed PAM call is reported.
#[derive(Clone, Copy, Debug, PartialEq, Eq, Structural)]
pub enum PamErrorKind {
    Error,
    AuthError,
    NewAuthTokenRequired,
    AbortError,
}

/// A failed PAM call, with a description of what failed.
#[derive(Debug)]
pub enum PamError {
    Error(String),
    AuthError(String),
    NewAuthTokenRequired(String),
    AbortError(String),
}

impl PamError {
    /// The kind of this error.
    pub open spec fn kind(&self) -> PamErrorKind {
        match self {
            PamError::Error(_) => PamErrorKind::Error,
            PamError::AuthError(_) => PamErrorKind::AuthError,
            PamError::NewAuthTokenRequired(_) => PamErrorKind::NewAuthTokenRequired,
            PamError::AbortError(_) => PamErrorKind::AbortError,
        }
    }

    /// The description this error carries.
    pub open spec fn detail(&self) -> Seq<char> {
        match self {
            PamError::Error(m) => m@,
            PamError::AuthError(m) => m@,
            PamError::NewAuthTokenRequired(m) => m@,
            PamError::AbortError(m) => m@,
        }
    }
}

/// The kind of error a return code is reported as: `ABORT` aborts; codes that
/// refuse the user or the credentials (`AUTH_ERR`, `MAXTRIES`, `CRED_EXPIRED`,
/// `ACCT_EXPIRED`, `CRED_INSUFFICIENT`, `USER_UNKNOWN`, `PERM_DENIED`) are
/// authentication errors; `NEW_AUTHTOK_REQD` asks for a new token; every other
/// code is a plain error.
pub open spec fn kind_of(code: PamCode) -> PamErrorKind {
    match code {
        PamCode::ABORT => PamErrorKind::AbortError,
        PamCode::AUTH_ERR | PamCode::MAXTRIES | PamCode::CRED_EXPIRED | PamCode::ACCT_EXPIRED
        | PamCode::CRED_INSUFFICIENT | PamCode::USER_UNKNOWN | PamCode::PERM_DENIED => {
            PamErrorKind::AuthError
        },
        PamCode::NEW_AUTHTOK_REQD => PamErrorKind::NewAuthTokenRequired,
        _ => PamErrorKind::Error,
    }
}

/// The text an error shows: the description, after `new auth token required: `
/// or `abort error: ` for those two kinds.
pub open spec fn error_text(kind: PamErrorKind, detail: Seq<char>) -> Seq<char> {
    match kind {
        PamErrorKind::NewAuthTokenRequired => "new auth token required: "@ + detail,
        PamErrorKind::AbortError => "abort error: "@ + detail,
        _ => detail,
    }
}

/// Which codes become which errors: exactly the seven refusals of the user or
/// the credentials (`AUTH_ERR`, `MAXTRIES`, `CRED_EXPIRED`, `ACCT_EXPIRED`,
/// `CRED_INSUFFICIENT`, `USER_UNKNOWN`, `PERM_DENIED`) are authentication
/// errors, exactly `ABORT` aborts, exactly `NEW_AUTHTOK_REQD` asks for a new
/// token, and every other code (unreachable services, system, buffer,
/// conversation and module failures among them) is a plain error; the error
/// made by `PamError::from_rc` is of that kind.
pub proof fn lemma_error_kinds(code: PamCode)
    ensures
        (kind_of(code) == PamErrorKind::AuthError) <==> (code == PamCode::AUTH_ERR || code
            == PamCode::MAXTRIES || code == PamCode::CRED_EXPIRED || code == PamCode::ACCT_EXPIRED
            || code == PamCode::CRED_INSUFFICIENT || code == PamCode::USER_UNKNOWN || code
            == PamCode::PERM_DENIED),
        (kind_of(code) == PamErrorKind::AbortError) <==> code == PamCode::ABORT,
        (kind_of(code) == PamErrorKind::NewAuthTokenRequired) <==> code == PamCode::NEW_AUTHTOK_REQD,
        (kind_of(code) == PamErrorKind::Error) <==> !(code == PamCode::AUTH_ERR || code
            == PamCode::MAXTRIES || code == PamCode::CRED_EXPIRED || code == PamCode::ACCT_EXPIRED
            || code == PamCode::CRED_INSUFFICIENT || code == PamCode::USER_UNKNOWN || code
            == PamCode::PERM_DENIED || code == PamCode::ABORT || code == PamCode::NEW_AUTHTOK_REQD),
{
}

impl PamCode {
    /// The name of this code as PAM spells it.
    pub fn name(&self) -> (name: &'static str)
        ensures
            name@ == code_name(*self),
    {
        match self {
            PamCode::SUCCESS => "SUCCESS",
            PamCode::OPEN_ERR => "OPEN_ERR",
            PamCode::SYMBOL_ERR => "SYMBOL_ERR",
            PamCode::SERVICE_ERR => "SERVICE_ERR",
            PamCode::SYSTEM_ERR => "SYSTEM_ERR",
            PamCode::BUF_ERR => "BUF_ERR",
            PamCode::PERM_DENIED => "PERM_DENIED",
            PamCode::AUTH_ERR => "AUTH_ERR",
            PamCode::CRED_INSUFFICIENT => "CRED_INSUFFICIENT",
            PamCode::AUTHINFO_UNAVAIL => "AUTHINFO_UNAVAIL",
            PamCode::USER_UNKNOWN => "USER_UNKNOWN",
            PamCode::MAXTRIES => "MAXTRIES",
            PamCode::NEW_AUTHTOK_REQD => "NEW_AUTHTOK_REQD",
            PamCode::ACCT_EXPIRED => "ACCT_EXPIRED",
            PamCode::SESSION_ERR => "SESSION_ERR",
            PamCode::CRED_UNAVAIL => "CRED_UNAVAIL",
            PamCode::CRED_EXPIRED => "CRED_EXPIRED",
            PamCode::CRED_ERR => "CRED_ERR",
            PamCode::NO_MODULE_DATA => "NO_MODULE_DATA",
            PamCode::CONV_ERR => "CONV_ERR",
            PamCode::AUTHTOK_ERR => "AUTHTOK_ERR",
            PamCode::AUTHTOK_RECOVERY_ERR => "AUTHTOK_RECOVERY_ERR",
            PamCode::AUTHTOK_LOCK_BUSY => "AUTHTOK_LOCK_BUSY",
            PamCode::AUTHTOK_DISABLE_AGING => "AUTHTOK_DISABLE_AGING",
            PamCode::TRY_AGAIN => "TRY_AGAIN",
            PamCode::IGNORE => "IGNORE",
            PamCode::ABORT => "ABORT",
            PamCode::AUTHTOK_EXPIRED => "AUTHTOK_EXPIRED",
            PamCode::MODULE_UNKNOWN => "MODULE_UNKNOWN",
            PamCode::BAD_ITEM => "BAD_ITEM",
            PamCode::CONV_AGAIN => "CONV_AGAIN",
            PamCode::INCOMPLETE => "INCOMPLETE",
        }
    }
}

impl PamError {
    /// The error for a failed PAM call: `prefix` names the call, `rc` is what it
    /// returned; the description is `prefix: NAME`.
    pub fn from_rc(prefix: &str, rc: PamCode) -> (e: PamError)
        ensures
            e.kind() == kind_of(rc),
            e.detail() == prefix@ + ": "@ + code_name(rc),
    {
        let mut m = prefix.to_owned();
        m.append(": ");
        m.append(rc.name());
        match rc {
            PamCode::ABORT => PamError::AbortError(m),
            PamCode::AUTH_ERR | PamCode::MAXTRIES | PamCode::CRED_EXPIRED | PamCode::ACCT_EXPIRED
            | PamCode::CRED_INSUFFICIENT | PamCode::USER_UNKNOWN | PamCode::PERM_DENIED => {
                PamError::AuthError(m)
            },
            PamCode::NEW_AUTHTOK_REQD => PamError::NewAuthTokenRequired(m),
            _ => PamError::Error(m),
        }
    }

    /// The text of this error.
    pub fn to_string(&self) -> (text: String)
        ensures
            text@ == error_text(self.kind(), self.detail()),
    {
        match self {
            PamError::Error(m) => m.clone(),
            PamError::AuthError(m) => m.clone(),
            PamError::NewAuthTokenRequired(m) => {
                let mut t = "new auth token required: ".to_owned();
                t.append(m.as_str());
                t
            },
            PamError::AbortError(m) => {
                let mut t = "abort error: ".to_owned();
                t.append(m.as_str());
                t
            },
        }
    }
}

/// The questions a PAM module may put during a conversation.
pub trait Converse {
    /// A question whose answer may be shown as it is typed.
    fn prompt_echo(&self, msg: &str) -> Result<String, ()>;

    /// A question whose answer must not be shown, such as a password.
    fn prompt_blind(&self, msg: &str) -> Result<String, ()>;

    /// A message to show.
    fn info(&self, msg: &str) -> Result<(), ()>;

    /// An error message to show.
    fn error(&self, msg: &str) -> Result<(), ()>;
}

/// A conversation that knows only the password: it answers every hidden
/// prompt with it, refuses visible prompts and accepts every message.
pub struct PasswordConv {
    pub password: String,
}

impl PasswordConv {
    pub fn new(password: &str) -> (conv: PasswordConv)
        ensures
            conv.password@ == password@,
    {
        PasswordConv { password: password.to_owned() }
    }

    /// Wipes the password held by the conversation.
    pub fn wipe(&mut self)
        ensures
            final(self).password@ == Seq::<char>::empty(),
    {
        self.password.scramble();
    }
}

impl Converse for PasswordConv {
    fn prompt_echo(&self, _msg: &str) -> (answer: Result<String, ()>)
        ensures
            answer is Err,
    {
        Err(())
    }

    fn prompt_blind(&self, _msg: &str) -> (answer: Result<String, ()>)
        ensures
            answer matches Ok(p) && p@ == self.password@,
    {
        Ok(self.password.clone())
    }

    fn info(&self, _msg: &str) -> (answer: Result<(), ()>)
        ensures
            answer is Ok,
    {
        Ok(())
    }

    fn error(&self, _msg: &str) -> (answer: Result<(), ()>)
        ensures
            answer is Ok,
    {
        Ok(())
    }
}

} // verus!
