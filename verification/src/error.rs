//! The error type of the engine and the classes callers tell apart.

use fantoccini::error::{CmdError, NewSessionError};
use vstd::prelude::*;
use vstd::std_specs::convert::FromSpecImpl;
use vstd::string::to_string_from_display_ensures;

verus! {

/// `fantoccini::error::CmdError`, carried through as an opaque value.
#[verifier::external_type_specification]
#[verifier::external_body]
pub struct ExCmdError(CmdError);

/// `fantoccini::error::NewSessionError`, carried through as an opaque value.
#[verifier::external_type_specification]
#[verifier::external_body]
pub struct ExNewSessionError(NewSessionError);

/// What went wrong while finding or verifying an address.
///
/// Errors raised by collaborators (file, JSON, URL, HTTP, DNS and SMTP
/// libraries) are held as the text they rendered to.
#[derive(Debug)]
pub enum AppError {
    /// The configuration could not be loaded or is not valid.
    Config(String),
    /// A component (client, resolver, driver) could not be set up.
    Initialization(String),
    /// A file operation failed.
    Io(String),
    /// JSON could not be written or read.
    Json(String),
    /// A URL could not be parsed.
    UrlParse(String),
    /// An HTTP request failed.
    Request(String),
    /// HTML could not be parsed.
    HtmlParse(String),
    /// DNS resolution failed.
    Dns(String),
    /// The domain does not exist.
    NxDomain(String),
    /// The domain has neither MX nor A records.
    NoDnsRecords(String),
    /// DNS resolution timed out.
    DnsTimeout(String),
    /// SMTP communication failed.
    Smtp(String),
    /// An SMTP command was answered with an error reply.
    SmtpCommand {
        /// The three-digit reply code.
        code: u16,
        /// The text the server sent with it.
        message: String,
    },
    /// The STARTTLS handshake failed.
    SmtpTls(String),
    /// An IP or socket address could not be parsed.
    AddrParse(String),
    /// A task could not be run to its end.
    Task(String),
    /// Any other failure.
    Generic(String),
    /// The input lacks what is needed to proceed.
    InsufficientInput(String),
    /// No domain could be taken from the given URL.
    DomainExtraction(String),
    /// SMTP verification met a temporary failure.
    SmtpTemporaryFailure(String),
    /// SMTP verification met a permanent failure.
    SmtpPermanentFailure(String),
    /// SMTP verification ran but settled nothing.
    SmtpInconclusive(String),
    /// The browser-automation endpoint could not be reached.
    WebDriverConnection(String),
    /// The check was blocked, for instance by a CAPTCHA.
    VerificationBlocked(String),
    /// A browser command failed.
    FantocciniCmd(String),
}

/// The three situations a caller has to tell apart.
#[derive(Debug, Clone, Copy, PartialEq, Eq, Structural)]
pub enum ErrorClass {
    /// The candidate itself is not valid: nothing can make it verify.
    InvalidCandidate,
    /// What verification relies on could not be used.
    InfrastructureUnavailable,
    /// Verification ran and learned nothing reliable.
    Inconclusive,
}

/// Whether `code` is a permanent negative SMTP reply.
pub open spec fn is_permanent_code(code: int) -> bool {
    500 <= code <= 599
}

/// Whether `code` is a transient negative SMTP reply.
pub open spec fn is_transient_code(code: int) -> bool {
    400 <= code <= 499
}

impl AppError {
    /// The class of this error.
    pub open spec fn class_spec(&self) -> ErrorClass {
        match self {
            AppError::InsufficientInput(_)
            | AppError::DomainExtraction(_)
            | AppError::UrlParse(_)
            | AppError::AddrParse(_)
            | AppError::NxDomain(_)
            | AppError::NoDnsRecords(_)
            | AppError::SmtpPermanentFailure(_) => ErrorClass::InvalidCandidate,
            AppError::SmtpCommand { code, .. } => if is_permanent_code(*code as int) {
                ErrorClass::InvalidCandidate
            } else if is_transient_code(*code as int) {
                ErrorClass::Inconclusive
            } else {
                ErrorClass::InfrastructureUnavailable
            },
            AppError::SmtpTemporaryFailure(_)
            | AppError::SmtpInconclusive(_)
            | AppError::VerificationBlocked(_) => ErrorClass::Inconclusive,
            _ => ErrorClass::InfrastructureUnavailable,
        }
    }

    /// Whether trying again may succeed: timeouts and temporary refusals.
    pub open spec fn is_transient_spec(&self) -> bool {
        match self {
            AppError::DnsTimeout(_) | AppError::SmtpTemporaryFailure(_) => true,
            AppError::SmtpCommand { code, .. } => is_transient_code(*code as int),
            _ => false,
        }
    }

    /// Says which of the three situations this error stands for.
    pub fn class(&self) -> (c: ErrorClass)
        ensures
            c == self.class_spec(),
    {
        match self {
            AppError::InsufficientInput(_) => ErrorClass::InvalidCandidate,
            AppError::DomainExtraction(_) => ErrorClass::InvalidCandidate,
            AppError::UrlParse(_) => ErrorClass::InvalidCandidate,
            AppError::AddrParse(_) => ErrorClass::InvalidCandidate,
            AppError::NxDomain(_) => ErrorClass::InvalidCandidate,
            AppError::NoDnsRecords(_) => ErrorClass::InvalidCandidate,
            AppError::SmtpPermanentFailure(_) => ErrorClass::InvalidCandidate,
            AppError::SmtpCommand { code, .. } => {
                if 500 <= *code && *code <= 599 {
                    ErrorClass::InvalidCandidate
                } else if 400 <= *code && *code <= 499 {
                    ErrorClass::Inconclusive
                } else {
                    ErrorClass::InfrastructureUnavailable
                }
            },
            AppError::SmtpTemporaryFailure(_) => ErrorClass::Inconclusive,
            AppError::SmtpInconclusive(_) => ErrorClass::Inconclusive,
            AppError::VerificationBlocked(_) => ErrorClass::Inconclusive,
            _ => ErrorClass::InfrastructureUnavailable,
        }
    }

    /// Says whether trying again may succeed.
    pub fn is_transient(&self) -> (b: bool)
        ensures
            b == self.is_transient_spec(),
    {
        match self {
            AppError::DnsTimeout(_) => true,
            AppError::SmtpTemporaryFailure(_) => true,
            AppError::SmtpCommand { code, .. } => 400 <= *code && *code <= 499,
            _ => false,
        }
    }
}

/// The character that writes a decimal digit.
pub open spec fn digit_char(d: nat) -> char {
    if d == 0 {
        '0'
    } else if d == 1 {
        '1'
    } else if d == 2 {
        '2'
    } else if d == 3 {
        '3'
    } else if d == 4 {
        '4'
    } else if d == 5 {
        '5'
    } else if d == 6 {
        '6'
    } else if d == 7 {
        '7'
    } else if d == 8 {
        '8'
    } else {
        '9'
    }
}

/// A number written in decimal digits.
pub open spec fn decimal_text(n: nat) -> Seq<char>
    decreases n,
{
    if n < 10 {
        seq![digit_char(n)]
    } else {
        decimal_text(n / 10).push(digit_char(n % 10))
    }
}

/// The words that name the kind of an error.
pub open spec fn kind_text(err: AppError) -> Seq<char> {
    match err {
        AppError::Config(_) => "Configuration Error: "@,
        AppError::Initialization(_) => "Initialization Error: "@,
        AppError::Io(_) => "IO Error: "@,
        AppError::Json(_) => "JSON Error: "@,
        AppError::UrlParse(_) => "URL Parsing Error: "@,
        AppError::Request(_) => "HTTP Request Error: "@,
        AppError::HtmlParse(_) => "HTML Parsing Error: "@,
        AppError::Dns(_) => "DNS Resolution Error: "@,
        AppError::NxDomain(_) => "Domain Not Found (NXDOMAIN): "@,
        AppError::NoDnsRecords(_) => "No DNS Records Found (MX/A): "@,
        AppError::DnsTimeout(_) => "DNS Timeout for domain: "@,
        AppError::Smtp(_) => "SMTP Error: "@,
        AppError::SmtpCommand { .. } => "SMTP Command Error: Code="@,
        AppError::SmtpTls(_) => "SMTP STARTTLS Error: "@,
        AppError::AddrParse(_) => "Address Parsing Error: "@,
        AppError::Task(_) => "Task Execution Error: "@,
        AppError::Generic(_) => "Generic Error: "@,
        AppError::InsufficientInput(_) => "Insufficient Input Data: "@,
        AppError::DomainExtraction(_) => "Failed to extract domain from URL: "@,
        AppError::SmtpTemporaryFailure(_) => "SMTP Temporary Failure: "@,
        AppError::SmtpPermanentFailure(_) => "SMTP Permanent Failure: "@,
        AppError::SmtpInconclusive(_) => "SMTP Inconclusive: "@,
        AppError::WebDriverConnection(_) => "WebDriver Connection Error: "@,
        AppError::VerificationBlocked(_) => "Verification Blocked: "@,
        AppError::FantocciniCmd(_) => "WebDriver Command Error: "@,
    }
}

/// The detail that an error carries.
pub open spec fn detail_text(err: AppError) -> Seq<char> {
    match err {
        AppError::Config(m)
        | AppError::Initialization(m)
        | AppError::Io(m)
        | AppError::Json(m)
        | AppError::UrlParse(m)
        | AppError::Request(m)
        | AppError::HtmlParse(m)
        | AppError::Dns(m)
        | AppError::NxDomain(m)
        | AppError::NoDnsRecords(m)
        | AppError::DnsTimeout(m)
        | AppError::Smtp(m)
        | AppError::SmtpTls(m)
        | AppError::AddrParse(m)
        | AppError::Task(m)
        | AppError::Generic(m)
        | AppError::InsufficientInput(m)
        | AppError::DomainExtraction(m)
        | AppError::SmtpTemporaryFailure(m)
        | AppError::SmtpPermanentFailure(m)
        | AppError::SmtpInconclusive(m)
        | AppError::WebDriverConnection(m)
        | AppError::VerificationBlocked(m)
        | AppError::FantocciniCmd(m) => m@,
        AppError::SmtpCommand { message, .. } => message@,
    }
}

/// The text that an error is shown as: the words for its kind, then its
/// detail; for a refused SMTP command the reply code, then the server's
/// text in quotes.
pub open spec fn shown_text(err: AppError) -> Seq<char> {
    match err {
        AppError::SmtpCommand { code, message } => kind_text(err) + decimal_text(code as nat)
            + ", Message='"@ + message@ + "'"@,
        _ => kind_text(err) + detail_text(err),
    }
}

/// The string that writes one decimal digit.
fn digit_text(d: u16) -> (text: &'static str)
    requires
        d < 10,
    ensures
        text@ == seq![digit_char(d as nat)],
{
    proof {
        reveal_strlit("0");
        reveal_strlit("1");
        reveal_strlit("2");
        reveal_strlit("3");
        reveal_strlit("4");
        reveal_strlit("5");
        reveal_strlit("6");
        reveal_strlit("7");
        reveal_strlit("8");
        reveal_strlit("9");
    }
    let text = if d == 0 {
        "0"
    } else if d == 1 {
        "1"
    } else if d == 2 {
        "2"
    } else if d == 3 {
        "3"
    } else if d == 4 {
        "4"
    } else if d == 5 {
        "5"
    } else if d == 6 {
        "6"
    } else if d == 7 {
        "7"
    } else if d == 8 {
        "8"
    } else {
        "9"
    };
    assert(text@ =~= seq![digit_char(d as nat)]);
    text
}

/// Writes a number in decimal digits.
pub fn decimal_string(n: u16) -> (text: String)
    ensures
        text@ == decimal_text(n as nat),
    decreases n,
{
    if n < 10 {
        digit_text(n).to_owned()
    } else {
        let head = decimal_string(n / 10);
        let text = head.concat(digit_text(n % 10));
        proof {
            assert(text@ =~= decimal_text((n / 10) as nat).push(digit_char((n % 10) as nat)));
        }
        text
    }
}

impl AppError {
    /// The text that the error is shown as.
    pub fn to_text(&self) -> (text: String)
        ensures
            text@ == shown_text(*self),
    {
        let kind: &'static str = match self {
            AppError::Config(_) => "Configuration Error: ",
            AppError::Initialization(_) => "Initialization Error: ",
            AppError::Io(_) => "IO Error: ",
            AppError::Json(_) => "JSON Error: ",
            AppError::UrlParse(_) => "URL Parsing Error: ",
            AppError::Request(_) => "HTTP Request Error: ",
            AppError::HtmlParse(_) => "HTML Parsing Error: ",
            AppError::Dns(_) => "DNS Resolution Error: ",
            AppError::NxDomain(_) => "Domain Not Found (NXDOMAIN): ",
            AppError::NoDnsRecords(_) => "No DNS Records Found (MX/A): ",
            AppError::DnsTimeout(_) => "DNS Timeout for domain: ",
            AppError::Smtp(_) => "SMTP Error: ",
            AppError::SmtpCommand { .. } => "SMTP Command Error: Code=",
            AppError::SmtpTls(_) => "SMTP STARTTLS Error: ",
            AppError::AddrParse(_) => "Address Parsing Error: ",
            AppError::Task(_) => "Task Execution Error: ",
            AppError::Generic(_) => "Generic Error: ",
            AppError::InsufficientInput(_) => "Insufficient Input Data: ",
            AppError::DomainExtraction(_) => "Failed to extract domain from URL: ",
            AppError::SmtpTemporaryFailure(_) => "SMTP Temporary Failure: ",
            AppError::SmtpPermanentFailure(_) => "SMTP Permanent Failure: ",
            AppError::SmtpInconclusive(_) => "SMTP Inconclusive: ",
            AppError::WebDriverConnection(_) => "WebDriver Connection Error: ",
            AppError::VerificationBlocked(_) => "Verification Blocked: ",
            AppError::FantocciniCmd(_) => "WebDriver Command Error: ",
        };
        let mut text = kind.to_owned();
        match self {
            AppError::SmtpCommand { code, message } => {
                let digits = decimal_string(*code);
                text.append(digits.as_str());
                text.append(", Message='");
                text.append(message.as_str());
                text.append("'");
            },
            AppError::Config(m)
            | AppError::Initialization(m)
            | AppError::Io(m)
            | AppError::Json(m)
            | AppError::UrlParse(m)
            | AppError::Request(m)
            | AppError::HtmlParse(m)
            | AppError::Dns(m)
            | AppError::NxDomain(m)
            | AppError::NoDnsRecords(m)
            | AppError::DnsTimeout(m)
            | AppError::Smtp(m)
            | AppError::SmtpTls(m)
            | AppError::AddrParse(m)
            | AppError::Task(m)
            | AppError::Generic(m)
            | AppError::InsufficientInput(m)
            | AppError::DomainExtraction(m)
            | AppError::SmtpTemporaryFailure(m)
            | AppError::SmtpPermanentFailure(m)
            | AppError::SmtpInconclusive(m)
            | AppError::WebDriverConnection(m)
            | AppError::VerificationBlocked(m)
            | AppError::FantocciniCmd(m) => {
                text.append(m.as_str());
            },
        }
        text
    }
}

impl From<CmdError> for AppError {
    /// A failed browser command becomes `FantocciniCmd`, holding the text the
    /// error renders to.
    fn from(err: CmdError) -> (r: AppError)
        ensures
            r matches AppError::FantocciniCmd(text) && to_string_from_display_ensures::<CmdError>(
                &err,
                text,
            ),
    {
        AppError::FantocciniCmd(err.to_string())
    }
}

/// The text of the result is the rendering of the outside error, which no
/// spec function of this crate computes: the conversion states it as a
/// relation, in the `ensures` of `from`.
impl FromSpecImpl<CmdError> for AppError {
    open spec fn obeys_from_spec() -> bool {
        false
    }

    open spec fn from_spec(v: CmdError) -> AppError {
        arbitrary()
    }
}

impl From<NewSessionError> for AppError {
    /// A session that could not be opened becomes `WebDriverConnection`,
    /// holding the text the error renders to.
    fn from(err: NewSessionError) -> (r: AppError)
        ensures
            r matches AppError::WebDriverConnection(text)
                && to_string_from_display_ensures::<NewSessionError>(&err, text),
    {
        AppError::WebDriverConnection(err.to_string())
    }
}

/// As for `CmdError`: the conversion is stated as a relation.
impl FromSpecImpl<NewSessionError> for AppError {
    open spec fn obeys_from_spec() -> bool {
        false
    }

    open spec fn from_spec(v: NewSessionError) -> AppError {
        arbitrary()
    }
}

} // verus!
