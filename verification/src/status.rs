//! `ApiError` <-> gRPC status, shared by the server and the client so the
//! mapping cannot drift. The stable machine-readable code rides the
//! `kopuz-error-code` metadata entry; the gRPC code is the nearest standard
//! equivalent for clients that only know gRPC. Structured details ride as
//! JSON text in the `kopuz-error-details-bin` entry.

use crate::api::{ApiError, ErrorCode};
use crate::text::str_equals;
use vstd::prelude::*;
use vstd::string::*;

verus! {

/// The standard gRPC status codes (`Success` is the code gRPC calls `OK`).
#[derive(Clone, Copy, Debug, PartialEq, Eq, Structural)]
pub enum GrpcCode {
    Success,
    Cancelled,
    Unknown,
    InvalidArgument,
    DeadlineExceeded,
    NotFound,
    AlreadyExists,
    PermissionDenied,
    ResourceExhausted,
    FailedPrecondition,
    Aborted,
    OutOfRange,
    Unimplemented,
    Internal,
    Unavailable,
    DataLoss,
    Unauthenticated,
}

/// A gRPC status as this protocol fills it: the code, the message, the
/// `kopuz-error-code` metadata entry and the `kopuz-error-details-bin`
/// entry (JSON text), each entry when present.
#[derive(Clone, Debug)]
pub struct Status {
    pub code: GrpcCode,
    pub message: String,
    pub error_code: Option<String>,
    pub details: Option<String>,
}

/// The metadata name of an error code.
pub open spec fn spec_code_name(code: ErrorCode) -> Seq<char> {
    match code {
        ErrorCode::InvalidInput => "invalid_input"@,
        ErrorCode::Unauthorized => "unauthorized"@,
        ErrorCode::NotFound => "not_found"@,
        ErrorCode::Conflict => "conflict"@,
        ErrorCode::SourceAuthExpired => "source_auth_expired"@,
        ErrorCode::SourceUnreachable => "source_unreachable"@,
        ErrorCode::Unsupported => "unsupported"@,
        ErrorCode::Internal => "internal"@,
    }
}

/// The error code a metadata name stands for, if any.
pub open spec fn spec_code_from_name(name: Seq<char>) -> Option<ErrorCode> {
    if name == "invalid_input"@ {
        Some(ErrorCode::InvalidInput)
    } else if name == "unauthorized"@ {
        Some(ErrorCode::Unauthorized)
    } else if name == "not_found"@ {
        Some(ErrorCode::NotFound)
    } else if name == "conflict"@ {
        Some(ErrorCode::Conflict)
    } else if name == "source_auth_expired"@ {
        Some(ErrorCode::SourceAuthExpired)
    } else if name == "source_unreachable"@ {
        Some(ErrorCode::SourceUnreachable)
    } else if name == "unsupported"@ {
        Some(ErrorCode::Unsupported)
    } else if name == "internal"@ {
        Some(ErrorCode::Internal)
    } else {
        None
    }
}

/// The metadata name of an error code.
pub fn code_name(code: ErrorCode) -> (res: &'static str)
    ensures
        res@ == spec_code_name(code),
{
    match code {
        ErrorCode::InvalidInput => "invalid_input",
        ErrorCode::Unauthorized => "unauthorized",
        ErrorCode::NotFound => "not_found",
        ErrorCode::Conflict => "conflict",
        ErrorCode::SourceAuthExpired => "source_auth_expired",
        ErrorCode::SourceUnreachable => "source_unreachable",
        ErrorCode::Unsupported => "unsupported",
        ErrorCode::Internal => "internal",
    }
}

/// The error code a metadata name stands for, if any.
pub fn code_from_name(name: &str) -> (res: Option<ErrorCode>)
    ensures
        res == spec_code_from_name(name@),
{
    if str_equals(name, "invalid_input") {
        Some(ErrorCode::InvalidInput)
    } else if str_equals(name, "unauthorized") {
        Some(ErrorCode::Unauthorized)
    } else if str_equals(name, "not_found") {
        Some(ErrorCode::NotFound)
    } else if str_equals(name, "conflict") {
        Some(ErrorCode::Conflict)
    } else if str_equals(name, "source_auth_expired") {
        Some(ErrorCode::SourceAuthExpired)
    } else if str_equals(name, "source_unreachable") {
        Some(ErrorCode::SourceUnreachable)
    } else if str_equals(name, "unsupported") {
        Some(ErrorCode::Unsupported)
    } else if str_equals(name, "internal") {
        Some(ErrorCode::Internal)
    } else {
        None
    }
}

/// The gRPC code an error code is sent with.
pub open spec fn spec_grpc_code(code: ErrorCode) -> GrpcCode {
    match code {
        ErrorCode::InvalidInput => GrpcCode::InvalidArgument,
        ErrorCode::Unauthorized => GrpcCode::Unauthenticated,
        ErrorCode::SourceAuthExpired => GrpcCode::Unauthenticated,
        ErrorCode::NotFound => GrpcCode::NotFound,
        ErrorCode::Conflict => GrpcCode::Aborted,
        ErrorCode::Unsupported => GrpcCode::Unimplemented,
        ErrorCode::SourceUnreachable => GrpcCode::Unavailable,
        ErrorCode::Internal => GrpcCode::Internal,
    }
}

/// The error code a bare gRPC code reads as, for a status without the
/// metadata entry.
pub open spec fn spec_code_for_grpc(code: GrpcCode) -> ErrorCode {
    match code {
        GrpcCode::InvalidArgument => ErrorCode::InvalidInput,
        GrpcCode::Unauthenticated => ErrorCode::Unauthorized,
        GrpcCode::NotFound => ErrorCode::NotFound,
        GrpcCode::Aborted => ErrorCode::Conflict,
        GrpcCode::AlreadyExists => ErrorCode::Conflict,
        GrpcCode::Unimplemented => ErrorCode::Unsupported,
        GrpcCode::Unavailable => ErrorCode::SourceUnreachable,
        _ => ErrorCode::Internal,
    }
}

/// The error code a status reads as: the metadata entry when it names a
/// code, the gRPC code otherwise.
pub open spec fn spec_status_error_code(code: GrpcCode, entry: Option<Seq<char>>) -> ErrorCode {
    match entry {
        Some(name) => match spec_code_from_name(name) {
            Some(found) => found,
            None => spec_code_for_grpc(code),
        },
        None => spec_code_for_grpc(code),
    }
}

/// What `serde_json::from_str::<serde_json::Value>` makes of `text`:
/// nothing when it parses, else the text its error displays.
pub uninterp spec fn json_error_text(text: Seq<char>) -> Option<Seq<char>>;

/// Whether `text` is one JSON value, as `serde_json::from_str` into a
/// `serde_json::Value` decides.
pub open spec fn json_parses(text: Seq<char>) -> bool {
    json_error_text(text) is None
}

/// `serde_json::from_str::<serde_json::Value>(text)`: `None` when the text
/// parses as JSON, else the error's display text (`to_string`). What the
/// parser accepts, and how it words its errors, is only named here.
#[verifier::external_body]
pub(crate) fn json_error(text: &str) -> (res: Option<String>)
    ensures
        opt_view(res) == json_error_text(text@),
{
    match serde_json::from_str::<serde_json::Value>(text) {
        Ok(_) => None,
        Err(error) => Some(error.to_string()),
    }
}

/// The details a status's metadata entry yields: its text when it parses
/// as JSON, nothing otherwise.
pub open spec fn parsed_details(entry: Option<Seq<char>>) -> Option<Seq<char>> {
    match entry {
        Some(text) => if json_parses(text) {
            Some(text)
        } else {
            None
        },
        None => None,
    }
}

/// The details text kept: itself when it parses as JSON, else nothing.
pub open spec fn kept_details(value: Option<String>) -> Option<String> {
    match value {
        Some(text) => if json_parses(text@) {
            Some(text)
        } else {
            None
        },
        None => None,
    }
}

/// The view of an optional string.
pub open spec fn opt_view(value: Option<String>) -> Option<Seq<char>> {
    match value {
        Some(text) => Some(text@),
        None => None,
    }
}

fn grpc_code(code: ErrorCode) -> (res: GrpcCode)
    ensures
        res == spec_grpc_code(code),
{
    match code {
        ErrorCode::InvalidInput => GrpcCode::InvalidArgument,
        ErrorCode::Unauthorized => GrpcCode::Unauthenticated,
        ErrorCode::SourceAuthExpired => GrpcCode::Unauthenticated,
        ErrorCode::NotFound => GrpcCode::NotFound,
        ErrorCode::Conflict => GrpcCode::Aborted,
        ErrorCode::Unsupported => GrpcCode::Unimplemented,
        ErrorCode::SourceUnreachable => GrpcCode::Unavailable,
        ErrorCode::Internal => GrpcCode::Internal,
    }
}

fn code_for_grpc(code: GrpcCode) -> (res: ErrorCode)
    ensures
        res == spec_code_for_grpc(code),
{
    match code {
        GrpcCode::InvalidArgument => ErrorCode::InvalidInput,
        GrpcCode::Unauthenticated => ErrorCode::Unauthorized,
        GrpcCode::NotFound => ErrorCode::NotFound,
        GrpcCode::Aborted => ErrorCode::Conflict,
        GrpcCode::AlreadyExists => ErrorCode::Conflict,
        GrpcCode::Unimplemented => ErrorCode::Unsupported,
        GrpcCode::Unavailable => ErrorCode::SourceUnreachable,
        _ => ErrorCode::Internal,
    }
}

/// The details text kept when it parses as JSON.
pub(crate) fn read_details(value: &Option<String>) -> (res: Option<String>)
    ensures
        opt_view(res) == parsed_details(opt_view(*value)),
        res == kept_details(*value),
{
    match value {
        Some(text) => if json_error(text.as_str()).is_none() {
            Some(text.clone())
        } else {
            None
        },
        None => None,
    }
}

/// The status an error is sent as.
pub fn to_status(error: ApiError) -> (res: Status)
    ensures
        res.code == spec_grpc_code(error.code),
        res.message@ == error.message@,
        opt_view(res.error_code) == Some(spec_code_name(error.code)),
        opt_view(res.details) == opt_view(error.details),
{
    let name = code_name(error.code);
    Status {
        code: grpc_code(error.code),
        message: error.message,
        error_code: Some(name.to_string()),
        details: error.details,
    }
}

/// The error a status reads as.
pub fn from_status(status: &Status) -> (res: ApiError)
    ensures
        res.code == spec_status_error_code(status.code, opt_view(status.error_code)),
        res.message@ == status.message@,
        opt_view(res.details) == parsed_details(opt_view(status.details)),
{
    let code = match &status.error_code {
        Some(name) => match code_from_name(name.as_str()) {
            Some(found) => found,
            None => code_for_grpc(status.code),
        },
        None => code_for_grpc(status.code),
    };
    ApiError { code, message: status.message.clone(), details: read_details(&status.details) }
}

/// Every error code survives the trip through a status: the metadata entry
/// written for it reads back as the same code.
pub proof fn law_every_code_survives_the_status_round_trip(code: ErrorCode)
    ensures
        spec_code_from_name(spec_code_name(code)) == Some(code),
        spec_status_error_code(spec_grpc_code(code), Some(spec_code_name(code))) == code,
{
    reveal_strlit("invalid_input");
    reveal_strlit("unauthorized");
    reveal_strlit("not_found");
    reveal_strlit("conflict");
    reveal_strlit("source_auth_expired");
    reveal_strlit("source_unreachable");
    reveal_strlit("unsupported");
    reveal_strlit("internal");
        match code {
            ErrorCode::InvalidInput => {
                
            },
            ErrorCode::Unauthorized => {
                assert("unauthorized"@.len() != "invalid_input"@.len());
            },
            ErrorCode::NotFound => {
                assert("not_found"@.len() != "invalid_input"@.len());
                assert("not_found"@.len() != "unauthorized"@.len());
            },
            ErrorCode::Conflict => {
                assert("conflict"@.len() != "invalid_input"@.len());
                assert("conflict"@.len() != "unauthorized"@.len());
                assert("conflict"@.len() != "not_found"@.len());
            },
            ErrorCode::SourceAuthExpired => {
                assert("source_auth_expired"@.len() != "invalid_input"@.len());
                assert("source_auth_expired"@.len() != "unauthorized"@.len());
                assert("source_auth_expired"@.len() != "not_found"@.len());
                assert("source_auth_expired"@.len() != "conflict"@.len());
            },
            ErrorCode::SourceUnreachable => {
                assert("source_unreachable"@.len() != "invalid_input"@.len());
                assert("source_unreachable"@.len() != "unauthorized"@.len());
                assert("source_unreachable"@.len() != "not_found"@.len());
                assert("source_unreachable"@.len() != "conflict"@.len());
                assert("source_unreachable"@.len() != "source_auth_expired"@.len());
            },
            ErrorCode::Unsupported => {
                assert("unsupported"@.len() != "invalid_input"@.len());
                assert("unsupported"@.len() != "unauthorized"@.len());
                assert("unsupported"@.len() != "not_found"@.len());
                assert("unsupported"@.len() != "conflict"@.len());
                assert("unsupported"@.len() != "source_auth_expired"@.len());
                assert("unsupported"@.len() != "source_unreachable"@.len());
            },
            ErrorCode::Internal => {
                assert("internal"@.len() != "invalid_input"@.len());
                assert("internal"@.len() != "unauthorized"@.len());
                assert("internal"@.len() != "not_found"@.len());
                assert("internal"@[0] != "conflict"@[0]);
                assert("internal"@.len() != "source_auth_expired"@.len());
                assert("internal"@.len() != "source_unreachable"@.len());
                assert("internal"@.len() != "unsupported"@.len());
            },
        }
}

/// A client that reads only the gRPC code still recovers every error code
/// but one: `SourceAuthExpired` shares `Unauthenticated` with `Unauthorized`.
pub proof fn law_grpc_code_alone_recovers_the_code(code: ErrorCode)
    requires
        code != ErrorCode::SourceAuthExpired,
    ensures
        spec_code_for_grpc(spec_grpc_code(code)) == code,
{
}

} // verus!
