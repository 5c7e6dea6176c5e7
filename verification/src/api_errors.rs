//! Error taxonomy: structured remote-call failures classified into a small
//! set of externally meaningful categories.
//!
//! A remote error carries a dotted namespaced name and an optional message.
//! A recognized "invalid arguments" name maps to a bad-request status; every
//! other name, and a missing name, maps to an internal-error status with the
//! original name preserved for diagnostics.
use vstd::prelude::*;

verus! {

#[verifier::external_type_specification]
#[verifier::external_body]
pub struct ExDbusError(dbus::Error);

/// Relies on dbus's `Error::name`: the namespaced error name, if the
/// transport supplied one.
#[verifier::external_body]
pub(crate) fn dbus_error_name(e: &dbus::Error) -> Option<String> {
    match e.name() {
        Some(n) => Some(n.to_string()),
        None => None,
    }
}

/// Relies on dbus's `Error::message`: the human-readable message, if the
/// transport supplied one.
#[verifier::external_body]
pub(crate) fn dbus_error_message(e: &dbus::Error) -> Option<String> {
    match e.message() {
        Some(m) => Some(m.to_string()),
        None => None,
    }
}

/// The library's own record of a structured remote error: a namespaced
/// name and an optional human-readable message.
#[derive(Debug, Clone, PartialEq)]
pub struct RemoteError {
    pub name: Option<String>,
    pub message: Option<String>,
}

impl RemoteError {
    /// Reads the name and message out of the transport's error value.
    /// Which values come back depends on that value alone; every caller
    /// is verified for all of them.
    pub fn from_dbus(e: &dbus::Error) -> RemoteError {
        RemoteError { name: dbus_error_name(e), message: dbus_error_message(e) }
    }
}

/// The request-level failure returned to callers of the gateway.
#[derive(Debug)]
pub enum ApiError {
    DBus(RemoteError),
}

impl From<RemoteError> for ApiError {
    fn from(err: RemoteError) -> (r: ApiError) {
        ApiError::DBus(err)
    }
}

impl vstd::std_specs::convert::FromSpecImpl<RemoteError> for ApiError {
    open spec fn obeys_from_spec() -> bool {
        true
    }

    open spec fn from_spec(err: RemoteError) -> ApiError {
        ApiError::DBus(err)
    }
}

/// The namespace/inner-code pair of an externally reported failure.
#[derive(Debug, Clone, PartialEq)]
pub struct ErrorType {
    pub namespace: String,
    pub inner: Option<String>,
}

/// The externally reported shape of one failure: a numeric status, the
/// namespace/inner-code pair, and an optional message.
#[derive(Debug, Clone, PartialEq)]
pub struct ApiErrorData {
    pub status: u16,
    pub error_type: ErrorType,
    pub message: Option<String>,
}

/// The one remote error name classified as bad-request-shaped.
pub open spec fn invalid_args_error_name() -> Seq<char> {
    "org.freedesktop.DBus.Error.InvalidArgs"@
}

/// Whether a remote error is of the recognized "invalid arguments" class.
pub open spec fn is_invalid_args(e: RemoteError) -> bool {
    &&& e.name is Some
    &&& (e.name->0)@ == invalid_args_error_name()
}

impl RemoteError {
    /// The fallback classification: internal-error status, with the
    /// original namespaced name and message preserved for diagnostics.
    pub fn unknown(&self) -> (r: ApiErrorData)
        ensures
            r.status == 500,
            r.error_type.namespace@ == "DBus"@,
            r.error_type.inner == self.name,
            r.message == self.message,
    {
        ApiErrorData {
            status: 500,
            error_type: ErrorType {
                namespace: String::from_str("DBus"),
                inner: clone_opt_string(&self.name),
            },
            message: clone_opt_string(&self.message),
        }
    }

    /// Classifies this remote error: the recognized "invalid arguments"
    /// name maps to a bad-request status; every other error keeps the
    /// internal-error status. Name and message are always preserved.
    pub fn to_error_data(&self) -> (r: ApiErrorData)
        ensures
            r.status == (if is_invalid_args(*self) { 400u16 } else { 500u16 }),
            r.error_type.namespace@ == "DBus"@,
            r.error_type.inner == self.name,
            r.message == self.message,
    {
        match &self.name {
            Some(name) => {
                let invalid_args = String::from_str("org.freedesktop.DBus.Error.InvalidArgs");
                if *name == invalid_args {
                    ApiErrorData {
                        status: 400,
                        error_type: ErrorType {
                            namespace: String::from_str("DBus"),
                            inner: Some(name.clone()),
                        },
                        message: clone_opt_string(&self.message),
                    }
                } else {
                    self.unknown()
                }
            },
            None => self.unknown(),
        }
    }
}

impl ApiError {
    /// The externally reported data of this failure.
    pub fn error_data(&self) -> (r: ApiErrorData)
        ensures
            r.status == (if is_invalid_args(self->DBus_0) { 400u16 } else { 500u16 }),
            r.error_type.namespace@ == "DBus"@,
            r.error_type.inner == self->DBus_0.name,
            r.message == self->DBus_0.message,
    {
        match self {
            ApiError::DBus(err) => err.to_error_data(),
        }
    }
}

fn clone_opt_string(s: &Option<String>) -> (r: Option<String>)
    ensures
        r == *s,
{
    match s {
        Some(v) => Some(v.clone()),
        None => None,
    }
}

} // verus!
