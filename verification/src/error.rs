//! The library's error type and the text it is reported with.

use vstd::prelude::*;

use crate::text::{push_str, string_of};

verus! {

/// Declares `std::io::Error` so that the errors of the I/O layer can carry it;
/// nothing about its contents is visible.
#[verifier::external_type_specification]
#[verifier::external_body]
pub struct ExIoError(std::io::Error);

/// Errors of validation, hardware discovery, configuration and I/O.
#[derive(Debug)]
pub enum Error {
    /// A command-line argument or value given directly was rejected.
    InvalidInput(String),
    /// The LED channels found do not match the supported hardware.
    Hardware(String),
    /// A stored configuration value was rejected.
    Config(String),
    /// An operating-system read, write or execution failed.
    Io { context: String, source: std::io::Error },
}

/// `e` is `InvalidInput` with the message `m`.
pub open spec fn is_invalid_input(e: Error, m: Seq<char>) -> bool {
    e matches Error::InvalidInput(s) && s@ == m
}

/// `e` is `Hardware` with the message `m`.
pub open spec fn is_hardware_error(e: Error, m: Seq<char>) -> bool {
    e matches Error::Hardware(s) && s@ == m
}

/// `e` is `Config` with the message `m`.
pub open spec fn is_config_error(e: Error, m: Seq<char>) -> bool {
    e matches Error::Config(s) && s@ == m
}

/// The result is an error of kind `InvalidInput` with the message `m`.
pub open spec fn fails_invalid_input<T>(r: Result<T, Error>, m: Seq<char>) -> bool {
    r matches Err(e) && is_invalid_input(e, m)
}

/// The result is an error of kind `Hardware` with the message `m`.
pub open spec fn fails_hardware<T>(r: Result<T, Error>, m: Seq<char>) -> bool {
    r matches Err(e) && is_hardware_error(e, m)
}

/// The result is an error of kind `Config` with the message `m`.
pub open spec fn fails_config<T>(r: Result<T, Error>, m: Seq<char>) -> bool {
    r matches Err(e) && is_config_error(e, m)
}

/// The text of an error that is not an I/O error, as it is reported to users.
pub open spec fn error_text(e: Error) -> Seq<char> {
    match e {
        Error::InvalidInput(m) => "invalid input: "@ + m@,
        Error::Hardware(m) => "unsupported Gale LED hardware: "@ + m@,
        Error::Config(m) => "invalid gale-led configuration: "@ + m@,
        Error::Io { context, .. } => context@ + ": "@,
    }
}

/// The text of an I/O error, by `ToString::to_string` on `std::io::Error`;
/// it comes from the operating system, so nothing is stated of it.
#[verifier::external_body]
fn io_error_text(source: &std::io::Error) -> String {
    source.to_string()
}

impl Error {
    /// An I/O error with the context in which it occurred.
    pub fn io(context: String, source: std::io::Error) -> (e: Self)
        ensures
            e matches Error::Io { context: c, source: s } && c == context && s == source,
    {
        Error::Io { context, source }
    }

    /// The text with which the error is reported; for an I/O error, the
    /// context, `": "` and the operating system's description.
    pub fn message(&self) -> (r: String)
        ensures
            self !is Io ==> r@ == error_text(*self),
            self is Io ==> r@.subrange(0, error_text(*self).len() as int) == error_text(*self),
    {
        match self {
            Error::InvalidInput(m) => {
                let mut out = string_of("invalid input: ");
                push_str(&mut out, m.as_str());
                out
            },
            Error::Hardware(m) => {
                let mut out = string_of("unsupported Gale LED hardware: ");
                push_str(&mut out, m.as_str());
                out
            },
            Error::Config(m) => {
                let mut out = string_of("invalid gale-led configuration: ");
                push_str(&mut out, m.as_str());
                out
            },
            Error::Io { context, source } => {
                let mut out = string_of(context.as_str());
                push_str(&mut out, ": ");
                let detail = io_error_text(source);
                let ghost head = out@;
                push_str(&mut out, detail.as_str());
                assert(out@.subrange(0, head.len() as int) =~= head);
                out
            },
        }
    }
}

} // verus!
