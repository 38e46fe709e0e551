//! The library's error type: a flat set of failure kinds with human-readable
//! payloads, converted from collaborator-native errors at the process boundary.

use vstd::prelude::*;

verus! {

/// Spec-level value of an [`Error`]: each payload seen as its abstract content.
pub enum ErrorV {
    /// A failure reported by the display transport.
    Display(Seq<char>),
    /// An I/O failure from the operating system.
    Io(Seq<char>),
    /// An operating-system errno value.
    Errno(i32),
    /// A domain-specific failure described in words.
    Message(Seq<char>),
}

/// A failure of an update or render step, or of construction.
///
/// Collaborator-native errors (transport errors, `std::io::Error`, raw errno
/// values) are turned into these variants where the observation enters the
/// library.
#[derive(Debug)]
pub enum Error {
    /// A failure reported by the display transport.
    Display(String),
    /// An I/O failure from the operating system.
    Io(String),
    /// An operating-system errno value.
    Errno(i32),
    /// A domain-specific failure described in words.
    Message(String),
}

impl View for Error {
    type V = ErrorV;

    open spec fn view(&self) -> ErrorV {
        match self {
            Error::Display(s) => ErrorV::Display(s@),
            Error::Io(s) => ErrorV::Io(s@),
            Error::Errno(e) => ErrorV::Errno(*e),
            Error::Message(s) => ErrorV::Message(s@),
        }
    }
}

impl Error {
    /// The human-readable payload of this error, for diagnostics.
    pub fn message(&self) -> (r: String)
        ensures
            match self@ {
                ErrorV::Display(s) => r@ == s,
                ErrorV::Io(s) => r@ == s,
                ErrorV::Message(s) => r@ == s,
                ErrorV::Errno(c) => r@ == crate::digits::spec_dec_i32(c as int),
            },
    {
        match self {
            Error::Display(s) => s.clone(),
            Error::Io(s) => s.clone(),
            Error::Errno(e) => crate::digits::i32_to_string(*e),
            Error::Message(s) => s.clone(),
        }
    }
}

} // verus!
