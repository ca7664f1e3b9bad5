//! The launcher's error type and the context messages that wrap it.
use vstd::prelude::*;
use crate::text::{concat_str, owned};

verus! {

/// What can go wrong in the launcher.
///
/// The variants that stand for failures of outside services (HTTP, the
/// environment, the file system, JSON and TOML) carry the message that the
/// failing service gave.
#[derive(Debug)]
pub enum Error {
    Context { message: String, source: Box<Error> },
    Pd2lcpNotInitialised,
    InstallCorrupted,
    InvalidMetadata,
    WineInitFailed,
    NoHomeDir,
    InvalidState,
    FailedToInstallD2,
    FailedToInstallD2LOD,
    FailedToUntarArchive,
    InvalidPlatform,
    FailedToParseFilename,
    PoisonError,
    D2InstalledIncorrectly,
    ReqwestError(String),
    VarError(String),
    IoError(String),
    SerdeJsonError(String),
    TomlDeError(String),
    TomlSerError(String),
}

/// The text that an error displays.
pub open spec fn error_message(e: Error) -> Seq<char> {
    match e {
        Error::Context { message, .. } => message@,
        Error::Pd2lcpNotInitialised => "PD2 is not initialised"@,
        Error::InstallCorrupted => "Installation is corrupted"@,
        Error::InvalidMetadata => "Invalid game file data metadata"@,
        Error::WineInitFailed => "Wine initialisation failed"@,
        Error::NoHomeDir => "No home directory"@,
        Error::InvalidState => "Provided state is invalid"@,
        Error::FailedToInstallD2 => "Failed to install d2"@,
        Error::FailedToInstallD2LOD => "Failed to install d2 lod"@,
        Error::FailedToUntarArchive => "Unable to untar the archive. Is tar installed?"@,
        Error::InvalidPlatform => "This operation does not exist on this platform"@,
        Error::FailedToParseFilename => "Failed to parse filename"@,
        Error::PoisonError => "Mutex poisoned"@,
        Error::D2InstalledIncorrectly => "D2 is not installed correctly, reinstall"@,
        Error::ReqwestError(m) => m@,
        Error::VarError(m) => m@,
        Error::IoError(m) => m@,
        Error::SerdeJsonError(m) => m@,
        Error::TomlDeError(m) => m@,
        Error::TomlSerError(m) => m@,
    }
}

/// The message of an error that `ctx` explains.
pub open spec fn context_message(ctx: Seq<char>, inner: Seq<char>) -> Seq<char> {
    "Context: "@ + ctx + "\nError:"@ + inner
}

impl Error {
    /// The text that this error displays.
    pub fn message(&self) -> (r: String)
        ensures
            r@ == error_message(*self),
    {
        match self {
            Error::Context { message, .. } => message.clone(),
            Error::Pd2lcpNotInitialised => owned("PD2 is not initialised"),
            Error::InstallCorrupted => owned("Installation is corrupted"),
            Error::InvalidMetadata => owned("Invalid game file data metadata"),
            Error::WineInitFailed => owned("Wine initialisation failed"),
            Error::NoHomeDir => owned("No home directory"),
            Error::InvalidState => owned("Provided state is invalid"),
            Error::FailedToInstallD2 => owned("Failed to install d2"),
            Error::FailedToInstallD2LOD => owned("Failed to install d2 lod"),
            Error::FailedToUntarArchive => owned("Unable to untar the archive. Is tar installed?"),
            Error::InvalidPlatform => owned("This operation does not exist on this platform"),
            Error::FailedToParseFilename => owned("Failed to parse filename"),
            Error::PoisonError => owned("Mutex poisoned"),
            Error::D2InstalledIncorrectly => owned("D2 is not installed correctly, reinstall"),
            Error::ReqwestError(m) => m.clone(),
            Error::VarError(m) => m.clone(),
            Error::IoError(m) => m.clone(),
            Error::SerdeJsonError(m) => m.clone(),
            Error::TomlDeError(m) => m.clone(),
            Error::TomlSerError(m) => m.clone(),
        }
    }

    /// The error that this one wraps, if it is a context error.
    pub fn source(&self) -> (r: Option<&Error>)
        ensures
            match *self {
                Error::Context { source, .. } => r == Some(&*source),
                _ => r is None,
            },
    {
        match self {
            Error::Context { source, .. } => Some(&**source),
            _ => None,
        }
    }

    /// This error, explained by `ctx`: a context error whose message names
    /// both `ctx` and this error's own message.
    pub fn with_ctx(self, ctx: &str) -> (r: Error)
        ensures
            r matches Error::Context { message, source }
                && message@ == context_message(ctx@, error_message(self))
                && *source == self,
    {
        let inner = self.message();
        let head = concat_str("Context: ", ctx);
        let head = concat_str(head.as_str(), "\nError:");
        let message = concat_str(head.as_str(), inner.as_str());
        Error::Context { message, source: Box::new(self) }
    }
}

/// Explaining the errors of a result.
pub trait ResultContextExt<T>: Sized {
    /// The result, with an error explained by `ctx`.
    fn context(self, ctx: &str) -> Result<T, Error>;

    /// The result, with an error explained by the message that `f` makes
    /// of it.
    fn with_context<F: FnOnce(&Error) -> String>(self, f: F) -> Result<T, Error>
        requires
            forall|e: &Error| f.requires((e,)),
    ;
}

impl<T> ResultContextExt<T> for Result<T, Error> {
    fn context(self, ctx: &str) -> (r: Result<T, Error>)
        ensures
            match self {
                Ok(v) => r == Ok::<T, Error>(v),
                Err(e) => r matches Err(Error::Context { message, source })
                    && message@ == context_message(ctx@, error_message(e))
                    && *source == e,
            },
    {
        match self {
            Ok(v) => Ok(v),
            Err(e) => Err(e.with_ctx(ctx)),
        }
    }

    fn with_context<F: FnOnce(&Error) -> String>(self, f: F) -> (r: Result<T, Error>)
        ensures
            match self {
                Ok(v) => r == Ok::<T, Error>(v),
                Err(e) => r matches Err(Error::Context { message, source })
                    && f.ensures((&e,), message)
                    && *source == e,
            },
    {
        match self {
            Ok(v) => Ok(v),
            Err(e) => {
                let message = f(&e);
                Err(Error::Context { message, source: Box::new(e) })
            },
        }
    }
}

} // verus!
