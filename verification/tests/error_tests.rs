use pd2lcp::error::{Error, ResultContextExt};

#[test]
fn every_error_has_its_message() {
    let cases = [
        (Error::Pd2lcpNotInitialised, "PD2 is not initialised"),
        (Error::InstallCorrupted, "Installation is corrupted"),
        (Error::InvalidMetadata, "Invalid game file data metadata"),
        (Error::WineInitFailed, "Wine initialisation failed"),
        (Error::NoHomeDir, "No home directory"),
        (Error::InvalidState, "Provided state is invalid"),
        (Error::FailedToInstallD2, "Failed to install d2"),
        (Error::FailedToInstallD2LOD, "Failed to install d2 lod"),
        (Error::FailedToUntarArchive, "Unable to untar the archive. Is tar installed?"),
        (Error::InvalidPlatform, "This operation does not exist on this platform"),
        (Error::FailedToParseFilename, "Failed to parse filename"),
        (Error::PoisonError, "Mutex poisoned"),
        (Error::D2InstalledIncorrectly, "D2 is not installed correctly, reinstall"),
        (Error::ReqwestError("timed out".to_string()), "timed out"),
        (Error::VarError("not present".to_string()), "not present"),
        (Error::IoError("denied".to_string()), "denied"),
        (Error::SerdeJsonError("eof".to_string()), "eof"),
        (Error::TomlDeError("bad key".to_string()), "bad key"),
        (Error::TomlSerError("unsupported".to_string()), "unsupported"),
    ];
    for (e, m) in cases {
        assert_eq!(e.message(), m);
        assert!(e.source().is_none());
    }
}

#[test]
fn context_wraps_the_error() {
    let r: Result<(), Error> = Err(Error::NoHomeDir);
    let e = r.context("Failed to copy d2 files").unwrap_err();
    assert_eq!(e.message(), "Context: Failed to copy d2 files\nError:No home directory");
    assert!(matches!(e.source(), Some(Error::NoHomeDir)));
}

#[test]
fn context_leaves_success_alone() {
    let r: Result<u32, Error> = Ok(7);
    assert_eq!(r.context("unused").unwrap(), 7);
}

#[test]
fn with_context_uses_the_given_message() {
    let r: Result<(), Error> = Err(Error::InvalidPlatform);
    let e = r.with_context(|e| format!("while launching: {}", e.message())).unwrap_err();
    assert_eq!(
        e.message(),
        "while launching: This operation does not exist on this platform"
    );
    assert!(matches!(e.source(), Some(Error::InvalidPlatform)));
}
