use tart::archive::ArchiveError;
use tart::cli::{Argument, CliError};
use tart::failure::{exit_status, Failure};

#[test]
fn success_ends_with_status_zero() {
    assert_eq!(exit_status(&Ok(())), 0);
}

#[test]
fn usage_failures_end_with_status_two() {
    let failure = Failure::Usage(CliError::UnspecifiedOperation);
    assert_eq!(failure.exit_status(), 2);
    assert_eq!(
        failure.message(),
        "❌ Please specify --compress, --decompress or --add"
    );
    assert_eq!(exit_status(&Err(failure)), 2);
    let missing = Failure::Usage(CliError::MissingArgument(Argument::Output));
    assert_eq!(missing.message(), "❌ Missing required argument: --output");
    assert_eq!(exit_status(&Err(missing)), 2);
}

#[test]
fn archive_failures_end_with_status_one() {
    let corrupt = Failure::Archive(ArchiveError::Corrupt);
    assert_eq!(corrupt.message(), "❌ Not a gzip-compressed archive");
    assert_eq!(exit_status(&Err(corrupt)), 1);
    let refused = Failure::Archive(ArchiveError::PathRefused("../x".to_string()));
    assert_eq!(refused.message(), "❌ Cannot archive path: ../x");
    assert_eq!(exit_status(&Err(refused)), 1);
}

#[test]
fn io_failures_name_what_was_done_and_the_cause() {
    let failure = Failure::Io {
        what: "cannot read a.txt".to_string(),
        cause: "permission denied".to_string(),
    };
    assert_eq!(failure.message(), "❌ cannot read a.txt: permission denied");
    assert_eq!(failure.exit_status(), 1);
    assert_eq!(exit_status(&Err(failure)), 1);
}
