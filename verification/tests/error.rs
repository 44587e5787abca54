use pingd::error::{io_message, AppError, IoFailure};
use std::io::{Error, ErrorKind};

#[test]
fn an_io_error_is_wrapped_as_it_is() {
    let wrapped = AppError::from(Error::new(ErrorKind::AddrInUse, "port taken"));
    match wrapped {
        AppError::IoError(inner) => {
            assert_eq!(inner.kind(), ErrorKind::AddrInUse);
            assert_eq!(inner.to_string(), "port taken");
        }
    }
}

#[test]
fn an_io_error_converts_with_into() {
    fn failing() -> Result<(), AppError> {
        Err(Error::new(ErrorKind::BrokenPipe, "gone"))?;
        Ok(())
    }
    match failing() {
        Err(AppError::IoError(inner)) => assert_eq!(inner.kind(), ErrorKind::BrokenPipe),
        Ok(()) => panic!("the error was lost"),
    }
}

#[test]
fn the_text_is_the_prefix_and_then_the_cause() {
    assert_eq!(io_message("boom"), "IO: boom");
    assert_eq!(io_message(""), "IO: ");
    assert_eq!(io_message("IO: "), "IO: IO: ");
    assert_eq!(io_message(" address in use\n"), "IO:  address in use\n");
    assert_eq!(io_message("gr\u{FC}\u{DF}e"), "IO: gr\u{FC}\u{DF}e");
}

#[test]
fn the_message_of_boom_is_io_boom() {
    let error = AppError::IoError(Error::new(ErrorKind::Other, "boom"));
    assert_eq!(error.message(), "IO: boom");
    assert!(matches!(error, AppError::IoError(_)));
}

#[test]
fn the_message_names_the_kind_and_then_the_cause() {
    let error = AppError::from(Error::new(ErrorKind::Other, "connection reset"));
    assert_eq!(error.message(), "IO: connection reset");
    let error = AppError::from(Error::new(
        ErrorKind::InvalidData,
        "stream did not contain valid UTF-8",
    ));
    assert_eq!(error.message(), "IO: stream did not contain valid UTF-8");
    let error = AppError::from(Error::new(ErrorKind::Other, ""));
    assert_eq!(error.message(), "IO: ");
}

#[test]
fn the_message_of_an_operating_system_error_is_prefixed_too() {
    let cause = Error::from_raw_os_error(98);
    let expected = format!("IO: {}", cause);
    assert_eq!(AppError::from(cause).message(), expected);
}

#[test]
fn failures_name_the_operation() {
    let all = [
        IoFailure::Bind,
        IoFailure::Accept,
        IoFailure::Read,
        IoFailure::InvalidData,
        IoFailure::Write,
    ];
    for (i, a) in all.iter().enumerate() {
        for (j, b) in all.iter().enumerate() {
            assert_eq!(a == b, i == j);
        }
    }
}
