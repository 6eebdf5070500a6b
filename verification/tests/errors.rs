use cli_logger::error::LoggerError;

#[test]
fn each_error_has_its_sentence() {
    assert_eq!(LoggerError::FullPath.message(), "Can't get full path of application");
    assert_eq!(LoggerError::FileName.message(), "File name can't be obtained");
    assert_eq!(LoggerError::NameStr.message(), "Name is not valid UTF-8");
    assert_eq!(LoggerError::TimeZoneEnv.message(), "Time zone env variable not set");
    assert_eq!(LoggerError::TimeZoneParse.message(), "Can't parse time zone variable");
    assert_eq!(LoggerError::Registration.message(), "Can't install the log renderer");
}

#[test]
fn errors_compare_by_variant() {
    assert_eq!(LoggerError::FullPath, LoggerError::FullPath);
    assert_ne!(LoggerError::FullPath, LoggerError::FileName);
    assert_ne!(LoggerError::TimeZoneEnv, LoggerError::TimeZoneParse);
}
