use extproc_loadtest::error::Error;

#[test]
fn every_failure_has_its_own_exit_status() {
    let failures = vec![
        Error::FailedToCreateEndpoint(String::new()),
        Error::FailedToConnectToEndpoint(String::new()),
        Error::FailedToCallExtProc(String::new()),
        Error::CannotSendInitialRequest(String::new()),
        Error::CouldNotReachTargetThroughput(100, 90, 90),
        Error::WriteReport(String::new()),
        Error::EstimatedRequestCountTooLarge,
        Error::TooManyThroughputsToTest,
        Error::FailedToOpenRequestFixture(String::new()),
        Error::FailedToParseRequestFixture(String::new()),
        Error::ExactlyOneOfRequestHeadersOrResponseHeadersMustBePresent,
        Error::ConcurrencyMustBeGreaterThanZero,
        Error::ConcurrencyMustBeLessThanU32Max,
    ];
    let codes: Vec<i32> = failures.iter().map(|failure| failure.exit_code()).collect();
    assert_eq!(codes, vec![1, 2, 3, 4, 5, 6, 7, 8, 9, 10, 11, 12, 13]);
}

#[test]
fn the_exit_status_does_not_depend_on_the_details() {
    assert_eq!(Error::WriteReport("disk full".to_string()).exit_code(), 6);
    assert_eq!(Error::WriteReport("denied".to_string()).exit_code(), 6);
    assert_eq!(Error::CouldNotReachTargetThroughput(1, 0, 0).exit_code(), 5);
}
