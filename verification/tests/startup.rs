use apitest::startup::{startup_error_message, StartupStage};

#[test]
fn logger_failure_message() {
    let m = startup_error_message(&StartupStage::Logger, "no terminal");
    assert_eq!(m, "failed to create logger: no terminal");
}

#[test]
fn server_failure_message() {
    let m = startup_error_message(&StartupStage::Server, "address in use");
    assert_eq!(m, "failed to create server: address in use");
}

#[test]
fn empty_detail_keeps_the_prefix() {
    let m = startup_error_message(&StartupStage::Server, "");
    assert_eq!(m, "failed to create server: ");
}
