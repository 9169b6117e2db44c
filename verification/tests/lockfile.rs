use valmonitor::errors::AppError;
use valmonitor::models::lockfile::LockfileData;

#[test]
fn lockfile_fields_are_read_in_order() {
    let data = LockfileData::parse("Riot Client:1234:56789:secret:https".to_string()).unwrap();
    assert_eq!(data.name, "Riot Client");
    assert_eq!(data.pid, "1234");
    assert_eq!(data.port, "56789");
    assert_eq!(data.password, "secret");
    assert_eq!(data.protocol, "https");
}

#[test]
fn short_lockfile_is_refused() {
    let err = LockfileData::parse("a:b:c".to_string()).unwrap_err();
    assert_eq!(
        err,
        AppError::InvalidResponse("lockfile must contain name, pid, port, password and protocol".to_string())
    );
}

#[test]
fn basic_authorization_of_password() {
    let data = LockfileData::parse("n:1:2:abc:https".to_string()).unwrap();
    assert_eq!(data.authorization_header(), "Basic cmlvdDphYmM=");
}
