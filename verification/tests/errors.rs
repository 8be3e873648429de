use maxminddb::error::u64_to_string;
use maxminddb::MaxMindDBError;

#[test]
fn test_error_display() {
    assert_eq!(
        MaxMindDBError::AddressNotFoundError("something went wrong".to_owned()).display_string(),
        "AddressNotFoundError: something went wrong".to_owned(),
    );
    assert_eq!(
        MaxMindDBError::InvalidDatabaseError("something went wrong".to_owned()).display_string(),
        "InvalidDatabaseError: something went wrong".to_owned(),
    );
    assert_eq!(
        MaxMindDBError::IoError("something went wrong".to_owned()).display_string(),
        "IoError: something went wrong".to_owned(),
    );
    assert_eq!(
        MaxMindDBError::MapError("something went wrong".to_owned()).display_string(),
        "MapError: something went wrong".to_owned(),
    );
    assert_eq!(
        MaxMindDBError::DecodingError("something went wrong".to_owned()).display_string(),
        "DecodingError: something went wrong".to_owned(),
    );
}

#[test]
fn test_invalid_network_display() {
    assert_eq!(
        MaxMindDBError::InvalidNetworkError("something went wrong".to_owned()).display_string(),
        "InvalidNetworkError: something went wrong".to_owned(),
    );
}

#[test]
fn test_error_message() {
    let e = MaxMindDBError::InvalidDatabaseError("double of size 2".to_owned());
    assert_eq!(e.message(), "double of size 2");
}

#[test]
fn test_u64_to_string() {
    assert_eq!(u64_to_string(0), "0");
    assert_eq!(u64_to_string(7), "7");
    assert_eq!(u64_to_string(10), "10");
    assert_eq!(u64_to_string(42), "42");
    assert_eq!(u64_to_string(16843035), "16843035");
    assert_eq!(u64_to_string(u64::MAX), "18446744073709551615");
}
