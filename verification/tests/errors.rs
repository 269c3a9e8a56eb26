use june_analytics::Error;

#[test]
fn describe_names_each_error_kind() {
    assert_eq!("message too large", Error::MessageTooLarge.describe());
    assert_eq!(
        "Deserialize error",
        Error::DeserializeError("bad value".to_owned()).describe()
    );
    assert_eq!(
        "Network error",
        Error::NetworkError("connection refused".to_owned()).describe()
    );
}
