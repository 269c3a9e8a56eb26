use june_analytics::analytics::AnalyticsBuilder;

#[test]
fn builder_keeps_settings_and_takes_apart() {
    let mut builder = AnalyticsBuilder::new_with_client("key".to_owned(), "transport");
    builder
        .channel_capacity(Some(16))
        .context(serde_json::Value::String("ctx".to_owned()));
    let (write_key, client, capacity, context) = builder.into_parts();
    assert_eq!("key", write_key);
    assert_eq!("transport", client);
    assert_eq!(Some(16), capacity);
    assert_eq!(Some(serde_json::Value::String("ctx".to_owned())), context);
}

#[test]
fn builder_starts_unbounded_and_without_context() {
    let builder = AnalyticsBuilder::new_with_client("key".to_owned(), ());
    let (_, _, capacity, context) = builder.into_parts();
    assert_eq!(None, capacity);
    assert_eq!(None, context);
}
