use session_manager::log_hub::{vector_address, VectorLayer};

#[test]
fn test_vector_layer_creation() {
    let layer = VectorLayer::new("test-service", "localhost:9000");
    drop(layer);
}

#[test]
fn vector_layer_keeps_name_and_address() {
    let layer = VectorLayer::new("rust-test-service", "127.0.0.1:9000");
    assert_eq!(layer.service_name_text(), "rust-test-service");
    assert_eq!(layer.addr_text(), "127.0.0.1:9000");
}

#[test]
fn vector_address_drops_http_scheme() {
    assert_eq!(vector_address("http://vector:9000"), "vector:9000");
    assert_eq!(vector_address("localhost:9000"), "localhost:9000");
    assert_eq!(vector_address("https://vector:9000"), "https://vector:9000");
}
