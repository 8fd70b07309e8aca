use deno_http::accept::op_http_websocket_accept_header;

#[test]
fn accept_header_of_the_sample_nonce() {
    let accept = op_http_websocket_accept_header("dGhlIHNhbXBsZSBub25jZQ==");
    assert_eq!(accept, "s3pPLMBiTxaQ9kYGzzhZRbK+xOo=");
}

#[test]
fn accept_header_of_the_empty_key() {
    // base64 of the SHA-1 digest of the GUID alone.
    let accept = op_http_websocket_accept_header("");
    assert_eq!(accept, "Kfh9QIsMVZcl6xEPYxPHzW8SZ8w=");
}

#[test]
fn accept_header_is_twenty_bytes_in_base64() {
    let accept = op_http_websocket_accept_header("x3JJHMbDL1EzLkh9GBhXDw==");
    assert_eq!(accept, "HSmrc0sMlYUkAGmm5OPpG2HaGWk=");
    assert_eq!(accept.len(), 28);
    assert!(accept.ends_with('='));
}

#[test]
fn accept_header_depends_on_the_key() {
    let a = op_http_websocket_accept_header("a");
    let b = op_http_websocket_accept_header("b");
    assert_ne!(a, b);
    assert_ne!(a, "a");
}

#[test]
fn accept_header_hashes_utf8_bytes() {
    let accept = op_http_websocket_accept_header("k\u{e9}y");
    assert_eq!(accept.len(), 28);
    assert_ne!(accept, op_http_websocket_accept_header("key"));
}
