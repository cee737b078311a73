use hello_axum::routes::dispatch;

#[test]
fn get_root_is_greeting() {
    let r = dispatch("GET", "/");
    assert_eq!(r.status, 200);
    assert_eq!(r.body, "Hello Axum!!");
}

#[test]
fn any_method_on_root_is_greeting() {
    for method in ["GET", "POST", "PUT", "DELETE", "PATCH", "HEAD", "OPTIONS"] {
        let r = dispatch(method, "/");
        assert_eq!(r.status, 200);
        assert_eq!(r.body, "Hello Axum!!");
    }
}

#[test]
fn post_nonexistent_is_not_found() {
    let r = dispatch("POST", "/nonexistent");
    assert_eq!(r.status, 404);
    assert_eq!(r.body, "404 Not Found");
}

#[test]
fn other_paths_are_not_found() {
    for path in ["", "//", "/index.html", "/hello", "/a", "Hello Axum!!"] {
        let r = dispatch("GET", path);
        assert_eq!(r.status, 404);
        assert_eq!(r.body, "404 Not Found");
    }
}

#[test]
fn bind_address_is_loopback_9900() {
    let (octets, port) = hello_axum::bind_address();
    assert_eq!(octets, [127, 0, 0, 1]);
    assert_eq!(port, 9900);
}
