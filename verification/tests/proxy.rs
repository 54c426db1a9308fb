use websocket_bridge::proxy::{ProxyAuth, ProxyConfiguration};

fn auth(username: &str, password: &str) -> ProxyAuth {
    ProxyAuth { username: String::from(username), password: String::from(password) }
}

#[test]
fn encode_is_base64_of_name_colon_password() {
    assert_eq!(auth("user", "pass").encode(), "dXNlcjpwYXNz");
    assert_eq!(auth("Aladdin", "open sesame").encode(), "QWxhZGRpbjpvcGVuIHNlc2FtZQ==");
}

#[test]
fn encode_of_empty_credentials_is_the_colon() {
    assert_eq!(auth("", "").encode(), "Og==");
}

#[test]
fn encode_takes_text_as_utf8() {
    assert_eq!(auth("ü", "é").encode(), "w7w6w6k=");
}

#[test]
fn try_encode_agrees_with_encode() {
    let auth = auth("user", "pass");
    assert_eq!(auth.try_encode(), Some(auth.encode()));
}

#[test]
fn proxy_configuration_can_be_cloned() {
    let proxy = ProxyConfiguration {
        proxy_url: String::from("proxy.example"),
        proxy_port: 8080,
        auth: Some(auth("u", "p")),
    };
    let copy = proxy.clone();
    assert_eq!(copy.proxy_url, "proxy.example");
    assert_eq!(copy.proxy_port, 8080);
    assert_eq!(copy.auth.unwrap().username, "u");
}
