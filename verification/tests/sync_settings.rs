use oryxis_app::webdav::webdav_is_cleartext;

#[test]
fn https_and_loopback_are_quiet() {
    assert!(!webdav_is_cleartext("https://cloud.example/dav/"));
    assert!(!webdav_is_cleartext("http://localhost:8080/dav/"));
    assert!(!webdav_is_cleartext("http://127.0.0.1:8088/oryxis/"));
    assert!(!webdav_is_cleartext("http://[::1]:8080/dav/"));
    // Nothing typed yet is not a warning either.
    assert!(!webdav_is_cleartext(""));
    assert!(!webdav_is_cleartext("http"));
}

#[test]
fn plain_http_to_a_real_host_warns() {
    assert!(webdav_is_cleartext("http://nas.local/dav/"));
    assert!(webdav_is_cleartext("http://192.168.1.10:5005/dav/"));
    assert!(webdav_is_cleartext("  http://cloud.example/dav/  "));
    // Userinfo must not be mistaken for the host.
    assert!(webdav_is_cleartext("http://me@nas.local/dav/"));
}

#[test]
fn webdav_loopback_behind_userinfo_and_unicode_space_is_quiet() {
    assert!(!webdav_is_cleartext("\u{3000}http://user:pw@localhost/dav/\u{A0}"));
    assert!(!webdav_is_cleartext("http://a@b@127.0.0.1"));
    assert!(webdav_is_cleartext("http://[fe80::1]:80/"));
    assert!(webdav_is_cleartext("http://"));
    assert!(!webdav_is_cleartext("HTTP://nas.local/"));
}
