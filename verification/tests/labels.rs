use oryxis_app::labels::{consent_text, count_label, fill_all, fill_first, host_label};

#[test]
fn fills_agree_with_std_replace() {
    let cases = [
        ("Sampled via {host}", "{host}", "bastion"),
        ("{host} and {host}", "{host}", "db"),
        ("aaa", "aa", "b"),
        ("no placeholder", "{n}", "3"),
        ("", "{n}", "3"),
        ("ab", "", "x"),
        ("", "", "x"),
        ("{{n}}", "{n}", "7"),
        ("\u{e9}{n}\u{e9}", "{n}", "\u{4e2d}"),
    ];
    for (t, k, v) in cases {
        assert_eq!(fill_all(t, k, v), t.replace(k, v), "replace {t:?} {k:?} {v:?}");
        assert_eq!(fill_first(t, k, v), t.replacen(k, v, 1), "replacen {t:?} {k:?} {v:?}");
    }
}

#[test]
fn menu_labels() {
    assert_eq!(count_label("Upload {n} items", 12), "Upload 12 items");
    assert_eq!(count_label("{n} / {n}", 2), "2 / {n}");
    assert_eq!(host_label("Upload to {host}", &Some("prod".to_string()), "the other host"), "Upload to prod");
    assert_eq!(host_label("Upload to {host}", &None, "the other host"), "Upload to the other host");
    assert_eq!(
        consent_text("Install on {host} as {user}; {host} restarts", "edge", "root"),
        "Install on edge as root; edge restarts"
    );
    // A value holding a later placeholder is filled by the later pass.
    assert_eq!(consent_text("{host}", "{user}", "alice"), "alice");
}
