use soundboard::resolver::{fold_and_strip, resolve, soundboard_compare, soundboard_sanitize};

#[test]
fn sanitize_lowercases_folds_and_strips() {
    assert_eq!(soundboard_sanitize("Kutya Ugat\u{e1}s.mp3"), "kutyaugatas.mp3");
    assert_eq!(soundboard_sanitize("\u{dc}GAT\u{c1}S"), "ugatas");
    // Full Unicode lowercasing, beyond the folded vowel set.
    assert_eq!(soundboard_sanitize("\u{c4}rger.wav"), "\u{e4}rger.wav");
    assert_eq!(soundboard_sanitize("\u{171}\u{fc}\u{fa}\u{f6}\u{151}\u{f3}\u{e1}\u{ed}\u{e9}"), "uuuoooaie");
    assert_eq!(soundboard_sanitize("\u{170}\u{dc}\u{da}\u{d6}\u{150}\u{d3}\u{c1}\u{cd}\u{c9}"), "uuuoooaie");
    assert_eq!(soundboard_sanitize("  plain  "), "plain");
    assert_eq!(soundboard_sanitize(""), "");
}

#[test]
fn sanitize_is_idempotent() {
    let inputs = [
        "Kutya Ugat\u{e1}s.mp3",
        "\u{dc}GAT\u{c1}S",
        "  already plain  ",
        "",
        "MiXeD 123 !?",
    ];
    for s in inputs {
        let once = soundboard_sanitize(s);
        let twice = soundboard_sanitize(&once);
        assert_eq!(twice, once);
    }
}

#[test]
fn fold_and_strip_leaves_case_alone() {
    // The verified half of canonicalization: folds accented vowels and strips
    // spaces, but does not lowercase.
    assert_eq!(fold_and_strip("Ugat\u{e1}s X"), "UgatasX");
    assert_eq!(fold_and_strip("\u{171}\u{fc}\u{fa} \u{f6}\u{151}\u{f3} \u{e1}\u{ed}\u{e9}"), "uuuoooaie");
    assert_eq!(fold_and_strip("\u{170}"), "\u{170}");
    assert_eq!(fold_and_strip(""), "");
    // Idempotent, as proved of it.
    let once = fold_and_strip("Ugat\u{e1}s X");
    assert_eq!(fold_and_strip(&once), once);
}

#[test]
fn compare_is_a_canonical_prefix_test() {
    assert!(soundboard_compare("Kutya Ugat\u{e1}s.mp3", "kutya"));
    assert!(soundboard_compare("\u{c4}rger.wav", "\u{e4}rger"));
    assert!(soundboard_compare("Kutya Ugat\u{e1}s.mp3", "KUTYA UGAT"));
    assert!(soundboard_compare("kutya2.ogg", "kutya"));
    assert!(!soundboard_compare("kutya2.ogg", "kutyau"));
    assert!(!soundboard_compare("kutya2.ogg", "utya"));
    assert!(soundboard_compare("anything", ""));
}

#[test]
fn resolve_prefix_match_picks_a_matching_file() {
    let files = vec![
        String::from("Kutya Ugat\u{e1}s.mp3"),
        String::from("kutya2.ogg"),
    ];
    let r = resolve("kutya", &files);
    assert!(r == Some(0) || r == Some(1));
    // First match in listing order wins.
    assert_eq!(r, Some(0));
}

#[test]
fn resolve_accent_variants_agree() {
    let files = vec![
        String::from("Ugat\u{e1}s hang.wav"),
        String::from("kutya2.ogg"),
    ];
    let plain = resolve("ugatas", &files);
    assert_eq!(plain, Some(0));
    assert_eq!(resolve("Ugat\u{e1}s", &files), plain);
    assert_eq!(resolve("\u{dc}GAT\u{c1}S".to_lowercase().as_str(), &files), plain);
    assert_eq!(resolve("ugat as", &files), plain);
}

#[test]
fn resolve_no_match_returns_none() {
    let files = vec![
        String::from("Kutya Ugat\u{e1}s.mp3"),
        String::from("kutya2.ogg"),
    ];
    assert_eq!(resolve("zzz", &files), None);
    assert_eq!(resolve("ugatas", &files), None);
    assert_eq!(resolve("anything", &Vec::new()), None);
}

#[test]
fn resolve_first_match_wins() {
    let files = vec![
        String::from("abc.mp3"),
        String::from("abd.mp3"),
        String::from("abc copy.mp3"),
    ];
    assert_eq!(resolve("ab", &files), Some(0));
    assert_eq!(resolve("abd", &files), Some(1));
    assert_eq!(resolve("abccopy", &files), Some(2));
}
