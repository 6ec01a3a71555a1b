use kapsule::encoding::{get_sys_encoding, guess_encoding, resolve_encoding, DecoderExt};

#[test]
fn test_sys_encoding() {
    let enc = get_sys_encoding(Some("en_US.UTF-8"));
    println!("{:?}", &enc);
    assert!(enc.is_some());
}

#[test]
fn sys_encoding_picks_suffix_after_last_dot() {
    assert_eq!(get_sys_encoding(Some("zh_CN.GBK")), Some(encoding_rs::GBK));
    assert_eq!(get_sys_encoding(Some("de_DE.ISO-8859-1")), Some(encoding_rs::WINDOWS_1252));
}

#[test]
fn sys_encoding_unavailable() {
    assert!(get_sys_encoding(None).is_none());
    assert!(get_sys_encoding(Some("C")).is_none());
    assert!(get_sys_encoding(Some("en_US.not-a-charset")).is_none());
}

#[test]
fn utf8_name_decodes_to_exact_text() {
    // caf\u{e9}/\u{65e5}\u{672c}.txt is valid UTF-8; the resolver must hand
    // it back unaltered, whatever fallback is on offer.
    let name = "caf\u{e9}/\u{65e5}\u{672c}.txt";
    let bytes = name.as_bytes();
    assert_eq!(bytes.guess_and_decode(None), name);
    assert_eq!(bytes.guess_and_decode(Some(encoding_rs::GBK)), name);
}

#[test]
fn ascii_name_decodes_to_exact_text() {
    let bytes = b"plain-ascii_name.txt";
    assert_eq!(bytes.guess_and_decode(None), "plain-ascii_name.txt");
}

#[test]
fn gbk_name_recovered() {
    // A GBK-encoded name: the detector-plus-fallback path must recover the
    // original text, not a latin transliteration of the raw bytes.
    let text = "\u{4e2d}\u{6587}\u{6587}\u{4ef6}\u{540d}\u{6d4b}\u{8bd5}.txt";
    let (raw, _, had_errors) = encoding_rs::GBK.encode(text);
    assert!(!had_errors);
    let decoded = raw.as_ref().guess_and_decode(Some(encoding_rs::GBK));
    assert_eq!(decoded, text);
}

#[test]
fn low_confidence_without_fallback_still_decodes() {
    // Bytes that are not valid in any common encoding: detection degrades
    // to a best-effort guess, and some string always comes back.
    let junk: &[u8] = &[0xff, 0xfe, 0xfd, 0x81, 0x00, 0x1f];
    let s = junk.guess_and_decode(None);
    assert!(!s.is_empty());
}

#[test]
fn resolver_keeps_guess_without_fallback() {
    // The confidence policy on its own: an unconfident guess is kept when
    // no fallback exists, and replaced when one does.
    let guess = encoding_rs::WINDOWS_1252;
    assert_eq!(resolve_encoding(guess, false, None), guess);
    assert_eq!(resolve_encoding(guess, false, Some(encoding_rs::GBK)), encoding_rs::GBK);
    assert_eq!(resolve_encoding(guess, true, Some(encoding_rs::GBK)), guess);
}

#[test]
fn guess_encoding_detects_utf8() {
    let enc = guess_encoding("na\u{ef}ve".as_bytes(), None);
    assert_eq!(enc, encoding_rs::UTF_8);
}
