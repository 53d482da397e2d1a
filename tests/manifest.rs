use mhf_patcher::changeset::{bytes_equal, changed_paths, is_changed};
use mhf_patcher::digest::{content_hash_hex, to_hex_lower};
use mhf_patcher::failure::{PatchFailure, FILE_ERROR, NETWORK_ERROR};
use mhf_patcher::manifest::{parse_manifest, ManifestEntry};

fn entry(hash: &str, path: &str) -> (Vec<u8>, Vec<u8>) {
    (hash.as_bytes().to_vec(), path.as_bytes().to_vec())
}

fn pairs(entries: &[ManifestEntry]) -> Vec<(Vec<u8>, Vec<u8>)> {
    entries.iter().map(|e| (e.hash.clone(), e.path.clone())).collect()
}

#[test]
fn sha256_hex_of_a() {
    assert_eq!(
        content_hash_hex(b"A"),
        b"559aead08264d5795d3909718cdd05abd49572e84fe55590eef31a88a08fdffd".to_vec()
    );
}

#[test]
fn sha256_hex_of_empty() {
    assert_eq!(
        content_hash_hex(b""),
        b"e3b0c44298fc1c149afbf4c8996fb92427ae41e4649b934ca495991b7852b855".to_vec()
    );
}

#[test]
fn hex_is_lowercase_two_digits_per_byte() {
    assert_eq!(to_hex_lower(&[0x0a, 0x14, 0x1e, 0xff, 0x00]), b"0a141eff00".to_vec());
    assert_eq!(to_hex_lower(&[]), Vec::<u8>::new());
}

#[test]
fn parses_lines_in_order() {
    let r = parse_manifest(b"h1\ta.txt\nh2\tb.txt").unwrap();
    assert_eq!(pairs(&r), vec![entry("h1", "a.txt"), entry("h2", "b.txt")]);
}

#[test]
fn parses_crlf_and_trailing_newline() {
    let r = parse_manifest(b"h1\ta.txt\r\nh2\tdir/b.txt\n").unwrap();
    assert_eq!(pairs(&r), vec![entry("h1", "a.txt"), entry("h2", "dir/b.txt")]);
}

#[test]
fn final_carriage_return_without_newline_is_kept() {
    let r = parse_manifest(b"h1\ta.txt\r").unwrap();
    assert_eq!(pairs(&r), vec![entry("h1", "a.txt\r")]);
}

#[test]
fn strips_leading_slashes_of_paths() {
    let r = parse_manifest(b"h1\t///data/a.bin\nh2\t/b").unwrap();
    assert_eq!(pairs(&r), vec![entry("h1", "data/a.bin"), entry("h2", "b")]);
}

#[test]
fn splits_at_first_tab_only() {
    let r = parse_manifest(b"h1\ta\tb").unwrap();
    assert_eq!(pairs(&r), vec![entry("h1", "a\tb")]);
}

#[test]
fn empty_manifest_has_no_entries() {
    assert_eq!(parse_manifest(b"").unwrap().len(), 0);
}

#[test]
fn line_without_tab_fails_whole_manifest() {
    let r = parse_manifest(b"h1\ta.txt\nnotab\nh2\tb.txt");
    assert!(matches!(r, Err(PatchFailure::Network)));
}

#[test]
fn empty_line_fails_whole_manifest() {
    assert!(matches!(parse_manifest(b"h1\ta\n\nh2\tb"), Err(PatchFailure::Network)));
    assert!(matches!(parse_manifest(b"h1\ta\n\n"), Err(PatchFailure::Network)));
}

#[test]
fn failure_messages() {
    assert_eq!(PatchFailure::Network.message(), NETWORK_ERROR);
    assert_eq!(PatchFailure::File.message(), FILE_ERROR);
    assert_eq!(NETWORK_ERROR, "patcher-network-error");
    assert_eq!(FILE_ERROR, "patcher-file-error");
}

#[test]
fn detection_missing_different_and_equal() {
    let hash = content_hash_hex(b"A");
    assert!(is_changed(&hash, None));
    assert!(is_changed(&hash, Some(&b"B"[..])));
    assert!(!is_changed(&hash, Some(&b"A"[..])));
}

#[test]
fn detection_compares_exactly() {
    let upper: Vec<u8> = content_hash_hex(b"A").to_ascii_uppercase();
    assert!(is_changed(&upper, Some(&b"A"[..])));
}

#[test]
fn detection_in_change_set() {
    let text = format!("{}\tfoo/bar.bin", String::from_utf8(content_hash_hex(b"A")).unwrap());
    let entries = parse_manifest(text.as_bytes()).unwrap();
    assert_eq!(changed_paths(&entries, &vec![None]), vec![b"foo/bar.bin".to_vec()]);
    assert_eq!(changed_paths(&entries, &vec![Some(b"other".to_vec())]), vec![b"foo/bar.bin".to_vec()]);
    assert_eq!(changed_paths(&entries, &vec![Some(b"A".to_vec())]), Vec::<Vec<u8>>::new());
}

#[test]
fn change_set_keeps_manifest_order() {
    let hb = String::from_utf8(content_hash_hex(b"bee")).unwrap();
    let text = format!("x1\tz.txt\n{}\tb.txt\nx3\ta.txt", hb);
    let entries = parse_manifest(text.as_bytes()).unwrap();
    let locals = vec![None, Some(b"bee".to_vec()), Some(b"old".to_vec())];
    assert_eq!(changed_paths(&entries, &locals), vec![b"z.txt".to_vec(), b"a.txt".to_vec()]);
}

#[test]
fn resolving_twice_after_patch_is_empty() {
    let ha = String::from_utf8(content_hash_hex(b"alpha")).unwrap();
    let hb = String::from_utf8(content_hash_hex(b"beta")).unwrap();
    let text = format!("{}\ta\n{}\tb", ha, hb);
    let entries = parse_manifest(text.as_bytes()).unwrap();
    let before = vec![None, Some(b"old".to_vec())];
    assert_eq!(changed_paths(&entries, &before), vec![b"a".to_vec(), b"b".to_vec()]);
    let after = vec![Some(b"alpha".to_vec()), Some(b"beta".to_vec())];
    assert!(changed_paths(&entries, &after).is_empty());
    assert!(changed_paths(&entries, &after).is_empty());
}

#[test]
fn bytes_equal_compares_contents() {
    assert!(bytes_equal(b"abc", b"abc"));
    assert!(!bytes_equal(b"abc", b"abd"));
    assert!(!bytes_equal(b"abc", b"ab"));
    assert!(bytes_equal(b"", b""));
}
