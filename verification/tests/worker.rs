use jarscan::archive::scan_archive;
use jarscan::errors::Error;
use jarscan::manifest::analyze_manifest_text;
use jarscan::records::Records;
use jarscan::scan::{extract_classpath, found_line};
use jarscan::text::{split_str, str_contains, trim_str};

fn crc32(data: &[u8]) -> u32 {
    let mut crc: u32 = 0xFFFF_FFFF;
    for &b in data {
        crc ^= b as u32;
        for _ in 0..8 {
            if crc & 1 != 0 {
                crc = (crc >> 1) ^ 0xEDB8_8320;
            } else {
                crc >>= 1;
            }
        }
    }
    !crc
}

fn le16(v: &mut Vec<u8>, x: u16) {
    v.extend_from_slice(&x.to_le_bytes());
}

fn le32(v: &mut Vec<u8>, x: u32) {
    v.extend_from_slice(&x.to_le_bytes());
}

/// A single-entry stored (uncompressed) zip holding the manifest entry.
fn zip_with_manifest(content: &[u8]) -> Vec<u8> {
    let name = b"META-INF/MANIFEST.MF";
    let crc = crc32(content);
    let len = content.len() as u32;
    let mut v = Vec::new();
    v.extend_from_slice(b"PK\x03\x04");
    le16(&mut v, 20);
    le16(&mut v, 0);
    le16(&mut v, 0);
    le16(&mut v, 0);
    le16(&mut v, 0x21);
    le32(&mut v, crc);
    le32(&mut v, len);
    le32(&mut v, len);
    le16(&mut v, name.len() as u16);
    le16(&mut v, 0);
    v.extend_from_slice(name);
    v.extend_from_slice(content);
    let cd_offset = v.len() as u32;
    v.extend_from_slice(b"PK\x01\x02");
    le16(&mut v, 20);
    le16(&mut v, 20);
    le16(&mut v, 0);
    le16(&mut v, 0);
    le16(&mut v, 0);
    le16(&mut v, 0x21);
    le32(&mut v, crc);
    le32(&mut v, len);
    le32(&mut v, len);
    le16(&mut v, name.len() as u16);
    le16(&mut v, 0);
    le16(&mut v, 0);
    le16(&mut v, 0);
    le16(&mut v, 0);
    le32(&mut v, 0);
    le32(&mut v, 0);
    v.extend_from_slice(name);
    let cd_size = v.len() as u32 - cd_offset;
    v.extend_from_slice(b"PK\x05\x06");
    le16(&mut v, 0);
    le16(&mut v, 0);
    le16(&mut v, 1);
    le16(&mut v, 1);
    le32(&mut v, cd_size);
    le32(&mut v, cd_offset);
    le16(&mut v, 0);
    v
}

/// A zip with no entries at all: just the end-of-central-directory record.
fn empty_zip() -> Vec<u8> {
    let mut v = Vec::new();
    v.extend_from_slice(b"PK\x05\x06");
    le16(&mut v, 0);
    le16(&mut v, 0);
    le16(&mut v, 0);
    le16(&mut v, 0);
    le32(&mut v, 0);
    le32(&mut v, 0);
    le16(&mut v, 0);
    v
}

#[test]
fn title_and_version_extracted() {
    let r = analyze_manifest_text("Implementation-Title: Foo\nImplementation-Version: 1.2\n");
    let (title, version) = r.expect("record expected");
    assert_eq!(title, "Foo");
    assert_eq!(version, "1.2");
}

#[test]
fn bundle_name_fallback_and_version_sentinel() {
    let r = analyze_manifest_text("Bundle-Name: Bar\n");
    let (title, version) = r.expect("record expected");
    assert_eq!(title, "Bar");
    assert_eq!(version, "no version");
}

#[test]
fn implementation_title_takes_precedence() {
    let text = "Bundle-Name: Bar\nImplementation-Title: Foo\nImplementation-Version: 2.0\n";
    let (title, version) = analyze_manifest_text(text).expect("record expected");
    assert_eq!(title, "Foo");
    assert_eq!(version, "2.0");
}

#[test]
fn parsing_twice_gives_identical_extraction() {
    let text = "Implementation-Title: Same\nImplementation-Version: 0.9\nX: y\n";
    let first = analyze_manifest_text(text);
    let second = analyze_manifest_text(text);
    assert_eq!(first, second);
}

#[test]
fn manifest_without_title_keys_yields_nothing() {
    assert_eq!(analyze_manifest_text("Main-Class: com.example.Main\n"), None);
    assert_eq!(analyze_manifest_text(""), None);
}

#[test]
fn lines_without_colon_are_ignored() {
    let text = "garbage line\nImplementation-Title: Foo\nanother one\n";
    let (title, version) = analyze_manifest_text(text).expect("record expected");
    assert_eq!(title, "Foo");
    assert_eq!(version, "no version");
}

#[test]
fn value_split_on_first_colon_and_trimmed() {
    let text = "  Implementation-Title \t:  Foo  \nImplementation-Version: 1:2:3\n";
    let (title, version) = analyze_manifest_text(text).expect("record expected");
    assert_eq!(title, "Foo");
    assert_eq!(version, "1:2:3");
}

#[test]
fn repeated_manifest_key_last_line_wins() {
    let text = "Implementation-Title: First\nImplementation-Title: Second\n";
    let (title, _) = analyze_manifest_text(text).expect("record expected");
    assert_eq!(title, "Second");
}

#[test]
fn records_last_write_wins_over_insertion_order() {
    let mut records = Records::new();
    records.insert("Foo".to_string(), "1.0".to_string());
    records.insert("Bar".to_string(), "0.1".to_string());
    records.insert("Foo".to_string(), "2.0".to_string());
    assert_eq!(records.get(&"Foo".to_string()), Some("2.0".to_string()));
    assert_eq!(records.get(&"Bar".to_string()), Some("0.1".to_string()));
    let entries = records.entries();
    assert_eq!(entries.len(), 2);
    assert_eq!(entries[0], ("Foo".to_string(), "2.0".to_string()));
    assert_eq!(entries[1], ("Bar".to_string(), "0.1".to_string()));
}

#[test]
fn records_get_absent_key() {
    let records = Records::new();
    assert_eq!(records.get(&"Foo".to_string()), None);
}

#[test]
fn two_archives_same_title_later_version_wins() {
    let a = zip_with_manifest(b"Implementation-Title: Foo\nImplementation-Version: 1.0\n");
    let b = zip_with_manifest(b"Implementation-Title: Foo\nImplementation-Version: 2.0\n");
    let mut records = Records::new();
    assert_eq!(scan_archive(&mut records, &a).expect("readable"), true);
    assert_eq!(scan_archive(&mut records, &b).expect("readable"), true);
    assert_eq!(records.get(&"Foo".to_string()), Some("2.0".to_string()));
    assert_eq!(records.entries().len(), 1);
}

#[test]
fn archive_without_manifest_contributes_nothing() {
    let mut records = Records::new();
    records.insert("Kept".to_string(), "1".to_string());
    let r = scan_archive(&mut records, &empty_zip());
    assert_eq!(r.expect("no fatal error"), false);
    assert_eq!(records.entries().len(), 1);
    assert_eq!(records.get(&"Kept".to_string()), Some("1".to_string()));
}

#[test]
fn entry_offset_beyond_archive_end_is_refused_not_fatal() {
    // A crafted archive: the central directory names the manifest entry but
    // records a local-header offset far beyond the buffer's end.
    let content: &[u8] = b"Implementation-Title: Evil\n";
    let mut zip = zip_with_manifest(content);
    let cd_offset = 30 + 20 + content.len();
    let field = cd_offset + 42;
    zip[field..field + 4].copy_from_slice(&(u32::MAX - 64).to_le_bytes());
    let mut records = Records::new();
    let r = scan_archive(&mut records, &zip);
    assert!(matches!(r, Err(Error::Parse(_))));
    assert_eq!(records.entries().len(), 0);
}

#[test]
fn unreadable_archive_is_recoverable_parse_error() {
    let mut records = Records::new();
    let garbage = vec![0u8, 1, 2, 3, 4, 5];
    let r = scan_archive(&mut records, &garbage);
    assert!(matches!(r, Err(Error::Parse(_))));
    assert_eq!(records.entries().len(), 0);
}

#[test]
fn archive_scan_reads_real_manifest_entry() {
    let zip = zip_with_manifest(b"Bundle-Name: Realistic\n");
    let mut records = Records::new();
    assert_eq!(scan_archive(&mut records, &zip).expect("readable"), true);
    assert_eq!(records.get(&"Realistic".to_string()), Some("no version".to_string()));
}

#[test]
fn classpath_flag_both_spellings_in_order() {
    let args: Vec<String> = vec![
        "prog".to_string(),
        "-classpath".to_string(),
        "a.jar:b.jar".to_string(),
        "x".to_string(),
        "--class-path".to_string(),
        "c.jar".to_string(),
    ];
    let entries = extract_classpath(&args);
    assert_eq!(entries, vec!["a.jar".to_string(), "b.jar".to_string(), "c.jar".to_string()]);
}

#[test]
fn classpath_flag_in_final_position_has_no_value() {
    let args: Vec<String> = vec!["prog".to_string(), "-classpath".to_string()];
    assert_eq!(extract_classpath(&args).len(), 0);
}

#[test]
fn classpath_value_not_examined_as_flag() {
    let args: Vec<String> = vec![
        "prog".to_string(),
        "-classpath".to_string(),
        "-classpath".to_string(),
        "hidden.jar".to_string(),
    ];
    let entries = extract_classpath(&args);
    assert_eq!(entries, vec!["-classpath".to_string()]);
}

#[test]
fn split_str_keeps_empty_pieces() {
    let pieces = split_str("a::b", ':');
    assert_eq!(pieces, vec!["a".to_string(), "".to_string(), "b".to_string()]);
    assert_eq!(split_str("", ':'), vec!["".to_string()]);
}

#[test]
fn str_contains_basic_cases() {
    assert!(str_contains("/usr/bin/java", "java"));
    assert!(str_contains("javac", "java"));
    assert!(!str_contains("python3", "java"));
    assert!(str_contains("anything", ""));
}

#[test]
fn trim_removes_surrounding_whitespace_only() {
    assert_eq!(trim_str("  a b \t\r\n"), "a b");
    assert_eq!(trim_str(""), "");
    assert_eq!(trim_str("   "), "");
}

#[test]
fn trim_removes_unicode_whitespace_like_std() {
    let s = "\u{A0}\u{2003}x y\u{3000}\u{C}";
    assert_eq!(trim_str(s), s.trim());
    assert_eq!(trim_str(s), "x y");
    assert_eq!(trim_str("\u{1680}\u{2028}\u{205F}"), "");
}

#[test]
fn found_line_format() {
    assert_eq!(found_line("Foo", "1.2"), "FOUND: Foo - 1.2");
}
