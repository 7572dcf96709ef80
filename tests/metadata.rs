use shiori::download::FileDownload;
use shiori::metadata::{content_length, parse_content_disposition_filename, parse_decimal, suggest_name};

#[test]
fn extended_filename_wins_over_plain() {
    let header = "attachment; filename=\"a.bin\"; filename*=UTF-8''b.bin";
    assert_eq!(parse_content_disposition_filename(header), Some("b.bin".to_string()));
    assert_eq!(suggest_name(Some(header), "https://host/path/other.bin"), Some("b.bin".to_string()));
}

#[test]
fn quoted_filename() {
    assert_eq!(
        parse_content_disposition_filename("attachment; filename=\"file.bin\""),
        Some("file.bin".to_string())
    );
}

#[test]
fn unquoted_filename_stops_at_semicolon_and_is_trimmed() {
    assert_eq!(
        parse_content_disposition_filename("attachment; filename= file.bin ; size=3"),
        Some("file.bin".to_string())
    );
}

#[test]
fn extended_filename_is_percent_decoded() {
    assert_eq!(
        parse_content_disposition_filename("attachment; filename*=UTF-8''file%20name.bin"),
        Some("file name.bin".to_string())
    );
    assert_eq!(
        parse_content_disposition_filename("attachment; filename*=UTF-8''a%2Fb.bin; x=1"),
        Some("a/b.bin".to_string())
    );
}

#[test]
fn undecodable_extended_filename_falls_back_to_plain() {
    assert_eq!(
        parse_content_disposition_filename("attachment; filename*=UTF-8''%FF.bin; filename=c.bin"),
        Some("c.bin".to_string())
    );
}

#[test]
fn header_without_filename() {
    assert_eq!(parse_content_disposition_filename("attachment"), None);
    assert_eq!(parse_content_disposition_filename("attachment; filename=   "), None);
    assert_eq!(parse_content_disposition_filename("attachment; filename=\"open"), None);
}

#[test]
fn name_falls_back_to_url_segment() {
    assert_eq!(
        suggest_name(None, "https://host/path/model.bin?x=1"),
        Some("model.bin".to_string())
    );
    assert_eq!(
        suggest_name(Some("inline"), "https://host/path/model.bin#frag"),
        Some("model.bin".to_string())
    );
}

#[test]
fn empty_header_name_falls_back_to_url_segment() {
    assert_eq!(
        suggest_name(Some("attachment; filename=\"\""), "https://host/w.bin"),
        Some("w.bin".to_string())
    );
}

#[test]
fn no_usable_name_at_all() {
    assert_eq!(suggest_name(None, "https://host/dir/"), None);
    assert_eq!(suggest_name(None, "not a url"), None);
}

#[test]
fn default_file_name_when_unresolved() {
    let d = FileDownload::new("https://host/dir/", "/tmp".to_string(), None);
    assert_eq!(d.file_name(), "download.bin");
    let mut named = FileDownload::new("https://host/dir/m.bin", "/tmp".to_string(), None);
    named.apply_metadata(None, None);
    assert_eq!(named.file_name(), "m.bin");
}

#[test]
fn content_length_values() {
    assert_eq!(content_length(Some("1024")), 1024);
    assert_eq!(content_length(Some("+7")), 7);
    assert_eq!(content_length(Some("0")), 0);
    assert_eq!(content_length(None), 0);
    assert_eq!(content_length(Some("")), 0);
    assert_eq!(content_length(Some("abc")), 0);
    assert_eq!(content_length(Some(" 12")), 0);
    assert_eq!(content_length(Some("-3")), 0);
    assert_eq!(content_length(Some("99999999999999999999999999")), 0);
}

#[test]
fn decimal_parsing_matches_std() {
    for s in ["18446744073709551615", "18446744073709551616", "+", "007", "1a", "+42"] {
        assert_eq!(parse_decimal(s), s.parse::<usize>().ok(), "{}", s);
    }
}
