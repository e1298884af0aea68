use llbot_cli::qr::{decode_qr_png, qr_actions, qr_terminal_lines, strip_qr_image_prefix};

#[test]
fn terminal_lines_have_borders_and_equal_widths() {
    let lines = qr_terminal_lines("https://example.invalid/login?k=1").expect("data fits a QR code");
    assert!(lines.len() > 2);
    let width = lines[0].chars().count();
    for line in &lines {
        assert_eq!(line.chars().count(), width);
    }
    assert!(lines[0].chars().all(|c| c == '█'));
    assert_eq!(lines[0], lines[lines.len() - 1]);
    // body lines carry the two-column margins
    for line in &lines[1..lines.len() - 1] {
        let chars: Vec<char> = line.chars().collect();
        assert_eq!(chars[0], '█');
        assert_eq!(chars[1], '█');
        assert_eq!(chars[width - 1], '█');
        assert_eq!(chars[width - 2], '█');
    }
}

#[test]
fn terminal_lines_are_deterministic() {
    let a = qr_terminal_lines("same data").unwrap();
    let b = qr_terminal_lines("same data").unwrap();
    assert_eq!(a, b);
}

#[test]
fn data_url_prefix_is_stripped() {
    assert_eq!(strip_qr_image_prefix("data:image/png;base64,AAAA"), "AAAA");
    assert_eq!(strip_qr_image_prefix("AAAA"), "AAAA");
}

#[test]
fn image_bytes_are_decoded() {
    assert_eq!(decode_qr_png("data:image/png;base64,aGVsbG8=").unwrap(), b"hello");
    assert_eq!(decode_qr_png("aGVsbG8=").unwrap(), b"hello");
}

#[test]
fn invalid_base64_is_refused() {
    assert!(decode_qr_png("data:image/png;base64,!!!").is_err());
    assert!(decode_qr_png("%%%").is_err());
}

#[test]
fn empty_image_skips_the_save_path_only() {
    let plan = qr_actions(true, "");
    assert!(!plan.save_image);
    assert!(plan.report_url);
    assert!(plan.render_terminal);
}

#[test]
fn present_image_is_saved() {
    let plan = qr_actions(false, "abc");
    assert!(plan.save_image);
    assert!(plan.report_url);
    assert!(!plan.render_terminal);
}
