use spotify_tui::redirect::status_line;
use spotify_tui::redirect::RedirectCapture;
use spotify_tui::redirect::RequestOutcome;

fn captured_path(outcome: RequestOutcome) -> Option<String> {
    match outcome {
        RequestOutcome::Captured(path) => Some(path),
        _ => None,
    }
}

#[test]
fn captures_callback_path_and_stops() {
    let mut cap = RedirectCapture::new();
    assert!(cap.is_listening());
    let request = b"GET /callback?code=ABC123 HTTP/1.1\r\nHost: localhost\r\n\r\n";
    let outcome = cap.on_connection(&request[..]);
    match outcome {
        RequestOutcome::Captured(path) => assert_eq!(path, "/callback?code=ABC123"),
        _ => panic!("a well-formed request must yield its path"),
    }
    assert!(!cap.is_listening());
    assert_eq!(cap.result(), Some("/callback?code=ABC123".to_string()));
}

#[test]
fn missing_token_keeps_listening() {
    let mut cap = RedirectCapture::new();
    let outcome = cap.on_connection(&b"GET\r\n\r\n"[..]);
    assert_eq!(outcome, RequestOutcome::MalformedRequest);
    assert!(cap.is_listening());

    let outcome = cap.on_connection(&b"GET /after HTTP/1.1\r\n\r\n"[..]);
    assert_eq!(captured_path(outcome), Some("/after".to_string()));
    assert!(!cap.is_listening());
}

#[test]
fn single_token_without_whitespace_is_malformed() {
    let mut cap = RedirectCapture::new();
    let outcome = cap.on_connection(&b"GETONLY"[..]);
    assert_eq!(outcome, RequestOutcome::MalformedRequest);
    assert!(cap.is_listening());
}

#[test]
fn empty_buffer_is_malformed() {
    let mut cap = RedirectCapture::new();
    let outcome = cap.on_connection(&b""[..]);
    assert_eq!(outcome, RequestOutcome::MalformedRequest);
    assert!(cap.is_listening());
}

#[test]
fn invalid_utf8_keeps_listening() {
    let mut cap = RedirectCapture::new();
    let bytes: Vec<u8> = vec![0xff, 0xfe, 0x47, 0x45, 0x54];
    let outcome = cap.on_connection(&bytes);
    assert_eq!(outcome, RequestOutcome::InvalidUtf8);
    assert!(cap.is_listening());

    let outcome = cap.on_connection(&b"GET /callback?error=denied HTTP/1.1\r\n"[..]);
    assert_eq!(captured_path(outcome), Some("/callback?error=denied".to_string()));
    assert!(!cap.is_listening());
}

#[test]
fn zero_padded_read_buffer_still_yields_path() {
    // The caller reads into a fixed buffer and hands the whole of it over;
    // the unwritten tail holds NUL bytes, which are valid UTF-8 and not
    // whitespace.
    let mut buffer = vec![0u8; 1000];
    let request = b"GET /callback?code=XYZ HTTP/1.1\r\nHost: localhost\r\n\r\n";
    buffer[..request.len()].copy_from_slice(request);
    let mut cap = RedirectCapture::new();
    let outcome = cap.on_connection(&buffer);
    assert_eq!(captured_path(outcome), Some("/callback?code=XYZ".to_string()));
}

#[test]
fn capture_is_idempotent_across_fresh_listeners() {
    let request = b"GET /callback?code=SAME HTTP/1.1\r\n\r\n";
    let mut first = RedirectCapture::new();
    let mut second = RedirectCapture::new();
    let path_first = captured_path(first.on_connection(&request[..]));
    let path_second = captured_path(second.on_connection(&request[..]));
    assert_eq!(path_first, path_second);
    assert_eq!(path_first, Some("/callback?code=SAME".to_string()));
}

#[test]
fn status_lines_follow_the_outcome() {
    assert_eq!(status_line(&RequestOutcome::MalformedRequest), "HTTP/1.1 400 Bad Request");
    assert_eq!(status_line(&RequestOutcome::InvalidUtf8), "HTTP/1.1 400 Bad Request");
    let captured = RequestOutcome::Captured("/callback?code=ABC".to_string());
    assert_eq!(status_line(&captured), "HTTP/1.1 200 OK");
}

#[test]
fn splitting_matches_the_standard_library() {
    // The token extraction must split exactly as str::split_whitespace
    // does, Unicode whitespace included (here: a no-break space).
    let lines = [
        "GET /callback?code=A HTTP/1.1",
        "  leading /ws  ",
        "GET\u{a0}/nbsp HTTP/1.1",
        "GET\t/tab\r\nHeader: x",
        "one",
        "",
        " \t \r\n ",
        "a b c d e",
    ];
    for line in lines {
        let expected = line.split_whitespace().nth(1).map(|s| s.to_string());
        let mut cap = RedirectCapture::new();
        let got = captured_path(cap.on_connection(line.as_bytes()));
        assert_eq!(got, expected, "disagreement on {:?}", line);
    }
}
