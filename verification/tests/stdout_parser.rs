use opencodedeck::monitor::stdout_parser::{QrKind, StdoutParser, WechatQrEvent};

#[test]
fn detects_wechat_url() {
    let mut p = StdoutParser::new();
    let ev = p.feed_line("请扫码登录: https://login.weixin.qq.com/qrcode/abc123 ");
    assert_eq!(
        ev,
        Some(WechatQrEvent {
            kind: QrKind::Url,
            data: "https://login.weixin.qq.com/qrcode/abc123".to_string(),
        })
    );
}

#[test]
fn detects_ascii_qr_block() {
    let mut p = StdoutParser::new();
    let mut last_ev = None;
    for _ in 0..21 {
        let line: String = std::iter::repeat('█').take(20).collect();
        last_ev = p.feed_line(&line);
    }
    assert!(matches!(last_ev, Some(WechatQrEvent { kind: QrKind::Ascii, .. })));
}

#[test]
fn ignores_normal_lines() {
    let mut p = StdoutParser::new();
    assert_eq!(p.feed_line("[INFO] server starting on port 4096"), None);
}

#[test]
fn url_detection_resets_ascii_collection() {
    let mut p = StdoutParser::new();
    let block_line: String = std::iter::repeat('█').take(20).collect();
    let _ = p.feed_line(&block_line);
    let ev = p.feed_line("https://login.weixin.qq.com/qrcode/xyz");
    assert_eq!(ev.unwrap().kind, QrKind::Url);
}

#[test]
fn ascii_block_data_joins_trimmed_lines() {
    let mut p = StdoutParser::new();
    let line: String = std::iter::repeat('▀').take(12).collect();
    let padded = format!("{}   ", line);
    let mut events = Vec::new();
    for _ in 0..21 {
        events.push(p.feed_line(&padded));
    }
    assert!(events[..20].iter().all(|e| e.is_none()));
    let expected = vec![line.clone(); 21].join("\n");
    assert_eq!(events[20], Some(WechatQrEvent { kind: QrKind::Ascii, data: expected }));
}

#[test]
fn short_block_is_emitted_when_a_plain_line_ends_it() {
    let mut p = StdoutParser::new();
    let line: String = std::iter::repeat('█').take(10).collect();
    for _ in 0..10 {
        assert_eq!(p.feed_line(&line), None);
    }
    let ev = p.feed_line("done");
    assert_eq!(ev, Some(WechatQrEvent { kind: QrKind::Ascii, data: vec![line; 10].join("\n") }));
    assert_eq!(p.feed_line("done"), None);
}

#[test]
fn nine_block_chars_are_not_a_qr_line() {
    let mut p = StdoutParser::new();
    let line: String = std::iter::repeat('█').take(9).collect();
    for _ in 0..30 {
        assert_eq!(p.feed_line(&line), None);
    }
}

#[test]
fn url_without_scheme_starts_at_line_start() {
    let mut p = StdoutParser::new();
    let ev = p.feed_line("wx.qq.com/login?x=1 next");
    assert_eq!(ev, Some(WechatQrEvent { kind: QrKind::Url, data: "wx.qq.com/login?x=1".to_string() }));
}

#[test]
fn http_url_is_found_for_later_marker() {
    let mut p = StdoutParser::new();
    let ev = p.feed_line("open http://login.wechat.com/q?id=7\tto log in");
    assert_eq!(
        ev,
        Some(WechatQrEvent { kind: QrKind::Url, data: "http://login.wechat.com/q?id=7".to_string() })
    );
}
