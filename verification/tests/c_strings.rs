use std::sync::Arc;

use fltk_webview::{binding_args, BindArgError, Call, CText, RawHandle, Webview};

#[test]
fn c_text_appends_terminating_nul() {
    let c = CText::new("abc").unwrap();
    assert_eq!(c.as_bytes_with_nul(), &[97u8, 98, 99, 0]);
}

#[test]
fn c_text_encodes_utf8() {
    let c = CText::new("\u{e9}").unwrap();
    assert_eq!(c.as_bytes_with_nul(), &[0xC3u8, 0xA9, 0]);
}

#[test]
fn c_text_rejects_interior_nul() {
    assert!(CText::new("a\0b").is_none());
    assert!(CText::new("\0").is_none());
    assert!(CText::new("end\0").is_none());
}

#[test]
fn c_text_round_trip_reads_back_text() {
    let text = "h\u{e9}llo \u{4e16}\u{754c}";
    let c = CText::new(text).unwrap();
    let bytes = c.as_bytes_with_nul();
    let end = bytes.iter().position(|b| *b == 0).unwrap();
    assert_eq!(end, bytes.len() - 1);
    assert_eq!(std::str::from_utf8(&bytes[..end]).unwrap(), text);
}

#[test]
fn binding_args_reads_both() {
    let (id, req) = binding_args(b"12", b"[1,2]").unwrap();
    assert_eq!(id, "12");
    assert_eq!(req, "[1,2]");
}

#[test]
fn binding_args_rejects_bad_id_first() {
    assert_eq!(binding_args(&[0xff], &[0xfe]), Err(BindArgError::Id));
    assert_eq!(binding_args(&[0xC3], b"[]"), Err(BindArgError::Id));
}

#[test]
fn binding_args_rejects_bad_request() {
    assert_eq!(binding_args(b"1", &[0x80]), Err(BindArgError::Req));
    assert_eq!(binding_args(b"1", &[0xED, 0xA0, 0x80]), Err(BindArgError::Req));
}

#[test]
fn binding_args_accepts_empty() {
    assert_eq!(binding_args(b"", b""), Ok(("", "")));
}

#[test]
fn reply_carries_received_id_bytes() {
    let wv = Webview::from_raw(Arc::new(RawHandle { addr: 3 }));
    let raw_id: &[u8] = "id-\u{e9}-9".as_bytes();
    let (id, _req) = binding_args(raw_id, b"[\"Mo\"]").unwrap();
    match wv.return_(id, 0, "\"Hello Mo\"") {
        Call::Return { seq, .. } => {
            let mut expected = raw_id.to_vec();
            expected.push(0);
            assert_eq!(seq.as_bytes_with_nul(), expected.as_slice());
        }
        _ => panic!("expected a return call"),
    }
}
