use std::sync::Arc;

use fltk_webview::{Call, RawHandle, SizeHint, Webview};

fn webview(addr: usize) -> Webview {
    Webview::from_raw(Arc::new(RawHandle { addr }))
}

fn navigate_url(call: &Call) -> (usize, Vec<u8>) {
    match call {
        Call::Navigate { webview, url } => (webview.addr, url.as_bytes_with_nul().to_vec()),
        _ => panic!("expected a navigate call"),
    }
}

fn nul_terminated(text: &str) -> Vec<u8> {
    let mut v = text.as_bytes().to_vec();
    v.push(0);
    v
}

#[test]
fn size_hint_codes_follow_native_values() {
    assert_eq!(SizeHint::NoHint.code(), 0);
    assert_eq!(SizeHint::Min.code(), 1);
    assert_eq!(SizeHint::Max.code(), 2);
    assert_eq!(SizeHint::Fixed.code(), 3);
}

#[test]
fn size_hint_codes_are_distinct() {
    let all = [SizeHint::NoHint, SizeHint::Min, SizeHint::Max, SizeHint::Fixed];
    for (i, a) in all.iter().enumerate() {
        for (j, b) in all.iter().enumerate() {
            assert_eq!(a.code() == b.code(), i == j);
        }
    }
}

#[test]
fn navigate_passes_url_as_c_string() {
    let wv = webview(0x1000);
    let call = wv.navigate("https://google.com");
    assert_eq!(navigate_url(&call), (0x1000, b"https://google.com\0".to_vec()));
}

#[test]
fn navigate_empty_url_is_a_lone_nul() {
    let wv = webview(1);
    assert_eq!(navigate_url(&wv.navigate("")), (1, vec![0u8]));
}

#[test]
fn set_html_navigates_to_utf8_data_url() {
    let wv = webview(42);
    let call = wv.set_html("<p>hello</p>");
    assert_eq!(
        navigate_url(&call),
        (42, b"data:text/html;charset=utf-8,<p>hello</p>\0".to_vec())
    );
}

#[test]
fn set_html_keeps_non_ascii_page_bytes() {
    let wv = webview(42);
    let page = "<h1>caf\u{e9} \u{1f600}</h1>";
    let (_, bytes) = navigate_url(&wv.set_html(page));
    let mut expected = b"data:text/html;charset=utf-8,".to_vec();
    expected.extend_from_slice(page.as_bytes());
    expected.push(0);
    assert_eq!(bytes, expected);
}

#[test]
fn set_html_equals_navigate_to_data_url() {
    let wv = webview(5);
    let html = "<b>x</b>";
    let url = format!("data:text/html;charset=utf-8,{}", html);
    assert_eq!(navigate_url(&wv.set_html(html)), navigate_url(&wv.navigate(&url)));
}

#[test]
fn init_and_eval_pass_script() {
    let wv = webview(9);
    match wv.init("var a = 1;") {
        Call::Init { webview, js } => {
            assert_eq!(webview.addr, 9);
            assert_eq!(js.as_bytes_with_nul(), b"var a = 1;\0");
        }
        _ => panic!("expected an init call"),
    }
    match wv.eval("counter(3)") {
        Call::Eval { webview, js } => {
            assert_eq!(webview.addr, 9);
            assert_eq!(js.as_bytes_with_nul(), b"counter(3)\0");
        }
        _ => panic!("expected an eval call"),
    }
}

#[test]
fn bind_and_unbind_pass_name() {
    let wv = webview(11);
    match wv.bind("add") {
        Call::Bind { webview, name } => {
            assert_eq!(webview.addr, 11);
            assert_eq!(name.as_bytes_with_nul(), b"add\0");
        }
        _ => panic!("expected a bind call"),
    }
    match wv.unbind("say_hello") {
        Call::Unbind { webview, name } => {
            assert_eq!(webview.addr, 11);
            assert_eq!(name.as_bytes_with_nul(), b"say_hello\0");
        }
        _ => panic!("expected an unbind call"),
    }
}

#[test]
fn return_passes_id_status_and_result() {
    let wv = webview(13);
    match wv.return_("7", 0, "\"Hello Mo\"") {
        Call::Return { webview, seq, status, result } => {
            assert_eq!(webview.addr, 13);
            assert_eq!(seq.as_bytes_with_nul(), b"7\0");
            assert_eq!(status, 0);
            assert_eq!(result.as_bytes_with_nul(), nul_terminated("\"Hello Mo\"").as_slice());
        }
        _ => panic!("expected a return call"),
    }
}

#[test]
fn set_size_passes_hint_code() {
    let wv = webview(17);
    match wv.set_size(800, 600, SizeHint::Fixed) {
        Call::SetSize { webview, width, height, hints } => {
            assert_eq!((webview.addr, width, height, hints), (17, 800, 600, 3));
        }
        _ => panic!("expected a set_size call"),
    }
    match wv.set_size(-1, 0, SizeHint::NoHint) {
        Call::SetSize { width, height, hints, .. } => {
            assert_eq!((width, height, hints), (-1, 0, 0));
        }
        _ => panic!("expected a set_size call"),
    }
}

#[test]
fn dispatch_names_the_webview() {
    let mut wv = webview(19);
    match wv.dispatch() {
        Call::Dispatch { webview } => assert_eq!(webview.addr, 19),
        _ => panic!("expected a dispatch call"),
    }
}

#[test]
fn clone_drives_the_same_webview() {
    let wv = webview(23);
    let other = wv.clone();
    assert_eq!(navigate_url(&other.navigate("a")), (23, b"a\0".to_vec()));
}

#[test]
fn release_with_no_sharer_stops_then_destroys() {
    let wv = webview(29);
    let calls = wv.release_calls(0);
    assert_eq!(calls.len(), 2);
    assert!(matches!(calls[0], Call::Terminate { webview } if webview.addr == 29));
    assert!(matches!(calls[1], Call::Destroy { webview } if webview.addr == 29));
}

#[test]
fn release_while_shared_does_nothing() {
    let wv = webview(31);
    assert!(wv.release_calls(1).is_empty());
    assert!(wv.release_calls(5).is_empty());
}

#[test]
fn drop_never_releases_native_webview() {
    let wv = webview(37);
    assert!(wv.drop_calls().is_empty());
    let other = wv.clone();
    assert!(other.drop_calls().is_empty());
    drop(wv);
    assert!(other.drop_calls().is_empty());
}

#[test]
fn size_hints_order_as_declared() {
    assert!(SizeHint::NoHint < SizeHint::Min);
    assert!(SizeHint::Min < SizeHint::Max);
    assert!(SizeHint::Max < SizeHint::Fixed);
}
