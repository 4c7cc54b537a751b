use std::sync::Arc;
use vstd::prelude::*;

use crate::c_text::{c_compatible, c_string_bytes, CText};
use crate::size_hint::SizeHint;

verus! {

/// The address of a native webview instance, as the native library hands it out.
#[derive(Debug, Copy, Clone, PartialEq, Eq, Structural)]
pub struct RawHandle {
    pub addr: usize,
}

/// One call into the native webview library, with its arguments encoded as
/// the library takes them.
pub enum Call {
    /// Load `url` in the webview.
    Navigate { webview: RawHandle, url: CText },
    /// Run `js` at the start of every page load.
    Init { webview: RawHandle, js: CText },
    /// Run `js` in the page, asynchronously.
    Eval { webview: RawHandle, js: CText },
    /// Expose a native callback under the global JavaScript function `name`.
    Bind { webview: RawHandle, name: CText },
    /// Remove the binding of the global JavaScript function `name`.
    Unbind { webview: RawHandle, name: CText },
    /// Answer the binding call `seq` with `status` and the JSON `result`.
    Return { webview: RawHandle, seq: CText, status: i32, result: CText },
    /// Resize the native window.
    SetSize { webview: RawHandle, width: i32, height: i32, hints: i32 },
    /// Schedule a callback on the thread of the event loop.
    Dispatch { webview: RawHandle },
    /// Stop the event loop of the webview.
    Terminate { webview: RawHandle },
    /// Destroy the webview and close its native window.
    Destroy { webview: RawHandle },
}

/// A `Call` with its C strings taken as their bytes (terminating NUL included).
pub enum CallView {
    Navigate { webview: RawHandle, url: Seq<u8> },
    Init { webview: RawHandle, js: Seq<u8> },
    Eval { webview: RawHandle, js: Seq<u8> },
    Bind { webview: RawHandle, name: Seq<u8> },
    Unbind { webview: RawHandle, name: Seq<u8> },
    Return { webview: RawHandle, seq: Seq<u8>, status: i32, result: Seq<u8> },
    SetSize { webview: RawHandle, width: i32, height: i32, hints: i32 },
    Dispatch { webview: RawHandle },
    Terminate { webview: RawHandle },
    Destroy { webview: RawHandle },
}

impl View for Call {
    type V = CallView;

    open spec fn view(&self) -> CallView {
        match self {
            Call::Navigate { webview, url } => CallView::Navigate { webview: *webview, url: url@ },
            Call::Init { webview, js } => CallView::Init { webview: *webview, js: js@ },
            Call::Eval { webview, js } => CallView::Eval { webview: *webview, js: js@ },
            Call::Bind { webview, name } => CallView::Bind { webview: *webview, name: name@ },
            Call::Unbind { webview, name } => CallView::Unbind { webview: *webview, name: name@ },
            Call::Return { webview, seq, status, result } => CallView::Return {
                webview: *webview,
                seq: seq@,
                status: *status,
                result: result@,
            },
            Call::SetSize { webview, width, height, hints } => CallView::SetSize {
                webview: *webview,
                width: *width,
                height: *height,
                hints: *hints,
            },
            Call::Dispatch { webview } => CallView::Dispatch { webview: *webview },
            Call::Terminate { webview } => CallView::Terminate { webview: *webview },
            Call::Destroy { webview } => CallView::Destroy { webview: *webview },
        }
    }
}

/// The scheme and media type that `set_html` puts before the page.
pub open spec fn html_url_prefix() -> Seq<char> {
    "data:text/html;charset=utf-8,"@
}

/// The data URL that carries the page `html`.
pub open spec fn html_data_url(html: Seq<char>) -> Seq<char> {
    html_url_prefix() + html
}

/// A webview, shared by every clone of it.
pub struct Webview {
    inner: Arc<RawHandle>,
}

impl View for Webview {
    type V = RawHandle;

    /// The native instance that this webview drives.
    closed spec fn view(&self) -> RawHandle {
        *self.inner
    }
}

/// Another shared pointer to the same value, through `Arc::clone`.
/// Claimed of it: the new `Arc` points to the allocation that `a` points to,
/// so it reads the same value.
#[verifier::external_body]
fn share_handle(a: &Arc<RawHandle>) -> (r: Arc<RawHandle>)
    ensures
        *r == **a,
{
    Arc::clone(a)
}

/// How many `Arc`s share the allocation of `a`, through `Arc::strong_count`.
/// Claimed of it: at least one, `a` itself. The count depends on the clones
/// alive elsewhere in the program, so nothing more is stated.
#[verifier::external_body]
fn handle_strong_count(a: &Arc<RawHandle>) -> (n: usize)
    ensures
        n >= 1,
{
    Arc::strong_count(a)
}

impl Clone for Webview {
    /// Another webview that drives the same native instance.
    fn clone(&self) -> (w: Self)
        ensures
            w@ == self@,
    {
        Webview { inner: share_handle(&self.inner) }
    }
}

/// Encodes `text` as a C string; `text` holds no NUL character.
fn c_text(text: &str) -> (c: CText)
    requires
        c_compatible(text@),
    ensures
        c@ == c_string_bytes(text@),
{
    match CText::new(text) {
        Some(c) => c,
        None => vstd::pervasive::unreached(),
    }
}

impl Webview {
    /// Wraps the shared handle of a native webview instance.
    pub fn from_raw(inner: Arc<RawHandle>) -> (w: Webview)
        ensures
            w@ == *inner,
    {
        Webview { inner }
    }

    /// Navigates to `url`. A C string cannot carry a NUL, so `url` holds none.
    pub fn navigate(&self, url: &str) -> (call: Call)
        requires
            c_compatible(url@),
        ensures
            call@ == (CallView::Navigate { webview: self@, url: c_string_bytes(url@) }),
    {
        Call::Navigate { webview: *self.inner, url: c_text(url) }
    }

    /// Shows the page `html`, as a UTF-8 data URL.
    pub fn set_html(&self, html: &str) -> (call: Call)
        requires
            c_compatible(html@),
        ensures
            call@ == (CallView::Navigate {
                webview: self@,
                url: c_string_bytes(html_data_url(html@)),
            }),
    {
        let mut url = String::from_str("data:text/html;charset=utf-8,");
        url.append(html);
        proof {
            reveal_strlit("data:text/html;charset=utf-8,");
            assert(url@ =~= html_data_url(html@));
            assert forall|i: int| 0 <= i < url@.len() implies url@[i] != '\0' by {
                if i >= html_url_prefix().len() {
                    assert(url@[i] == html@[i - html_url_prefix().len()]);
                }
            }
        }
        self.navigate(url.as_str())
    }

    /// Runs `js` at the start of every page that loads from now on.
    pub fn init(&self, js: &str) -> (call: Call)
        requires
            c_compatible(js@),
        ensures
            call@ == (CallView::Init { webview: self@, js: c_string_bytes(js@) }),
    {
        Call::Init { webview: *self.inner, js: c_text(js) }
    }

    /// Runs `js` in the current page; the run happens asynchronously.
    pub fn eval(&self, js: &str) -> (call: Call)
        requires
            c_compatible(js@),
        ensures
            call@ == (CallView::Eval { webview: self@, js: c_string_bytes(js@) }),
    {
        Call::Eval { webview: *self.inner, js: c_text(js) }
    }

    /// Schedules a callback to run on the thread of the event loop; the
    /// callback itself travels beside the call.
    pub fn dispatch(&mut self) -> (call: Call)
        ensures
            *final(self) == *old(self),
            call@ == (CallView::Dispatch { webview: old(self)@ }),
    {
        Call::Dispatch { webview: *self.inner }
    }

    /// Exposes a native callback as the global JavaScript function `name`; the
    /// callback itself travels beside the call.
    pub fn bind(&self, name: &str) -> (call: Call)
        requires
            c_compatible(name@),
        ensures
            call@ == (CallView::Bind { webview: self@, name: c_string_bytes(name@) }),
    {
        Call::Bind { webview: *self.inner, name: c_text(name) }
    }

    /// Removes the binding of the global JavaScript function `name`.
    pub fn unbind(&self, name: &str) -> (call: Call)
        requires
            c_compatible(name@),
        ensures
            call@ == (CallView::Unbind { webview: self@, name: c_string_bytes(name@) }),
    {
        Call::Unbind { webview: *self.inner, name: c_text(name) }
    }

    /// Answers the binding call `seq`: status 0 reports success, any other
    /// value an error; `result` is the JSON value handed back to JavaScript.
    pub fn return_(&self, seq: &str, status: i32, result: &str) -> (call: Call)
        requires
            c_compatible(seq@),
            c_compatible(result@),
        ensures
            call@ == (CallView::Return {
                webview: self@,
                seq: c_string_bytes(seq@),
                status,
                result: c_string_bytes(result@),
            }),
    {
        let seq = c_text(seq);
        let result = c_text(result);
        Call::Return { webview: *self.inner, seq, status, result }
    }

    /// Resizes the native window to `width` by `height` under `hints`.
    pub fn set_size(&self, width: i32, height: i32, hints: SizeHint) -> (call: Call)
        ensures
            call@ == (CallView::SetSize { webview: self@, width, height, hints: hints.code() }),
    {
        Call::SetSize { webview: *self.inner, width, height, hints: hints.code() }
    }

    /// The calls that release the native instance when this webview goes away:
    /// it is stopped and destroyed only when no webview shares it any more,
    /// that is when `strong_count`, the number of webviews that share it, is 0.
    pub fn release_calls(&self, strong_count: usize) -> (calls: Vec<Call>)
        ensures
            strong_count == 0 ==> calls@.len() == 2
                && calls@[0]@ == (CallView::Terminate { webview: self@ })
                && calls@[1]@ == (CallView::Destroy { webview: self@ }),
            strong_count != 0 ==> calls@.len() == 0,
    {
        let mut calls: Vec<Call> = Vec::new();
        if strong_count == 0 {
            calls.push(Call::Terminate { webview: *self.inner });
            calls.push(Call::Destroy { webview: *self.inner });
        }
        calls
    }

    /// The calls that dropping this webview makes: those of `release_calls`
    /// for the number of webviews that share the native instance, this one
    /// included.
    pub fn drop_calls(&self) -> (calls: Vec<Call>)
        ensures
            calls@.len() == 0,
    {
        let count = handle_strong_count(&self.inner);
        self.release_calls(count)
    }
}

} // verus!
