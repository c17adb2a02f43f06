//! The stream server's answers: which endpoint a request path names, and
//! the status, headers and body of each reply.
//!
//! Nothing here touches the network. The caller reads the request, asks
//! this module what to answer, and sends it.

use crate::codec::{base64, base64_fits, base64_text, percent_decode, percent_decoded};
use crate::command::{UserEvent, UserEventView};
use crate::frame::{outcome_view, CaptureError};
use crate::json::{
    all_plain, empty_object, object_text, put_number, put_text, render, JsonItemView,
};
use crate::text::{chars_of, has_prefix, same_text};
use vstd::prelude::*;

verus! {

/// The page served at `/` where frames come from the store: it polls
/// `/live-stream` every 100 ms, shows the frame, and has an address box
/// that calls `/navigate`.
pub const VIEWER_PAGE: &'static str = r#"<!DOCTYPE html>
<html>
<head>
    <title>Rust Browser - Live Stream</title>
    <style>
        body { margin: 0; background: #1a1a1a; display: flex; flex-direction: column; align-items: center; min-height: 100vh; padding: 20px; box-sizing: border-box; }
        #controls { display: flex; gap: 10px; margin-bottom: 10px; width: 100%; max-width: 1200px; }
        #url-input { flex: 1; padding: 8px 12px; border-radius: 4px; border: none; font-size: 14px; }
        #go-btn { padding: 8px 16px; background: #4a90d9; color: white; border: none; border-radius: 4px; cursor: pointer; }
        #go-btn:hover { background: #3a80c9; }
        img { max-width: 100%; max-height: calc(100vh - 100px); border: 1px solid #333; }
        #status { position: fixed; top: 10px; right: 10px; color: #0f0; font-family: monospace; background: rgba(0,0,0,0.7); padding: 5px 10px; border-radius: 4px; }
        #current-url { color: #888; font-family: monospace; font-size: 12px; margin-bottom: 10px; }
    </style>
</head>
<body>
    <div id="controls">
        <input type="text" id="url-input" placeholder="Enter URL..." />
        <button id="go-btn">Go</button>
    </div>
    <div id="current-url">-</div>
    <div id="status">Connecting...</div>
    <img id="screen" />
    <script>
        const img = document.getElementById('screen');
        const status = document.getElementById('status');
        const currentUrlEl = document.getElementById('current-url');
        const urlInput = document.getElementById('url-input');
        const goBtn = document.getElementById('go-btn');
        let frameCount = 0;

        async function navigate(url) {
            if (!url.startsWith('http')) url = 'https://' + url;
            await fetch('/navigate?url=' + encodeURIComponent(url));
        }

        goBtn.onclick = () => navigate(urlInput.value);
        urlInput.onkeydown = (e) => { if (e.key === 'Enter') navigate(urlInput.value); };

        async function fetchFrame() {
            try {
                const response = await fetch('/live-stream');
                const data = await response.json();

                if (data.frame) {
                    img.src = 'data:image/jpeg;base64,' + data.frame;
                    frameCount++;
                    status.textContent = 'Frames: ' + frameCount;
                    if (data.url) {
                        currentUrlEl.textContent = data.url;
                        urlInput.value = data.url;
                    }
                }
            } catch (e) {
                status.textContent = 'Error: ' + e.message;
            }

            setTimeout(fetchFrame, 100);
        }

        status.textContent = 'Connected';
        fetchFrame();
    </script>
</body>
</html>"#;

/// The page served at `/` where each poll triggers a capture: it polls
/// `/live-stream` every 100 ms and shows the frame.
pub const PLAIN_VIEWER_PAGE: &'static str = r#"<!DOCTYPE html>
<html>
<head>
    <title>Rust Browser - Live Stream</title>
    <style>
        body { margin: 0; background: #1a1a1a; display: flex; justify-content: center; align-items: center; min-height: 100vh; }
        img { max-width: 100%; max-height: 100vh; }
        #status { position: fixed; top: 10px; left: 10px; color: #0f0; font-family: monospace; background: rgba(0,0,0,0.7); padding: 5px 10px; border-radius: 4px; }
    </style>
</head>
<body>
    <div id="status">Connecting...</div>
    <img id="screen" />
    <script>
        const img = document.getElementById('screen');
        const status = document.getElementById('status');
        let frameCount = 0;

        async function fetchFrame() {
            try {
                const response = await fetch('/live-stream');
                const data = await response.json();

                if (data.frame) {
                    img.src = 'data:image/jpeg;base64,' + data.frame;
                    frameCount++;
                    status.textContent = 'Frames: ' + frameCount;
                }
            } catch (e) {
                status.textContent = 'Error: ' + e.message;
            }

            setTimeout(fetchFrame, 100);
        }

        status.textContent = 'Connected';
        fetchFrame();
    </script>
</body>
</html>"#;

/// Where the frames that are served come from.
#[derive(Debug, Clone, Copy, PartialEq, Eq, Structural)]
pub enum StreamMode {
    /// A capture loop fills the frame store; a poll is served from it.
    Stored,
    /// Each poll triggers one capture and is served its result.
    OnDemand,
}

/// The endpoint that a request path names.
#[derive(Debug, Clone, PartialEq, Eq)]
pub enum Route {
    /// `/live-stream`: the latest frame.
    LiveStream,
    /// `/navigate` or `/navigate?...`: go to an address. The field is what
    /// follows `url=`, still percent-encoded, or `None` where there is no
    /// query or the query does not begin with `url=`.
    Navigate(Option<String>),
    /// `/`: the viewer page.
    Viewer,
    /// Anything else.
    NotFound,
}

/// What a [`Route`] stands for in contracts.
pub enum RouteView {
    LiveStream,
    Navigate(Option<Seq<char>>),
    Viewer,
    NotFound,
}

impl View for Route {
    type V = RouteView;

    open spec fn view(&self) -> RouteView {
        match self {
            Route::LiveStream => RouteView::LiveStream,
            Route::Navigate(target) => RouteView::Navigate(target.deep_view()),
            Route::Viewer => RouteView::Viewer,
            Route::NotFound => RouteView::NotFound,
        }
    }
}

/// The endpoint that a request path names. The navigation endpoint is
/// named by `/navigate`, with or without a query; its parameter is there
/// only where the query begins with `url=`.
pub open spec fn route_of(path: Seq<char>) -> RouteView {
    if path == "/live-stream"@ {
        RouteView::LiveStream
    } else if path == "/navigate"@ {
        RouteView::Navigate(None)
    } else if "/navigate?"@.is_prefix_of(path) {
        if "/navigate?url="@.is_prefix_of(path) {
            RouteView::Navigate(Some(path.skip("/navigate?url="@.len() as int)))
        } else {
            RouteView::Navigate(None)
        }
    } else if path == "/"@ {
        RouteView::Viewer
    } else {
        RouteView::NotFound
    }
}

/// Finds the endpoint that a request path names.
pub fn route(path: &str) -> (found: Route)
    ensures
        found@ == route_of(path@),
{
    if same_text(path, "/live-stream") {
        return Route::LiveStream;
    }
    if same_text(path, "/navigate") {
        return Route::Navigate(None);
    }
    let text = chars_of(path);
    let navigate = chars_of("/navigate?");
    if has_prefix(&text, &navigate) {
        let with_url = chars_of("/navigate?url=");
        if !has_prefix(&text, &with_url) {
            return Route::Navigate(None);
        }
        let mut target = String::new();
        let mut i: usize = with_url.len();
        while i < text.len()
            invariant
                with_url.len() <= i <= text.len(),
                target@ == text@.subrange(with_url.len() as int, i as int),
            decreases text.len() - i,
        {
            target.push(text[i]);
            i += 1;
            proof {
                assert(text@.subrange(with_url.len() as int, i as int) =~= text@.subrange(
                    with_url.len() as int,
                    i - 1,
                ).push(text@[i - 1]));
            }
        }
        proof {
            assert(text@.subrange(with_url.len() as int, text.len() as int) =~= text@.skip(
                with_url.len() as int,
            ));
        }
        return Route::Navigate(Some(target));
    }
    if same_text(path, "/") {
        Route::Viewer
    } else {
        Route::NotFound
    }
}

/// An answer to a request.
#[derive(Debug, Clone, PartialEq, Eq)]
pub struct Response {
    /// The status code.
    pub status: u16,
    /// The headers that the answer sets, each a name and a value.
    pub headers: Vec<(String, String)>,
    /// The body.
    pub body: String,
}

/// What a [`Response`] stands for in contracts.
pub struct ResponseView {
    pub status: u16,
    pub headers: Seq<(Seq<char>, Seq<char>)>,
    pub body: Seq<char>,
}

/// What a list of headers stands for in contracts.
pub open spec fn headers_view(headers: Seq<(String, String)>) -> Seq<(Seq<char>, Seq<char>)> {
    Seq::new(headers.len(), |i: int| (headers[i].0@, headers[i].1@))
}

impl View for Response {
    type V = ResponseView;

    open spec fn view(&self) -> ResponseView {
        ResponseView {
            status: self.status,
            headers: headers_view(self.headers@),
            body: self.body@,
        }
    }
}

/// The header that says the body is JSON.
pub open spec fn json_type() -> (Seq<char>, Seq<char>) {
    ("Content-Type"@, "application/json"@)
}

/// The header that says the body is a page.
pub open spec fn html_type() -> (Seq<char>, Seq<char>) {
    ("Content-Type"@, "text/html"@)
}

/// The header that lets a page from anywhere read the answer.
pub open spec fn any_origin() -> (Seq<char>, Seq<char>) {
    ("Access-Control-Allow-Origin"@, "*"@)
}

/// The header that keeps the answer out of caches.
pub open spec fn no_cache() -> (Seq<char>, Seq<char>) {
    ("Cache-Control"@, "no-cache"@)
}

/// The headers of every answer of the frame endpoint.
pub open spec fn frame_headers() -> Seq<(Seq<char>, Seq<char>)> {
    seq![json_type(), any_origin(), no_cache()]
}

fn push_header(headers: &mut Vec<(String, String)>, name: &str, value: &str)
    ensures
        headers_view(final(headers)@) == headers_view(old(headers)@).push((name@, value@)),
{
    headers.push((name.to_string(), value.to_string()));
    proof {
        assert(headers_view(headers@) =~= headers_view(old(headers)@).push((name@, value@)));
    }
}

fn no_headers() -> (headers: Vec<(String, String)>)
    ensures
        headers_view(headers@) == Seq::<(Seq<char>, Seq<char>)>::empty(),
{
    let headers: Vec<(String, String)> = Vec::new();
    proof {
        assert(headers_view(headers@) =~= Seq::<(Seq<char>, Seq<char>)>::empty());
    }
    headers
}

fn frame_endpoint_headers() -> (headers: Vec<(String, String)>)
    ensures
        headers_view(headers@) == frame_headers(),
{
    let mut headers = no_headers();
    push_header(&mut headers, "Content-Type", "application/json");
    push_header(&mut headers, "Access-Control-Allow-Origin", "*");
    push_header(&mut headers, "Cache-Control", "no-cache");
    proof {
        assert(headers_view(headers@) =~= frame_headers());
    }
    headers
}

/// The members of the JSON object that carries a frame: the frame in
/// base64 under `frame`, the time in milliseconds since the epoch under
/// `timestamp` and, where an address is given, the address under `url`.
pub open spec fn frame_members(frame: Seq<u8>, url: Option<Seq<char>>, now_ms: u64) -> Map<
    Seq<char>,
    JsonItemView,
> {
    let base = Map::<Seq<char>, JsonItemView>::empty().insert(
        "frame"@,
        JsonItemView::Text(base64_text(frame)),
    ).insert("timestamp"@, JsonItemView::Number(now_ms));
    match url {
        Some(address) => base.insert("url"@, JsonItemView::Text(address)),
        None => base,
    }
}

/// The answer that carries a frame.
pub open spec fn frame_answer(frame: Seq<u8>, url: Option<Seq<char>>, now_ms: u64) -> ResponseView {
    ResponseView {
        status: 200,
        headers: frame_headers(),
        body: object_text(frame_members(frame, url, now_ms)),
    }
}

/// The answer of the frame endpoint where there is no frame yet.
pub open spec fn no_frame_answer() -> ResponseView {
    ResponseView {
        status: 503,
        headers: frame_headers(),
        body: "{\"error\":\"no frame available\"}"@,
    }
}

/// The answer of the frame endpoint where the capture failed.
pub open spec fn capture_failed_answer() -> ResponseView {
    ResponseView {
        status: 500,
        headers: frame_headers(),
        body: "{\"error\":\"capture failed\"}"@,
    }
}

/// What an optional address stands for in contracts.
pub open spec fn address_view(url: Option<&str>) -> Option<Seq<char>> {
    match url {
        Some(address) => Some(address@),
        None => None,
    }
}

/// Whether the frame is short enough for its base64 text to be allocated.
pub fn frame_fits(frame: &[u8]) -> (fits: bool)
    ensures
        fits == base64_fits(frame@.len()),
{
    frame.len() <= (isize::MAX as usize) / 4 * 3
}

/// The answer that carries a frame.
pub fn frame_response(frame: &[u8], url: Option<&str>, now_ms: u64) -> (response: Response)
    requires
        base64_fits(frame@.len()),
    ensures
        response@ == frame_answer(frame@, address_view(url), now_ms),
{
    let text = base64(frame);
    let mut object = empty_object();
    put_text(&mut object, "frame", text.as_str());
    put_number(&mut object, "timestamp", now_ms);
    match url {
        Some(address) => {
            put_text(&mut object, "url", address);
        },
        None => {},
    }
    let body = render(&object);
    Response { status: 200, headers: frame_endpoint_headers(), body }
}

fn frame_error(status: u16, body: &str) -> (response: Response)
    ensures
        response@ == (ResponseView { status: status, headers: frame_headers(), body: body@ }),
{
    Response { status, headers: frame_endpoint_headers(), body: body.to_string() }
}

/// The answer of the frame endpoint where a poll is served from the frame
/// store: the stored frame with the current address, or "no frame
/// available" before the first capture.
pub open spec fn stored_answer(frame: Option<Seq<u8>>, url: Seq<char>, now_ms: u64) -> ResponseView {
    match frame {
        Some(bytes) => frame_answer(bytes, Some(url), now_ms),
        None => no_frame_answer(),
    }
}

/// Answers a poll from what the frame store holds.
pub fn stored_frame_response(frame: Option<Vec<u8>>, url: &str, now_ms: u64) -> (response: Response)
    requires
        frame matches Some(bytes) ==> base64_fits(bytes@.len()),
    ensures
        response@ == stored_answer(crate::codec::bytes_view(frame), url@, now_ms),
{
    match frame {
        Some(bytes) => frame_response(bytes.as_slice(), Some(url), now_ms),
        None => frame_error(503, "{\"error\":\"no frame available\"}"),
    }
}

/// The answer of the frame endpoint where a poll triggers a capture: the
/// frame that was captured, or "capture failed" whatever the reason.
pub open spec fn captured_answer(outcome: Result<Seq<u8>, CaptureError>, now_ms: u64) -> ResponseView {
    match outcome {
        Ok(bytes) => frame_answer(bytes, None, now_ms),
        Err(_) => capture_failed_answer(),
    }
}

/// Answers a poll with the outcome of the capture that it triggered.
pub fn captured_frame_response(outcome: Result<Vec<u8>, CaptureError>, now_ms: u64) -> (response:
    Response)
    requires
        outcome matches Ok(bytes) ==> base64_fits(bytes@.len()),
    ensures
        response@ == captured_answer(outcome_view(outcome), now_ms),
{
    match outcome {
        Ok(bytes) => frame_response(bytes.as_slice(), None, now_ms),
        Err(_) => frame_error(500, "{\"error\":\"capture failed\"}"),
    }
}

/// The page that the viewer endpoint serves in a mode.
pub open spec fn viewer_page(mode: StreamMode) -> Seq<char> {
    match mode {
        StreamMode::Stored => VIEWER_PAGE@,
        StreamMode::OnDemand => PLAIN_VIEWER_PAGE@,
    }
}

/// The answer of the viewer endpoint.
pub fn viewer_response(mode: StreamMode) -> (response: Response)
    ensures
        response@ == (ResponseView {
            status: 200,
            headers: seq![html_type()],
            body: viewer_page(mode),
        }),
{
    let mut headers = no_headers();
    push_header(&mut headers, "Content-Type", "text/html");
    let body = match mode {
        StreamMode::Stored => VIEWER_PAGE.to_string(),
        StreamMode::OnDemand => PLAIN_VIEWER_PAGE.to_string(),
    };
    proof {
        assert(headers_view(headers@) =~= seq![html_type()]);
    }
    Response { status: 200, headers, body }
}

/// The answer to a path that names no endpoint.
pub fn not_found_response() -> (response: Response)
    ensures
        response@ == (ResponseView {
            status: 404,
            headers: Seq::<(Seq<char>, Seq<char>)>::empty(),
            body: "Not Found"@,
        }),
{
    Response { status: 404, headers: no_headers(), body: "Not Found".to_string() }
}

/// An answer, and the command that the request gives rise to.
#[derive(Debug, Clone, PartialEq, Eq)]
pub struct Reply {
    pub response: Response,
    pub command: Option<UserEvent>,
}

/// What a [`Reply`] stands for in contracts.
pub struct ReplyView {
    pub response: ResponseView,
    pub command: Option<UserEventView>,
}

impl View for Reply {
    type V = ReplyView;

    open spec fn view(&self) -> ReplyView {
        ReplyView { response: self.response@, command: self.command.deep_view() }
    }
}

/// The text that a decoded parameter stands for: nothing where it did not
/// decode.
pub open spec fn decoded_text(decoded: Option<Seq<char>>) -> Seq<char> {
    match decoded {
        Some(text) => text,
        None => Seq::empty(),
    }
}

/// The reply of the navigation endpoint, by what decoding the parameter
/// gave; `None` stands for a request without the parameter.
pub open spec fn navigation_reply(decoded: Option<Option<Seq<char>>>) -> ReplyView {
    match decoded {
        Some(text) => ReplyView {
            response: ResponseView {
                status: 200,
                headers: seq![json_type()],
                body: "{\"status\":\"navigating\"}"@,
            },
            command: Some(UserEventView::Navigate(decoded_text(text))),
        },
        None => ReplyView {
            response: ResponseView {
                status: 400,
                headers: Seq::empty(),
                body: "{\"error\":\"missing url parameter\"}"@,
            },
            command: None,
        },
    }
}

/// What decoding the parameter of a navigation request gives.
pub open spec fn decoded_target(target: Option<Seq<char>>) -> Option<Option<Seq<char>>> {
    match target {
        Some(raw) => Some(percent_decoded(raw)),
        None => None,
    }
}

/// The reply of the navigation endpoint, by what decoding the parameter
/// gave. With a parameter the answer is "navigating" and the command is to
/// go to the decoded text, or to the empty text where the parameter did not
/// decode; a request without the parameter is answered with an error and
/// gives no command.
pub fn reply_to_navigation(decoded: Option<Option<String>>) -> (reply: Reply)
    ensures
        reply@ == navigation_reply(decoded.deep_view()),
{
    match decoded {
        Some(text) => {
            let target = match text {
                Some(found) => found,
                None => String::new(),
            };
            let mut headers = no_headers();
            push_header(&mut headers, "Content-Type", "application/json");
            proof {
                assert(headers_view(headers@) =~= seq![json_type()]);
            }
            Reply {
                response: Response {
                    status: 200,
                    headers,
                    body: "{\"status\":\"navigating\"}".to_string(),
                },
                command: Some(UserEvent::Navigate(target)),
            }
        },
        None => Reply {
            response: Response {
                status: 400,
                headers: no_headers(),
                body: "{\"error\":\"missing url parameter\"}".to_string(),
            },
            command: None,
        },
    }
}

/// The reply of the navigation endpoint to a request whose parameter, if
/// it has one, is `target`, still percent-encoded.
pub fn navigate_reply(target: Option<String>) -> (reply: Reply)
    ensures
        reply@ == navigation_reply(decoded_target(target.deep_view())),
{
    match target {
        Some(raw) => reply_to_navigation(Some(percent_decode(raw.as_str()))),
        None => reply_to_navigation(None),
    }
}

} // verus!
