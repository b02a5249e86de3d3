use vstd::prelude::*;

use crate::counter::{ActivityCounter, Countdown};
use crate::params::{
    missing_url, text_view, url_required, ImgParams, ImgParamsView, PdfOptions, ScreenshotOptions,
    TabOptions,
};
use crate::response::Failure;
use crate::session::{RenderMode, RenderSession, SessionView};

verus! {

/// The mode of every document request: the page's own size is preferred.
pub open spec fn pdf_mode() -> RenderMode {
    RenderMode::Pdf(PdfOptions { prefer_css_page_size: Some(true) })
}

/// The mode of an image request: the tab is created with the requested
/// viewport and background, and the capture is taken from the surface in
/// the requested format.
pub open spec fn img_mode(params: ImgParamsView) -> RenderMode {
    RenderMode::Image {
        tab: TabOptions {
            width: params.width,
            height: params.height,
            background: params.background,
        },
        shot: ScreenshotOptions { format: params.format, from_surface: true },
    }
}

/// The counter after a handler has taken a request while holding its lock:
/// reset where the request was accepted, as it was where it was refused.
pub open spec fn after_request(counter: Countdown, accepted: bool) -> Countdown {
    if accepted {
        counter.touched()
    } else {
        counter
    }
}

/// Every accepted request leaves the counter at its reset constant, whatever
/// the counter held before and whatever becomes of the render: the session
/// that the handler returns has no access to the counter.
pub proof fn lemma_accepted_request_resets(counter: Countdown)
    ensures
        after_request(counter, true).remaining == counter.reset,
        after_request(counter, true).reset == counter.reset,
        after_request(counter, true).wf(),
        after_request(counter, false) == counter,
{
}

/// Starts a document request. `url` is the `url` query parameter, `counter`
/// the activity counter where its lock could be taken.
///
/// A request without `url` is refused and leaves the counter alone. Any
/// other request is accepted: the counter, where there is one, is reset, and
/// the session that is returned has asked nothing of the backend yet.
pub fn pdf(
    url: Option<String>,
    counter: Option<&mut ActivityCounter>,
) -> (r: Result<RenderSession, Failure>)
    ensures
        match text_view(url) {
            Some(address) => r matches Ok(s) && s@ == SessionView::fresh(pdf_mode(), address),
            None => r matches Err(f) && f@ == missing_url(),
        },
        counter matches Some(c) ==> final(c)@ == after_request(c@, url is Some),
{
    let url = match url {
        Some(url) => url,
        None => {
            return Err(url_required());
        },
    };
    match counter {
        Some(c) => {
            c.touch();
        },
        None => {},
    }
    Ok(RenderSession::new(RenderMode::Pdf(PdfOptions { prefer_css_page_size: Some(true) }), url))
}

/// Starts an image request with parameters that have been validated.
/// `counter` is the activity counter where its lock could be taken.
///
/// The counter, where there is one, is reset, and the session that is
/// returned has asked nothing of the backend yet.
pub fn img(params: ImgParams, counter: Option<&mut ActivityCounter>) -> (s: RenderSession)
    ensures
        s@ == SessionView::fresh(img_mode(params@), params@.url),
        counter matches Some(c) ==> final(c)@ == after_request(c@, true),
{
    match counter {
        Some(c) => {
            c.touch();
        },
        None => {},
    }
    let mode = RenderMode::Image {
        tab: TabOptions {
            width: params.width,
            height: params.height,
            background: params.background,
        },
        shot: ScreenshotOptions { format: params.format, from_surface: true },
    };
    RenderSession::new(mode, params.url)
}

} // verus!
