use vstd::prelude::*;
use vstd::string::*;

use crate::response::{Failure, FailureKind, FailureView};

verus! {

/// Image encodings a screenshot can be captured in.
#[derive(Clone, Copy, Debug, PartialEq, Eq, Structural)]
pub enum ImageFormat {
    Jpeg,
    Png,
    Webp,
}

/// The format that a `format` query value names, if it names one.
pub open spec fn format_named(name: Seq<char>) -> Option<ImageFormat> {
    if name == "jpeg"@ {
        Some(ImageFormat::Jpeg)
    } else if name == "png"@ {
        Some(ImageFormat::Png)
    } else if name == "webp"@ {
        Some(ImageFormat::Webp)
    } else {
        None
    }
}

impl ImageFormat {
    /// Reads a `format` query value: exactly `jpeg`, `png` or `webp`.
    pub fn parse(name: &str) -> (r: Option<ImageFormat>)
        ensures
            r == format_named(name@),
    {
        let given = name.to_owned();
        if given == "jpeg".to_owned() {
            Some(ImageFormat::Jpeg)
        } else if given == "png".to_owned() {
            Some(ImageFormat::Png)
        } else if given == "webp".to_owned() {
            Some(ImageFormat::Webp)
        } else {
            None
        }
    }
}

/// Address at which a tab is created, before the session navigates it.
pub const BLANK_PAGE: &'static str = "about:blank";

/// What a tab is created with in image mode: the viewport and the
/// background flag, each left to the backend where absent.
#[derive(Clone, Copy, Debug, PartialEq, Eq, Structural)]
pub struct TabOptions {
    pub width: Option<u32>,
    pub height: Option<u32>,
    pub background: Option<bool>,
}

/// Print layout handed to the print-to-document operation.
#[derive(Clone, Copy, Debug, PartialEq, Eq, Structural)]
pub struct PdfOptions {
    pub prefer_css_page_size: Option<bool>,
}

/// Capture settings handed to the screenshot operation.
#[derive(Clone, Copy, Debug, PartialEq, Eq, Structural)]
pub struct ScreenshotOptions {
    pub format: ImageFormat,
    pub from_surface: bool,
}

/// Point of a request's life at which the backend pauses it for inspection.
#[derive(Clone, Copy, Debug, PartialEq, Eq, Structural)]
pub enum InterceptStage {
    Request,
    Response,
}

/// The parameters of an image request.
#[derive(Debug, PartialEq, Eq)]
pub struct ImgParams {
    pub url: String,
    pub width: Option<u32>,
    pub height: Option<u32>,
    pub format: ImageFormat,
    pub background: Option<bool>,
}

/// Mathematical model of the parameters of an image request.
pub struct ImgParamsView {
    pub url: Seq<char>,
    pub width: Option<u32>,
    pub height: Option<u32>,
    pub format: ImageFormat,
    pub background: Option<bool>,
}

impl View for ImgParams {
    type V = ImgParamsView;

    open spec fn view(&self) -> ImgParamsView {
        ImgParamsView {
            url: self.url@,
            width: self.width,
            height: self.height,
            format: self.format,
            background: self.background,
        }
    }
}

/// The failure that a missing `url` parameter is answered with.
pub open spec fn missing_url() -> FailureView {
    FailureView { kind: FailureKind::Validation, message: "url是必须的:"@ }
}

/// The failure that a missing `format` parameter is answered with.
pub open spec fn missing_format() -> FailureView {
    FailureView { kind: FailureKind::Validation, message: "format是必须的:"@ }
}

/// The failure that a `format` value naming no format is answered with.
pub open spec fn unknown_format(name: Seq<char>) -> FailureView {
    FailureView { kind: FailureKind::Validation, message: "format无效:"@ + name }
}

/// What the decoded query of an image request amounts to: its parameters,
/// or the first thing wrong with it, the address before the format.
pub open spec fn validated(
    url: Option<Seq<char>>,
    width: Option<u32>,
    height: Option<u32>,
    format: Option<Seq<char>>,
    background: Option<bool>,
) -> Result<ImgParamsView, FailureView> {
    match (url, format) {
        (None, _) => Err(missing_url()),
        (Some(_), None) => Err(missing_format()),
        (Some(url), Some(name)) => match format_named(name) {
            None => Err(unknown_format(name)),
            Some(format) => Ok(ImgParamsView { url, width, height, format, background }),
        },
    }
}

/// The model of an optional text.
pub open spec fn text_view(text: Option<String>) -> Option<Seq<char>> {
    match text {
        Some(t) => Some(t@),
        None => None,
    }
}

/// The failure for a request without a `url` parameter.
pub fn url_required() -> (f: Failure)
    ensures
        f@ == missing_url(),
{
    let f = Failure::new(FailureKind::Validation, "url是必须的:", "");
    proof {
        reveal_strlit("");
        assert(f@.message =~= "url是必须的:"@);
    }
    f
}

impl ImgParams {
    /// Checks the decoded query of an image request: the address and the
    /// format are required, and the format must name one.
    pub fn validate(
        url: Option<String>,
        width: Option<u32>,
        height: Option<u32>,
        format: Option<String>,
        background: Option<bool>,
    ) -> (r: Result<ImgParams, Failure>)
        ensures
            match validated(text_view(url), width, height, text_view(format), background) {
                Ok(params) => r matches Ok(p) && p@ == params,
                Err(failure) => r matches Err(f) && f@ == failure,
            },
    {
        let url = match url {
            Some(url) => url,
            None => {
                return Err(url_required());
            },
        };
        let name = match format {
            Some(name) => name,
            None => {
                let f = Failure::new(FailureKind::Validation, "format是必须的:", "");
                proof {
                    reveal_strlit("");
                    assert(f@.message =~= "format是必须的:"@);
                }
                return Err(f);
            },
        };
        match ImageFormat::parse(name.as_str()) {
            Some(format) => Ok(ImgParams { url, width, height, format, background }),
            None => Err(Failure::new(FailureKind::Validation, "format无效:", name.as_str())),
        }
    }
}

} // verus!
