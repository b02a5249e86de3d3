use vstd::prelude::*;
use vstd::string::*;

use crate::params::{InterceptStage, PdfOptions, ScreenshotOptions, TabOptions};
use crate::response::{
    rendered, Failure, FailureKind, FailureView, Response, ResponseView,
};

verus! {

/// Content type of a printed document.
pub const PDF_CONTENT_TYPE: &'static str = "application/pdf";

/// What a session renders, with the options of that mode.
#[derive(Clone, Copy, Debug, PartialEq, Eq, Structural)]
pub enum RenderMode {
    /// Print the page to a document; the tab is opened with nothing configured.
    Pdf(PdfOptions),
    /// Capture the page as an image; the tab is opened with `tab`.
    Image { tab: TabOptions, shot: ScreenshotOptions },
}

/// Where a session stands: the operation it is waiting on.
#[derive(Clone, Copy, Debug, PartialEq, Eq, Structural)]
pub enum Stage {
    Opening,
    Intercepting,
    Navigating,
    Loading,
    Capturing,
    Closing,
    Finished,
}

/// The operation a session asks its driver to perform next.
#[derive(Debug, PartialEq, Eq)]
pub enum Action {
    /// Open a tab: a default one, or one created with the given options.
    OpenTab(Option<TabOptions>),
    /// Enable request interception at the given stages, without handlers.
    EnableInterception(Vec<InterceptStage>),
    /// Navigate the tab to the address.
    Navigate(String),
    /// Wait until the navigation has completed.
    WaitUntilNavigated,
    /// Print the page to a document.
    PrintToPdf(PdfOptions),
    /// Capture the page as an image.
    CaptureScreenshot(ScreenshotOptions),
    /// Close the tab.
    CloseTab { fire_unload: bool },
    /// Nothing is left to do on the backend: answer the request.
    Respond,
}

/// Mathematical model of an action.
pub enum ActionView {
    OpenTab(Option<TabOptions>),
    EnableInterception(Seq<InterceptStage>),
    Navigate(Seq<char>),
    WaitUntilNavigated,
    PrintToPdf(PdfOptions),
    CaptureScreenshot(ScreenshotOptions),
    CloseTab { fire_unload: bool },
    Respond,
}

impl View for Action {
    type V = ActionView;

    open spec fn view(&self) -> ActionView {
        match self {
            Action::OpenTab(o) => ActionView::OpenTab(*o),
            Action::EnableInterception(s) => ActionView::EnableInterception(s@),
            Action::Navigate(u) => ActionView::Navigate(u@),
            Action::WaitUntilNavigated => ActionView::WaitUntilNavigated,
            Action::PrintToPdf(o) => ActionView::PrintToPdf(*o),
            Action::CaptureScreenshot(o) => ActionView::CaptureScreenshot(*o),
            Action::CloseTab { fire_unload } => ActionView::CloseTab { fire_unload: *fire_unload },
            Action::Respond => ActionView::Respond,
        }
    }
}

/// What the driver reports of an operation: the bytes it produced (the
/// document or image for a capture, ignored for the others), or the cause
/// of its failure.
pub type OutcomeView = Result<Seq<u8>, Seq<char>>;

/// The kind of failure that an operation failing at `stage` amounts to.
pub open spec fn failure_kind(stage: Stage) -> FailureKind {
    match stage {
        Stage::Opening => FailureKind::BackendUnavailable,
        Stage::Capturing => FailureKind::Capture,
        _ => FailureKind::Navigation,
    }
}

/// The text that precedes the cause in the message of a failure at `stage`.
pub open spec fn failure_prefix(mode: RenderMode, stage: Stage) -> Seq<char> {
    match stage {
        Stage::Opening => if mode is Pdf {
            "创建新tab失败，错误信息:"@
        } else {
            "创建新tab失败，错误信息："@
        },
        Stage::Navigating => "打开链接出错："@,
        Stage::Loading => "等待页面加载完成出错"@,
        Stage::Capturing => if mode is Pdf {
            "转pdf报错"@
        } else {
            "截图出现错误："@
        },
        _ => Seq::empty(),
    }
}

/// The content type under which a mode's bytes are delivered.
pub open spec fn content_type(mode: RenderMode) -> Option<Seq<char>> {
    if mode is Pdf {
        Some(PDF_CONTENT_TYPE@)
    } else {
        None
    }
}

/// Mathematical model of a render session.
pub struct SessionView {
    pub mode: RenderMode,
    pub url: Seq<char>,
    pub stage: Stage,
    pub response: Option<ResponseView>,
}

impl SessionView {
    /// A session that has just been accepted: nothing has been asked of the
    /// backend yet.
    pub open spec fn fresh(mode: RenderMode, url: Seq<char>) -> SessionView {
        SessionView { mode, url, stage: Stage::Opening, response: None }
    }

    /// From the moment the tab is to be closed the response is settled, and
    /// only a document session sets up interception.
    pub open spec fn wf(self) -> bool {
        &&& (self.stage is Closing || self.stage is Finished) ==> self.response is Some
        &&& self.stage is Intercepting ==> self.mode is Pdf
    }

    /// Whether the session owns an open tab: from a successful open until
    /// the close has been answered.
    pub open spec fn holds_tab(self) -> bool {
        !(self.stage is Opening) && !(self.stage is Finished)
    }

    /// The operation the session is waiting on.
    pub open spec fn action(self) -> ActionView {
        match self.stage {
            Stage::Opening => ActionView::OpenTab(
                match self.mode {
                    RenderMode::Pdf(_) => None,
                    RenderMode::Image { tab, .. } => Some(tab),
                },
            ),
            Stage::Intercepting => ActionView::EnableInterception(
                seq![InterceptStage::Response, InterceptStage::Request],
            ),
            Stage::Navigating => ActionView::Navigate(self.url),
            Stage::Loading => ActionView::WaitUntilNavigated,
            Stage::Capturing => match self.mode {
                RenderMode::Pdf(options) => ActionView::PrintToPdf(options),
                RenderMode::Image { shot, .. } => ActionView::CaptureScreenshot(shot),
            },
            Stage::Closing => ActionView::CloseTab { fire_unload: true },
            Stage::Finished => ActionView::Respond,
        }
    }

    /// The failure that the current operation failing with `cause` amounts to.
    pub open spec fn failure(self, cause: Seq<char>) -> FailureView {
        FailureView {
            kind: failure_kind(self.stage),
            message: failure_prefix(self.mode, self.stage) + cause,
        }
    }

    /// The session with the tab still to be closed and the response settled.
    pub open spec fn closing(self, response: ResponseView) -> SessionView {
        SessionView { stage: Stage::Closing, response: Some(response), ..self }
    }

    /// The session at another stage, everything else as it was.
    pub open spec fn at(self, stage: Stage) -> SessionView {
        SessionView { stage, ..self }
    }

    /// The session after the driver has reported `outcome` of the operation
    /// it was waiting on.
    pub open spec fn stepped(self, outcome: OutcomeView) -> SessionView {
        match self.stage {
            Stage::Opening => match outcome {
                Ok(_) => self.at(
                    if self.mode is Pdf {
                        Stage::Intercepting
                    } else {
                        Stage::Navigating
                    },
                ),
                Err(cause) => SessionView {
                    stage: Stage::Finished,
                    response: Some(self.failure(cause).response()),
                    ..self
                },
            },
            Stage::Intercepting => self.at(Stage::Navigating),
            Stage::Navigating => match outcome {
                Ok(_) => self.at(Stage::Loading),
                Err(cause) => self.closing(self.failure(cause).response()),
            },
            Stage::Loading => match outcome {
                Ok(_) => self.at(Stage::Capturing),
                Err(cause) => self.closing(self.failure(cause).response()),
            },
            Stage::Capturing => match outcome {
                Ok(bytes) => self.closing(rendered(content_type(self.mode), bytes)),
                Err(cause) => self.closing(self.failure(cause).response()),
            },
            Stage::Closing => self.at(Stage::Finished),
            Stage::Finished => self,
        }
    }

    /// The response of a finished session; none before that.
    pub open spec fn answer(self) -> Option<ResponseView> {
        if self.stage is Finished {
            self.response
        } else {
            None
        }
    }
}

/// The model of what a driver reports.
pub open spec fn outcome_view(outcome: Result<Vec<u8>, String>) -> OutcomeView {
    match outcome {
        Ok(bytes) => Ok(bytes@),
        Err(cause) => Err(cause@),
    }
}

/// One request's unit of work on the backend: open a tab, navigate, wait,
/// capture, close. The session decides; its driver performs each operation
/// and reports how it went.
pub struct RenderSession {
    mode: RenderMode,
    url: String,
    stage: Stage,
    response: Option<Response>,
}

impl View for RenderSession {
    type V = SessionView;

    closed spec fn view(&self) -> SessionView {
        SessionView {
            mode: self.mode,
            url: self.url@,
            stage: self.stage,
            response: match self.response {
                Some(r) => Some(r@),
                None => None,
            },
        }
    }
}

impl RenderSession {
    #[verifier::type_invariant]
    spec fn inv(self) -> bool {
        self@.wf()
    }

    /// A session for `url` that has asked nothing of the backend yet.
    pub fn new(mode: RenderMode, url: String) -> (s: RenderSession)
        ensures
            s@ == SessionView::fresh(mode, url@),
    {
        RenderSession { mode, url, stage: Stage::Opening, response: None }
    }

    /// The stage the session is at.
    pub fn stage(&self) -> (stage: Stage)
        ensures
            stage == self@.stage,
            self@.wf(),
    {
        proof {
            use_type_invariant(self);
        }
        self.stage
    }

    /// The operation to perform next.
    pub fn action(&self) -> (a: Action)
        ensures
            a@ == self@.action(),
    {
        match self.stage {
            Stage::Opening => Action::OpenTab(
                match self.mode {
                    RenderMode::Pdf(_) => None,
                    RenderMode::Image { tab, .. } => Some(tab),
                },
            ),
            Stage::Intercepting => {
                let mut stages: Vec<InterceptStage> = Vec::new();
                stages.push(InterceptStage::Response);
                stages.push(InterceptStage::Request);
                assert(stages@ =~= seq![InterceptStage::Response, InterceptStage::Request]);
                Action::EnableInterception(stages)
            },
            Stage::Navigating => Action::Navigate(self.url.clone()),
            Stage::Loading => Action::WaitUntilNavigated,
            Stage::Capturing => match self.mode {
                RenderMode::Pdf(options) => Action::PrintToPdf(options),
                RenderMode::Image { shot, .. } => Action::CaptureScreenshot(shot),
            },
            Stage::Closing => Action::CloseTab { fire_unload: true },
            Stage::Finished => Action::Respond,
        }
    }

    /// The failure that the current operation failing with `cause` amounts to.
    fn failure(&self, cause: &str) -> (f: Failure)
        ensures
            f@ == self@.failure(cause@),
    {
        let pdf = match self.mode {
            RenderMode::Pdf(_) => true,
            RenderMode::Image { .. } => false,
        };
        match self.stage {
            Stage::Opening => if pdf {
                Failure::new(FailureKind::BackendUnavailable, "创建新tab失败，错误信息:", cause)
            } else {
                Failure::new(FailureKind::BackendUnavailable, "创建新tab失败，错误信息：", cause)
            },
            Stage::Navigating => Failure::new(FailureKind::Navigation, "打开链接出错：", cause),
            Stage::Loading => Failure::new(FailureKind::Navigation, "等待页面加载完成出错", cause),
            Stage::Capturing => if pdf {
                Failure::new(FailureKind::Capture, "转pdf报错", cause)
            } else {
                Failure::new(FailureKind::Capture, "截图出现错误：", cause)
            },
            _ => {
                let f = Failure::new(FailureKind::Navigation, "", cause);
                proof {
                    reveal_strlit("");
                    assert(f@.message =~= Seq::<char>::empty() + cause@);
                }
                f
            },
        }
    }

    /// Takes the driver's report of the operation the session was waiting
    /// on, and returns the operation to perform next.
    pub fn step(&mut self, outcome: Result<Vec<u8>, String>) -> (next: Action)
        ensures
            old(self)@.wf(),
            final(self)@ == old(self)@.stepped(outcome_view(outcome)),
            next@ == final(self)@.action(),
    {
        proof {
            use_type_invariant(&*self);
        }
        match self.stage {
            Stage::Opening => match outcome {
                Ok(_) => {
                    self.stage = match self.mode {
                        RenderMode::Pdf(_) => Stage::Intercepting,
                        RenderMode::Image { .. } => Stage::Navigating,
                    };
                },
                Err(cause) => {
                    let failure = self.failure(cause.as_str());
                    self.response = Some(failure.into_response());
                    self.stage = Stage::Finished;
                },
            },
            Stage::Intercepting => {
                self.stage = Stage::Navigating;
            },
            Stage::Navigating => match outcome {
                Ok(_) => {
                    self.stage = Stage::Loading;
                },
                Err(cause) => {
                    let failure = self.failure(cause.as_str());
                    self.response = Some(failure.into_response());
                    self.stage = Stage::Closing;
                },
            },
            Stage::Loading => match outcome {
                Ok(_) => {
                    self.stage = Stage::Capturing;
                },
                Err(cause) => {
                    let failure = self.failure(cause.as_str());
                    self.response = Some(failure.into_response());
                    self.stage = Stage::Closing;
                },
            },
            Stage::Capturing => match outcome {
                Ok(bytes) => {
                    let label = match self.mode {
                        RenderMode::Pdf(_) => Some(PDF_CONTENT_TYPE),
                        RenderMode::Image { .. } => None,
                    };
                    self.response = Some(Response::rendered(label, bytes));
                    self.stage = Stage::Closing;
                },
                Err(cause) => {
                    let failure = self.failure(cause.as_str());
                    self.response = Some(failure.into_response());
                    self.stage = Stage::Closing;
                },
            },
            Stage::Closing => {
                self.stage = Stage::Finished;
            },
            Stage::Finished => {},
        }
        self.action()
    }

    /// Ends the session: the response of a finished one, none before that.
    pub fn into_response(self) -> (r: Option<Response>)
        ensures
            self@.wf(),
            match r {
                Some(response) => self@.answer() == Some(response@),
                None => self@.answer() is None,
            },
    {
        proof {
            use_type_invariant(&self);
        }
        match self.stage {
            Stage::Finished => self.response,
            _ => None,
        }
    }
}

impl SessionView {
    /// The session after the driver has reported each of `outcomes`, in order.
    pub open spec fn after(self, outcomes: Seq<OutcomeView>) -> SessionView
        decreases outcomes.len(),
    {
        if outcomes.len() == 0 {
            self
        } else {
            self.stepped(outcomes.first()).after(outcomes.drop_first())
        }
    }

    /// How many times the session asks for its tab to be closed while the
    /// driver reports `outcomes`: the operation it is waiting on now counts,
    /// and so does the one after each report.
    pub open spec fn closes_issued(self, outcomes: Seq<OutcomeView>) -> nat
        decreases outcomes.len(),
    {
        let now: nat = if self.action() is CloseTab {
            1
        } else {
            0
        };
        if outcomes.len() == 0 {
            now
        } else {
            now + self.stepped(outcomes.first()).closes_issued(outcomes.drop_first())
        }
    }

    /// How many operations other than the close the session asks of a tab
    /// it has already asked to be closed, while the driver reports
    /// `outcomes`.
    pub open spec fn uses_after_close(self, outcomes: Seq<OutcomeView>) -> nat
        decreases outcomes.len(),
    {
        if outcomes.len() == 0 {
            0
        } else {
            let next = self.stepped(outcomes.first());
            let closed = self.stage is Closing || self.stage is Finished;
            let now: nat = if closed && !(next.action() is Respond) {
                1
            } else {
                0
            };
            now + next.uses_after_close(outcomes.drop_first())
        }
    }

    /// How many reports a session at this stage needs at most to finish.
    pub open spec fn steps_left(self) -> nat {
        match self.stage {
            Stage::Opening => 6,
            Stage::Intercepting => 5,
            Stage::Navigating => 4,
            Stage::Loading => 3,
            Stage::Capturing => 2,
            Stage::Closing => 1,
            Stage::Finished => 0,
        }
    }
}

/// A step keeps a session well formed, never changes what it renders, and
/// brings it strictly nearer to its end until it has finished.
pub proof fn lemma_step_advances(s: SessionView, outcome: OutcomeView)
    requires
        s.wf(),
    ensures
        s.stepped(outcome).wf(),
        s.stepped(outcome).mode == s.mode,
        s.stepped(outcome).url == s.url,
        !(s.stage is Finished) ==> s.stepped(outcome).steps_left() < s.steps_left(),
        s.stage is Finished ==> s.stepped(outcome) == s,
{
}

/// A finished session stays as it is, whatever is reported to it.
pub proof fn lemma_finished_is_final(s: SessionView, outcomes: Seq<OutcomeView>)
    requires
        s.stage is Finished,
    ensures
        s.after(outcomes) == s,
    decreases outcomes.len(),
{
    if outcomes.len() > 0 {
        lemma_finished_is_final(s, outcomes.drop_first());
    }
}

/// Every session finishes: once the driver has reported as many outcomes as
/// the session had steps left, of whatever kind, it has a response, and
/// further reports change nothing.
pub proof fn lemma_session_finishes(s: SessionView, outcomes: Seq<OutcomeView>)
    requires
        s.wf(),
        outcomes.len() >= s.steps_left(),
    ensures
        s.after(outcomes).stage is Finished,
        s.after(outcomes).answer() is Some,
    decreases outcomes.len(),
{
    if outcomes.len() > 0 {
        lemma_step_advances(s, outcomes.first());
        lemma_session_finishes(s.stepped(outcomes.first()), outcomes.drop_first());
    }
}

/// The tab is closed exactly once. Whatever the driver reports, a session
/// never asks for the close twice, and never asks anything else of a tab
/// once its close has been asked for. A session that has finished asked for
/// the close once if it held a tab, and not at all if the open failed.
pub proof fn lemma_tab_closed_exactly_once(s: SessionView, outcomes: Seq<OutcomeView>)
    requires
        s.wf(),
    ensures
        s.closes_issued(outcomes) <= 1,
        s.uses_after_close(outcomes) == 0,
        s.stage is Finished ==> s.closes_issued(outcomes) == 0,
        s.holds_tab() && s.after(outcomes).stage is Finished ==> s.closes_issued(outcomes) == 1,
        s.stage is Opening && s.after(outcomes).stage is Finished ==> {
            &&& outcomes.len() > 0
            &&& outcomes.first() is Ok ==> s.closes_issued(outcomes) == 1
            &&& outcomes.first() is Err ==> s.closes_issued(outcomes) == 0
        },
    decreases outcomes.len(),
{
    if outcomes.len() > 0 {
        lemma_step_advances(s, outcomes.first());
        lemma_tab_closed_exactly_once(s.stepped(outcomes.first()), outcomes.drop_first());
    }
}

/// What a finished session answers with. A session whose open failed
/// reports the backend as unavailable. One that held a tab answers with the
/// captured bytes under its mode's content type if every operation up to
/// the capture succeeded, and otherwise with the failure of the first
/// operation that failed; what the interception setup and the close report
/// never matters.
pub proof fn lemma_answer(mode: RenderMode, url: Seq<char>, outcomes: Seq<OutcomeView>)
    requires
        outcomes.len() >= SessionView::fresh(mode, url).steps_left(),
    ensures
        ({
            let fresh = SessionView::fresh(mode, url);
            let answer = fresh.after(outcomes).answer();
            let skip: int = if mode is Pdf {
                1
            } else {
                0
            };
            let navigated = outcomes[1 + skip];
            let loaded = outcomes[2 + skip];
            let captured = outcomes[3 + skip];
            &&& outcomes[0] matches Err(cause) ==> answer == Some(
                fresh.failure(cause).response(),
            )
            &&& outcomes[0] is Ok ==> {
                &&& navigated matches Err(cause) ==> answer == Some(
                    fresh.at(Stage::Navigating).failure(cause).response(),
                )
                &&& navigated is Ok ==> {
                    &&& loaded matches Err(cause) ==> answer == Some(
                        fresh.at(Stage::Loading).failure(cause).response(),
                    )
                    &&& loaded is Ok ==> {
                        &&& captured matches Err(cause) ==> answer == Some(
                            fresh.at(Stage::Capturing).failure(cause).response(),
                        )
                        &&& captured matches Ok(bytes) ==> answer == Some(
                            rendered(content_type(mode), bytes),
                        )
                    }
                }
            }
        }),
{
    let fresh = SessionView::fresh(mode, url);
    reveal_with_fuel(SessionView::after, 8);
    let o1 = outcomes.drop_first();
    let o2 = o1.drop_first();
    let o3 = o2.drop_first();
    let o4 = o3.drop_first();
    let o5 = o4.drop_first();
    let o6 = o5.drop_first();
    assert(o1.first() == outcomes[1]);
    assert(o2.first() == outcomes[2]);
    assert(o3.first() == outcomes[3]);
    assert(o4.first() == outcomes[4]);
    assert(o5.first() == outcomes[5]);
    let last = fresh.stepped(outcomes[0]).stepped(outcomes[1]).stepped(outcomes[2]).stepped(
        outcomes[3],
    ).stepped(outcomes[4]).stepped(outcomes[5]);
    lemma_finished_is_final(last, o6);
}

} // verus!
