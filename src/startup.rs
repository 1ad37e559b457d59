//! The startup sequence as a state machine.
//!
//! The caller performs each step that the machine hands out and reports how it
//! went. The machine keeps the whole sequence of steps it handed out, and its
//! invariant ties that sequence to the one fixed plan of the configuration:
//! set the browser arguments (on one platform only), register the HTTP
//! capability, register the logging capability (debug builds only), enter the
//! run loop, exit. Any failure ends the sequence with an abort.
use vstd::prelude::*;
use crate::arguments::{Platform, browser_arguments, opt_view, spec_browser_arguments};

verus! {

/// Whether the shell was built with debug assertions.
#[derive(Clone, Copy, Debug, PartialEq, Eq, Structural)]
pub enum BuildMode {
    Debug,
    Release,
}

/// What the startup logic reads of its environment, resolved once at start.
#[derive(Clone, Copy, Debug, PartialEq, Eq, Structural)]
pub struct StartupConfig {
    pub platform: Platform,
    pub build_mode: BuildMode,
}

/// The least severity that a logger captures.
#[derive(Clone, Copy, Debug, PartialEq, Eq, Structural)]
pub enum LogLevel {
    Off,
    Error,
    Warn,
    Info,
    Debug,
    Trace,
}

/// One step that the caller is to perform.
#[derive(Debug)]
pub enum Step {
    /// Write this value into the browser-arguments variable.
    SetBrowserArguments(String),
    /// Register the HTTP capability with the runtime builder.
    RegisterHttp,
    /// In the setup hook, register the logging capability at this level.
    RegisterLog(LogLevel),
    /// Let the runtime enter its run loop.
    EnterRunLoop,
    /// The application has closed: exit with success.
    Exit,
    /// A step failed: terminate with this diagnostic and a failure status.
    Abort(String),
}

/// The mathematical value of a `Step`.
pub enum StepView {
    SetBrowserArguments(Seq<char>),
    RegisterHttp,
    RegisterLog(LogLevel),
    EnterRunLoop,
    Exit,
    Abort(Seq<char>),
}

impl View for Step {
    type V = StepView;

    open spec fn view(&self) -> StepView {
        match self {
            Step::SetBrowserArguments(s) => StepView::SetBrowserArguments(s@),
            Step::RegisterHttp => StepView::RegisterHttp,
            Step::RegisterLog(l) => StepView::RegisterLog(*l),
            Step::EnterRunLoop => StepView::EnterRunLoop,
            Step::Exit => StepView::Exit,
            Step::Abort(s) => StepView::Abort(s@),
        }
    }
}

/// Where the machine stands: named after the last step it handed out.
#[derive(Clone, Copy, Debug, PartialEq, Eq, Structural)]
pub enum Phase {
    Environment,
    Http,
    Setup,
    Running,
    Finished,
    Aborted,
}

/// The phase that follows a step.
pub open spec fn phase_after(s: StepView) -> Phase {
    match s {
        StepView::SetBrowserArguments(_) => Phase::Environment,
        StepView::RegisterHttp => Phase::Http,
        StepView::RegisterLog(_) => Phase::Setup,
        StepView::EnterRunLoop => Phase::Running,
        StepView::Exit => Phase::Finished,
        StepView::Abort(_) => Phase::Aborted,
    }
}

/// The full sequence of steps when nothing fails.
pub open spec fn plan(config: StartupConfig, arguments: Seq<char>) -> Seq<StepView> {
    (if config.platform == Platform::Windows {
        seq![StepView::SetBrowserArguments(arguments)]
    } else {
        Seq::empty()
    }) + seq![StepView::RegisterHttp] + (if config.build_mode == BuildMode::Debug {
        seq![StepView::RegisterLog(LogLevel::Info)]
    } else {
        Seq::empty()
    }) + seq![StepView::EnterRunLoop, StepView::Exit]
}

/// The first step of the sequence.
pub open spec fn first_step(config: StartupConfig, prior: Option<Seq<char>>) -> StepView {
    plan(config, spec_browser_arguments(prior))[0]
}

/// The state of the startup sequence.
pub struct Startup {
    config: StartupConfig,
    phase: Phase,
    arguments: Ghost<Seq<char>>,
    history: Ghost<Seq<StepView>>,
}

impl Startup {
    /// The configuration the sequence was started with.
    pub closed spec fn config(&self) -> StartupConfig {
        self.config
    }

    /// The browser arguments computed at the start.
    pub closed spec fn arguments(&self) -> Seq<char> {
        self.arguments@
    }

    /// Every step handed out so far, in order; the last is the one pending.
    pub closed spec fn history(&self) -> Seq<StepView> {
        self.history@
    }

    /// The sequence has ended: nothing remains to be done.
    pub open spec fn done(&self) -> bool {
        self.history().last() is Exit || self.history().last() is Abort
    }

    /// The history is the plan's first steps, possibly followed by an abort.
    pub closed spec fn wf(&self) -> bool {
        let h = self.history@;
        let p = plan(self.config, self.arguments@);
        if h.len() > 0 && h.last() is Abort {
            &&& 2 <= h.len() <= p.len()
            &&& h.drop_last() == p.take(h.len() - 1)
            &&& self.phase == Phase::Aborted
        } else {
            &&& 1 <= h.len() <= p.len()
            &&& h == p.take(h.len() as int)
            &&& self.phase == phase_after(h.last())
        }
    }

    proof fn lemma_plan_shape(config: StartupConfig, a: Seq<char>)
        ensures
            ({
                let p = plan(config, a);
                let w = config.platform == Platform::Windows;
                let d = config.build_mode == BuildMode::Debug;
                &&& w && d ==> p =~= seq![
                    StepView::SetBrowserArguments(a),
                    StepView::RegisterHttp,
                    StepView::RegisterLog(LogLevel::Info),
                    StepView::EnterRunLoop,
                    StepView::Exit,
                ]
                &&& w && !d ==> p =~= seq![
                    StepView::SetBrowserArguments(a),
                    StepView::RegisterHttp,
                    StepView::EnterRunLoop,
                    StepView::Exit,
                ]
                &&& !w && d ==> p =~= seq![
                    StepView::RegisterHttp,
                    StepView::RegisterLog(LogLevel::Info),
                    StepView::EnterRunLoop,
                    StepView::Exit,
                ]
                &&& !w && !d ==> p =~= seq![
                    StepView::RegisterHttp,
                    StepView::EnterRunLoop,
                    StepView::Exit,
                ]
            }),
    {
    }

    /// Starts the sequence. `prior` is the browser-arguments variable's value at
    /// process start (`None` where it was not set); it is read only on the
    /// platform that uses the variable.
    pub fn begin(config: StartupConfig, prior: Option<&str>) -> (r: (Startup, Step))
        ensures
            r.0.wf(),
            r.0.config() == config,
            r.0.arguments() == spec_browser_arguments(opt_view(prior)),
            r.0.history() == seq![r.1@],
            r.1@ == first_step(config, opt_view(prior)),
            !r.0.done(),
    {
        let ghost a = spec_browser_arguments(opt_view(prior));
        proof {
            Self::lemma_plan_shape(config, a);
        }
        let (phase, step) = match config.platform {
            Platform::Windows => (Phase::Environment, Step::SetBrowserArguments(browser_arguments(prior))),
            Platform::Other => (Phase::Http, Step::RegisterHttp),
        };
        let ghost h = seq![step@];
        let s = Startup { config, phase, arguments: Ghost(a), history: Ghost(h) };
        assert(s.history@ =~= plan(config, a).take(1));
        (s, step)
    }

    /// Whether the sequence has ended.
    pub fn is_done(&self) -> (r: bool)
        requires
            self.wf(),
        ensures
            r == self.done(),
    {
        match self.phase {
            Phase::Finished | Phase::Aborted => true,
            _ => false,
        }
    }

    /// Reports how the pending step went, and returns the next one: the next
    /// step of the plan after a success, an abort with the reported error after
    /// a failure.
    pub fn advance(&mut self, outcome: Result<(), String>) -> (r: Step)
        requires
            old(self).wf(),
            !old(self).done(),
        ensures
            final(self).wf(),
            final(self).config() == old(self).config(),
            final(self).arguments() == old(self).arguments(),
            final(self).history() == old(self).history().push(r@),
            outcome is Ok ==> r@ == plan(old(self).config(), old(self).arguments())[old(
                self,
            ).history().len() as int],
            outcome is Err ==> r@ == StepView::Abort(outcome->Err_0@),
    {
        let ghost h = self.history@;
        let ghost p = plan(self.config, self.arguments@);
        proof {
            Self::lemma_plan_shape(self.config, self.arguments@);
        }
        let (phase, step) = match outcome {
            Err(e) => (Phase::Aborted, Step::Abort(e)),
            Ok(()) => match self.phase {
                Phase::Environment => (Phase::Http, Step::RegisterHttp),
                Phase::Http => match self.config.build_mode {
                    BuildMode::Debug => (Phase::Setup, Step::RegisterLog(LogLevel::Info)),
                    BuildMode::Release => (Phase::Running, Step::EnterRunLoop),
                },
                Phase::Setup => (Phase::Running, Step::EnterRunLoop),
                _ => (Phase::Finished, Step::Exit),
            },
        };
        self.phase = phase;
        self.history = Ghost(h.push(step@));
        proof {
            if outcome is Ok {
                assert(h.len() < p.len());
                assert(self.history@ =~= p.take(h.len() + 1 as int));
            } else {
                assert(self.history@.drop_last() =~= h);
            }
        }
        step
    }

    /// Each step handed out so far is the plan's step at that place, but for
    /// a final abort.
    proof fn lemma_history_in_plan(&self)
        requires
            self.wf(),
        ensures
            self.history().len() <= plan(self.config(), self.arguments()).len(),
            forall|k: int|
                0 <= k < self.history().len() ==> #[trigger] self.history()[k] == plan(
                    self.config(),
                    self.arguments(),
                )[k] || (k == self.history().len() - 1 && self.history()[k] is Abort),
    {
        let h = self.history@;
        let p = plan(self.config, self.arguments@);
        if h.last() is Abort {
            assert forall|k: int| 0 <= k < h.len() - 1 implies h[k] == p[k] by {
                assert(h[k] == h.drop_last()[k]);
            }
        }
    }

    /// The browser-arguments variable is left alone on every platform whose
    /// engine does not read it: no step that writes it is ever handed out.
    pub proof fn lemma_other_platform_keeps_variable(s: Startup)
        requires
            s.wf(),
            s.config().platform != Platform::Windows,
        ensures
            forall|k: int|
                0 <= k < s.history().len() ==> !(#[trigger] s.history()[k] is SetBrowserArguments),
    {
        s.lemma_history_in_plan();
        Self::lemma_plan_shape(s.config(), s.arguments());
    }

    /// The logging capability is registered at most once, at the informational
    /// level. In a debug build it has been registered before the run loop is
    /// entered; in a release build it is never registered.
    pub proof fn lemma_logging_registered_once(s: Startup)
        requires
            s.wf(),
        ensures
            forall|j: int, k: int|
                0 <= j < s.history().len() && 0 <= k < s.history().len()
                    && #[trigger] s.history()[j] is RegisterLog && #[trigger] s.history()[k] is RegisterLog
                    ==> j == k,
            forall|j: int|
                0 <= j < s.history().len() && #[trigger] s.history()[j] is RegisterLog
                    ==> s.history()[j] == StepView::RegisterLog(LogLevel::Info),
            s.config().build_mode == BuildMode::Release ==> forall|j: int|
                0 <= j < s.history().len() ==> !(#[trigger] s.history()[j] is RegisterLog),
            s.config().build_mode == BuildMode::Debug ==> forall|i: int|
                0 <= i < s.history().len() && #[trigger] s.history()[i] is EnterRunLoop
                    ==> exists|j: int| 0 <= j < i && #[trigger] s.history()[j] is RegisterLog,
    {
        s.lemma_history_in_plan();
        Self::lemma_plan_shape(s.config(), s.arguments());
        let h = s.history();
        if s.config().build_mode == BuildMode::Debug {
            let j: int = if s.config().platform == Platform::Windows { 2 } else { 1 };
            assert forall|i: int|
                0 <= i < h.len() && #[trigger] h[i] is EnterRunLoop
                implies exists|j: int| 0 <= j < i && #[trigger] h[j] is RegisterLog by {
                assert(h[j] is RegisterLog);
            }
        }
    }

    /// The HTTP capability is registered at most once, in debug and in release
    /// builds alike, and it has been registered before the run loop is entered.
    pub proof fn lemma_http_registered_once(s: Startup)
        requires
            s.wf(),
        ensures
            forall|j: int, k: int|
                0 <= j < s.history().len() && 0 <= k < s.history().len()
                    && #[trigger] s.history()[j] is RegisterHttp && #[trigger] s.history()[k] is RegisterHttp
                    ==> j == k,
            forall|i: int|
                0 <= i < s.history().len() && #[trigger] s.history()[i] is EnterRunLoop
                    ==> exists|j: int| 0 <= j < i && #[trigger] s.history()[j] is RegisterHttp,
    {
        s.lemma_history_in_plan();
        Self::lemma_plan_shape(s.config(), s.arguments());
        let h = s.history();
        let j: int = if s.config().platform == Platform::Windows { 1 } else { 0 };
        assert forall|i: int|
            0 <= i < h.len() && #[trigger] h[i] is EnterRunLoop
            implies exists|j: int| 0 <= j < i && #[trigger] h[j] is RegisterHttp by {
            assert(h[j] is RegisterHttp);
        }
    }

    /// When the setup hook reports that registering the logging capability
    /// failed, the sequence ends there, and the run loop has not been entered
    /// (nor can it be: a finished sequence takes no further step).
    pub proof fn lemma_setup_failure_skips_run_loop(s: Startup, j: int)
        requires
            s.wf(),
            0 <= j,
            j + 1 < s.history().len(),
            s.history()[j] is RegisterLog,
            s.history()[j + 1] is Abort,
        ensures
            s.done(),
            forall|k: int|
                0 <= k < s.history().len() ==> !(#[trigger] s.history()[k] is EnterRunLoop),
    {
        s.lemma_history_in_plan();
        Self::lemma_plan_shape(s.config(), s.arguments());
    }
}

} // verus!
