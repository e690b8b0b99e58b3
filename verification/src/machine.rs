//! The order of the bootstrap: which step follows which outcome.
//!
//! The host does the work of each step and reports its outcome as an
//! [`Event`]. [`BootState::step`] answers with the state that follows and
//! with the [`Action`] that the host has to take next. The steps are taken in
//! one fixed order, each at most once, and the first failure ends the
//! bootstrap.

use crate::chain::{ChainDescriptor, ChainDescriptorView};
use crate::config::{
    build_configuration, configured, NodeSettings, NodeSettingsView, Role, RuntimeConfiguration,
    RuntimeConfigurationView,
};
use crate::diagnostics::Install;
use crate::error::{
    BootError, BootErrorView, InitError, InitErrorView, ServiceError, ServiceErrorView, SpecError,
    SpecErrorView,
};
use crate::outcome::result_view;
use crate::report::{report_lines, startup_report};
use vstd::prelude::*;
use vstd::string::*;
use vstd::utf8::encode_utf8;

verus! {

/// How far a bootstrap has come.
#[derive(Debug, PartialEq, Eq)]
pub enum BootState {
    /// Nothing is in place yet. The diagnostics are being initialised.
    Init { chain_spec: String },
    /// The diagnostics are in place. The chain specification is being parsed.
    DiagnosticsReady,
    /// The chain specification is parsed. The configuration is being built.
    SpecLoaded { chain: ChainDescriptor },
    /// The configuration is built. The service is being constructed.
    ConfigBuilt { config: RuntimeConfiguration },
    /// The service runs and its handle is the caller's. Nothing follows.
    ServiceRunning,
    /// A step has failed. Nothing follows.
    Failed { error: BootError },
}

pub enum BootStateView {
    Init { chain_spec: Seq<char> },
    DiagnosticsReady,
    SpecLoaded { chain: ChainDescriptorView },
    ConfigBuilt { config: RuntimeConfigurationView },
    ServiceRunning,
    Failed { error: BootErrorView },
}

impl View for BootState {
    type V = BootStateView;

    open spec fn view(&self) -> BootStateView {
        match self {
            BootState::Init { chain_spec } => BootStateView::Init { chain_spec: chain_spec@ },
            BootState::DiagnosticsReady => BootStateView::DiagnosticsReady,
            BootState::SpecLoaded { chain } => BootStateView::SpecLoaded { chain: chain@ },
            BootState::ConfigBuilt { config } => BootStateView::ConfigBuilt { config: config@ },
            BootState::ServiceRunning => BootStateView::ServiceRunning,
            BootState::Failed { error } => BootStateView::Failed { error: error@ },
        }
    }
}

/// The outcome of a step, as the host reports it.
#[derive(Debug, PartialEq, Eq)]
pub enum Event {
    /// What has come of the request to initialise the diagnostics, once the
    /// host has installed what the answer asked for.
    DiagnosticsInitialized(Result<Install, InitError>),
    /// The chain that the specification describes, or what the parser said
    /// of an input that it refused.
    ChainSpecParsed(Result<ChainDescriptor, String>),
    /// The settings that the configuration builder arrived at, or why it
    /// gave up.
    ConfigurationBuilt(Result<NodeSettings, String>),
    /// The service is up, or what its construction reported.
    ServiceStarted(Result<(), String>),
}

pub enum EventView {
    DiagnosticsInitialized(Result<Install, InitErrorView>),
    ChainSpecParsed(Result<ChainDescriptorView, Seq<char>>),
    ConfigurationBuilt(Result<NodeSettingsView, Seq<char>>),
    ServiceStarted(Result<(), Seq<char>>),
}

impl View for Event {
    type V = EventView;

    open spec fn view(&self) -> EventView {
        match self {
            Event::DiagnosticsInitialized(outcome) => EventView::DiagnosticsInitialized(
                match outcome {
                    Ok(install) => Ok(*install),
                    Err(error) => Err(error@),
                },
            ),
            Event::ChainSpecParsed(outcome) => EventView::ChainSpecParsed(result_view(*outcome)),
            Event::ConfigurationBuilt(outcome) => EventView::ConfigurationBuilt(
                result_view(*outcome),
            ),
            Event::ServiceStarted(outcome) => EventView::ServiceStarted(result_view(*outcome)),
        }
    }
}

impl EventView {
    /// The step that the event reports on went well.
    pub open spec fn is_success(self) -> bool {
        match self {
            EventView::DiagnosticsInitialized(outcome) => outcome is Ok,
            EventView::ChainSpecParsed(outcome) => outcome is Ok,
            EventView::ConfigurationBuilt(outcome) => outcome is Ok,
            EventView::ServiceStarted(outcome) => outcome is Ok,
        }
    }
}

/// What the host has to do next.
#[derive(Debug, PartialEq, Eq)]
pub enum Action {
    /// See that the crash handler is installed. Then request the
    /// diagnostics at the level that this text names with
    /// [`initialize_diagnostics`](crate::diagnostics::initialize_diagnostics),
    /// install the logger if the answer asks for one, settle the request
    /// with [`confirm_install`](crate::diagnostics::confirm_install), and
    /// report what has come of it.
    InitializeDiagnostics { level: String },
    /// Parse these bytes as a chain specification and report the outcome.
    LoadChainSpec { bytes: Vec<u8> },
    /// Build the configuration for the chain that was parsed and report the
    /// outcome.
    BuildConfiguration,
    /// Construct the service from the configuration that was built and
    /// report the outcome.
    StartService,
    /// Log these lines at the informational level, wrap the service into its
    /// handle and give the handle to the caller.
    Complete { report: Vec<String> },
    /// Give this message to the caller as the error; there is no handle.
    Fail { message: String },
    /// Nothing: the event was not the outcome of the step that is under way.
    Ignore,
}

pub enum ActionView {
    InitializeDiagnostics { level: Seq<char> },
    LoadChainSpec { bytes: Seq<u8> },
    BuildConfiguration,
    StartService,
    Complete { report: Seq<Seq<char>> },
    Fail { message: Seq<char> },
    Ignore,
}

impl View for Action {
    type V = ActionView;

    open spec fn view(&self) -> ActionView {
        match self {
            Action::InitializeDiagnostics { level } => ActionView::InitializeDiagnostics {
                level: level@,
            },
            Action::LoadChainSpec { bytes } => ActionView::LoadChainSpec { bytes: bytes@ },
            Action::BuildConfiguration => ActionView::BuildConfiguration,
            Action::StartService => ActionView::StartService,
            Action::Complete { report } => ActionView::Complete { report: report.deep_view() },
            Action::Fail { message } => ActionView::Fail { message: message@ },
            Action::Ignore => ActionView::Ignore,
        }
    }
}

/// The end of a bootstrap at its first failure: the error is kept, and the
/// caller gets its message.
pub open spec fn failed(error: BootErrorView) -> (BootStateView, ActionView) {
    (BootStateView::Failed { error }, ActionView::Fail { message: error.message() })
}

/// The state that follows a state on an event, and the action that the host
/// has to take then.
///
/// Each state that is not final waits for the outcome of one step. On its
/// success the bootstrap moves on to the next step, on its failure it ends.
/// Any other event changes nothing and asks for nothing.
pub open spec fn transition(state: BootStateView, event: EventView) -> (BootStateView, ActionView) {
    match (state, event) {
        (BootStateView::Init { chain_spec }, EventView::DiagnosticsInitialized(Ok(_))) => (
            BootStateView::DiagnosticsReady,
            ActionView::LoadChainSpec { bytes: encode_utf8(chain_spec) },
        ),
        (BootStateView::Init { .. }, EventView::DiagnosticsInitialized(Err(error))) => failed(
            BootErrorView::Init(error),
        ),
        (BootStateView::DiagnosticsReady, EventView::ChainSpecParsed(Ok(chain))) => (
            BootStateView::SpecLoaded { chain },
            ActionView::BuildConfiguration,
        ),
        (BootStateView::DiagnosticsReady, EventView::ChainSpecParsed(Err(diagnostic))) => failed(
            BootErrorView::Spec(SpecErrorView { diagnostic }),
        ),
        (BootStateView::SpecLoaded { chain }, EventView::ConfigurationBuilt(built)) => match configured(
            chain,
            built,
        ) {
            Ok(config) => (BootStateView::ConfigBuilt { config }, ActionView::StartService),
            Err(error) => failed(BootErrorView::Config(error)),
        },
        (BootStateView::ConfigBuilt { config }, EventView::ServiceStarted(Ok(_))) => (
            BootStateView::ServiceRunning,
            ActionView::Complete { report: report_lines(config) },
        ),
        (BootStateView::ConfigBuilt { .. }, EventView::ServiceStarted(Err(cause))) => failed(
            BootErrorView::Service(ServiceErrorView { cause }),
        ),
        _ => (state, ActionView::Ignore),
    }
}

impl BootStateView {
    /// A configuration that a bootstrap holds is one of a light client.
    pub open spec fn well_formed(self) -> bool {
        self matches BootStateView::ConfigBuilt { config } ==> config.role == Role::Light
    }

    /// Nothing follows this state.
    pub open spec fn is_final(self) -> bool {
        self is ServiceRunning || self is Failed
    }
}

/// Ends a bootstrap with the error of the step that failed.
fn fail(error: BootError) -> (next: (BootState, Action))
    ensures
        (next.0@, next.1@) == failed(error@),
{
    let message = error.message();
    (BootState::Failed { error }, Action::Fail { message })
}

impl BootState {
    /// Begins a bootstrap from the caller's two texts: the chain
    /// specification and the name of the log level.
    pub fn begin(chain_spec: String, log_level: String) -> (first: (BootState, Action))
        ensures
            first.0@ == (BootStateView::Init { chain_spec: chain_spec@ }),
            first.1@ == (ActionView::InitializeDiagnostics { level: log_level@ }),
    {
        (BootState::Init { chain_spec }, Action::InitializeDiagnostics { level: log_level })
    }

    /// Takes the outcome of a step and says what follows.
    pub fn step(self, event: Event) -> (next: (BootState, Action))
        ensures
            (next.0@, next.1@) == transition(self@, event@),
            next.0@.well_formed(),
    {
        match self {
            BootState::Init { chain_spec } => match event {
                Event::DiagnosticsInitialized(Ok(_)) => {
                    let bytes = chain_spec.as_str().as_bytes_vec();
                    (BootState::DiagnosticsReady, Action::LoadChainSpec { bytes })
                },
                Event::DiagnosticsInitialized(Err(error)) => fail(BootError::Init(error)),
                _ => (BootState::Init { chain_spec }, Action::Ignore),
            },
            BootState::DiagnosticsReady => match event {
                Event::ChainSpecParsed(Ok(chain)) => (
                    BootState::SpecLoaded { chain },
                    Action::BuildConfiguration,
                ),
                Event::ChainSpecParsed(Err(diagnostic)) => fail(
                    BootError::Spec(SpecError { diagnostic }),
                ),
                _ => (BootState::DiagnosticsReady, Action::Ignore),
            },
            BootState::SpecLoaded { chain } => match event {
                Event::ConfigurationBuilt(built) => match build_configuration(chain, built) {
                    Ok(config) => (BootState::ConfigBuilt { config }, Action::StartService),
                    Err(error) => fail(BootError::Config(error)),
                },
                _ => (BootState::SpecLoaded { chain }, Action::Ignore),
            },
            BootState::ConfigBuilt { config } => {
                proof {
                    use_type_invariant(&config);
                }
                match event {
                    Event::ServiceStarted(Ok(_)) => {
                        let report = startup_report(&config);
                        (BootState::ServiceRunning, Action::Complete { report })
                    },
                    Event::ServiceStarted(Err(cause)) => fail(
                        BootError::Service(ServiceError { cause }),
                    ),
                    _ => (BootState::ConfigBuilt { config }, Action::Ignore),
                }
            },
            BootState::ServiceRunning => (BootState::ServiceRunning, Action::Ignore),
            BootState::Failed { error } => (BootState::Failed { error }, Action::Ignore),
        }
    }
}

/// The number of steps that lie behind a state. A failed bootstrap has none
/// to its credit.
pub open spec fn stage(state: BootStateView) -> nat {
    match state {
        BootStateView::Init { .. } => 0,
        BootStateView::DiagnosticsReady => 1,
        BootStateView::SpecLoaded { .. } => 2,
        BootStateView::ConfigBuilt { .. } => 3,
        BootStateView::ServiceRunning => 4,
        BootStateView::Failed { .. } => 0,
    }
}

/// The state that a bootstrap is in after a series of events.
pub open spec fn run(state: BootStateView, events: Seq<EventView>) -> BootStateView
    decreases events.len(),
{
    if events.len() == 0 {
        state
    } else {
        run(transition(state, events.first()).0, events.drop_first())
    }
}

/// A bootstrap that has ended stays as it is: whatever is reported to it
/// afterwards changes nothing and asks for nothing.
pub proof fn law_final_states_absorb(state: BootStateView, event: EventView)
    requires
        state.is_final(),
    ensures
        transition(state, event) == (state, ActionView::Ignore),
{
}

/// No series of events leads out of a state in which the bootstrap has
/// ended. In particular a failure is never followed by a later step.
pub proof fn law_the_end_is_final(state: BootStateView, events: Seq<EventView>)
    requires
        state.is_final(),
    ensures
        run(state, events) == state,
    decreases events.len(),
{
    if events.len() > 0 {
        law_the_end_is_final(state, events.drop_first());
    }
}

/// Where a step fails, the bootstrap ends with the error of that very step,
/// and the caller is given the message of that error.
pub proof fn law_first_failure_ends_the_bootstrap(state: BootStateView, event: EventView)
    requires
        !(state is Failed),
        transition(state, event).0 is Failed,
    ensures
        ({
            let error = transition(state, event).0->error;
            &&& transition(state, event).1 == (ActionView::Fail { message: error.message() })
            &&& state is Init <==> error is Init
            &&& state is DiagnosticsReady <==> error is Spec
            &&& state is SpecLoaded <==> error is Config
            &&& state is ConfigBuilt <==> error is Service
        }),
{
}

/// An event leaves the bootstrap where it is, ends it, or takes it one step
/// further: never more than one, and never back.
pub proof fn law_one_step_at_a_time(state: BootStateView, event: EventView)
    ensures
        ({
            let next = transition(state, event).0;
            ||| next == state
            ||| next is Failed
            ||| stage(next) == stage(state) + 1
        }),
{
}

/// A bootstrap cannot be further than the number of events that were
/// reported to it: no step is skipped. A service that runs has four outcomes
/// behind it.
pub proof fn law_no_step_is_skipped(state: BootStateView, events: Seq<EventView>)
    ensures
        !(run(state, events) is Failed) ==> stage(run(state, events)) <= stage(state)
            + events.len(),
    decreases events.len(),
{
    if events.len() > 0 {
        let next = transition(state, events.first()).0;
        law_one_step_at_a_time(state, events.first());
        if next is Failed {
            law_the_end_is_final(next, events.drop_first());
        } else {
            law_no_step_is_skipped(next, events.drop_first());
        }
    }
}

/// What a bootstrap asks for in the course of a series of events: one action
/// for each event, in their order.
pub open spec fn requests(state: BootStateView, events: Seq<EventView>) -> Seq<ActionView>
    decreases events.len(),
{
    if events.len() == 0 {
        Seq::empty()
    } else {
        seq![transition(state, events.first()).1] + requests(
            transition(state, events.first()).0,
            events.drop_first(),
        )
    }
}

impl ActionView {
    /// The place of an action in the order of a bootstrap. The two actions
    /// that end a bootstrap share the last place; to ignore an event has
    /// none.
    pub open spec fn turn(self) -> nat {
        match self {
            ActionView::Ignore => 0,
            ActionView::InitializeDiagnostics { .. } => 1,
            ActionView::LoadChainSpec { .. } => 2,
            ActionView::BuildConfiguration => 3,
            ActionView::StartService => 4,
            ActionView::Complete { .. } => 5,
            ActionView::Fail { .. } => 5,
        }
    }
}

/// What a bootstrap asks for after some events lies ahead of where it
/// stands, and a bootstrap that has ended asks for nothing.
proof fn lemma_requests_lie_ahead(state: BootStateView, events: Seq<EventView>, at: int)
    requires
        0 <= at < events.len(),
    ensures
        requests(state, events).len() == events.len(),
        requests(state, events)[at] !is Ignore ==> !state.is_final() && requests(
            state,
            events,
        )[at].turn() >= stage(state) + 2,
    decreases events.len(),
{
    let next = transition(state, events.first()).0;
    lemma_requests_len(next, events.drop_first());
    if at > 0 {
        lemma_requests_lie_ahead(next, events.drop_first(), at - 1);
        law_one_step_at_a_time(state, events.first());
    }
}

/// A bootstrap asks for one action on each event.
proof fn lemma_requests_len(state: BootStateView, events: Seq<EventView>)
    ensures
        requests(state, events).len() == events.len(),
    decreases events.len(),
{
    if events.len() > 0 {
        lemma_requests_len(transition(state, events.first()).0, events.drop_first());
    }
}

/// The steps keep their order, and none is taken twice: of two actions that
/// a bootstrap asks for, the later one has the later place. Since the two
/// actions that end a bootstrap share one place, a bootstrap ends once, with
/// a handle or with a message.
pub proof fn law_steps_keep_their_order(
    state: BootStateView,
    events: Seq<EventView>,
    earlier: int,
    later: int,
)
    requires
        0 <= earlier < later < events.len(),
    ensures
        requests(state, events).len() == events.len(),
        requests(state, events)[earlier] !is Ignore && requests(state, events)[later] !is Ignore
            ==> requests(state, events)[earlier].turn() < requests(state, events)[later].turn(),
    decreases events.len(),
{
    let next = transition(state, events.first()).0;
    lemma_requests_len(next, events.drop_first());
    if earlier > 0 {
        law_steps_keep_their_order(next, events.drop_first(), earlier - 1, later - 1);
    } else {
        lemma_requests_lie_ahead(next, events.drop_first(), later - 1);
    }
}

/// Each step is asked for by the success of the step before it, and by
/// nothing else. So no chain specification is parsed unless the diagnostics
/// were initialised, and no handle is given out unless the service was
/// constructed.
pub proof fn law_each_step_follows_the_one_before(state: BootStateView, event: EventView)
    ensures
        ({
            let action = transition(state, event).1;
            &&& action !is InitializeDiagnostics
            &&& action is LoadChainSpec <==> state is Init && event is DiagnosticsInitialized
                && event.is_success()
            &&& action is BuildConfiguration <==> state is DiagnosticsReady && event
                is ChainSpecParsed && event.is_success()
            &&& action is StartService <==> state is SpecLoaded && event is ConfigurationBuilt
                && event.is_success() && event->ConfigurationBuilt_0->Ok_0.role == Role::Light
            &&& action is Complete <==> state is ConfigBuilt && event is ServiceStarted
                && event.is_success()
        }),
{
}

/// A chain specification that the parser refused gives no chain: the
/// bootstrap that waited for it ends with a [`SpecErrorView`] that carries
/// what the parser said, and no other bootstrap takes a chain from it.
pub proof fn law_refused_specification_gives_no_chain(
    state: BootStateView,
    diagnostic: Seq<char>,
)
    ensures
        ({
            let refused = EventView::ChainSpecParsed(Err(diagnostic));
            &&& state is DiagnosticsReady ==> transition(state, refused) == failed(
                BootErrorView::Spec(SpecErrorView { diagnostic }),
            )
            &&& !(state is SpecLoaded) ==> !(transition(state, refused).0 is SpecLoaded)
        }),
{
}

/// A configuration that a bootstrap comes to hold is one of a light client.
pub proof fn law_configurations_are_light(state: BootStateView, event: EventView)
    requires
        state.well_formed(),
    ensures
        transition(state, event).0.well_formed(),
{
}

/// Whatever is reported to a bootstrap from its beginning on, it never holds
/// a configuration of another role than light client.
pub proof fn law_bootstraps_stay_well_formed(state: BootStateView, events: Seq<EventView>)
    requires
        state.well_formed(),
    ensures
        run(state, events).well_formed(),
    decreases events.len(),
{
    if events.len() > 0 {
        law_configurations_are_light(state, events.first());
        law_bootstraps_stay_well_formed(transition(state, events.first()).0, events.drop_first());
    }
}

} // verus!
