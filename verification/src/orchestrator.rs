//! The three flows of the tool, as one machine that is told what happened
//! and answers what to do next.
//!
//! A run starts from the arguments of the process: a link to forward, a
//! request to uninstall, or neither, which opens the interactive setup. From
//! then on the program performs each action that the machine asks for and
//! reports the result as an event, until the machine closes the run.

use vstd::prelude::*;
use crate::config_store::{load, loaded, StoredFile, StoredFileView};
use crate::discovery::{
    candidate,
    candidate_url,
    discover,
    discovered,
    named_in,
    ProbeOutcome,
    ProbeOutcomeView,
};
use crate::error::{ConfigError, DiscoveryFailed, LinkError, RegistrationError};
use crate::forwarder::{
    delivery,
    endpoint,
    forward,
    request,
    request_for,
    submit_endpoint,
    ForwardRequest,
    ForwardRequestView,
    TransportOutcome,
};
use crate::settings::{Settings, SettingsView};
use crate::text::{
    contains,
    has_prefix,
    is_blank,
    law_trimmed,
    occurs,
    starts_with,
    trim,
    trimmed,
};

verus! {

/// The argument that asks for removal.
pub const UNINSTALL_FLAG: &'static str = "--uninstall";

/// What follows the scheme at the start of a link.
pub const SCHEME_SEPARATOR: &'static str = "://";

/// The menu entry that configures anew.
pub const RECONFIGURE_ENTRY: &'static str = "1";

/// The menu entry that uninstalls.
pub const UNINSTALL_ENTRY: &'static str = "2";

/// Parts of a path that tell a download or temporary folder.
pub const DOWNLOADS_FOLDER: &'static str = "Downloads";

pub const TEMPORARY_FOLDER: &'static str = "Temp";

/// How the process was invoked.
#[derive(Clone, Debug, PartialEq, Eq)]
pub enum InvocationMode {
    /// With a link of the scheme as first argument.
    Link(String),
    /// With the request to uninstall.
    Uninstall,
    /// With neither: the interactive setup.
    Setup,
}

/// The mathematical content of an `InvocationMode`.
pub enum InvocationModeView {
    Link(Seq<char>),
    Uninstall,
    Setup,
}

impl View for InvocationMode {
    type V = InvocationModeView;

    open spec fn view(&self) -> InvocationModeView {
        match self {
            InvocationMode::Link(url) => InvocationModeView::Link(url@),
            InvocationMode::Uninstall => InvocationModeView::Uninstall,
            InvocationMode::Setup => InvocationModeView::Setup,
        }
    }
}

/// What the user chose in the menu of a configured tool.
#[derive(Clone, Copy, Debug, PartialEq, Eq, Structural)]
pub enum MenuChoice {
    Reconfigure,
    Uninstall,
    Leave,
}

/// How a run ended.
#[derive(Clone, Copy, Debug, PartialEq, Eq)]
pub enum Outcome {
    /// The link reached the proxy.
    Forwarded,
    /// The link did not reach the proxy.
    LinkFailed(LinkError),
    /// Both steps of the removal were attempted, with these results.
    Uninstalled { handler: Result<(), RegistrationError>, config: Result<(), ConfigError> },
    /// The user left the menu without a change.
    Left,
    /// The console could not be read.
    InputFailed,
    /// Neither the user nor discovery gave an address.
    EmptyUrl,
    /// The address could not be stored.
    SaveFailed(ConfigError),
    /// The address was stored; the registration ended as given.
    Configured { registration: Result<(), RegistrationError> },
}

/// Where a run stands: what the machine is waiting for.
#[derive(Debug, PartialEq, Eq)]
pub enum State {
    /// Link flow: the stored address is being read.
    LoadingForLink { url: String },
    /// Link flow: the request is under way.
    Forwarding,
    /// Uninstall flow: the handler is being removed.
    RemovingHandler,
    /// Uninstall flow: the stored address is being erased.
    RemovingConfig { handler: Result<(), RegistrationError> },
    /// Setup flow: the stored address is being read.
    LoadingForSetup,
    /// Setup flow: the user is choosing from the menu.
    Choosing,
    /// Setup flow: the probe is under way.
    Discovering,
    /// Setup flow: the user is entering an address; `suggestion` is the
    /// discovered one, or empty.
    EnteringUrl { suggestion: String },
    /// Setup flow: the address is being stored.
    Saving,
    /// Setup flow: the handler is being installed.
    Installing,
    /// The run is over.
    Closed,
}

/// The mathematical content of a `State`.
pub enum StateView {
    LoadingForLink { url: Seq<char> },
    Forwarding,
    RemovingHandler,
    RemovingConfig { handler: Result<(), RegistrationError> },
    LoadingForSetup,
    Choosing,
    Discovering,
    EnteringUrl { suggestion: Seq<char> },
    Saving,
    Installing,
    Closed,
}

impl View for State {
    type V = StateView;

    open spec fn view(&self) -> StateView {
        match self {
            State::LoadingForLink { url } => StateView::LoadingForLink { url: url@ },
            State::Forwarding => StateView::Forwarding,
            State::RemovingHandler => StateView::RemovingHandler,
            State::RemovingConfig { handler } => StateView::RemovingConfig { handler: *handler },
            State::LoadingForSetup => StateView::LoadingForSetup,
            State::Choosing => StateView::Choosing,
            State::Discovering => StateView::Discovering,
            State::EnteringUrl { suggestion } => StateView::EnteringUrl {
                suggestion: suggestion@,
            },
            State::Saving => StateView::Saving,
            State::Installing => StateView::Installing,
            State::Closed => StateView::Closed,
        }
    }
}

/// What the program reports to the machine.
#[derive(Debug, PartialEq, Eq)]
pub enum Event {
    /// The stored file was looked at.
    ConfigRead(StoredFile),
    /// The request to the proxy ended.
    Forwarded(TransportOutcome),
    /// The removal of the handler ended.
    HandlerRemoved(Result<(), RegistrationError>),
    /// The erasure of the stored address ended.
    ConfigRemoved(Result<(), ConfigError>),
    /// The user entered a line.
    Line(String),
    /// The console could not be read.
    InputFailed,
    /// The probe ended.
    Probed(ProbeOutcome),
    /// The storing of the address ended.
    Saved(Result<(), ConfigError>),
    /// The installation of the handler ended.
    Installed(Result<(), RegistrationError>),
}

/// The mathematical content of an `Event`.
pub enum EventView {
    ConfigRead(StoredFileView),
    Forwarded(TransportOutcome),
    HandlerRemoved(Result<(), RegistrationError>),
    ConfigRemoved(Result<(), ConfigError>),
    Line(Seq<char>),
    InputFailed,
    Probed(ProbeOutcomeView),
    Saved(Result<(), ConfigError>),
    Installed(Result<(), RegistrationError>),
}

impl View for Event {
    type V = EventView;

    open spec fn view(&self) -> EventView {
        match self {
            Event::ConfigRead(found) => EventView::ConfigRead(found@),
            Event::Forwarded(outcome) => EventView::Forwarded(*outcome),
            Event::HandlerRemoved(result) => EventView::HandlerRemoved(*result),
            Event::ConfigRemoved(result) => EventView::ConfigRemoved(*result),
            Event::Line(line) => EventView::Line(line@),
            Event::InputFailed => EventView::InputFailed,
            Event::Probed(outcome) => EventView::Probed(outcome@),
            Event::Saved(result) => EventView::Saved(*result),
            Event::Installed(result) => EventView::Installed(*result),
        }
    }
}

/// What the machine asks the program to do.
#[derive(Clone, Debug, PartialEq, Eq)]
pub enum Action {
    /// Look at the stored file and report `ConfigRead`.
    LoadConfig,
    /// Greet the user, warn where the executable runs from a download or
    /// temporary folder, then look at the stored file and report `ConfigRead`.
    OpenSetup { temporary_location: bool },
    /// Send the request and report `Forwarded`.
    Forward(ForwardRequest),
    /// Remove the handler and report `HandlerRemoved`.
    RemoveHandler,
    /// Erase the stored address and report `ConfigRemoved`.
    RemoveConfig,
    /// Show the stored address and the menu, read a line and report it.
    Choose { current: String },
    /// Send the probe and report `Probed`.
    Discover,
    /// Ask for the address of the proxy, offering `suggestion` where it is
    /// not empty, read a line and report it.
    EnterUrl { suggestion: String },
    /// Store the address and report `Saved`.
    Save { url: String },
    /// Install the handler and report `Installed`.
    Install,
    /// Tell the user how the run ended, wait for the Enter key where `wait`
    /// holds, and end the process.
    Close { outcome: Outcome, wait: bool },
}

/// The mathematical content of an `Action`.
pub enum ActionView {
    LoadConfig,
    OpenSetup { temporary_location: bool },
    Forward(ForwardRequestView),
    RemoveHandler,
    RemoveConfig,
    Choose { current: Seq<char> },
    Discover,
    EnterUrl { suggestion: Seq<char> },
    Save { url: Seq<char> },
    Install,
    Close { outcome: Outcome, wait: bool },
}

impl View for Action {
    type V = ActionView;

    open spec fn view(&self) -> ActionView {
        match self {
            Action::LoadConfig => ActionView::LoadConfig,
            Action::OpenSetup { temporary_location } => ActionView::OpenSetup {
                temporary_location: *temporary_location,
            },
            Action::Forward(request) => ActionView::Forward(request@),
            Action::RemoveHandler => ActionView::RemoveHandler,
            Action::RemoveConfig => ActionView::RemoveConfig,
            Action::Choose { current } => ActionView::Choose { current: current@ },
            Action::Discover => ActionView::Discover,
            Action::EnterUrl { suggestion } => ActionView::EnterUrl { suggestion: suggestion@ },
            Action::Save { url } => ActionView::Save { url: url@ },
            Action::Install => ActionView::Install,
            Action::Close { outcome, wait } => ActionView::Close { outcome: *outcome, wait: *wait },
        }
    }
}

/// One move of the machine: the state it enters and the action it asks for.
#[derive(Debug, PartialEq, Eq)]
pub struct Transition {
    pub next: State,
    pub action: Action,
}

/// The mathematical content of a `Transition`.
pub struct TransitionView {
    pub next: StateView,
    pub action: ActionView,
}

impl View for Transition {
    type V = TransitionView;

    open spec fn view(&self) -> TransitionView {
        TransitionView { next: self.next@, action: self.action@ }
    }
}

/// The mode that the arguments of the process ask for. The first argument is
/// the name of the program; the second decides.
pub open spec fn mode_of(arguments: Seq<Seq<char>>, settings: SettingsView) -> InvocationModeView {
    if arguments.len() > 1 && has_prefix(arguments[1], settings.scheme + SCHEME_SEPARATOR@) {
        InvocationModeView::Link(arguments[1])
    } else if arguments.len() > 1 && arguments[1] == UNINSTALL_FLAG@ {
        InvocationModeView::Uninstall
    } else {
        InvocationModeView::Setup
    }
}

/// Whether the path of the executable tells a download or temporary folder.
pub open spec fn temporary_location(exe: Option<Seq<char>>) -> bool {
    match exe {
        Some(path) => occurs(path, DOWNLOADS_FOLDER@) || occurs(path, TEMPORARY_FOLDER@),
        None => false,
    }
}

/// What a line entered at the menu chooses.
pub open spec fn choice_of(line: Seq<char>) -> MenuChoice {
    if trimmed(line) == RECONFIGURE_ENTRY@ {
        MenuChoice::Reconfigure
    } else if trimmed(line) == UNINSTALL_ENTRY@ {
        MenuChoice::Uninstall
    } else {
        MenuChoice::Leave
    }
}

/// The address that the setup settles on: the entered one, or the
/// suggestion where nothing was entered.
pub open spec fn final_url(line: Seq<char>, suggestion: Seq<char>) -> Seq<char> {
    if trimmed(line).len() == 0 && suggestion.len() != 0 {
        suggestion
    } else {
        trimmed(line)
    }
}

/// The address to suggest for what a probe discovered: the candidate URL of
/// the proxy, or nothing.
pub open spec fn suggestion_for(
    found: Result<Seq<char>, DiscoveryFailed>,
    settings: SettingsView,
) -> Seq<char> {
    match found {
        Ok(address) => candidate(address, settings),
        Err(_) => Seq::empty(),
    }
}

/// The address to suggest after a probe.
pub open spec fn suggestion_after(outcome: ProbeOutcomeView, settings: SettingsView) -> Seq<char> {
    suggestion_for(discovered(outcome), settings)
}

/// The move that asks for the address of the proxy and offers `suggestion`.
pub open spec fn asking(suggestion: Seq<char>) -> TransitionView {
    TransitionView {
        next: StateView::EnteringUrl { suggestion },
        action: ActionView::EnterUrl { suggestion },
    }
}

/// The move that a reply causes while the probe is under way, where the
/// reply is well-formed UTF-8: the setup asks for the address and offers
/// what the text of the reply names.
pub open spec fn well_formed_reply_move(
    state: StateView,
    event: EventView,
    settings: SettingsView,
    taken: Option<TransitionView>,
) -> bool {
    event matches EventView::Probed(ProbeOutcomeView::Reply(datagram)) ==> (state is Discovering
        && vstd::utf8::valid_utf8(datagram) ==> taken == Some(
        asking(suggestion_for(named_in(vstd::utf8::decode_utf8(datagram)), settings)),
    ))
}

/// The request that forwards `url`, from what a look at the stored file found.
pub open spec fn link_request(found: StoredFileView, url: Seq<char>) -> Result<
    ForwardRequestView,
    LinkError,
> {
    match loaded(found) {
        Ok(base) => Ok(request_for(submit_endpoint(base), url)),
        Err(error) => Err(LinkError::ConfigurationMissing(error)),
    }
}

/// The status with which the process ends.
pub open spec fn exit_status(outcome: Outcome) -> int {
    match outcome {
        Outcome::LinkFailed(_) => 1,
        _ => 0,
    }
}

/// The move that ends the run.
pub open spec fn closing(outcome: Outcome, wait: bool) -> TransitionView {
    TransitionView { next: StateView::Closed, action: ActionView::Close { outcome, wait } }
}

/// The move that starts the probe.
pub open spec fn probing() -> TransitionView {
    TransitionView { next: StateView::Discovering, action: ActionView::Discover }
}

/// The move that starts the removal.
pub open spec fn removing() -> TransitionView {
    TransitionView { next: StateView::RemovingHandler, action: ActionView::RemoveHandler }
}

/// The first move of a run in the given mode.
pub open spec fn first_move(mode: InvocationModeView, exe: Option<Seq<char>>) -> TransitionView {
    match mode {
        InvocationModeView::Link(url) => TransitionView {
            next: StateView::LoadingForLink { url },
            action: ActionView::LoadConfig,
        },
        InvocationModeView::Uninstall => removing(),
        InvocationModeView::Setup => TransitionView {
            next: StateView::LoadingForSetup,
            action: ActionView::OpenSetup { temporary_location: temporary_location(exe) },
        },
    }
}

/// The moves of the link flow. Without a stored address the run ends at
/// once; with one, the link is sent once and the run ends with the answer.
pub open spec fn link_move(state: StateView, event: EventView) -> Option<TransitionView> {
    match (state, event) {
        (StateView::LoadingForLink { url }, EventView::ConfigRead(found)) => Some(
            match link_request(found, url) {
                Ok(request) => TransitionView {
                    next: StateView::Forwarding,
                    action: ActionView::Forward(request),
                },
                Err(error) => closing(Outcome::LinkFailed(error), false),
            },
        ),
        (StateView::Forwarding, EventView::Forwarded(outcome)) => Some(
            match delivery(outcome) {
                Ok(_) => closing(Outcome::Forwarded, false),
                Err(error) => closing(Outcome::LinkFailed(LinkError::Forward(error)), false),
            },
        ),
        _ => None,
    }
}

/// The moves of the uninstall flow. Both removals are attempted, whatever
/// the first one gave, and the run ends with both results.
pub open spec fn uninstall_move(state: StateView, event: EventView) -> Option<TransitionView> {
    match (state, event) {
        (StateView::RemovingHandler, EventView::HandlerRemoved(handler)) => Some(
            TransitionView {
                next: StateView::RemovingConfig { handler },
                action: ActionView::RemoveConfig,
            },
        ),
        (StateView::RemovingConfig { handler }, EventView::ConfigRemoved(config)) => Some(
            closing(Outcome::Uninstalled { handler, config }, true),
        ),
        _ => None,
    }
}

/// The moves of the interactive setup.
pub open spec fn setup_move(state: StateView, event: EventView, settings: SettingsView) -> Option<
    TransitionView,
> {
    match (state, event) {
        (StateView::LoadingForSetup, EventView::ConfigRead(found)) => Some(
            match loaded(found) {
                Ok(current) => TransitionView {
                    next: StateView::Choosing,
                    action: ActionView::Choose { current },
                },
                Err(_) => probing(),
            },
        ),
        (StateView::Choosing, EventView::Line(line)) => Some(
            match choice_of(line) {
                MenuChoice::Reconfigure => probing(),
                MenuChoice::Uninstall => removing(),
                MenuChoice::Leave => closing(Outcome::Left, false),
            },
        ),
        (StateView::Choosing, EventView::InputFailed) => Some(closing(Outcome::InputFailed, true)),
        (StateView::Discovering, EventView::Probed(outcome)) => Some(
            asking(suggestion_after(outcome, settings)),
        ),
        (StateView::EnteringUrl { suggestion }, EventView::Line(line)) => Some(
            if final_url(line, suggestion).len() == 0 {
                closing(Outcome::EmptyUrl, true)
            } else {
                TransitionView {
                    next: StateView::Saving,
                    action: ActionView::Save { url: final_url(line, suggestion) },
                }
            },
        ),
        (StateView::EnteringUrl { .. }, EventView::InputFailed) => Some(
            closing(Outcome::InputFailed, true),
        ),
        (StateView::Saving, EventView::Saved(result)) => Some(
            match result {
                Ok(_) => TransitionView { next: StateView::Installing, action: ActionView::Install },
                Err(error) => closing(Outcome::SaveFailed(error), true),
            },
        ),
        (StateView::Installing, EventView::Installed(registration)) => Some(
            closing(Outcome::Configured { registration }, true),
        ),
        _ => None,
    }
}

/// The move that `event` causes in `state`, or nothing where the event does
/// not belong to the state.
pub open spec fn next_move(state: StateView, event: EventView, settings: SettingsView) -> Option<
    TransitionView,
> {
    match state {
        StateView::LoadingForLink { .. } | StateView::Forwarding => link_move(state, event),
        StateView::RemovingHandler | StateView::RemovingConfig { .. } => uninstall_move(
            state,
            event,
        ),
        StateView::Closed => None,
        _ => setup_move(state, event, settings),
    }
}

/// The mathematical content of a move that may be missing.
pub open spec fn move_view(transition: Option<Transition>) -> Option<TransitionView> {
    match transition {
        Some(transition) => Some(transition@),
        None => None,
    }
}

/// The mathematical content of a request or of the reason why there is none.
pub open spec fn request_view(request: Result<ForwardRequest, LinkError>) -> Result<
    ForwardRequestView,
    LinkError,
> {
    match request {
        Ok(request) => Ok(request@),
        Err(error) => Err(error),
    }
}

/// The mode that the arguments of the process ask for.
pub fn classify(arguments: &Vec<String>, settings: &Settings) -> (mode: InvocationMode)
    ensures
        mode@ == mode_of(arguments.deep_view(), settings@),
{
    if arguments.len() > 1 {
        let second = &arguments[1];
        let mut prefix = settings.scheme.clone();
        prefix.append(SCHEME_SEPARATOR);
        if starts_with(second.as_str(), prefix.as_str()) {
            InvocationMode::Link(second.clone())
        } else if *second == UNINSTALL_FLAG.to_owned() {
            InvocationMode::Uninstall
        } else {
            InvocationMode::Setup
        }
    } else {
        InvocationMode::Setup
    }
}

/// Whether the path of the executable, where it is known, tells a download
/// or temporary folder.
pub fn runs_from_temporary_location(exe: Option<&str>) -> (yes: bool)
    ensures
        yes == temporary_location(exe.deep_view()),
{
    match exe {
        Some(path) => contains(path, DOWNLOADS_FOLDER) || contains(path, TEMPORARY_FOLDER),
        None => false,
    }
}

/// What a line entered at the menu chooses.
pub fn menu_choice(line: &str) -> (choice: MenuChoice)
    ensures
        choice == choice_of(line@),
{
    let entered = trim(line);
    if entered == RECONFIGURE_ENTRY.to_owned() {
        MenuChoice::Reconfigure
    } else if entered == UNINSTALL_ENTRY.to_owned() {
        MenuChoice::Uninstall
    } else {
        MenuChoice::Leave
    }
}

/// The address that the setup settles on.
pub fn settle_url(line: &str, suggestion: String) -> (url: String)
    ensures
        url@ == final_url(line@, suggestion@),
{
    let entered = trim(line);
    if entered.as_str().is_empty() && !suggestion.as_str().is_empty() {
        suggestion
    } else {
        entered
    }
}

/// The address to suggest after a probe. A reply that is well-formed UTF-8
/// is read as the text that it encodes.
pub fn suggest(outcome: &ProbeOutcome, settings: &Settings) -> (suggestion: String)
    ensures
        suggestion@ == suggestion_after(outcome@, settings@),
        outcome@ matches ProbeOutcomeView::Reply(datagram) ==> (vstd::utf8::valid_utf8(datagram)
            ==> suggestion@ == suggestion_for(
            named_in(vstd::utf8::decode_utf8(datagram)),
            settings@,
        )),
{
    match discover(outcome) {
        Ok(address) => candidate_url(address.as_str(), settings),
        Err(_) => String::new(),
    }
}

/// The request that forwards the link `url` to the proxy, from what a look
/// at the stored file found. Without a stored address there is no request.
pub fn handle_link(found: StoredFile, url: &str) -> (forwarding: Result<ForwardRequest, LinkError>)
    ensures
        request_view(forwarding) == link_request(found@, url@),
{
    match load(found) {
        Ok(base) => {
            let target = endpoint(base.as_str());
            Ok(request(target.as_str(), url))
        },
        Err(error) => Err(LinkError::ConfigurationMissing(error)),
    }
}

/// The status with which the process ends: 1 where a link was not
/// forwarded, 0 in every other case.
pub fn exit_code(outcome: Outcome) -> (code: i32)
    ensures
        code == exit_status(outcome),
{
    match outcome {
        Outcome::LinkFailed(_) => 1,
        _ => 0,
    }
}

/// The move that ends the run.
fn close(outcome: Outcome, wait: bool) -> (transition: Transition)
    ensures
        transition@ == closing(outcome, wait),
{
    Transition { next: State::Closed, action: Action::Close { outcome, wait } }
}

/// The move that starts the probe.
fn probe() -> (transition: Transition)
    ensures
        transition@ == probing(),
{
    Transition { next: State::Discovering, action: Action::Discover }
}

/// The move that starts the removal.
fn remove() -> (transition: Transition)
    ensures
        transition@ == removing(),
{
    Transition { next: State::RemovingHandler, action: Action::RemoveHandler }
}

/// The first move of a run in the given mode.
pub fn begin(mode: InvocationMode, exe: Option<&str>) -> (transition: Transition)
    ensures
        transition@ == first_move(mode@, exe.deep_view()),
{
    match mode {
        InvocationMode::Link(url) => Transition {
            next: State::LoadingForLink { url },
            action: Action::LoadConfig,
        },
        InvocationMode::Uninstall => remove(),
        InvocationMode::Setup => Transition {
            next: State::LoadingForSetup,
            action: Action::OpenSetup { temporary_location: runs_from_temporary_location(exe) },
        },
    }
}

/// The first move of a run of the process with the given arguments.
pub fn start(arguments: &Vec<String>, exe: Option<&str>, settings: &Settings) -> (transition:
    Transition)
    ensures
        transition@ == first_move(mode_of(arguments.deep_view(), settings@), exe.deep_view()),
{
    begin(classify(arguments, settings), exe)
}

/// The move that `event` causes in a state of the link flow.
pub fn link_flow(state: State, event: Event) -> (transition: Option<Transition>)
    ensures
        move_view(transition) == link_move(state@, event@),
{
    match state {
        State::LoadingForLink { url } => match event {
            Event::ConfigRead(found) => match handle_link(found, url.as_str()) {
                Ok(request) => Some(
                    Transition { next: State::Forwarding, action: Action::Forward(request) },
                ),
                Err(error) => Some(close(Outcome::LinkFailed(error), false)),
            },
            _ => None,
        },
        State::Forwarding => match event {
            Event::Forwarded(outcome) => match forward(outcome) {
                Ok(_) => Some(close(Outcome::Forwarded, false)),
                Err(error) => Some(close(Outcome::LinkFailed(LinkError::Forward(error)), false)),
            },
            _ => None,
        },
        _ => None,
    }
}

/// The move that `event` causes in a state of the uninstall flow.
pub fn uninstall_process(state: State, event: Event) -> (transition: Option<Transition>)
    ensures
        move_view(transition) == uninstall_move(state@, event@),
{
    match state {
        State::RemovingHandler => match event {
            Event::HandlerRemoved(handler) => Some(
                Transition { next: State::RemovingConfig { handler }, action: Action::RemoveConfig },
            ),
            _ => None,
        },
        State::RemovingConfig { handler } => match event {
            Event::ConfigRemoved(config) => Some(
                close(Outcome::Uninstalled { handler, config }, true),
            ),
            _ => None,
        },
        _ => None,
    }
}

/// The move that `event` causes in a state of the interactive setup.
pub fn interactive_setup(state: State, event: Event, settings: &Settings) -> (transition: Option<
    Transition,
>)
    ensures
        move_view(transition) == setup_move(state@, event@, settings@),
        well_formed_reply_move(state@, event@, settings@, move_view(transition)),
{
    match state {
        State::LoadingForSetup => match event {
            Event::ConfigRead(found) => match load(found) {
                Ok(current) => Some(
                    Transition { next: State::Choosing, action: Action::Choose { current } },
                ),
                Err(_) => Some(probe()),
            },
            _ => None,
        },
        State::Choosing => match event {
            Event::Line(line) => match menu_choice(line.as_str()) {
                MenuChoice::Reconfigure => Some(probe()),
                MenuChoice::Uninstall => Some(remove()),
                MenuChoice::Leave => Some(close(Outcome::Left, false)),
            },
            Event::InputFailed => Some(close(Outcome::InputFailed, true)),
            _ => None,
        },
        State::Discovering => match event {
            Event::Probed(outcome) => {
                let suggestion = suggest(&outcome, settings);
                let offered = suggestion.clone();
                Some(
                    Transition {
                        next: State::EnteringUrl { suggestion },
                        action: Action::EnterUrl { suggestion: offered },
                    },
                )
            },
            _ => None,
        },
        State::EnteringUrl { suggestion } => match event {
            Event::Line(line) => {
                let url = settle_url(line.as_str(), suggestion);
                if url.as_str().is_empty() {
                    Some(close(Outcome::EmptyUrl, true))
                } else {
                    Some(Transition { next: State::Saving, action: Action::Save { url } })
                }
            },
            Event::InputFailed => Some(close(Outcome::InputFailed, true)),
            _ => None,
        },
        State::Saving => match event {
            Event::Saved(result) => match result {
                Ok(_) => Some(Transition { next: State::Installing, action: Action::Install }),
                Err(error) => Some(close(Outcome::SaveFailed(error), true)),
            },
            _ => None,
        },
        State::Installing => match event {
            Event::Installed(registration) => Some(
                close(Outcome::Configured { registration }, true),
            ),
            _ => None,
        },
        _ => None,
    }
}

/// The move that `event` causes in `state`, or nothing where the event does
/// not belong to the state.
pub fn step(state: State, event: Event, settings: &Settings) -> (transition: Option<Transition>)
    ensures
        move_view(transition) == next_move(state@, event@, settings@),
        well_formed_reply_move(state@, event@, settings@, move_view(transition)),
{
    match state {
        State::LoadingForLink { .. } | State::Forwarding => link_flow(state, event),
        State::RemovingHandler | State::RemovingConfig { .. } => uninstall_process(state, event),
        State::Closed => None,
        _ => interactive_setup(state, event, settings),
    }
}

/// A closed run takes no further move, whatever is reported.
pub proof fn law_closed_is_final(event: EventView, settings: SettingsView)
    ensures
        next_move(StateView::Closed, event, settings) is None,
{
}

/// A link is sent once. Whatever the one attempt gave, the run closes
/// without waiting, and the process ends with status 0 if and only if the
/// proxy answered 200.
pub proof fn law_link_is_sent_once(outcome: TransportOutcome, settings: SettingsView)
    ensures
        ({
            let answered = next_move(
                StateView::Forwarding,
                EventView::Forwarded(outcome),
                settings,
            );
            &&& answered is Some
            &&& answered->0.next == StateView::Closed
            &&& answered->0.action matches ActionView::Close { outcome: ended, wait }
            &&& !wait
            &&& exit_status(ended) == 0 <==> outcome == TransportOutcome::Status(200)
            &&& exit_status(ended) == 0 || exit_status(ended) == 1
        }),
{
}

/// A link that finds no stored address is not sent: the run closes at once,
/// and the process ends with status 1.
pub proof fn law_link_needs_configuration(
    url: Seq<char>,
    found: StoredFileView,
    settings: SettingsView,
)
    requires
        loaded(found) is Err,
    ensures
        next_move(StateView::LoadingForLink { url }, EventView::ConfigRead(found), settings)
            == Some(
            closing(
                Outcome::LinkFailed(LinkError::ConfigurationMissing(loaded(found)->Err_0)),
                false,
            ),
        ),
        exit_status(Outcome::LinkFailed(LinkError::ConfigurationMissing(loaded(found)->Err_0)))
            == 1,
{
}

/// Uninstalling always completes. Whatever the removal of the handler gave,
/// the stored address is erased next; whatever that gave, the run closes
/// with both results, and the process ends with status 0.
pub proof fn law_uninstall_always_completes(
    handler: Result<(), RegistrationError>,
    config: Result<(), ConfigError>,
    settings: SettingsView,
)
    ensures
        next_move(StateView::RemovingHandler, EventView::HandlerRemoved(handler), settings)
            == Some(
            TransitionView {
                next: StateView::RemovingConfig { handler },
                action: ActionView::RemoveConfig,
            },
        ),
        next_move(
            StateView::RemovingConfig { handler },
            EventView::ConfigRemoved(config),
            settings,
        ) == Some(closing(Outcome::Uninstalled { handler, config }, true)),
        exit_status(Outcome::Uninstalled { handler, config }) == 0,
{
}

/// A failure to discover is recovered. Whatever the one probe gave, the
/// setup goes on to ask for the address, and offers the candidate URL
/// exactly where the probe discovered a proxy.
pub proof fn law_discovery_is_recovered(outcome: ProbeOutcomeView, settings: SettingsView)
    ensures
        ({
            let asked = next_move(StateView::Discovering, EventView::Probed(outcome), settings);
            &&& asked is Some
            &&& asked->0.next matches StateView::EnteringUrl { suggestion }
            &&& asked->0.action == (ActionView::EnterUrl { suggestion })
            &&& match discovered(outcome) {
                Ok(address) => suggestion == candidate(address, settings),
                Err(_) => suggestion.len() == 0,
            }
        }),
{
}

/// The setup never stores an empty address. After a line was entered it
/// either closes the run, which it does exactly where neither the line nor
/// the suggestion gives an address, or asks to store the address it
/// settled on.
pub proof fn law_empty_url_is_rejected(
    line: Seq<char>,
    suggestion: Seq<char>,
    settings: SettingsView,
)
    ensures
        ({
            let entered = next_move(
                StateView::EnteringUrl { suggestion },
                EventView::Line(line),
                settings,
            );
            if trimmed(line).len() == 0 && suggestion.len() == 0 {
                entered == Some(closing(Outcome::EmptyUrl, true))
            } else {
                &&& entered == Some(
                    TransitionView {
                        next: StateView::Saving,
                        action: ActionView::Save { url: final_url(line, suggestion) },
                    },
                )
                &&& final_url(line, suggestion).len() > 0
            }
        }),
{
}

/// A blank line accepts the suggestion.
pub proof fn law_blank_line_accepts_suggestion(line: Seq<char>, suggestion: Seq<char>)
    requires
        is_blank(line),
        suggestion.len() > 0,
    ensures
        final_url(line, suggestion) == suggestion,
{
    let (before, after) = law_trimmed(line);
    if trimmed(line).len() > 0 {
        assert(line[before.len() as int] == trimmed(line).first());
    }
}

/// A failed registration does not undo the stored address. Once the address
/// is stored the handler is installed, and whatever that gives, the run
/// closes without another step, and the process ends with status 0.
pub proof fn law_failed_registration_keeps_configuration(
    registration: Result<(), RegistrationError>,
    settings: SettingsView,
)
    ensures
        next_move(StateView::Saving, EventView::Saved(Ok(())), settings) == Some(
            TransitionView { next: StateView::Installing, action: ActionView::Install },
        ),
        next_move(StateView::Installing, EventView::Installed(registration), settings) == Some(
            closing(Outcome::Configured { registration }, true),
        ),
        exit_status(Outcome::Configured { registration }) == 0,
{
}

/// A fresh setup takes the proxy that discovery found. Where no address is
/// stored, the probe discovers a proxy and the user enters a blank line,
/// the setup stores the candidate URL of that proxy and then installs the
/// handler; once both succeeded the run closes, and the process ends with
/// status 0.
pub proof fn law_setup_accepts_discovered_proxy(
    exe: Option<Seq<char>>,
    outcome: ProbeOutcomeView,
    line: Seq<char>,
    settings: SettingsView,
)
    ensures
        discovered(outcome) is Ok && is_blank(line) ==> ({
            let url = candidate(discovered(outcome)->Ok_0, settings);
            let opened = first_move(InvocationModeView::Setup, exe);
            let read = next_move(
                opened.next,
                EventView::ConfigRead(StoredFileView::Absent),
                settings,
            );
            let probed = next_move(read->0.next, EventView::Probed(outcome), settings);
            let entered = next_move(probed->0.next, EventView::Line(line), settings);
            let saved = next_move(entered->0.next, EventView::Saved(Ok(())), settings);
            let installed = next_move(saved->0.next, EventView::Installed(Ok(())), settings);
            &&& opened.action is OpenSetup
            &&& read == Some(probing())
            &&& probed is Some && probed->0.action == (ActionView::EnterUrl { suggestion: url })
            &&& entered is Some && entered->0.action == (ActionView::Save { url })
            &&& saved is Some && saved->0.action == ActionView::Install
            &&& installed == Some(closing(Outcome::Configured { registration: Ok(()) }, true))
            &&& exit_status(Outcome::Configured { registration: Ok(()) }) == 0
        }),
{
    if discovered(outcome) is Ok && is_blank(line) {
        let url = candidate(discovered(outcome)->Ok_0, settings);
        reveal_strlit("http://");
        law_blank_line_accepts_suggestion(line, url);
    }
}

/// The greatest number of moves that a run in `state` can still take.
pub open spec fn moves_left(state: StateView) -> nat {
    match state {
        StateView::Closed => 0,
        StateView::Forwarding => 1,
        StateView::LoadingForLink { .. } => 2,
        StateView::RemovingConfig { .. } => 1,
        StateView::RemovingHandler => 2,
        StateView::Installing => 1,
        StateView::Saving => 2,
        StateView::EnteringUrl { .. } => 3,
        StateView::Discovering => 4,
        StateView::Choosing => 5,
        StateView::LoadingForSetup => 6,
    }
}

/// Every run ends, and nothing is tried twice: each move brings the end
/// nearer, and a move closes the run exactly where it asks to close it.
pub proof fn law_every_move_brings_the_end_nearer(
    state: StateView,
    event: EventView,
    settings: SettingsView,
)
    ensures
        next_move(state, event, settings) matches Some(taken) ==> {
            &&& moves_left(taken.next) < moves_left(state)
            &&& taken.next == StateView::Closed <==> taken.action is Close
        },
{
}

} // verus!
