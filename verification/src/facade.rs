//! The five operations as a state machine.
//!
//! A call begins with a [`Request`] and ends with an
//! [`OperationOutcome`]. In between the library asks for one [`Action`] at a
//! time; the driver performs it and reports the matching [`Event`]. The
//! library decides, the driver acts: whatever the driver reports, the
//! decisions follow [`step`], and the guarantees of the operations are proved
//! over every sequence of reports.

use vstd::prelude::*;
use crate::command::{
    format_invocation,
    metadata_invocation,
    CommandResult,
    CommandResultModel,
    DependencyKind,
    DependencyModel,
    DependencySpec,
    Invocation,
    InvocationModel,
    Mutation,
    MutationModel,
    Subcommand,
};
use crate::listing::{listing, read_metadata};
use crate::outcome::{Failure, FailureKind, FailureModel, OperationOutcome, OutcomeModel};
use crate::registry::{
    is_searchable,
    malformed,
    malformed_reply,
    read_response,
    search_results,
    search_url,
    searchable,
    url_for,
};
use crate::text::{optional_text, texts};

verus! {

/// What the host asks for.
#[derive(Clone, Debug, PartialEq, Eq)]
pub enum Request {
    /// Change the manifest, then format the project when `auto_save` is set.
    Mutate { mutation: Mutation, auto_save: bool },
    /// List the dependencies of the project.
    List,
    /// Search the registry.
    Search { query: String },
}

/// Mathematical value of a [`Request`].
pub enum RequestModel {
    Mutate { mutation: MutationModel, auto_save: bool },
    List,
    Search { query: Seq<char> },
}

impl View for Request {
    type V = RequestModel;

    open spec fn view(&self) -> RequestModel {
        match self {
            Request::Mutate { mutation, auto_save } => RequestModel::Mutate {
                mutation: mutation@,
                auto_save: *auto_save,
            },
            Request::List => RequestModel::List,
            Request::Search { query } => RequestModel::Search { query: query@ },
        }
    }
}

/// What the driver is asked to do next.
#[derive(Clone, Debug, PartialEq, Eq)]
pub enum Action {
    /// Find out whether a file exists at `path`, relative to the working
    /// directory.
    CheckManifest { path: String },
    /// Run a process to completion and capture its status and output.
    Run(Invocation),
    /// Issue one HTTP GET and read the whole body.
    Fetch { url: String },
    /// Hand the outcome to the host. The call is over.
    Finish(OperationOutcome),
}

/// Mathematical value of an [`Action`].
pub enum ActionModel {
    CheckManifest { path: Seq<char> },
    Run(InvocationModel),
    Fetch { url: Seq<char> },
    Finish(OutcomeModel),
}

impl View for Action {
    type V = ActionModel;

    open spec fn view(&self) -> ActionModel {
        match self {
            Action::CheckManifest { path } => ActionModel::CheckManifest { path: path@ },
            Action::Run(invocation) => ActionModel::Run(invocation@),
            Action::Fetch { url } => ActionModel::Fetch { url: url@ },
            Action::Finish(outcome) => ActionModel::Finish(outcome@),
        }
    }
}

/// What the driver reports back.
#[derive(Clone, Debug, PartialEq, Eq)]
pub enum Event {
    /// The manifest was looked for.
    ManifestChecked { present: bool },
    /// The process could not be launched.
    SpawnFailed { reason: String },
    /// The process ran and exited.
    Exited(CommandResult),
    /// The request could not be sent, or no response came back.
    RequestFailed { reason: String },
    /// A response came back but its body could not be read.
    BodyFailed { reason: String },
    /// A response came back with this body.
    Responded { body: Vec<u8> },
}

/// Mathematical value of an [`Event`].
pub enum EventModel {
    ManifestChecked { present: bool },
    SpawnFailed { reason: Seq<char> },
    Exited(CommandResultModel),
    RequestFailed { reason: Seq<char> },
    BodyFailed { reason: Seq<char> },
    Responded { body: Seq<u8> },
}

impl View for Event {
    type V = EventModel;

    open spec fn view(&self) -> EventModel {
        match self {
            Event::ManifestChecked { present } => EventModel::ManifestChecked { present: *present },
            Event::SpawnFailed { reason } => EventModel::SpawnFailed { reason: reason@ },
            Event::Exited(result) => EventModel::Exited(result@),
            Event::RequestFailed { reason } => EventModel::RequestFailed { reason: reason@ },
            Event::BodyFailed { reason } => EventModel::BodyFailed { reason: reason@ },
            Event::Responded { body } => EventModel::Responded { body: body@ },
        }
    }
}

/// Where a call stands: what it is waiting for.
#[derive(Clone, Debug, PartialEq, Eq)]
pub enum Call {
    /// Waiting to learn whether the manifest is present.
    Guarding { mutation: Mutation, auto_save: bool },
    /// Waiting for `cargo <subcommand>` to end. `then_format` says whether
    /// a successful change is followed by the formatting pass.
    Running { subcommand: Subcommand, then_format: bool },
    /// Waiting for the registry.
    Searching,
    /// The outcome has been handed out.
    Finished,
}

/// Mathematical value of a [`Call`].
pub enum CallModel {
    Guarding { mutation: MutationModel, auto_save: bool },
    Running { subcommand: Subcommand, then_format: bool },
    Searching,
    Finished,
}

impl View for Call {
    type V = CallModel;

    open spec fn view(&self) -> CallModel {
        match self {
            Call::Guarding { mutation, auto_save } => CallModel::Guarding {
                mutation: mutation@,
                auto_save: *auto_save,
            },
            Call::Running { subcommand, then_format } => CallModel::Running {
                subcommand: *subcommand,
                then_format: *then_format,
            },
            Call::Searching => CallModel::Searching,
            Call::Finished => CallModel::Finished,
        }
    }
}

/// The view of an optional action.
pub open spec fn optional_action(action: Option<Action>) -> Option<ActionModel> {
    match action {
        Some(action) => Some(action@),
        None => None,
    }
}

/// The formatting pass runs after a successful change unless the host says
/// otherwise.
pub open spec fn auto_save_or_default(auto_save: Option<bool>) -> bool {
    match auto_save {
        Some(auto_save) => auto_save,
        None => true,
    }
}

/// The file whose presence marks a project directory.
pub open spec fn manifest_path() -> Seq<char> {
    "Cargo.toml"@
}

/// The failure of a change attempted outside a project directory.
pub open spec fn missing_manifest() -> FailureModel {
    FailureModel {
        kind: FailureKind::Precondition,
        message: "Not in a Rust project directory"@,
    }
}

/// The failure of a search whose request got no response.
pub open spec fn unreachable_registry(reason: Seq<char>) -> FailureModel {
    FailureModel { kind: FailureKind::Network, message: "Failed to search crates.io: "@ + reason }
}

/// The end of a call: the outcome is handed out and nothing is awaited.
pub open spec fn finished(outcome: OutcomeModel) -> (CallModel, Option<ActionModel>) {
    (CallModel::Finished, Some(ActionModel::Finish(outcome)))
}

/// The first decision of a call.
///
/// A change first asks whether the manifest is there. A listing runs the
/// metadata query at once. A search fetches the registry URL, unless the
/// query is too short: then it ends at once with an empty list.
pub open spec fn begin(request: RequestModel) -> (CallModel, ActionModel) {
    match request {
        RequestModel::Mutate { mutation, auto_save } => (
            CallModel::Guarding { mutation, auto_save },
            ActionModel::CheckManifest { path: manifest_path() },
        ),
        RequestModel::List => (
            CallModel::Running { subcommand: Subcommand::Metadata, then_format: false },
            ActionModel::Run(metadata_invocation()),
        ),
        RequestModel::Search { query } => if is_searchable(query) {
            (CallModel::Searching, ActionModel::Fetch { url: search_url(query) })
        } else {
            (CallModel::Finished, ActionModel::Finish(OutcomeModel::Lines(Seq::empty())))
        },
    }
}

/// Whether `event` answers what `call` is waiting for.
pub open spec fn accepts(call: CallModel, event: EventModel) -> bool {
    match call {
        CallModel::Guarding { .. } => event is ManifestChecked,
        CallModel::Running { .. } => event is SpawnFailed || event is Exited,
        CallModel::Searching => event is RequestFailed || event is BodyFailed
            || event is Responded,
        CallModel::Finished => false,
    }
}

/// The decision after `cargo <subcommand>` has run and exited.
///
/// A failure status ends the call with the failure that quotes the process.
/// Otherwise a metadata query ends with the listing read from its output, a
/// formatting pass ends with success, and a change either asks for the
/// formatting pass or ends with success.
pub open spec fn completed(subcommand: Subcommand, then_format: bool, result: CommandResultModel) -> (
    CallModel,
    Option<ActionModel>,
) {
    match subcommand.verdict(result) {
        Some(failure) => finished(OutcomeModel::Failed(failure)),
        None => match subcommand {
            Subcommand::Metadata => finished(listing(result.stdout)),
            Subcommand::Format => finished(OutcomeModel::Done),
            _ => if then_format {
                (
                    CallModel::Running { subcommand: Subcommand::Format, then_format: false },
                    Some(ActionModel::Run(format_invocation())),
                )
            } else {
                finished(OutcomeModel::Done)
            },
        },
    }
}

/// The decision that follows an event: the next state, and the action to
/// perform. An event that does not answer what the call is waiting for
/// changes nothing and asks for nothing.
pub open spec fn step(call: CallModel, event: EventModel) -> (CallModel, Option<ActionModel>) {
    match (call, event) {
        (CallModel::Guarding { mutation, auto_save }, EventModel::ManifestChecked { present }) => {
            if present {
                (
                    CallModel::Running {
                        subcommand: mutation.subcommand(),
                        then_format: auto_save,
                    },
                    Some(ActionModel::Run(mutation.invocation())),
                )
            } else {
                finished(OutcomeModel::Failed(missing_manifest()))
            }
        },
        (CallModel::Running { subcommand, .. }, EventModel::SpawnFailed { reason }) => finished(
            OutcomeModel::Failed(subcommand.spawn_failure(reason)),
        ),
        (CallModel::Running { subcommand, then_format }, EventModel::Exited(result)) => completed(
            subcommand,
            then_format,
            result,
        ),
        (CallModel::Searching, EventModel::RequestFailed { reason }) => finished(
            OutcomeModel::Failed(unreachable_registry(reason)),
        ),
        (CallModel::Searching, EventModel::BodyFailed { reason }) => finished(
            OutcomeModel::Failed(malformed(reason)),
        ),
        (CallModel::Searching, EventModel::Responded { body }) => finished(search_results(body)),
        _ => (call, None),
    }
}

/// The actions that an optional action stands for: itself, or none.
pub open spec fn issued(action: Option<ActionModel>) -> Seq<ActionModel> {
    match action {
        Some(action) => seq![action],
        None => Seq::empty(),
    }
}

/// The actions asked for, in order, while a call in state `call` takes the
/// reports `events` one after another.
pub open spec fn actions_after(call: CallModel, events: Seq<EventModel>) -> Seq<ActionModel>
    decreases events.len(),
{
    if events.len() == 0 {
        Seq::empty()
    } else {
        issued(step(call, events[0]).1) + actions_after(
            step(call, events[0]).0,
            events.drop_first(),
        )
    }
}

/// Every action of a call: the first one, then those that follow the
/// driver's reports. The driver may report anything, in any order and for any
/// length of time; `run` says what the library asks for in each case.
pub open spec fn run(request: RequestModel, events: Seq<EventModel>) -> Seq<ActionModel> {
    seq![begin(request).1] + actions_after(begin(request).0, events)
}

/// Whether a call ended by reporting a successful change.
pub open spec fn changed(actions: Seq<ActionModel>) -> bool {
    actions.len() > 0 && actions.last() == ActionModel::Finish(OutcomeModel::Done)
}

/// The values of a sequence of events, element by element.
pub open spec fn event_models(events: Seq<Event>) -> Seq<EventModel> {
    events.map_values(|event: Event| event@)
}

/// The values of a sequence of actions, element by element.
pub open spec fn action_models(actions: Seq<Action>) -> Seq<ActionModel> {
    actions.map_values(|action: Action| action@)
}

impl Request {
    /// `add`: add a dependency, at the given version if there is one. The
    /// formatting pass follows unless `auto_save` is `Some(false)`.
    pub fn add_dependency(name: String, version: Option<String>, auto_save: Option<bool>) -> (request:
        Request)
        ensures
            request@ == (RequestModel::Mutate {
                mutation: MutationModel::Add(
                    DependencyModel {
                        name: name@,
                        version: optional_text(version),
                        kind: DependencyKind::Normal,
                    },
                ),
                auto_save: auto_save_or_default(auto_save),
            }),
    {
        Request::Mutate {
            mutation: Mutation::Add(DependencySpec { name, version, kind: DependencyKind::Normal }),
            auto_save: flag_or_default(auto_save),
        }
    }

    /// `add_dev`: as `add`, for a development dependency.
    pub fn add_dev_dependency(
        name: String,
        version: Option<String>,
        auto_save: Option<bool>,
    ) -> (request: Request)
        ensures
            request@ == (RequestModel::Mutate {
                mutation: MutationModel::Add(
                    DependencyModel {
                        name: name@,
                        version: optional_text(version),
                        kind: DependencyKind::Dev,
                    },
                ),
                auto_save: auto_save_or_default(auto_save),
            }),
    {
        Request::Mutate {
            mutation: Mutation::Add(DependencySpec { name, version, kind: DependencyKind::Dev }),
            auto_save: flag_or_default(auto_save),
        }
    }

    /// `remove`: remove a dependency. The formatting pass follows unless
    /// `auto_save` is `Some(false)`.
    pub fn remove_dependency(name: String, auto_save: Option<bool>) -> (request: Request)
        ensures
            request@ == (RequestModel::Mutate {
                mutation: MutationModel::Remove { name: name@ },
                auto_save: auto_save_or_default(auto_save),
            }),
    {
        Request::Mutate {
            mutation: Mutation::Remove { name },
            auto_save: flag_or_default(auto_save),
        }
    }

    /// `list`: list the dependencies of the project.
    pub fn list_dependencies() -> (request: Request)
        ensures
            request@ == RequestModel::List,
    {
        Request::List
    }

    /// `search`: search the registry for `query`.
    pub fn search_crates(query: String) -> (request: Request)
        ensures
            request@ == (RequestModel::Search { query: query@ }),
    {
        Request::Search { query }
    }
}

fn flag_or_default(auto_save: Option<bool>) -> (flag: bool)
    ensures
        flag == auto_save_or_default(auto_save),
{
    match auto_save {
        Some(auto_save) => auto_save,
        None => true,
    }
}

fn finish(outcome: OperationOutcome) -> (end: (Call, Option<Action>))
    ensures
        (end.0@, optional_action(end.1)) == finished(outcome@),
{
    (Call::Finished, Some(Action::Finish(outcome)))
}

fn finish_completed(subcommand: Subcommand, then_format: bool, result: &CommandResult) -> (next: (
    Call,
    Option<Action>,
))
    ensures
        (next.0@, optional_action(next.1)) == completed(subcommand, then_format, result@),
{
    match subcommand.check(result) {
        Err(failure) => finish(OperationOutcome::Failed(failure)),
        Ok(_) => match subcommand {
            Subcommand::Metadata => finish(read_metadata(result.stdout.as_slice())),
            Subcommand::Format => finish(OperationOutcome::Done),
            _ => if then_format {
                (
                    Call::Running { subcommand: Subcommand::Format, then_format: false },
                    Some(Action::Run(Invocation::format())),
                )
            } else {
                finish(OperationOutcome::Done)
            },
        },
    }
}

impl Call {
    /// Begins a call: the state to keep and the first action to perform.
    pub fn begin(request: Request) -> (first: (Call, Action))
        ensures
            (first.0@, first.1@) == begin(request@),
    {
        match request {
            Request::Mutate { mutation, auto_save } => (
                Call::Guarding { mutation, auto_save },
                Action::CheckManifest { path: String::from_str("Cargo.toml") },
            ),
            Request::List => (
                Call::Running { subcommand: Subcommand::Metadata, then_format: false },
                Action::Run(Invocation::metadata()),
            ),
            Request::Search { query } => if searchable(query.as_str()) {
                (Call::Searching, Action::Fetch { url: url_for(query.as_str()) })
            } else {
                let lines: Vec<String> = Vec::new();
                assert(texts(lines@) =~= Seq::<Seq<char>>::empty());
                (Call::Finished, Action::Finish(OperationOutcome::Lines(lines)))
            },
        }
    }

    /// Takes the driver's report and decides what comes next: the state to
    /// keep, and the action to perform if the report answered what the call
    /// was waiting for.
    pub fn advance(self, event: &Event) -> (next: (Call, Option<Action>))
        ensures
            (next.0@, optional_action(next.1)) == step(self@, event@),
            next.1 is Some <==> accepts(self@, event@),
    {
        match self {
            Call::Guarding { mutation, auto_save } => match event {
                Event::ManifestChecked { present } => {
                    if *present {
                        let subcommand = mutation.subcommand();
                        (
                            Call::Running { subcommand, then_format: auto_save },
                            Some(Action::Run(mutation.into_invocation())),
                        )
                    } else {
                        finish(
                            OperationOutcome::Failed(
                                Failure {
                                    kind: FailureKind::Precondition,
                                    message: String::from_str("Not in a Rust project directory"),
                                },
                            ),
                        )
                    }
                },
                _ => (Call::Guarding { mutation, auto_save }, None),
            },
            Call::Running { subcommand, then_format } => match event {
                Event::SpawnFailed { reason } => finish(
                    OperationOutcome::Failed(subcommand.failed_to_spawn(reason.as_str())),
                ),
                Event::Exited(result) => finish_completed(subcommand, then_format, result),
                _ => (Call::Running { subcommand, then_format }, None),
            },
            Call::Searching => match event {
                Event::RequestFailed { reason } => finish(
                    OperationOutcome::Failed(
                        Failure::explained(
                            FailureKind::Network,
                            "Failed to search crates.io: ",
                            reason.as_str(),
                        ),
                    ),
                ),
                Event::BodyFailed { reason } => finish(
                    OperationOutcome::Failed(malformed_reply(reason.as_str())),
                ),
                Event::Responded { body } => finish(read_response(body.as_slice())),
                _ => (Call::Searching, None),
            },
            Call::Finished => (Call::Finished, None),
        }
    }
}

/// Plays a whole call against a recorded sequence of reports and returns
/// every action that the library asked for, in order.
pub fn replay(request: Request, events: &Vec<Event>) -> (actions: Vec<Action>)
    ensures
        action_models(actions@) == run(request@, event_models(events@)),
{
    let ghost reports = event_models(events@);
    let ghost whole = run(request@, reports);
    let (first_call, first) = Call::begin(request);
    let mut call = first_call;
    let mut actions: Vec<Action> = Vec::new();
    actions.push(first);
    assert(action_models(actions@) =~= seq![first@]);
    assert(reports.skip(0) =~= reports);
    let mut index: usize = 0;
    while index < events.len()
        invariant
            index <= events.len(),
            reports == event_models(events@),
            whole == action_models(actions@) + actions_after(call@, reports.skip(index as int)),
        decreases events.len() - index,
    {
        let ghost before = action_models(actions@);
        let ghost pending = reports.skip(index as int);
        assert(pending[0] == events@[index as int]@);
        assert(pending.drop_first() =~= reports.skip(index + 1));
        let (next, action) = call.advance(&events[index]);
        call = next;
        match action {
            Some(action) => {
                actions.push(action);
                assert(action_models(actions@) =~= before + seq![action@]);
            },
            None => {
                assert(before + Seq::<ActionModel>::empty() =~= before);
            },
        }
        assert(whole =~= action_models(actions@) + actions_after(
            call@,
            reports.skip(index + 1),
        ));
        index += 1;
    }
    assert(actions_after(call@, reports.skip(index as int)) =~= Seq::<ActionModel>::empty());
    assert(whole =~= action_models(actions@));
    actions
}

} // verus!
