//! What holds of every call, whatever the driver reports.
//!
//! Each statement is about [`run`]: the actions that the library asks for
//! when a request meets an arbitrary sequence of reports.

use vstd::prelude::*;
use crate::command::{
    format_invocation,
    metadata_invocation,
    CommandResultModel,
    MutationModel,
    Subcommand,
};
use crate::facade::{
    accepts,
    actions_after,
    begin,
    changed,
    issued,
    manifest_path,
    missing_manifest,
    run,
    step,
    ActionModel,
    CallModel,
    EventModel,
    RequestModel,
};
use crate::json::{json_parse, Json};
use crate::listing::{dependency_entries, dependency_lines};
use crate::outcome::{FailureKind, FailureModel, OutcomeModel};
use crate::registry::{is_searchable, search_url, MINIMUM_QUERY_LENGTH};
use crate::text::utf8_lossy;

verus! {

/// Whether an action ends a call with a failure.
pub open spec fn is_failure(action: ActionModel) -> bool {
    action matches ActionModel::Finish(outcome) && outcome is Failed
}

/// Whether an action spawns a process.
pub open spec fn is_spawn(action: ActionModel) -> bool {
    action is Run
}

proof fn lemma_finished_is_final(events: Seq<EventModel>)
    ensures
        actions_after(CallModel::Finished, events) == Seq::<ActionModel>::empty(),
    decreases events.len(),
{
    if events.len() > 0 {
        lemma_finished_is_final(events.drop_first());
    }
}

/// The actions that can follow the start of the formatting pass: nothing
/// yet, or the end of the call.
spec fn formatting_tail(tail: Seq<ActionModel>) -> bool {
    ||| tail.len() == 0
    ||| tail.len() == 1 && (tail[0] == ActionModel::Finish(OutcomeModel::Done) || is_failure(
        tail[0],
    ))
}

proof fn lemma_formatting(then_format: bool, events: Seq<EventModel>)
    ensures
        formatting_tail(
            actions_after(
                CallModel::Running { subcommand: Subcommand::Format, then_format },
                events,
            ),
        ),
    decreases events.len(),
{
    if events.len() > 0 {
        let call = CallModel::Running { subcommand: Subcommand::Format, then_format };
        if accepts(call, events[0]) {
            lemma_finished_is_final(events.drop_first());
        } else {
            lemma_formatting(then_format, events.drop_first());
        }
    }
}

/// The actions that can follow the start of a change.
spec fn change_tail(tail: Seq<ActionModel>, then_format: bool) -> bool {
    ||| tail.len() == 0
    ||| tail.len() == 1 && is_failure(tail[0])
    ||| !then_format && tail.len() == 1 && tail[0] == ActionModel::Finish(OutcomeModel::Done)
    ||| then_format && tail.len() >= 1 && tail[0] == ActionModel::Run(format_invocation())
        && formatting_tail(tail.drop_first())
}

/// Whether a sub-command changes the manifest.
pub open spec fn is_change(subcommand: Subcommand) -> bool {
    subcommand is Add || subcommand is AddDev || subcommand is Remove
}

proof fn lemma_changing(subcommand: Subcommand, then_format: bool, events: Seq<EventModel>)
    requires
        is_change(subcommand),
    ensures
        change_tail(
            actions_after(CallModel::Running { subcommand, then_format }, events),
            then_format,
        ),
    decreases events.len(),
{
    if events.len() > 0 {
        let call = CallModel::Running { subcommand, then_format };
        let rest = events.drop_first();
        let tail = actions_after(call, events);
        if accepts(call, events[0]) {
            let next = step(call, events[0]);
            if next.0 is Finished {
                lemma_finished_is_final(rest);
            } else {
                lemma_formatting(false, rest);
                assert(next.1 == Some(ActionModel::Run(format_invocation())));
                assert(tail.drop_first() =~= actions_after(next.0, rest));
            }
        } else {
            lemma_changing(subcommand, then_format, rest);
        }
    }
}

/// The actions that can follow the question about the manifest.
spec fn guarded_tail(tail: Seq<ActionModel>, mutation: MutationModel, auto_save: bool) -> bool {
    ||| tail.len() == 0
    ||| tail.len() == 1 && tail[0] == ActionModel::Finish(
        OutcomeModel::Failed(missing_manifest()),
    )
    ||| tail.len() >= 1 && tail[0] == ActionModel::Run(mutation.invocation()) && change_tail(
        tail.drop_first(),
        auto_save,
    )
}

proof fn lemma_guarding(mutation: MutationModel, auto_save: bool, events: Seq<EventModel>)
    ensures
        guarded_tail(
            actions_after(CallModel::Guarding { mutation, auto_save }, events),
            mutation,
            auto_save,
        ),
    decreases events.len(),
{
    if events.len() > 0 {
        let call = CallModel::Guarding { mutation, auto_save };
        let rest = events.drop_first();
        let tail = actions_after(call, events);
        if accepts(call, events[0]) {
            let next = step(call, events[0]);
            if next.0 is Finished {
                lemma_finished_is_final(rest);
            } else {
                lemma_changing(mutation.subcommand(), auto_save, rest);
                assert(tail.drop_first() =~= actions_after(next.0, rest));
            }
        } else {
            lemma_guarding(mutation, auto_save, rest);
        }
    }
}

proof fn lemma_change_is_not_format(mutation: MutationModel)
    ensures
        mutation.invocation() != format_invocation(),
{
    assert(mutation.invocation().arguments.len() >= 2);
    assert(format_invocation().arguments.len() == 1);
}

/// A query of fewer than two characters is never sent. Whatever the driver
/// reports, the call consists of one action: handing out an empty list.
pub proof fn short_query_is_never_sent(query: Seq<char>, events: Seq<EventModel>)
    requires
        query.len() < MINIMUM_QUERY_LENGTH,
    ensures
        run(RequestModel::Search { query }, events) == seq![
            ActionModel::Finish(OutcomeModel::Lines(Seq::empty())),
        ],
{
    lemma_finished_is_final(events);
}

/// A change attempted where no manifest is present fails as a precondition
/// failure, and no process is spawned: the call consists of the question
/// about the manifest and the failure.
pub proof fn missing_manifest_stops_the_change(
    mutation: MutationModel,
    auto_save: bool,
    events: Seq<EventModel>,
)
    requires
        events.len() > 0,
        events[0] == (EventModel::ManifestChecked { present: false }),
    ensures
        run(RequestModel::Mutate { mutation, auto_save }, events) == seq![
            ActionModel::CheckManifest { path: manifest_path() },
            ActionModel::Finish(OutcomeModel::Failed(missing_manifest())),
        ],
        missing_manifest().kind == FailureKind::Precondition,
{
    lemma_finished_is_final(events.drop_first());
}

proof fn lemma_unseen_manifest(mutation: MutationModel, auto_save: bool, events: Seq<EventModel>)
    requires
        forall|i: int|
            0 <= i < events.len() ==> events[i] != (EventModel::ManifestChecked { present: true }),
    ensures
        forall|j: int|
            0 <= j < actions_after(CallModel::Guarding { mutation, auto_save }, events).len()
                ==> !is_spawn(
                #[trigger] actions_after(CallModel::Guarding { mutation, auto_save }, events)[j],
            ),
    decreases events.len(),
{
    if events.len() > 0 {
        let call = CallModel::Guarding { mutation, auto_save };
        let rest = events.drop_first();
        let tail = actions_after(call, events);
        assert(events[0] != (EventModel::ManifestChecked { present: true }));
        if accepts(call, events[0]) {
            lemma_finished_is_final(rest);
            assert(tail =~= seq![ActionModel::Finish(OutcomeModel::Failed(missing_manifest()))]);
        } else {
            assert forall|i: int| 0 <= i < rest.len() implies rest[i] != (
            EventModel::ManifestChecked { present: true }) by {
                assert(rest[i] == events[i + 1]);
            }
            lemma_unseen_manifest(mutation, auto_save, rest);
            assert(tail =~= actions_after(call, rest));
        }
    }
}

/// No change spawns a process before the driver has reported that the
/// manifest is present.
pub proof fn nothing_is_spawned_before_the_manifest_is_seen(
    mutation: MutationModel,
    auto_save: bool,
    events: Seq<EventModel>,
)
    requires
        forall|i: int|
            0 <= i < events.len() ==> events[i] != (EventModel::ManifestChecked { present: true }),
    ensures
        forall|j: int|
            0 <= j < run(RequestModel::Mutate { mutation, auto_save }, events).len() ==> !is_spawn(
                #[trigger] run(RequestModel::Mutate { mutation, auto_save }, events)[j],
            ),
{
    lemma_unseen_manifest(mutation, auto_save, events);
}

/// With `auto_save` set, the formatting pass is asked for at most once, and
/// only directly after the change itself; a call that ends in success is
/// exactly: the question about the manifest, the change, the formatting
/// pass, success. The change is never itself a formatting pass.
pub proof fn format_follows_a_successful_change(mutation: MutationModel, events: Seq<EventModel>)
    ensures
        mutation.invocation() != format_invocation(),
        forall|i: int|
            #![trigger run(RequestModel::Mutate { mutation, auto_save: true }, events)[i]]
            0 <= i < run(RequestModel::Mutate { mutation, auto_save: true }, events).len() && run(
                RequestModel::Mutate { mutation, auto_save: true },
                events,
            )[i] == ActionModel::Run(format_invocation()) ==> i == 2 && run(
                RequestModel::Mutate { mutation, auto_save: true },
                events,
            )[1] == ActionModel::Run(mutation.invocation()),
        changed(run(RequestModel::Mutate { mutation, auto_save: true }, events)) ==> run(
            RequestModel::Mutate { mutation, auto_save: true },
            events,
        ) == seq![
            ActionModel::CheckManifest { path: manifest_path() },
            ActionModel::Run(mutation.invocation()),
            ActionModel::Run(format_invocation()),
            ActionModel::Finish(OutcomeModel::Done),
        ],
{
    lemma_change_is_not_format(mutation);
    lemma_guarding(mutation, true, events);
    let tail = actions_after(CallModel::Guarding { mutation, auto_save: true }, events);
    let actions = run(RequestModel::Mutate { mutation, auto_save: true }, events);
    assert(actions =~= seq![ActionModel::CheckManifest { path: manifest_path() }] + tail);
    if tail.len() >= 1 && tail[0] == ActionModel::Run(mutation.invocation()) {
        let after_change = tail.drop_first();
        assert(forall|i: int| 0 <= i < after_change.len() ==> after_change[i] == actions[i + 2]);
        if after_change.len() >= 1 && after_change[0] == ActionModel::Run(format_invocation()) {
            let after_format = after_change.drop_first();
            assert(forall|i: int|
                0 <= i < after_format.len() ==> after_format[i] == actions[i + 3]);
        }
    }
}

/// With `auto_save` set, a change that ran and exited with success is
/// followed by the formatting pass: the third action of the call, directly
/// after the change.
pub proof fn a_successful_change_is_formatted(
    mutation: MutationModel,
    result: CommandResultModel,
    events: Seq<EventModel>,
)
    requires
        result.succeeded,
        events.len() >= 2,
        events[0] == (EventModel::ManifestChecked { present: true }),
        events[1] == EventModel::Exited(result),
    ensures
        run(RequestModel::Mutate { mutation, auto_save: true }, events).len() >= 3,
        run(RequestModel::Mutate { mutation, auto_save: true }, events)[0] == (
        ActionModel::CheckManifest { path: manifest_path() }),
        run(RequestModel::Mutate { mutation, auto_save: true }, events)[1] == ActionModel::Run(
            mutation.invocation(),
        ),
        run(RequestModel::Mutate { mutation, auto_save: true }, events)[2] == ActionModel::Run(
            format_invocation(),
        ),
{
    let first = CallModel::Guarding { mutation, auto_save: true };
    let second = CallModel::Running { subcommand: mutation.subcommand(), then_format: true };
    let rest = events.drop_first();
    assert(rest[0] == events[1]);
    assert(step(first, events[0]).0 == second);
    assert(actions_after(second, rest) =~= issued(step(second, rest[0]).1) + actions_after(
        step(second, rest[0]).0,
        rest.drop_first(),
    ));
}

/// Without `auto_save`, the formatting pass is never asked for; a call that
/// ends in success is exactly: the question about the manifest, the change,
/// success.
pub proof fn no_format_without_auto_save(mutation: MutationModel, events: Seq<EventModel>)
    ensures
        forall|i: int|
            0 <= i < run(RequestModel::Mutate { mutation, auto_save: false }, events).len()
                ==> #[trigger] run(RequestModel::Mutate { mutation, auto_save: false }, events)[i]
                != ActionModel::Run(format_invocation()),
        changed(run(RequestModel::Mutate { mutation, auto_save: false }, events)) ==> run(
            RequestModel::Mutate { mutation, auto_save: false },
            events,
        ) == seq![
            ActionModel::CheckManifest { path: manifest_path() },
            ActionModel::Run(mutation.invocation()),
            ActionModel::Finish(OutcomeModel::Done),
        ],
{
    lemma_change_is_not_format(mutation);
    lemma_guarding(mutation, false, events);
    let tail = actions_after(CallModel::Guarding { mutation, auto_save: false }, events);
    let actions = run(RequestModel::Mutate { mutation, auto_save: false }, events);
    assert(actions =~= seq![ActionModel::CheckManifest { path: manifest_path() }] + tail);
    if tail.len() >= 1 && tail[0] == ActionModel::Run(mutation.invocation()) {
        let after_change = tail.drop_first();
        assert(forall|i: int| 0 <= i < after_change.len() ==> after_change[i] == actions[i + 2]);
    }
}

/// Whether the next accepted report ends the call, whatever it says.
spec fn last_step(call: CallModel) -> bool {
    call is Searching || call is Finished || (call matches CallModel::Running { subcommand, .. }
        && !is_change(subcommand))
}

proof fn lemma_ends_with(call: CallModel, events: Seq<EventModel>)
    requires
        last_step(call),
    ensures
        forall|i: int|
            0 <= i < actions_after(call, events).len() ==> (#[trigger] actions_after(
                call,
                events,
            )[i]) is Finish,
    decreases events.len(),
{
    if events.len() > 0 {
        let next = step(call, events[0]);
        let rest = events.drop_first();
        let tail = actions_after(call, events);
        if next.0 is Finished {
            lemma_finished_is_final(rest);
            assert(tail =~= issued(next.1));
        } else {
            lemma_ends_with(call, rest);
            assert(tail =~= actions_after(call, rest));
        }
    }
}

proof fn lemma_ends_once(call: CallModel, events: Seq<EventModel>)
    ensures
        forall|i: int|
            0 <= i < actions_after(call, events).len() && (#[trigger] actions_after(
                call,
                events,
            )[i]) is Finish ==> i == actions_after(call, events).len() - 1,
    decreases events.len(),
{
    if events.len() > 0 {
        let next = step(call, events[0]);
        let rest = events.drop_first();
        let tail = actions_after(call, events);
        if next.0 is Finished {
            lemma_finished_is_final(rest);
            assert(tail =~= issued(next.1));
        } else {
            lemma_ends_once(next.0, rest);
            assert(tail =~= issued(next.1) + actions_after(next.0, rest));
            assert(next.1 matches Some(action) ==> !(action is Finish));
            assert forall|i: int| 0 <= i < tail.len() && (#[trigger] tail[i]) is Finish implies i
                == tail.len() - 1 by {
                let offset = issued(next.1).len();
                assert(i >= offset);
                assert(tail[i] == actions_after(next.0, rest)[i - offset]);
            }
        }
    }
}

/// A call ends at most once, and asks for nothing after it has ended: an
/// outcome is only ever the last action of a call.
pub proof fn a_call_ends_at_most_once(request: RequestModel, events: Seq<EventModel>)
    ensures
        forall|i: int|
            0 <= i < run(request, events).len() && (#[trigger] run(request, events)[i]) is Finish
                ==> i == run(request, events).len() - 1,
{
    let actions = run(request, events);
    let tail = actions_after(begin(request).0, events);
    lemma_ends_once(begin(request).0, events);
    if begin(request).0 is Finished {
        lemma_finished_is_final(events);
    } else {
        assert forall|i: int| 0 <= i < actions.len() && (#[trigger] actions[i]) is Finish implies i
            == actions.len() - 1 by {
            assert(i >= 1);
            assert(actions[i] == tail[i - 1]);
        }
    }
}

/// The formatting pass is only ever asked for in answer to a change that
/// ran and exited with success, in a call that has `auto_save` set. After a
/// change that failed it never runs.
pub proof fn format_only_answers_a_successful_change(call: CallModel, event: EventModel)
    requires
        step(call, event).1 == Some(ActionModel::Run(format_invocation())),
    ensures
        call matches CallModel::Running { subcommand, then_format } && then_format && is_change(
            subcommand,
        ),
        event matches EventModel::Exited(result) && result.succeeded,
{
    match call {
        CallModel::Guarding { mutation, .. } => {
            lemma_change_is_not_format(mutation);
        },
        _ => {},
    }
}

/// A listing spawns the metadata query, once, as its first action. It
/// neither looks for the manifest nor goes to the network, and after the
/// query it can only end.
pub proof fn a_listing_spawns_once(events: Seq<EventModel>)
    ensures
        run(RequestModel::List, events)[0] == ActionModel::Run(metadata_invocation()),
        forall|i: int|
            1 <= i < run(RequestModel::List, events).len() ==> (#[trigger] run(
                RequestModel::List,
                events,
            )[i]) is Finish,
{
    lemma_ends_with(
        CallModel::Running { subcommand: Subcommand::Metadata, then_format: false },
        events,
    );
}

/// A search that is sent fetches the registry URL, once, as its first
/// action: there is no second page and no second attempt. After the fetch it
/// can only end.
pub proof fn a_search_fetches_once(query: Seq<char>, events: Seq<EventModel>)
    requires
        is_searchable(query),
    ensures
        run(RequestModel::Search { query }, events)[0] == (ActionModel::Fetch {
            url: search_url(query),
        }),
        forall|i: int|
            1 <= i < run(RequestModel::Search { query }, events).len() ==> (#[trigger] run(
                RequestModel::Search { query },
                events,
            )[i]) is Finish,
{
    lemma_ends_with(CallModel::Searching, events);
}

/// A project without dependencies lists as an empty list, not as a failure:
/// when the metadata query succeeds and its document names no dependency,
/// the call ends by handing out no lines.
pub proof fn no_dependencies_is_an_empty_list(
    result: CommandResultModel,
    document: Json,
    events: Seq<EventModel>,
)
    requires
        result.succeeded,
        json_parse(result.stdout) == Ok::<Json, Seq<char>>(document),
        dependency_entries(document).len() == 0,
        events.len() > 0,
        events[0] == EventModel::Exited(result),
    ensures
        run(RequestModel::List, events) == seq![
            ActionModel::Run(metadata_invocation()),
            ActionModel::Finish(OutcomeModel::Lines(Seq::empty())),
        ],
{
    lemma_finished_is_final(events.drop_first());
    assert(dependency_lines(document) =~= Seq::<Seq<char>>::empty());
}

/// A change that the tool rejects fails with the tool's own words: the
/// message is the name of the sub-command that failed, followed by the text
/// of the tool's standard error, unchanged. The answer depends on nothing
/// else, so asking again for a change that the tool rejects in the same words
/// fails in the same words.
pub proof fn a_rejected_change_quotes_the_tool(
    mutation: MutationModel,
    auto_save: bool,
    result: CommandResultModel,
    events: Seq<EventModel>,
)
    requires
        !result.succeeded,
        events.len() >= 2,
        events[0] == (EventModel::ManifestChecked { present: true }),
        events[1] == EventModel::Exited(result),
    ensures
        run(RequestModel::Mutate { mutation, auto_save }, events) == seq![
            ActionModel::CheckManifest { path: manifest_path() },
            ActionModel::Run(mutation.invocation()),
            ActionModel::Finish(
                OutcomeModel::Failed(
                    FailureModel {
                        kind: FailureKind::Command,
                        message: mutation.subcommand().exit_prefix() + utf8_lossy(result.stderr),
                    },
                ),
            ),
        ],
{
    let first = CallModel::Guarding { mutation, auto_save };
    let second = CallModel::Running { subcommand: mutation.subcommand(), then_format: auto_save };
    let rest = events.drop_first();
    assert(rest[0] == events[1]);
    assert(step(first, events[0]).0 == second);
    lemma_finished_is_final(rest.drop_first());
    assert(actions_after(second, rest) =~= issued(step(second, rest[0]).1) + actions_after(
        step(second, rest[0]).0,
        rest.drop_first(),
    ));
}

} // verus!
