//! What holds of every run of a command: of each sequence of events that the
//! program around the library may report, whatever the disk, the user and the
//! outside programs do.

use vstd::prelude::*;
use crate::command_executor::{
    bash_invocation,
    chmod_invocation,
    exit_code_text,
    git_clone_invocation,
    succeeded,
    ProcessOutcomeView,
};
use crate::gate::{consents, gate_request};
use crate::index::{classified, indexed, ScriptEntryView, WalkItemView};
use crate::path::parent_part;
use crate::resolver::{lemma_resolved_when_present, matching, resolved};
use crate::protocol::{
    exit_code_of,
    said,
    ActionView,
    CommandView,
    EventView,
    NoticeView,
    OutcomeView,
};
use crate::session::{advance_spec, begin_spec, script_line, total_line, StageView};

verus! {

/// The stage that a command is in after `events`, reported in this order,
/// when it was in `start` before.
pub open spec fn stage_after(start: StageView, events: Seq<EventView>) -> StageView
    decreases events.len(),
{
    if events.len() == 0 {
        start
    } else {
        advance_spec(stage_after(start, events.drop_last()), events.last()).stage
    }
}

/// The action that answers the last of `events`.
pub open spec fn action_after(start: StageView, events: Seq<EventView>) -> ActionView
    recommends
        events.len() > 0,
{
    advance_spec(stage_after(start, events.drop_last()), events.last()).action
}

/// The lines that a command prints while `events` are reported, in order.
pub open spec fn printed_after(start: StageView, events: Seq<EventView>) -> Seq<NoticeView>
    decreases events.len(),
{
    if events.len() == 0 {
        Seq::empty()
    } else {
        printed_after(start, events.drop_last()) + advance_spec(
            stage_after(start, events.drop_last()),
            events.last(),
        ).notices
    }
}

/// One line per script, numbered from 1, each with the script's path.
pub open spec fn listing_lines(scripts: Seq<ScriptEntryView>) -> Seq<NoticeView> {
    Seq::new(scripts.len(), |k: int| said(script_line(k + 1, scripts[k].path)))
}

/// The events of a walk that found `walk`, one per item.
pub open spec fn entries(walk: Seq<WalkItemView>) -> Seq<EventView> {
    Seq::new(walk.len(), |i: int| EventView::Entry { item: walk[i] })
}

/// An event is affirmative when it is the user's explicit yes.
pub open spec fn affirmative(event: EventView) -> bool {
    event matches EventView::Answer { answer } && consents(answer)
}

/// A command is over exactly when its action is `Exit`, and then it stays
/// over: whatever is reported next, the action is `Exit` again.
pub proof fn lemma_exit_is_final(stage: StageView, event: EventView)
    ensures
        advance_spec(stage, event).action is Exit <==> advance_spec(stage, event).stage is Finished,
        stage is Finished ==> advance_spec(stage, event).stage is Finished,
{
}

/// Without consent no process: in a run of `run` in which the user never
/// says an explicit yes, no action starts a process. Neither `chmod` nor the
/// script is ever launched.
pub proof fn lemma_no_consent_no_process(
    name: Seq<char>,
    cache_dir: Seq<char>,
    events: Seq<EventView>,
)
    requires
        forall|i: int| 0 <= i < events.len() ==> !affirmative(#[trigger] events[i]),
    ensures
        !(begin_spec(CommandView::Run { name }, cache_dir).action is Execute),
        forall|k: int|
            0 < k <= events.len() ==> !(#[trigger] action_after(
                begin_spec(CommandView::Run { name }, cache_dir).stage,
                events.take(k),
            ) is Execute),
{
    let start = begin_spec(CommandView::Run { name }, cache_dir).stage;
    assert forall|k: int| 0 < k <= events.len() implies !(#[trigger] action_after(
        start,
        events.take(k),
    ) is Execute) by {
        let upto = events.take(k);
        assert(upto.drop_last() =~= events.take(k - 1));
        assert(upto.last() == events[k - 1]);
        lemma_before_consent(start, events, k - 1);
    }
}

/// A stage of `run` in which the user has not been heard yet, or in which the
/// command is over.
pub open spec fn before_consent(stage: StageView) -> bool {
    stage is Resolving || stage is AwaitingConsent || stage is Finished
}

/// As long as no event is an explicit yes, `run` stays before consent.
proof fn lemma_before_consent(start: StageView, events: Seq<EventView>, k: int)
    requires
        before_consent(start),
        0 <= k <= events.len(),
        forall|i: int| 0 <= i < events.len() ==> !affirmative(#[trigger] events[i]),
    ensures
        before_consent(stage_after(start, events.take(k))),
    decreases k,
{
    if k > 0 {
        let upto = events.take(k);
        assert(upto.drop_last() =~= events.take(k - 1));
        assert(upto.last() == events[k - 1]);
        lemma_before_consent(start, events, k - 1);
    }
}

/// The event reports a `chmod` that ran and left with exit code zero.
pub open spec fn permission_granted(event: EventView) -> bool {
    event matches EventView::Process { outcome } && succeeded(outcome)
}

/// The action ends the command with exit code 1.
pub open spec fn ends_in_failure(action: ActionView) -> bool {
    action matches ActionView::Exit { outcome } && exit_code_of(outcome) == 1
}

/// Each step of the runner has its condition. `chmod` is started only in
/// answer to the user's explicit yes, for the script that was resolved; the
/// script is launched only in answer to a `chmod` that succeeded, in the
/// directory that holds it. A `chmod` that did not succeed ends the command
/// with exit code 1.
pub proof fn lemma_runner_in_order(stage: StageView, event: EventView)
    ensures
        advance_spec(stage, event).stage matches StageView::SettingPermission { script } ==> {
            &&& stage == (StageView::AwaitingConsent { script })
            &&& affirmative(event)
            &&& advance_spec(stage, event).action == (ActionView::Execute {
                command: chmod_invocation(script.path),
            })
        },
        advance_spec(stage, event).stage is Running ==> {
            &&& stage matches StageView::SettingPermission { script }
            &&& event matches EventView::Process { outcome }
            &&& succeeded(outcome)
            &&& advance_spec(stage, event).action == (ActionView::Execute {
                command: bash_invocation(script.path, script.parent),
            })
        },
        stage is SettingPermission && !permission_granted(event) ==> ends_in_failure(
            advance_spec(stage, event).action,
        ),
        advance_spec(stage, event).action is Execute ==> advance_spec(stage, event).stage
            is SettingPermission || advance_spec(stage, event).stage is Running,
{
}

/// A refusal is no error. Whatever the user answers but an explicit yes, and
/// also where no answer could be had, `run` ends at once with exit code 0.
pub proof fn lemma_refusal_cancels(script: ScriptEntryView, answer: Option<bool>)
    requires
        answer != Some(true),
    ensures
        advance_spec(StageView::AwaitingConsent { script }, EventView::Answer { answer }).action
            == (ActionView::Exit { outcome: OutcomeView::Cancelled }),
        advance_spec(StageView::AwaitingConsent { script }, EventView::Answer { answer }).stage
            is Finished,
        exit_code_of(OutcomeView::Cancelled) == 0,
{
}

/// A program that could not be started is reported with the system's
/// reason, whichever of the three it is: the complaint ends in the reason,
/// unchanged, and the command ends with exit code 1. After a `chmod` that
/// could not be started the script is not launched.
pub proof fn lemma_unstarted_program_keeps_reason(script: ScriptEntryView, reason: Seq<char>)
    ensures
        advance_spec(
            StageView::Cloning,
            EventView::Process { outcome: ProcessOutcomeView::NotStarted { reason } },
        ).action == (ActionView::Exit {
            outcome: OutcomeView::CloneFailed {
                message: "Failed to execute git command: "@ + reason,
            },
        }),
        advance_spec(
            StageView::SettingPermission { script },
            EventView::Process { outcome: ProcessOutcomeView::NotStarted { reason } },
        ).action == (ActionView::Exit {
            outcome: OutcomeView::PermissionFailed {
                message: "Failed to set permissions for the script: "@ + reason,
            },
        }),
        advance_spec(
            StageView::Running,
            EventView::Process { outcome: ProcessOutcomeView::NotStarted { reason } },
        ).action == (ActionView::Exit {
            outcome: OutcomeView::ScriptFailed { message: "Failed to execute script: "@ + reason },
        }),
        forall|message: Seq<char>|
            exit_code_of(OutcomeView::CloneFailed { message }) == 1 && exit_code_of(
                OutcomeView::PermissionFailed { message },
            ) == 1 && exit_code_of(OutcomeView::ScriptFailed { message }) == 1,
{
}

/// A script that does not leave with exit code zero has failed, and the
/// failure carries the code: `run` ends with exit code 1 and a complaint that
/// shows the code the script left with, or that it left none.
pub proof fn lemma_failure_carries_exit_code(code: Option<i32>, stderr: Seq<u8>)
    requires
        code != Some(0i32),
    ensures
        advance_spec(
            StageView::Running,
            EventView::Process { outcome: ProcessOutcomeView::Ended { code, stderr } },
        ).action == (ActionView::Exit {
            outcome: OutcomeView::ScriptFailed {
                message: "Script failed with exit code: "@ + exit_code_text(code),
            },
        }),
        exit_code_of(
            OutcomeView::ScriptFailed {
                message: "Script failed with exit code: "@ + exit_code_text(code),
            },
        ) == 1,
{
}

/// A script that leaves with exit code zero has succeeded, and `run` ends
/// with exit code 0.
pub proof fn lemma_success_is_exit_code_zero(stderr: Seq<u8>)
    ensures
        advance_spec(
            StageView::Running,
            EventView::Process { outcome: ProcessOutcomeView::Ended { code: Some(0i32), stderr } },
        ).action == (ActionView::Exit { outcome: OutcomeView::ScriptSucceeded }),
        exit_code_of(OutcomeView::ScriptSucceeded) == 0,
{
}

/// While no item of the walk bears the name, `run` keeps asking for the next
/// item and stays where it is.
pub proof fn lemma_run_keeps_walking(name: Seq<char>, walk: Seq<WalkItemView>, n: int)
    requires
        0 <= n <= walk.len(),
        forall|j: int| 0 <= j < n ==> matching(#[trigger] walk[j], name) is None,
    ensures
        stage_after(StageView::Resolving { name }, entries(walk).take(n)) == (StageView::Resolving {
            name,
        }),
        n > 0 ==> action_after(StageView::Resolving { name }, entries(walk).take(n))
            == ActionView::NextEntry,
    decreases n,
{
    if n > 0 {
        let upto = entries(walk).take(n);
        assert(upto.drop_last() =~= entries(walk).take(n - 1));
        assert(upto.last() == EventView::Entry { item: walk[n - 1] });
        lemma_run_keeps_walking(name, walk, n - 1);
    }
}

/// `run` finds what the resolver finds. Where the walk holds a script that
/// bears the name, the run stops the walk at the first such item and asks for
/// consent for exactly the script that [`resolved`] names: one script, the
/// first, never a second. The request is [`gate_request`], with no as the
/// default.
pub proof fn lemma_run_asks_for_resolved(name: Seq<char>, walk: Seq<WalkItemView>, i: int)
    requires
        0 <= i < walk.len(),
        matching(walk[i], name) is Some,
        forall|j: int| 0 <= j < i ==> matching(#[trigger] walk[j], name) is None,
    ensures
        resolved(walk, name) == matching(walk[i], name),
        stage_after(StageView::Resolving { name }, entries(walk).take(i + 1))
            == (StageView::AwaitingConsent { script: resolved(walk, name)->0 }),
        action_after(StageView::Resolving { name }, entries(walk).take(i + 1))
            == (ActionView::Confirm { request: gate_request() }),
        !gate_request().default_answer,
        resolved(walk, name)->0.name == name,
        resolved(walk, name)->0.path == walk[i]->path,
        resolved(walk, name)->0.parent == parent_part(walk[i]->path),
{
    lemma_resolved_when_present(walk, name, i);
    let upto = entries(walk).take(i + 1);
    assert(upto.drop_last() =~= entries(walk).take(i));
    assert(upto.last() == EventView::Entry { item: walk[i] });
    lemma_run_keeps_walking(name, walk, i);
}

/// Where no script of the walk bears the name, `run` ends at the end of the
/// walk with exit code 1. Until then it has asked for nothing but the next
/// item: the user was not asked, and no process was started.
pub proof fn lemma_run_not_found(name: Seq<char>, walk: Seq<WalkItemView>)
    requires
        resolved(walk, name) is None,
    ensures
        forall|k: int|
            0 < k <= walk.len() ==> #[trigger] action_after(
                StageView::Resolving { name },
                entries(walk).take(k),
            ) == ActionView::NextEntry,
        action_after(StageView::Resolving { name }, entries(walk).push(EventView::EndOfWalk))
            == (ActionView::Exit { outcome: OutcomeView::NotFound { name } }),
        exit_code_of(OutcomeView::NotFound { name }) == 1,
{
    assert forall|j: int| 0 <= j < walk.len() implies matching(#[trigger] walk[j], name)
        is None by {
        if matching(walk[j], name) is Some {
            lemma_resolved_when_present(walk, name, j);
        }
    }
    assert forall|k: int| 0 < k <= walk.len() implies #[trigger] action_after(
        StageView::Resolving { name },
        entries(walk).take(k),
    ) == ActionView::NextEntry by {
        lemma_run_keeps_walking(name, walk, k);
    }
    lemma_run_keeps_walking(name, walk, walk.len() as int);
    let all = entries(walk).push(EventView::EndOfWalk);
    assert(all.drop_last() =~= entries(walk));
    assert(entries(walk).take(walk.len() as int) =~= entries(walk));
}

/// While the walk goes on, `list` collects the scripts of the items seen so
/// far.
pub proof fn lemma_list_collects(walk: Seq<WalkItemView>, n: int)
    requires
        0 <= n <= walk.len(),
    ensures
        stage_after(StageView::Listing { found: Seq::empty() }, entries(walk).take(n))
            == (StageView::Listing { found: indexed(walk.take(n)) }),
    decreases n,
{
    if n > 0 {
        let upto = entries(walk).take(n);
        assert(upto.drop_last() =~= entries(walk).take(n - 1));
        assert(upto.last() == EventView::Entry { item: walk[n - 1] });
        assert(walk.take(n).drop_last() =~= walk.take(n - 1));
        assert(walk.take(n).last() == walk[n - 1]);
        lemma_list_collects(walk, n - 1);
    } else {
        assert(walk.take(0) =~= Seq::empty());
    }
}

/// `list` reports the index of the walk and leaves with exit code 0,
/// whatever the walk found: every script, in the order of the walk, and
/// nothing else. An empty walk, or the walk of a cache that is not there,
/// reports no script.
pub proof fn lemma_list_reports_index(cache_dir: Seq<char>, walk: Seq<WalkItemView>)
    ensures
        begin_spec(CommandView::List, cache_dir).action == (ActionView::Walk { root: cache_dir }),
        action_after(
            begin_spec(CommandView::List, cache_dir).stage,
            entries(walk).push(EventView::EndOfWalk),
        ) == (ActionView::Exit { outcome: OutcomeView::Listed { scripts: indexed(walk) } }),
        exit_code_of(OutcomeView::Listed { scripts: indexed(walk) }) == 0,
        walk.len() == 0 ==> indexed(walk).len() == 0,
{
    lemma_list_collects(walk, walk.len() as int);
    let all = entries(walk).push(EventView::EndOfWalk);
    assert(all.drop_last() =~= entries(walk));
    assert(entries(walk).take(walk.len() as int) =~= entries(walk));
    assert(walk.take(walk.len() as int) =~= walk);
}

/// While the walk goes on, `list` prints one numbered line for each script
/// seen so far, and nothing else.
pub proof fn lemma_list_prints_as_it_walks(walk: Seq<WalkItemView>, n: int)
    requires
        0 <= n <= walk.len(),
    ensures
        printed_after(StageView::Listing { found: Seq::empty() }, entries(walk).take(n))
            == listing_lines(indexed(walk.take(n))),
    decreases n,
{
    let start = StageView::Listing { found: Seq::<ScriptEntryView>::empty() };
    if n > 0 {
        let upto = entries(walk).take(n);
        assert(upto.drop_last() =~= entries(walk).take(n - 1));
        assert(upto.last() == EventView::Entry { item: walk[n - 1] });
        assert(walk.take(n).drop_last() =~= walk.take(n - 1));
        assert(walk.take(n).last() == walk[n - 1]);
        lemma_list_prints_as_it_walks(walk, n - 1);
        lemma_list_collects(walk, n - 1);
        let before = indexed(walk.take(n - 1));
        match classified(walk[n - 1]) {
            Some(script) => {
                assert(listing_lines(before.push(script)) =~= listing_lines(before) + seq![
                    said(script_line(before.len() as int + 1, script.path)),
                ]);
            },
            None => {
                assert(listing_lines(before) + Seq::<NoticeView>::empty() =~= listing_lines(before));
            },
        }
    } else {
        assert(walk.take(0) =~= Seq::empty());
        assert(listing_lines(Seq::empty()) =~= Seq::<NoticeView>::empty());
    }
}

/// What `list` prints, from the first item to the end of the walk: one
/// numbered line for each script of the index, in the order of the walk, and
/// then the count, or the line that says that there is none.
pub proof fn lemma_list_prints_index(walk: Seq<WalkItemView>)
    ensures
        printed_after(
            StageView::Listing { found: Seq::empty() },
            entries(walk).push(EventView::EndOfWalk),
        ) == listing_lines(indexed(walk)).push(said(total_line(indexed(walk).len() as int))),
{
    lemma_list_prints_as_it_walks(walk, walk.len() as int);
    lemma_list_collects(walk, walk.len() as int);
    let all = entries(walk).push(EventView::EndOfWalk);
    assert(all.drop_last() =~= entries(walk));
    assert(entries(walk).take(walk.len() as int) =~= entries(walk));
    assert(walk.take(walk.len() as int) =~= walk);
    assert(listing_lines(indexed(walk)) + seq![said(total_line(indexed(walk).len() as int))]
        =~= listing_lines(indexed(walk)).push(said(total_line(indexed(walk).len() as int))));
}

/// The events of one `clean`: the probe's answer, and the removal's report
/// where the cache was there and the removal went well.
pub open spec fn clean_events(exists: bool) -> Seq<EventView> {
    if exists {
        seq![EventView::Probed { exists: true }, EventView::Removed { failure: None }]
    } else {
        seq![EventView::Probed { exists: false }]
    }
}

/// `clean` twice in a row succeeds twice. The first run, on a cache that is
/// there or not, ends with exit code 0 if the removal it may ask for goes
/// well. The second run finds no cache, asks for no removal, and ends with
/// exit code 0 too.
pub proof fn lemma_clean_twice(cache_dir: Seq<char>, exists: bool)
    ensures
        begin_spec(CommandView::Clean, cache_dir).action == (ActionView::Probe { path: cache_dir }),
        action_after(begin_spec(CommandView::Clean, cache_dir).stage, clean_events(exists))
            matches ActionView::Exit { outcome } && exit_code_of(outcome) == 0,
        exists ==> action_after(
            begin_spec(CommandView::Clean, cache_dir).stage,
            clean_events(exists).take(1),
        ) == (ActionView::RemoveTree { path: cache_dir }),
        action_after(begin_spec(CommandView::Clean, cache_dir).stage, clean_events(false))
            == (ActionView::Exit { outcome: OutcomeView::NothingToClean }),
        exit_code_of(OutcomeView::NothingToClean) == 0,
{
    let start = begin_spec(CommandView::Clean, cache_dir).stage;
    let absent = clean_events(false);
    assert(absent.drop_last() =~= Seq::<EventView>::empty());
    assert(absent.last() == EventView::Probed { exists: false });
    if exists {
        let present = clean_events(true);
        let probe = present.take(1);
        assert(probe.drop_last() =~= Seq::<EventView>::empty());
        assert(probe.last() == EventView::Probed { exists: true });
        assert(present.drop_last() =~= probe);
        assert(present.last() == EventView::Removed { failure: None });
        assert(stage_after(start, probe) == StageView::Removing);
    }
}

/// A removal that fails is an error: `clean` ends with exit code 1 and the
/// system's words, unchanged.
pub proof fn lemma_clean_failure_surfaces(reason: Seq<char>)
    ensures
        advance_spec(StageView::Removing, EventView::Removed { failure: Some(reason) }).action
            == (ActionView::Exit { outcome: OutcomeView::CleanFailed { message: reason } }),
        exit_code_of(OutcomeView::CleanFailed { message: reason }) == 1,
{
}

/// `get` with an empty URL attempts nothing and leaves with exit code 1; any
/// other URL is handed to git with the cache directory as the destination.
pub proof fn lemma_get_checks_url(url: Seq<char>, cache_dir: Seq<char>)
    ensures
        url.len() == 0 ==> begin_spec(CommandView::Get { url }, cache_dir).action == (ActionView::Exit {
            outcome: OutcomeView::EmptyUrl,
        }),
        exit_code_of(OutcomeView::EmptyUrl) == 1,
        url.len() > 0 ==> begin_spec(CommandView::Get { url }, cache_dir).action
            == (ActionView::Execute { command: git_clone_invocation(url, cache_dir) }),
{
}

} // verus!
