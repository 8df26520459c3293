//! What holds of the engine as a whole, proved from the definitions of its
//! steps.

use crate::commands::{SetupWarnsCommands, WarnsCommandView};
use crate::dto::{
    found_by_trigger, PunishmentTime, UserWarningView, WarningGroupView, WarningInfoView,
};
use crate::effect::{say, EffectView};
use crate::handlers::{guarded, message_step, CatalogLookupView, SetupInputView};
use crate::punish::expiry;
use crate::repository::{
    lemma_total_points_push, not_of_user_in_group, of_user_in_group, with_trigger,
    WarnsRepositoryView,
};
use crate::setup_warns::{callback_step, parsed_choice, CallbackQueryView, SetupWarnStateView};
use crate::warn::{
    issue_plan, issued, punishes, target_user, warn_outcome, WarnError, WarnMessageView,
    WarnOutcome,
};
use vstd::prelude::*;
use vstd::seq_lib::{lemma_multiset_commutative, to_multiset_build};

verus! {

/// One warn command with the message that holds it.
pub type WarnCall = (WarnsCommandView, WarnMessageView);

/// The repository after each of `calls` was handled in turn and its effects
/// were carried out, every restriction being accepted.
pub open spec fn issued_in_turn(
    repo: WarnsRepositoryView,
    calls: Seq<WarnCall>,
) -> WarnsRepositoryView
    decreases calls.len(),
{
    if calls.len() == 0 {
        repo
    } else {
        issued(issued_in_turn(repo, calls.drop_last()), calls.last().0, calls.last().1, true).0
    }
}

/// A call is aimed at the user `user_id` and uses a warning type of `group`.
pub open spec fn aimed_at(
    repo: WarnsRepositoryView,
    call: WarnCall,
    user_id: i64,
    group: WarningGroupView,
) -> bool {
    &&& target_user(call.1) matches Some(user) && user.id == user_id
    &&& repo.find_warn_by_trigger(call.0->trigger) matches Some(warn) && warn.group == group
}

/// The warning type that a call uses.
pub open spec fn warn_of(repo: WarnsRepositoryView, call: WarnCall) -> WarningInfoView {
    repo.find_warn_by_trigger(call.0->trigger)->0
}

/// The sum of the points of the warning types that a sequence of calls uses.
pub open spec fn injected_points(repo: WarnsRepositoryView, calls: Seq<WarnCall>) -> nat
    decreases calls.len(),
{
    if calls.len() == 0 {
        0
    } else {
        injected_points(repo, calls.drop_last()) + warn_of(repo, calls.last()).points as nat
    }
}

/// The infraction that a call leaves in the ledger where it does not punish.
pub open spec fn record_of(repo: WarnsRepositoryView, user_id: i64) -> spec_fn(
    WarnCall,
) -> UserWarningView {
    |call: WarnCall| UserWarningView { user_id, info: warn_of(repo, call) }
}

/// No effect of a list restricts a user.
pub open spec fn no_restriction(effects: Seq<EffectView>) -> bool {
    forall|i: int| 0 <= i < effects.len() ==> !(#[trigger] effects[i]).is_restriction()
}

/// What holds of a warn command that is aimed at a user and finds its warning
/// type, whichever way it goes.
proof fn lemma_issued(
    repo: WarnsRepositoryView,
    call: WarnCall,
    user_id: i64,
    group: WarningGroupView,
    restriction_applies: bool,
)
    requires
        aimed_at(repo, call, user_id, group),
    ensures
        ({
            let warn = warn_of(repo, call);
            let points = repo.user_warn_points(user_id, group.name);
            let plan = issue_plan(repo, call.0, call.1);
            let (after, report) = issued(repo, call.0, call.1, restriction_applies);
            &&& report.effects == plan.effects
            &&& after.warning_types == repo.warning_types
            &&& after.warning_groups == repo.warning_groups
            &&& !punishes(points as int, warn) ==> {
                &&& no_restriction(plan.effects)
                &&& report.outcome == Ok::<WarnOutcome, WarnError>(
                    WarnOutcome::Warned { points: (points + warn.points) as u64 },
                )
                &&& after == repo.insert_warn(UserWarningView { user_id, info: warn })
            }
            &&& punishes(points as int, warn) ==> {
                &&& plan.effects.len() >= 3
                &&& plan.effects[0].is_restriction()
                &&& no_restriction(plan.effects.skip(1))
                &&& plan.outcome == Ok::<WarnOutcome, WarnError>(WarnOutcome::Punished)
                &&& restriction_applies ==> report.outcome == plan.outcome && after
                    == repo.remove_actual_warns(user_id, group.name)
                &&& !restriction_applies ==> report.outcome == Err::<WarnOutcome, WarnError>(
                    WarnError::PunishmentApplyFailed,
                ) && after == repo
            }
        }),
{
    reveal_with_fuel(WarnsRepositoryView::settle, 5);
}

/// Handling warn commands leaves the catalog as it is.
proof fn lemma_issued_in_turn_keeps_catalog(
    repo: WarnsRepositoryView,
    calls: Seq<WarnCall>,
    user_id: i64,
    group: WarningGroupView,
)
    requires
        forall|i: int| 0 <= i < calls.len() ==> aimed_at(repo, #[trigger] calls[i], user_id, group),
    ensures
        issued_in_turn(repo, calls).warning_types == repo.warning_types,
    decreases calls.len(),
{
    if calls.len() > 0 {
        let earlier = calls.drop_last();
        lemma_issued_in_turn_keeps_catalog(repo, earlier, user_id, group);
        let before = issued_in_turn(repo, earlier);
        lemma_issued(before, calls.last(), user_id, group, true);
    }
}

/// Warnings that stay below the threshold only accumulate.
///
/// Let a user without active infractions in a group be warned any number of
/// times with warning types of that group whose points add up to less than
/// the group's threshold. Then no call restricts anyone, and each reports the
/// running sum of the points; afterwards the user's active infractions in the
/// group are one per call, in the order of the calls, the user's points are
/// the sum of the points of the calls, and nothing was archived.
pub proof fn warnings_below_threshold_accumulate(
    repo: WarnsRepositoryView,
    calls: Seq<WarnCall>,
    user_id: i64,
    group: WarningGroupView,
)
    requires
        forall|i: int| 0 <= i < calls.len() ==> aimed_at(repo, #[trigger] calls[i], user_id, group),
        repo.actual_warns_by_group(user_id, group.name).len() == 0,
        injected_points(repo, calls) < group.max_points,
    ensures
        forall|i: int|
            0 <= i < calls.len() ==> {
                let plan = issue_plan(
                    issued_in_turn(repo, calls.take(i)),
                    (#[trigger] calls[i]).0,
                    calls[i].1,
                );
                &&& no_restriction(plan.effects)
                &&& plan.outcome == Ok::<WarnOutcome, WarnError>(
                    WarnOutcome::Warned { points: injected_points(repo, calls.take(i + 1)) as u64 },
                )
            },
        issued_in_turn(repo, calls).actual_warns_by_group(user_id, group.name) == calls.map_values(
            record_of(repo, user_id),
        ),
        issued_in_turn(repo, calls).user_warn_points(user_id, group.name) == injected_points(
            repo,
            calls,
        ),
        issued_in_turn(repo, calls).old_warns == repo.old_warns,
    decreases calls.len(),
{
    if calls.len() > 0 {
        let earlier = calls.drop_last();
        let call = calls.last();
        warnings_below_threshold_accumulate(repo, earlier, user_id, group);
        lemma_issued_in_turn_keeps_catalog(repo, earlier, user_id, group);
        let before = issued_in_turn(repo, earlier);
        let record = UserWarningView { user_id, info: warn_of(repo, call) };
        assert(aimed_at(before, call, user_id, group));
        lemma_issued(before, call, user_id, group, true);
        assert(issued_in_turn(repo, calls) == before.insert_warn(record));
        before.actual_warns.lemma_filter_push(record, of_user_in_group(user_id, group.name));
        lemma_total_points_push(before.actual_warns_by_group(user_id, group.name), record);
        assert(calls.map_values(record_of(repo, user_id)) =~= earlier.map_values(
            record_of(repo, user_id),
        ).push(record));
        assert forall|i: int| 0 <= i < calls.len() implies {
            let plan = issue_plan(
                issued_in_turn(repo, calls.take(i)),
                (#[trigger] calls[i]).0,
                calls[i].1,
            );
            &&& no_restriction(plan.effects)
            &&& plan.outcome == Ok::<WarnOutcome, WarnError>(
                WarnOutcome::Warned { points: injected_points(repo, calls.take(i + 1)) as u64 },
            )
        } by {
            if i < earlier.len() {
                assert(calls.take(i) =~= earlier.take(i));
                assert(calls.take(i + 1) =~= earlier.take(i + 1));
                assert(calls[i] == earlier[i]);
            } else {
                assert(calls.take(i + 1) =~= calls);
            }
        }
    }
}

/// A warning that reaches the threshold punishes once and clears the user's
/// active infractions in the group, however many there were.
///
/// The effects of the call begin with a restriction and hold no other. Once
/// they are carried out, the call reports a punishment, the user has no
/// active infraction and no points in the group, the infractions that were
/// active stand at the end of the archive, and no other infraction has
/// changed place. Where the restriction is turned down, the call fails with
/// `PunishmentApplyFailed` and the repository stays as it was.
pub proof fn warning_at_threshold_punishes_once(
    repo: WarnsRepositoryView,
    call: WarnCall,
    user_id: i64,
    group: WarningGroupView,
)
    requires
        aimed_at(repo, call, user_id, group),
        punishes(repo.user_warn_points(user_id, group.name) as int, warn_of(repo, call)),
    ensures
        ({
            let (after, report) = issued(repo, call.0, call.1, true);
            &&& report.effects.len() >= 1
            &&& report.effects[0].is_restriction()
            &&& no_restriction(report.effects.skip(1))
            &&& report.outcome == Ok::<WarnOutcome, WarnError>(WarnOutcome::Punished)
            &&& after.actual_warns_by_group(user_id, group.name).len() == 0
            &&& after.user_warn_points(user_id, group.name) == 0
            &&& after.old_warns == repo.old_warns + repo.actual_warns_by_group(user_id, group.name)
            &&& after.actual_warns == repo.actual_warns.filter(
                not_of_user_in_group(user_id, group.name),
            )
        }),
        ({
            let (after, report) = issued(repo, call.0, call.1, false);
            &&& report.outcome == Err::<WarnOutcome, WarnError>(WarnError::PunishmentApplyFailed)
            &&& after == repo
        }),
{
    lemma_issued(repo, call, user_id, group, true);
    lemma_issued(repo, call, user_id, group, false);
    let kept = repo.actual_warns.filter(not_of_user_in_group(user_id, group.name));
    assert forall|i: int| 0 <= i < kept.len() implies !of_user_in_group(user_id, group.name)(
        #[trigger] kept[i],
    ) by {
        repo.actual_warns.lemma_filter_pred(not_of_user_in_group(user_id, group.name), i);
    }
    kept.lemma_all_neg_filter_empty(of_user_in_group(user_id, group.name));
}

/// In a group whose threshold is zero every warning punishes, the first one
/// included.
pub proof fn zero_threshold_always_punishes(points: nat, warn: WarningInfoView)
    requires
        warn.group.max_points == 0,
    ensures
        punishes(points as int, warn),
        warn_outcome(points as int, warn) == WarnOutcome::Punished,
{
}

/// `Cancel` ends a conversation in whatever state it is, and the next
/// `NewWarn` begins one that holds the new chat id and nothing else.
pub proof fn cancel_then_new_warn_starts_afresh(
    session: Option<SetupWarnStateView>,
    reply_chat: i64,
    lookup: CatalogLookupView,
    chat_id: i64,
)
    ensures
        ({
            let cancelled = message_step(
                session,
                reply_chat,
                SetupInputView::Command(SetupWarnsCommands::Cancel),
                lookup,
            );
            let begun = message_step(
                cancelled.session,
                reply_chat,
                SetupInputView::Command(SetupWarnsCommands::NewWarn { chat_id }),
                lookup,
            );
            &&& cancelled.session is None
            &&& cancelled.effects == say(reply_chat, "Cancelled."@)
            &&& begun.session == Some(SetupWarnStateView::WaitForWarnGroup { chat_id })
        }),
{
}

/// A session that was left waiting for a group with chat id 0 counts as no
/// session: every message and every button press is handled as if nothing
/// were stored, so that `NewWarn` begins a conversation instead of being
/// turned down.
pub proof fn sentinel_session_counts_as_absent(
    reply_chat: i64,
    input: SetupInputView,
    lookup: CatalogLookupView,
    query: CallbackQueryView,
    chat_id: i64,
)
    ensures
        message_step(
            Some(SetupWarnStateView::WaitForWarnGroup { chat_id: 0 }),
            reply_chat,
            input,
            lookup,
        ) == message_step(None, reply_chat, input, lookup),
        callback_step(guarded(Some(SetupWarnStateView::WaitForWarnGroup { chat_id: 0 })), query)
            == callback_step(None, query),
        message_step(
            Some(SetupWarnStateView::WaitForWarnGroup { chat_id: 0 }),
            reply_chat,
            SetupInputView::Command(SetupWarnsCommands::NewWarn { chat_id }),
            lookup,
        ).session == Some(SetupWarnStateView::WaitForWarnGroup { chat_id }),
{
}

/// A trigger that is taken is asked for again, and the group and points that
/// were collected stay in the session.
pub proof fn duplicate_trigger_keeps_session(
    reply_chat: i64,
    text: Seq<char>,
    lookup: CatalogLookupView,
    chat_id: i64,
    group: WarningGroupView,
    max_points: u64,
)
    requires
        found_by_trigger(text, lookup.warn),
    ensures
        ({
            let session = Some(SetupWarnStateView::WaitForTrigger { chat_id, group, max_points });
            let step = message_step(session, reply_chat, SetupInputView::Text(Some(text)), lookup);
            &&& step.session == session
            &&& step.effects == say(reply_chat, "Warn with such trigger already exists."@)
        }),
{
}

/// A punishment without end ends, in numbers, at the moment it begins; a
/// timed one ends its seconds later.
pub proof fn forever_ends_at_anchor(anchor_time: i64, seconds: u64)
    ensures
        expiry(PunishmentTime::Forever, anchor_time) == anchor_time,
        expiry(PunishmentTime::Time(seconds), anchor_time) == anchor_time + seconds,
        expiry(PunishmentTime::Time(3600), anchor_time) == anchor_time + 3600,
{
}

/// A warn command that is turned down changes nothing.
///
/// Where a command has no user to aim at or uses a trigger that the catalog
/// does not hold, its only effect is one message to the chat it came from,
/// and the repository stays as it was.
pub proof fn rejected_warning_changes_nothing(
    repo: WarnsRepositoryView,
    call: WarnCall,
    restriction_applies: bool,
)
    requires
        target_user(call.1) is None || repo.find_warn_by_trigger(call.0->trigger) is None,
    ensures
        ({
            let (after, report) = issued(repo, call.0, call.1, restriction_applies);
            &&& after == repo
            &&& report.effects.len() == 1
            &&& report.effects[0] is SendMessage
            &&& report.effects[0]->SendMessage_chat_id == call.1.chat_id
            &&& target_user(call.1) is None ==> report.outcome == Err::<WarnOutcome, WarnError>(
                WarnError::NoTargetUser,
            )
            &&& target_user(call.1) is Some ==> report.outcome == Err::<WarnOutcome, WarnError>(
                WarnError::UnknownTrigger,
            )
        }),
{
    reveal_with_fuel(WarnsRepositoryView::settle, 2);
}

/// No two infractions are made of one: archiving moves each record of the
/// user in the group from the active ones to the archive, and the records of
/// the ledger, taken together, are the same before and after.
pub proof fn archiving_moves_records(repo: WarnsRepositoryView, user_id: i64, group_name: Seq<char>)
    ensures
        ({
            let after = repo.remove_actual_warns(user_id, group_name);
            &&& (after.old_warns + after.actual_warns).to_multiset() == (repo.old_warns
                + repo.actual_warns).to_multiset()
            &&& after.old_warns.len() + after.actual_warns.len() == repo.old_warns.len()
                + repo.actual_warns.len()
            &&& after.warning_types == repo.warning_types
            &&& after.warning_groups == repo.warning_groups
        }),
{
    let moved = repo.actual_warns.filter(of_user_in_group(user_id, group_name));
    let kept = repo.actual_warns.filter(not_of_user_in_group(user_id, group_name));
    let after = repo.remove_actual_warns(user_id, group_name);
    lemma_filter_splits(repo.actual_warns, user_id, group_name);
    lemma_multiset_commutative(repo.old_warns, repo.actual_warns);
    lemma_multiset_commutative(repo.old_warns, moved);
    lemma_multiset_commutative(repo.old_warns + moved, kept);
    (after.old_warns + after.actual_warns).to_multiset_ensures();
    (repo.old_warns + repo.actual_warns).to_multiset_ensures();
}

/// The infractions of a pair and all the others make up the whole.
proof fn lemma_filter_splits(warns: Seq<UserWarningView>, user_id: i64, group_name: Seq<char>)
    ensures
        warns.filter(of_user_in_group(user_id, group_name)).to_multiset().add(
            warns.filter(not_of_user_in_group(user_id, group_name)).to_multiset(),
        ) == warns.to_multiset(),
    decreases warns.len(),
{
    let moved = of_user_in_group(user_id, group_name);
    let kept = not_of_user_in_group(user_id, group_name);
    if warns.len() == 0 {
        warns.lemma_filter_len(moved);
        warns.lemma_filter_len(kept);
        assert(warns.filter(moved) =~= warns);
        assert(warns.filter(kept) =~= warns);
        assert(warns.to_multiset().add(warns.to_multiset()) =~= warns.to_multiset()) by {
            warns.to_multiset_ensures();
        }
    } else {
        let earlier = warns.drop_last();
        let last = warns.last();
        lemma_filter_splits(earlier, user_id, group_name);
        assert(warns =~= earlier.push(last));
        earlier.lemma_filter_push(last, moved);
        earlier.lemma_filter_push(last, kept);
        to_multiset_build(earlier, last);
        to_multiset_build(earlier.filter(moved), last);
        to_multiset_build(earlier.filter(kept), last);
    }
}

/// No two warning types of a catalog have the same trigger.
pub open spec fn triggers_unique(types: Seq<WarningInfoView>) -> bool {
    forall|i: int, j: int|
        0 <= i < j < types.len() ==> (#[trigger] types[i]).trigger != (#[trigger] types[j]).trigger
}

/// Asking the catalog before a trigger is accepted keeps triggers unique.
///
/// Let a conversation wait for a trigger, and let the catalog, whose triggers
/// are unique, be asked for the text of the message. If the conversation moves
/// on, then a button press that finishes it adds a warning type that holds the
/// text as its trigger with the group and points collected, the triggers of
/// the catalog are still unique, and a search for the text finds the new type.
pub proof fn creation_keeps_triggers_unique(
    repo: WarnsRepositoryView,
    reply_chat: i64,
    text: Seq<char>,
    chat_id: i64,
    group: WarningGroupView,
    max_points: u64,
    query: CallbackQueryView,
)
    requires
        triggers_unique(repo.warning_types),
        parsed_choice(query.data) is Some,
    ensures
        ({
            let waiting = Some(SetupWarnStateView::WaitForTrigger { chat_id, group, max_points });
            let asked = message_step(
                waiting,
                reply_chat,
                SetupInputView::Text(Some(text)),
                repo.lookup(text),
            );
            let pressed = callback_step(guarded(asked.session), query);
            let created = WarningInfoView {
                trigger: text,
                points: max_points,
                group,
                on_warn: parsed_choice(query.data)->0,
            };
            let after = repo.settle(pressed.effects, true).0;
            asked.session != waiting ==> {
                &&& repo.find_warn_by_trigger(text) is None
                &&& pressed.session is None
                &&& after == repo.insert_warn_type(created)
                &&& triggers_unique(after.warning_types)
                &&& after.find_warn_by_trigger(text) == Some(created)
            }
        }),
{
    let waiting = Some(SetupWarnStateView::WaitForTrigger { chat_id, group, max_points });
    let asked = message_step(
        waiting,
        reply_chat,
        SetupInputView::Text(Some(text)),
        repo.lookup(text),
    );
    if asked.session != waiting {
        let pred = with_trigger(text);
        let types = repo.warning_types;
        assert(repo.find_warn_by_trigger(text) is None) by {
            if repo.find_warn_by_trigger(text) is Some {
                types.lemma_filter_pred(pred, 0);
            }
        }
        assert forall|i: int| 0 <= i < types.len() implies !pred(#[trigger] types[i]) by {
            if pred(types[i]) {
                types.lemma_filter_contains(pred, i);
            }
        }
        let created = WarningInfoView {
            trigger: text,
            points: max_points,
            group,
            on_warn: parsed_choice(query.data)->0,
        };
        reveal_with_fuel(WarnsRepositoryView::settle, 5);
        types.lemma_filter_push(created, pred);
        types.lemma_all_neg_filter_empty(pred);
    }
}

} // verus!
