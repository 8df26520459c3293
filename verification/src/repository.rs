//! The catalog of warning groups and types and the ledger of infractions,
//! held in memory.
//!
//! The ledger has two parts: the active infractions, which count towards a
//! user's points, and the archive, which holds those that a punishment has
//! cleared. An infraction is in exactly one of the two.

use crate::dto::{
    OnWarnAction, Punishment, PunishmentKind, PunishmentTime, UserWarning, UserWarningView,
    WarningGroup, WarningGroupView, WarningInfo, WarningInfoView,
};
use crate::effect::{Effect, EffectView};
use crate::handlers::{CatalogLookup, CatalogLookupView};
use crate::warn::WarnError;
use vstd::prelude::*;
use vstd::string::*;

verus! {

/// The first item of a sequence, if it has one.
pub open spec fn first_of<A>(s: Seq<A>) -> Option<A> {
    if s.len() > 0 {
        Some(s[0])
    } else {
        None
    }
}

/// The warning types with a given trigger.
pub open spec fn with_trigger(trigger: Seq<char>) -> spec_fn(WarningInfoView) -> bool {
    |info: WarningInfoView| info.trigger == trigger
}

/// The warning groups with a given name.
pub open spec fn with_name(name: Seq<char>) -> spec_fn(WarningGroupView) -> bool {
    |group: WarningGroupView| group.name == name
}

/// The infractions of a user.
pub open spec fn of_user(user_id: i64) -> spec_fn(UserWarningView) -> bool {
    |warn: UserWarningView| warn.user_id == user_id
}

/// The infractions of a user in the group of a given name.
pub open spec fn of_user_in_group(user_id: i64, group_name: Seq<char>) -> spec_fn(
    UserWarningView,
) -> bool {
    |warn: UserWarningView| warn.user_id == user_id && warn.info.group.name == group_name
}

/// All infractions but those of a user in the group of a given name.
pub open spec fn not_of_user_in_group(user_id: i64, group_name: Seq<char>) -> spec_fn(
    UserWarningView,
) -> bool {
    |warn: UserWarningView| !(warn.user_id == user_id && warn.info.group.name == group_name)
}

/// The sum of the points of a sequence of infractions.
pub open spec fn total_points(warns: Seq<UserWarningView>) -> nat
    decreases warns.len(),
{
    if warns.len() == 0 {
        0
    } else {
        total_points(warns.drop_last()) + warns.last().info.points as nat
    }
}

/// A sequence with its first item that meets `pred` replaced by `item`, or
/// with `item` at its end where no item meets `pred`.
pub open spec fn upserted<A>(s: Seq<A>, pred: spec_fn(A) -> bool, item: A) -> Seq<A>
    decreases s.len(),
{
    if s.len() == 0 {
        seq![item]
    } else if pred(s[0]) {
        s.update(0, item)
    } else {
        seq![s[0]] + upserted(s.skip(1), pred, item)
    }
}

/// The mathematical value of a [`WarnsRepository`]: its four collections, each
/// in the order of insertion.
pub struct WarnsRepositoryView {
    pub old_warns: Seq<UserWarningView>,
    pub actual_warns: Seq<UserWarningView>,
    pub warning_types: Seq<WarningInfoView>,
    pub warning_groups: Seq<WarningGroupView>,
}

impl WarnsRepositoryView {
    /// The warning type that a search by trigger finds: the first one with it.
    pub open spec fn find_warn_by_trigger(self, trigger: Seq<char>) -> Option<WarningInfoView> {
        first_of(self.warning_types.filter(with_trigger(trigger)))
    }

    /// The warning group that a search by name finds: the first one with it.
    pub open spec fn get_warn_group(self, name: Seq<char>) -> Option<WarningGroupView> {
        first_of(self.warning_groups.filter(with_name(name)))
    }

    /// The active infractions of a user in a group.
    pub open spec fn actual_warns_by_group(self, user_id: i64, group_name: Seq<char>) -> Seq<
        UserWarningView,
    > {
        self.actual_warns.filter(of_user_in_group(user_id, group_name))
    }

    /// The points that a user has in a group: the sum over the active
    /// infractions of that user in that group.
    pub open spec fn user_warn_points(self, user_id: i64, group_name: Seq<char>) -> nat {
        total_points(self.actual_warns_by_group(user_id, group_name))
    }

    /// The repository with one more active infraction.
    pub open spec fn insert_warn(self, warn: UserWarningView) -> Self {
        WarnsRepositoryView { actual_warns: self.actual_warns.push(warn), ..self }
    }

    /// The repository with one more warning type.
    pub open spec fn insert_warn_type(self, info: WarningInfoView) -> Self {
        WarnsRepositoryView { warning_types: self.warning_types.push(info), ..self }
    }

    /// The repository after the active infractions of a user in a group have
    /// moved to the end of the archive, in their order. No other infraction
    /// changes place.
    pub open spec fn remove_actual_warns(self, user_id: i64, group_name: Seq<char>) -> Self {
        WarnsRepositoryView {
            old_warns: self.old_warns + self.actual_warns.filter(
                of_user_in_group(user_id, group_name),
            ),
            actual_warns: self.actual_warns.filter(not_of_user_in_group(user_id, group_name)),
            ..self
        }
    }

    /// The repository with a group put in place of the first one of its name,
    /// or added where there is none of that name.
    pub open spec fn upsert_warn_group(self, group: WarningGroupView) -> Self {
        WarnsRepositoryView {
            warning_groups: upserted(self.warning_groups, with_name(group.name), group),
            ..self
        }
    }

    /// The repository with a warning type put in place of the first one with
    /// its trigger, or added where there is none with that trigger.
    pub open spec fn upsert_warn_type(self, info: WarningInfoView) -> Self {
        WarnsRepositoryView {
            warning_types: upserted(self.warning_types, with_trigger(info.trigger), info),
            ..self
        }
    }

    /// What the catalog holds under a text.
    pub open spec fn lookup(self, text: Seq<char>) -> CatalogLookupView {
        CatalogLookupView {
            group: self.get_warn_group(text),
            warn: self.find_warn_by_trigger(text),
        }
    }

    /// The repository after one effect. Only the three writes change it.
    pub open spec fn apply(self, effect: EffectView) -> Self {
        match effect {
            EffectView::InsertWarn { warn } => self.insert_warn(warn),
            EffectView::ArchiveWarns { user_id, group_name } => self.remove_actual_warns(
                user_id,
                group_name,
            ),
            EffectView::InsertWarnType { info } => self.insert_warn_type(info),
            _ => self,
        }
    }

    /// The repository after a list of effects was carried out in order, and
    /// whether all of it was. Where the chat platform turns restrictions down,
    /// the first restriction ends it: nothing after it is carried out.
    pub open spec fn settle(self, effects: Seq<EffectView>, restriction_applies: bool) -> (
        Self,
        bool,
    )
        decreases effects.len(),
    {
        if effects.len() == 0 {
            (self, true)
        } else if effects[0].is_restriction() && !restriction_applies {
            (self, false)
        } else {
            self.apply(effects[0]).settle(effects.skip(1), restriction_applies)
        }
    }
}

/// The default group: a hundred points, then muted for good.
pub open spec fn default_group() -> WarningGroupView {
    WarningGroupView {
        name: "царизм"@,
        max_points: 100,
        punishment: Punishment { time: PunishmentTime::Forever, kind: PunishmentKind::Mute },
    }
}

/// The default warning type: thirty points in the default group, and the
/// message is deleted.
pub open spec fn default_warn_type() -> WarningInfoView {
    WarningInfoView {
        trigger: "макака"@,
        points: 30,
        group: default_group(),
        on_warn: OnWarnAction::DeleteMessage,
    }
}

/// An in-memory catalog and ledger.
#[derive(Debug, PartialEq)]
pub struct WarnsRepository {
    old_warns: Vec<UserWarning>,
    actual_warns: Vec<UserWarning>,
    warning_types: Vec<WarningInfo>,
    warning_groups: Vec<WarningGroup>,
}

impl View for WarnsRepository {
    type V = WarnsRepositoryView;

    closed spec fn view(&self) -> WarnsRepositoryView {
        WarnsRepositoryView {
            old_warns: self.old_warns.deep_view(),
            actual_warns: self.actual_warns.deep_view(),
            warning_types: self.warning_types.deep_view(),
            warning_groups: self.warning_groups.deep_view(),
        }
    }
}

/// In a sequence whose items before `i` all fail `pred` and whose item at `i`
/// meets it, the first item that meets `pred` is the one at `i`.
proof fn lemma_first_match<A>(s: Seq<A>, pred: spec_fn(A) -> bool, i: int)
    requires
        0 <= i < s.len(),
        pred(s[i]),
        forall|j: int| 0 <= j < i ==> !pred(#[trigger] s[j]),
    ensures
        first_of(s.filter(pred)) == Some(s[i]),
{
    let before = s.take(i);
    let after = s.skip(i + 1);
    assert(s =~= before.push(s[i]) + after);
    before.lemma_all_neg_filter_empty(pred);
    before.lemma_filter_push(s[i], pred);
    Seq::filter_distributes_over_add(before.push(s[i]), after, pred);
}

/// A vector's deep view grows with the vector.
proof fn lemma_deep_view_push<T: DeepView>(before: Vec<T>, after: Vec<T>, item: T)
    requires
        after@ == before@.push(item),
    ensures
        after.deep_view() == before.deep_view().push(item.deep_view()),
{
}

/// The infractions of a user, in one group where a name is given and in any
/// group where none is.
spec fn selected(user_id: i64, group_name: Option<Seq<char>>) -> spec_fn(UserWarningView) -> bool {
    match group_name {
        Some(name) => of_user_in_group(user_id, name),
        None => of_user(user_id),
    }
}

/// Copies the infractions of a user out of a list, in their order.
fn select(warns: &Vec<UserWarning>, user_id: i64, group_name: Option<&String>) -> (res: Vec<
    UserWarning,
>)
    ensures
        res.deep_view() == warns.deep_view().filter(selected(user_id, group_name.deep_view())),
{
    let ghost pred = selected(user_id, group_name.deep_view());
    let ghost all = warns.deep_view();
    let mut res: Vec<UserWarning> = Vec::new();
    let mut i: usize = 0;
    assert(all.take(0).filter(pred) =~= Seq::empty()) by {
        all.take(0).lemma_filter_len(pred);
    }
    while i < warns.len()
        invariant
            i <= warns.len(),
            all == warns.deep_view(),
            pred == selected(user_id, group_name.deep_view()),
            res.deep_view() == all.take(i as int).filter(pred),
        decreases warns.len() - i,
    {
        let warn = &warns[i];
        proof {
            lemma_filter_take_next(all, pred, i as int);
        }
        let wanted = warn.user_id == user_id && match group_name {
            Some(name) => warn.info.group.name == *name,
            None => true,
        };
        if wanted {
            let ghost before = res;
            let copy = warn.clone();
            res.push(copy);
            proof {
                lemma_deep_view_push(before, res, copy);
            }
        }
        i += 1;
    }
    assert(all.take(i as int) =~= all);
    res
}

/// Sums the points of a list of infractions.
pub fn sum_points(warns: &Vec<UserWarning>) -> (res: u128)
    ensures
        res == total_points(warns.deep_view()),
{
    let ghost all = warns.deep_view();
    let mut sum: u128 = 0;
    let mut i: usize = 0;
    while i < warns.len()
        invariant
            i <= warns.len(),
            all == warns.deep_view(),
            sum == total_points(all.take(i as int)),
            sum <= i * u64::MAX,
        decreases warns.len() - i,
    {
        proof {
            assert(all.take(i + 1) =~= all.take(i as int).push(all[i as int]));
            lemma_total_points_push(all.take(i as int), all[i as int]);
        }
        sum = sum + warns[i].info.points as u128;
        i += 1;
    }
    assert(all.take(i as int) =~= all);
    sum
}

impl WarnsRepository {
    /// An empty repository.
    pub fn new() -> (res: Self)
        ensures
            res@ == (WarnsRepositoryView {
                old_warns: Seq::empty(),
                actual_warns: Seq::empty(),
                warning_types: Seq::empty(),
                warning_groups: Seq::empty(),
            }),
    {
        let res = WarnsRepository {
            old_warns: Vec::new(),
            actual_warns: Vec::new(),
            warning_types: Vec::new(),
            warning_groups: Vec::new(),
        };
        assert(res.old_warns.deep_view() =~= Seq::empty());
        assert(res.actual_warns.deep_view() =~= Seq::empty());
        assert(res.warning_types.deep_view() =~= Seq::empty());
        assert(res.warning_groups.deep_view() =~= Seq::empty());
        res
    }

    /// Adds an active infraction.
    pub fn insert_warn(&mut self, warn: UserWarning)
        ensures
            final(self)@ == old(self)@.insert_warn(warn@),
    {
        let ghost before = self.actual_warns;
        self.actual_warns.push(warn);
        proof {
            lemma_deep_view_push(before, self.actual_warns, warn);
        }
    }

    /// Adds a warning type. It is for the caller to ask first, with
    /// [`Self::find_warn_by_trigger`], whether the trigger is free.
    pub fn insert_warn_type(&mut self, info: WarningInfo)
        ensures
            final(self)@ == old(self)@.insert_warn_type(info@),
    {
        let ghost before = self.warning_types;
        self.warning_types.push(info);
        proof {
            lemma_deep_view_push(before, self.warning_types, info);
        }
    }

    /// Finds the warning type with the given trigger.
    pub fn find_warn_by_trigger(&self, trigger: &String) -> (res: Option<WarningInfo>)
        ensures
            res.deep_view() == self@.find_warn_by_trigger(trigger@),
    {
        let mut i: usize = 0;
        while i < self.warning_types.len()
            invariant
                i <= self.warning_types.len(),
                forall|j: int|
                    0 <= j < i ==> !with_trigger(trigger@)(
                        #[trigger] self.warning_types.deep_view()[j],
                    ),
            decreases self.warning_types.len() - i,
        {
            if self.warning_types[i].trigger == *trigger {
                proof {
                    lemma_first_match(
                        self.warning_types.deep_view(),
                        with_trigger(trigger@),
                        i as int,
                    );
                }
                return Some(self.warning_types[i].clone());
            }
            i += 1;
        }
        proof {
            self.warning_types.deep_view().lemma_all_neg_filter_empty(with_trigger(trigger@));
        }
        None
    }

    /// Finds the warning group with the given name.
    pub fn get_warn_group(&self, name: &String) -> (res: Option<WarningGroup>)
        ensures
            res.deep_view() == self@.get_warn_group(name@),
    {
        let mut i: usize = 0;
        while i < self.warning_groups.len()
            invariant
                i <= self.warning_groups.len(),
                forall|j: int|
                    0 <= j < i ==> !with_name(name@)(#[trigger] self.warning_groups.deep_view()[j]),
            decreases self.warning_groups.len() - i,
        {
            if self.warning_groups[i].name == *name {
                proof {
                    lemma_first_match(self.warning_groups.deep_view(), with_name(name@), i as int);
                }
                return Some(self.warning_groups[i].clone());
            }
            i += 1;
        }
        proof {
            self.warning_groups.deep_view().lemma_all_neg_filter_empty(with_name(name@));
        }
        None
    }

    /// The sum of the active points of a user in a group.
    pub fn get_user_warn_points(&self, user_id: i64, group: &WarningGroup) -> (res: u128)
        ensures
            res == self@.user_warn_points(user_id, group.name@),
    {
        let warns = self.get_actual_warns_by_group(user_id, &group.name);
        sum_points(&warns)
    }

    /// The active infractions of a user, in the order of insertion.
    pub fn get_actual_warns(&self, user_id: i64) -> (res: Vec<UserWarning>)
        ensures
            res.deep_view() == self@.actual_warns.filter(of_user(user_id)),
    {
        select(&self.actual_warns, user_id, None)
    }

    /// The active infractions of a user in the group of the given name, in
    /// the order of insertion.
    pub fn get_actual_warns_by_group(&self, user_id: i64, group_name: &String) -> (res: Vec<
        UserWarning,
    >)
        ensures
            res.deep_view() == self@.actual_warns_by_group(user_id, group_name@),
    {
        select(&self.actual_warns, user_id, Some(group_name))
    }

    /// The archived infractions of a user, in the order in which they were
    /// archived.
    pub fn get_old_warns(&self, user_id: i64) -> (res: Vec<UserWarning>)
        ensures
            res.deep_view() == self@.old_warns.filter(of_user(user_id)),
    {
        select(&self.old_warns, user_id, None)
    }

    /// Archives the active infractions of a user in a group: afterwards none
    /// of them is active, and all of them stand at the end of the archive.
    pub fn remove_actual_warns(&mut self, user_id: i64, group: &WarningGroup)
        ensures
            final(self)@ == old(self)@.remove_actual_warns(user_id, group.name@),
    {
        self.archive(user_id, &group.name);
    }

    fn archive(&mut self, user_id: i64, group_name: &String)
        ensures
            final(self)@ == old(self)@.remove_actual_warns(user_id, group_name@),
    {
        let ghost moved = of_user_in_group(user_id, group_name@);
        let ghost kept = not_of_user_in_group(user_id, group_name@);
        let ghost all = self.actual_warns.deep_view();
        let ghost archive = self.old_warns.deep_view();
        let mut rest: Vec<UserWarning> = Vec::new();
        let mut i: usize = 0;
        assert(all.take(0).filter(moved) =~= Seq::empty()) by {
            all.take(0).lemma_filter_len(moved);
        }
        assert(all.take(0).filter(kept) =~= Seq::empty()) by {
            all.take(0).lemma_filter_len(kept);
        }
        while i < self.actual_warns.len()
            invariant
                i <= self.actual_warns.len(),
                all == self.actual_warns.deep_view(),
                moved == of_user_in_group(user_id, group_name@),
                kept == not_of_user_in_group(user_id, group_name@),
                self.warning_types == old(self).warning_types,
                self.warning_groups == old(self).warning_groups,
                self.old_warns.deep_view() == archive + all.take(i as int).filter(moved),
                rest.deep_view() == all.take(i as int).filter(kept),
            decreases self.actual_warns.len() - i,
        {
            let copy = self.actual_warns[i].clone();
            proof {
                lemma_filter_take_next(all, moved, i as int);
                lemma_filter_take_next(all, kept, i as int);
            }
            if copy.user_id == user_id && copy.info.group.name == *group_name {
                let ghost before = self.old_warns;
                self.old_warns.push(copy);
                proof {
                    lemma_deep_view_push(before, self.old_warns, copy);
                }
            } else {
                let ghost before = rest;
                rest.push(copy);
                proof {
                    lemma_deep_view_push(before, rest, copy);
                }
            }
            i += 1;
        }
        assert(all.take(i as int) =~= all);
        self.actual_warns = rest;
    }

    /// Puts a group in place of the first one of its name, or adds it where
    /// there is none of that name.
    pub fn upsert_warn_group(&mut self, group: WarningGroup)
        ensures
            final(self)@ == old(self)@.upsert_warn_group(group@),
    {
        let ghost all = self.warning_groups.deep_view();
        let ghost pred = with_name(group.name@);
        let mut i: usize = 0;
        assert(all.take(0) + upserted(all.skip(0), pred, group@) =~= upserted(all, pred, group@))
            by {
            assert(all.skip(0) =~= all);
        }
        while i < self.warning_groups.len()
            invariant
                i <= self.warning_groups.len(),
                all == self.warning_groups.deep_view(),
                pred == with_name(group.name@),
                *self == *old(self),
                upserted(all, pred, group@) == all.take(i as int) + upserted(
                    all.skip(i as int),
                    pred,
                    group@,
                ),
            decreases self.warning_groups.len() - i,
        {
            proof {
                lemma_upserted_step(all, pred, group@, i as int);
            }
            if self.warning_groups[i].name == group.name {
                self.warning_groups.set(i, group);
                assert(self.warning_groups.deep_view() =~= all.update(i as int, group@));
                return ;
            }
            i += 1;
        }
        self.warning_groups.push(group);
        assert(self.warning_groups.deep_view() =~= all.take(i as int) + seq![group@]);
    }

    /// Puts a warning type in place of the first one with its trigger, or adds
    /// it where there is none with that trigger.
    pub fn upsert_warn_type(&mut self, info: WarningInfo)
        ensures
            final(self)@ == old(self)@.upsert_warn_type(info@),
    {
        let ghost all = self.warning_types.deep_view();
        let ghost pred = with_trigger(info.trigger@);
        let mut i: usize = 0;
        assert(all.take(0) + upserted(all.skip(0), pred, info@) =~= upserted(all, pred, info@))
            by {
            assert(all.skip(0) =~= all);
        }
        while i < self.warning_types.len()
            invariant
                i <= self.warning_types.len(),
                all == self.warning_types.deep_view(),
                pred == with_trigger(info.trigger@),
                *self == *old(self),
                upserted(all, pred, info@) == all.take(i as int) + upserted(
                    all.skip(i as int),
                    pred,
                    info@,
                ),
            decreases self.warning_types.len() - i,
        {
            proof {
                lemma_upserted_step(all, pred, info@, i as int);
            }
            if self.warning_types[i].trigger == info.trigger {
                self.warning_types.set(i, info);
                assert(self.warning_types.deep_view() =~= all.update(i as int, info@));
                return ;
            }
            i += 1;
        }
        self.warning_types.push(info);
        assert(self.warning_types.deep_view() =~= all.take(i as int) + seq![info@]);
    }

    /// The group that every catalog starts with.
    pub fn default_group() -> (res: WarningGroup)
        ensures
            res@ == default_group(),
    {
        WarningGroup {
            name: String::from_str("царизм"),
            max_points: 100,
            punishment: Punishment { time: PunishmentTime::Forever, kind: PunishmentKind::Mute },
        }
    }

    /// The warning type that every catalog starts with.
    pub fn default_warn_type() -> (res: WarningInfo)
        ensures
            res@ == default_warn_type(),
    {
        WarningInfo {
            trigger: String::from_str("макака"),
            points: 30,
            group: Self::default_group(),
            on_warn: OnWarnAction::DeleteMessage,
        }
    }

    /// Makes sure that the catalog holds the default group and the default
    /// warning type: each takes the place of what stood under its name or
    /// trigger, or is added.
    pub fn insert_default_values(&mut self)
        ensures
            final(self)@ == old(self)@.upsert_warn_group(default_group()).upsert_warn_type(
                default_warn_type(),
            ),
    {
        self.upsert_warn_group(Self::default_group());
        self.upsert_warn_type(Self::default_warn_type());
    }

    /// Asks the catalog for the group and for the warning type that stand
    /// under a text.
    pub fn lookup(&self, text: &String) -> (res: CatalogLookup)
        ensures
            res@ == self@.lookup(text@),
    {
        CatalogLookup { group: self.get_warn_group(text), warn: self.find_warn_by_trigger(text) }
    }

    /// Carries out one effect, as far as it concerns the repository.
    pub fn apply(&mut self, effect: &Effect)
        ensures
            final(self)@ == old(self)@.apply(effect@),
    {
        match effect {
            Effect::InsertWarn { warn } => self.insert_warn(warn.clone()),
            Effect::ArchiveWarns { user_id, group_name } => self.archive(*user_id, group_name),
            Effect::InsertWarnType { info } => self.insert_warn_type(info.clone()),
            _ => {},
        }
    }

    /// Carries out a list of effects in order, as the caller of the engine
    /// does: with `restriction_applies` unset, the first restriction fails,
    /// and what comes after it is left undone.
    pub fn settle(&mut self, effects: &Vec<Effect>, restriction_applies: bool) -> (res: Result<
        (),
        WarnError,
    >)
        ensures
            (final(self)@, res is Ok) == old(self)@.settle(
                effects.deep_view(),
                restriction_applies,
            ),
            res is Err ==> res == Err::<(), WarnError>(WarnError::PunishmentApplyFailed),
    {
        let ghost all = effects.deep_view();
        let mut i: usize = 0;
        assert(all.skip(0) =~= all);
        while i < effects.len()
            invariant
                i <= effects.len(),
                all == effects.deep_view(),
                old(self)@.settle(all, restriction_applies) == self@.settle(
                    all.skip(i as int),
                    restriction_applies,
                ),
            decreases effects.len() - i,
        {
            assert(all.skip(i as int).skip(1) =~= all.skip(i + 1));
            if effects[i].is_restriction() && !restriction_applies {
                return Err(WarnError::PunishmentApplyFailed);
            }
            self.apply(&effects[i]);
            i += 1;
        }
        Ok(())
    }
}

/// How an upsert goes on behind an item that does not meet the predicate, and
/// how it ends at one that does.
proof fn lemma_upserted_step<A>(s: Seq<A>, pred: spec_fn(A) -> bool, item: A, i: int)
    requires
        0 <= i < s.len(),
    ensures
        !pred(s[i]) ==> s.take(i) + upserted(s.skip(i), pred, item) == s.take(i + 1) + upserted(
            s.skip(i + 1),
            pred,
            item,
        ),
        pred(s[i]) ==> s.take(i) + upserted(s.skip(i), pred, item) == s.update(i, item),
{
    assert(s.skip(i).skip(1) =~= s.skip(i + 1));
}

/// Taking one more item of a sequence adds it to the filtered part exactly
/// when it meets the predicate.
proof fn lemma_filter_take_next<A>(s: Seq<A>, pred: spec_fn(A) -> bool, i: int)
    requires
        0 <= i < s.len(),
    ensures
        s.take(i + 1).filter(pred) == if pred(s[i]) {
            s.take(i).filter(pred).push(s[i])
        } else {
            s.take(i).filter(pred)
        },
{
    assert(s.take(i + 1) =~= s.take(i).push(s[i]));
    s.take(i).lemma_filter_push(s[i], pred);
}

/// One more infraction adds its points to the sum.
pub proof fn lemma_total_points_push(warns: Seq<UserWarningView>, warn: UserWarningView)
    ensures
        total_points(warns.push(warn)) == total_points(warns) + warn.info.points,
{
    assert(warns.push(warn).drop_last() =~= warns);
}

} // verus!
