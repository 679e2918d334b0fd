use vstd::prelude::*;

use std::collections::VecDeque;

use crate::dated::Dated;
use crate::file::File;
use crate::rotationplan::{clones_of, RotationPlan, RotationPlanView};
use crate::timestamp::{is_more_than_six_days, more_than_six_days, Timestamp};

verus! {

/// The newest `max` items of `s` (all of them where there are no more).
pub open spec fn keep_newest<T>(s: Seq<T>, max: nat) -> Seq<T> {
    if s.len() > max {
        s.subrange(s.len() - max, s.len() as int)
    } else {
        s
    }
}

/// What a rotator knows: the items it keeps, and the date of the latest item
/// that went to the monthly tier, kept even where that tier has no room to
/// hold the item itself.
pub struct RotatorState<T> {
    pub tiers: RotationPlanView<T>,
    pub last_monthly: Option<Timestamp>,
}

impl<T> RotatorState<T> {
    /// Nothing added yet.
    pub open spec fn initial() -> RotatorState<T> {
        RotatorState { tiers: RotationPlanView::empty(), last_monthly: None }
    }
}

/// An item dated `t` opens a new month: no item went to the monthly tier
/// yet, or the latest one has another month of the year.
pub open spec fn opens_month(last_monthly: Option<Timestamp>, t: Timestamp) -> bool {
    match last_monthly {
        None => true,
        Some(l) => t.month_spec() != l.month_spec(),
    }
}

/// An item dated `t` opens a new week: more than six days passed since the
/// newest weekly item, or, with no weekly item, since the latest item that
/// went to the monthly tier.
pub open spec fn opens_week<T: Dated>(last_monthly: Option<Timestamp>, weekly: Seq<T>, t: Timestamp) -> bool {
    if weekly.len() == 0 {
        last_monthly matches Some(l) && more_than_six_days(l, t)
    } else {
        more_than_six_days(weekly.last().date(), t)
    }
}

/// An item dated `t` opens a new day: the daily tier is empty, or its newest
/// item has another day of the month.
pub open spec fn opens_day<T: Dated>(daily: Seq<T>, t: Timestamp) -> bool {
    daily.len() == 0 || t.day_spec() != daily.last().date().day_spec()
}

/// Where an added item goes.
#[derive(Debug, Clone, Copy, PartialEq, Eq, Structural)]
pub enum Tier {
    Monthly,
    Weekly,
    Daily,
    Dropped,
}

/// The tier that an item dated `t` goes to, the first rule that holds
/// deciding.
pub open spec fn tier_for<T: Dated>(s: RotatorState<T>, t: Timestamp) -> Tier {
    if opens_month(s.last_monthly, t) {
        Tier::Monthly
    } else if opens_week(s.last_monthly, s.tiers.weekly, t) {
        Tier::Weekly
    } else if opens_day(s.tiers.daily, t) {
        Tier::Daily
    } else {
        Tier::Dropped
    }
}

/// The state after `item` is added under the limits `d`, `w` and `m`: it is
/// appended to the tier it goes to, whose oldest items then leave until the
/// tier is within its limit; an item of the monthly tier also becomes the
/// latest monthly one.
pub open spec fn added<T: Dated>(s: RotatorState<T>, d: nat, w: nat, m: nat, item: T) -> RotatorState<T> {
    let p = s.tiers;
    match tier_for(s, item.date()) {
        Tier::Monthly => RotatorState {
            tiers: RotationPlanView { monthly: keep_newest(p.monthly.push(item), m), ..p },
            last_monthly: Some(item.date()),
        },
        Tier::Weekly => RotatorState {
            tiers: RotationPlanView { weekly: keep_newest(p.weekly.push(item), w), ..p },
            ..s
        },
        Tier::Daily => RotatorState {
            tiers: RotationPlanView { daily: keep_newest(p.daily.push(item), d), ..p },
            ..s
        },
        Tier::Dropped => s,
    }
}

/// The state after adding `items`, in order, to `s`.
pub open spec fn added_all<T: Dated>(s: RotatorState<T>, d: nat, w: nat, m: nat, items: Seq<T>) -> RotatorState<T>
    decreases items.len(),
{
    if items.len() == 0 {
        s
    } else {
        added(added_all(s, d, w, m, items.drop_last()), d, w, m, items.last())
    }
}

/// Each tier is within its limit.
pub open spec fn within_limits<T>(p: RotationPlanView<T>, d: nat, w: nat, m: nat) -> bool {
    p.daily.len() <= d && p.weekly.len() <= w && p.monthly.len() <= m
}

/// Each tier is within its limit, and where the monthly tier holds an item,
/// its newest one is the latest monthly item.
pub open spec fn consistent<T: Dated>(s: RotatorState<T>, d: nat, w: nat, m: nat) -> bool {
    &&& within_limits(s.tiers, d, w, m)
    &&& s.tiers.monthly.len() > 0 ==> s.last_monthly == Some(s.tiers.monthly.last().date())
}

/// Appends `item` to `tier`, then drops the oldest items while the tier holds
/// more than `max`.
fn push_bounded<T>(tier: &mut VecDeque<T>, item: T, max: usize)
    ensures
        final(tier)@ == keep_newest(old(tier)@.push(item), max as nat),
{
    tier.push_back(item);
    let ghost s = tier@;
    while tier.len() > max
        invariant
            s == old(tier)@.push(item),
            tier@.len() <= s.len(),
            tier@.len() >= max || tier@.len() == s.len(),
            tier@ == s.subrange(s.len() - tier@.len(), s.len() as int),
        decreases tier@.len(),
    {
        tier.pop_front();
    }
}

/// Sorts dated items into monthly, weekly and daily tiers, each of bounded
/// size. Items must come oldest first.
#[derive(Debug)]
pub struct Rotator<T: Clone + Dated> {
    daily_max: usize,
    weekly_max: usize,
    monthly_max: usize,
    backups: RotationPlan<T>,
    last_monthly: Option<Timestamp>,
}

impl<T: Clone + Dated> Rotator<T> {
    /// The most daily items kept.
    pub closed spec fn daily_limit(&self) -> nat {
        self.daily_max as nat
    }

    /// The most weekly items kept.
    pub closed spec fn weekly_limit(&self) -> nat {
        self.weekly_max as nat
    }

    /// The most monthly items kept.
    pub closed spec fn monthly_limit(&self) -> nat {
        self.monthly_max as nat
    }

    /// The items kept so far and the latest monthly date.
    pub closed spec fn state(&self) -> RotatorState<T> {
        RotatorState { tiers: self.backups@, last_monthly: self.last_monthly }
    }

    /// Every tier is within its limit, and the newest monthly item, if any,
    /// is the latest monthly one.
    pub open spec fn wf(&self) -> bool {
        consistent(self.state(), self.daily_limit(), self.weekly_limit(), self.monthly_limit())
    }

    /// A rotator that has seen nothing yet.
    pub fn new(daily_max: usize, weekly_max: usize, monthly_max: usize) -> (r: Rotator<T>)
        ensures
            r.daily_limit() == daily_max,
            r.weekly_limit() == weekly_max,
            r.monthly_limit() == monthly_max,
            r.state() == RotatorState::<T>::initial(),
            r.wf(),
    {
        Rotator { daily_max, weekly_max, monthly_max, backups: RotationPlan::new(), last_monthly: None }
    }

    fn add_monthly(&mut self, backup: T)
        ensures
            final(self).state() == (RotatorState {
                tiers: RotationPlanView {
                    monthly: keep_newest(old(self).state().tiers.monthly.push(backup), old(self).monthly_limit()),
                    ..old(self).state().tiers
                },
                last_monthly: Some(backup.date()),
            }),
            final(self).daily_max == old(self).daily_max,
            final(self).weekly_max == old(self).weekly_max,
            final(self).monthly_max == old(self).monthly_max,
    {
        self.last_monthly = Some(backup.get_date());
        push_bounded(&mut self.backups.monthly, backup, self.monthly_max);
    }

    fn add_weekly(&mut self, backup: T)
        ensures
            final(self).state() == (RotatorState {
                tiers: RotationPlanView {
                    weekly: keep_newest(old(self).state().tiers.weekly.push(backup), old(self).weekly_limit()),
                    ..old(self).state().tiers
                },
                ..old(self).state()
            }),
            final(self).daily_max == old(self).daily_max,
            final(self).weekly_max == old(self).weekly_max,
            final(self).monthly_max == old(self).monthly_max,
    {
        push_bounded(&mut self.backups.weekly, backup, self.weekly_max);
    }

    fn add_daily(&mut self, backup: T)
        ensures
            final(self).state() == (RotatorState {
                tiers: RotationPlanView {
                    daily: keep_newest(old(self).state().tiers.daily.push(backup), old(self).daily_limit()),
                    ..old(self).state().tiers
                },
                ..old(self).state()
            }),
            final(self).daily_max == old(self).daily_max,
            final(self).weekly_max == old(self).weekly_max,
            final(self).monthly_max == old(self).monthly_max,
    {
        push_bounded(&mut self.backups.daily, backup, self.daily_max);
    }

    fn is_new_month(&self, time: &Timestamp) -> (r: bool)
        ensures
            r == opens_month(self.state().last_monthly, *time),
    {
        match &self.last_monthly {
            None => true,
            Some(last_monthly) => time.month() != last_monthly.month(),
        }
    }

    fn is_new_week(&self, time: &Timestamp) -> (r: bool)
        requires
            self.state().last_monthly is Some,
        ensures
            r == opens_week(self.state().last_monthly, self.state().tiers.weekly, *time),
    {
        let n = self.backups.weekly.len();
        if n == 0 {
            return match &self.last_monthly {
                Some(last_monthly) => is_more_than_six_days(last_monthly, time),
                None => false,
            };
        }
        let last_weekly = self.backups.weekly[n - 1].get_date();
        is_more_than_six_days(&last_weekly, time)
    }

    fn is_new_day(&self, time: &Timestamp) -> (r: bool)
        ensures
            r == opens_day(self.state().tiers.daily, *time),
    {
        let n = self.backups.daily.len();
        if n == 0 {
            return true;
        }
        let last_daily = self.backups.daily[n - 1].get_date();
        time.day() != last_daily.day()
    }

    /// Classifies `backup` and appends it to its tier, whose oldest items then
    /// leave while the tier is over its limit; an item that opens no new
    /// month, week or day is dropped.
    pub fn add_backup(&mut self, backup: T)
        requires
            old(self).wf(),
        ensures
            final(self).state() == added(
                old(self).state(),
                old(self).daily_limit(),
                old(self).weekly_limit(),
                old(self).monthly_limit(),
                backup,
            ),
            final(self).daily_limit() == old(self).daily_limit(),
            final(self).weekly_limit() == old(self).weekly_limit(),
            final(self).monthly_limit() == old(self).monthly_limit(),
            final(self).wf(),
    {
        let time = backup.get_date();
        if self.is_new_month(&time) {
            self.add_monthly(backup);
        } else if self.is_new_week(&time) {
            self.add_weekly(backup);
        } else if self.is_new_day(&time) {
            self.add_daily(backup);
        }
        proof {
            lemma_added_consistent(
                old(self).state(),
                old(self).daily_limit(),
                old(self).weekly_limit(),
                old(self).monthly_limit(),
                backup,
            );
        }
    }

    /// Clones of the items kept so far.
    pub fn get_backups(&self) -> (r: RotationPlan<T>)
        ensures
            clones_of(self.state().tiers.daily, r@.daily),
            clones_of(self.state().tiers.weekly, r@.weekly),
            clones_of(self.state().tiers.monthly, r@.monthly),
    {
        RotationPlan {
            daily: self.backups.daily.clone(),
            weekly: self.backups.weekly.clone(),
            monthly: self.backups.monthly.clone(),
        }
    }
}

/// Daily items kept by a rotation of files.
pub const FILES_DAILY_MAX: usize = 3;

/// Weekly items kept by a rotation of files.
pub const FILES_WEEKLY_MAX: usize = 2;

/// Monthly items kept by a rotation of files.
pub const FILES_MONTHLY_MAX: usize = 1;

/// The files that a rotation keeps of `files_before`, added in their order,
/// with room for three daily, two weekly and one monthly file: the daily
/// tier, then the weekly, then the monthly, each oldest first.
pub fn files_after_rotation(files_before: &Vec<File>) -> (r: Vec<File>)
    ensures
        r@ == added_all(
            RotatorState::<File>::initial(),
            FILES_DAILY_MAX as nat,
            FILES_WEEKLY_MAX as nat,
            FILES_MONTHLY_MAX as nat,
            files_before@,
        ).tiers.flattened(),
{
    let mut rotator = Rotator::<File>::new(FILES_DAILY_MAX, FILES_WEEKLY_MAX, FILES_MONTHLY_MAX);
    let mut i: usize = 0;
    while i < files_before.len()
        invariant
            i <= files_before@.len(),
            rotator.wf(),
            rotator.daily_limit() == FILES_DAILY_MAX,
            rotator.weekly_limit() == FILES_WEEKLY_MAX,
            rotator.monthly_limit() == FILES_MONTHLY_MAX,
            rotator.state() == added_all(
                RotatorState::<File>::initial(),
                FILES_DAILY_MAX as nat,
                FILES_WEEKLY_MAX as nat,
                FILES_MONTHLY_MAX as nat,
                files_before@.subrange(0, i as int),
            ),
        decreases files_before@.len() - i,
    {
        let backup = files_before[i].clone();
        rotator.add_backup(backup);
        proof {
            let next = files_before@.subrange(0, i + 1);
            assert(next.drop_last() =~= files_before@.subrange(0, i as int));
            assert(next.last() == files_before@[i as int]);
        }
        i = i + 1;
    }
    proof {
        assert(files_before@.subrange(0, i as int) =~= files_before@);
    }
    let kept = rotator.get_backups();
    let r = kept.as_vec();
    proof {
        let tiers = rotator.state().tiers;
        assert(kept@.daily =~= tiers.daily);
        assert(kept@.weekly =~= tiers.weekly);
        assert(kept@.monthly =~= tiers.monthly);
        assert(r@ =~= tiers.flattened());
    }
    r
}

/// The newest item of a non-empty tier after pushing `x` is `x`.
proof fn lemma_keep_newest_last<T>(s: Seq<T>, x: T, max: nat)
    ensures
        keep_newest(s.push(x), max).len() > 0 ==> keep_newest(s.push(x), max).last() == x,
{
    let t = s.push(x);
    if t.len() > max && max > 0 {
        assert(t.subrange(t.len() - max, t.len() as int).last() == t[t.len() - 1]);
    }
}

/// Adding an item keeps every tier within its limit and the newest monthly
/// item the latest monthly one; the tier it changes is within its limit
/// whatever it held before.
pub proof fn lemma_added_consistent<T: Dated>(s: RotatorState<T>, d: nat, w: nat, m: nat, item: T)
    ensures
        consistent(s, d, w, m) ==> consistent(added(s, d, w, m, item), d, w, m),
        added(s, d, w, m, item).tiers.monthly.len() <= m || added(s, d, w, m, item).tiers.monthly == s.tiers.monthly,
        added(s, d, w, m, item).tiers.weekly.len() <= w || added(s, d, w, m, item).tiers.weekly == s.tiers.weekly,
        added(s, d, w, m, item).tiers.daily.len() <= d || added(s, d, w, m, item).tiers.daily == s.tiers.daily,
{
    lemma_keep_newest_last(s.tiers.monthly, item, m);
}

/// Starting from nothing, after any sequence of additions every tier is
/// within its limit.
pub proof fn lemma_rotation_within_limits<T: Dated>(d: nat, w: nat, m: nat, items: Seq<T>)
    ensures
        within_limits(added_all(RotatorState::<T>::initial(), d, w, m, items).tiers, d, w, m),
        consistent(added_all(RotatorState::<T>::initial(), d, w, m, items), d, w, m),
    decreases items.len(),
{
    if items.len() > 0 {
        lemma_rotation_within_limits(d, w, m, items.drop_last());
        lemma_added_consistent(
            added_all(RotatorState::<T>::initial(), d, w, m, items.drop_last()),
            d,
            w,
            m,
            items.last(),
        );
    }
}

/// The room in the monthly tier steers nothing: under any two monthly
/// limits the same items give the same daily and weekly tiers and the same
/// latest monthly date.
pub proof fn lemma_monthly_room_steers_nothing<T: Dated>(d: nat, w: nat, m1: nat, m2: nat, items: Seq<T>)
    ensures
        added_all(RotatorState::<T>::initial(), d, w, m1, items).tiers.daily
            == added_all(RotatorState::<T>::initial(), d, w, m2, items).tiers.daily,
        added_all(RotatorState::<T>::initial(), d, w, m1, items).tiers.weekly
            == added_all(RotatorState::<T>::initial(), d, w, m2, items).tiers.weekly,
        added_all(RotatorState::<T>::initial(), d, w, m1, items).last_monthly
            == added_all(RotatorState::<T>::initial(), d, w, m2, items).last_monthly,
    decreases items.len(),
{
    if items.len() > 0 {
        lemma_monthly_room_steers_nothing(d, w, m1, m2, items.drop_last());
    }
}

/// With no room for monthly items, no monthly item is ever kept, yet every
/// item is sorted as under room for one: the daily and weekly tiers are
/// those that a monthly limit of one gives, because the item that left the
/// monthly tier still counts as the latest monthly one.
pub proof fn lemma_no_monthly_room<T: Dated>(d: nat, w: nat, items: Seq<T>)
    ensures
        added_all(RotatorState::<T>::initial(), d, w, 0, items).tiers.monthly.len() == 0,
        added_all(RotatorState::<T>::initial(), d, w, 0, items).tiers.daily
            == added_all(RotatorState::<T>::initial(), d, w, 1, items).tiers.daily,
        added_all(RotatorState::<T>::initial(), d, w, 0, items).tiers.weekly
            == added_all(RotatorState::<T>::initial(), d, w, 1, items).tiers.weekly,
{
    lemma_rotation_within_limits(d, w, 0, items);
    lemma_monthly_room_steers_nothing(d, w, 0, 1, items);
}

} // verus!
