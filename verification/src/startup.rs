//! The start-up as a whole: what the conversation of `init` makes of the
//! tables when storage behaves as `model` says.

use crate::command::{PackageRecordView, Query};
use crate::exchange::OutcomeView;
use crate::init::{
    default_catalog,
    default_settings,
    init_start,
    init_step,
    preparation,
    stocking,
    InitActionView,
    InitState,
    PREPARING,
    STOCKING,
    STORE_PATH,
};
use crate::model::{after, asks, runs, unused, Tables};
use vstd::prelude::*;

verus! {

/// The settings after the first `count` default settings were offered, in
/// their order: a default is added only where its key is missing.
pub open spec fn seeded(settings: Map<Seq<char>, Seq<char>>, count: nat) -> Map<
    Seq<char>,
    Seq<char>,
>
    decreases count,
{
    if count == 0 {
        settings
    } else {
        let before = seeded(settings, (count - 1) as nat);
        let offered = default_settings()[count - 1];
        if before.contains_key(offered.key) {
            before
        } else {
            before.insert(offered.key, offered.value)
        }
    }
}

/// Whether `packages` holds the first packages of the default catalog and
/// nothing else, under the ids `ids`.
pub open spec fn holds_catalog(packages: Map<int, PackageRecordView>, ids: Seq<int>) -> bool {
    &&& ids.no_duplicates()
    &&& ids.len() <= default_catalog().len()
    &&& packages.dom() == ids.to_set()
    &&& forall|i: int| 0 <= i < ids.len() ==> packages[#[trigger] ids[i]] == default_catalog()[i]
}

/// Whether `packages` holds the first `count` packages of the default
/// catalog, each once, and nothing else.
pub open spec fn stocked(packages: Map<int, PackageRecordView>, count: nat) -> bool {
    exists|ids: Seq<int>| ids.len() == count && #[trigger] holds_catalog(packages, ids)
}

/// Whether `after` is a store that start-up has made ready from `before`:
/// every default setting whose key was missing is added and no other
/// setting is touched; the catalog is stocked where there was no package
/// and left alone where there was one; the registrations are as they were.
pub open spec fn initialized(before: Tables, after: Tables) -> bool {
    &&& after.settings == seeded(before.settings, default_settings().len())
    &&& after.registrations == before.registrations
    &&& if before.packages.dom().is_empty() {
        stocked(after.packages, default_catalog().len())
    } else {
        after.packages == before.packages
    }
}

/// Whether `after` still holds all that `before` held: every setting with
/// its value, every package with its columns, and the same registrations.
pub open spec fn kept(before: Tables, after: Tables) -> bool {
    &&& forall|key: Seq<char>| #[trigger]
        before.settings.contains_key(key) ==> after.settings.contains_pair(
            key,
            before.settings[key],
        )
    &&& forall|id: int| #[trigger]
        before.packages.contains_key(id) ==> after.packages.contains_pair(id, before.packages[id])
    &&& after.registrations == before.registrations
}

/// One point of the start-up: the state of the conversation, what it asks
/// for next, and what the tables hold.
pub struct Moment {
    pub state: InitState,
    pub action: InitActionView,
    pub tables: Tables,
}

/// What the conversation asks for in a state that is not the end.
pub open spec fn asked_in(state: InitState) -> InitActionView {
    match state {
        InitState::Opening => InitActionView::Open(STORE_PATH@),
        InitState::Preparing(index) => InitActionView::Run(preparation()[index as int]),
        InitState::Counting => InitActionView::Ask(Query::CountPackages),
        InitState::Stocking(index) => InitActionView::Run(stocking()[index as int]),
        InitState::Ready => InitActionView::Finish,
        InitState::Failed => InitActionView::Finish,
    }
}

/// Whether storage that holds `pre` may report `outcome` on what was asked
/// for and hold `post` afterwards.  Opening and asking change nothing.
pub open spec fn performs(
    pre: Tables,
    action: InitActionView,
    outcome: OutcomeView,
    post: Tables,
) -> bool {
    match action {
        InitActionView::Open(_) => (outcome is Opened || outcome is Failed) && post == pre,
        InitActionView::Run(command) => runs(pre, command, outcome, post),
        InitActionView::Ask(query) => asks(pre, query, outcome) && post == pre,
        InitActionView::Finish => false,
        InitActionView::Abort(_) => false,
    }
}

/// Whether `next` is the point that follows `now` on the report `outcome`.
pub open spec fn follows(now: Moment, outcome: OutcomeView, next: Moment) -> bool {
    &&& performs(now.tables, now.action, outcome, next.tables)
    &&& (next.state, next.action) == init_step(now.state, outcome)
}

/// Whether the points and the reports between them are a start-up from its
/// beginning.
pub open spec fn is_startup(moments: Seq<Moment>, outcomes: Seq<OutcomeView>) -> bool {
    &&& moments.len() == outcomes.len() + 1
    &&& (moments[0].state, moments[0].action) == init_start()
    &&& forall|i: int|
        0 <= i < outcomes.len() ==> follows(moments[i], #[trigger] outcomes[i], moments[i + 1])
}

/// What the tables hold at a point of a start-up that began with `start`.
pub open spec fn reached(start: Tables, now: Moment) -> bool {
    match now.state {
        InitState::Opening => now.action == asked_in(now.state) && now.tables == start,
        InitState::Preparing(index) => {
            &&& index < preparation().len()
            &&& now.action == asked_in(now.state)
            &&& now.tables == Tables {
                settings: seeded(start.settings, if index <= 3 {
                    0
                } else {
                    (index - 3) as nat
                }),
                ..start
            }
        },
        InitState::Counting => {
            &&& now.action == asked_in(now.state)
            &&& now.tables == Tables {
                settings: seeded(start.settings, default_settings().len()),
                ..start
            }
        },
        InitState::Stocking(index) => {
            &&& index < stocking().len()
            &&& now.action == asked_in(now.state)
            &&& start.packages.dom().is_empty()
            &&& now.tables.settings == seeded(start.settings, default_settings().len())
            &&& now.tables.registrations == start.registrations
            &&& stocked(now.tables.packages, index as nat)
        },
        InitState::Ready => now.action is Finish && initialized(start, now.tables),
        InitState::Failed => now.action matches InitActionView::Abort(error) && error is Unavailable
            && kept(start, now.tables),
    }
}

/// Offering default settings takes no setting away and changes none.
pub proof fn lemma_seeded_keeps(settings: Map<Seq<char>, Seq<char>>, count: nat, key: Seq<char>)
    requires
        settings.contains_key(key),
    ensures
        seeded(settings, count).contains_pair(key, settings[key]),
    decreases count,
{
    if count > 0 {
        lemma_seeded_keeps(settings, (count - 1) as nat, key);
    }
}

/// A default setting that was offered has its key present afterwards.
pub proof fn lemma_seeded_has(settings: Map<Seq<char>, Seq<char>>, count: nat, index: int)
    requires
        0 <= index < count <= default_settings().len(),
    ensures
        seeded(settings, count).contains_key(default_settings()[index].key),
    decreases count,
{
    if index < count - 1 {
        lemma_seeded_has(settings, (count - 1) as nat, index);
    }
}

/// Offering default settings whose keys are all present changes nothing.
pub proof fn lemma_seeded_again(settings: Map<Seq<char>, Seq<char>>, count: nat)
    requires
        count <= default_settings().len(),
        forall|i: int| 0 <= i < count ==> settings.contains_key(#[trigger] default_settings()[i].key),
    ensures
        seeded(settings, count) == settings,
    decreases count,
{
    if count > 0 {
        lemma_seeded_again(settings, (count - 1) as nat);
    }
}

/// Offering default settings keeps the settings finitely many.
pub proof fn lemma_seeded_finite(settings: Map<Seq<char>, Seq<char>>, count: nat)
    requires
        settings.dom().finite(),
    ensures
        seeded(settings, count).dom().finite(),
    decreases count,
{
    if count > 0 {
        lemma_seeded_finite(settings, (count - 1) as nat);
    }
}

/// A stocked catalog has as many packages as were stocked.
pub proof fn lemma_stocked_count(packages: Map<int, PackageRecordView>, count: nat)
    requires
        stocked(packages, count),
    ensures
        packages.dom().finite(),
        packages.dom().len() == count,
{
    let ids = choose|ids: Seq<int>| ids.len() == count && #[trigger] holds_catalog(packages, ids);
    ids.unique_seq_to_set();
    vstd::seq_lib::seq_to_set_is_finite(ids);
}

/// Adding the next default package under an unused id stocks one more.
pub proof fn lemma_stocked_next(packages: Map<int, PackageRecordView>, count: nat, id: int)
    requires
        stocked(packages, count),
        count < default_catalog().len(),
        !packages.contains_key(id),
    ensures
        stocked(packages.insert(id, default_catalog()[count as int]), count + 1),
{
    let ids = choose|ids: Seq<int>| ids.len() == count && #[trigger] holds_catalog(packages, ids);
    let more = ids.push(id);
    let grown = packages.insert(id, default_catalog()[count as int]);
    assert forall|other: int| grown.dom().contains(other) <==> more.to_set().contains(other) by {
        if grown.dom().contains(other) && other != id {
            let i = choose|i: int| 0 <= i < ids.len() && ids[i] == other;
            assert(more[i] == other);
        }
        if other == id {
            assert(more[ids.len() as int] == id);
        }
    }
    assert(grown.dom() =~= more.to_set());
    assert(holds_catalog(grown, more));
}

/// What start-up has reached still holds all that the store held before.
pub proof fn lemma_reached_kept(start: Tables, now: Moment)
    requires
        reached(start, now),
    ensures
        kept(start, now.tables),
{
    assert forall|key: Seq<char>| #[trigger] start.settings.contains_key(key) implies (forall|
        count: nat,
    | #[trigger] seeded(start.settings, count).contains_pair(key, start.settings[key])) by {
        assert forall|count: nat| #[trigger]
            seeded(start.settings, count).contains_pair(key, start.settings[key]) by {
            lemma_seeded_keeps(start.settings, count, key);
        }
    }
}

/// One report takes a start-up from a point it has reached to a point it
/// has reached.
pub proof fn lemma_reached_next(start: Tables, now: Moment, outcome: OutcomeView, next: Moment)
    requires
        start.packages.dom().finite(),
        reached(start, now),
        follows(now, outcome, next),
    ensures
        reached(start, next),
{
    lemma_reached_kept(start, now);
    match now.state {
        InitState::Counting => {
            if start.packages.dom().len() == 0 {
                assert(start.packages.dom() =~= Seq::<int>::empty().to_set());
                assert(holds_catalog(start.packages, Seq::<int>::empty()));
            }
        },
        InitState::Stocking(index) => {
            let command = stocking()[index as int];
            if outcome is Changed {
                let (id, created_at) = choose|id: int, created_at: Seq<char>|
                    unused(now.tables, command, id) && next.tables == #[trigger] after(
                        now.tables,
                        command,
                        id,
                        created_at,
                    );
                lemma_stocked_next(now.tables.packages, index as nat, id);
            }
        },
        _ => {},
    }
}

/// At every point of a start-up the tables are what [`reached`] says of its
/// state: nothing that was stored is lost, and a start-up that ends ready
/// leaves the store [`initialized`].
pub proof fn law_startup(moments: Seq<Moment>, outcomes: Seq<OutcomeView>, at: int)
    requires
        is_startup(moments, outcomes),
        moments[0].tables.packages.dom().finite(),
        0 <= at < moments.len(),
    ensures
        reached(moments[0].tables, moments[at]),
        kept(moments[0].tables, moments[at].tables),
        moments[at].state is Ready ==> initialized(moments[0].tables, moments[at].tables),
    decreases at,
{
    if at > 0 {
        law_startup(moments, outcomes, at - 1);
        lemma_reached_next(moments[0].tables, moments[at - 1], outcomes[at - 1], moments[at]);
    }
    lemma_reached_kept(moments[0].tables, moments[at]);
}

/// How many reports a start-up in this state has taken at least.
pub open spec fn progress(state: InitState) -> int {
    match state {
        InitState::Opening => 0,
        InitState::Preparing(index) => 1 + index,
        InitState::Counting => 1 + PREPARING,
        InitState::Stocking(index) => 2 + PREPARING + index,
        InitState::Ready => 2 + PREPARING + STOCKING,
        InitState::Failed => 2 + PREPARING + STOCKING,
    }
}

/// A start-up ends: every report takes it further, and it takes no more
/// reports than there are things to do.
pub proof fn law_startup_ends(moments: Seq<Moment>, outcomes: Seq<OutcomeView>, at: int)
    requires
        is_startup(moments, outcomes),
        moments[0].tables.packages.dom().finite(),
        0 <= at < moments.len(),
    ensures
        at <= progress(moments[at].state) <= 2 + PREPARING + STOCKING,
        outcomes.len() <= 2 + PREPARING + STOCKING,
    decreases moments.len() - at,
{
    law_startup(moments, outcomes, at);
    if at > 0 {
        lemma_progress(moments, outcomes, at);
    }
    if at + 1 < moments.len() {
        law_startup_ends(moments, outcomes, at + 1);
    }
}

/// Every report takes a start-up further.
pub proof fn lemma_step_progress(start: Tables, now: Moment, outcome: OutcomeView, next: Moment)
    requires
        reached(start, now),
        follows(now, outcome, next),
    ensures
        progress(now.state) < progress(next.state) <= 2 + PREPARING + STOCKING,
{
}

/// Point `at` of a start-up has taken at least `at` reports.
proof fn lemma_progress(moments: Seq<Moment>, outcomes: Seq<OutcomeView>, at: int)
    requires
        is_startup(moments, outcomes),
        moments[0].tables.packages.dom().finite(),
        0 <= at < moments.len(),
    ensures
        at <= progress(moments[at].state),
    decreases at,
{
    if at > 0 {
        lemma_progress(moments, outcomes, at - 1);
        law_startup(moments, outcomes, at - 1);
        lemma_step_progress(moments[0].tables, moments[at - 1], outcomes[at - 1], moments[at]);
    }
}

/// A start-up is given up only where storage fails: as long as no report is
/// a failure and the packages are few enough to be counted, it goes on.
pub proof fn law_startup_fails_with_storage_only(
    moments: Seq<Moment>,
    outcomes: Seq<OutcomeView>,
    at: int,
)
    requires
        is_startup(moments, outcomes),
        moments[0].tables.packages.dom().finite(),
        moments[0].tables.packages.dom().len() <= i32::MAX,
        forall|i: int| 0 <= i < outcomes.len() ==> !((#[trigger] outcomes[i]) is Failed),
        0 <= at < moments.len(),
    ensures
        !(moments[at].state is Failed),
    decreases at,
{
    if at > 0 {
        law_startup_fails_with_storage_only(moments, outcomes, at - 1);
        law_startup(moments, outcomes, at - 1);
        assert(follows(moments[at - 1], outcomes[at - 1], moments[at - 1 + 1]));
    }
}

/// Start-up keeps every setting that is stored, with its value, and leaves
/// every default key present.
pub proof fn law_seeding_keeps_values(before: Tables, after: Tables)
    requires
        initialized(before, after),
    ensures
        forall|key: Seq<char>| #[trigger]
            before.settings.contains_key(key) ==> after.settings.contains_pair(
                key,
                before.settings[key],
            ),
        forall|i: int|
            0 <= i < default_settings().len() ==> after.settings.contains_key(
                #[trigger] default_settings()[i].key,
            ),
{
    let all = default_settings().len();
    assert forall|key: Seq<char>| #[trigger] before.settings.contains_key(key) implies after.settings.contains_pair(
        key,
        before.settings[key],
    ) by {
        lemma_seeded_keeps(before.settings, all, key);
    }
    assert forall|i: int| 0 <= i < default_settings().len() implies after.settings.contains_key(
        #[trigger] default_settings()[i].key,
    ) by {
        lemma_seeded_has(before.settings, all, i);
    }
}

/// A second start-up changes nothing: no setting is added or changed, no
/// package is added, no registration is touched.
pub proof fn law_startup_twice(before: Tables, once: Tables, twice: Tables)
    requires
        initialized(before, once),
        initialized(once, twice),
    ensures
        twice == once,
{
    let all = default_settings().len();
    law_seeding_keeps_values(before, once);
    lemma_seeded_again(once.settings, all);
    if before.packages.dom().is_empty() {
        lemma_stocked_count(once.packages, default_catalog().len());
    }
}

/// A start-up of a store that a start-up has made ready changes nothing: an
/// edited setting keeps its value, no key comes twice, no package is added.
pub proof fn law_second_startup(
    first: Seq<Moment>,
    first_reports: Seq<OutcomeView>,
    second: Seq<Moment>,
    second_reports: Seq<OutcomeView>,
)
    requires
        is_startup(first, first_reports),
        is_startup(second, second_reports),
        first[0].tables.packages.dom().finite(),
        first.last().state is Ready,
        second.last().state is Ready,
        second[0].tables == first.last().tables,
    ensures
        second.last().tables == first.last().tables,
{
    let before = first[0].tables;
    let once = first.last().tables;
    law_startup(first, first_reports, first.len() - 1);
    if before.packages.dom().is_empty() {
        lemma_stocked_count(once.packages, default_catalog().len());
    }
    law_startup(second, second_reports, second.len() - 1);
    law_startup_twice(before, once, second.last().tables);
}

/// Start-up stocks the catalog exactly where there is no package: an empty
/// catalog gets the default packages, each once, and a catalog with a
/// package stays as it is.
pub proof fn law_catalog_stocked_when_empty(before: Tables, after: Tables)
    requires
        initialized(before, after),
    ensures
        before.packages.dom().is_empty() ==> stocked(after.packages, default_catalog().len())
            && after.packages.dom().len() == default_catalog().len(),
        !before.packages.dom().is_empty() ==> after.packages == before.packages,
{
    if before.packages.dom().is_empty() {
        lemma_stocked_count(after.packages, default_catalog().len());
    }
}

} // verus!
