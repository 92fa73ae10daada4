//! The ordered registry of timelines.
//!
//! The registry keeps its timelines in presentation order: ascending by
//! `sort`, with no key and no id used twice. Two neighbours change places by
//! three statements, the first of which parks the moving row on a key below
//! every key in use, so that no two rows ever share a key.

use vstd::prelude::*;
use crate::entities::server::Server;
use crate::entities::timeline::{
    names_its_list, names_list, ColumnWidth, Kind, Timeline, TimelineView,
};
use crate::text::{opt_str_view, opt_view, own_opt, str_eq};

verus! {

/// The key on which a row is parked while it changes places with its
/// neighbour. Keys in use start at 1.
pub const PARKED_SORT: i64 = -100;

/// One statement of a reordering: the row `id` gets the key `sort`.
#[derive(Clone, Copy, Debug, PartialEq, Eq, Structural)]
pub struct SortUpdate {
    pub id: i64,
    pub sort: i64,
}

/// The rows of a vector, each by its view.
pub open spec fn views(rows: Seq<Timeline>) -> Seq<TimelineView> {
    Seq::new(rows.len(), |i: int| rows[i]@)
}

/// No two rows share a sort key.
pub open spec fn distinct_sorts(rows: Seq<TimelineView>) -> bool {
    forall|i: int, j: int|
        0 <= i < rows.len() && 0 <= j < rows.len() && i != j ==> rows[i].sort != rows[j].sort
}

/// No two rows share an id.
pub open spec fn distinct_ids(rows: Seq<TimelineView>) -> bool {
    forall|i: int, j: int|
        0 <= i < rows.len() && 0 <= j < rows.len() && i != j ==> rows[i].id != rows[j].id
}

/// The rows stand in presentation order: keys start at 1 and strictly
/// ascend, and no id occurs twice.
pub open spec fn ordered(rows: Seq<TimelineView>) -> bool {
    &&& forall|i: int| 0 <= i < rows.len() ==> rows[i].sort >= 1
    &&& forall|i: int, j: int| 0 <= i < j < rows.len() ==> rows[i].sort < rows[j].sort
    &&& distinct_ids(rows)
}

/// Whether some row has this id.
pub open spec fn holds(rows: Seq<TimelineView>, id: i64) -> bool {
    exists|i: int| 0 <= i < rows.len() && rows[i].id == id
}

/// The place of the row with this id, where there is one.
pub open spec fn position(rows: Seq<TimelineView>, id: i64) -> int {
    choose|i: int| 0 <= i < rows.len() && rows[i].id == id
}

/// The rows after one statement: every row with the statement's id gets its key.
pub open spec fn apply_update(rows: Seq<TimelineView>, update: SortUpdate) -> Seq<TimelineView> {
    Seq::new(
        rows.len(),
        |i: int|
            if rows[i].id == update.id {
                rows[i].with_sort(update.sort)
            } else {
                rows[i]
            },
    )
}

/// The rows after a run of statements, first to last.
pub open spec fn apply_updates(rows: Seq<TimelineView>, plan: Seq<SortUpdate>) -> Seq<TimelineView>
    decreases plan.len(),
{
    if plan.len() == 0 {
        rows
    } else {
        apply_update(apply_updates(rows, plan.drop_last()), plan.last())
    }
}

/// The three statements by which `base` and `target` change keys: park
/// `base`, give `target` the key of `base`, give `base` the key of `target`.
pub open spec fn swap_statements(base: TimelineView, target: TimelineView) -> Seq<SortUpdate> {
    seq![
        SortUpdate { id: base.id, sort: PARKED_SORT },
        SortUpdate { id: target.id, sort: base.sort },
        SortUpdate { id: base.id, sort: target.sort },
    ]
}

/// The rows with the neighbours at `i` and `i + 1` in each other's place,
/// each under the key that belongs to its new place.
pub open spec fn swap_adjacent(rows: Seq<TimelineView>, i: int) -> Seq<TimelineView> {
    rows.update(i, rows[i + 1].with_sort(rows[i].sort)).update(
        i + 1,
        rows[i].with_sort(rows[i + 1].sort),
    )
}

/// The statements that move the row `id` one place to the left: none where
/// the row is missing or already first.
pub open spec fn left_statements(rows: Seq<TimelineView>, id: i64) -> Seq<SortUpdate> {
    if holds(rows, id) && position(rows, id) > 0 {
        swap_statements(rows[position(rows, id)], rows[position(rows, id) - 1])
    } else {
        Seq::empty()
    }
}

/// The statements that move the row `id` one place to the right: none where
/// the row is missing or already last.
pub open spec fn right_statements(rows: Seq<TimelineView>, id: i64) -> Seq<SortUpdate> {
    if holds(rows, id) && position(rows, id) + 1 < rows.len() {
        swap_statements(rows[position(rows, id)], rows[position(rows, id) + 1])
    } else {
        Seq::empty()
    }
}

/// The order after the row `id` has moved one place to the left.
pub open spec fn moved_left(rows: Seq<TimelineView>, id: i64) -> Seq<TimelineView> {
    if holds(rows, id) && position(rows, id) > 0 {
        swap_adjacent(rows, position(rows, id) - 1)
    } else {
        rows
    }
}

/// The order after the row `id` has moved one place to the right.
pub open spec fn moved_right(rows: Seq<TimelineView>, id: i64) -> Seq<TimelineView> {
    if holds(rows, id) && position(rows, id) + 1 < rows.len() {
        swap_adjacent(rows, position(rows, id))
    } else {
        rows
    }
}

/// Where ids are distinct, the place of an id is the one place that has it.
pub proof fn lemma_position_is(rows: Seq<TimelineView>, id: i64, i: int)
    requires
        distinct_ids(rows),
        0 <= i < rows.len(),
        rows[i].id == id,
    ensures
        holds(rows, id),
        position(rows, id) == i,
{
    let p = position(rows, id);
    assert(0 <= p < rows.len() && rows[p].id == id);
}

/// The place of the row with this id in an ordered run of rows.
pub fn find(rows: &Vec<Timeline>, id: i64) -> (found: Option<usize>)
    ensures
        match found {
            Some(i) => i < rows.len() && rows[i as int].id == id && forall|j: int|
                0 <= j < i ==> rows[j].id != id,
            None => !holds(views(rows@), id),
        },
{
    let mut i: usize = 0;
    while i < rows.len()
        invariant
            i <= rows.len(),
            forall|j: int| 0 <= j < i ==> rows[j].id != id,
        decreases rows.len() - i,
    {
        if rows[i].id == id {
            return Some(i);
        }
        i += 1;
    }
    None
}

/// The three statements by which `base` changes keys with `target`.
pub fn swap_plan(base: &Timeline, target: &Timeline) -> (plan: Vec<SortUpdate>)
    ensures
        plan@ == swap_statements(base@, target@),
{
    let mut plan: Vec<SortUpdate> = Vec::new();
    plan.push(SortUpdate { id: base.id, sort: PARKED_SORT });
    plan.push(SortUpdate { id: target.id, sort: base.sort });
    plan.push(SortUpdate { id: base.id, sort: target.sort });
    assert(plan@ =~= swap_statements(base@, target@));
    plan
}

/// Carries out one statement on the rows.
pub fn execute_update(rows: &mut Vec<Timeline>, update: SortUpdate)
    ensures
        views(final(rows)@) == apply_update(views(old(rows)@), update),
{
    let ghost before = views(rows@);
    let mut i: usize = 0;
    while i < rows.len()
        invariant
            i <= rows.len(),
            rows.len() == before.len(),
            forall|j: int| 0 <= j < i ==> rows[j]@ == apply_update(before, update)[j],
            forall|j: int| i <= j < rows.len() ==> rows[j]@ == before[j],
        decreases rows.len() - i,
    {
        if rows[i].id == update.id {
            let moved = rows[i].with_sort(update.sort);
            rows.set(i, moved);
        }
        i += 1;
    }
    assert(views(rows@) =~= apply_update(before, update));
}

/// Carries out a run of statements on the rows, first to last.
pub fn execute(rows: &mut Vec<Timeline>, plan: &Vec<SortUpdate>)
    ensures
        views(final(rows)@) == apply_updates(views(old(rows)@), plan@),
{
    let ghost before = views(rows@);
    let mut k: usize = 0;
    while k < plan.len()
        invariant
            k <= plan.len(),
            views(rows@) == apply_updates(before, plan@.take(k as int)),
        decreases plan.len() - k,
    {
        execute_update(rows, plan[k]);
        proof {
            assert(plan@.take(k as int + 1).drop_last() =~= plan@.take(k as int));
        }
        k += 1;
    }
    assert(plan@.take(plan.len() as int) =~= plan@);
}

/// The rows with the keys of the rows at `b` and `t` exchanged, each row in
/// its old place.
pub open spec fn keys_exchanged(rows: Seq<TimelineView>, b: int, t: int) -> Seq<TimelineView> {
    rows.update(b, rows[b].with_sort(rows[t].sort)).update(t, rows[t].with_sort(rows[b].sort))
}

/// The three statements exchange the keys of two rows and touch no other
/// row, and after each single statement no two rows share a key: the parked
/// key lies below every key in use.
pub proof fn lemma_swap_statements(rows: Seq<TimelineView>, b: int, t: int)
    requires
        ordered(rows),
        0 <= b < rows.len(),
        0 <= t < rows.len(),
        b != t,
    ensures
        distinct_sorts(apply_updates(rows, swap_statements(rows[b], rows[t]).take(1))),
        distinct_sorts(apply_updates(rows, swap_statements(rows[b], rows[t]).take(2))),
        distinct_sorts(apply_updates(rows, swap_statements(rows[b], rows[t]))),
        apply_updates(rows, swap_statements(rows[b], rows[t])) == keys_exchanged(rows, b, t),
{
    let plan = swap_statements(rows[b], rows[t]);
    let p0 = plan.take(0);
    let p1 = plan.take(1);
    let p2 = plan.take(2);
    assert(p1.drop_last() =~= p0);
    assert(p2.drop_last() =~= p1);
    assert(plan.drop_last() =~= p2);
    assert(p1.last() == plan[0]);
    assert(p2.last() == plan[1]);
    assert(plan.last() == plan[2]);
    let s0 = apply_updates(rows, p0);
    assert(s0 == rows);
    let s1 = apply_updates(rows, p1);
    assert(s1 == apply_update(s0, plan[0]));
    let s2 = apply_updates(rows, p2);
    assert(s2 == apply_update(s1, plan[1]));
    let s3 = apply_updates(rows, plan);
    assert(s3 == apply_update(s2, plan[2]));
    assert(s1 =~= rows.update(b, rows[b].with_sort(PARKED_SORT)));
    assert(s2 =~= rows.update(b, rows[b].with_sort(PARKED_SORT)).update(
        t,
        rows[t].with_sort(rows[b].sort),
    ));
    assert(s3 =~= keys_exchanged(rows, b, t));
    lemma_ordered_sorts_distinct(rows);
}

/// Exchanging the keys of two neighbours and then putting the rows back in
/// ascending order is the neighbours changing places.
pub proof fn lemma_swap_adjacent_ordered(rows: Seq<TimelineView>, i: int)
    requires
        ordered(rows),
        0 <= i,
        i + 1 < rows.len(),
    ensures
        ordered(swap_adjacent(rows, i)),
        swap_adjacent(rows, i).len() == rows.len(),
        swap_adjacent(rows, i)[i] == keys_exchanged(rows, i, i + 1)[i + 1],
        swap_adjacent(rows, i)[i + 1] == keys_exchanged(rows, i, i + 1)[i],
        forall|k: int|
            0 <= k < rows.len() ==> #[trigger] swap_adjacent(rows, i)[k].sort == rows[k].sort,
{
    let after = swap_adjacent(rows, i);
    assert forall|k: int| 0 <= k < rows.len() implies #[trigger] after[k].sort
        == rows[k].sort by {}
    assert forall|a: int, c: int| 0 <= a < after.len() && 0 <= c < after.len() && a
        != c implies after[a].id != after[c].id by {
        let pa = if a == i { i + 1 } else if a == i + 1 { i } else { a };
        let pc = if c == i { i + 1 } else if c == i + 1 { i } else { c };
        assert(after[a].id == rows[pa].id);
        assert(after[c].id == rows[pc].id);
        assert(pa != pc);
    }
}

/// Why the registry could not take another timeline.
#[derive(Clone, Copy, Debug, PartialEq, Eq, Structural)]
pub enum RegistryError {
    /// The timeline is to follow a list but names none.
    MissingListId,
    /// The last timeline already holds the greatest key there is.
    SortExhausted,
    /// Some timeline already holds the greatest id there is.
    IdExhausted,
}

/// The greatest id among the rows, and 0 where there is none above 0.
pub open spec fn greatest_id(rows: Seq<TimelineView>) -> int
    decreases rows.len(),
{
    if rows.len() == 0 {
        0
    } else if rows.last().id > greatest_id(rows.drop_last()) {
        rows.last().id as int
    } else {
        greatest_id(rows.drop_last())
    }
}

/// The key that the next timeline gets: 1 in an empty registry, else one
/// above the key of the last row.
pub open spec fn next_sort(rows: Seq<TimelineView>) -> int {
    if rows.len() == 0 {
        1
    } else {
        rows.last().sort + 1
    }
}

/// No row has an id above the greatest id.
pub proof fn lemma_greatest_id_bounds(rows: Seq<TimelineView>)
    ensures
        greatest_id(rows) >= 0,
        forall|i: int| 0 <= i < rows.len() ==> rows[i].id <= greatest_id(rows),
    decreases rows.len(),
{
    if rows.len() > 0 {
        lemma_greatest_id_bounds(rows.drop_last());
        assert forall|i: int| 0 <= i < rows.len() implies rows[i].id <= greatest_id(rows) by {
            if i < rows.len() - 1 {
                assert(rows.drop_last()[i] == rows[i]);
            }
        }
    }
}

/// The row that a new timeline becomes: its id one above the greatest id,
/// its key one above the last key, boosts and replies shown.
pub open spec fn appended_row(
    rows: Seq<TimelineView>,
    server_id: i64,
    kind: Kind,
    name: Seq<char>,
    list_id: Option<Seq<char>>,
    column_width: ColumnWidth,
) -> TimelineView {
    TimelineView {
        id: (greatest_id(rows) + 1) as i64,
        server_id,
        kind,
        name,
        sort: next_sort(rows) as i64,
        list_id,
        column_width,
        show_boosts: true,
        show_replies: true,
    }
}

/// Whether the registry can take another timeline of this kind, with or
/// without a list: the timeline names the list that its kind needs, and a
/// key and an id are left for it.
pub open spec fn can_take(rows: Seq<TimelineView>, kind: Kind, has_list: bool) -> bool {
    names_its_list(kind, has_list) && next_sort(rows) <= i64::MAX && greatest_id(rows) < i64::MAX
}

/// The rows without the row `id`.
pub open spec fn removed(rows: Seq<TimelineView>, id: i64) -> Seq<TimelineView> {
    if holds(rows, id) {
        rows.remove(position(rows, id))
    } else {
        rows
    }
}

/// The rows with the row `id` drawn at another width.
pub open spec fn resized(rows: Seq<TimelineView>, id: i64, column_width: ColumnWidth) -> Seq<
    TimelineView,
> {
    Seq::new(
        rows.len(),
        |i: int|
            if rows[i].id == id {
                rows[i].with_column_width(column_width)
            } else {
                rows[i]
            },
    )
}

/// The rows with the row `id` showing or hiding boosts.
pub open spec fn boosts_set(rows: Seq<TimelineView>, id: i64, show_boosts: bool) -> Seq<
    TimelineView,
> {
    Seq::new(
        rows.len(),
        |i: int|
            if rows[i].id == id {
                rows[i].with_show_boosts(show_boosts)
            } else {
                rows[i]
            },
    )
}

/// The rows with the row `id` showing or hiding replies.
pub open spec fn replies_set(rows: Seq<TimelineView>, id: i64, show_replies: bool) -> Seq<
    TimelineView,
> {
    Seq::new(
        rows.len(),
        |i: int|
            if rows[i].id == id {
                rows[i].with_show_replies(show_replies)
            } else {
                rows[i]
            },
    )
}

/// Whether a row is of this kind and name on this server.
pub open spec fn matches_timeline(row: TimelineView, server_id: i64, kind: Kind, name: Seq<char>) -> bool {
    row.server_id == server_id && row.kind == kind && row.name == name
}

/// The timelines in the order in which they are shown.
pub struct Registry {
    rows: Vec<Timeline>,
}

impl View for Registry {
    type V = Seq<TimelineView>;

    closed spec fn view(&self) -> Seq<TimelineView> {
        views(self.rows@)
    }
}

impl Registry {
    #[verifier::type_invariant]
    spec fn well_formed(self) -> bool {
        ordered(views(self.rows@))
    }

    /// A registry without timelines.
    pub fn new() -> (registry: Registry)
        ensures
            registry@ == Seq::<TimelineView>::empty(),
    {
        let registry = Registry { rows: Vec::new() };
        assert(registry@ =~= Seq::<TimelineView>::empty());
        registry
    }

    /// A registry of the given rows, which must stand in presentation
    /// order: keys from 1 and strictly ascending, no id twice. Rows in any
    /// other state are refused.
    pub fn from_rows(rows: Vec<Timeline>) -> (registry: Option<Registry>)
        ensures
            match registry {
                Some(made) => ordered(views(rows@)) && made@ == views(rows@),
                None => !ordered(views(rows@)),
            },
    {
        let ghost given = views(rows@);
        let mut i: usize = 0;
        while i < rows.len()
            invariant
                i <= rows.len(),
                given == views(rows@),
                forall|a: int| 0 <= a < i ==> given[a].sort >= 1,
                forall|a: int, b: int| 0 <= a < b < i ==> given[a].sort < given[b].sort,
                forall|a: int, b: int| 0 <= a < i && 0 <= b < i && a != b ==> given[a].id != given[b].id,
            decreases rows.len() - i,
        {
            if rows[i].sort < 1 {
                assert(given[i as int].sort < 1);
                return None;
            }
            if i > 0 && rows[i - 1].sort >= rows[i].sort {
                assert(!(given[i as int - 1].sort < given[i as int].sort));
                return None;
            }
            let mut j: usize = 0;
            while j < i
                invariant
                    j <= i,
                    i < rows.len(),
                    given == views(rows@),
                    forall|a: int| 0 <= a < j ==> given[a].id != given[i as int].id,
                decreases i - j,
            {
                if rows[j].id == rows[i].id {
                    assert(given[j as int].id == given[i as int].id);
                    return None;
                }
                j += 1;
            }
            i += 1;
        }
        Some(Registry { rows })
    }

    /// How many timelines there are.
    pub fn len(&self) -> (n: usize)
        ensures
            n == self@.len(),
            ordered(self@),
    {
        proof {
            use_type_invariant(self);
        }
        self.rows.len()
    }

    /// The timelines in presentation order: ascending by key, no key and no
    /// id twice.
    pub fn list(&self) -> (timelines: Vec<Timeline>)
        ensures
            views(timelines@) == self@,
            ordered(self@),
    {
        proof {
            use_type_invariant(self);
        }
        let mut timelines: Vec<Timeline> = Vec::new();
        let mut i: usize = 0;
        while i < self.rows.len()
            invariant
                i <= self.rows.len(),
                timelines@ == self.rows@.take(i as int),
            decreases self.rows.len() - i,
        {
            timelines.push(self.rows[i].clone());
            assert(timelines@ =~= self.rows@.take(i as int + 1));
            i += 1;
        }
        assert(timelines@ =~= self.rows@);
        timelines
    }

    /// The first timeline, in presentation order, of this kind and name on
    /// this server.
    pub fn get_timeline(&self, server: &Server, kind: &Kind, name: &str) -> (found: Option<Timeline>)
        ensures
            match found {
                Some(timeline) => exists|i: int|
                    0 <= i < self@.len() && self@[i] == timeline@ && matches_timeline(
                        self@[i],
                        server.id,
                        *kind,
                        name@,
                    ) && forall|j: int|
                        0 <= j < i ==> !matches_timeline(
                            #[trigger] self@[j],
                            server.id,
                            *kind,
                            name@,
                        ),
                None => forall|j: int|
                    0 <= j < self@.len() ==> !matches_timeline(
                        #[trigger] self@[j],
                        server.id,
                        *kind,
                        name@,
                    ),
            },
    {
        let mut i: usize = 0;
        while i < self.rows.len()
            invariant
                i <= self.rows.len(),
                forall|j: int|
                    0 <= j < i ==> !matches_timeline(
                        #[trigger] self@[j],
                        server.id,
                        *kind,
                        name@,
                    ),
            decreases self.rows.len() - i,
        {
            assert(self@[i as int] == self.rows[i as int]@);
            if self.rows[i].server_id == server.id && self.rows[i].kind == *kind && str_eq(
                self.rows[i].name.as_str(),
                name,
            ) {
                return Some(self.rows[i].clone());
            }
            i += 1;
        }
        None
    }

    /// The statements that move the timeline `id` one place to the left:
    /// none where it is missing or already first.
    pub fn left_plan(&self, id: i64) -> (plan: Vec<SortUpdate>)
        ensures
            plan@ == left_statements(self@, id),
    {
        proof {
            use_type_invariant(self);
        }
        match find(&self.rows, id) {
            Some(index) => {
                proof {
                    lemma_position_is(self@, id, index as int);
                }
                if index == 0 {
                    Vec::new()
                } else {
                    swap_plan(&self.rows[index], &self.rows[index - 1])
                }
            },
            None => Vec::new(),
        }
    }

    /// The statements that move the timeline `id` one place to the right:
    /// none where it is missing or already last.
    pub fn right_plan(&self, id: i64) -> (plan: Vec<SortUpdate>)
        ensures
            plan@ == right_statements(self@, id),
    {
        proof {
            use_type_invariant(self);
        }
        match find(&self.rows, id) {
            Some(index) => {
                proof {
                    lemma_position_is(self@, id, index as int);
                }
                if index + 1 >= self.rows.len() {
                    Vec::new()
                } else {
                    swap_plan(&self.rows[index], &self.rows[index + 1])
                }
            },
            None => Vec::new(),
        }
    }

    /// Moves the timeline `id` one place to the left. The first timeline,
    /// and an id that no timeline has, leave the registry as it is.
    pub fn move_left(&mut self, id: i64)
        ensures
            final(self)@ == moved_left(old(self)@, id),
            ordered(final(self)@),
    {
        proof {
            use_type_invariant(&*self);
        }
        let mut rows: Vec<Timeline> = Vec::new();
        core::mem::swap(&mut self.rows, &mut rows);
        match find(&rows, id) {
            Some(index) => {
                proof {
                    lemma_position_is(views(rows@), id, index as int);
                }
                if index > 0 {
                    change_places(&mut rows, index, index - 1);
                }
            },
            None => {},
        }
        self.rows = rows;
    }

    /// Moves the timeline `id` one place to the right. The last timeline,
    /// and an id that no timeline has, leave the registry as it is.
    pub fn move_right(&mut self, id: i64)
        ensures
            final(self)@ == moved_right(old(self)@, id),
            ordered(final(self)@),
    {
        proof {
            use_type_invariant(&*self);
        }
        let mut rows: Vec<Timeline> = Vec::new();
        core::mem::swap(&mut self.rows, &mut rows);
        match find(&rows, id) {
            Some(index) => {
                proof {
                    lemma_position_is(views(rows@), id, index as int);
                }
                if index + 1 < rows.len() {
                    change_places(&mut rows, index, index + 1);
                }
            },
            None => {},
        }
        self.rows = rows;
    }

    /// Adds a timeline behind all others and hands back what was stored.
    /// Its key is 1 in an empty registry and else one above the last key, so
    /// above every key in use. A timeline that is to follow a list and
    /// names none is refused, and nothing is added where no key or no id is
    /// left.
    pub fn append(
        &mut self,
        server: &Server,
        kind: &Kind,
        name: &str,
        list_id: Option<&str>,
        column_width: &ColumnWidth,
    ) -> (created: Result<Timeline, RegistryError>)
        ensures
            ordered(final(self)@),
            match created {
                Ok(timeline) => {
                    &&& can_take(old(self)@, *kind, list_id is Some)
                    &&& timeline@ == appended_row(
                        old(self)@,
                        server.id,
                        *kind,
                        name@,
                        opt_str_view(list_id),
                        *column_width,
                    )
                    &&& final(self)@ == old(self)@.push(timeline@)
                    &&& forall|i: int|
                        0 <= i < old(self)@.len() ==> old(self)@[i].sort < timeline.sort
                },
                Err(RegistryError::MissingListId) => {
                    &&& !names_its_list(*kind, list_id is Some)
                    &&& final(self)@ == old(self)@
                },
                Err(RegistryError::SortExhausted) => {
                    &&& names_its_list(*kind, list_id is Some)
                    &&& next_sort(old(self)@) > i64::MAX
                    &&& final(self)@ == old(self)@
                },
                Err(RegistryError::IdExhausted) => {
                    &&& names_its_list(*kind, list_id is Some)
                    &&& next_sort(old(self)@) <= i64::MAX
                    &&& greatest_id(old(self)@) >= i64::MAX
                    &&& final(self)@ == old(self)@
                },
            },
    {
        proof {
            use_type_invariant(&*self);
            lemma_greatest_id_bounds(self@);
        }
        if !names_list(*kind, list_id.is_some()) {
            return Err(RegistryError::MissingListId);
        }
        let count = self.rows.len();
        let sort: i64 = if count == 0 {
            1
        } else {
            let last = self.rows[count - 1].sort;
            if last == i64::MAX {
                return Err(RegistryError::SortExhausted);
            }
            last + 1
        };
        let greatest = greatest_id_of(&self.rows);
        if greatest == i64::MAX {
            return Err(RegistryError::IdExhausted);
        }
        let timeline = Timeline::new(
            greatest + 1,
            server.id,
            *kind,
            name.to_owned(),
            sort,
            own_opt(list_id),
            *column_width,
        );
        let stored = timeline.clone();
        let ghost before = self@;
        let mut rows: Vec<Timeline> = Vec::new();
        core::mem::swap(&mut self.rows, &mut rows);
        rows.push(stored);
        assert(views(rows@) =~= before.push(timeline@));
        self.rows = rows;
        Ok(timeline)
    }

    /// Takes the timeline `id` out. The keys of the others stay as they are.
    pub fn remove(&mut self, id: i64)
        ensures
            final(self)@ == removed(old(self)@, id),
            ordered(final(self)@),
    {
        proof {
            use_type_invariant(&*self);
        }
        let ghost before = self@;
        let mut rows: Vec<Timeline> = Vec::new();
        core::mem::swap(&mut self.rows, &mut rows);
        match find(&rows, id) {
            Some(index) => {
                proof {
                    lemma_position_is(before, id, index as int);
                }
                let _ = rows.remove(index);
                assert(views(rows@) =~= before.remove(index as int));
            },
            None => {},
        }
        self.rows = rows;
    }

    /// Draws the timeline `id` at another width. The order stays as it is.
    pub fn set_column_width(&mut self, id: i64, column_width: &ColumnWidth)
        ensures
            final(self)@ == resized(old(self)@, id, *column_width),
            ordered(final(self)@),
    {
        proof {
            use_type_invariant(&*self);
        }
        let found = find(&self.rows, id);
        proof {
            lemma_rows_changed(
                self@,
                id,
                found,
                |row: TimelineView| row.with_column_width(*column_width),
                resized(self@, id, *column_width),
            );
        }
        match found {
            Some(index) => {
                let changed = self.rows[index].with_column_width(*column_width);
                self.put(index, changed);
            },
            None => {},
        }
    }

    /// Shows or hides boosts in the timeline `id`. The order stays as it is.
    pub fn set_show_boosts(&mut self, id: i64, show_boosts: bool)
        ensures
            final(self)@ == boosts_set(old(self)@, id, show_boosts),
            ordered(final(self)@),
    {
        proof {
            use_type_invariant(&*self);
        }
        let found = find(&self.rows, id);
        proof {
            lemma_rows_changed(
                self@,
                id,
                found,
                |row: TimelineView| row.with_show_boosts(show_boosts),
                boosts_set(self@, id, show_boosts),
            );
        }
        match found {
            Some(index) => {
                let changed = self.rows[index].with_show_boosts(show_boosts);
                self.put(index, changed);
            },
            None => {},
        }
    }

    /// Shows or hides replies in the timeline `id`. The order stays as it is.
    pub fn set_show_replies(&mut self, id: i64, show_replies: bool)
        ensures
            final(self)@ == replies_set(old(self)@, id, show_replies),
            ordered(final(self)@),
    {
        proof {
            use_type_invariant(&*self);
        }
        let found = find(&self.rows, id);
        proof {
            lemma_rows_changed(
                self@,
                id,
                found,
                |row: TimelineView| row.with_show_replies(show_replies),
                replies_set(self@, id, show_replies),
            );
        }
        match found {
            Some(index) => {
                let changed = self.rows[index].with_show_replies(show_replies);
                self.put(index, changed);
            },
            None => {},
        }
    }

    /// Puts a row in the place of one with the same id and key.
    fn put(&mut self, index: usize, row: Timeline)
        requires
            index < old(self)@.len(),
            row@.id == old(self)@[index as int].id,
            row@.sort == old(self)@[index as int].sort,
        ensures
            final(self)@ == old(self)@.update(index as int, row@),
            ordered(final(self)@),
    {
        proof {
            use_type_invariant(&*self);
        }
        let ghost before = self@;
        let mut rows: Vec<Timeline> = Vec::new();
        core::mem::swap(&mut self.rows, &mut rows);
        rows.set(index, row);
        proof {
            let after = views(rows@);
            assert(after =~= before.update(index as int, row@));
            assert forall|k: int| 0 <= k < after.len() implies (#[trigger] after[k]).sort
                == before[k].sort && after[k].id == before[k].id by {}
        }
        self.rows = rows;
    }
}

/// Changing every row of one id changes one row where the ids are
/// distinct, and none where no row has the id.
proof fn lemma_rows_changed(
    rows: Seq<TimelineView>,
    id: i64,
    found: Option<usize>,
    change: spec_fn(TimelineView) -> TimelineView,
    target: Seq<TimelineView>,
)
    requires
        distinct_ids(rows),
        match found {
            Some(index) => index < rows.len() && rows[index as int].id == id,
            None => !holds(rows, id),
        },
        target.len() == rows.len(),
        forall|k: int|
            0 <= k < rows.len() ==> #[trigger] target[k] == if rows[k].id == id {
                change(rows[k])
            } else {
                rows[k]
            },
    ensures
        target == match found {
            Some(index) => rows.update(index as int, change(rows[index as int])),
            None => rows,
        },
{
    match found {
        Some(index) => {
            assert forall|k: int| 0 <= k < rows.len() implies target[k] == rows.update(
                index as int,
                change(rows[index as int]),
            )[k] by {
                if k != index {
                    assert(rows[k].id != rows[index as int].id);
                }
            }
            assert(target =~= rows.update(index as int, change(rows[index as int])));
        },
        None => {
            assert(target =~= rows);
        },
    }
}

/// Lets the row at `base` change places with its neighbour at `target`:
/// the three statements exchange their keys, and the two rows are put in
/// each other's place so that the keys ascend again.
fn change_places(rows: &mut Vec<Timeline>, base: usize, target: usize)
    requires
        ordered(views(old(rows)@)),
        base < old(rows).len(),
        target < old(rows).len(),
        base + 1 == target || target + 1 == base,
    ensures
        views(final(rows)@) == swap_adjacent(
            views(old(rows)@),
            if base < target {
                base as int
            } else {
                target as int
            },
        ),
        ordered(views(final(rows)@)),
{
    let ghost before = views(rows@);
    let low = if base < target {
        base
    } else {
        target
    };
    proof {
        lemma_swap_statements(before, base as int, target as int);
        lemma_swap_adjacent_ordered(before, low as int);
    }
    let plan = swap_plan(&rows[base], &rows[target]);
    execute(rows, &plan);
    let ghost exchanged = views(rows@);
    let ghost mid = rows@;
    assert(rows@.len() == exchanged.len());
    exchange_places(rows, low);
    proof {
        let after = swap_adjacent(before, low as int);
        assert(views(rows@).len() == after.len());
        assert forall|k: int| 0 <= k < after.len() implies views(rows@)[k] == after[k] by {
            assert(views(rows@)[k] == rows@[k]@);
            if k == low {
                assert(rows@[k] == mid[k + 1]);
                assert(mid[k + 1]@ == exchanged[k + 1]);
            } else if k == low + 1 {
                assert(rows@[k] == mid[k - 1]);
                assert(mid[k - 1]@ == exchanged[k - 1]);
            } else {
                assert(rows@[k] == mid[k]);
                assert(mid[k]@ == exchanged[k]);
            }
        }
        assert(views(rows@) =~= after);
    }
}

/// The greatest id among the rows, and 0 where there is none above 0.
fn greatest_id_of(rows: &Vec<Timeline>) -> (greatest: i64)
    ensures
        greatest == greatest_id(views(rows@)),
{
    let mut greatest: i64 = 0;
    let mut i: usize = 0;
    while i < rows.len()
        invariant
            i <= rows.len(),
            greatest == greatest_id(views(rows@).take(i as int)),
        decreases rows.len() - i,
    {
        proof {
            let next = views(rows@).take(i as int + 1);
            assert(next.drop_last() =~= views(rows@).take(i as int));
            assert(next.last() == rows[i as int]@);
        }
        if rows[i].id > greatest {
            greatest = rows[i].id;
        }
        i += 1;
    }
    assert(views(rows@).take(rows.len() as int) =~= views(rows@));
    greatest
}

/// Puts the rows at `i` and `i + 1` in each other's place.
fn exchange_places(rows: &mut Vec<Timeline>, i: usize)
    requires
        i + 1 < old(rows).len(),
    ensures
        final(rows)@ == old(rows)@.update(i as int, old(rows)@[i + 1]).update(
            i + 1,
            old(rows)@[i as int],
        ),
{
    let left = rows[i].clone();
    let right = rows[i + 1].clone();
    rows.set(i, right);
    rows.set(i + 1, left);
}

/// One change that a registry goes through.
pub enum Change {
    Append {
        server_id: i64,
        kind: Kind,
        name: Seq<char>,
        list_id: Option<Seq<char>>,
        column_width: ColumnWidth,
    },
    Remove { id: i64 },
    MoveLeft { id: i64 },
    MoveRight { id: i64 },
}

/// The rows after one change. An append that the registry cannot take
/// changes nothing.
pub open spec fn after_change(rows: Seq<TimelineView>, change: Change) -> Seq<TimelineView> {
    match change {
        Change::Append { server_id, kind, name, list_id, column_width } => {
            if can_take(rows, kind, list_id is Some) {
                rows.push(appended_row(rows, server_id, kind, name, list_id, column_width))
            } else {
                rows
            }
        },
        Change::Remove { id } => removed(rows, id),
        Change::MoveLeft { id } => moved_left(rows, id),
        Change::MoveRight { id } => moved_right(rows, id),
    }
}

/// The rows after a run of changes, first to last.
pub open spec fn after_changes(rows: Seq<TimelineView>, changes: Seq<Change>) -> Seq<TimelineView>
    decreases changes.len(),
{
    if changes.len() == 0 {
        rows
    } else {
        after_change(after_changes(rows, changes.drop_last()), changes.last())
    }
}

/// Rows in presentation order share no key.
pub proof fn lemma_ordered_sorts_distinct(rows: Seq<TimelineView>)
    requires
        ordered(rows),
    ensures
        distinct_sorts(rows),
{
    assert forall|i: int, j: int|
        0 <= i < rows.len() && 0 <= j < rows.len() && i != j implies rows[i].sort
        != rows[j].sort by {
        if i < j {
            assert(rows[i].sort < rows[j].sort);
        } else {
            assert(rows[j].sort < rows[i].sort);
        }
    }
}

/// The key of a new timeline is 1 in an empty registry and else lies above
/// every key in use.
pub proof fn lemma_next_sort_is_greatest(rows: Seq<TimelineView>)
    requires
        ordered(rows),
    ensures
        rows.len() == 0 ==> next_sort(rows) == 1,
        forall|i: int| 0 <= i < rows.len() ==> rows[i].sort < next_sort(rows),
{
    assert forall|i: int| 0 <= i < rows.len() implies rows[i].sort < next_sort(rows) by {
        if i < rows.len() - 1 {
            assert(rows[i].sort < rows[rows.len() - 1].sort);
        }
    }
}

/// One change leaves the rows in presentation order.
pub proof fn lemma_change_keeps_order(rows: Seq<TimelineView>, change: Change)
    requires
        ordered(rows),
    ensures
        ordered(after_change(rows, change)),
{
    let after = after_change(rows, change);
    match change {
        Change::Append { server_id, kind, name, list_id, column_width } => {
            if can_take(rows, kind, list_id is Some) {
                lemma_next_sort_is_greatest(rows);
                lemma_greatest_id_bounds(rows);
                let row = appended_row(rows, server_id, kind, name, list_id, column_width);
                assert(after.len() == rows.len() + 1);
                assert(after[rows.len() as int] == row);
                assert forall|i: int| 0 <= i < after.len() implies after[i].sort >= 1 by {
                    if i < rows.len() {
                        assert(after[i] == rows[i]);
                    }
                }
                assert forall|i: int, j: int| 0 <= i < j < after.len() implies after[i].sort
                    < after[j].sort by {
                    assert(after[i] == rows[i]);
                    if j < rows.len() {
                        assert(after[j] == rows[j]);
                    }
                }
                assert forall|i: int, j: int|
                    0 <= i < after.len() && 0 <= j < after.len() && i != j implies after[i].id
                    != after[j].id by {
                    if i < rows.len() {
                        assert(after[i] == rows[i]);
                    }
                    if j < rows.len() {
                        assert(after[j] == rows[j]);
                    }
                }
            }
        },
        Change::Remove { id } => {
            if holds(rows, id) {
                let p = position(rows, id);
                assert forall|i: int| 0 <= i < after.len() implies after[i].sort >= 1 by {
                    assert(after[i] == rows[if i < p { i } else { i + 1 }]);
                }
                assert forall|i: int, j: int| 0 <= i < j < after.len() implies after[i].sort
                    < after[j].sort by {
                    assert(after[i] == rows[if i < p { i } else { i + 1 }]);
                    assert(after[j] == rows[if j < p { j } else { j + 1 }]);
                }
                assert forall|i: int, j: int|
                    0 <= i < after.len() && 0 <= j < after.len() && i != j implies after[i].id
                    != after[j].id by {
                    assert(after[i] == rows[if i < p { i } else { i + 1 }]);
                    assert(after[j] == rows[if j < p { j } else { j + 1 }]);
                }
            }
        },
        Change::MoveLeft { id } => {
            if holds(rows, id) && position(rows, id) > 0 {
                lemma_swap_adjacent_ordered(rows, position(rows, id) - 1);
            }
        },
        Change::MoveRight { id } => {
            if holds(rows, id) && position(rows, id) + 1 < rows.len() {
                lemma_swap_adjacent_ordered(rows, position(rows, id));
            }
        },
    }
}

/// Whatever run of appends, removals and moves a registry goes through, its
/// rows stay in presentation order, and no two of them share a key.
pub proof fn lemma_changes_keep_order(rows: Seq<TimelineView>, changes: Seq<Change>)
    requires
        ordered(rows),
    ensures
        ordered(after_changes(rows, changes)),
        distinct_sorts(after_changes(rows, changes)),
    decreases changes.len(),
{
    if changes.len() > 0 {
        lemma_changes_keep_order(rows, changes.drop_last());
        lemma_change_keeps_order(after_changes(rows, changes.drop_last()), changes.last());
    }
    lemma_ordered_sorts_distinct(after_changes(rows, changes));
}

/// Moving the first timeline to the left, or the last one to the right,
/// leaves the order as it is.
pub proof fn lemma_moves_at_the_ends(rows: Seq<TimelineView>)
    requires
        ordered(rows),
        rows.len() > 0,
    ensures
        moved_left(rows, rows.first().id) == rows,
        moved_right(rows, rows.last().id) == rows,
        left_statements(rows, rows.first().id) == Seq::<SortUpdate>::empty(),
        right_statements(rows, rows.last().id) == Seq::<SortUpdate>::empty(),
{
    lemma_position_is(rows, rows.first().id, 0);
    lemma_position_is(rows, rows.last().id, rows.len() - 1);
}

/// Two neighbours that change places twice stand as before: moving a
/// timeline to the right and then back to the left, or moving it to the
/// right and then its old right neighbour to the right, restores the rows.
pub proof fn lemma_double_swap(rows: Seq<TimelineView>, i: int)
    requires
        ordered(rows),
        0 <= i,
        i + 1 < rows.len(),
    ensures
        moved_right(rows, rows[i].id) == swap_adjacent(rows, i),
        moved_left(moved_right(rows, rows[i].id), rows[i].id) == rows,
        moved_right(moved_right(rows, rows[i].id), rows[i + 1].id) == rows,
{
    let a = rows[i].id;
    let b = rows[i + 1].id;
    lemma_position_is(rows, a, i);
    let once = swap_adjacent(rows, i);
    lemma_swap_adjacent_ordered(rows, i);
    assert(once[i + 1].id == a);
    assert(once[i].id == b);
    lemma_position_is(once, a, i + 1);
    lemma_position_is(once, b, i);
    assert(swap_adjacent(once, i) =~= rows);
}

/// A move to the left is the move of the left neighbour to the right.
pub proof fn lemma_left_is_right_of_neighbour(rows: Seq<TimelineView>, i: int)
    requires
        ordered(rows),
        0 < i < rows.len(),
    ensures
        moved_left(rows, rows[i].id) == moved_right(rows, rows[i - 1].id),
{
    lemma_position_is(rows, rows[i].id, i);
    lemma_position_is(rows, rows[i - 1].id, i - 1);
}

/// The three statements of a move, carried out on rows in presentation
/// order and read back in ascending order of key, are the move: the two
/// rows hold each other's key, every other row is untouched, and after each
/// single statement no two rows share a key.
pub proof fn lemma_right_statements_move(rows: Seq<TimelineView>, i: int)
    requires
        ordered(rows),
        0 <= i,
        i + 1 < rows.len(),
    ensures
        right_statements(rows, rows[i].id) == swap_statements(rows[i], rows[i + 1]),
        apply_updates(rows, right_statements(rows, rows[i].id)) == keys_exchanged(rows, i, i + 1),
        distinct_sorts(apply_updates(rows, right_statements(rows, rows[i].id).take(1))),
        distinct_sorts(apply_updates(rows, right_statements(rows, rows[i].id).take(2))),
        moved_right(rows, rows[i].id)[i] == keys_exchanged(rows, i, i + 1)[i + 1],
        moved_right(rows, rows[i].id)[i + 1] == keys_exchanged(rows, i, i + 1)[i],
{
    lemma_position_is(rows, rows[i].id, i);
    lemma_swap_statements(rows, i, i + 1);
    lemma_swap_adjacent_ordered(rows, i);
}

/// Two neighbours that change places leave the rows a rearrangement of
/// what they were: as many rows as before, the same key at every place, and
/// every row still there, under its old key or that of its neighbour.
pub proof fn lemma_swap_rearranges(rows: Seq<TimelineView>, i: int)
    requires
        ordered(rows),
        0 <= i,
        i + 1 < rows.len(),
    ensures
        swap_adjacent(rows, i).len() == rows.len(),
        forall|k: int|
            0 <= k < rows.len() ==> (#[trigger] swap_adjacent(rows, i)[k]).sort == rows[k].sort,
        forall|k: int|
            0 <= k < rows.len() && k != i && k != i + 1 ==> #[trigger] swap_adjacent(rows, i)[k]
                == rows[k],
        swap_adjacent(rows, i)[i].with_sort(rows[i + 1].sort) == rows[i + 1],
        swap_adjacent(rows, i)[i + 1].with_sort(rows[i].sort) == rows[i],
{
}

} // verus!
