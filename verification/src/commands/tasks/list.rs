//! Listing tasks, and arranging them by their parent links.

use vstd::prelude::*;
use vstd::string::*;
use crate::client::request::{
    bool_text, bool_to_string, concat3, opt_param, push_opt_param, push_param, ApiRequest,
};
use crate::utils::text::{chars_le, chars_of, decimal, lex_le, opt_string_eq, opt_view, u64_to_decimal};
use super::types::Task;

verus! {

/// Parameters of a task listing.
pub struct ListTasksParams {
    pub task_list_id: String,
    pub max_results: u32,
    pub show_completed: bool,
    pub show_hidden: bool,
    pub page_token: Option<String>,
}

impl Default for ListTasksParams {
    fn default() -> (p: Self)
        ensures
            p.task_list_id@ == "@default"@,
            p.max_results == 20,
            !p.show_completed,
            !p.show_hidden,
            p.page_token is None,
    {
        ListTasksParams {
            task_list_id: String::from_str("@default"),
            max_results: 20,
            show_completed: false,
            show_hidden: false,
            page_token: None,
        }
    }
}

/// The query of a task listing.
pub open spec fn list_tasks_params(p: ListTasksParams) -> Seq<(Seq<char>, Seq<char>)> {
    seq![
        ("maxResults"@, decimal(p.max_results as nat)),
        ("showCompleted"@, bool_text(p.show_completed)),
        ("showHidden"@, bool_text(p.show_hidden)),
    ] + opt_param("pageToken"@, p.page_token)
}

/// The request that lists the user's task lists.
pub fn list_task_lists_request() -> (r: ApiRequest)
    ensures
        r.path@ == "/users/@me/lists"@,
        r.params() == Seq::<(Seq<char>, Seq<char>)>::empty(),
{
    ApiRequest::plain(String::from_str("/users/@me/lists"))
}

/// The request that lists the tasks of a list.
pub fn list_tasks_request(params: &ListTasksParams) -> (r: ApiRequest)
    ensures
        r.path@ == "/lists/"@ + params.task_list_id@ + "/tasks"@,
        r.params() == list_tasks_params(*params),
{
    let mut query: Vec<(String, String)> = Vec::new();
    push_param(&mut query, "maxResults", u64_to_decimal(params.max_results as u64));
    push_param(&mut query, "showCompleted", bool_to_string(params.show_completed));
    push_param(&mut query, "showHidden", bool_to_string(params.show_hidden));
    push_opt_param(&mut query, "pageToken", &params.page_token);
    let path = concat3("/lists/", params.task_list_id.as_str(), "/tasks");
    let r = ApiRequest { path, query };
    assert(r.params() =~= list_tasks_params(*params));
    r
}

/// The request that gets one task.
pub fn get_task_request(task_list_id: &str, task_id: &str) -> (r: ApiRequest)
    ensures
        r.path@ == "/lists/"@ + task_list_id@ + "/tasks/"@ + task_id@,
        r.params() == Seq::<(Seq<char>, Seq<char>)>::empty(),
{
    let mut path = concat3("/lists/", task_list_id, "/tasks/");
    path.append(task_id);
    ApiRequest::plain(path)
}

/// Whether some task of `tasks` names `t` as its parent.
pub open spec fn has_children(tasks: Seq<Task>, t: Task) -> bool {
    match opt_view(t.id) {
        Some(x) => exists|j: int| 0 <= j < tasks.len() && opt_view(#[trigger] tasks[j].parent) == Some(x),
        None => false,
    }
}

/// Whether a task is shown in a flattened listing: deleted and hidden tasks
/// are skipped unless they have children.
pub open spec fn task_shown(tasks: Seq<Task>, t: Task) -> bool {
    (t.deleted != Some(true) && t.hidden != Some(true)) || has_children(tasks, t)
}

/// The sort key of a task: its `position`, if any.
pub open spec fn task_position(t: Task) -> Option<Seq<char>> {
    opt_view(t.position)
}

/// The order in which siblings are listed: positions compare as strings, and a
/// task with a position comes before one without.
pub open spec fn position_le(a: Option<Seq<char>>, b: Option<Seq<char>>) -> bool {
    match (a, b) {
        (Some(x), Some(y)) => lex_le(x, y),
        (Some(_), None) => true,
        (None, Some(_)) => false,
        (None, None) => true,
    }
}

pub open spec fn position_lt(a: Option<Seq<char>>, b: Option<Seq<char>>) -> bool {
    !position_le(b, a)
}

/// `t` is listed directly under the parent `p` (`None`: at the top level).
pub open spec fn is_child_of(tasks: Seq<Task>, t: Task, p: Option<Seq<char>>) -> bool {
    task_shown(tasks, t) && opt_view(t.parent) == p
}

/// Indices below `n` of the shown tasks whose parent is `p`, in input order.
pub open spec fn child_indices(tasks: Seq<Task>, p: Option<Seq<char>>, n: int) -> Seq<int>
    decreases n,
{
    if n <= 0 {
        Seq::empty()
    } else if is_child_of(tasks, tasks[n - 1], p) {
        child_indices(tasks, p, n - 1).push(n - 1)
    } else {
        child_indices(tasks, p, n - 1)
    }
}

/// Inserts `i` into `sorted` before the first entry whose position is greater.
pub open spec fn insert_by_position(tasks: Seq<Task>, sorted: Seq<int>, i: int) -> Seq<int>
    decreases sorted.len(),
{
    if sorted.len() == 0 {
        seq![i]
    } else if position_lt(task_position(tasks[i]), task_position(tasks[sorted[0]])) {
        seq![i] + sorted
    } else {
        seq![sorted[0]] + insert_by_position(tasks, sorted.drop_first(), i)
    }
}

/// Stable sort of task indices by position.
pub open spec fn sort_by_position(tasks: Seq<Task>, idx: Seq<int>) -> Seq<int>
    decreases idx.len(),
{
    if idx.len() == 0 {
        Seq::empty()
    } else {
        insert_by_position(tasks, sort_by_position(tasks, idx.drop_last()), idx.last())
    }
}

/// The children of `p`, in listing order.
pub open spec fn children(tasks: Seq<Task>, p: Option<Seq<char>>) -> Seq<int> {
    sort_by_position(tasks, child_indices(tasks, p, tasks.len() as int))
}

/// Depth-first listing of the tasks `cs` and their descendants, each paired with
/// its depth. `fuel` bounds the nesting below `cs`.
pub open spec fn walk(tasks: Seq<Task>, cs: Seq<int>, depth: nat, fuel: nat) -> Seq<(nat, int)>
    decreases fuel, cs.len(),
{
    if cs.len() == 0 {
        Seq::empty()
    } else {
        let c = cs[0];
        let below = match opt_view(tasks[c].id) {
            Some(x) => if fuel > 0 {
                walk(tasks, children(tasks, Some(x)), depth + 1, (fuel - 1) as nat)
            } else {
                Seq::empty()
            },
            None => Seq::empty(),
        };
        seq![(depth, c)] + below + walk(tasks, cs.drop_first(), depth, fuel)
    }
}

/// The flattened listing: the shown top-level tasks in position order, each
/// followed by its shown descendants, one level deeper. Nesting is followed at
/// most as many levels as there are tasks, which a listing whose parent links
/// hold no cycle never reaches.
pub open spec fn flattened(tasks: Seq<Task>) -> Seq<(nat, int)> {
    walk(tasks, children(tasks, None), 0, tasks.len() as nat)
}

pub open spec fn as_ints(v: Seq<usize>) -> Seq<int> {
    v.map_values(|x: usize| x as int)
}

pub open spec fn as_entries(v: Seq<(usize, usize)>) -> Seq<(nat, int)> {
    v.map_values(|e: (usize, usize)| (e.0 as nat, e.1 as int))
}

pub open spec fn key_view(k: Option<Vec<char>>) -> Option<Seq<char>> {
    match k {
        Some(v) => Some(v@),
        None => None,
    }
}

pub open spec fn keys_match(tasks: Seq<Task>, keys: Seq<Option<Vec<char>>>) -> bool {
    &&& keys.len() == tasks.len()
    &&& forall|i: int| 0 <= i < tasks.len() ==> key_view(#[trigger] keys[i]) == task_position(tasks[i])
}

fn position_keys(tasks: &[Task]) -> (keys: Vec<Option<Vec<char>>>)
    ensures
        keys_match(tasks@, keys@),
{
    let mut keys: Vec<Option<Vec<char>>> = Vec::new();
    for i in 0..tasks.len()
        invariant
            keys@.len() == i,
            forall|j: int| 0 <= j < i ==> key_view(#[trigger] keys@[j]) == task_position(tasks@[j]),
    {
        let k = match &tasks[i].position {
            Some(p) => Some(chars_of(p.as_str())),
            None => None,
        };
        keys.push(k);
    }
    keys
}

fn position_lt_exec(
    Ghost(tasks): Ghost<Seq<Task>>,
    keys: &Vec<Option<Vec<char>>>,
    i: usize,
    j: usize,
) -> (r: bool)
    requires
        keys_match(tasks, keys@),
        i < tasks.len(),
        j < tasks.len(),
    ensures
        r == position_lt(task_position(tasks[i as int]), task_position(tasks[j as int])),
{
    assert(key_view(keys@[i as int]) == task_position(tasks[i as int]));
    assert(key_view(keys@[j as int]) == task_position(tasks[j as int]));
    let le = match (&keys[j], &keys[i]) {
        (Some(x), Some(y)) => chars_le(x, y),
        (Some(_), None) => true,
        (None, Some(_)) => false,
        (None, None) => true,
    };
    !le
}

pub open spec fn shown_match(tasks: Seq<Task>, shown: Seq<bool>) -> bool {
    &&& shown.len() == tasks.len()
    &&& forall|i: int| 0 <= i < tasks.len() ==> #[trigger] shown[i] == task_shown(tasks, tasks[i])
}

fn has_children_exec(tasks: &[Task], k: usize) -> (b: bool)
    requires
        k < tasks@.len(),
    ensures
        b == has_children(tasks@, tasks@[k as int]),
{
    if tasks[k].id.is_none() {
        return false;
    }
    let mut j: usize = 0;
    while j < tasks.len()
        invariant
            j <= tasks@.len(),
            k < tasks@.len(),
            tasks@[k as int].id is Some,
            forall|m: int| 0 <= m < j ==> opt_view(#[trigger] tasks@[m].parent) != opt_view(tasks@[k as int].id),
        decreases tasks@.len() - j,
    {
        if opt_string_eq(&tasks[j].parent, &tasks[k].id) {
            return true;
        }
        j = j + 1;
    }
    false
}

fn shown_flags(tasks: &[Task]) -> (shown: Vec<bool>)
    ensures
        shown_match(tasks@, shown@),
{
    let mut shown: Vec<bool> = Vec::new();
    for k in 0..tasks.len()
        invariant
            shown@.len() == k,
            forall|i: int| 0 <= i < k ==> #[trigger] shown@[i] == task_shown(tasks@, tasks@[i]),
    {
        let live = !matches!(tasks[k].deleted, Some(true)) && !matches!(tasks[k].hidden, Some(true));
        let b = live || has_children_exec(tasks, k);
        shown.push(b);
    }
    shown
}

fn child_indices_exec(tasks: &[Task], shown: &Vec<bool>, p: &Option<String>) -> (r: Vec<usize>)
    requires
        shown_match(tasks@, shown@),
    ensures
        as_ints(r@) == child_indices(tasks@, opt_view(*p), tasks@.len() as int),
        forall|m: int| 0 <= m < r@.len() ==> r@[m] < tasks@.len(),
{
    let mut r: Vec<usize> = Vec::new();
    for k in 0..tasks.len()
        invariant
            shown_match(tasks@, shown@),
            as_ints(r@) == child_indices(tasks@, opt_view(*p), k as int),
            forall|m: int| 0 <= m < r@.len() ==> r@[m] < tasks@.len(),
    {
        assert(shown@[k as int] == task_shown(tasks@, tasks@[k as int]));
        if shown[k] && opt_string_eq(&tasks[k].parent, p) {
            r.push(k);
            assert(as_ints(r@) =~= child_indices(tasks@, opt_view(*p), k as int).push(k as int));
        }
    }
    r
}

proof fn lemma_insert_at(tasks: Seq<Task>, s: Seq<int>, i: int, j: int)
    requires
        0 <= j <= s.len(),
        forall|k: int| 0 <= k < j ==> !position_lt(task_position(tasks[i]), task_position(#[trigger] tasks[s[k]])),
        j < s.len() ==> position_lt(task_position(tasks[i]), task_position(tasks[s[j]])),
    ensures
        insert_by_position(tasks, s, i) == s.insert(j, i),
    decreases s.len(),
{
    if s.len() == 0 {
        assert(s.insert(j, i) =~= seq![i]);
    } else if j == 0 {
        assert(s.insert(j, i) =~= seq![i] + s);
    } else {
        assert(!position_lt(task_position(tasks[i]), task_position(tasks[s[0]])));
        let t = s.drop_first();
        assert forall|k: int| 0 <= k < j - 1 implies !position_lt(task_position(tasks[i]), task_position(#[trigger] tasks[t[k]])) by {
            assert(t[k] == s[k + 1]);
        }
        lemma_insert_at(tasks, t, i, j - 1);
        assert(s.insert(j, i) =~= seq![s[0]] + t.insert(j - 1, i));
    }
}

fn children_exec(
    tasks: &[Task],
    keys: &Vec<Option<Vec<char>>>,
    shown: &Vec<bool>,
    p: &Option<String>,
) -> (r: Vec<usize>)
    requires
        keys_match(tasks@, keys@),
        shown_match(tasks@, shown@),
    ensures
        as_ints(r@) == children(tasks@, opt_view(*p)),
        forall|m: int| 0 <= m < r@.len() ==> r@[m] < tasks@.len(),
{
    let filtered = child_indices_exec(tasks, shown, p);
    let ghost idx = as_ints(filtered@);
    let mut sorted: Vec<usize> = Vec::new();
    for k in 0..filtered.len()
        invariant
            keys_match(tasks@, keys@),
            idx == as_ints(filtered@),
            forall|m: int| 0 <= m < filtered@.len() ==> filtered@[m] < tasks@.len(),
            forall|m: int| 0 <= m < sorted@.len() ==> sorted@[m] < tasks@.len(),
            as_ints(sorted@) == sort_by_position(tasks@, idx.take(k as int)),
    {
        let x = filtered[k];
        let mut j: usize = 0;
        while j < sorted.len() && !position_lt_exec(Ghost(tasks@), keys, x, sorted[j])
            invariant
                keys_match(tasks@, keys@),
                x < tasks@.len(),
                j <= sorted@.len(),
                forall|m: int| 0 <= m < sorted@.len() ==> sorted@[m] < tasks@.len(),
                forall|m: int| 0 <= m < j ==> !position_lt(task_position(tasks@[x as int]), task_position(#[trigger] tasks@[as_ints(sorted@)[m]])),
            decreases sorted@.len() - j,
        {
            j = j + 1;
        }
        proof {
            lemma_insert_at(tasks@, as_ints(sorted@), x as int, j as int);
            assert(idx.take(k + 1).drop_last() =~= idx.take(k as int));
            assert(idx.take(k + 1).last() == x as int);
        }
        let ghost prev = sorted@;
        sorted.insert(j, x);
        assert(as_ints(sorted@) =~= as_ints(prev).insert(j as int, x as int));
    }
    assert(idx.take(filtered@.len() as int) =~= idx);
    sorted
}


proof fn lemma_entries_push(v: Seq<(usize, usize)>, e: (usize, usize))
    ensures
        as_entries(v.push(e)) == as_entries(v).push((e.0 as nat, e.1 as int)),
{
    assert(as_entries(v.push(e)) =~= as_entries(v).push((e.0 as nat, e.1 as int)));
}

fn walk_exec(
    tasks: &[Task],
    keys: &Vec<Option<Vec<char>>>,
    shown: &Vec<bool>,
    cs: &Vec<usize>,
    start: usize,
    depth: usize,
    fuel: usize,
    out: &mut Vec<(usize, usize)>,
)
    requires
        keys_match(tasks@, keys@),
        shown_match(tasks@, shown@),
        forall|m: int| 0 <= m < cs@.len() ==> cs@[m] < tasks@.len(),
        start <= cs@.len(),
        depth + fuel <= tasks@.len(),
        forall|m: int| 0 <= m < old(out)@.len() ==> old(out)@[m].1 < tasks@.len(),
    ensures
        forall|m: int| 0 <= m < final(out)@.len() ==> final(out)@[m].1 < tasks@.len(),
        as_entries(final(out)@) == as_entries(old(out)@) + walk(
            tasks@,
            as_ints(cs@).skip(start as int),
            depth as nat,
            fuel as nat,
        ),
    decreases fuel, cs@.len() - start,
{
    let ghost s = as_ints(cs@).skip(start as int);
    if start >= cs.len() {
        assert(s.len() == 0);
        assert(as_entries(out@) =~= as_entries(out@) + walk(tasks@, s, depth as nat, fuel as nat));
        return;
    }
    let c = cs[start];
    assert(s[0] == c as int);
    let ghost before = out@;
    out.push((depth, c));
    proof {
        lemma_entries_push(before, (depth, c));
    }
    let ghost mid = out@;
    let ghost below: Seq<(nat, int)> = match opt_view(tasks@[c as int].id) {
        Some(x) => if fuel > 0 {
            walk(tasks@, children(tasks@, Some(x)), (depth + 1) as nat, (fuel - 1) as nat)
        } else {
            Seq::empty()
        },
        None => Seq::empty(),
    };
    match &tasks[c].id {
        Some(x) => {
            if fuel > 0 {
                let p = Some(x.clone());
                let sub = children_exec(tasks, keys, shown, &p);
                assert(as_ints(sub@).skip(0) =~= as_ints(sub@));
                walk_exec(tasks, keys, shown, &sub, 0, depth + 1, fuel - 1, out);
            } else {
                assert(as_entries(out@) =~= as_entries(mid) + below);
            }
        },
        None => {
            assert(as_entries(out@) =~= as_entries(mid) + below);
        },
    }
    let ghost after_below = out@;
    assert(as_entries(after_below) == as_entries(mid) + below);
    assert(as_ints(cs@).skip(start + 1) =~= s.drop_first());
    walk_exec(tasks, keys, shown, cs, start + 1, depth, fuel, out);
    assert(walk(tasks@, s, depth as nat, fuel as nat) == seq![(depth as nat, c as int)] + below
        + walk(tasks@, s.drop_first(), depth as nat, fuel as nat));
    assert(as_entries(out@) =~= as_entries(before) + walk(tasks@, s, depth as nat, fuel as nat));
}

/// Arranges tasks for display: the shown tasks (deleted and hidden ones only
/// where they have children), top-level ones first in position order, each followed by its descendants, each paired with
/// its depth (0 at the top level).
pub fn flatten_tasks<'a>(tasks: &'a [Task]) -> (r: Vec<(usize, &'a Task)>)
    ensures
        r@.len() == flattened(tasks@).len(),
        forall|k: int|
            0 <= k < r@.len() ==> {
                &&& #[trigger] r@[k].0 as nat == flattened(tasks@)[k].0
                &&& 0 <= flattened(tasks@)[k].1 < tasks@.len()
                &&& *r@[k].1 == tasks@[flattened(tasks@)[k].1]
            },
{
    let keys = position_keys(tasks);
    let shown = shown_flags(tasks);
    let roots = children_exec(tasks, &keys, &shown, &None);
    let mut entries: Vec<(usize, usize)> = Vec::new();
    assert(as_ints(roots@).skip(0) =~= as_ints(roots@));
    walk_exec(tasks, &keys, &shown, &roots, 0, 0, tasks.len(), &mut entries);
    assert(as_entries(entries@) =~= flattened(tasks@));
    let mut r: Vec<(usize, &'a Task)> = Vec::new();
    let mut k: usize = 0;
    while k < entries.len()
        invariant
            as_entries(entries@) == flattened(tasks@),
            k <= entries@.len(),
            r@.len() == k,
            forall|m: int| 0 <= m < entries@.len() ==> entries@[m].1 < tasks@.len(),
            forall|m: int|
                0 <= m < k ==> (#[trigger] r@[m]).0 == entries@[m].0 && *r@[m].1 == tasks@[entries@[m].1 as int],
        decreases entries@.len() - k,
    {
        let (d, i) = entries[k];
        let ghost prev = r@;
        r.push((d, &tasks[i]));
        assert forall|m: int| 0 <= m < k + 1 implies (#[trigger] r@[m]).0 == entries@[m].0 && *r@[m].1 == tasks@[entries@[m].1 as int] by {
            if m < k {
                assert(r@[m] == prev[m]);
            }
        }
        k = k + 1;
    }
    assert forall|k: int| 0 <= k < r@.len() implies {
        &&& #[trigger] r@[k].0 as nat == flattened(tasks@)[k].0
        &&& 0 <= flattened(tasks@)[k].1 < tasks@.len()
        &&& *r@[k].1 == tasks@[flattened(tasks@)[k].1]
    } by {
        assert(flattened(tasks@)[k] == as_entries(entries@)[k]);
        assert(r@[k].0 == entries@[k].0);
    }
    r
}


proof fn lemma_insert_members(tasks: Seq<Task>, sorted: Seq<int>, i: int)
    ensures
        forall|x: int| #[trigger] insert_by_position(tasks, sorted, i).contains(x) ==> x == i || sorted.contains(x),
    decreases sorted.len(),
{
    if sorted.len() > 0 && !position_lt(task_position(tasks[i]), task_position(tasks[sorted[0]])) {
        lemma_insert_members(tasks, sorted.drop_first(), i);
        assert forall|x: int| #[trigger] insert_by_position(tasks, sorted, i).contains(x) implies x == i || sorted.contains(x) by {
            let r = insert_by_position(tasks, sorted, i);
            let k = choose|k: int| 0 <= k < r.len() && r[k] == x;
            if k > 0 {
                assert(insert_by_position(tasks, sorted.drop_first(), i)[k - 1] == x);
                assert(insert_by_position(tasks, sorted.drop_first(), i).contains(x));
                if x != i {
                    let m = choose|m: int| 0 <= m < sorted.drop_first().len() && sorted.drop_first()[m] == x;
                    assert(sorted[m + 1] == x);
                }
            } else {
                assert(sorted[0] == x);
            }
        }
    } else if sorted.len() > 0 {
        assert forall|x: int| #[trigger] insert_by_position(tasks, sorted, i).contains(x) implies x == i || sorted.contains(x) by {
            let r = insert_by_position(tasks, sorted, i);
            let k = choose|k: int| 0 <= k < r.len() && r[k] == x;
            if k > 0 {
                assert(sorted[k - 1] == x);
            }
        }
    }
}

proof fn lemma_sort_members(tasks: Seq<Task>, idx: Seq<int>)
    ensures
        forall|x: int| #[trigger] sort_by_position(tasks, idx).contains(x) ==> idx.contains(x),
    decreases idx.len(),
{
    if idx.len() > 0 {
        lemma_sort_members(tasks, idx.drop_last());
        lemma_insert_members(tasks, sort_by_position(tasks, idx.drop_last()), idx.last());
        assert forall|x: int| #[trigger] sort_by_position(tasks, idx).contains(x) implies idx.contains(x) by {
            if x == idx.last() {
                assert(idx[idx.len() - 1] == x);
            } else {
                assert(idx.drop_last().contains(x));
                let m = choose|m: int| 0 <= m < idx.drop_last().len() && idx.drop_last()[m] == x;
                assert(idx[m] == x);
            }
        }
    }
}

proof fn lemma_child_indices_members(tasks: Seq<Task>, p: Option<Seq<char>>, n: int)
    requires
        n <= tasks.len(),
    ensures
        forall|x: int| #[trigger] child_indices(tasks, p, n).contains(x) ==> 0 <= x < n && is_child_of(tasks, tasks[x], p),
    decreases n,
{
    if n > 0 {
        lemma_child_indices_members(tasks, p, n - 1);
        assert forall|x: int| #[trigger] child_indices(tasks, p, n).contains(x) implies 0 <= x < n && is_child_of(tasks, tasks[x], p) by {
            let prev = child_indices(tasks, p, n - 1);
            if is_child_of(tasks, tasks[n - 1], p) && x != n - 1 {
                let q = prev.push(n - 1);
                let k = choose|k: int| 0 <= k < q.len() && #[trigger] q[k] == x;
                assert(prev[k] == x);
                assert(prev.contains(x));
            }
        }
    }
}

/// The children of `p` are shown tasks whose parent is `p`.
pub proof fn children_are_children(tasks: Seq<Task>, p: Option<Seq<char>>)
    ensures
        forall|x: int| #[trigger] children(tasks, p).contains(x) ==> 0 <= x < tasks.len() && is_child_of(tasks, tasks[x], p),
{
    lemma_sort_members(tasks, child_indices(tasks, p, tasks.len() as int));
    lemma_child_indices_members(tasks, p, tasks.len() as int);
}

proof fn lemma_walk_shown(tasks: Seq<Task>, cs: Seq<int>, depth: nat, fuel: nat)
    requires
        forall|m: int| 0 <= m < cs.len() ==> 0 <= #[trigger] cs[m] < tasks.len() && task_shown(tasks, tasks[cs[m]]),
    ensures
        forall|k: int| 0 <= k < walk(tasks, cs, depth, fuel).len() ==> {
            let e = #[trigger] walk(tasks, cs, depth, fuel)[k];
            &&& 0 <= e.1 < tasks.len()
            &&& task_shown(tasks, tasks[e.1])
            &&& e.0 >= depth
        },
    decreases fuel, cs.len(),
{
    if cs.len() > 0 {
        let c = cs[0];
        let w = walk(tasks, cs, depth, fuel);
        let rest = walk(tasks, cs.drop_first(), depth, fuel);
        lemma_walk_shown(tasks, cs.drop_first(), depth, fuel);
        let below = match opt_view(tasks[c].id) {
            Some(x) => if fuel > 0 {
                walk(tasks, children(tasks, Some(x)), depth + 1, (fuel - 1) as nat)
            } else {
                Seq::empty()
            },
            None => Seq::empty(),
        };
        match opt_view(tasks[c].id) {
            Some(x) => if fuel > 0 {
                children_are_children(tasks, Some(x));
                let ch = children(tasks, Some(x));
                assert forall|m: int| 0 <= m < ch.len() implies 0 <= #[trigger] ch[m] < tasks.len() && task_shown(tasks, tasks[ch[m]]) by {
                    assert(ch.contains(ch[m]));
                }
                lemma_walk_shown(tasks, ch, depth + 1, (fuel - 1) as nat);
            },
            None => {},
        }
        assert(w == seq![(depth, c)] + below + rest);
        assert forall|k: int| 0 <= k < w.len() implies {
            let e = #[trigger] w[k];
            &&& 0 <= e.1 < tasks.len()
            &&& task_shown(tasks, tasks[e.1])
            &&& e.0 >= depth
        } by {
            if k == 0 {
            } else if k < 1 + below.len() {
                assert(w[k] == below[k - 1]);
            } else {
                assert(w[k] == rest[k - 1 - below.len()]);
            }
        }
    }
}

/// A flattened listing holds only shown tasks (a deleted or hidden task only
/// where it has children), and lists the top-level tasks at depth 0 with no
/// parent.
pub proof fn flattened_tasks_are_shown(tasks: Seq<Task>)
    ensures
        forall|k: int| 0 <= k < flattened(tasks).len() ==> {
            let e = #[trigger] flattened(tasks)[k];
            &&& 0 <= e.1 < tasks.len()
            &&& task_shown(tasks, tasks[e.1])
        },
        forall|k: int| 0 <= k < flattened(tasks).len() && (#[trigger] flattened(tasks)[k]).0 == 0
            ==> tasks[flattened(tasks)[k].1].parent is None,
{
    children_are_children(tasks, None);
    let roots = children(tasks, None);
    assert forall|m: int| 0 <= m < roots.len() implies 0 <= #[trigger] roots[m] < tasks.len() && task_shown(tasks, tasks[roots[m]]) by {
        assert(roots.contains(roots[m]));
    }
    lemma_walk_shown(tasks, roots, 0, tasks.len() as nat);
    assert forall|m: int| 0 <= m < roots.len() implies 0 <= #[trigger] roots[m] < tasks.len() && tasks[roots[m]].parent is None by {
        assert(roots.contains(roots[m]));
        assert(opt_view(tasks[roots[m]].parent) == None::<Seq<char>>);
    }
    lemma_walk_roots(tasks, roots, tasks.len() as nat);
}

proof fn lemma_walk_roots(tasks: Seq<Task>, cs: Seq<int>, fuel: nat)
    requires
        forall|m: int| 0 <= m < cs.len() ==> 0 <= #[trigger] cs[m] < tasks.len() && tasks[cs[m]].parent is None,
    ensures
        forall|k: int| 0 <= k < walk(tasks, cs, 0, fuel).len() && (#[trigger] walk(tasks, cs, 0, fuel)[k]).0 == 0
            ==> tasks[walk(tasks, cs, 0, fuel)[k].1].parent is None,
    decreases cs.len(),
{
    if cs.len() > 0 {
        let c = cs[0];
        let w = walk(tasks, cs, 0, fuel);
        let rest = walk(tasks, cs.drop_first(), 0, fuel);
        lemma_walk_roots(tasks, cs.drop_first(), fuel);
        let below = match opt_view(tasks[c].id) {
            Some(x) => if fuel > 0 {
                walk(tasks, children(tasks, Some(x)), 1, (fuel - 1) as nat)
            } else {
                Seq::empty()
            },
            None => Seq::empty(),
        };
        match opt_view(tasks[c].id) {
            Some(x) => if fuel > 0 {
                children_are_children(tasks, Some(x));
                let ch = children(tasks, Some(x));
                assert forall|m: int| 0 <= m < ch.len() implies 0 <= #[trigger] ch[m] < tasks.len() && task_shown(tasks, tasks[ch[m]]) by {
                    assert(ch.contains(ch[m]));
                }
                lemma_walk_shown(tasks, ch, 1, (fuel - 1) as nat);
            },
            None => {},
        }
        assert(w == seq![(0nat, c)] + below + rest);
        assert forall|k: int| 0 <= k < w.len() && (#[trigger] w[k]).0 == 0 implies tasks[w[k].1].parent is None by {
            if k == 0 {
            } else if k < 1 + below.len() {
                assert(w[k] == below[k - 1]);
            } else {
                assert(w[k] == rest[k - 1 - below.len()]);
            }
        }
    }
}

} // verus!
