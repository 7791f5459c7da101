use workspace_cli::commands::tasks::list::{
    flatten_tasks, get_task_request, list_task_lists_request, list_tasks_request, ListTasksParams,
};
use workspace_cli::commands::tasks::types::Task;

fn task(id: &str, parent: Option<&str>, position: Option<&str>) -> Task {
    Task {
        id: Some(id.to_string()),
        title: Some(format!("title {}", id)),
        notes: None,
        status: None,
        due: None,
        completed: None,
        parent: parent.map(|p| p.to_string()),
        position: position.map(|p| p.to_string()),
        deleted: None,
        hidden: None,
        updated: None,
    }
}

fn ids(flat: &[(usize, &Task)]) -> Vec<(usize, String)> {
    flat.iter().map(|(d, t)| (*d, t.id.clone().unwrap())).collect()
}

#[test]
fn flatten_orders_by_position_and_nests() {
    let tasks = vec![
        task("b", None, Some("00000000000000000002")),
        task("a", None, Some("00000000000000000001")),
        task("b1", Some("b"), Some("00000000000000000001")),
        task("a2", Some("a"), Some("00000000000000000002")),
        task("a1", Some("a"), Some("00000000000000000001")),
        task("a1x", Some("a1"), None),
    ];
    let flat = flatten_tasks(&tasks);
    assert_eq!(
        ids(&flat),
        vec![
            (0, "a".to_string()),
            (1, "a1".to_string()),
            (2, "a1x".to_string()),
            (1, "a2".to_string()),
            (0, "b".to_string()),
            (1, "b1".to_string()),
        ]
    );
}

#[test]
fn flatten_skips_deleted_and_puts_unpositioned_last() {
    let mut gone = task("gone", None, Some("0"));
    gone.deleted = Some(true);
    let mut kept = task("kept", None, None);
    kept.deleted = Some(false);
    let tasks = vec![kept, gone, task("first", None, Some("9"))];
    let flat = flatten_tasks(&tasks);
    assert_eq!(ids(&flat), vec![(0, "first".to_string()), (0, "kept".to_string())]);
}

#[test]
fn flatten_keeps_input_order_for_equal_positions() {
    let tasks = vec![task("x", None, Some("5")), task("y", None, Some("5")), task("z", None, None), task("w", None, None)];
    let flat = flatten_tasks(&tasks);
    assert_eq!(
        ids(&flat),
        vec![(0, "x".to_string()), (0, "y".to_string()), (0, "z".to_string()), (0, "w".to_string())]
    );
}

#[test]
fn flatten_drops_orphans_and_stops_on_cycles() {
    let tasks = vec![task("loop", None, None), task("loop", Some("loop"), None), task("orphan", Some("none"), None)];
    let flat = flatten_tasks(&tasks);
    // The second task lists itself as a child, without end in a plain
    // recursion; the listing stops at the depth of the number of tasks.
    assert!(flat.len() <= 5);
    assert_eq!(flat[0].0, 0);
    assert!(flat.iter().all(|(_, t)| t.id.as_deref() != Some("orphan")));
}

#[test]
fn flatten_empty() {
    assert!(flatten_tasks(&[]).is_empty());
}

#[test]
fn task_requests() {
    let p = ListTasksParams::default();
    assert_eq!(p.task_list_id, "@default");
    let mut p2 = p;
    p2.show_completed = true;
    p2.page_token = Some("tok".to_string());
    let r = list_tasks_request(&p2);
    assert_eq!(r.path, "/lists/@default/tasks");
    let q: Vec<(&str, &str)> = r.query.iter().map(|(a, b)| (a.as_str(), b.as_str())).collect();
    assert_eq!(
        q,
        vec![("maxResults", "20"), ("showCompleted", "true"), ("showHidden", "false"), ("pageToken", "tok")]
    );
    let g = get_task_request("L", "T");
    assert_eq!(g.path, "/lists/L/tasks/T");
    assert!(g.query.is_empty());
    assert_eq!(list_task_lists_request().path, "/users/@me/lists");
}

#[test]
fn flatten_keeps_deleted_parent_with_children() {
    let mut a = task("a", None, Some("1"));
    a.deleted = Some(true);
    let b = task("b", Some("a"), Some("1"));
    let tasks = vec![a, b];
    assert_eq!(ids(&flatten_tasks(&tasks)), vec![(0, "a".to_string()), (1, "b".to_string())]);
}

#[test]
fn flatten_skips_hidden_leaves_but_keeps_hidden_parents() {
    let mut h = task("h", None, Some("1"));
    h.hidden = Some(true);
    let mut p = task("p", None, Some("2"));
    p.hidden = Some(true);
    let c = task("c", Some("p"), None);
    let mut d = task("d", Some("p"), None);
    d.deleted = Some(true);
    let tasks = vec![h, p, c, d];
    assert_eq!(ids(&flatten_tasks(&tasks)), vec![(0, "p".to_string()), (1, "c".to_string())]);
}
