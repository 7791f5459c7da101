use workspace_cli::output::pagination::{
    collect_page, finish_collect, stream_page, PageConfig, PagedResponse, PaginatedResult,
    PaginationState,
};

fn page(items: Vec<u32>, next: Option<&str>, sync: Option<&str>) -> PagedResponse<u32> {
    PagedResponse {
        items,
        messages: Vec::new(),
        files: Vec::new(),
        events: Vec::new(),
        next_page_token: next.map(|s| s.to_string()),
        next_sync_token: sync.map(|s| s.to_string()),
        result_size_estimate: None,
    }
}

#[test]
fn into_items_takes_first_nonempty_list() {
    let mut p = page(Vec::new(), None, None);
    p.files = vec![3, 4];
    p.events = vec![9];
    assert_eq!(p.into_items(), vec![3, 4]);
    let mut q = page(vec![1], None, None);
    q.messages = vec![2];
    assert_eq!(q.into_items(), vec![1]);
    let r = page(Vec::new(), None, None);
    assert!(r.into_items().is_empty());
}

#[test]
fn has_more_follows_next_token() {
    assert!(page(vec![], Some("t"), None).has_more());
    assert!(!page(vec![], None, None).has_more());
}

#[test]
fn state_update_and_continue() {
    let mut s = PaginationState::new().with_max_items(5).with_sync_token("old".to_string());
    assert!(s.should_continue());
    s.update(&page(vec![1, 2], Some("p2"), None));
    assert_eq!(s.page_token.as_deref(), Some("p2"));
    assert_eq!(s.sync_token.as_deref(), Some("old"));
    assert!(!s.exhausted);
    s.add_items(5);
    assert!(!s.should_continue());
    let mut t = PaginationState::default();
    t.update(&page(vec![], None, Some("sync")));
    assert!(t.exhausted);
    assert_eq!(t.sync_token.as_deref(), Some("sync"));
    assert!(!t.should_continue());
}

#[test]
fn collect_respects_max_items() {
    let mut state = PaginationState::new().with_max_items(3);
    let mut all: Vec<u32> = Vec::new();
    let more = collect_page(&mut state, &mut all, page(vec![1, 2], Some("a"), None), Some(3));
    assert!(more);
    let more = collect_page(&mut state, &mut all, page(vec![3, 4, 5], Some("b"), Some("s")), Some(3));
    assert!(!more);
    assert_eq!(all, vec![1, 2, 3]);
    let result = finish_collect(state, all);
    assert_eq!(result.total_fetched, 3);
    assert_eq!(result.next_page_token.as_deref(), Some("b"));
    assert_eq!(result.next_sync_token.as_deref(), Some("s"));
}

#[test]
fn collect_stops_on_last_page() {
    let mut state = PaginationState::new();
    let mut all: Vec<u32> = Vec::new();
    assert!(collect_page(&mut state, &mut all, page(vec![1], Some("a"), None), None));
    assert!(!collect_page(&mut state, &mut all, page(vec![2, 3], None, None), None));
    assert_eq!(all, vec![1, 2, 3]);
}

#[test]
fn stream_ends_past_max_items() {
    let mut state = PaginationState::new().with_max_items(3);
    let (items, more) = stream_page(&mut state, page(vec![1, 2], Some("a"), None), Some(3));
    assert_eq!(items, vec![1, 2]);
    assert!(more);
    let (items, more) = stream_page(&mut state, page(vec![3, 4, 5], Some("b"), None), Some(3));
    assert_eq!(items, vec![3]);
    assert!(!more);
    assert_eq!(state.items_fetched, 4);
}

#[test]
fn stream_with_exact_fill_stops() {
    let mut state = PaginationState::new().with_max_items(2);
    let (items, more) = stream_page(&mut state, page(vec![1, 2], Some("a"), None), Some(2));
    assert_eq!(items, vec![1, 2]);
    assert!(!more);
    assert_eq!(state.items_fetched, 2);
}

#[test]
fn page_config_limits() {
    let unlimited = PageConfig { page_all: true, page_limit: 0, page_delay: 0 };
    assert!(unlimited.should_continue(1000));
    assert!(unlimited.is_enabled());
    assert_eq!(unlimited.delay_millis(), None);
    let limited = PageConfig { page_all: false, page_limit: 2, page_delay: 100 };
    assert!(limited.should_continue(1));
    assert!(!limited.should_continue(2));
    assert!(!limited.is_enabled());
    assert_eq!(limited.delay_millis(), Some(100));
}

#[test]
fn paginated_result_builders() {
    let r = PaginatedResult::new(vec![1, 2, 3])
        .with_page_token(Some("n".to_string()))
        .with_sync_token(None);
    assert_eq!(r.total_fetched, 3);
    assert_eq!(r.items, vec![1, 2, 3]);
    assert_eq!(r.next_page_token.as_deref(), Some("n"));
    assert!(r.next_sync_token.is_none());
}
