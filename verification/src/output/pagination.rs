//! Page bookkeeping for the Google list APIs: which items a page carries,
//! whether to ask for another page, and how many items to keep.

use vstd::prelude::*;
use crate::utils::text::clone_opt_string;

verus! {

/// One page of a Google list response. Services name the item list
/// differently (`items`, `messages`, `files`, `events`).
pub struct PagedResponse<T> {
    pub items: Vec<T>,
    pub messages: Vec<T>,
    pub files: Vec<T>,
    pub events: Vec<T>,
    pub next_page_token: Option<String>,
    pub next_sync_token: Option<String>,
    pub result_size_estimate: Option<u64>,
}

impl<T> PagedResponse<T> {
    /// The items of the page: the first non-empty of `items`, `messages`,
    /// `files` and `events`, or none.
    pub open spec fn page_items(&self) -> Seq<T> {
        if self.items@.len() > 0 {
            self.items@
        } else if self.messages@.len() > 0 {
            self.messages@
        } else if self.files@.len() > 0 {
            self.files@
        } else if self.events@.len() > 0 {
            self.events@
        } else {
            Seq::empty()
        }
    }

    /// Gets all items from the response, checking all possible field names.
    pub fn into_items(self) -> (r: Vec<T>)
        ensures
            r@ == self.page_items(),
    {
        if !self.items.is_empty() {
            self.items
        } else if !self.messages.is_empty() {
            self.messages
        } else if !self.files.is_empty() {
            self.files
        } else if !self.events.is_empty() {
            self.events
        } else {
            Vec::new()
        }
    }

    /// Whether there are more pages.
    pub fn has_more(&self) -> (b: bool)
        ensures
            b == (self.next_page_token is Some),
    {
        self.next_page_token.is_some()
    }
}

/// Where a walk through the pages stands.
pub struct PaginationState {
    /// Token of the page to fetch next.
    pub page_token: Option<String>,
    /// Items taken so far.
    pub items_fetched: usize,
    /// Most items to take (`None`: no limit).
    pub max_items: Option<usize>,
    /// Sync token for incremental sync.
    pub sync_token: Option<String>,
    /// Whether the last page has been seen.
    pub exhausted: bool,
}

impl PaginationState {
    /// Whether another page should be fetched.
    pub open spec fn continues(&self) -> bool {
        &&& !self.exhausted
        &&& match self.max_items {
            Some(max) => self.items_fetched < max,
            None => true,
        }
    }

    /// The state after a page with the given tokens has arrived: its next-page
    /// token becomes current, a sync token that it carries replaces the old
    /// one, and a page without a next-page token is the last.
    pub open spec fn after_page(&self, next_page: Option<String>, next_sync: Option<String>) -> PaginationState {
        PaginationState {
            page_token: next_page,
            items_fetched: self.items_fetched,
            max_items: self.max_items,
            sync_token: if next_sync is Some { next_sync } else { self.sync_token },
            exhausted: next_page is None,
        }
    }

    /// The state with `n` more items taken.
    pub open spec fn with_fetched(&self, n: int) -> PaginationState {
        PaginationState {
            page_token: self.page_token,
            items_fetched: (self.items_fetched + n) as usize,
            max_items: self.max_items,
            sync_token: self.sync_token,
            exhausted: self.exhausted,
        }
    }

    pub fn new() -> (s: Self)
        ensures
            s == (PaginationState {
                page_token: None,
                items_fetched: 0,
                max_items: None,
                sync_token: None,
                exhausted: false,
            }),
    {
        PaginationState {
            page_token: None,
            items_fetched: 0,
            max_items: None,
            sync_token: None,
            exhausted: false,
        }
    }

    pub fn with_max_items(self, max: usize) -> (s: Self)
        ensures
            s == (PaginationState { max_items: Some(max), ..self }),
    {
        let mut s = self;
        s.max_items = Some(max);
        s
    }

    pub fn with_sync_token(self, token: String) -> (s: Self)
        ensures
            s == (PaginationState { sync_token: Some(token), ..self }),
    {
        let mut s = self;
        s.sync_token = Some(token);
        s
    }

    /// Updates the state after receiving a page.
    pub fn update<T>(&mut self, response: &PagedResponse<T>)
        ensures
            *final(self) == old(self).after_page(response.next_page_token, response.next_sync_token),
    {
        self.page_token = clone_opt_string(&response.next_page_token);
        if response.next_sync_token.is_some() {
            self.sync_token = clone_opt_string(&response.next_sync_token);
        }
        self.exhausted = self.page_token.is_none();
    }

    /// Whether more pages should be fetched.
    pub fn should_continue(&self) -> (b: bool)
        ensures
            b == self.continues(),
    {
        if self.exhausted {
            return false;
        }
        match self.max_items {
            Some(max) => self.items_fetched < max,
            None => true,
        }
    }

    /// Adds to the count of items fetched.
    pub fn add_items(&mut self, count: usize)
        requires
            old(self).items_fetched + count <= usize::MAX,
        ensures
            *final(self) == old(self).with_fetched(count as int),
    {
        self.items_fetched = self.items_fetched + count;
    }
}

impl Default for PaginationState {
    fn default() -> (s: Self)
        ensures
            s == (PaginationState {
                page_token: None,
                items_fetched: 0,
                max_items: None,
                sync_token: None,
                exhausted: false,
            }),
    {
        PaginationState::new()
    }
}

/// Items gathered over several pages, with the tokens to go on from.
pub struct PaginatedResult<T> {
    pub items: Vec<T>,
    pub next_page_token: Option<String>,
    pub next_sync_token: Option<String>,
    pub total_fetched: usize,
}

impl<T> PaginatedResult<T> {
    pub fn new(items: Vec<T>) -> (r: Self)
        ensures
            r.items == items,
            r.next_page_token is None,
            r.next_sync_token is None,
            r.total_fetched == items@.len(),
    {
        let total = items.len();
        PaginatedResult { items, next_page_token: None, next_sync_token: None, total_fetched: total }
    }

    pub fn with_page_token(self, token: Option<String>) -> (r: Self)
        ensures
            r == (PaginatedResult { next_page_token: token, ..self }),
    {
        let mut r = self;
        r.next_page_token = token;
        r
    }

    pub fn with_sync_token(self, token: Option<String>) -> (r: Self)
        ensures
            r == (PaginatedResult { next_sync_token: token, ..self }),
    {
        let mut r = self;
        r.next_sync_token = token;
        r
    }
}

/// Auto-pagination settings taken from the command line.
pub struct PageConfig {
    pub page_all: bool,
    /// Most pages to fetch; 0 means no limit.
    pub page_limit: u32,
    /// Pause between page requests, in milliseconds.
    pub page_delay: u64,
}

impl PageConfig {
    /// Whether pagination goes on after page number `page_num` (counted from 1).
    pub open spec fn continues_after(&self, page_num: u32) -> bool {
        self.page_limit == 0 || page_num < self.page_limit
    }

    /// Returns true if pagination should continue after this page number (1-indexed).
    pub fn should_continue(&self, page_num: u32) -> (b: bool)
        ensures
            b == self.continues_after(page_num),
    {
        if self.page_limit == 0 {
            return true;
        }
        page_num < self.page_limit
    }

    /// Returns true if auto-pagination is enabled at all (only `--page-all` enables it).
    pub fn is_enabled(&self) -> (b: bool)
        ensures
            b == self.page_all,
    {
        self.page_all
    }

    /// The pause to take between two page requests, if any.
    pub fn delay_millis(&self) -> (d: Option<u64>)
        ensures
            d == (if self.page_delay > 0 { Some(self.page_delay) } else { None::<u64> }),
    {
        if self.page_delay > 0 {
            Some(self.page_delay)
        } else {
            None
        }
    }
}


/// What holds between pages while collecting: the items kept so far are
/// counted in the state, and never more than `max_items`.
pub open spec fn collecting<T>(state: PaginationState, kept: Seq<T>, max_items: Option<usize>) -> bool {
    &&& state.max_items == max_items
    &&& state.items_fetched == kept.len()
    &&& match max_items {
        Some(max) => kept.len() <= max,
        None => true,
    }
}

/// How many items of a page of `available` items are kept when `kept` are
/// already held.
pub open spec fn take_count(max_items: Option<usize>, kept: nat, available: nat) -> nat {
    match max_items {
        Some(max) => if max - kept < available { (max - kept) as nat } else { available },
        None => available,
    }
}

/// What one round of collecting does: from state `s0` with `kept` items, the
/// page `response` leaves state `s1` with the items `all`.
pub open spec fn collect_step<T>(
    s0: PaginationState,
    kept: Seq<T>,
    response: PagedResponse<T>,
    max_items: Option<usize>,
    s1: PaginationState,
    all: Seq<T>,
) -> bool {
    let k = take_count(max_items, kept.len(), response.page_items().len());
    &&& all == kept + response.page_items().take(k as int)
    &&& s1 == s0.after_page(response.next_page_token, response.next_sync_token).with_fetched(k as int)
}

/// One round of collecting all pages: takes the page's tokens into the state,
/// keeps as many of its items as `max_items` still allows, and says whether to
/// fetch another page.
pub fn collect_page<T>(
    state: &mut PaginationState,
    all_items: &mut Vec<T>,
    response: PagedResponse<T>,
    max_items: Option<usize>,
) -> (more: bool)
    requires
        collecting(*old(state), old(all_items)@, max_items),
        old(all_items)@.len() + response.page_items().len() <= usize::MAX,
    ensures
        collect_step(*old(state), old(all_items)@, response, max_items, *final(state), final(all_items)@),
        collecting(*final(state), final(all_items)@, max_items),
        more == final(state).continues(),
        response.next_page_token is None ==> !more,
{
    state.update(&response);
    let mut items = response.into_items();
    let take = match max_items {
        Some(max) => {
            let room = max - all_items.len();
            if room < items.len() { room } else { items.len() }
        },
        None => items.len(),
    };
    let ghost page = items@;
    items.truncate(take);
    assert(items@ =~= page.take(take as int));
    all_items.append(&mut items);
    state.add_items(take);
    state.should_continue()
}

/// The result of collecting: the items kept, the tokens to go on from, and
/// how many items were taken.
pub fn finish_collect<T>(state: PaginationState, all_items: Vec<T>) -> (r: PaginatedResult<T>)
    ensures
        r.items == all_items,
        r.next_page_token == state.page_token,
        r.next_sync_token == state.sync_token,
        r.total_fetched == state.items_fetched,
{
    PaginatedResult {
        items: all_items,
        next_page_token: state.page_token,
        next_sync_token: state.sync_token,
        total_fetched: state.items_fetched,
    }
}

/// What holds between pages of a stream: the state counts the items yielded
/// so far, which never exceed `max_items`.
pub open spec fn streaming(state: PaginationState, max_items: Option<usize>) -> bool {
    &&& state.max_items == max_items
    &&& match max_items {
        Some(max) => state.items_fetched <= max,
        None => true,
    }
}

/// How many items of a page of `available` items a stream yields when
/// `fetched` were yielded before.
pub open spec fn yield_count(max_items: Option<usize>, fetched: nat, available: nat) -> nat {
    take_count(max_items, fetched, available)
}

/// Whether a page overruns `max_items`: the stream then ends inside it.
pub open spec fn overruns(max_items: Option<usize>, fetched: nat, available: nat) -> bool {
    match max_items {
        Some(max) => max - fetched < available,
        None => false,
    }
}

/// What one page of a stream does: from state `s0` and the page `response`,
/// it yields `items`, says whether to go on (`more`) and leaves state `s1`.
pub open spec fn stream_step<T>(
    s0: PaginationState,
    response: PagedResponse<T>,
    max_items: Option<usize>,
    items: Seq<T>,
    more: bool,
    s1: PaginationState,
) -> bool {
    let f = s0.items_fetched as nat;
    let n = response.page_items().len();
    let y = yield_count(max_items, f, n);
    let over = overruns(max_items, f, n);
    &&& items == response.page_items().take(y as int)
    &&& s1 == s0.after_page(response.next_page_token, response.next_sync_token).with_fetched(
        if over { (y + 1) as int } else { y as int },
    )
    &&& more == (!over && s1.continues())
}

/// One page of an item stream: takes the page's tokens into the state, returns
/// the items to yield and whether the stream goes on. Each item is counted
/// before it is yielded, and the first one past `max_items` ends the stream.
pub fn stream_page<T>(
    state: &mut PaginationState,
    response: PagedResponse<T>,
    max_items: Option<usize>,
) -> (r: (Vec<T>, bool))
    requires
        streaming(*old(state), max_items),
        old(state).items_fetched + response.page_items().len() < usize::MAX,
    ensures
        stream_step(*old(state), response, max_items, r.0@, r.1, *final(state)),
        r.1 ==> streaming(*final(state), max_items),
        match max_items {
            Some(max) => old(state).items_fetched + r.0@.len() <= max,
            None => true,
        },
{
    let next_token = clone_opt_string(&response.next_page_token);
    let next_sync = clone_opt_string(&response.next_sync_token);
    let mut items = response.into_items();
    state.page_token = next_token;
    if next_sync.is_some() {
        state.sync_token = next_sync;
    }
    state.exhausted = state.page_token.is_none();
    let n = items.len();
    let (yielded, over) = match max_items {
        Some(max) => {
            let room = max - state.items_fetched;
            if room < n { (room, true) } else { (n, false) }
        },
        None => (n, false),
    };
    let ghost page = items@;
    items.truncate(yielded);
    assert(items@ =~= page.take(yielded as int));
    if over {
        state.items_fetched = state.items_fetched + yielded + 1;
        (items, false)
    } else {
        state.items_fetched = state.items_fetched + yielded;
        let more = state.should_continue();
        (items, more)
    }
}

/// Collecting keeps every item of a page while the limit allows: without a
/// limit, or where the page fits, the page is appended whole; a page that does
/// not fit fills the items up to the limit exactly.
pub proof fn collecting_keeps_pages_up_to_limit<T>(
    s0: PaginationState,
    kept: Seq<T>,
    response: PagedResponse<T>,
    max_items: Option<usize>,
    s1: PaginationState,
    all: Seq<T>,
)
    requires
        collecting(s0, kept, max_items),
        kept.len() + response.page_items().len() <= usize::MAX,
        collect_step(s0, kept, response, max_items, s1, all),
    ensures
        max_items is None ==> all == kept + response.page_items(),
        max_items matches Some(max) && kept.len() + response.page_items().len() <= max
            ==> all == kept + response.page_items(),
        max_items is Some && kept.len() + response.page_items().len() > max_items->0 ==> {
            &&& all.len() == max_items->0
            &&& all == kept + response.page_items().take(max_items->0 - kept.len())
        },
        s1.items_fetched == all.len(),
        s1.page_token == response.next_page_token,
{
    assert(response.page_items().take(response.page_items().len() as int) =~= response.page_items());
}

/// Without an item limit a stream yields every item of every page, counts
/// each one, and goes on exactly while the page names a next page.
pub proof fn unlimited_stream_yields_every_page<T>(
    s0: PaginationState,
    response: PagedResponse<T>,
    items: Seq<T>,
    more: bool,
    s1: PaginationState,
)
    requires
        streaming(s0, None),
        s0.items_fetched + response.page_items().len() < usize::MAX,
        stream_step(s0, response, None, items, more, s1),
    ensures
        items == response.page_items(),
        more == response.next_page_token is Some,
        s1.items_fetched == s0.items_fetched + response.page_items().len(),
        s1.page_token == response.next_page_token,
{
    assert(response.page_items().take(response.page_items().len() as int) =~= response.page_items());
}

/// With an item limit a stream never yields past it: a page is yielded whole
/// while it fits, and a page that does not fit is cut at the limit and ends
/// the stream.
pub proof fn limited_stream_stops_at_limit<T>(
    s0: PaginationState,
    response: PagedResponse<T>,
    max: usize,
    items: Seq<T>,
    more: bool,
    s1: PaginationState,
)
    requires
        streaming(s0, Some(max)),
        s0.items_fetched + response.page_items().len() < usize::MAX,
        stream_step(s0, response, Some(max), items, more, s1),
    ensures
        s0.items_fetched + items.len() <= max,
        s0.items_fetched + response.page_items().len() <= max ==> items == response.page_items(),
        s0.items_fetched + response.page_items().len() > max ==> {
            &&& items == response.page_items().take(max - s0.items_fetched)
            &&& !more
        },
        more ==> response.next_page_token is Some,
{
    assert(response.page_items().take(response.page_items().len() as int) =~= response.page_items());
}

/// A page without a next-page token is the last one fetched, whatever the
/// count of items taken.
pub proof fn last_page_ends_pagination(state: PaginationState, next_sync: Option<String>, n: int)
    ensures
        !state.after_page(None, next_sync).with_fetched(n).continues(),
{
}

/// With a page limit of 0 pagination never stops on the page count; with a
/// limit `l`, it stops after page `l`.
pub proof fn page_limit_bounds_pages(config: PageConfig, page_num: u32)
    ensures
        config.page_limit == 0 ==> config.continues_after(page_num),
        config.page_limit > 0 && page_num >= config.page_limit ==> !config.continues_after(page_num),
        page_num < config.page_limit ==> config.continues_after(page_num),
{
}

/// Whichever list a service fills, a page hands out its items: a page with a
/// single non-empty list gives that list, `items` first where several are
/// filled, and a page with no items gives none.
pub proof fn page_items_law<T>(page: PagedResponse<T>)
    ensures
        page.items@.len() > 0 ==> page.page_items() == page.items@,
        page.items@.len() == 0 && page.files@.len() == 0 && page.events@.len() == 0
            ==> page.page_items() == page.messages@,
        page.items@.len() == 0 && page.messages@.len() == 0 && page.events@.len() == 0
            ==> page.page_items() == page.files@,
        page.items@.len() == 0 && page.messages@.len() == 0 && page.files@.len() == 0
            ==> page.page_items() == page.events@,
{
}


/// The decision after page number `page_num` (counted from 1) of a
/// `--page-all` listing: the token to fetch the next page with, or `None`
/// to stop, at the last page or at the page limit.
pub fn next_page_token(config: &PageConfig, page_num: u32, next_token: Option<String>) -> (r: Option<String>)
    ensures
        r == (if next_token is Some && config.continues_after(page_num) { next_token } else { None::<String> }),
{
    match next_token {
        Some(t) => if config.should_continue(page_num) {
            Some(t)
        } else {
            None
        },
        None => None,
    }
}

} // verus!
