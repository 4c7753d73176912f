//! Driving the paginated fetch engine against scripted listings.

use alpaca::rest::{fetch_all, Page, Paged, Paginator, PollStep};

fn page(items: &[&str], token: Option<&str>) -> Page<String> {
    Page {
        items: items.iter().map(|s| s.to_string()).collect(),
        next_token: token.map(|t| t.to_string()),
    }
}

/// A scripted fetcher that records every invocation and refuses to be
/// invoked while a previous invocation's result is still unconsumed.
struct Stub {
    pages: Vec<Page<String>>,
    served: usize,
    outstanding: bool,
    requested: Vec<Option<String>>,
}

impl Stub {
    fn new(pages: Vec<Page<String>>) -> Stub {
        Stub { pages, served: 0, outstanding: false, requested: Vec::new() }
    }

    fn fetch(&mut self, token: Option<String>) -> Page<String> {
        assert!(
            !self.outstanding,
            "fetcher invoked while a previous result was unconsumed"
        );
        self.outstanding = true;
        self.requested.push(token);
        let p = std::mem::replace(
            &mut self.pages[self.served],
            Page { items: Vec::new(), next_token: None },
        );
        self.served += 1;
        p
    }

    fn consume(&mut self) {
        self.outstanding = false;
    }
}

/// Drives the engine to the end against the stub, returning the items.
fn drive(stub: &mut Stub) -> Vec<String> {
    let mut pag: Paginator<String> = Paginator::new();
    let mut out = Vec::new();
    loop {
        match pag.poll() {
            PollStep::Item(x) => out.push(x),
            PollStep::Fetch(token) => {
                let p = stub.fetch(token);
                let (items, next) = p.split();
                stub.consume();
                pag.resolve_ok(items, next);
            },
            PollStep::End => break,
        }
    }
    out
}

#[test]
fn no_premature_termination() {
    // Several pages of one item each: every item comes out, in page
    // order, before the sequence ends.
    let mut stub = Stub::new(vec![
        page(&["a"], Some("t1")),
        page(&["b"], Some("t2")),
        page(&["c"], Some("t3")),
        page(&["d"], None),
    ]);
    let items = drive(&mut stub);
    assert_eq!(items, vec!["a", "b", "c", "d"]);
    assert_eq!(stub.served, 4);
}

#[test]
fn single_outstanding_fetch() {
    // The stub panics if invoked while a result is unconsumed; driving a
    // multi-page listing never trips it.
    let mut stub = Stub::new(vec![
        page(&["a", "b"], Some("t1")),
        page(&[], Some("t2")),
        page(&["c"], None),
    ]);
    let items = drive(&mut stub);
    assert_eq!(items, vec!["a", "b", "c"]);
    assert!(!stub.outstanding);
}

#[test]
fn empty_page_with_token_continues() {
    // A page with no items but a token must not end the sequence: the
    // engine immediately asks for the follow-up fetch with that token.
    let mut pag: Paginator<String> = Paginator::new();
    match pag.poll() {
        PollStep::Fetch(token) => assert_eq!(token, None),
        _ => panic!("a fresh engine must ask for the first fetch"),
    }
    pag.resolve_ok(Vec::new(), Some("t1".to_string()));
    match pag.poll() {
        PollStep::Fetch(token) => assert_eq!(token.as_deref(), Some("t1")),
        PollStep::Item(_) => panic!("no item was fetched"),
        PollStep::End => panic!("an empty page with a token must not end the sequence"),
    }
}

#[test]
fn error_is_terminal() {
    // Page one succeeds, page two fails: the items of page one come out,
    // the error is surfaced once, and no further fetch is ever asked for.
    let mut pag: Paginator<String> = Paginator::new();
    let mut fetches = 0;
    match pag.poll() {
        PollStep::Fetch(token) => {
            fetches += 1;
            assert_eq!(token, None);
        },
        _ => panic!("a fresh engine must ask for the first fetch"),
    }
    pag.resolve_ok(vec!["a".to_string()], Some("t1".to_string()));
    match pag.poll() {
        PollStep::Item(x) => assert_eq!(x, "a"),
        _ => panic!("the buffered item must come out first"),
    }
    match pag.poll() {
        PollStep::Fetch(token) => {
            fetches += 1;
            assert_eq!(token.as_deref(), Some("t1"));
        },
        _ => panic!("the engine must ask for page two"),
    }
    // The fetch fails; the caller keeps the error, the engine the fact.
    pag.resolve_err();
    for _ in 0..3 {
        match pag.poll() {
            PollStep::End => {},
            _ => panic!("after a failed fetch the engine must only answer End"),
        }
    }
    assert_eq!(fetches, 2);
}

#[test]
fn three_page_run() {
    // The documented end-to-end scenario: three pages, consumed fully,
    // yield [a, b, c] then end-of-sequence, with exactly three fetches
    // using tokens None, "t1", "t2".
    let pages = vec![
        page(&["a", "b"], Some("t1")),
        page(&["c"], Some("t2")),
        page(&[], None),
    ];
    let (items, requested) = fetch_all(pages);
    assert_eq!(items, vec!["a", "b", "c"]);
    assert_eq!(requested.len(), 3);
    assert_eq!(requested[0], None);
    assert_eq!(requested[1].as_deref(), Some("t1"));
    assert_eq!(requested[2].as_deref(), Some("t2"));

    // The same run through an instrumented stub sees the same protocol.
    let mut stub = Stub::new(vec![
        page(&["a", "b"], Some("t1")),
        page(&["c"], Some("t2")),
        page(&[], None),
    ]);
    let items = drive(&mut stub);
    assert_eq!(items, vec!["a", "b", "c"]);
    assert_eq!(stub.served, 3);
    assert_eq!(stub.requested.len(), 3);
    assert_eq!(stub.requested[0], None);
    assert_eq!(stub.requested[1].as_deref(), Some("t1"));
    assert_eq!(stub.requested[2].as_deref(), Some("t2"));
}
