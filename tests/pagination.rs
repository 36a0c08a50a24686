use travis_migrate::link::{next_link, next_of_links, LinkTarget};
use travis_migrate::pagination::{PageEvent, Walk, WalkPhase};

struct FakePage {
    url: String,
    ok: bool,
    next: Option<String>,
    item: u32,
}

fn chain(n: usize) -> Vec<FakePage> {
    (0..n)
        .map(|i| FakePage {
            url: format!("https://example.com/p{}", i),
            ok: true,
            next: if i + 1 < n { Some(format!("https://example.com/p{}", i + 1)) } else { None },
            item: i as u32,
        })
        .collect()
}

/// Drives a walk against the fake pages; returns the delivered items, the
/// number of requests made, and how the walk ended.
fn drive(pages: &[FakePage]) -> (Vec<u32>, usize, WalkPhase) {
    let mut walk = Walk::start(pages[0].url.clone());
    let mut delivered = Vec::new();
    let mut requests = 0;
    while let Some(url) = walk.next_request() {
        requests += 1;
        let page = pages.iter().find(|p| p.url == url).expect("unknown page");
        let event = if page.ok {
            PageEvent::Page { next: page.next.clone() }
        } else {
            PageEvent::Failed
        };
        if walk.on_page(event) {
            delivered.push(page.item);
        }
    }
    (delivered, requests, walk.phase())
}

#[test]
fn chained_pages_are_each_delivered_once_in_order() {
    for n in 1..6 {
        let (delivered, requests, phase) = drive(&chain(n));
        assert_eq!(delivered, (0..n as u32).collect::<Vec<_>>());
        assert_eq!(requests, n);
        assert_eq!(phase, WalkPhase::Finished);
    }
}

#[test]
fn failed_page_aborts_the_walk() {
    let mut pages = chain(5);
    pages[2].ok = false;
    let (delivered, requests, phase) = drive(&pages);
    assert_eq!(delivered, vec![0, 1]);
    assert_eq!(requests, 3);
    assert_eq!(phase, WalkPhase::Aborted);
}

#[test]
fn failed_first_page_delivers_nothing() {
    let mut pages = chain(3);
    pages[0].ok = false;
    let (delivered, requests, phase) = drive(&pages);
    assert!(delivered.is_empty());
    assert_eq!(requests, 1);
    assert_eq!(phase, WalkPhase::Aborted);
}

#[test]
fn stopped_walk_ignores_further_pages() {
    let mut walk = Walk::start("https://example.com/a".to_string());
    assert!(walk.on_page(PageEvent::Page { next: None }));
    assert!(!walk.on_page(PageEvent::Page { next: Some("https://example.com/b".to_string()) }));
    assert_eq!(walk.next_request(), None);
}

#[test]
fn link_header_next_is_found() {
    let header = "<https://api.github.com/repositories/1/branches?page=2>; rel=\"next\", \
                  <https://api.github.com/repositories/1/branches?page=5>; rel=\"last\"";
    assert_eq!(
        next_link(header),
        Ok(Some("https://api.github.com/repositories/1/branches?page=2".to_string()))
    );
}

#[test]
fn link_header_without_next() {
    let header = "<https://api.github.com/x?page=1>; rel=\"first\", \
                  <https://api.github.com/x?page=1>; rel=\"prev\"";
    assert_eq!(next_link(header), Ok(None));
}

#[test]
fn malformed_link_header_is_an_error() {
    assert!(next_link("https://api.github.com/x; rel=\"next\"").is_err());
}

#[test]
fn first_next_link_wins() {
    let links = vec![
        LinkTarget { target: "a".to_string(), rel_is_next: vec![false] },
        LinkTarget { target: "b".to_string(), rel_is_next: vec![false, true] },
        LinkTarget { target: "c".to_string(), rel_is_next: vec![true] },
    ];
    assert_eq!(next_of_links(&links), Some("b".to_string()));
    assert_eq!(next_of_links(&Vec::new()), None);
}
