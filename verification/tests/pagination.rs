use sunxdcc::decimal::decimal_string;
use sunxdcc::endpoint::{page_url, BASE_URL};
use sunxdcc::{search, Error, Fetched, Poll, RawResult, SearchResult, SearchResults};

fn page_of(names: &[&str]) -> RawResult {
    let column = |field: &str| names.iter().map(|name| format!("{field}-{name}")).collect();
    RawResult {
        network: column("network"),
        channel: column("channel"),
        bot: column("bot"),
        fsize: column("fsize"),
        fname: names.iter().map(|name| name.to_string()).collect(),
        packnum: column("packnum"),
        gets: column("gets"),
        botrec: column("botrec"),
    }
}

fn url_of(results: &SearchResults) -> String {
    results.request_url().unwrap()
}

fn transport_failure() -> reqwest::Error {
    reqwest::blocking::Client::new().get("no scheme, no host").build().unwrap_err()
}

/// One pull: a poll and, where that asks for it, the fetch of the next page
/// out of `service`.
fn pull(
    results: &mut SearchResults,
    service: &mut Vec<RawResult>,
    asked: &mut Vec<String>,
) -> Option<Result<SearchResult, Error>> {
    match results.poll() {
        Poll::Ready(record) => Some(Ok(record)),
        Poll::Fetch => {
            asked.push(url_of(results));
            results.resume(Fetched::Page(service.remove(0)))
        }
    }
}

#[test]
fn fresh_search_asks_for_page_zero() {
    let mut results = search("test");
    assert!(results.needs_fetch());
    assert_eq!(url_of(&results), "https://sunxdcc.com/deliver.php?sterm=test&page=0");
    assert!(matches!(results.poll(), Poll::Fetch));
    assert!(results.needs_fetch());
    assert_eq!(url_of(&results), "https://sunxdcc.com/deliver.php?sterm=test&page=0");
}

#[test]
fn new_and_search_begin_alike() {
    let by_new = SearchResults::new("a b");
    let by_search = search("a b");
    assert_eq!(url_of(&by_new), url_of(&by_search));
    assert_eq!(by_new.needs_fetch(), by_search.needs_fetch());
}

#[test]
fn two_records_then_empty_page_ends_the_stream() {
    let mut results = search("test");
    let mut service = vec![page_of(&["a", "b"]), page_of(&[])];
    let mut asked = Vec::new();
    let first = pull(&mut results, &mut service, &mut asked).unwrap().unwrap();
    assert_eq!(first.filename, "a");
    let second = pull(&mut results, &mut service, &mut asked).unwrap().unwrap();
    assert_eq!(second.filename, "b");
    assert_eq!(asked, vec!["https://sunxdcc.com/deliver.php?sterm=test&page=0"]);
    assert!(pull(&mut results, &mut service, &mut asked).is_none());
    assert_eq!(
        asked,
        vec![
            "https://sunxdcc.com/deliver.php?sterm=test&page=0",
            "https://sunxdcc.com/deliver.php?sterm=test&page=1",
        ]
    );
    assert!(service.is_empty());
}

#[test]
fn pages_are_handed_out_in_order() {
    let mut results = search("q");
    let mut service = vec![
        page_of(&["a0", "a1", "a2"]),
        page_of(&["b0"]),
        page_of(&["c0", "c1"]),
        page_of(&[]),
    ];
    let mut asked = Vec::new();
    let mut names = Vec::new();
    while let Some(item) = pull(&mut results, &mut service, &mut asked) {
        names.push(item.unwrap().filename);
    }
    assert_eq!(names, vec!["a0", "a1", "a2", "b0", "c0", "c1"]);
    let expected: Vec<String> =
        (0..4).map(|i| format!("https://sunxdcc.com/deliver.php?sterm=q&page={i}")).collect();
    assert_eq!(asked, expected);
}

#[test]
fn pull_after_empty_page_asks_for_the_following_page() {
    let mut results = search("q");
    assert!(results.resume(Fetched::Page(page_of(&[]))).is_none());
    assert!(results.needs_fetch());
    assert!(matches!(results.poll(), Poll::Fetch));
    assert_eq!(url_of(&results), "https://sunxdcc.com/deliver.php?sterm=q&page=1");
    assert!(results.resume(Fetched::Page(page_of(&[]))).is_none());
    assert_eq!(url_of(&results), "https://sunxdcc.com/deliver.php?sterm=q&page=2");
    let late = results.resume(Fetched::Page(page_of(&["late"]))).unwrap().unwrap();
    assert_eq!(late.filename, "late");
    assert_eq!(url_of(&results), "https://sunxdcc.com/deliver.php?sterm=q&page=3");
}

#[test]
fn poll_does_not_fetch_while_records_are_pending() {
    let mut results = search("q");
    let first = results.resume(Fetched::Page(page_of(&["a", "b", "c"]))).unwrap().unwrap();
    assert_eq!(first.filename, "a");
    assert!(!results.needs_fetch());
    assert!(matches!(results.poll(), Poll::Ready(record) if record.filename == "b"));
    assert!(!results.needs_fetch());
    assert!(matches!(results.poll(), Poll::Ready(record) if record.filename == "c"));
    assert!(results.needs_fetch());
    assert!(matches!(results.poll(), Poll::Fetch));
    assert_eq!(url_of(&results), "https://sunxdcc.com/deliver.php?sterm=q&page=1");
}

#[test]
fn transport_failure_is_surfaced_and_the_page_asked_again() {
    let mut results = search("q");
    results.resume(Fetched::Page(page_of(&["a"]))).unwrap().unwrap();
    assert!(matches!(results.poll(), Poll::Fetch));
    let before = url_of(&results);
    match results.resume(Fetched::Failed(transport_failure())) {
        Some(Err(Error::Request(failure))) => assert!(failure.is_builder()),
        other => panic!("expected a request error, got {other:?}"),
    }
    assert!(results.needs_fetch());
    assert_eq!(url_of(&results), before);
    assert_eq!(before, "https://sunxdcc.com/deliver.php?sterm=q&page=1");
    let next = results.resume(Fetched::Page(page_of(&["b"]))).unwrap().unwrap();
    assert_eq!(next.filename, "b");
    assert_eq!(url_of(&results), "https://sunxdcc.com/deliver.php?sterm=q&page=2");
}

#[test]
fn malformed_page_is_surfaced_and_the_page_asked_again() {
    let mut results = search("q");
    let mut broken = page_of(&["a", "b"]);
    broken.channel.push("#extra".to_string());
    match results.resume(Fetched::Page(broken)) {
        Some(Err(Error::Malformed(message))) => assert_eq!(message, "sequence length mismatch"),
        other => panic!("expected a malformed response, got {other:?}"),
    }
    assert!(results.needs_fetch());
    assert!(matches!(results.poll(), Poll::Fetch));
    assert_eq!(url_of(&results), "https://sunxdcc.com/deliver.php?sterm=q&page=0");
    let first = results.resume(Fetched::Page(page_of(&["a", "b"]))).unwrap().unwrap();
    assert_eq!(first.filename, "a");
}

#[test]
fn refresh_replaces_the_buffer_and_moves_on() {
    let mut results = search("q");
    results.refresh(Fetched::Page(page_of(&["a", "b"]))).unwrap();
    assert!(!results.needs_fetch());
    assert_eq!(url_of(&results), "https://sunxdcc.com/deliver.php?sterm=q&page=1");
    results.refresh(Fetched::Page(page_of(&["c"]))).unwrap();
    assert_eq!(url_of(&results), "https://sunxdcc.com/deliver.php?sterm=q&page=2");
    assert!(matches!(results.poll(), Poll::Ready(record) if record.filename == "c"));
    assert!(matches!(results.poll(), Poll::Fetch));
}

#[test]
fn failed_refresh_empties_the_buffer() {
    let mut results = search("q");
    results.refresh(Fetched::Page(page_of(&["a", "b"]))).unwrap();
    assert!(matches!(results.refresh(Fetched::Failed(transport_failure())), Err(Error::Request(_))));
    assert!(results.needs_fetch());
    assert!(matches!(results.poll(), Poll::Fetch));
    assert_eq!(url_of(&results), "https://sunxdcc.com/deliver.php?sterm=q&page=1");
    let mut broken = page_of(&["a"]);
    broken.gets.clear();
    results.refresh(Fetched::Page(page_of(&["c"]))).unwrap();
    assert!(matches!(results.refresh(Fetched::Page(broken)), Err(Error::Malformed(_))));
    assert!(results.needs_fetch());
    assert_eq!(url_of(&results), "https://sunxdcc.com/deliver.php?sterm=q&page=2");
}

#[test]
fn query_is_sent_verbatim_and_encoded() {
    assert_eq!(BASE_URL, "https://sunxdcc.com/deliver.php");
    assert_eq!(
        page_url("the hitchhiker's guide to the galaxy", 0).unwrap(),
        "https://sunxdcc.com/deliver.php?sterm=the+hitchhiker%27s+guide+to+the+galaxy&page=0"
    );
    assert_eq!(
        page_url("a&b=c/d?e#f", 12).unwrap(),
        "https://sunxdcc.com/deliver.php?sterm=a%26b%3Dc%2Fd%3Fe%23f&page=12"
    );
    assert_eq!(page_url("", 3).unwrap(), "https://sunxdcc.com/deliver.php?sterm=&page=3");
    assert_eq!(
        page_url("ü", 1).unwrap(),
        "https://sunxdcc.com/deliver.php?sterm=%C3%BC&page=1"
    );
    let parsed = reqwest::Url::parse(&page_url("x y", 7).unwrap()).unwrap();
    let pairs: Vec<(String, String)> =
        parsed.query_pairs().map(|(key, value)| (key.into_owned(), value.into_owned())).collect();
    assert_eq!(
        pairs,
        vec![("sterm".to_string(), "x y".to_string()), ("page".to_string(), "7".to_string())]
    );
}

#[test]
fn page_index_is_written_in_decimal() {
    assert_eq!(decimal_string(0), "0");
    assert_eq!(decimal_string(7), "7");
    assert_eq!(decimal_string(9), "9");
    assert_eq!(decimal_string(10), "10");
    assert_eq!(decimal_string(407), "407");
    assert_eq!(decimal_string(1234567890), "1234567890");
    assert_eq!(decimal_string(usize::MAX), usize::MAX.to_string());
    for n in 0..2000usize {
        assert_eq!(decimal_string(n), n.to_string());
    }
}

#[test]
fn page_counts_the_pages_taken_in() {
    let mut results = search("q");
    assert_eq!(results.page(), 0);
    results.resume(Fetched::Page(page_of(&["a", "b"]))).unwrap().unwrap();
    assert_eq!(results.page(), 1);
    assert!(matches!(results.poll(), Poll::Ready(_)));
    assert_eq!(results.page(), 1);
    assert!(results.resume(Fetched::Failed(transport_failure())).unwrap().is_err());
    assert_eq!(results.page(), 1);
    assert!(results.resume(Fetched::Page(page_of(&[]))).is_none());
    assert_eq!(results.page(), 2);
}

#[test]
fn misshapen_body_is_malformed_and_the_page_asked_again() {
    let mut results = search("q");
    results.resume(Fetched::Page(page_of(&["a"]))).unwrap().unwrap();
    assert!(matches!(results.poll(), Poll::Fetch));
    let reason = "missing field `network` at line 1 column 2";
    match results.resume(Fetched::Misshapen(reason.to_string())) {
        Some(Err(Error::Malformed(message))) => assert_eq!(message, reason),
        other => panic!("expected a malformed response, got {other:?}"),
    }
    assert_eq!(results.page(), 1);
    assert!(results.needs_fetch());
    assert!(matches!(results.poll(), Poll::Fetch));
    assert_eq!(url_of(&results), "https://sunxdcc.com/deliver.php?sterm=q&page=1");
    let next = results.resume(Fetched::Page(page_of(&["b"]))).unwrap().unwrap();
    assert_eq!(next.filename, "b");
    assert_eq!(results.page(), 2);
}

#[test]
fn misshapen_body_empties_the_buffer_on_refresh() {
    let mut results = search("q");
    results.refresh(Fetched::Page(page_of(&["a", "b"]))).unwrap();
    let reason = "invalid type: integer `1`, expected a string at line 1 column 13";
    match results.refresh(Fetched::Misshapen(reason.to_string())) {
        Err(Error::Malformed(message)) => assert_eq!(message, reason),
        other => panic!("expected a malformed response, got {other:?}"),
    }
    assert_eq!(results.page(), 1);
    assert!(results.needs_fetch());
    assert!(matches!(results.poll(), Poll::Fetch));
}

#[test]
fn requests_count_up_through_empty_pages() {
    let mut results = search("q");
    let mut service = vec![
        page_of(&["a0", "a1"]),
        page_of(&[]),
        page_of(&["c0"]),
        page_of(&[]),
        page_of(&[]),
        page_of(&["f0", "f1", "f2"]),
    ];
    let mut asked = Vec::new();
    let mut handed_out = Vec::new();
    for _ in 0..9 {
        let item = pull(&mut results, &mut service, &mut asked);
        handed_out.push(item.map(|item| item.unwrap().filename));
    }
    let name = |text: &str| Some(text.to_string());
    assert_eq!(
        handed_out,
        vec![
            name("a0"),
            name("a1"),
            None,
            name("c0"),
            None,
            None,
            name("f0"),
            name("f1"),
            name("f2"),
        ]
    );
    let expected: Vec<String> =
        (0..6).map(|i| format!("https://sunxdcc.com/deliver.php?sterm=q&page={i}")).collect();
    assert_eq!(asked, expected);
    assert_eq!(results.page(), 6);
}
