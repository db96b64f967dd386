//! End-to-end runs of the verified core against scripted responses: the
//! scheduling, per-window sinks, request URLs and pagination exactly as
//! the fetch loop drives them, with only transport and disk left out.

use tagfetch::calendar::windows_in_range;
use tagfetch::config::FetchConfig;
use tagfetch::envelope::{Pagination, ResponseEnvelope, ResultItem};
use tagfetch::window::PageLoop;
use tagfetch::wire::{build_query_url, sink_name, window_bounds};

fn item(id: &str) -> ResultItem {
    ResultItem { id: id.to_string(), created_at: "t".to_string(), text: "x".to_string() }
}

fn page(items: Option<Vec<ResultItem>>, cursor: Option<&str>) -> ResponseEnvelope {
    ResponseEnvelope {
        items,
        pagination: cursor.map(|c| Pagination { next_cursor: c.to_string(), result_count: 0 }),
    }
}

#[test]
fn two_windows_one_terminal_page_each() {
    let cfg = FetchConfig::new("tag", 202301, 202302).unwrap();
    let windows = windows_in_range(cfg.from_date, cfg.end_date);
    assert_eq!(windows.len(), 2);

    let mut sinks: Vec<(String, usize)> = Vec::new();
    let mut urls: Vec<String> = Vec::new();
    for w in &windows {
        let (start, end) = window_bounds(w);
        let mut rows = 0;
        let mut pl = PageLoop::new();
        while !pl.done {
            urls.push(build_query_url(&cfg.query, &start, &end, &pl.cursor));
            let env = page(Some(vec![item("a"), item("b")]), None);
            rows += pl.absorb(env).len();
        }
        sinks.push((sink_name(w), rows));
    }

    assert_eq!(sinks, vec![("2023-01.csv".to_string(), 2), ("2023-02.csv".to_string(), 2)]);
    assert_eq!(urls.len(), 2);
    for url in &urls {
        assert!(!url.contains("next_token"));
    }
    assert!(urls[0].contains("&start_time=2023-01-01T00:00:00Z&end_time=2023-02-01T00:00:00Z"));
    assert!(urls[1].contains("&start_time=2023-02-01T00:00:00Z&end_time=2023-03-01T00:00:00Z"));
}

#[test]
fn one_window_two_pages_carries_the_cursor() {
    let cfg = FetchConfig::new("tag", 202301, 202301).unwrap();
    let windows = windows_in_range(cfg.from_date, cfg.end_date);
    assert_eq!(windows.len(), 1);

    let (start, end) = window_bounds(&windows[0]);
    let mut script = vec![
        page(Some(vec![item("1"), item("2")]), Some("abc")),
        page(Some(vec![item("3")]), None),
    ];
    let mut urls: Vec<String> = Vec::new();
    let mut rows: Vec<ResultItem> = Vec::new();
    let mut pl = PageLoop::new();
    while !pl.done {
        urls.push(build_query_url(&cfg.query, &start, &end, &pl.cursor));
        let env = script.remove(0);
        rows.append(&mut pl.absorb(env));
    }

    assert_eq!(rows.len(), 3);
    let ids: Vec<&str> = rows.iter().map(|r| r.id.as_str()).collect();
    assert_eq!(ids, vec!["1", "2", "3"]);
    assert_eq!(urls.len(), 2);
    assert!(!urls[0].contains("next_token"));
    assert!(urls[1].contains("next_token=abc"));
}
