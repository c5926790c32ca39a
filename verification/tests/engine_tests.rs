use ferris_the_crawler::crawler::accepts_url;
use ferris_the_crawler::text::chars_of;
use ferris_the_crawler::{Args, Command, Crawler, Url};

fn html_args(url: &str, depth: u32) -> Args {
    Args {
        command: Command::Html,
        url: url.to_string(),
        depth,
        output: None,
        ignore_query: false,
        filters: Vec::new(),
        ignore: Vec::new(),
        threads: 1,
        gephi_url: String::new(),
    }
}

fn wiki_args(url: &str, depth: u32, amount: u32, link: Option<u32>) -> Args {
    Args {
        command: Command::Wiki { amount, link },
        url: url.to_string(),
        depth,
        output: None,
        ignore_query: false,
        filters: Vec::new(),
        ignore: Vec::new(),
        threads: 1,
        gephi_url: String::new(),
    }
}

#[test]
fn new_engine_is_empty() {
    let mut c = Crawler::new(html_args("http://a.example", 1));
    assert_eq!(c.urls().len(), 0);
    assert!(c.take_tasks().is_empty());
    assert!(c.take_send_tasks().is_empty());
}

#[test]
fn seed_html_is_one_unit() {
    let mut c = Crawler::new(html_args("http://a.example", 1));
    c.seed_tasks();
    let t = c.take_tasks();
    assert_eq!(t.len(), 1);
    assert_eq!(t[0].url, "http://a.example".to_string());
    assert_eq!(t[0].from, "http://a.example".to_string());
    assert_eq!(t[0].depth, 0);
}

#[test]
fn seed_wiki_is_amount_units() {
    let mut c = Crawler::new(wiki_args("https://en.wikipedia.org/wiki/Special:Random", 2, 3, None));
    c.seed_tasks();
    let t = c.take_tasks();
    assert_eq!(t.len(), 3);
    for u in &t {
        assert_eq!(u.depth, 0);
    }
}

#[test]
fn second_record_of_same_url_is_rejected() {
    let mut c = Crawler::new(html_args("http://a.example", 1));
    let rec = Url { url: "http://a.example/".to_string(), found_at: "x".to_string(), depth: 0 };
    assert!(c.try_record(rec));
    let again = Url { url: "http://a.example/".to_string(), found_at: "y".to_string(), depth: 1 };
    assert!(!c.try_record(again));
    assert_eq!(c.urls().len(), 1);
    assert_eq!(c.urls()[0].found_at, "x".to_string());
}

#[test]
fn add_visited_url_replaces_same_key() {
    let mut c = Crawler::new(html_args("http://a.example", 1));
    c.add_visited_url(Url { url: "http://a/".to_string(), found_at: "x".to_string(), depth: 0 });
    c.add_visited_url(Url { url: "http://a/".to_string(), found_at: "y".to_string(), depth: 1 });
    assert_eq!(c.urls().len(), 1);
    assert_eq!(c.urls()[0].found_at, "y".to_string());
    assert!(c.is_visited("http://a/"));
    assert!(!c.is_visited("http://b/"));
}

#[test]
fn filter_and_ignore_lists_apply() {
    let no_pat: Vec<String> = Vec::new();
    let filters = vec!["a".to_string()];
    let ignore = vec!["b".to_string()];
    // the ignore list wins over a filter match
    assert!(!accepts_url(&chars_of("xab"), &filters, &ignore));
    assert!(accepts_url(&chars_of("xa"), &filters, &ignore));
    // no filters given: everything not ignored passes
    assert!(accepts_url(&chars_of("x"), &no_pat, &ignore));
    assert!(!accepts_url(&chars_of("xb"), &no_pat, &ignore));
    // filters given and none matches
    assert!(!accepts_url(&chars_of("x"), &filters, &no_pat));
}

#[test]
fn pre_rejects_beyond_depth_bound() {
    let mut c = Crawler::new(html_args("http://a.example", 1));
    let r = c.crawl_html_pre("http://a.example/x", "http://a.example", 2);
    assert!(r.is_none());
    assert_eq!(c.urls().len(), 0);
    assert!(c.take_send_tasks().is_empty());
}

#[test]
fn pre_records_but_does_not_fetch_at_max_depth() {
    let mut c = Crawler::new(html_args("http://a.example", 0));
    let r = c.crawl_html_pre("http://a.example/x", "http://a.example", 0);
    assert!(r.is_none());
    let urls = c.urls();
    assert_eq!(urls.len(), 1);
    assert_eq!(urls[0].url, "http://a.example/x".to_string());
    assert_eq!(urls[0].depth, 0);
    assert_eq!(c.take_send_tasks().len(), 1);
}

#[test]
fn pre_normalizes_and_resolves_relative() {
    let mut c = Crawler::new(html_args("http://a.example", 2));
    let r = c.crawl_html_pre("/about", "http://a.example", 0);
    assert_eq!(r, Some("http://a.example/about".to_string()));
}

#[test]
fn pre_strips_query_when_asked() {
    let mut args = html_args("http://a.example", 2);
    args.ignore_query = true;
    let mut c = Crawler::new(args);
    let r = c.crawl_html_pre("http://a.example/p?q=1", "http://a.example", 0);
    assert_eq!(r, Some("http://a.example/p".to_string()));
}

#[test]
fn pre_drops_unparsable_silently() {
    let mut c = Crawler::new(html_args("http://a.example", 2));
    let r = c.crawl_html_pre("not a url", "http://a.example", 0);
    assert!(r.is_none());
    assert_eq!(c.urls().len(), 0);
    assert!(c.take_send_tasks().is_empty());
}

#[test]
fn pre_reports_edge_even_when_already_visited() {
    let mut c = Crawler::new(html_args("http://a.example", 2));
    assert!(c.crawl_html_pre("http://a.example/x", "http://a.example", 0).is_some());
    assert!(c.crawl_html_pre("http://a.example/x", "http://a.example/y", 1).is_none());
    assert_eq!(c.urls().len(), 1);
    // both attempts queued an edge report: the report channel ignores dedup
    assert_eq!(c.take_send_tasks().len(), 2);
}

#[test]
fn post_expands_every_anchor() {
    let mut c = Crawler::new(html_args("http://a.example", 3));
    let html = "<html><body><a href=\"/b\">b</a><span>t</span><a href=\"/c\">c</a><a>none</a></body></html>";
    c.crawl_html_post("http://a.example/", 1, html);
    let t = c.take_tasks();
    assert_eq!(t.len(), 2);
    assert_eq!(t[0].url, "/b".to_string());
    assert_eq!(t[1].url, "/c".to_string());
    assert_eq!(t[0].from, "http://a.example/".to_string());
    assert_eq!(t[0].depth, 2);
}

#[test]
fn wiki_random_hop_reports_but_never_records() {
    let mut c = Crawler::new(wiki_args("https://en.wikipedia.org/wiki/Special:Random", 2, 1, None));
    let fetch = c.crawl_wiki_pre(
        "https://en.wikipedia.org/wiki/Special:Random",
        "https://en.wikipedia.org/wiki/Special:Random",
        0,
    );
    assert!(fetch);
    assert_eq!(c.urls().len(), 0);
    assert_eq!(c.take_send_tasks().len(), 1);
}

#[test]
fn random_hop_is_exempt_from_dedup() {
    let hop = "https://en.wikipedia.org/wiki/Special:Random";
    let mut c = Crawler::new(wiki_args(hop, 2, 1, None));
    // even with a record sitting under the hop's key, the sentinel is never
    // dedup-rejected: it proceeds to its fetch, and is still not recorded
    c.add_visited_url(Url { url: hop.to_string(), found_at: "s".to_string(), depth: 0 });
    assert!(c.crawl_wiki_pre(hop, "s", 1));
    assert_eq!(c.urls().len(), 1);
    assert_eq!(c.urls()[0].depth, 0);
    assert_eq!(c.take_send_tasks().len(), 1);
}

#[test]
fn wiki_article_is_recorded() {
    let mut c = Crawler::new(wiki_args("https://en.wikipedia.org/wiki/Special:Random", 2, 1, None));
    let fetch = c.crawl_wiki_pre(
        "https://en.wikipedia.org/wiki/Rust",
        "https://en.wikipedia.org/wiki/Special:Random",
        1,
    );
    assert!(fetch);
    let urls = c.urls();
    assert_eq!(urls.len(), 1);
    assert_eq!(urls[0].url, "https://en.wikipedia.org/wiki/Rust".to_string());
    assert_eq!(urls[0].depth, 1);
}

#[test]
fn wiki_rejects_namespace_and_fragment_urls() {
    let mut c = Crawler::new(wiki_args("https://en.wikipedia.org/wiki/Special:Random", 3, 1, None));
    assert!(!c.crawl_wiki_pre("https://en.wikipedia.org/wiki/File:X.png", "s", 0));
    assert!(!c.crawl_wiki_pre("https://en.wikipedia.org/wiki/A#sec", "s", 0));
    assert!(!c.crawl_wiki_pre("https://example.com/nowikihere", "s", 0));
    assert_eq!(c.urls().len(), 0);
}

const WIKI_PAGE: &str = "<div id=\"mw-content-text\"><div class=\"mw-parser-output\"><p>\
<a href=\"/wiki/Foo\">f</a>\
<a href=\"/wiki/Bar:Baz\">b</a>\
<a href=\"/wiki/Qux#s\">q</a>\
<a href=\"/wiki/Quux\">u</a>\
</p></div></div>";

#[test]
fn wiki_post_expands_all_candidates_without_fixed_link() {
    let mut c = Crawler::new(wiki_args("https://en.wikipedia.org/wiki/Special:Random", 3, 1, None));
    c.crawl_wiki_post("https://en.wikipedia.org/wiki/Start", 0, WIKI_PAGE);
    let t = c.take_tasks();
    assert_eq!(t.len(), 2);
    assert_eq!(t[0].url, "https://en.wikipedia.org/wiki/Foo".to_string());
    assert_eq!(t[1].url, "https://en.wikipedia.org/wiki/Quux".to_string());
    assert_eq!(t[0].from, "https://en.wikipedia.org/wiki/Start".to_string());
    assert_eq!(t[0].depth, 1);
}

#[test]
fn wiki_post_follows_only_the_fixed_link() {
    let mut c = Crawler::new(
        wiki_args("https://en.wikipedia.org/wiki/Special:Random", 3, 1, Some(1)),
    );
    c.crawl_wiki_post("https://en.wikipedia.org/wiki/Start", 0, WIKI_PAGE);
    let t = c.take_tasks();
    assert_eq!(t.len(), 1);
    assert_eq!(t[0].url, "https://en.wikipedia.org/wiki/Quux".to_string());
}

#[test]
fn wiki_post_with_too_large_fixed_link_adds_nothing() {
    let mut c = Crawler::new(
        wiki_args("https://en.wikipedia.org/wiki/Special:Random", 3, 1, Some(2)),
    );
    c.crawl_wiki_post("https://en.wikipedia.org/wiki/Start", 0, WIKI_PAGE);
    assert!(c.take_tasks().is_empty());
}

#[test]
fn run_on_pages_explores_the_whole_reachable_graph() {
    let mut c = Crawler::new(html_args("http://a.example", 5));
    let pages = vec![
        ("http://a.example/".to_string(), page("http://a.example/").to_string()),
        ("http://a.example/b".to_string(), page("http://a.example/b").to_string()),
        ("http://a.example/c".to_string(), page("http://a.example/c").to_string()),
        ("http://a.example/unlinked".to_string(), "<a href=\"/b\">b</a>".to_string()),
    ];
    c.run_on_pages(&pages);
    assert!(c.take_tasks().is_empty());
    let mut urls: Vec<String> = c.urls().into_iter().map(|r| r.url).collect();
    urls.sort();
    // the unlinked page is never reached; the cycle back to the root ends
    assert_eq!(
        urls,
        vec![
            "http://a.example/".to_string(),
            "http://a.example/b".to_string(),
            "http://a.example/c".to_string(),
        ]
    );
}

#[test]
fn run_on_pages_respects_the_depth_bound() {
    let mut c = Crawler::new(html_args("http://a.example", 1));
    let pages = vec![
        ("http://a.example/".to_string(), "<a href=\"/b\">b</a>".to_string()),
        ("http://a.example/b".to_string(), "<a href=\"/c\">c</a>".to_string()),
        ("http://a.example/c".to_string(), String::new()),
    ];
    c.run_on_pages(&pages);
    let mut urls: Vec<String> = c.urls().into_iter().map(|r| r.url).collect();
    urls.sort();
    // depth 1 admits the seed and its children; /b is recorded but not
    // expanded, so /c is never seen
    assert_eq!(urls, vec!["http://a.example/".to_string(), "http://a.example/b".to_string()]);
    for rec in c.urls() {
        assert!(rec.depth <= 1);
    }
}

fn wiki_page(links: &[&str]) -> String {
    let mut body = String::from("<div id=\"mw-content-text\"><div class=\"mw-parser-output\"><p>");
    for l in links {
        body.push_str(&format!("<a href=\"/wiki/{}\">x</a>", l));
    }
    body.push_str("</p></div></div>");
    body
}

#[test]
fn run_on_pages_terminates_in_wiki_mode_without_random_pages() {
    let mut c = Crawler::new(wiki_args("https://en.wikipedia.org/wiki/Start", 3, 1, None));
    let pages = vec![
        ("https://en.wikipedia.org/wiki/Start".to_string(), wiki_page(&["Foo", "Bar"])),
        ("https://en.wikipedia.org/wiki/Foo".to_string(), wiki_page(&["Start"])),
        ("https://en.wikipedia.org/wiki/Bar".to_string(), wiki_page(&[])),
    ];
    c.run_on_pages(&pages);
    assert!(c.take_tasks().is_empty());
    let mut urls: Vec<String> = c.urls().into_iter().map(|r| r.url).collect();
    urls.sort();
    assert_eq!(
        urls,
        vec![
            "https://en.wikipedia.org/wiki/Bar".to_string(),
            "https://en.wikipedia.org/wiki/Foo".to_string(),
            "https://en.wikipedia.org/wiki/Start".to_string(),
        ]
    );
}

fn page(url: &str) -> &'static str {
    match url {
        "http://a.example/" => "<a href=\"/b\">b</a><a href=\"/c\">c</a>",
        "http://a.example/b" => "<a href=\"/c\">c</a>",
        "http://a.example/c" => "<a href=\"/\">home</a>",
        _ => "",
    }
}

#[test]
fn run_on_finite_graph_terminates_with_empty_pool() {
    let mut c = Crawler::new(html_args("http://a.example", 5));
    c.seed_tasks();
    let mut rounds: usize = 0;
    loop {
        let units = c.take_tasks();
        if units.is_empty() {
            break;
        }
        rounds += 1;
        assert!(rounds < 100, "the run must terminate on a finite graph");
        for u in units {
            if let Some(fetch_url) = c.crawl_html_pre(&u.url, &u.from, u.depth) {
                let body = page(&fetch_url);
                c.crawl_html_post(&fetch_url, u.depth, body);
            }
        }
    }
    assert!(c.take_tasks().is_empty());
    let mut urls: Vec<String> = c.urls().into_iter().map(|r| r.url).collect();
    urls.sort();
    assert_eq!(
        urls,
        vec![
            "http://a.example/".to_string(),
            "http://a.example/b".to_string(),
            "http://a.example/c".to_string(),
        ]
    );
    // despite the cycle back to the root, every URL was claimed exactly once
    let exporter = c.exporter();
    let csv = exporter.csv();
    assert_eq!(csv.lines().count(), 4);
    assert!(csv.starts_with("Target,Source,Depth\n"));
}
