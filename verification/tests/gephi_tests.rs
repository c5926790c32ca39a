use ferris_the_crawler::gephi::json_string;
use ferris_the_crawler::{Args, Command, Crawler, GephiClient};

fn args_with_gephi(command: Command) -> Args {
    Args {
        command,
        url: "http://a.example".to_string(),
        depth: 2,
        output: None,
        ignore_query: false,
        filters: Vec::new(),
        ignore: Vec::new(),
        threads: 1,
        gephi_url: "http://localhost:8088/workspace1".to_string(),
    }
}

#[test]
fn json_string_escapes() {
    assert_eq!(json_string("plain"), "\"plain\"".to_string());
    assert_eq!(json_string("a\"b\\c\nd"), "\"a\\\"b\\\\c\\nd\"".to_string());
    assert_eq!(json_string("t\tr\r"), "\"t\\tr\\r\"".to_string());
    assert_eq!(json_string("\u{1}"), "\"\\u0001\"".to_string());
}

#[test]
fn node_and_edge_bodies_have_the_protocol_shape() {
    let client = GephiClient::new("http://localhost:8088/workspace1");
    assert_eq!(
        client.post_url(),
        "http://localhost:8088/workspace1?operation=updateGraph".to_string()
    );
    assert_eq!(
        client.add_node_body("http://s/", "http://s/", 0),
        "{\"an\":{\"http://s/\":{\"label\":\"http://s/\",\"depth\":0}}}".to_string()
    );
    assert_eq!(
        client.add_edge_body("a-b", "a", "b", true),
        "{\"ae\":{\"a-b\":{\"source\":\"a\",\"target\":\"b\",\"directed\":true}}}".to_string()
    );
    assert_eq!(
        client.add_edge_body("a-b", "a", "b", false),
        "{\"ae\":{\"a-b\":{\"source\":\"a\",\"target\":\"b\",\"directed\":false}}}".to_string()
    );
}

#[test]
fn edge_reports_are_three_upserts() {
    let c = Crawler::new(args_with_gephi(Command::Html));
    let reqs = c.gephi_requests("http://s/", "http://t/", 1);
    assert_eq!(reqs.len(), 3);
    for r in &reqs {
        assert_eq!(r.url, "http://localhost:8088/workspace1?operation=updateGraph".to_string());
    }
    assert_eq!(
        reqs[0].body,
        "{\"an\":{\"http://s/\":{\"label\":\"http://s/\",\"depth\":1}}}".to_string()
    );
    assert_eq!(
        reqs[1].body,
        "{\"an\":{\"http://t/\":{\"label\":\"http://t/\",\"depth\":2}}}".to_string()
    );
    assert_eq!(
        reqs[2].body,
        "{\"ae\":{\"http://s/-http://t/\":{\"source\":\"http://s/\",\"target\":\"http://t/\",\"directed\":true}}}"
            .to_string()
    );
}

#[test]
fn random_source_is_not_reported_in_wiki_mode() {
    let c = Crawler::new(args_with_gephi(Command::Wiki { amount: 1, link: None }));
    let reqs = c.gephi_requests("https://en.wikipedia.org/wiki/Special:Random", "http://t/", 0);
    assert_eq!(reqs.len(), 0);
    // in the generic mode the same source is reported
    let c2 = Crawler::new(args_with_gephi(Command::Html));
    let reqs2 = c2.gephi_requests("https://en.wikipedia.org/wiki/Special:Random", "http://t/", 0);
    assert_eq!(reqs2.len(), 3);
}

#[test]
fn no_endpoint_means_no_reports() {
    let mut a = args_with_gephi(Command::Html);
    a.gephi_url = String::new();
    let c = Crawler::new(a);
    assert_eq!(c.gephi_requests("http://s/", "http://t/", 0).len(), 0);
}
