use ferris_the_crawler::{Exporter, Url};

#[test]
fn csv_row_escapes_fields() {
    let rec = Url {
        url: "http://x/?q=1,2".to_string(),
        found_at: "http://y\nz".to_string(),
        depth: 3,
    };
    assert_eq!(rec.to_csv_row(), "http://x/?q=1%2C2,http://y%0Az,3".to_string());
}

#[test]
fn csv_of_empty_set_is_header_only() {
    let e = Exporter::new(Vec::new());
    assert_eq!(e.csv(), "Target,Source,Depth\n".to_string());
}

#[test]
fn csv_has_one_row_per_record() {
    let recs = vec![
        Url { url: "http://a/".to_string(), found_at: "http://a/".to_string(), depth: 0 },
        Url { url: "http://a/b".to_string(), found_at: "http://a/".to_string(), depth: 1 },
    ];
    let e = Exporter::new(recs);
    assert_eq!(
        e.csv(),
        "Target,Source,Depth\nhttp://a/,http://a/,0\nhttp://a/b,http://a/,1\n".to_string()
    );
}

#[test]
fn describe_names_origin_and_depth() {
    let rec = Url {
        url: "http://a/".to_string(),
        found_at: "http://s/".to_string(),
        depth: 2,
    };
    assert_eq!(rec.describe(), "http://a/ (found at: http://s/, depth: 2)".to_string());
}

#[test]
fn hash_string_is_deterministic() {
    let a = ferris_the_crawler::hash_string("http://a/");
    let b = ferris_the_crawler::hash_string("http://a/");
    assert_eq!(a, b);
    let c = ferris_the_crawler::hash_string("http://b/");
    assert_ne!(a, c);
}
