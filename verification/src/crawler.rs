//! The traversal engine: a sequential state machine over the visited set and
//! the two work pools.
//!
//! A driver outside the library repeatedly takes the pending traversal units,
//! runs the pre-fetch pipeline on each, performs the HTTP fetch for the units
//! that pass it, and hands each fetched document back to the post-fetch
//! expansion. The engine owns every decision: normalization, filtering, the
//! depth gates, deduplication, recording, edge reporting and fan-out.

use vstd::prelude::*;
use vstd::string::{StrSliceExecFns, StringExecFns};
use crate::args::{Args, Command};
use crate::exporter::Exporter;
use crate::extract::{
    hrefs_of, norm_full_of, norm_stripped_of, parse_full, parse_stripped, resolve_wiki,
    select_hrefs, select_wiki_hrefs, wiki_hrefs_of, wiki_resolved,
};
use crate::gephi::{edge_body_of, node_body_of, GephiClient, GephiRequest};
use crate::hashing::{hash_of, hash_string};
use crate::text::{chars_of, contains_seq, contains_sub, find_sub_from, first_match_from, subvec};
use crate::url_data::Url;

verus! {

/// One pending fetch-and-expand operation.
pub struct TraversalUnit {
    pub url: String,
    pub from: String,
    pub depth: usize,
}

/// One pending best-effort report of a discovered edge.
pub struct EdgeReportUnit {
    pub source: String,
    pub target: String,
    pub depth: usize,
}

/// The shared state of a run: its configuration and the visited set.
pub struct CrawlerData {
    pub args: Args,
    /// The visited records, keyed by the hash of their normalized URL.
    pub visited_urls: Vec<Url>,
}

/// The traversal engine.
pub struct Crawler {
    pub data: CrawlerData,
    /// The primary pool: pending traversal units.
    pub tasks: Vec<TraversalUnit>,
    /// The side pool: pending edge reports.
    pub send_tasks: Vec<EdgeReportUnit>,
    pub gephi_client: Option<GephiClient>,
}

/// No two records share the key of their normalized URL.
pub open spec fn visited_unique(s: Seq<Url>) -> bool {
    forall|i: int, j: int|
        0 <= i < j < s.len() ==> hash_of(s[i].url@) != hash_of(s[j].url@)
}

/// Some record is stored under key `k`.
pub open spec fn has_key(s: Seq<Url>, k: u64) -> bool {
    exists|i: int| 0 <= i < s.len() && hash_of(#[trigger] s[i].url@) == k
}

/// Every record's depth is at most `max`.
pub open spec fn depths_bounded(s: Seq<Url>, max: nat) -> bool {
    forall|i: int| 0 <= i < s.len() ==> #[trigger] s[i].depth <= max
}

impl Crawler {
    /// The visited set's invariant: unique keys, and no record deeper than
    /// the configured maximum depth.
    pub open spec fn wf(self) -> bool {
        &&& visited_unique(self.data.visited_urls@)
        &&& depths_bounded(self.data.visited_urls@, self.data.args.depth as nat)
    }

    pub fn new(args: Args) -> (r: Self)
        ensures
            r.wf(),
            r.data.args == args,
            r.data.visited_urls@ == Seq::<Url>::empty(),
            r.tasks@ == Seq::<TraversalUnit>::empty(),
            r.send_tasks@ == Seq::<EdgeReportUnit>::empty(),
            r.gephi_client is Some <==> args.gephi_url@.len() != 0,
            r.gephi_client is Some ==> r.gephi_client.unwrap().spec_base_url()
                == args.gephi_url@,
    {
        let gephi_client = if args.gephi_url.as_str().is_empty() {
            None
        } else {
            Some(GephiClient::new(args.gephi_url.as_str()))
        };
        Crawler {
            data: CrawlerData { args, visited_urls: Vec::new() },
            tasks: Vec::new(),
            send_tasks: Vec::new(),
            gephi_client,
        }
    }

    pub fn args(&self) -> (r: &Args)
        ensures
            r == &self.data.args,
    {
        &self.data.args
    }

    /// The index of the record stored under key `k`, if any.
    fn find_key(&self, k: u64) -> (r: Option<usize>)
        ensures
            match r {
                Some(i) => i < self.data.visited_urls@.len() && hash_of(
                    self.data.visited_urls@[i as int].url@,
                ) == k,
                None => !has_key(self.data.visited_urls@, k),
            },
    {
        let n: usize = self.data.visited_urls.len();
        for i in 0..n
            invariant
                n == self.data.visited_urls@.len(),
                forall|j: int|
                    0 <= j < i ==> hash_of(
                        #[trigger] self.data.visited_urls@[j].url@,
                    ) != k,
        {
            if hash_string(self.data.visited_urls[i].url.as_str()) == k {
                return Some(i);
            }
        }
        None
    }

    /// Whether the normalized URL `url` has already been claimed.
    pub fn is_visited(&self, url: &str) -> (r: bool)
        ensures
            r == has_key(self.data.visited_urls@, hash_of(url@)),
    {
        let k = hash_string(url);
        self.find_key(k).is_some()
    }

    /// Atomically tests and claims the key of `rec`'s normalized URL: if the
    /// key is absent the record is inserted and the call returns true; if it
    /// is already present nothing changes and the call returns false.
    pub fn try_record(&mut self, rec: Url) -> (r: bool)
        requires
            old(self).wf(),
            rec.depth <= old(self).data.args.depth,
        ensures
            final(self).wf(),
            final(self).data.args == old(self).data.args,
            final(self).tasks@ == old(self).tasks@,
            final(self).send_tasks@ == old(self).send_tasks@,
            final(self).gephi_client == old(self).gephi_client,
            r == !has_key(old(self).data.visited_urls@, hash_of(rec.url@)),
            r ==> final(self).data.visited_urls@ == old(self).data.visited_urls@.push(rec),
            !r ==> final(self).data.visited_urls@ == old(self).data.visited_urls@,
    {
        let k = hash_string(rec.url.as_str());
        if self.find_key(k).is_some() {
            proof {
                assert(has_key(self.data.visited_urls@, k));
            }
            return false;
        }
        self.data.visited_urls.push(rec);
        proof {
            let olds = old(self).data.visited_urls@;
            let s = self.data.visited_urls@;
            assert forall|i: int, j: int| 0 <= i < j < s.len() implies hash_of(s[i].url@)
                != hash_of(s[j].url@) by {
                if j == s.len() - 1 {
                    assert(s[j] == rec);
                    assert(s[i] == olds[i]);
                    assert(hash_of(olds[i].url@) != k);
                } else {
                    assert(s[i] == olds[i] && s[j] == olds[j]);
                }
            }
        }
        true
    }

    /// Inserts a record under the key of its normalized URL, replacing any
    /// record already stored there.
    pub fn add_visited_url(&mut self, url: Url)
        requires
            old(self).wf(),
            url.depth <= old(self).data.args.depth,
        ensures
            final(self).wf(),
            final(self).data.args == old(self).data.args,
            final(self).tasks@ == old(self).tasks@,
            final(self).send_tasks@ == old(self).send_tasks@,
            final(self).gephi_client == old(self).gephi_client,
            !has_key(old(self).data.visited_urls@, hash_of(url.url@))
                ==> final(self).data.visited_urls@ == old(self).data.visited_urls@.push(url),
            has_key(old(self).data.visited_urls@, hash_of(url.url@)) ==> exists|i: int|
                0 <= i < old(self).data.visited_urls@.len() && hash_of(
                    #[trigger] old(self).data.visited_urls@[i].url@,
                ) == hash_of(url.url@) && final(self).data.visited_urls@
                    == old(self).data.visited_urls@.update(i, url),
    {
        let k = hash_string(url.url.as_str());
        match self.find_key(k) {
            Some(i) => {
                let ghost olds = self.data.visited_urls@;
                self.data.visited_urls.set(i, url);
                proof {
                    let s = self.data.visited_urls@;
                    assert forall|a: int, b: int| 0 <= a < b < s.len() implies hash_of(
                        s[a].url@,
                    ) != hash_of(s[b].url@) by {
                        assert(hash_of(s[a].url@) == hash_of(olds[a].url@));
                        assert(hash_of(s[b].url@) == hash_of(olds[b].url@));
                    }
                    assert(has_key(olds, k));
                }
            },
            None => {
                self.data.visited_urls.push(url);
                proof {
                    let olds = old(self).data.visited_urls@;
                    let s = self.data.visited_urls@;
                    assert forall|a: int, b: int| 0 <= a < b < s.len() implies hash_of(
                        s[a].url@,
                    ) != hash_of(s[b].url@) by {
                        if b == s.len() - 1 {
                            assert(s[b] == url);
                            assert(s[a] == olds[a]);
                            assert(hash_of(olds[a].url@) != k);
                        } else {
                            assert(s[a] == olds[a] && s[b] == olds[b]);
                        }
                    }
                }
            },
        }
    }

    /// A snapshot of the visited set, in insertion order.
    pub fn urls(&self) -> (r: Vec<Url>)
        ensures
            r@ == self.data.visited_urls@,
    {
        let n: usize = self.data.visited_urls.len();
        let mut r: Vec<Url> = Vec::new();
        for i in 0..n
            invariant
                n == self.data.visited_urls@.len(),
                r@ == self.data.visited_urls@.subrange(0, i as int),
        {
            r.push(self.data.visited_urls[i].clone());
            assert(r@ =~= self.data.visited_urls@.subrange(0, i + 1));
        }
        assert(r@ =~= self.data.visited_urls@);
        r
    }

    /// An exporter over a snapshot of the visited set.
    pub fn exporter(&self) -> (r: Exporter)
        ensures
            r.urls@ == self.data.visited_urls@,
    {
        Exporter::new(self.urls())
    }

    /// Appends one unit to the primary pool.
    pub fn add_task(&mut self, unit: TraversalUnit)
        ensures
            final(self).tasks@ == old(self).tasks@.push(unit),
            final(self).data == old(self).data,
            final(self).send_tasks@ == old(self).send_tasks@,
            final(self).gephi_client == old(self).gephi_client,
    {
        self.tasks.push(unit);
    }

    /// Appends one unit to the edge-report pool.
    pub fn add_send_task(&mut self, unit: EdgeReportUnit)
        ensures
            final(self).send_tasks@ == old(self).send_tasks@.push(unit),
            final(self).data == old(self).data,
            final(self).tasks@ == old(self).tasks@,
            final(self).gephi_client == old(self).gephi_client,
    {
        self.send_tasks.push(unit);
    }

    /// Takes the whole primary pool in one step, leaving it empty. A round of
    /// the driver processes everything taken; the run ends when a round
    /// begins with nothing to take.
    pub fn take_tasks(&mut self) -> (r: Vec<TraversalUnit>)
        ensures
            r@ == old(self).tasks@,
            final(self).tasks@ == Seq::<TraversalUnit>::empty(),
            final(self).data == old(self).data,
            final(self).send_tasks@ == old(self).send_tasks@,
            final(self).gephi_client == old(self).gephi_client,
    {
        let mut r: Vec<TraversalUnit> = Vec::new();
        core::mem::swap(&mut r, &mut self.tasks);
        r
    }

    /// Takes the whole edge-report pool in one step, leaving it empty.
    pub fn take_send_tasks(&mut self) -> (r: Vec<EdgeReportUnit>)
        ensures
            r@ == old(self).send_tasks@,
            final(self).send_tasks@ == Seq::<EdgeReportUnit>::empty(),
            final(self).data == old(self).data,
            final(self).tasks@ == old(self).tasks@,
            final(self).gephi_client == old(self).gephi_client,
    {
        let mut r: Vec<EdgeReportUnit> = Vec::new();
        core::mem::swap(&mut r, &mut self.send_tasks);
        r
    }

    /// Seeds the primary pool: one unit at the seed URL for the generic mode,
    /// `amount` independent units for the encyclopedia mode. Every seed
    /// starts at depth zero with the seed URL as its own origin.
    pub fn seed_tasks(&mut self)
        ensures
            final(self).data == old(self).data,
            final(self).send_tasks@ == old(self).send_tasks@,
            final(self).gephi_client == old(self).gephi_client,
            final(self).tasks@.len() == old(self).tasks@.len() + seed_count(old(self).data.args.command),
            final(self).tasks@.subrange(0, old(self).tasks@.len() as int) == old(self).tasks@,
            forall|i: int|
                old(self).tasks@.len() <= i < final(self).tasks@.len() ==> {
                    &&& (#[trigger] final(self).tasks@[i]).url@ == old(self).data.args.url@
                    &&& final(self).tasks@[i].from@ == old(self).data.args.url@
                    &&& final(self).tasks@[i].depth == 0
                },
    {
        match self.data.args.command {
            Command::Html => {
                let unit = TraversalUnit {
                    url: self.data.args.url.clone(),
                    from: self.data.args.url.clone(),
                    depth: 0,
                };
                self.tasks.push(unit);
                assert(self.tasks@.subrange(0, old(self).tasks@.len() as int) =~= old(
                    self,
                ).tasks@);
            },
            Command::Wiki { amount, link: _ } => {
                let ghost n0 = self.tasks@.len();
                for a in 0..amount
                    invariant
                        self.data == old(self).data,
                        self.send_tasks@ == old(self).send_tasks@,
                        self.gephi_client == old(self).gephi_client,
                        self.tasks@.len() == n0 + a,
                        n0 == old(self).tasks@.len(),
                        self.tasks@.subrange(0, n0 as int) == old(self).tasks@,
                        forall|i: int|
                            n0 <= i < self.tasks@.len() ==> {
                                &&& (#[trigger] self.tasks@[i]).url@ == old(
                                    self,
                                ).data.args.url@
                                &&& self.tasks@[i].from@ == old(self).data.args.url@
                                &&& self.tasks@[i].depth == 0
                            },
                {
                    let unit = TraversalUnit {
                        url: self.data.args.url.clone(),
                        from: self.data.args.url.clone(),
                        depth: 0,
                    };
                    self.tasks.push(unit);
                    assert(self.tasks@.subrange(0, n0 as int) =~= old(self).tasks@);
                }
            },
        }
    }
}

/// How many seed units a run starts with.
pub open spec fn seed_count(c: Command) -> nat {
    match c {
        Command::Html => 1,
        Command::Wiki { amount, link: _ } => amount as nat,
    }
}

/// Law (no duplicate claims): in a well-formed visited set no two records
/// share the key of their normalized URL. `try_record` accepts a record only
/// when its key is absent, so its accept path is taken at most once per
/// normalized URL over any run.
pub proof fn lemma_no_duplicate_records(s: Seq<Url>, i: int, j: int)
    requires
        visited_unique(s),
        0 <= i < s.len(),
        0 <= j < s.len(),
        i != j,
    ensures
        hash_of(s[i].url@) != hash_of(s[j].url@),
{
}

/// Law (a claim is permanent): recording one more visit never releases a
/// claimed key, so a URL rejected as already visited stays rejected for the
/// rest of the run.
pub proof fn lemma_claim_permanent(s: Seq<Url>, rec: Url, k: u64)
    requires
        has_key(s, k),
    ensures
        has_key(s.push(rec), k),
{
    let i = choose|i: int| 0 <= i < s.len() && hash_of(#[trigger] s[i].url@) == k;
    assert(s.push(rec)[i] == s[i]);
}

/// Law (a second claim of the same URL is rejected): once a record is in the
/// visited set, its own key is present, so `try_record` answers false to any
/// later record with the same normalized URL.
pub proof fn lemma_second_claim_rejected(s: Seq<Url>, rec: Url)
    ensures
        has_key(s.push(rec), hash_of(rec.url@)),
{
    let t = s.push(rec);
    assert(t[s.len() as int] == rec);
}

/// Law (depth bound): in a well-formed engine no visited record lies deeper
/// than the configured maximum depth.
pub proof fn lemma_depth_bound(c: Crawler, i: int)
    requires
        c.wf(),
        0 <= i < c.data.visited_urls@.len(),
    ensures
        c.data.visited_urls@[i].depth <= c.data.args.depth,
{
}

/// Law (growth keeps claims): a visited set extended at its end still holds
/// every key it held before.
pub proof fn lemma_has_key_extends(v1: Seq<Url>, v2: Seq<Url>)
    requires
        v2.len() >= v1.len(),
        v2.subrange(0, v1.len() as int) == v1,
    ensures
        forall|k: u64| has_key(v1, k) ==> has_key(v2, k),
{
    assert forall|k: u64| has_key(v1, k) implies has_key(v2, k) by {
        let i = choose|i: int| 0 <= i < v1.len() && hash_of(#[trigger] v1[i].url@) == k;
        assert(v2.subrange(0, v1.len() as int)[i] == v2[i]);
        assert(hash_of(v2[i].url@) == k);
    }
}

/// Extending a sequence at its end is transitive: what extends an extension
/// of `a` still extends `a`.
pub proof fn lemma_prefix_trans<T>(a: Seq<T>, b: Seq<T>, c: Seq<T>)
    requires
        b.len() >= a.len(),
        b.subrange(0, a.len() as int) == a,
        c.len() >= b.len(),
        c.subrange(0, b.len() as int) == b,
    ensures
        c.len() >= a.len(),
        c.subrange(0, a.len() as int) == a,
{
    assert forall|i: int| 0 <= i < a.len() implies c.subrange(0, a.len() as int)[i] == a[i] by {
        assert(c.subrange(0, b.len() as int)[i] == c[i]);
        assert(b.subrange(0, a.len() as int)[i] == b[i]);
    }
    assert(c.subrange(0, a.len() as int) =~= a);
}

/// The key a page is claimed under: the hash of its URL.
pub open spec fn page_key(p: (String, String)) -> u64 {
    hash_of(p.0@)
}

/// How many of the given pages have not yet been claimed in the visited set.
/// This is the run's termination measure: fetching a page claims its key, so
/// the count falls with every fetch and never rises.
pub open spec fn unclaimed_count(pages: Seq<(String, String)>, visited: Seq<Url>) -> nat
    decreases pages.len(),
{
    if pages.len() == 0 {
        0
    } else {
        (if has_key(visited, page_key(pages[0])) {
            0nat
        } else {
            1nat
        }) + unclaimed_count(pages.drop_first(), visited)
    }
}

/// Claiming more keys never raises the number of unclaimed pages.
pub proof fn lemma_unclaimed_monotone(
    pages: Seq<(String, String)>,
    v1: Seq<Url>,
    v2: Seq<Url>,
)
    requires
        forall|k: u64| has_key(v1, k) ==> has_key(v2, k),
    ensures
        unclaimed_count(pages, v2) <= unclaimed_count(pages, v1),
    decreases pages.len(),
{
    if pages.len() > 0 {
        lemma_unclaimed_monotone(pages.drop_first(), v1, v2);
    }
}

/// Claiming the key of a page that was not yet claimed strictly lowers the
/// number of unclaimed pages.
pub proof fn lemma_unclaimed_strict(
    pages: Seq<(String, String)>,
    v1: Seq<Url>,
    v2: Seq<Url>,
    idx: int,
)
    requires
        forall|k: u64| has_key(v1, k) ==> has_key(v2, k),
        0 <= idx < pages.len(),
        !has_key(v1, page_key(pages[idx])),
        has_key(v2, page_key(pages[idx])),
    ensures
        unclaimed_count(pages, v2) < unclaimed_count(pages, v1),
    decreases pages.len(),
{
    if idx == 0 {
        lemma_unclaimed_monotone(pages.drop_first(), v1, v2);
    } else {
        lemma_unclaimed_strict(pages.drop_first(), v1, v2, idx - 1);
        assert(pages.drop_first()[idx - 1] == pages[idx]);
    }
}

/// A URL passes the filter list when no filters are given or it contains at
/// least one of them.
pub open spec fn passes_filters(url: Seq<char>, filters: Seq<String>) -> bool {
    filters.len() == 0 || exists|i: int|
        0 <= i < filters.len() && contains_seq(url, #[trigger] filters[i]@)
}

/// A URL passes the ignore list when it contains none of its entries.
pub open spec fn passes_ignore(url: Seq<char>, ignore: Seq<String>) -> bool {
    forall|i: int| 0 <= i < ignore.len() ==> !contains_seq(url, #[trigger] ignore[i]@)
}

/// The combined acceptance filter. The ignore list always wins: a URL that
/// contains an ignored substring is rejected even when it also matches a
/// filter.
pub open spec fn url_accepted(args: Args, url: Seq<char>) -> bool {
    passes_filters(url, args.filters@) && passes_ignore(url, args.ignore@)
}

/// A candidate that begins with `/` is resolved against the seed URL.
pub open spec fn resolved_seq(url: Seq<char>, base: Seq<char>) -> Seq<char> {
    if url.len() > 0 && url[0] == '/' {
        base + url
    } else {
        url
    }
}

/// The normalized form of a candidate in the generic mode, if it parses.
pub open spec fn html_norm(args: Args, url: Seq<char>) -> Option<Seq<char>> {
    if args.ignore_query {
        norm_stripped_of(resolved_seq(url, args.url@))
    } else {
        norm_full_of(resolved_seq(url, args.url@))
    }
}

/// A candidate passes the generic mode's pre-fetch pipeline: the depth gate,
/// normalization, and the filter and ignore lists.
pub open spec fn html_admitted(args: Args, url: Seq<char>, depth: nat) -> bool {
    &&& depth <= args.depth as nat
    &&& html_norm(args, url) is Some
    &&& url_accepted(args, html_norm(args, url).unwrap())
}

/// Law (the ignore list wins): a URL that contains any ignored substring is
/// rejected, whether or not it also matches a filter.
pub proof fn lemma_ignore_precedence(args: Args, url: Seq<char>, i: int)
    requires
        0 <= i < args.ignore@.len(),
        contains_seq(url, args.ignore@[i]@),
    ensures
        !url_accepted(args, url),
{
    assert(!passes_ignore(url, args.ignore@));
}

/// Whether `url` contains one of the given substrings.
fn matches_any(url: &Vec<char>, pats: &Vec<String>) -> (r: bool)
    ensures
        r == exists|i: int| 0 <= i < pats@.len() && contains_seq(url@, #[trigger] pats@[i]@),
{
    let n: usize = pats.len();
    for i in 0..n
        invariant
            n == pats@.len(),
            forall|j: int| 0 <= j < i ==> !contains_seq(url@, #[trigger] pats@[j]@),
    {
        let p = chars_of(pats[i].as_str());
        if contains_sub(url, &p) {
            return true;
        }
    }
    false
}

/// Whether `url` passes both the filter list and the ignore list.
pub fn accepts_url(url: &Vec<char>, filters: &Vec<String>, ignore: &Vec<String>) -> (r: bool)
    ensures
        r == (passes_filters(url@, filters@) && passes_ignore(url@, ignore@)),
{
    if filters.len() > 0 && !matches_any(url, filters) {
        return false;
    }
    !matches_any(url, ignore)
}

/// The text between the first article-path separator of a URL and the next
/// one (or the end), if the URL contains the separator at all.
pub open spec fn article_segment(url: Seq<char>) -> Option<Seq<char>> {
    let w = "/wiki/"@;
    match first_match_from(url, w, 0) {
        None => None,
        Some(i) => {
            let start = i + w.len();
            match first_match_from(url, w, start) {
                None => Some(url.subrange(start, url.len() as int)),
                Some(j) => Some(url.subrange(start, j)),
            }
        },
    }
}

/// An article URL is well-formed when it has an article segment that holds
/// neither the namespace separator nor the fragment marker.
pub open spec fn wiki_article_ok(url: Seq<char>) -> bool {
    match article_segment(url) {
        None => false,
        Some(seg) => !contains_seq(seg, ":"@) && !contains_seq(seg, "#"@),
    }
}

/// A random-walk hop: the URL names the encyclopedia's random-article page.
pub open spec fn is_random_hop(url: Seq<char>) -> bool {
    contains_seq(url, "Random"@)
}

/// Whether `url` is a well-formed article URL, by direct inspection.
pub fn wiki_article_check(url: &Vec<char>) -> (r: bool)
    ensures
        r == wiki_article_ok(url@),
{
    let ul: usize = url.len();
    let w = chars_of("/wiki/");
    match find_sub_from(url, &w, 0) {
        None => false,
        Some(i) => {
            proof {
                crate::text::lemma_first_match_props(url@, w@, 0);
            }
            let start = i + w.len();
            let seg_end = match find_sub_from(url, &w, start) {
                None => ul,
                Some(j) => {
                    proof {
                        crate::text::lemma_first_match_props(url@, w@, start as int);
                    }
                    j
                },
            };
            let seg = subvec(url, start, seg_end);
            let ok = !contains_sub(&seg, &chars_of(":")) && !contains_sub(&seg, &chars_of("#"));
            ok
        },
    }
}

/// The article candidates among the extracted hrefs: those free of the
/// namespace separator and the fragment marker, resolved against the site
/// root, in order.
pub open spec fn wiki_candidates(hrefs: Seq<Seq<char>>) -> Seq<Seq<char>>
    decreases hrefs.len(),
{
    if hrefs.len() == 0 {
        Seq::empty()
    } else {
        let rest = wiki_candidates(hrefs.drop_first());
        let h = hrefs[0];
        if !contains_seq(h, ":"@) && !contains_seq(h, "#"@) && wiki_resolved(h) is Some {
            seq![wiki_resolved(h).unwrap()] + rest
        } else {
            rest
        }
    }
}

/// The seed is owed a visit: the run's own seed URL passes the mode's
/// pre-fetch pipeline at depth zero and its key is not yet claimed, so a run
/// must record at least that visit. In the encyclopedia mode this also needs
/// at least one walk, and a seed that is itself a random hop is exempt from
/// recording.
pub open spec fn seed_claims_visit(args: Args, visited: Seq<Url>) -> bool {
    match args.command {
        Command::Html => html_admitted(args, args.url@, 0) && !has_key(
            visited,
            hash_of(html_norm(args, args.url@).unwrap()),
        ),
        Command::Wiki { amount, link: _ } => amount > 0 && !is_random_hop(args.url@)
            && wiki_article_ok(args.url@) && !has_key(visited, hash_of(args.url@)),
    }
}

impl Crawler {
    /// The generic mode's pre-fetch pipeline for one unit. Resolves and
    /// normalizes the candidate, applies the filter and ignore lists and the
    /// depth gate, queues the edge report, and claims the URL in the visited
    /// set. The returned URL, if any, is the one to fetch and expand.
    pub fn crawl_html_pre(&mut self, url: &str, from: &str, depth: usize) -> (r: Option<String>)
        requires
            old(self).wf(),
        ensures
            final(self).wf(),
            final(self).data.args == old(self).data.args,
            final(self).tasks@ == old(self).tasks@,
            final(self).gephi_client == old(self).gephi_client,
            ({
                let args = old(self).data.args;
                let norm = html_norm(args, url@);
                let adm = html_admitted(args, url@, depth as nat);
                let fresh = adm && !has_key(old(self).data.visited_urls@, hash_of(norm.unwrap()));
                &&& (adm ==> {
                    &&& final(self).send_tasks@.len() == old(self).send_tasks@.len() + 1
                    &&& final(self).send_tasks@.subrange(
                        0,
                        old(self).send_tasks@.len() as int,
                    ) == old(self).send_tasks@
                    &&& final(self).send_tasks@.last().source@ == from@
                    &&& final(self).send_tasks@.last().target@ == norm.unwrap()
                    &&& final(self).send_tasks@.last().depth == depth
                })
                &&& (!adm ==> final(self).send_tasks@ == old(self).send_tasks@)
                &&& (fresh ==> {
                    &&& final(self).data.visited_urls@.len() == old(
                        self,
                    ).data.visited_urls@.len() + 1
                    &&& final(self).data.visited_urls@.subrange(
                        0,
                        old(self).data.visited_urls@.len() as int,
                    ) == old(self).data.visited_urls@
                    &&& final(self).data.visited_urls@.last().url@ == norm.unwrap()
                    &&& final(self).data.visited_urls@.last().found_at@ == from@
                    &&& final(self).data.visited_urls@.last().depth == depth
                })
                &&& (!fresh ==> final(self).data.visited_urls@ == old(self).data.visited_urls@)
                &&& (r is Some <==> fresh && depth + 1 <= args.depth as nat)
                &&& (r is Some ==> r.unwrap()@ == norm.unwrap())
            }),
    {
        let max: usize = self.data.args.depth as usize;
        if depth > max {
            return None;
        }
        let slash = url.unicode_len() > 0 && url.get_char(0) == '/';
        let resolved: String = if slash {
            let mut f = self.data.args.url.clone();
            f.append(url);
            f
        } else {
            String::from_str(url)
        };
        assert(resolved@ == resolved_seq(url@, old(self).data.args.url@));
        let norm_opt = if self.data.args.ignore_query {
            parse_stripped(resolved.as_str())
        } else {
            parse_full(resolved.as_str())
        };
        let n = match norm_opt {
            Some(n) => n,
            None => {
                return None;
            },
        };
        let nc = chars_of(n.as_str());
        if !accepts_url(&nc, &self.data.args.filters, &self.data.args.ignore) {
            return None;
        }
        self.send_tasks.push(
            EdgeReportUnit { source: String::from_str(from), target: n.clone(), depth },
        );
        assert(self.send_tasks@.subrange(0, old(self).send_tasks@.len() as int) =~= old(
            self,
        ).send_tasks@);
        let rec = Url { url: n.clone(), found_at: String::from_str(from), depth };
        if !self.try_record(rec) {
            return None;
        }
        if depth >= max {
            return None;
        }
        Some(n)
    }

    /// The generic mode's post-fetch expansion: every href extracted from the
    /// fetched document becomes a new traversal unit one level deeper, with
    /// the fetched URL as its origin.
    pub fn crawl_html_post(&mut self, url: &str, depth: usize, html: &str)
        requires
            old(self).wf(),
            depth < old(self).data.args.depth as usize,
        ensures
            final(self).wf(),
            final(self).data == old(self).data,
            final(self).send_tasks@ == old(self).send_tasks@,
            final(self).gephi_client == old(self).gephi_client,
            final(self).tasks@.len() == old(self).tasks@.len() + hrefs_of(html@).len(),
            final(self).tasks@.subrange(0, old(self).tasks@.len() as int) == old(self).tasks@,
            forall|i: int|
                0 <= i < hrefs_of(html@).len() ==> {
                    let t = #[trigger] final(self).tasks@[old(self).tasks@.len() + i];
                    &&& t.url@ == hrefs_of(html@)[i]
                    &&& t.from@ == url@
                    &&& t.depth == depth + 1
                },
    {
        let links = select_hrefs(html);
        let n: usize = links.len();
        assert(links.deep_view().len() == n);
        let ghost n0 = self.tasks@.len();
        for i in 0..n
            invariant
                n == links@.len(),
                links.deep_view() == hrefs_of(html@),
                n0 == old(self).tasks@.len(),
                depth < usize::MAX,
                self.data == old(self).data,
                self.send_tasks@ == old(self).send_tasks@,
                self.gephi_client == old(self).gephi_client,
                self.tasks@.len() == n0 + i,
                self.tasks@.subrange(0, n0 as int) == old(self).tasks@,
                forall|j: int|
                    0 <= j < i ==> {
                        let t = #[trigger] self.tasks@[n0 + j];
                        &&& t.url@ == hrefs_of(html@)[j]
                        &&& t.from@ == url@
                        &&& t.depth == depth + 1
                    },
        {
            let link = links[i].clone();
            assert(link@ == links.deep_view()[i as int]);
            self.tasks.push(
                TraversalUnit { url: link, from: String::from_str(url), depth: depth + 1 },
            );
            assert(self.tasks@.subrange(0, n0 as int) =~= old(self).tasks@);
        }
    }

    /// The encyclopedia mode's pre-fetch pipeline for one unit. Queues the
    /// edge report, applies the depth gates and the dedup check, and records
    /// the visit — except for a random-walk hop, which is reported but never
    /// recorded and never deduplicated: it proceeds to its fetch whatever the
    /// visited set holds. Returns whether the URL is to be fetched and
    /// expanded.
    pub fn crawl_wiki_pre(&mut self, url: &str, from: &str, depth: usize) -> (r: bool)
        requires
            old(self).wf(),
        ensures
            final(self).wf(),
            final(self).data.args == old(self).data.args,
            final(self).tasks@ == old(self).tasks@,
            final(self).gephi_client == old(self).gephi_client,
            ({
                let max = old(self).data.args.depth as nat;
                let seen = has_key(old(self).data.visited_urls@, hash_of(url@));
                let records = depth as nat <= max && !is_random_hop(url@) && !seen
                    && wiki_article_ok(url@);
                &&& (depth as nat <= max ==> {
                    &&& final(self).send_tasks@.len() == old(self).send_tasks@.len() + 1
                    &&& final(self).send_tasks@.subrange(
                        0,
                        old(self).send_tasks@.len() as int,
                    ) == old(self).send_tasks@
                    &&& final(self).send_tasks@.last().source@ == from@
                    &&& final(self).send_tasks@.last().target@ == url@
                    &&& final(self).send_tasks@.last().depth == depth
                })
                &&& (depth as nat > max ==> final(self).send_tasks@ == old(self).send_tasks@)
                &&& (records ==> {
                    &&& final(self).data.visited_urls@.len() == old(
                        self,
                    ).data.visited_urls@.len() + 1
                    &&& final(self).data.visited_urls@.subrange(
                        0,
                        old(self).data.visited_urls@.len() as int,
                    ) == old(self).data.visited_urls@
                    &&& final(self).data.visited_urls@.last().url@ == url@
                    &&& final(self).data.visited_urls@.last().found_at@ == from@
                    &&& final(self).data.visited_urls@.last().depth == depth
                })
                &&& (!records ==> final(self).data.visited_urls@ == old(self).data.visited_urls@)
                &&& r == (depth as nat <= max && (is_random_hop(url@) || (!seen
                    && wiki_article_ok(url@))) && depth + 1 <= max)
            }),
    {
        let max: usize = self.data.args.depth as usize;
        if depth > max {
            return false;
        }
        self.send_tasks.push(
            EdgeReportUnit {
                source: String::from_str(from),
                target: String::from_str(url),
                depth,
            },
        );
        assert(self.send_tasks@.subrange(0, old(self).send_tasks@.len() as int) =~= old(
            self,
        ).send_tasks@);
        let uc = chars_of(url);
        let random = contains_sub(&uc, &chars_of("Random"));
        if !random {
            if self.is_visited(url) {
                return false;
            }
            if !wiki_article_check(&uc) {
                return false;
            }
            let rec = Url {
                url: String::from_str(url),
                found_at: String::from_str(from),
                depth,
            };
            let newly = self.try_record(rec);
            assert(newly);
        }
        if depth >= max {
            return false;
        }
        true
    }

    /// The encyclopedia mode's post-fetch expansion. The extracted hrefs are
    /// filtered and resolved into article candidates; without a fixed link
    /// index every candidate becomes a new unit one level deeper, with a
    /// fixed index only the candidate at that position does — and none at
    /// all when the page has too few candidates.
    pub fn crawl_wiki_post(&mut self, url: &str, depth: usize, html: &str)
        requires
            old(self).wf(),
            depth < old(self).data.args.depth as usize,
        ensures
            final(self).wf(),
            final(self).data == old(self).data,
            final(self).send_tasks@ == old(self).send_tasks@,
            final(self).gephi_client == old(self).gephi_client,
            ({
                let cands = wiki_candidates(wiki_hrefs_of(html@));
                match old(self).data.args.command {
                    Command::Html => final(self).tasks@ == old(self).tasks@,
                    Command::Wiki { amount: _, link } => match link {
                        None => {
                            &&& final(self).tasks@.len() == old(self).tasks@.len()
                                + cands.len()
                            &&& final(self).tasks@.subrange(
                                0,
                                old(self).tasks@.len() as int,
                            ) == old(self).tasks@
                            &&& forall|i: int|
                                0 <= i < cands.len() ==> {
                                    let t = #[trigger] final(self).tasks@[old(
                                        self,
                                    ).tasks@.len() + i];
                                    &&& t.url@ == cands[i]
                                    &&& t.from@ == url@
                                    &&& t.depth == depth + 1
                                }
                        },
                        Some(idx) => {
                            &&& (cands.len() > idx as nat ==> {
                                &&& final(self).tasks@.len() == old(self).tasks@.len() + 1
                                &&& final(self).tasks@.subrange(
                                    0,
                                    old(self).tasks@.len() as int,
                                ) == old(self).tasks@
                                &&& final(self).tasks@.last().url@ == cands[idx as int]
                                &&& final(self).tasks@.last().from@ == url@
                                &&& final(self).tasks@.last().depth == depth + 1
                            })
                            &&& (cands.len() <= idx as nat ==> final(self).tasks@ == old(
                                self,
                            ).tasks@)
                        },
                    },
                }
            }),
    {
        let links = select_wiki_hrefs(html);
        let colon = chars_of(":");
        let hashm = chars_of("#");
        let n: usize = links.len();
        assert(links.deep_view().len() == n);
        let mut cands: Vec<String> = Vec::new();
        assert(links.deep_view().skip(0) == links.deep_view());
        for i in 0..n
            invariant
                n == links@.len(),
                links.deep_view() == wiki_hrefs_of(html@),
                colon@ == ":"@,
                hashm@ == "#"@,
                wiki_candidates(wiki_hrefs_of(html@)) =~= cands.deep_view() + wiki_candidates(
                    links.deep_view().skip(i as int),
                ),
        {
            let hc = chars_of(links[i].as_str());
            assert(hc@ == links.deep_view()[i as int]);
            if !contains_sub(&hc, &colon) && !contains_sub(&hc, &hashm) {
                match resolve_wiki(links[i].as_str()) {
                    Some(resolved) => {
                        let ghost before = cands.deep_view();
                        cands.push(resolved);
                        assert(cands.deep_view() =~= before.push(
                            wiki_resolved(links.deep_view()[i as int]).unwrap(),
                        ));
                    },
                    None => {},
                }
            }
            proof {
                let dv = links.deep_view();
                assert(dv.skip(i as int).drop_first() == dv.skip(i + 1));
                assert(dv.skip(i as int)[0] == dv[i as int]);
            }
        }
        assert(wiki_candidates(links.deep_view().skip(n as int)) =~= Seq::<Seq<char>>::empty());
        assert(cands.deep_view() =~= wiki_candidates(wiki_hrefs_of(html@)));
        let m: usize = cands.len();
        let ghost n0 = self.tasks@.len();
        match self.data.args.command {
            Command::Html => {},
            Command::Wiki { amount: _, link } => {
                match link {
                    None => {
                        for i in 0..m
                            invariant
                                m == cands@.len(),
                                cands.deep_view() =~= wiki_candidates(wiki_hrefs_of(html@)),
                                n0 == old(self).tasks@.len(),
                                depth < usize::MAX,
                                self.data == old(self).data,
                                self.send_tasks@ == old(self).send_tasks@,
                                self.gephi_client == old(self).gephi_client,
                                self.tasks@.len() == n0 + i,
                                self.tasks@.subrange(0, n0 as int) == old(self).tasks@,
                                forall|j: int|
                                    0 <= j < i ==> {
                                        let t = #[trigger] self.tasks@[n0 + j];
                                        &&& t.url@ == wiki_candidates(wiki_hrefs_of(html@))[j]
                                        &&& t.from@ == url@
                                        &&& t.depth == depth + 1
                                    },
                        {
                            let cand = cands[i].clone();
                            assert(cand@ == cands.deep_view()[i as int]);
                            self.tasks.push(
                                TraversalUnit {
                                    url: cand,
                                    from: String::from_str(url),
                                    depth: depth + 1,
                                },
                            );
                            assert(self.tasks@.subrange(0, n0 as int) =~= old(self).tasks@);
                        }
                    },
                    Some(idx) => {
                        let idx_usize = idx as usize;
                        if cands.len() > idx_usize {
                            let cand = cands[idx_usize].clone();
                            assert(cand@ == cands.deep_view()[idx_usize as int]);
                            self.tasks.push(
                                TraversalUnit {
                                    url: cand,
                                    from: String::from_str(url),
                                    depth: depth + 1,
                                },
                            );
                            assert(self.tasks@.subrange(0, n0 as int) =~= old(self).tasks@);
                        }
                    },
                }
            },
        }
    }

    /// Whether an edge report is suppressed: in the encyclopedia mode a hop
    /// out of the random-article page is not drawn.
    pub open spec fn report_skipped(self, source: Seq<char>) -> bool {
        match self.data.args.command {
            Command::Wiki { amount: _, link: _ } => contains_seq(source, "Random"@),
            Command::Html => false,
        }
    }

    /// The visualization requests for one discovered edge: upserts of the two
    /// endpoint nodes and of the directed edge between them, or nothing when
    /// reporting is disabled or suppressed.
    pub fn gephi_requests(&self, source: &str, target: &str, depth: usize) -> (r: Vec<
        GephiRequest,
    >)
        requires
            depth < usize::MAX,
        ensures
            self.report_skipped(source@) || self.gephi_client is None ==> r@.len() == 0,
            !(self.report_skipped(source@) || self.gephi_client is None) ==> {
                let post = self.gephi_client.unwrap().spec_base_url()
                    + "?operation=updateGraph"@;
                &&& r@.len() == 3
                &&& r@[0].url@ == post
                &&& r@[0].body@ == node_body_of(source@, source@, depth as nat)
                &&& r@[1].url@ == post
                &&& r@[1].body@ == node_body_of(target@, target@, (depth + 1) as nat)
                &&& r@[2].url@ == post
                &&& r@[2].body@ == edge_body_of(
                    source@ + "-"@ + target@,
                    source@,
                    target@,
                    true,
                )
            },
    {
        match self.data.args.command {
            Command::Wiki { amount: _, link: _ } => {
                let sc = chars_of(source);
                if contains_sub(&sc, &chars_of("Random")) {
                    return Vec::new();
                }
            },
            Command::Html => {},
        }
        match &self.gephi_client {
            None => Vec::new(),
            Some(client) => {
                let post = client.post_url();
                let mut edge_id = String::from_str(source);
                edge_id.append("-");
                edge_id.append(target);
                let mut v: Vec<GephiRequest> = Vec::new();
                v.push(
                    GephiRequest {
                        url: post.clone(),
                        body: client.add_node_body(source, source, depth),
                    },
                );
                v.push(
                    GephiRequest {
                        url: post.clone(),
                        body: client.add_node_body(target, target, depth + 1),
                    },
                );
                v.push(
                    GephiRequest {
                        url: post,
                        body: client.add_edge_body(edge_id.as_str(), source, target, true),
                    },
                );
                v
            },
        }
    }

    /// Law (termination and progress): a run over any finite graph ends,
    /// ends with the primary pool empty, and — when the seed itself is owed
    /// a visit — records at least one. The graph is handed in as pages —
    /// pairs of a URL and its document text; a URL without a page expands to
    /// nothing. Each pending unit is either rejected, or recorded and, above
    /// the depth gate, fetched; a fetch claims a page's key forever, so the
    /// pair (unclaimed pages, pending units) falls on every step. In the
    /// encyclopedia mode the graph must hold no random-hop page: a random
    /// hop is fetched without being claimed, so a graph that cycles through
    /// one could be walked forever.
    pub fn run_on_pages(&mut self, pages: &Vec<(String, String)>)
        requires
            old(self).wf(),
            old(self).data.args.command is Wiki ==> forall|i: int|
                0 <= i < pages@.len() ==> !is_random_hop(#[trigger] pages@[i].0@),
        ensures
            final(self).wf(),
            final(self).data.args == old(self).data.args,
            final(self).tasks@.len() == 0,
            final(self).data.visited_urls@.len() >= old(self).data.visited_urls@.len(),
            final(self).data.visited_urls@.subrange(
                0,
                old(self).data.visited_urls@.len() as int,
            ) == old(self).data.visited_urls@,
            final(self).send_tasks@.len() >= old(self).send_tasks@.len(),
            final(self).send_tasks@.subrange(0, old(self).send_tasks@.len() as int) == old(
                self,
            ).send_tasks@,
            seed_claims_visit(old(self).data.args, old(self).data.visited_urls@)
                ==> final(self).data.visited_urls@.len() > old(self).data.visited_urls@.len(),
    {
        self.seed_tasks();
        let mut units = self.take_tasks();
        proof {
            assert(self.data.visited_urls@.subrange(
                0,
                old(self).data.visited_urls@.len() as int,
            ) =~= old(self).data.visited_urls@);
            assert(self.send_tasks@.subrange(0, old(self).send_tasks@.len() as int) =~= old(
                self,
            ).send_tasks@);
            if seed_claims_visit(old(self).data.args, old(self).data.visited_urls@) {
                let w = old(self).tasks@.len() as int;
                match old(self).data.args.command {
                    Command::Html => {},
                    Command::Wiki { amount, link: _ } => {
                        assert(amount > 0);
                    },
                }
                assert(units@[w].url@ == old(self).data.args.url@ && units@[w].depth == 0);
            }
        }
        while units.len() > 0
            invariant
                self.wf(),
                self.data.args == old(self).data.args,
                self.data.args.command is Wiki ==> forall|i: int|
                    0 <= i < pages@.len() ==> !is_random_hop(#[trigger] pages@[i].0@),
                self.tasks@.len() == 0,
                self.data.visited_urls@.len() >= old(self).data.visited_urls@.len(),
                self.data.visited_urls@.subrange(
                    0,
                    old(self).data.visited_urls@.len() as int,
                ) == old(self).data.visited_urls@,
                self.send_tasks@.len() >= old(self).send_tasks@.len(),
                self.send_tasks@.subrange(0, old(self).send_tasks@.len() as int) == old(
                    self,
                ).send_tasks@,
                seed_claims_visit(old(self).data.args, old(self).data.visited_urls@) ==> (
                self.data.visited_urls@.len() > old(self).data.visited_urls@.len() || exists|
                    i: int,
                |
                    0 <= i < units@.len() && (#[trigger] units@[i]).url@ == old(
                        self,
                    ).data.args.url@ && units@[i].depth == 0),
            decreases unclaimed_count(pages@, self.data.visited_urls@), units.len(),
        {
            let ghost ub = units@;
            let u = units.pop().unwrap();
            let ghost u_url = u.url@;
            let ghost u_depth = u.depth;
            let ghost pre_visited = self.data.visited_urls@;
            let ghost pre_send = self.send_tasks@;
            let is_wiki = match self.data.args.command {
                Command::Html => false,
                Command::Wiki { amount: _, link: _ } => true,
            };
            let fetch: Option<String> = if is_wiki {
                if self.crawl_wiki_pre(u.url.as_str(), u.from.as_str(), u.depth) {
                    Some(u.url)
                } else {
                    None
                }
            } else {
                self.crawl_html_pre(u.url.as_str(), u.from.as_str(), u.depth)
            };
            let ghost post_pre_visited = self.data.visited_urls@;
            proof {
                assert(self.data.visited_urls@.subrange(0, pre_visited.len() as int)
                    =~= pre_visited);
                lemma_has_key_extends(pre_visited, self.data.visited_urls@);
                lemma_unclaimed_monotone(pages@, pre_visited, self.data.visited_urls@);
                lemma_prefix_trans(
                    old(self).data.visited_urls@,
                    pre_visited,
                    self.data.visited_urls@,
                );
                assert(self.send_tasks@.subrange(0, pre_send.len() as int) =~= pre_send);
                lemma_prefix_trans(old(self).send_tasks@, pre_send, self.send_tasks@);
            }
            match fetch {
                None => {},
                Some(fetch_url) => {
                    match find_page(pages, &fetch_url) {
                        Some(i) => {
                            proof {
                                assert(pages@[i as int].0@ == fetch_url@);
                                if is_wiki {
                                    // the fetched page is no random hop, so the
                                    // pre-fetch pipeline recorded it
                                    assert(!is_random_hop(fetch_url@));
                                    assert(self.data.visited_urls@.last().url@ == fetch_url@);
                                } else {
                                    assert(self.data.visited_urls@.last().url@ == fetch_url@);
                                }
                                assert(has_key(self.data.visited_urls@, hash_of(fetch_url@)));
                                assert(page_key(pages@[i as int]) == hash_of(fetch_url@));
                                lemma_unclaimed_strict(
                                    pages@,
                                    pre_visited,
                                    self.data.visited_urls@,
                                    i as int,
                                );
                            }
                            let body = pages[i].1.clone();
                            if is_wiki {
                                self.crawl_wiki_post(fetch_url.as_str(), u.depth, body.as_str());
                            } else {
                                self.crawl_html_post(fetch_url.as_str(), u.depth, body.as_str());
                            }
                            let mut fresh_units = self.take_tasks();
                            units.append(&mut fresh_units);
                        },
                        None => {},
                    }
                },
            }
            proof {
                let args0 = old(self).data.args;
                let ov = old(self).data.visited_urls@;
                if seed_claims_visit(args0, ov) && self.data.visited_urls@.len() <= ov.len() {
                    // the visited set has not yet outgrown its starting
                    // length, so no unit has claimed anything: the seed unit
                    // the invariant promises must still be pending
                    assert(pre_visited.len() <= ov.len());
                    let wi = choose|i: int|
                        0 <= i < ub.len() && (#[trigger] ub[i]).url@ == args0.url@ && ub[i].depth
                            == 0;
                    if wi < ub.len() - 1 {
                        assert(units@[wi] == ub[wi]);
                    } else {
                        // the popped unit was the seed itself; since nothing
                        // was claimed yet, the pre-fetch pipeline must have
                        // recorded it — contradicting the unchanged length
                        assert(u_url == args0.url@ && u_depth == 0);
                        assert(pre_visited =~= ov) by {
                            assert forall|j: int| 0 <= j < ov.len() implies pre_visited[j]
                                == ov[j] by {
                                assert(pre_visited.subrange(0, ov.len() as int)[j]
                                    == pre_visited[j]);
                            }
                        }
                        match args0.command {
                            Command::Html => {
                                assert(html_admitted(args0, u_url, u_depth as nat));
                                assert(post_pre_visited.len() == pre_visited.len() + 1);
                            },
                            Command::Wiki { amount: _, link: _ } => {
                                assert(post_pre_visited.len() == pre_visited.len() + 1);
                            },
                        }
                        assert(false);
                    }
                }
            }
        }
    }
}

/// The index of the page stored for `url`, if any.
fn find_page(pages: &Vec<(String, String)>, url: &String) -> (r: Option<usize>)
    ensures
        r is Some ==> r.unwrap() < pages@.len() && pages@[r.unwrap() as int].0@ == url@,
{
    let n: usize = pages.len();
    for i in 0..n
        invariant
            n == pages@.len(),
    {
        if pages[i].0 == *url {
            return Some(i);
        }
    }
    None
}

} // verus!
