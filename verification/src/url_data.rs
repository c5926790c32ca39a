//! One recorded visit, and its CSV rendering.

use vstd::prelude::*;
use crate::text::{chars_of, dec_chars, dec_of, string_from_chars};

verus! {

/// One accepted, recorded visit: the normalized URL, the page it was found
/// on, and the depth at which it was reached.
pub struct Url {
    pub url: String,
    pub found_at: String,
    pub depth: usize,
}

impl Clone for Url {
    fn clone(&self) -> (r: Self)
        ensures
            r == *self,
    {
        Url { url: self.url.clone(), found_at: self.found_at.clone(), depth: self.depth }
    }
}

/// A CSV field with `,` and newline percent-escaped.
pub open spec fn escape_of(s: Seq<char>) -> Seq<char>
    decreases s.len(),
{
    if s.len() == 0 {
        Seq::empty()
    } else {
        let head = if s[0] == ',' {
            seq!['%', '2', 'C']
        } else if s[0] == '\n' {
            seq!['%', '0', 'A']
        } else {
            seq![s[0]]
        };
        head + escape_of(s.drop_first())
    }
}

/// The CSV row of a record: escaped URL, escaped origin, decimal depth.
pub open spec fn csv_row_of(u: Url) -> Seq<char> {
    escape_of(u.url@) + seq![','] + escape_of(u.found_at@) + seq![','] + dec_of(u.depth as nat)
}

impl Url {
    /// This record as one CSV row, fields escaped.
    pub fn to_csv_row(&self) -> (r: String)
        ensures
            r@ == csv_row_of(*self),
    {
        let mut v = escape_chars(&chars_of(self.url.as_str()));
        v.push(',');
        let mut f = escape_chars(&chars_of(self.found_at.as_str()));
        v.append(&mut f);
        v.push(',');
        let mut d = dec_chars(self.depth);
        v.append(&mut d);
        proof {
            assert(v@ =~= csv_row_of(*self));
        }
        string_from_chars(&v)
    }

    /// `s` with every `,` replaced by `%2C` and every newline by `%0A`.
    pub fn escape_url(s: &str) -> (r: String)
        ensures
            r@ == escape_of(s@),
    {
        let v = escape_chars(&chars_of(s));
        string_from_chars(&v)
    }

    /// A one-line human-readable account of this record.
    pub fn describe(&self) -> (r: String)
        ensures
            r@ == self.url@ + " (found at: "@ + self.found_at@ + ", depth: "@ + dec_of(
                self.depth as nat,
            ) + ")"@,
    {
        let mut r = self.url.clone();
        r.append(" (found at: ");
        r.append(self.found_at.as_str());
        r.append(", depth: ");
        let d = string_from_chars(&dec_chars(self.depth));
        r.append(d.as_str());
        r.append(")");
        r
    }
}

/// `v` with every `,` replaced by `%2C` and every newline by `%0A`.
fn escape_chars(v: &Vec<char>) -> (r: Vec<char>)
    ensures
        r@ == escape_of(v@),
{
    let n: usize = v.len();
    let mut r: Vec<char> = Vec::new();
    assert(v@.skip(0) == v@);
    for i in 0..n
        invariant
            n == v@.len(),
            escape_of(v@) =~= r@ + escape_of(v@.skip(i as int)),
    {
        let c = v[i];
        if c == ',' {
            r.push('%');
            r.push('2');
            r.push('C');
        } else if c == '\n' {
            r.push('%');
            r.push('0');
            r.push('A');
        } else {
            r.push(c);
        }
        assert(v@.skip(i as int).drop_first() == v@.skip(i + 1));
        assert(v@.skip(i as int)[0] == v@[i as int]);
    }
    assert(v@.skip(n as int) =~= Seq::<char>::empty());
    assert(r@ =~= escape_of(v@));
    r
}

} // verus!
