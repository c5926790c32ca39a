//! CSV serialization of the final visited set.
//!
//! Writing the text to a file or to standard output is I/O and stays outside
//! the library; `csv` only produces the text.

use vstd::prelude::*;
use vstd::string::StringExecFns;
use crate::url_data::{csv_row_of, Url};

verus! {

/// The rows of the CSV export, one per record, each ending in a newline.
pub open spec fn csv_rows_of(urls: Seq<Url>) -> Seq<char>
    decreases urls.len(),
{
    if urls.len() == 0 {
        Seq::empty()
    } else {
        csv_row_of(urls[0]) + seq!['\n'] + csv_rows_of(urls.drop_first())
    }
}

/// The whole CSV export: the header line, then one row per record.
pub open spec fn csv_of(urls: Seq<Url>) -> Seq<char> {
    "Target,Source,Depth\n"@ + csv_rows_of(urls)
}

/// Serializes a snapshot of visited records to CSV.
pub struct Exporter {
    pub urls: Vec<Url>,
}

impl Exporter {
    pub fn new(urls: Vec<Url>) -> (r: Self)
        ensures
            r.urls == urls,
    {
        Exporter { urls }
    }

    /// The CSV text for the held records: header, then one escaped row each.
    pub fn csv(&self) -> (r: String)
        ensures
            r@ == csv_of(self.urls@),
    {
        let mut r = String::new();
        r.append("Target,Source,Depth\n");
        let n: usize = self.urls.len();
        assert(self.urls@.skip(0) == self.urls@);
        for i in 0..n
            invariant
                n == self.urls@.len(),
                csv_of(self.urls@) =~= r@ + csv_rows_of(self.urls@.skip(i as int)),
        {
            let row = self.urls[i].to_csv_row();
            r.append(row.as_str());
            r.append("\n");
            proof {
                assert(self.urls@.skip(i as int).drop_first() == self.urls@.skip(i + 1));
                assert(self.urls@.skip(i as int)[0] == self.urls@[i as int]);
                reveal_strlit("\n");
                assert("\n"@ =~= seq!['\n']);
            }
        }
        assert(csv_rows_of(self.urls@.skip(n as int)) =~= Seq::<char>::empty());
        assert(r@ =~= csv_of(self.urls@));
        r
    }
}

} // verus!
