//! The clicker endpoints' cached documents: the chart JSON, the distinct
//! download count, and the service version — each rendered to exactly the
//! text its specification names.
//!
//! The documents wrap an `Option`: `None` means no production has ever
//! succeeded (the router maps it to a server error), `Some` carries the last
//! good document. A failed refresh never replaces a `Some` — the memoization
//! cell keeps the last good value (see [`crate::cache`]).
use vstd::prelude::*;

use crate::encode::dec_digits;
use crate::encode::json_string;
use crate::encode::push_json_string;
use crate::encode::push_u64_decimal;
use crate::encode::u64_to_string;
use crate::online_users::get_chart_data;
use crate::online_users::spec_label;
use crate::online_users::ChartData;
use crate::online_users::ChartSample;

verus! {

/// The service version, as handed in by the environment.
#[derive(Clone, Copy, Debug, PartialEq, Eq, Structural)]
pub struct Version(pub u32);

impl Version {
    /// The version as the plain decimal text the version endpoint returns.
    pub fn text(&self) -> (r: String)
        ensures
            r@ == dec_digits(self.0 as nat),
    {
        u64_to_string(self.0 as u64)
    }
}

/// JSON string literals joined with commas.
pub open spec fn joined_json_strings(ls: Seq<Seq<char>>) -> Seq<char>
    decreases ls.len(),
{
    if ls.len() == 0 {
        Seq::empty()
    } else if ls.len() == 1 {
        json_string(ls[0])
    } else {
        joined_json_strings(ls.drop_last()) + seq![','] + json_string(ls.last())
    }
}

/// Decimal numbers joined with commas.
pub open spec fn joined_decimals(cs: Seq<u32>) -> Seq<char>
    decreases cs.len(),
{
    if cs.len() == 0 {
        Seq::empty()
    } else if cs.len() == 1 {
        dec_digits(cs[0] as nat)
    } else {
        joined_decimals(cs.drop_last()) + seq![','] + dec_digits(cs.last() as nat)
    }
}

/// The whole chart document for the given series:
/// `{"labels":[...],"data":[...]}`.
pub open spec fn chart_json_text(labels: Seq<Seq<char>>, counts: Seq<u32>) -> Seq<char> {
    "{\"labels\":["@ + joined_json_strings(labels) + "],\"data\":["@ + joined_decimals(counts)
        + "]}"@
}

/// Appends the chart labels as a comma-separated list of JSON strings.
fn push_joined_labels(out: &mut String, labels: &Vec<String>)
    ensures
        final(out)@ == old(out)@ + joined_json_strings(labels.deep_view()),
{
    let n = labels.len();
    let mut i: usize = 0;
    while i < n
        invariant
            n == labels@.len(),
            i <= n,
            out@ == old(out)@ + joined_json_strings(labels.deep_view().take(i as int)),
        decreases n - i,
    {
        let ghost prefix = labels.deep_view().take(i as int);
        if i > 0 {
            proof {
                reveal_strlit(",");
            }
            out.append(",");
        }
        push_json_string(out, labels[i].as_str());
        i += 1;
        proof {
            assert(labels.deep_view().take(i as int).drop_last() =~= prefix);
            assert(labels.deep_view().take(i as int).last() == labels@[i - 1]@);
            assert(out@ =~= old(out)@ + joined_json_strings(labels.deep_view().take(i as int)));
        }
    }
    proof {
        assert(labels.deep_view().take(n as int) =~= labels.deep_view());
    }
}

/// Appends the chart counts as a comma-separated list of decimal numbers.
fn push_joined_counts(out: &mut String, counts: &Vec<u32>)
    ensures
        final(out)@ == old(out)@ + joined_decimals(counts@),
{
    let n = counts.len();
    let mut i: usize = 0;
    while i < n
        invariant
            n == counts@.len(),
            i <= n,
            out@ == old(out)@ + joined_decimals(counts@.take(i as int)),
        decreases n - i,
    {
        let ghost prefix = counts@.take(i as int);
        if i > 0 {
            proof {
                reveal_strlit(",");
            }
            out.append(",");
        }
        push_u64_decimal(out, counts[i] as u64);
        i += 1;
        proof {
            assert(counts@.take(i as int).drop_last() =~= prefix);
            assert(counts@.take(i as int).last() == counts@[i - 1]);
            assert(out@ =~= old(out)@ + joined_decimals(counts@.take(i as int)));
        }
    }
    proof {
        assert(counts@.take(n as int) =~= counts@);
    }
}

impl ChartData {
    /// Renders the chart series as the JSON document the chart endpoint
    /// returns.
    pub fn to_json(&self) -> (r: String)
        ensures
            r@ == chart_json_text(self.time_labels.deep_view(), self.counts@),
    {
        let mut r = String::new();
        r.append("{\"labels\":[");
        push_joined_labels(&mut r, &self.time_labels);
        r.append("],\"data\":[");
        push_joined_counts(&mut r, &self.counts);
        r.append("]}");
        proof {
            assert(r@ =~= chart_json_text(self.time_labels.deep_view(), self.counts@));
        }
        r
    }
}

/// The cached chart document: the rendered JSON, or nothing while no
/// production has ever succeeded.
#[derive(Clone)]
pub struct ChartJson(pub Option<String>);

impl ChartJson {
    /// The document the given archived samples produce.
    pub fn from_samples(samples: &Vec<ChartSample>) -> (c: ChartJson)
        requires
            forall|i: int| 0 <= i < samples@.len() ==> (#[trigger] samples@[i]).valid(),
        ensures
            c.0 matches Some(json) && json@ == chart_json_text(
                Seq::new(samples@.len(), |i: int| spec_label(samples@[i])),
                Seq::new(samples@.len(), |i: int| samples@[i].count),
            ),
    {
        let data = get_chart_data(samples);
        let json = data.to_json();
        proof {
            assert(data.time_labels.deep_view() =~= Seq::new(
                samples@.len(),
                |i: int| spec_label(samples@[i]),
            ));
            assert(data.counts@ =~= Seq::new(samples@.len(), |i: int| samples@[i].count));
        }
        ChartJson(Some(json))
    }

    /// The state before any successful production: no document at all.
    pub fn unavailable() -> (c: ChartJson)
        ensures
            c.0 is None,
    {
        ChartJson(None)
    }

    /// The document, if any production has ever succeeded. `None` is the
    /// distinct "failed and no stale value exists" condition the router maps
    /// to a server error.
    pub fn json(&self) -> (r: Option<&String>)
        ensures
            self.0 matches Some(j) ==> (r matches Some(rj) && *rj == j),
            self.0 is None ==> r is None,
    {
        self.0.as_ref()
    }
}

/// The cached distinct-download count: the number, or nothing while no
/// production has ever succeeded.
#[derive(Clone)]
pub struct DownloadCount(pub Option<u64>);

impl DownloadCount {
    /// Wraps the count a store query returned (a count is never negative).
    pub fn from_count(c: i64) -> (d: DownloadCount)
        requires
            c >= 0,
        ensures
            d.0 == Some(c as u64),
    {
        DownloadCount(Some(c as u64))
    }

    /// The state before any successful production.
    pub fn unavailable() -> (d: DownloadCount)
        ensures
            d.0 is None,
    {
        DownloadCount(None)
    }

    /// The count as the plain decimal text the endpoint returns, or `None`
    /// when no count was ever produced (the router then answers with a
    /// server error).
    pub fn text(&self) -> (r: Option<String>)
        ensures
            match self.0 {
                Some(c) => r matches Some(s) && s@ == dec_digits(c as nat),
                None => r is None,
            },
    {
        match &self.0 {
            Some(c) => Some(u64_to_string(*c)),
            None => None,
        }
    }
}

} // verus!
