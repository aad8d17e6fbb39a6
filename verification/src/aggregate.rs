use vstd::multiset::Multiset;
use vstd::prelude::*;

use crate::report::FileReport;

verus! {

/// Total of the sizes of a sequence of reports.
pub open spec fn sum_sizes(s: Seq<FileReport>) -> int
    decreases s.len(),
{
    if s.len() == 0 {
        0
    } else {
        sum_sizes(s.drop_last()) + s.last().size
    }
}

/// The sum of sizes is bounded by one maximal size per report.
proof fn lemma_sum_sizes_bound(s: Seq<FileReport>)
    ensures
        0 <= sum_sizes(s) <= s.len() * (u64::MAX as int),
    decreases s.len(),
{
    if s.len() > 0 {
        lemma_sum_sizes_bound(s.drop_last());
        assert((s.len() - 1) * (u64::MAX as int) + (u64::MAX as int) == s.len() * (
        u64::MAX as int)) by (nonlinear_arith);
    }
}

/// Descending order by size.
pub open spec fn sorted_desc(s: Seq<FileReport>) -> bool {
    forall|i: int, j: int| 0 <= i < j < s.len() ==> s[i].size >= s[j].size
}

/// Insert a report into a list kept in descending size order, after every
/// entry at least as large, so equal sizes keep arrival order.
fn insert_desc(out: &mut Vec<FileReport>, x: FileReport)
    requires
        sorted_desc(old(out)@),
    ensures
        sorted_desc(final(out)@),
        final(out)@.to_multiset() == old(out)@.to_multiset().insert(x),
        final(out)@.len() == old(out)@.len() + 1,
{
    broadcast use vstd::seq_lib::to_multiset_insert;

    let mut p: usize = 0;
    while p < out.len() && out[p].size >= x.size
        invariant
            p <= out@.len(),
            out@ == old(out)@,
            forall|k: int| 0 <= k < p ==> out@[k].size >= x.size,
        decreases out@.len() - p,
    {
        p = p + 1;
    }
    out.insert(p, x);
}

/// Sort reports into descending size order; the result is a permutation of
/// the input.
pub fn sort_reports_desc(v: Vec<FileReport>) -> (out: Vec<FileReport>)
    ensures
        sorted_desc(out@),
        out@.to_multiset() == v@.to_multiset(),
        out@.len() == v@.len(),
{
    broadcast use vstd::seq_lib::group_to_multiset_ensures;

    let mut rem = v;
    let mut out: Vec<FileReport> = Vec::new();
    proof {
        assert(out@.to_multiset().add(rem@.to_multiset()) =~= v@.to_multiset());
    }
    while rem.len() > 0
        invariant
            sorted_desc(out@),
            out@.to_multiset().add(rem@.to_multiset()) == v@.to_multiset(),
            out@.len() + rem@.len() == v@.len(),
        decreases rem@.len(),
    {
        let ghost rem_before = rem@;
        let ghost out_before = out@;
        let x = rem.pop().unwrap();
        proof {
            assert(rem_before =~= rem@.push(x));
            vstd::seq_lib::to_multiset_build(rem@, x);
        }
        insert_desc(&mut out, x);
        proof {
            assert(out@.to_multiset() == out_before.to_multiset().insert(x));
            assert(out@.to_multiset().add(rem@.to_multiset()) =~= out_before.to_multiset().add(
                rem_before.to_multiset(),
            ));
        }
    }
    proof {
        assert(rem@.to_multiset() =~= Multiset::<FileReport>::empty());
        assert(out@.to_multiset().add(Multiset::<FileReport>::empty()) =~= out@.to_multiset());
    }
    out
}

/// The final summary: totals and the full report list in descending size
/// order, of which the printed output takes the first ten.
pub struct ScanSummary {
    /// How many reports arrived, one per discovered file.
    pub total_files: u128,
    /// Total bytes over all reports.
    pub total_bytes: u128,
    /// Every report, largest first.
    pub by_size: Vec<FileReport>,
}

/// The single consumer of the result channel: accumulates every report,
/// keeps running counters, and produces the final summary once the channel
/// closes. No report is dropped or double-counted.
pub struct Aggregator {
    /// Every report received so far, in arrival order.
    pub reports: Vec<FileReport>,
    /// Count of reports received; mirrors the shared progress counter.
    pub files_processed: u128,
    /// Total bytes over received reports; mirrors the shared progress
    /// counter.
    pub bytes_processed: u128,
}

impl Aggregator {
    /// The counters always agree with the collection of reports.
    pub open spec fn wf(self) -> bool {
        &&& self.files_processed == self.reports@.len()
        &&& self.bytes_processed == sum_sizes(self.reports@)
    }

    /// A fresh aggregator with nothing received.
    pub fn new() -> (a: Aggregator)
        ensures
            a.wf(),
            a.reports@.len() == 0,
            a.files_processed == 0,
            a.bytes_processed == 0,
    {
        Aggregator { reports: Vec::new(), files_processed: 0, bytes_processed: 0 }
    }

    /// Receive one report: append it and step both counters.
    pub fn ingest(&mut self, rep: FileReport)
        requires
            old(self).wf(),
        ensures
            final(self).wf(),
            final(self).reports@ == old(self).reports@.push(rep),
            final(self).files_processed == old(self).files_processed + 1,
            final(self).bytes_processed == old(self).bytes_processed + rep.size,
    {
        let n: usize = self.reports.len();
        proof {
            lemma_sum_sizes_bound(self.reports@);
            assert((usize::MAX as int) * (u64::MAX as int) + (u64::MAX as int) < (
            u128::MAX as int)) by (nonlinear_arith);
            assert((n as int) * (u64::MAX as int) <= (usize::MAX as int) * (u64::MAX as int)) by (
            nonlinear_arith);
        }
        let size: u64 = rep.size;
        self.files_processed = self.files_processed + 1;
        self.bytes_processed = self.bytes_processed + (size as u128);
        self.reports.push(rep);
        proof {
            assert(self.reports@.drop_last() =~= old(self).reports@);
        }
    }

    /// Close out the run: totals plus every report sorted largest first.
    pub fn finalize(self) -> (s: ScanSummary)
        requires
            self.wf(),
        ensures
            s.total_files == self.reports@.len(),
            s.total_bytes == sum_sizes(self.reports@),
            sorted_desc(s.by_size@),
            s.by_size@.to_multiset() == self.reports@.to_multiset(),
            s.by_size@.len() == self.reports@.len(),
    {
        let total_files: u128 = self.files_processed;
        let total_bytes: u128 = self.bytes_processed;
        let by_size = sort_reports_desc(self.reports);
        ScanSummary { total_files, total_bytes, by_size }
    }
}

/// Any prefix of the sorted report list — the printed top ten in
/// particular — is itself in descending size order and holds only reports
/// that were actually received.
pub proof fn lemma_top_prefix(sorted: Seq<FileReport>, all: Seq<FileReport>, k: int)
    requires
        sorted_desc(sorted),
        sorted.to_multiset() == all.to_multiset(),
        0 <= k <= sorted.len(),
    ensures
        sorted_desc(sorted.take(k)),
        forall|i: int| 0 <= i < k ==> all.contains(#[trigger] sorted[i]),
{
    sorted.to_multiset_ensures();
    all.to_multiset_ensures();
    assert forall|i: int| 0 <= i < k implies all.contains(#[trigger] sorted[i]) by {
        assert(sorted.contains(sorted[i]));
        assert(sorted.to_multiset().count(sorted[i]) > 0);
    }
}

/// When all sizes differ, descending order is strict.
pub proof fn lemma_distinct_sizes_strict(s: Seq<FileReport>)
    requires
        sorted_desc(s),
        forall|i: int, j: int| 0 <= i < j < s.len() ==> s[i].size != s[j].size,
    ensures
        forall|i: int, j: int| 0 <= i < j < s.len() ==> s[i].size > s[j].size,
{
}

} // verus!
