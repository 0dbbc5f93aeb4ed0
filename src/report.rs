//! The final report: one numbered block per endpoint, in input order.
use vstd::prelude::*;
use crate::outcome::{BenchmarkResult, ResultView};
use crate::text::{decimal, decimal_text};
use vstd::seq_lib::lemma_flatten_alt_concat;

verus! {

pub open spec fn header_text() -> Seq<char> {
    "\nBenchmark Results:\n=================\n"@
}

/// The block for the `k`-th endpoint (counting from one).
pub open spec fn entry_text(k: nat, r: ResultView) -> Seq<char> {
    "\nEndpoint #"@ + decimal(k) + "\n-----------\n"@ + r.block_text()
}

/// The report's blocks: the one at index `i` is numbered `i + 1` and renders
/// the `i`-th result.
pub open spec fn entries(rs: Seq<ResultView>) -> Seq<Seq<char>> {
    Seq::new(rs.len(), |i: int| entry_text((i + 1) as nat, rs[i]))
}

pub open spec fn report_text(rs: Seq<ResultView>) -> Seq<char> {
    header_text() + entries(rs).flatten_alt()
}

pub open spec fn views(rs: Seq<BenchmarkResult>) -> Seq<ResultView> {
    rs.map_values(|r: BenchmarkResult| r@)
}

/// Renders the report over `results`, numbered in their order.
pub fn render_report(results: &Vec<BenchmarkResult>) -> (r: String)
    requires
        forall|i: int| 0 <= i < results@.len() ==> (#[trigger] results@[i])@.wf(),
    ensures
        r@ == report_text(views(results@)),
{
    let mut s = String::from_str("\nBenchmark Results:\n=================\n");
    let n = results.len();
    let mut i: usize = 0;
    while i < n
        invariant
            n == results@.len(),
            i <= n,
            forall|j: int| 0 <= j < results@.len() ==> (#[trigger] results@[j])@.wf(),
            s@ == header_text() + entries(views(results@).take(i as int)).flatten_alt(),
        decreases n - i,
    {
        let ghost before = entries(views(results@).take(i as int));
        let ghost after = entries(views(results@).take(i + 1));
        assert(after.drop_last() =~= before);
        s.append("\nEndpoint #");
        let number = decimal_text((i + 1) as u64);
        s.append(number.as_str());
        s.append("\n-----------\n");
        let block = results[i].display();
        s.append(block.as_str());
        assert(after.last() == entry_text((i + 1) as nat, results@[i as int]@));
        assert(s@ =~= header_text() + after.flatten_alt());
        i = i + 1;
    }
    assert(views(results@).take(n as int) =~= views(results@));
    s
}

/// Where the block of the `i`-th result begins in the report text.
pub open spec fn block_start(rs: Seq<ResultView>, i: int) -> int {
    (header_text().len() + entries(rs).take(i).flatten_alt().len()) as int
}

proof fn lemma_flatten_split(es: Seq<Seq<char>>, i: int)
    requires
        0 <= i < es.len(),
    ensures
        es.flatten_alt() == es.take(i).flatten_alt() + es[i] + es.skip(i + 1).flatten_alt(),
{
    assert(es =~= es.take(i + 1) + es.skip(i + 1));
    lemma_flatten_alt_concat(es.take(i + 1), es.skip(i + 1));
    assert(es.take(i + 1).drop_last() =~= es.take(i));
}

proof fn lemma_block_at(rs: Seq<ResultView>, i: int)
    requires
        0 <= i < rs.len(),
    ensures
        block_start(rs, i + 1) == block_start(rs, i) + entries(rs)[i].len(),
        0 <= block_start(rs, i) <= block_start(rs, i + 1) <= report_text(rs).len(),
        report_text(rs).subrange(block_start(rs, i), block_start(rs, i + 1)) == entries(rs)[i],
{
    let es = entries(rs);
    let h = header_text();
    lemma_flatten_split(es, i);
    assert(es.take(i + 1).drop_last() =~= es.take(i));
    let pre = h + es.take(i).flatten_alt();
    assert(report_text(rs) =~= pre + es[i] + es.skip(i + 1).flatten_alt());
    assert(report_text(rs).subrange(pre.len() as int, (pre.len() + es[i].len()) as int) =~= es[i]);
}

/// For endpoints probed in order, the report is the header followed by
/// exactly one block per endpoint, back to back in input order: the text
/// between `block_start(rs, i)` and `block_start(rs, i + 1)` is the block
/// numbered `i + 1`, which renders the record of the `i`-th endpoint, and the
/// last block ends where the report ends.
pub proof fn law_one_block_per_endpoint(endpoints: Seq<Seq<char>>, rs: Seq<ResultView>)
    requires
        rs.len() == endpoints.len(),
        forall|i: int| 0 <= i < rs.len() ==> (#[trigger] rs[i]).endpoint == endpoints[i],
    ensures
        report_text(rs).subrange(0, header_text().len() as int) == header_text(),
        block_start(rs, 0) == header_text().len(),
        block_start(rs, endpoints.len() as int) == report_text(rs).len(),
        forall|i: int|
            #![trigger rs[i]]
            0 <= i < endpoints.len() ==> {
                &&& block_start(rs, i + 1) == block_start(rs, i) + entry_text(
                    (i + 1) as nat,
                    rs[i],
                ).len()
                &&& report_text(rs).subrange(block_start(rs, i), block_start(rs, i + 1))
                    == entry_text((i + 1) as nat, rs[i])
                &&& rs[i].endpoint == endpoints[i]
            },
{
    let es = entries(rs);
    let h = header_text();
    assert(report_text(rs).subrange(0, h.len() as int) =~= h);
    assert(es.take(0) =~= Seq::<Seq<char>>::empty());
    assert(es.take(es.len() as int) =~= es);
    assert forall|i: int| #![trigger rs[i]] 0 <= i < endpoints.len() implies {
        &&& block_start(rs, i + 1) == block_start(rs, i) + entry_text((i + 1) as nat, rs[i]).len()
        &&& report_text(rs).subrange(block_start(rs, i), block_start(rs, i + 1))
            == entry_text((i + 1) as nat, rs[i])
        &&& rs[i].endpoint == endpoints[i]
    } by {
        lemma_block_at(rs, i);
        assert(es[i] == entry_text((i + 1) as nat, rs[i]));
    }
}

} // verus!
