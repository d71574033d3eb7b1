//! The figures of a server container's resource statistics.
use vstd::prelude::*;

use crate::text::{spec_trim, str_eq, trim_char};

verus! {

/// One block device counter of a container.
#[derive(Debug)]
pub struct BlockIoEntry {
    pub op: Option<String>,
    pub value: Option<u64>,
}

/// The byte counters of one network of a container.
#[derive(Debug)]
pub struct NetworkCounters {
    pub rx_bytes: Option<u64>,
    pub tx_bytes: Option<u64>,
}

/// The operation of a counter; a missing one reads as empty.
pub open spec fn op_text(e: BlockIoEntry) -> Seq<char> {
    match e.op {
        Some(o) => o@,
        None => seq![],
    }
}

/// A missing figure counts as zero.
pub open spec fn or_zero(v: Option<u64>) -> nat {
    match v {
        Some(x) => x as nat,
        None => 0,
    }
}

/// The bytes of all counters of operation `op`.
pub open spec fn spec_block_io_sum(entries: Seq<BlockIoEntry>, op: Seq<char>) -> nat
    decreases entries.len(),
{
    if entries.len() == 0 {
        0
    } else {
        spec_block_io_sum(entries.drop_last(), op) + if op_text(entries.last()) == op {
            or_zero(entries.last().value)
        } else {
            0
        }
    }
}

/// The bytes received over all networks.
pub open spec fn spec_rx_sum(nets: Seq<NetworkCounters>) -> nat
    decreases nets.len(),
{
    if nets.len() == 0 {
        0
    } else {
        spec_rx_sum(nets.drop_last()) + or_zero(nets.last().rx_bytes)
    }
}

/// The bytes sent over all networks.
pub open spec fn spec_tx_sum(nets: Seq<NetworkCounters>) -> nat
    decreases nets.len(),
{
    if nets.len() == 0 {
        0
    } else {
        spec_tx_sum(nets.drop_last()) + or_zero(nets.last().tx_bytes)
    }
}

/// The bytes of one counter for operation `op`: its value when it is of that operation.
pub open spec fn entry_bytes(e: BlockIoEntry, op: Seq<char>) -> nat {
    if op_text(e) == op {
        or_zero(e.value)
    } else {
        0
    }
}

/// Block counters add up: the bytes of two runs of counters read one after the other are
/// the sum of the bytes of each, and a single counter gives its own bytes. So every
/// counter of the operation counts, wherever it stands.
pub proof fn lemma_block_io_sum_additive(a: Seq<BlockIoEntry>, b: Seq<BlockIoEntry>, op: Seq<char>)
    ensures
        spec_block_io_sum(a + b, op) == spec_block_io_sum(a, op) + spec_block_io_sum(b, op),
        forall|e: BlockIoEntry| #[trigger] spec_block_io_sum(seq![e], op) == entry_bytes(e, op),
        spec_block_io_sum(Seq::<BlockIoEntry>::empty(), op) == 0,
    decreases b.len(),
{
    if b.len() == 0 {
        assert(a + b =~= a);
    } else {
        lemma_block_io_sum_additive(a, b.drop_last(), op);
        assert((a + b).drop_last() =~= a + b.drop_last());
        assert((a + b).last() == b.last());
    }
    assert forall|e: BlockIoEntry| #[trigger] spec_block_io_sum(seq![e], op) == entry_bytes(
        e,
        op,
    ) by {
        assert(seq![e].drop_last() =~= Seq::<BlockIoEntry>::empty());
        assert(seq![e].last() == e);
        assert(spec_block_io_sum(Seq::<BlockIoEntry>::empty(), op) == 0);
        assert(spec_block_io_sum(seq![e], op) == spec_block_io_sum(seq![e].drop_last(), op)
            + entry_bytes(e, op));
    }
}

/// Network counters add up in the same way, for bytes received and sent.
pub proof fn lemma_network_sums_additive(a: Seq<NetworkCounters>, b: Seq<NetworkCounters>)
    ensures
        spec_rx_sum(a + b) == spec_rx_sum(a) + spec_rx_sum(b),
        spec_tx_sum(a + b) == spec_tx_sum(a) + spec_tx_sum(b),
        forall|n: NetworkCounters| #[trigger] spec_rx_sum(seq![n]) == or_zero(n.rx_bytes),
        forall|n: NetworkCounters| #[trigger] spec_tx_sum(seq![n]) == or_zero(n.tx_bytes),
        spec_rx_sum(Seq::<NetworkCounters>::empty()) == 0,
        spec_tx_sum(Seq::<NetworkCounters>::empty()) == 0,
    decreases b.len(),
{
    if b.len() == 0 {
        assert(a + b =~= a);
    } else {
        lemma_network_sums_additive(a, b.drop_last());
        assert((a + b).drop_last() =~= a + b.drop_last());
        assert((a + b).last() == b.last());
    }
    assert forall|n: NetworkCounters| #[trigger] spec_rx_sum(seq![n]) == or_zero(n.rx_bytes) by {
        assert(seq![n].drop_last() =~= Seq::<NetworkCounters>::empty());
        assert(seq![n].last() == n);
        assert(spec_rx_sum(Seq::<NetworkCounters>::empty()) == 0);
        assert(spec_rx_sum(seq![n]) == spec_rx_sum(seq![n].drop_last()) + or_zero(n.rx_bytes));
    }
    assert forall|n: NetworkCounters| #[trigger] spec_tx_sum(seq![n]) == or_zero(n.tx_bytes) by {
        assert(seq![n].drop_last() =~= Seq::<NetworkCounters>::empty());
        assert(seq![n].last() == n);
        assert(spec_tx_sum(Seq::<NetworkCounters>::empty()) == 0);
        assert(spec_tx_sum(seq![n]) == spec_tx_sum(seq![n].drop_last()) + or_zero(n.tx_bytes));
    }
}

proof fn lemma_block_io_prefix(entries: Seq<BlockIoEntry>, op: Seq<char>, k: int)
    requires
        0 <= k <= entries.len(),
    ensures
        spec_block_io_sum(entries.subrange(0, k), op) <= spec_block_io_sum(entries, op),
    decreases entries.len() - k,
{
    if k < entries.len() {
        lemma_block_io_prefix(entries, op, k + 1);
        assert(entries.subrange(0, k + 1).drop_last() =~= entries.subrange(0, k));
    } else {
        assert(entries.subrange(0, k) =~= entries);
    }
}

proof fn lemma_network_prefix(nets: Seq<NetworkCounters>, k: int)
    requires
        0 <= k <= nets.len(),
    ensures
        spec_rx_sum(nets.subrange(0, k)) <= spec_rx_sum(nets),
        spec_tx_sum(nets.subrange(0, k)) <= spec_tx_sum(nets),
    decreases nets.len() - k,
{
    if k < nets.len() {
        lemma_network_prefix(nets, k + 1);
        assert(nets.subrange(0, k + 1).drop_last() =~= nets.subrange(0, k));
    } else {
        assert(nets.subrange(0, k) =~= nets);
    }
}

fn value_or_zero(v: Option<u64>) -> (r: u64)
    ensures
        r as nat == or_zero(v),
{
    match v {
        Some(x) => x,
        None => 0,
    }
}

/// Whether counter `e` is one of operation `op`.
fn counts_for(e: &BlockIoEntry, op: &str) -> (r: bool)
    ensures
        r == (op_text(*e) == op@),
{
    let r = match &e.op {
        Some(o) => str_eq(o.as_str(), op),
        None => str_eq("", op),
    };
    proof {
        reveal_strlit("");
        assert(""@ =~= Seq::<char>::empty());
    }
    r
}

/// Whether the bytes of all counters of operation `op` fit in 64 bits.
fn block_io_sum_fits(entries: &Vec<BlockIoEntry>, op: &str) -> (r: bool)
    ensures
        r == (spec_block_io_sum(entries@, op@) <= u64::MAX),
{
    let mut total: u64 = 0;
    let mut i: usize = 0;
    while i < entries.len()
        invariant
            i <= entries@.len(),
            total as nat == spec_block_io_sum(entries@.subrange(0, i as int), op@),
        decreases entries@.len() - i,
    {
        proof {
            lemma_block_io_prefix(entries@, op@, i + 1);
            assert(entries@.subrange(0, i + 1).drop_last() =~= entries@.subrange(0, i as int));
            assert(entries@.subrange(0, i + 1).last() == entries@[i as int]);
        }
        let e = &entries[i];
        if counts_for(e, op) {
            match total.checked_add(value_or_zero(e.value)) {
                Some(t) => total = t,
                None => return false,
            }
        }
        i = i + 1;
    }
    proof {
        assert(entries@.subrange(0, entries@.len() as int) =~= entries@);
    }
    true
}

/// Whether the bytes received (`rx`) or sent (`!rx`) over all networks fit in 64 bits.
fn network_sum_fits(nets: &Vec<NetworkCounters>, rx: bool) -> (r: bool)
    ensures
        rx ==> r == (spec_rx_sum(nets@) <= u64::MAX),
        !rx ==> r == (spec_tx_sum(nets@) <= u64::MAX),
{
    let mut total: u64 = 0;
    let mut i: usize = 0;
    while i < nets.len()
        invariant
            i <= nets@.len(),
            rx ==> total as nat == spec_rx_sum(nets@.subrange(0, i as int)),
            !rx ==> total as nat == spec_tx_sum(nets@.subrange(0, i as int)),
        decreases nets@.len() - i,
    {
        proof {
            lemma_network_prefix(nets@, i + 1);
            assert(nets@.subrange(0, i + 1).drop_last() =~= nets@.subrange(0, i as int));
            assert(nets@.subrange(0, i + 1).last() == nets@[i as int]);
        }
        let v = if rx {
            value_or_zero(nets[i].rx_bytes)
        } else {
            value_or_zero(nets[i].tx_bytes)
        };
        match total.checked_add(v) {
            Some(t) => total = t,
            None => return false,
        }
        i = i + 1;
    }
    proof {
        assert(nets@.subrange(0, nets@.len() as int) =~= nets@);
    }
    true
}

/// The bytes of all counters of operation `op` (`read` or `write`).
pub fn sum_block_io(entries: &Vec<BlockIoEntry>, op: &str) -> (r: u64)
    requires
        spec_block_io_sum(entries@, op@) <= u64::MAX,
    ensures
        r as nat == spec_block_io_sum(entries@, op@),
{
    let mut total: u64 = 0;
    let mut i: usize = 0;
    while i < entries.len()
        invariant
            i <= entries@.len(),
            spec_block_io_sum(entries@, op@) <= u64::MAX,
            total as nat == spec_block_io_sum(entries@.subrange(0, i as int), op@),
        decreases entries@.len() - i,
    {
        proof {
            lemma_block_io_prefix(entries@, op@, i + 1);
            assert(entries@.subrange(0, i + 1).drop_last() =~= entries@.subrange(0, i as int));
        }
        let e = &entries[i];
        let matches_op = counts_for(e, op);
        proof {
            assert(entries@.subrange(0, i + 1).last() == entries@[i as int]);
        }
        if matches_op {
            total = total + value_or_zero(e.value);
        }
        i = i + 1;
    }
    proof {
        assert(entries@.subrange(0, entries@.len() as int) =~= entries@);
    }
    total
}

/// The bytes received and sent over all networks.
pub fn sum_network(nets: &Vec<NetworkCounters>) -> (r: (u64, u64))
    requires
        spec_rx_sum(nets@) <= u64::MAX,
        spec_tx_sum(nets@) <= u64::MAX,
    ensures
        r.0 as nat == spec_rx_sum(nets@),
        r.1 as nat == spec_tx_sum(nets@),
{
    let mut rx: u64 = 0;
    let mut tx: u64 = 0;
    let mut i: usize = 0;
    while i < nets.len()
        invariant
            i <= nets@.len(),
            spec_rx_sum(nets@) <= u64::MAX,
            spec_tx_sum(nets@) <= u64::MAX,
            rx as nat == spec_rx_sum(nets@.subrange(0, i as int)),
            tx as nat == spec_tx_sum(nets@.subrange(0, i as int)),
        decreases nets@.len() - i,
    {
        proof {
            lemma_network_prefix(nets@, i + 1);
            assert(nets@.subrange(0, i + 1).drop_last() =~= nets@.subrange(0, i as int));
        }
        rx = rx + value_or_zero(nets[i].rx_bytes);
        tx = tx + value_or_zero(nets[i].tx_bytes);
        i = i + 1;
    }
    proof {
        assert(nets@.subrange(0, nets@.len() as int) =~= nets@);
    }
    (rx, tx)
}

/// The raw statistics of a container, as far as the summary reads them.
#[derive(Debug)]
pub struct StatsInput {
    pub io_service_bytes_recursive: Vec<BlockIoEntry>,
    pub networks: Vec<NetworkCounters>,
    pub name: Option<String>,
    pub id: Option<String>,
    pub mem_usage: Option<u64>,
    pub mem_limit: Option<u64>,
    pub pid_count: Option<u64>,
}

/// The integer figures of a container's statistics.
#[derive(Debug)]
pub struct StatsSummary {
    pub block_io_read: u64,
    pub block_io_write: u64,
    pub name: String,
    pub id: String,
    pub mem_usage: u64,
    pub mem_limit: u64,
    pub network_rx_bytes: u64,
    pub network_tx_bytes: u64,
    pub pid_count: u64,
}

/// Whether every sum of a summary fits in 64 bits.
pub open spec fn stats_fit(input: StatsInput) -> bool {
    &&& spec_block_io_sum(input.io_service_bytes_recursive@, "read"@) <= u64::MAX
    &&& spec_block_io_sum(input.io_service_bytes_recursive@, "write"@) <= u64::MAX
    &&& spec_rx_sum(input.networks@) <= u64::MAX
    &&& spec_tx_sum(input.networks@) <= u64::MAX
}

/// Whether every sum of the summary of `input` fits in 64 bits, so that it can be made.
pub fn stats_fit_check(input: &StatsInput) -> (r: bool)
    ensures
        r == stats_fit(*input),
{
    block_io_sum_fits(&input.io_service_bytes_recursive, "read") && block_io_sum_fits(
        &input.io_service_bytes_recursive,
        "write",
    ) && network_sum_fits(&input.networks, true) && network_sum_fits(&input.networks, false)
}

fn text_or_empty(v: &Option<String>) -> (r: String)
    ensures
        r@ == match v {
            Some(s) => s@,
            None => Seq::<char>::empty(),
        },
{
    match v {
        Some(s) => s.clone(),
        None => String::new(),
    }
}

/// The summary of a container's statistics: read and written block bytes, received and
/// sent network bytes summed over all counters, the container name without its `/`, and
/// the single figures with missing ones as zero.
pub fn summarize_stats(input: &StatsInput) -> (r: StatsSummary)
    requires
        stats_fit(*input),
    ensures
        r.block_io_read as nat == spec_block_io_sum(input.io_service_bytes_recursive@, "read"@),
        r.block_io_write as nat == spec_block_io_sum(input.io_service_bytes_recursive@, "write"@),
        r.network_rx_bytes as nat == spec_rx_sum(input.networks@),
        r.network_tx_bytes as nat == spec_tx_sum(input.networks@),
        r.name@ == spec_trim(
            match input.name {
                Some(s) => s@,
                None => Seq::<char>::empty(),
            },
            '/',
        ),
        r.id@ == match input.id {
            Some(s) => s@,
            None => Seq::<char>::empty(),
        },
        r.mem_usage as nat == or_zero(input.mem_usage),
        r.mem_limit as nat == or_zero(input.mem_limit),
        r.pid_count as nat == or_zero(input.pid_count),
{
    let block_io_read = sum_block_io(&input.io_service_bytes_recursive, "read");
    let block_io_write = sum_block_io(&input.io_service_bytes_recursive, "write");
    let (network_rx_bytes, network_tx_bytes) = sum_network(&input.networks);
    let raw_name = text_or_empty(&input.name);
    let name = trim_char(raw_name.as_str(), '/');
    StatsSummary {
        block_io_read,
        block_io_write,
        name,
        id: text_or_empty(&input.id),
        mem_usage: value_or_zero(input.mem_usage),
        mem_limit: value_or_zero(input.mem_limit),
        network_rx_bytes,
        network_tx_bytes,
        pid_count: value_or_zero(input.pid_count),
    }
}

} // verus!
