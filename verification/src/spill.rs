//! Append-then-read byte stores for externalized accumulator state, their
//! shared byte-stream contract, and the spill metrics both backends feed.

use vstd::prelude::*;

verus! {

/// Errors of the spill store: a write, read or flush against the backing
/// resource failed.
#[derive(Clone, Copy, PartialEq, Eq, Structural, Debug)]
pub enum SpillError {
    Io,
}

/// Buffer size both backends give their sequential cursors, to amortize
/// per-call overhead.
pub const SPILL_BUFFER_SIZE: usize = 65536;

/// Saturating add over a `u64` counter: metrics never fail, they clamp.
pub open spec fn sat_add(a: int, b: int) -> int {
    if a + b > u64::MAX {
        u64::MAX as int
    } else {
        a + b
    }
}

/// Monotonic spill counters, queryable by external observability tooling.
pub struct SpillMetrics {
    pub mem_spill_count: u64,
    pub mem_spill_size: u64,
    pub mem_spill_iotime: u64,
    pub disk_spill_size: u64,
    pub disk_spill_iotime: u64,
}

fn sat_add_u64(a: u64, b: u64) -> (r: u64)
    ensures
        r as int == sat_add(a as int, b as int),
{
    if a <= u64::MAX - b {
        a + b
    } else {
        u64::MAX
    }
}

impl SpillMetrics {
    pub fn new() -> (r: Self)
        ensures
            r.mem_spill_count == 0 && r.mem_spill_size == 0 && r.mem_spill_iotime == 0
                && r.disk_spill_size == 0 && r.disk_spill_iotime == 0,
    {
        SpillMetrics {
            mem_spill_count: 0,
            mem_spill_size: 0,
            mem_spill_iotime: 0,
            disk_spill_size: 0,
            disk_spill_iotime: 0,
        }
    }
}

/// One write through the memory-managed backend: the written length lands in
/// the memory-spill size counter and the elapsed time in its IO-time counter.
pub fn record_managed_write(m: &mut SpillMetrics, len: u64, elapsed_nanos: u64)
    ensures
        final(m).mem_spill_size as int == sat_add(old(m).mem_spill_size as int, len as int),
        final(m).mem_spill_iotime as int == sat_add(
            old(m).mem_spill_iotime as int,
            elapsed_nanos as int,
        ),
        final(m).mem_spill_count == old(m).mem_spill_count,
        final(m).disk_spill_size == old(m).disk_spill_size,
        final(m).disk_spill_iotime == old(m).disk_spill_iotime,
{
    m.mem_spill_size = sat_add_u64(m.mem_spill_size, len);
    m.mem_spill_iotime = sat_add_u64(m.mem_spill_iotime, elapsed_nanos);
}

/// One read through the memory-managed backend: elapsed time into the
/// memory-spill IO-time counter.
pub fn record_managed_read(m: &mut SpillMetrics, elapsed_nanos: u64)
    ensures
        final(m).mem_spill_iotime as int == sat_add(
            old(m).mem_spill_iotime as int,
            elapsed_nanos as int,
        ),
        final(m).mem_spill_count == old(m).mem_spill_count,
        final(m).mem_spill_size == old(m).mem_spill_size,
        final(m).disk_spill_size == old(m).disk_spill_size,
        final(m).disk_spill_iotime == old(m).disk_spill_iotime,
{
    m.mem_spill_iotime = sat_add_u64(m.mem_spill_iotime, elapsed_nanos);
}

/// Release of a memory-managed spill: the spill is counted, and the
/// end-of-life usage and IO-time queries are best-effort — a failed query
/// (`None`) folds in as zero, so teardown never fails because a reporting
/// query failed.
pub fn record_managed_release(
    m: &mut SpillMetrics,
    disk_usage: Option<u64>,
    disk_iotime: Option<u64>,
)
    ensures
        final(m).mem_spill_count as int == sat_add(old(m).mem_spill_count as int, 1),
        final(m).disk_spill_size as int == sat_add(
            old(m).disk_spill_size as int,
            (match disk_usage {
                Option::Some(u) => u as int,
                Option::None => 0,
            }),
        ),
        final(m).disk_spill_iotime as int == sat_add(
            old(m).disk_spill_iotime as int,
            (match disk_iotime {
                Option::Some(t) => t as int,
                Option::None => 0,
            }),
        ),
        final(m).mem_spill_size == old(m).mem_spill_size,
        final(m).mem_spill_iotime == old(m).mem_spill_iotime,
{
    m.mem_spill_count = sat_add_u64(m.mem_spill_count, 1);
    let usage = match disk_usage {
        Some(u) => u,
        None => 0,
    };
    let iotime = match disk_iotime {
        Some(t) => t,
        None => 0,
    };
    m.disk_spill_size = sat_add_u64(m.disk_spill_size, usage);
    m.disk_spill_iotime = sat_add_u64(m.disk_spill_iotime, iotime);
}

/// One timed IO call of the disk-backed backend: elapsed time into the
/// memory-spill IO-time counter (that backend's reader and writer share it).
pub fn record_file_io(m: &mut SpillMetrics, elapsed_nanos: u64)
    ensures
        final(m).mem_spill_iotime as int == sat_add(
            old(m).mem_spill_iotime as int,
            elapsed_nanos as int,
        ),
        final(m).mem_spill_count == old(m).mem_spill_count,
        final(m).mem_spill_size == old(m).mem_spill_size,
        final(m).disk_spill_size == old(m).disk_spill_size,
        final(m).disk_spill_iotime == old(m).disk_spill_iotime,
{
    m.mem_spill_iotime = sat_add_u64(m.mem_spill_iotime, elapsed_nanos);
}

/// Release of a disk-backed spill: the final file size lands in both the
/// memory-spill and disk-spill size counters — a deliberate convention for
/// this backend, since the two are the same physical bytes, not a double
/// allocation.
pub fn record_file_release(m: &mut SpillMetrics, file_len: u64)
    ensures
        final(m).mem_spill_size as int == sat_add(old(m).mem_spill_size as int, file_len as int),
        final(m).disk_spill_size as int == sat_add(old(m).disk_spill_size as int, file_len as int),
        final(m).mem_spill_count == old(m).mem_spill_count,
        final(m).mem_spill_iotime == old(m).mem_spill_iotime,
        final(m).disk_spill_iotime == old(m).disk_spill_iotime,
{
    m.mem_spill_size = sat_add_u64(m.mem_spill_size, file_len);
    m.disk_spill_size = sat_add_u64(m.disk_spill_size, file_len);
}

/// The two interchangeable backends.
#[derive(Clone, Copy, PartialEq, Eq, Structural, Debug)]
pub enum SpillBackendKind {
    DiskBacked,
    ManagedMemory,
}

/// The factory's backend choice: a private temporary file when executing in
/// the coordinating context or when the managed-memory bridge is unavailable,
/// the external memory coordinator otherwise.
pub fn choose_spill_backend(bridge_inited: bool, driver_side: bool) -> (r: SpillBackendKind)
    ensures
        (r == SpillBackendKind::DiskBacked) <==> (!bridge_inited || driver_side),
        (r == SpillBackendKind::ManagedMemory) <==> (bridge_inited && !driver_side),
{
    if !bridge_inited || driver_side {
        SpillBackendKind::DiskBacked
    } else {
        SpillBackendKind::ManagedMemory
    }
}

/// Write phase, then sealed for reading.
#[derive(Clone, Copy, PartialEq, Eq, Structural, Debug)]
pub enum SpillState {
    Writing,
    Completed,
}

/// Append-then-read byte container: every backend shows these byte-stream
/// semantics, stated over the bytes written, the sealed flag, and a
/// sequential read cursor.
pub trait Spill: Sized {
    /// The bytes written so far, in order.
    spec fn bytes(&self) -> Seq<u8>;

    /// Whether `complete` has sealed the write phase.
    spec fn completed(&self) -> bool;

    /// Position of the sequential read cursor.
    spec fn cursor(&self) -> int;

    /// Appends a buffer during the write phase.
    fn write(&mut self, buf: &Vec<u8>) -> (r: Result<usize, SpillError>)
        requires
            !old(self).completed(),
            old(self).bytes().len() + buf@.len() <= usize::MAX,
        ensures
            r matches Ok(n) ==> n == buf@.len() && final(self).bytes() == old(self).bytes() + buf@
                && !final(self).completed(),
            r is Err ==> final(self).bytes() == old(self).bytes() && final(self).completed()
                == old(self).completed(),
    ;

    /// Seals the write phase and resets the read cursor to the start.
    fn complete(&mut self) -> (r: Result<(), SpillError>)
        requires
            !old(self).completed(),
        ensures
            final(self).bytes() == old(self).bytes(),
            r is Ok ==> final(self).completed() && final(self).cursor() == 0,
            r is Err ==> final(self).completed() == old(self).completed(),
    ;

    /// Sequential read after completion: up to `max_len` bytes from the
    /// cursor, exactly the remaining bytes when fewer are left.
    fn read(&mut self, max_len: usize) -> (r: Result<Vec<u8>, SpillError>)
        requires
            old(self).completed(),
            0 <= old(self).cursor() <= old(self).bytes().len(),
        ensures
            final(self).bytes() == old(self).bytes(),
            final(self).completed(),
            r matches Ok(out) ==> ({
                let start = old(self).cursor();
                let take = if max_len as int <= old(self).bytes().len() - start {
                    max_len as int
                } else {
                    old(self).bytes().len() - start
                };
                out@ == old(self).bytes().subrange(start, start + take) && final(self).cursor()
                    == start + take
            }),
            r is Err ==> final(self).cursor() == old(self).cursor(),
    ;
}

/// The in-memory backend: the byte store held directly in a vector. It is
/// the reference model of the byte-stream semantics and the test double that
/// stands in for the external memory coordinator. No outside resource can
/// fail here, so its impl strengthens the trait contract: every operation
/// succeeds.
pub struct MemSpill {
    pub data: Vec<u8>,
    pub state: SpillState,
    pub pos: usize,
}

/// An independent sequential read cursor over one completed spill.
pub struct SpillReader {
    pub pos: usize,
}

/// Copies `take` bytes of `data` starting at `start`.
fn copy_range(data: &Vec<u8>, start: usize, take: usize) -> (out: Vec<u8>)
    requires
        start + take <= data@.len(),
    ensures
        out@ == data@.subrange(start as int, start as int + take as int),
{
    let n = data.len();
    let mut out: Vec<u8> = Vec::new();
    let mut i: usize = 0;
    while i < take
        invariant
            n == data@.len(),
            start + take <= n,
            i <= take,
            out@ == data@.subrange(start as int, start as int + i as int),
        decreases take - i,
    {
        out.push(data[start + i]);
        i += 1;
        proof {
            assert(out@ =~= data@.subrange(start as int, start as int + i as int));
        }
    }
    out
}

impl MemSpill {
    /// A fresh spill in its write phase.
    pub fn new() -> (r: Self)
        ensures
            r.bytes() == Seq::<u8>::empty(),
            !r.completed(),
            r.cursor() == 0,
    {
        MemSpill { data: Vec::new(), state: SpillState::Writing, pos: 0 }
    }

    /// Opens an independent read cursor; any number may be opened after one
    /// completion.
    pub fn get_reader(&self) -> (r: SpillReader)
        requires
            self.completed(),
        ensures
            r.pos == 0,
    {
        SpillReader { pos: 0 }
    }

    /// Reads up to `max_len` bytes at an independent cursor, advancing only
    /// that cursor.
    pub fn read_with(&self, reader: &mut SpillReader, max_len: usize) -> (out: Vec<u8>)
        requires
            self.completed(),
            old(reader).pos <= self.data@.len(),
        ensures
            ({
                let start = old(reader).pos as int;
                let take = if max_len as int <= self.data@.len() - start {
                    max_len as int
                } else {
                    self.data@.len() - start
                };
                out@ == self.data@.subrange(start, start + take) && final(reader).pos as int
                    == start + take
            }),
    {
        let remaining = self.data.len() - reader.pos;
        let take = if max_len <= remaining {
            max_len
        } else {
            remaining
        };
        let out = copy_range(&self.data, reader.pos, take);
        reader.pos = reader.pos + take;
        out
    }
}

impl Spill for MemSpill {
    open spec fn bytes(&self) -> Seq<u8> {
        self.data@
    }

    open spec fn completed(&self) -> bool {
        self.state is Completed
    }

    open spec fn cursor(&self) -> int {
        self.pos as int
    }

    fn write(&mut self, buf: &Vec<u8>) -> (r: Result<usize, SpillError>)
        ensures
            r is Ok,
    {
        let n = buf.len();
        let mut i: usize = 0;
        while i < n
            invariant
                n == buf@.len(),
                i <= n,
                self.data@ == old(self).data@ + buf@.subrange(0, i as int),
                self.state == old(self).state,
                self.pos == old(self).pos,
            decreases n - i,
        {
            self.data.push(buf[i]);
            i += 1;
            proof {
                assert(self.data@ =~= old(self).data@ + buf@.subrange(0, i as int));
            }
        }
        proof {
            assert(buf@.subrange(0, n as int) =~= buf@);
        }
        Ok(n)
    }

    fn complete(&mut self) -> (r: Result<(), SpillError>)
        ensures
            r is Ok,
    {
        self.state = SpillState::Completed;
        self.pos = 0;
        Ok(())
    }

    fn read(&mut self, max_len: usize) -> (r: Result<Vec<u8>, SpillError>)
        ensures
            r is Ok,
    {
        let remaining = self.data.len() - self.pos;
        let take = if max_len <= remaining {
            max_len
        } else {
            remaining
        };
        let out = copy_range(&self.data, self.pos, take);
        self.pos = self.pos + take;
        Ok(out)
    }
}

/// Total of a script of requested read sizes.
pub open spec fn total_of(counts: Seq<int>) -> int
    decreases counts.len(),
{
    if counts.len() == 0 {
        0
    } else {
        counts[0] + total_of(counts.drop_first())
    }
}

/// The bytes a script of sequential reads returns, starting at `pos`: each
/// read takes its requested size or whatever is left.
pub open spec fn reads_from(bytes: Seq<u8>, pos: int, counts: Seq<int>) -> Seq<u8>
    decreases counts.len(),
{
    if counts.len() == 0 {
        Seq::empty()
    } else {
        let take = if counts[0] <= bytes.len() - pos {
            counts[0]
        } else {
            bytes.len() - pos
        };
        bytes.subrange(pos, pos + take) + reads_from(bytes, pos + take, counts.drop_first())
    }
}

proof fn lemma_total_nonneg(counts: Seq<int>)
    requires
        forall|i: int| 0 <= i < counts.len() ==> counts[i] >= 0,
    ensures
        total_of(counts) >= 0,
    decreases counts.len(),
{
    if counts.len() > 0 {
        let rest = counts.drop_first();
        assert(forall|i: int| 0 <= i < rest.len() ==> rest[i] == counts[i + 1] && rest[i] >= 0);
        lemma_total_nonneg(rest);
    }
}

proof fn lemma_reads_from(bytes: Seq<u8>, pos: int, counts: Seq<int>)
    requires
        0 <= pos <= bytes.len(),
        forall|i: int| 0 <= i < counts.len() ==> counts[i] >= 0,
        pos + total_of(counts) >= bytes.len(),
    ensures
        reads_from(bytes, pos, counts) == bytes.subrange(pos, bytes.len() as int),
    decreases counts.len(),
{
    if counts.len() == 0 {
        assert(reads_from(bytes, pos, counts) =~= bytes.subrange(pos, bytes.len() as int));
    } else {
        let c0 = counts[0];
        assert(c0 >= 0);
        let take = if c0 <= bytes.len() - pos {
            c0
        } else {
            bytes.len() - pos
        };
        let rest = counts.drop_first();
        assert(forall|i: int| 0 <= i < rest.len() ==> rest[i] == counts[i + 1] && rest[i] >= 0);
        lemma_total_nonneg(rest);
        lemma_reads_from(bytes, pos + take, rest);
        assert(bytes.subrange(pos, pos + take) + bytes.subrange(pos + take, bytes.len() as int)
            =~= bytes.subrange(pos, bytes.len() as int));
    }
}

/// Law (round trip): a completed spill holding `bytes`, read from the start
/// by any script of non-negative chunk sizes whose total covers the length —
/// zero bytes, one huge read, or many small ones — returns exactly `bytes`.
pub proof fn lemma_spill_round_trip(bytes: Seq<u8>, counts: Seq<int>)
    requires
        forall|i: int| 0 <= i < counts.len() ==> counts[i] >= 0,
        total_of(counts) >= bytes.len(),
    ensures
        reads_from(bytes, 0, counts) == bytes,
{
    lemma_reads_from(bytes, 0, counts);
    assert(bytes.subrange(0, bytes.len() as int) =~= bytes);
}

} // verus!
