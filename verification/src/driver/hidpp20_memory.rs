//! Onboard-profile memory of HID++ 2.0 devices: reading and writing
//! sectors in chunks of 16 bytes, and the profile directory in sector 0.
//!
//! Every sector ends in the CRC-CCITT checksum of the bytes before it, high
//! byte first.

use vstd::prelude::*;
use crate::device::{ProfileInfo, ProfileModel, profiles_view};
use crate::driver::hidpp::{
    be16, hi8, lo8, seal_sector, sector_crc_ok, u16_from_be, u16_hi, u16_lo, with_crc,
};

verus! {

/// How often the write of one sector is tried.
pub const WRITE_RETRIES: u8 = 3;

/// The pause after a failed write grows by this many milliseconds with each
/// attempt.
pub const WRITE_BACKOFF_MS: u64 = 15;

/// An array of sixteen bytes that starts with `head` and is zero after it.
pub open spec fn padded16(head: Seq<u8>) -> Seq<u8> {
    Seq::new(16, |i: int| if i < head.len() { head[i] } else { 0u8 })
}

// ---------------------------------------------------------------------------
// Reading a sector
// ---------------------------------------------------------------------------

/// The progress of reading the bytes `cur..end` of one sector, of which
/// `data` holds what was read so far.
#[derive(Debug, Clone)]
pub struct SectorRead {
    pub sector: u16,
    pub start: u16,
    pub end: u16,
    pub cur: u16,
    pub data: Vec<u8>,
}

/// The mathematical value of a [`SectorRead`].
pub struct SectorReadModel {
    pub sector: u16,
    pub start: u16,
    pub end: u16,
    pub cur: u16,
    pub data: Seq<u8>,
}

impl View for SectorRead {
    type V = SectorReadModel;

    open spec fn view(&self) -> SectorReadModel {
        SectorReadModel {
            sector: self.sector,
            start: self.start,
            end: self.end,
            cur: self.cur,
            data: self.data@,
        }
    }
}

impl SectorReadModel {
    pub open spec fn wf(self) -> bool {
        self.start <= self.cur <= self.end && self.data.len() == self.cur - self.start
    }

    pub open spec fn done(self) -> bool {
        self.cur >= self.end
    }

    /// How many bytes the next chunk adds: sixteen, or what is left.
    pub open spec fn chunk_len(self) -> int {
        if self.end - self.cur < 16 {
            self.end - self.cur
        } else {
            16
        }
    }

    /// The offset that the next request asks for. A chunk of fewer than
    /// sixteen bytes is read from sixteen bytes before the end of the range
    /// (from 0 where the range ends before byte 16), so that the request
    /// never reaches past the end of the range.
    pub open spec fn request_offset(self) -> int {
        if self.chunk_len() < 16 {
            if self.end >= 16 {
                self.end - 16
            } else {
                0
            }
        } else {
            self.cur as int
        }
    }

    /// The parameters of the next read request: sector and offset, both
    /// high byte first.
    pub open spec fn request_params(self) -> Seq<u8> {
        let off = self.request_offset() as u16;
        padded16(seq![hi8(self.sector), lo8(self.sector), hi8(off), lo8(off)])
    }

    /// The part of a 16-byte response that belongs to the range: its start
    /// where the request was made at the current position, else its tail.
    pub open spec fn kept(self, response: Seq<u8>) -> Seq<u8> {
        if self.request_offset() == self.cur {
            response.subrange(0, self.chunk_len())
        } else {
            response.subrange(16 - self.chunk_len(), 16)
        }
    }

    /// The state after the response to the next request.
    pub open spec fn accept(self, response: Seq<u8>) -> SectorReadModel {
        SectorReadModel {
            cur: (self.cur + self.chunk_len()) as u16,
            data: self.data + self.kept(response),
            ..self
        }
    }

    /// What the read returns when the device holds `memory` in the sector
    /// and answers each request with the sixteen bytes at its offset.
    pub open spec fn finish_from(self, memory: Seq<u8>) -> Seq<u8>
        decreases self.end - self.cur,
    {
        if self.cur >= self.end {
            self.data
        } else {
            let off = self.request_offset();
            self.accept(memory.subrange(off, off + 16)).finish_from(memory)
        }
    }

    /// Whether every request that is still to come asks for sixteen bytes
    /// that lie inside a sector of `size` bytes.
    pub open spec fn requests_within(self, size: int) -> bool
        decreases self.end - self.cur,
    {
        if self.cur >= self.end {
            true
        } else {
            let off = self.request_offset();
            0 <= off && off + 16 <= size && self.accept(Seq::new(16, |i: int| 0u8)).requests_within(
                size,
            )
        }
    }
}

impl SectorRead {
    /// The read of `size` bytes from `offset` in `sector`, nothing read yet.
    pub fn new(sector: u16, offset: u16, size: u16) -> (r: Self)
        requires
            offset + size <= 0xFFFF,
        ensures
            r@ == (SectorReadModel {
                sector,
                start: offset,
                end: (offset + size) as u16,
                cur: offset,
                data: Seq::empty(),
            }),
            r@.wf(),
    {
        SectorRead { sector, start: offset, end: offset + size, cur: offset, data: Vec::new() }
    }

    pub fn is_done(&self) -> (r: bool)
        ensures
            r == self@.done(),
    {
        self.cur >= self.end
    }

    /// Whether the progress is consistent: the position lies in the range
    /// and the data read so far has the length that the position says.
    pub fn is_valid(&self) -> (r: bool)
        ensures
            r == self@.wf(),
    {
        self.start <= self.cur && self.cur <= self.end && self.data.len() == (self.cur
            - self.start) as usize
    }

    /// The parameters of the next read request.
    pub fn next_request(&self) -> (r: [u8; 16])
        requires
            self@.wf(),
            !self@.done(),
        ensures
            r@ == self@.request_params(),
    {
        let left = self.end - self.cur;
        let off: u16 = if left < 16 {
            if self.end >= 16 {
                self.end - 16
            } else {
                0
            }
        } else {
            self.cur
        };
        let mut bytes = [0u8; 16];
        bytes[0] = u16_hi(self.sector);
        bytes[1] = u16_lo(self.sector);
        bytes[2] = u16_hi(off);
        bytes[3] = u16_lo(off);
        assert(bytes@ =~= self@.request_params());
        bytes
    }

    /// Takes the response to the last request.
    pub fn accept(&mut self, response: &[u8; 16])
        requires
            old(self)@.wf(),
            !old(self)@.done(),
        ensures
            final(self)@ == old(self)@.accept(response@),
            final(self)@.wf(),
    {
        let left = self.end - self.cur;
        let chunk: u16 = if left < 16 {
            left
        } else {
            16
        };
        let off: u16 = if left < 16 {
            if self.end >= 16 {
                self.end - 16
            } else {
                0
            }
        } else {
            self.cur
        };
        let from: usize = if off == self.cur {
            0
        } else {
            (16 - chunk) as usize
        };
        let ghost kept = old(self)@.kept(response@);
        let mut i: usize = 0;
        while i < chunk as usize
            invariant
                i <= chunk <= 16,
                from + chunk <= 16,
                kept == response@.subrange(from as int, from + chunk),
                self.data@ == old(self).data@ + kept.subrange(0, i as int),
                self.sector == old(self).sector,
                self.start == old(self).start,
                self.end == old(self).end,
                self.cur == old(self).cur,
            decreases chunk - i,
        {
            self.data.push(response[from + i]);
            i += 1;
            assert(self.data@ =~= old(self).data@ + kept.subrange(0, i as int));
        }
        assert(kept.subrange(0, chunk as int) =~= kept);
        self.cur = self.cur + chunk;
    }
}

/// Reading a range of a sector returns exactly the bytes of that range, and
/// no request reaches past the end of the sector.
///
/// This holds for a sector of at least sixteen bytes and a range that
/// starts at 0 or ends at or after byte 16.
pub proof fn lemma_sector_read_exact(memory: Seq<u8>, sector: u16, offset: u16, size: u16)
    requires
        offset + size <= memory.len() <= 0xFFFF,
        memory.len() >= 16,
        offset == 0 || offset + size >= 16,
    ensures
        (SectorReadModel {
            sector,
            start: offset,
            end: (offset + size) as u16,
            cur: offset,
            data: Seq::empty(),
        }).finish_from(memory) == memory.subrange(offset as int, offset + size),
        (SectorReadModel {
            sector,
            start: offset,
            end: (offset + size) as u16,
            cur: offset,
            data: Seq::empty(),
        }).requests_within(memory.len() as int),
{
    let s = SectorReadModel {
        sector,
        start: offset,
        end: (offset + size) as u16,
        cur: offset,
        data: Seq::empty(),
    };
    assert(s.data =~= memory.subrange(offset as int, offset as int));
    lemma_sector_read_rest(memory, s);
}

proof fn lemma_sector_read_rest(memory: Seq<u8>, s: SectorReadModel)
    requires
        s.wf(),
        s.end <= memory.len() <= 0xFFFF,
        memory.len() >= 16,
        s.start == 0 || s.end >= 16,
        (s.cur - s.start) % 16 == 0 || s.cur == s.end,
        s.data == memory.subrange(s.start as int, s.cur as int),
    ensures
        s.finish_from(memory) == memory.subrange(s.start as int, s.end as int),
        s.requests_within(memory.len() as int),
    decreases s.end - s.cur,
{
    if s.cur < s.end {
        let off = s.request_offset();
        let response = memory.subrange(off, off + 16);
        let next = s.accept(response);
        assert(s.kept(response) =~= memory.subrange(s.cur as int, s.cur + s.chunk_len()));
        assert(next.data =~= memory.subrange(s.start as int, next.cur as int));
        lemma_sector_read_rest(memory, next);
        let blank = s.accept(Seq::new(16, |i: int| 0u8));
        lemma_requests_ignore_data(blank, next, memory.len() as int);
    } else {
        assert(s.cur == s.end);
    }
}

/// Which requests a read makes does not depend on what was read.
proof fn lemma_requests_ignore_data(a: SectorReadModel, b: SectorReadModel, size: int)
    requires
        a.sector == b.sector,
        a.start == b.start,
        a.end == b.end,
        a.cur == b.cur,
    ensures
        a.requests_within(size) == b.requests_within(size),
    decreases a.end - a.cur,
{
    if a.cur < a.end {
        let z = Seq::new(16, |i: int| 0u8);
        lemma_requests_ignore_data(a.accept(z), b.accept(z), size);
    }
}

// ---------------------------------------------------------------------------
// Writing a sector
// ---------------------------------------------------------------------------

/// Which call of a sector write comes next.
#[derive(Debug, Clone, Copy, PartialEq, Eq, Structural)]
pub enum WritePhase {
    /// The announcement of address and length.
    Announce,
    /// The chunk that starts at this position of the data.
    Chunk(usize),
    /// The end marker.
    End,
}

/// The progress of writing `data` to a sector: the announcement, the data in
/// chunks of sixteen bytes, the end marker. Where any call fails, the whole
/// sequence starts again after a pause, up to [`WRITE_RETRIES`] times.
#[derive(Debug, Clone)]
pub struct SectorWrite {
    pub sector: u16,
    pub offset: u16,
    pub data: Vec<u8>,
    /// How many attempts have failed.
    pub failed: u8,
    pub phase: WritePhase,
}

pub struct SectorWriteModel {
    pub sector: u16,
    pub offset: u16,
    pub data: Seq<u8>,
    pub failed: u8,
    pub phase: WritePhase,
}

impl View for SectorWrite {
    type V = SectorWriteModel;

    open spec fn view(&self) -> SectorWriteModel {
        SectorWriteModel {
            sector: self.sector,
            offset: self.offset,
            data: self.data@,
            failed: self.failed,
            phase: self.phase,
        }
    }
}

/// What follows a call of a sector write.
#[derive(Debug, Clone, Copy, PartialEq, Eq, Structural)]
pub enum WriteStep {
    /// The next call of the sequence is due.
    Call,
    /// The attempt failed: pause this long, then start the sequence again.
    Backoff { ms: u64 },
    /// The sector is written.
    Done,
    /// The last attempt failed.
    Failed,
}

/// The three functions of the onboard-profiles feature that a write calls.
#[derive(Debug, Clone, Copy, PartialEq, Eq, Structural)]
pub enum WriteCall {
    Announce,
    Data,
    End,
}

impl SectorWriteModel {
    pub open spec fn wf(self) -> bool {
        &&& self.data.len() <= 0xFFFF
        &&& self.failed < WRITE_RETRIES
        &&& match self.phase {
            WritePhase::Chunk(pos) => pos < self.data.len() && pos % 16 == 0,
            _ => true,
        }
    }

    /// The function that the next call invokes.
    pub open spec fn call(self) -> WriteCall {
        match self.phase {
            WritePhase::Announce => WriteCall::Announce,
            WritePhase::Chunk(_) => WriteCall::Data,
            WritePhase::End => WriteCall::End,
        }
    }

    /// The parameters of the next call: for the announcement the sector,
    /// the offset and the length, each high byte first; for a chunk its
    /// bytes, zero-padded; for the end marker sixteen zero bytes.
    pub open spec fn params(self) -> Seq<u8> {
        match self.phase {
            WritePhase::Announce => {
                let len = self.data.len() as u16;
                padded16(
                    seq![
                        hi8(self.sector),
                        lo8(self.sector),
                        hi8(self.offset),
                        lo8(self.offset),
                        hi8(len),
                        lo8(len),
                    ],
                )
            },
            WritePhase::Chunk(pos) => padded16(
                self.data.subrange(
                    pos as int,
                    if pos + 16 <= self.data.len() {
                        pos + 16
                    } else {
                        self.data.len() as int
                    },
                ),
            ),
            WritePhase::End => padded16(Seq::empty()),
        }
    }

    /// The state and the step after the next call succeeded or failed.
    pub open spec fn after(self, ok: bool) -> (SectorWriteModel, WriteStep) {
        if ok {
            match self.phase {
                WritePhase::Announce => if self.data.len() > 0 {
                    (SectorWriteModel { phase: WritePhase::Chunk(0), ..self }, WriteStep::Call)
                } else {
                    (SectorWriteModel { phase: WritePhase::End, ..self }, WriteStep::Call)
                },
                WritePhase::Chunk(pos) => if pos + 16 < self.data.len() {
                    (
                        SectorWriteModel { phase: WritePhase::Chunk((pos + 16) as usize), ..self },
                        WriteStep::Call,
                    )
                } else {
                    (SectorWriteModel { phase: WritePhase::End, ..self }, WriteStep::Call)
                },
                WritePhase::End => (self, WriteStep::Done),
            }
        } else if self.failed + 1 < WRITE_RETRIES {
            (
                SectorWriteModel {
                    failed: (self.failed + 1) as u8,
                    phase: WritePhase::Announce,
                    ..self
                },
                WriteStep::Backoff { ms: (WRITE_BACKOFF_MS * (self.failed + 1)) as u64 },
            )
        } else {
            (self, WriteStep::Failed)
        }
    }
}

impl SectorWrite {
    /// The write of `data` to `sector` from `offset`, nothing sent yet.
    pub fn new(sector: u16, offset: u16, data: Vec<u8>) -> (r: Self)
        requires
            data@.len() <= 0xFFFF,
        ensures
            r@ == (SectorWriteModel {
                sector,
                offset,
                data: data@,
                failed: 0,
                phase: WritePhase::Announce,
            }),
            r@.wf(),
    {
        SectorWrite { sector, offset, data, failed: 0, phase: WritePhase::Announce }
    }

    /// Whether the progress is consistent: the data fits the length field,
    /// an attempt is left, and a chunk starts inside the data at a multiple
    /// of sixteen.
    pub fn is_valid(&self) -> (r: bool)
        ensures
            r == self@.wf(),
    {
        self.data.len() <= 0xFFFF && self.failed < WRITE_RETRIES && match self.phase {
            WritePhase::Chunk(pos) => pos < self.data.len() && pos % 16 == 0,
            _ => true,
        }
    }

    /// The function that the next call invokes.
    pub fn next_call(&self) -> (r: WriteCall)
        ensures
            r == self@.call(),
    {
        match self.phase {
            WritePhase::Announce => WriteCall::Announce,
            WritePhase::Chunk(_) => WriteCall::Data,
            WritePhase::End => WriteCall::End,
        }
    }

    /// The parameters of the next call.
    pub fn next_params(&self) -> (r: [u8; 16])
        requires
            self@.wf(),
        ensures
            r@ == self@.params(),
    {
        let mut bytes = [0u8; 16];
        match self.phase {
            WritePhase::Announce => {
                let len = self.data.len() as u16;
                bytes[0] = u16_hi(self.sector);
                bytes[1] = u16_lo(self.sector);
                bytes[2] = u16_hi(self.offset);
                bytes[3] = u16_lo(self.offset);
                bytes[4] = u16_hi(len);
                bytes[5] = u16_lo(len);
            },
            WritePhase::Chunk(pos) => {
                let end = if pos + 16 <= self.data.len() {
                    pos + 16
                } else {
                    self.data.len()
                };
                let mut i: usize = pos;
                while i < end
                    invariant
                        pos <= i <= end <= self.data@.len(),
                        end - pos <= 16,
                        forall|k: int| 0 <= k < i - pos ==> bytes@[k] == self.data@[pos + k],
                        forall|k: int| i - pos <= k < 16 ==> bytes@[k] == 0,
                    decreases end - i,
                {
                    bytes[i - pos] = self.data[i];
                    i += 1;
                }
            },
            WritePhase::End => {},
        }
        assert(bytes@ =~= self@.params());
        bytes
    }

    /// Takes the outcome of the last call.
    pub fn on_result(&mut self, ok: bool) -> (r: WriteStep)
        requires
            old(self)@.wf(),
        ensures
            (final(self)@, r) == old(self)@.after(ok),
            r != WriteStep::Failed && r != WriteStep::Done ==> final(self)@.wf(),
    {
        if ok {
            match self.phase {
                WritePhase::Announce => {
                    if self.data.len() > 0 {
                        self.phase = WritePhase::Chunk(0);
                    } else {
                        self.phase = WritePhase::End;
                    }
                    WriteStep::Call
                },
                WritePhase::Chunk(pos) => {
                    if pos + 16 < self.data.len() {
                        self.phase = WritePhase::Chunk(pos + 16);
                    } else {
                        self.phase = WritePhase::End;
                    }
                    WriteStep::Call
                },
                WritePhase::End => WriteStep::Done,
            }
        } else if self.failed + 1 < WRITE_RETRIES {
            self.failed = self.failed + 1;
            self.phase = WritePhase::Announce;
            WriteStep::Backoff { ms: WRITE_BACKOFF_MS * (self.failed as u64) }
        } else {
            WriteStep::Failed
        }
    }
}

/// The chunks that a write sends after the announcement put the data
/// together again: chunk `k` holds the bytes from `16 * k` on.
pub proof fn lemma_write_chunks_cover(w: SectorWriteModel, pos: int, i: int)
    requires
        w.wf(),
        w.phase == WritePhase::Chunk(pos as usize),
        0 <= pos,
        0 <= i < 16,
        pos + i < w.data.len(),
    ensures
        w.params()[i] == w.data[pos + i],
{
}

/// A failed attempt is followed by a pause that grows with the number of
/// failures, and the third failure ends the write.
pub proof fn lemma_write_backoff(w: SectorWriteModel)
    requires
        w.wf(),
    ensures
        w.failed == 0 ==> w.after(false).1 == (WriteStep::Backoff { ms: 15 }),
        w.failed == 1 ==> w.after(false).1 == (WriteStep::Backoff { ms: 30 }),
        w.failed == 2 ==> w.after(false).1 == WriteStep::Failed,
        w.after(false).1 is Backoff ==> w.after(false).0.phase == WritePhase::Announce,
{
}

// ---------------------------------------------------------------------------
// The profile directory
// ---------------------------------------------------------------------------

/// Where the profiles of a device are stored.
pub struct DirectoryModel {
    /// The sector of each profile.
    pub addrs: Seq<u16>,
    /// Whether each profile is enabled.
    pub enabled: Seq<bool>,
}

/// The placement that holds where the directory cannot be used: profile `i`
/// in sector `i + 1`, every profile enabled.
pub open spec fn default_directory(count: nat) -> DirectoryModel {
    DirectoryModel {
        addrs: Seq::new(count, |i: int| (i + 1) as u16),
        enabled: Seq::new(count, |i: int| true),
    }
}

/// How many records of the directory count, from record `i` on: those
/// before the first that does not fit in the sector or holds the end
/// marker `0xFFFF` as its address.
pub open spec fn directory_records(root: Seq<u8>, count: nat, i: nat) -> nat
    decreases count - i,
{
    if i < count && 4 * i + 4 <= root.len() && be16(root[4 * (i as int)], root[4 * (i as int) + 1]) != 0xFFFF {
        directory_records(root, count, i + 1)
    } else {
        i
    }
}

/// What the directory sector `root` says of `count` profiles. A directory
/// with a wrong checksum says nothing: the default placement holds. In a
/// valid directory each record before the end marker gives the profile's
/// sector (address 0 keeps the default) and whether it is enabled; profiles
/// without a record keep the default.
pub open spec fn directory_of(root: Seq<u8>, count: nat) -> DirectoryModel {
    if sector_crc_ok(root) {
        let n = directory_records(root, count, 0);
        DirectoryModel {
            addrs: Seq::new(
                count,
                |i: int|
                    if i < n && be16(root[4 * i], root[4 * i + 1]) != 0 {
                        be16(root[4 * i], root[4 * i + 1])
                    } else {
                        (i + 1) as u16
                    },
            ),
            enabled: Seq::new(
                count,
                |i: int|
                    if i < n {
                        root[4 * i + 2] != 0
                    } else {
                        true
                    },
            ),
        }
    } else {
        default_directory(count)
    }
}

/// The placement of the profiles as exec values.
#[derive(Debug, Clone)]
pub struct Directory {
    pub addrs: Vec<u16>,
    pub enabled: Vec<bool>,
}

impl View for Directory {
    type V = DirectoryModel;

    open spec fn view(&self) -> DirectoryModel {
        DirectoryModel { addrs: self.addrs@, enabled: self.enabled@ }
    }
}

pub proof fn lemma_directory_records_bounds(root: Seq<u8>, count: nat, i: nat)
    requires
        i <= count,
    ensures
        i <= directory_records(root, count, i) <= count,
        4 * directory_records(root, count, i) <= root.len() || directory_records(root, count, i)
            == i,
        forall|k: int|
            i <= k < directory_records(root, count, i) ==> 4 * k + 4 <= root.len() && be16(
                #[trigger] root[4 * k],
                root[4 * k + 1],
            ) != 0xFFFF,
    decreases count - i,
{
    if i < count && 4 * i + 4 <= root.len() && be16(root[4 * (i as int)], root[4 * (i as int) + 1]) != 0xFFFF {
        lemma_directory_records_bounds(root, count, i + 1);
    }
}

/// Reads the directory sector for `count` profiles.
pub fn read_directory(root: &[u8], count: usize) -> (r: Directory)
    requires
        count <= 0xFFFF,
    ensures
        r@ == directory_of(root@, count as nat),
        r@.addrs.len() == count,
        r@.enabled.len() == count,
{
    let valid = crate::driver::hidpp::crc_is_valid(root);
    let mut addrs: Vec<u16> = Vec::new();
    let mut enabled: Vec<bool> = Vec::new();
    let mut i: usize = 0;
    let mut open = valid;
    proof {
        lemma_directory_records_bounds(root@, count as nat, 0);
    }
    let ghost n = directory_records(root@, count as nat, 0);
    while i < count
        invariant
            i <= count <= 0xFFFF,
            addrs@.len() == i,
            enabled@.len() == i,
            valid == sector_crc_ok(root@),
            n == directory_records(root@, count as nat, 0),
            valid && open ==> directory_records(root@, count as nat, i as nat) == n,
            valid && !open ==> n <= i,
            valid && open ==> i <= n,
            !valid ==> !open,
            forall|k: int|
                0 <= k < i ==> addrs@[k] == directory_of(root@, count as nat).addrs[k]
                    && enabled@[k] == directory_of(root@, count as nat).enabled[k],
        decreases count - i,
    {
        let mut addr: u16 = (i + 1) as u16;
        let mut en = true;
        if open {
            if 4 * i + 4 > root.len() {
                open = false;
            } else {
                let a = u16_from_be(root[4 * i], root[4 * i + 1]);
                if a == 0xFFFF {
                    open = false;
                } else {
                    if a != 0 {
                        addr = a;
                    }
                    en = root[4 * i + 2] != 0;
                }
            }
        }
        proof {
            if valid && !open {
                assert(n <= i);
            }
            if valid && open {
                assert(directory_records(root@, count as nat, (i + 1) as nat) == n);
                lemma_directory_records_bounds(root@, count as nat, (i + 1) as nat);
            }
        }
        addrs.push(addr);
        enabled.push(en);
        i += 1;
    }
    let r = Directory { addrs, enabled };
    assert(r@.addrs =~= directory_of(root@, count as nat).addrs);
    assert(r@.enabled =~= directory_of(root@, count as nat).enabled);
    r
}

/// How many profiles get a record in a directory sector of `size` bytes:
/// each record takes four bytes, and the last two bytes hold the checksum.
pub open spec fn directory_capacity(size: int, count: int) -> int {
    let room = if size >= 2 {
        (size - 2) / 4
    } else {
        0
    };
    if count < room {
        count
    } else {
        room
    }
}

/// The directory sector for the given profiles: for each profile that fits
/// a record `[0, index + 1, enabled, 0]`, then the end marker
/// `[0xFF, 0xFF, 0, 0]` where it fits, `0xFF` up to the checksum, and the
/// checksum in the last two bytes.
pub open spec fn directory_bytes(profiles: Seq<ProfileModel>, size: int) -> Seq<u8> {
    let body = directory_body(profiles, size);
    if size >= 2 {
        with_crc(body.subrange(0, size - 2))
    } else {
        body
    }
}

/// The directory sector before the checksum is put in.
pub open spec fn directory_body(profiles: Seq<ProfileModel>, size: int) -> Seq<u8> {
    let n = directory_capacity(size, profiles.len() as int);
    Seq::new(
        size as nat,
        |k: int|
            if k < 4 * n {
                if k % 4 == 1 {
                    ((profiles[k / 4].index + 1) % 256) as u8
                } else if k % 4 == 2 {
                    if profiles[k / 4].is_enabled {
                        1u8
                    } else {
                        0u8
                    }
                } else {
                    0u8
                }
            } else if k < 4 * n + 4 && 4 * n + 4 <= size - 2 {
                if k < 4 * n + 2 {
                    0xFFu8
                } else {
                    0u8
                }
            } else {
                0xFFu8
            },
    )
}

/// Builds the directory sector for the given profiles.
pub fn build_directory(profiles: &Vec<ProfileInfo>, sector_size: u16) -> (r: Vec<u8>)
    ensures
        r@ == directory_bytes(profiles_view(profiles@), sector_size as int),
        r@.len() == sector_size,
{
    let size = sector_size as usize;
    let mut dir: Vec<u8> = Vec::new();
    let mut k: usize = 0;
    while k < size
        invariant
            k <= size,
            dir@.len() == k,
            forall|j: int| 0 <= j < k ==> dir@[j] == 0xFFu8,
        decreases size - k,
    {
        dir.push(0xFF);
        k += 1;
    }
    let room: usize = if size >= 2 {
        (size - 2) / 4
    } else {
        0
    };
    let n: usize = if profiles.len() < room {
        profiles.len()
    } else {
        room
    };
    let ghost ps = profiles_view(profiles@);
    assert(n == directory_capacity(size as int, ps.len() as int));
    let mut i: usize = 0;
    while i < n
        invariant
            i <= n <= profiles@.len(),
            4 * n + 2 <= size || n == 0,
            dir@.len() == size,
            ps == profiles_view(profiles@),
            forall|j: int| 4 * i <= j < size ==> dir@[j] == 0xFFu8,
            forall|j: int|
                0 <= j < 4 * i ==> dir@[j] == (if j % 4 == 1 {
                    ((ps[j / 4].index + 1) % 256) as u8
                } else if j % 4 == 2 {
                    if ps[j / 4].is_enabled {
                        1u8
                    } else {
                        0u8
                    }
                } else {
                    0u8
                }),
        decreases n - i,
    {
        let p = &profiles[i];
        assert(ps[i as int] == p@);
        let idx1: u8 = ((p.index as u64 + 1) % 256) as u8;
        dir[4 * i] = 0x00;
        dir[4 * i + 1] = idx1;
        dir[4 * i + 2] = if p.is_enabled {
            1
        } else {
            0
        };
        dir[4 * i + 3] = 0x00;
        i += 1;
    }
    if size >= 2 && 4 * n + 4 <= size - 2 {
        dir[4 * n] = 0xFF;
        dir[4 * n + 1] = 0xFF;
        dir[4 * n + 2] = 0x00;
        dir[4 * n + 3] = 0x00;
    }
    if size >= 2 {
        let ghost body = dir@;
        seal_sector(&mut dir);
        assert(dir@ =~= directory_bytes(ps, size as int)) by {
            let want = directory_body(ps, size as int);
            assert(body.subrange(0, size - 2) =~= want.subrange(0, size - 2));
        }
    } else {
        assert(dir@ =~= directory_bytes(ps, size as int));
    }
    dir
}

/// A directory that was built for profiles whose index is their position
/// reads back as the default placement with the profiles' enabled flags,
/// and carries a valid checksum.
pub proof fn lemma_directory_round_trip(profiles: Seq<ProfileModel>, size: int)
    requires
        2 <= size <= 0xFFFF,
        profiles.len() < 255,
        4 * profiles.len() + 4 <= size - 2,
        forall|i: int| 0 <= i < profiles.len() ==> (#[trigger] profiles[i]).index == i,
    ensures
        sector_crc_ok(directory_bytes(profiles, size)),
        directory_of(directory_bytes(profiles, size), profiles.len()).addrs == default_directory(
            profiles.len(),
        ).addrs,
        directory_of(directory_bytes(profiles, size), profiles.len()).enabled == Seq::new(
            profiles.len(),
            |i: int| profiles[i].is_enabled,
        ),
{
    let count = profiles.len();
    let root = directory_bytes(profiles, size);
    let n = directory_capacity(size, count as int);
    assert(n == count);
    let whole = directory_body(profiles, size);
    let body = whole.subrange(0, size - 2);
    assert(root == with_crc(body));
    crate::driver::hidpp::lemma_crc_round_trip(body, 0, 0);
    assert(root.len() == size);
    assert forall|k: int| 0 <= k < size - 2 implies root[k] == whole[k] by {
        assert(root[k] == body[k]);
    }
    assert forall|i: int| 0 <= i < count implies be16(#[trigger] root[4 * i], root[4 * i + 1]) == i
        + 1 && root[4 * i + 2] == (if profiles[i].is_enabled {
        1u8
    } else {
        0u8
    }) by {
        assert((4 * i) % 4 == 0 && (4 * i + 1) % 4 == 1 && (4 * i + 2) % 4 == 2 && (4 * i) / 4 == i
            && (4 * i + 1) / 4 == i && (4 * i + 2) / 4 == i);
        assert(root[4 * i] == whole[4 * i]);
        assert(root[4 * i + 1] == whole[4 * i + 1]);
        assert(root[4 * i + 2] == whole[4 * i + 2]);
        assert(root[4 * i] == 0u8);
        assert(root[4 * i + 1] == ((profiles[i].index + 1) % 256) as u8);
    }
    lemma_directory_records_all(root, count, 0);
    let d = directory_of(root, count);
    assert(directory_records(root, count, 0) == count);
    assert forall|i: int| 0 <= i < count implies d.addrs[i] == (i + 1) as u16 && d.enabled[i]
        == profiles[i].is_enabled by {
        assert(be16(root[4 * i], root[4 * i + 1]) == i + 1);
    }
    assert(d.addrs =~= default_directory(count).addrs);
    assert(d.enabled =~= Seq::new(count, |i: int| profiles[i].is_enabled));
}

proof fn lemma_directory_records_all(root: Seq<u8>, count: nat, i: nat)
    requires
        i <= count,
        4 * count + 4 <= root.len(),
        forall|k: int| 0 <= k < count ==> be16(#[trigger] root[4 * k], root[4 * k + 1]) != 0xFFFF,
    ensures
        directory_records(root, count, i) == count,
    decreases count - i,
{
    if i < count {
        assert(be16(root[4 * (i as int)], root[4 * (i as int) + 1]) != 0xFFFF);
        lemma_directory_records_all(root, count, i + 1);
    }
}

/// A directory whose checksum is wrong is not used: every profile is
/// looked for in the sector after its ordinal, and counts as enabled.
pub proof fn lemma_corrupt_directory_degrades(root: Seq<u8>, count: nat)
    requires
        !sector_crc_ok(root),
    ensures
        directory_of(root, count) == default_directory(count),
        forall|i: int|
            0 <= i < count && count <= 0xFFFF ==> (#[trigger] directory_of(root, count).addrs[i])
                == i + 1 && directory_of(root, count).enabled[i],
{
    assert forall|i: int| 0 <= i < count && count <= 0xFFFF implies (#[trigger] directory_of(
        root,
        count,
    ).addrs[i]) == i + 1 && directory_of(root, count).enabled[i] by {
        assert(default_directory(count).addrs[i] == (i + 1) as u16);
        assert(default_directory(count).enabled[i]);
    }
}

} // verus!
