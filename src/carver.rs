//! Kernel pool carving: sweeping the non-paged pool for allocation tags,
//! framing each hit as a chunk, and searching a chunk for an object.
use vstd::prelude::*;

verus! {

/// Bytes per unit of the pool header's block-size field.
pub const POOL_BLOCK_UNIT: u64 = 16;

/// Distance to the next search position after a rejected hit.
pub const TAG_STEP: u64 = 4;

/// A framed candidate: the chunk at `pool_addr` of `chunk_size` bytes whose
/// data (after the pool header) starts at `data_addr`.
#[derive(Clone, Copy, Debug, PartialEq, Eq, Structural)]
pub struct PoolChunk {
    pub pool_addr: u64,
    pub chunk_size: u64,
    pub data_addr: u64,
}

/// Chunk length given by the header's block-size byte.
pub open spec fn spec_chunk_size(block_units: u8) -> u64 {
    (block_units * POOL_BLOCK_UNIT) as u64
}

/// Chunk length: the block-size byte (third header byte) times 16.
pub fn chunk_size_of(block_units: u8) -> (r: u64)
    ensures
        r == spec_chunk_size(block_units),
{
    block_units as u64 * POOL_BLOCK_UNIT
}

/// State of a sweep over `[ptr, end)`.
///
/// One round: the tag search from `ptr` reports a hit (`on_hit`); the pool
/// header at the hit gives the block size (`on_header`); a framed chunk is
/// handed to the recognizer, whose verdict moves the sweep on
/// (`on_verdict`).  Each round moves `ptr` strictly forward or ends the
/// sweep.
#[derive(Clone, Copy, Debug, PartialEq, Eq, Structural)]
pub struct PoolScan {
    pub ptr: u64,
    pub end: u64,
    pub header_size: u64,
    pub object_size: u64,
}

impl PoolScan {
    /// Smallest chunk that can hold the header and the expected object.
    pub open spec fn min_chunk(&self) -> int {
        self.header_size + self.object_size
    }

    pub open spec fn active(&self) -> bool {
        self.ptr < self.end
    }

    /// A chunk handed to the recognizer: it holds the header and the object,
    /// and lies inside the range.
    pub open spec fn framed(&self, c: PoolChunk) -> bool {
        &&& c.data_addr == c.pool_addr + self.header_size
        &&& c.data_addr + self.object_size <= c.pool_addr + c.chunk_size
        &&& c.pool_addr + c.chunk_size <= self.end
        &&& c.chunk_size > 0
    }

    /// Position after a rejected hit at `at`: four bytes on, or the end.
    pub open spec fn step_from(&self, at: u64) -> u64 {
        if at + TAG_STEP >= self.end {
            self.end
        } else {
            (at + TAG_STEP) as u64
        }
    }

    /// A sweep of `[start, end)` for chunks holding a `header_size`-byte
    /// pool header followed by an `object_size`-byte object.
    pub fn new(start: u64, end: u64, header_size: u64, object_size: u64) -> (r: PoolScan)
        ensures
            r == (PoolScan { ptr: start, end, header_size, object_size }),
    {
        PoolScan { ptr: start, end, header_size, object_size }
    }

    /// Whether the sweep goes on.
    pub fn is_active(&self) -> (r: bool)
        ensures
            r == self.active(),
    {
        self.ptr < self.end
    }

    fn advance_from(&mut self, at: u64)
        requires
            old(self).ptr <= at < old(self).end,
        ensures
            final(self).ptr == old(self).step_from(at),
            final(self).end == old(self).end,
            final(self).header_size == old(self).header_size,
            final(self).object_size == old(self).object_size,
    {
        if self.end - at <= TAG_STEP {
            self.ptr = self.end;
        } else {
            self.ptr = at + TAG_STEP;
        }
    }

    /// The tag search from `ptr` answered `hit`.  A hit inside
    /// `[ptr, end)` becomes the position whose header is read next (true);
    /// any other answer ends the sweep (false).
    pub fn on_hit(&mut self, hit: u64) -> (r: bool)
        requires
            old(self).active(),
        ensures
            r == (old(self).ptr <= hit < old(self).end),
            final(self).ptr >= old(self).ptr,
            !r ==> final(self).ptr > old(self).ptr,
            r ==> *final(self) == (PoolScan { ptr: hit, ..*old(self) }),
            !r ==> *final(self) == (PoolScan { ptr: old(self).end, ..*old(self) }),
    {
        if hit < self.ptr || hit >= self.end {
            self.ptr = self.end;
            false
        } else {
            self.ptr = hit;
            true
        }
    }

    /// The header at `ptr` holds `block_units`.  A chunk too small for the
    /// header and the object (or empty) is skipped by four bytes; a chunk
    /// that runs past the range ends the sweep; otherwise the framed chunk
    /// is returned for the recognizer and `ptr` stays at it.
    pub fn on_header(&mut self, block_units: u8) -> (r: Option<PoolChunk>)
        requires
            old(self).active(),
        ensures
            ({
                let size = spec_chunk_size(block_units);
                let s = *old(self);
                if size < s.min_chunk() || size == 0 {
                    r is None && *final(self) == (PoolScan { ptr: s.step_from(s.ptr), ..s })
                } else if s.ptr + size > s.end {
                    r is None && *final(self) == (PoolScan { ptr: s.end, ..s })
                } else {
                    r == Some(
                        PoolChunk {
                            pool_addr: s.ptr,
                            chunk_size: size,
                            data_addr: (s.ptr + s.header_size) as u64,
                        },
                    ) && *final(self) == s
                }
            }),
            r matches Some(c) ==> final(self).framed(c) && c.pool_addr == final(self).ptr,
            r is None ==> final(self).ptr > old(self).ptr,
    {
        let size = chunk_size_of(block_units);
        if size == 0 || size < self.header_size || size - self.header_size < self.object_size {
            let at = self.ptr;
            self.advance_from(at);
            None
        } else if self.end - self.ptr < size {
            self.ptr = self.end;
            None
        } else {
            Some(
                PoolChunk {
                    pool_addr: self.ptr,
                    chunk_size: size,
                    data_addr: self.ptr + self.header_size,
                },
            )
        }
    }

    /// The recognizer's verdict on `chunk`: an accepted chunk is skipped
    /// whole, a rejected one is searched again four bytes on.
    pub fn on_verdict(&mut self, chunk: PoolChunk, accepted: bool)
        requires
            old(self).framed(chunk),
            chunk.pool_addr == old(self).ptr,
        ensures
            accepted ==> *final(self) == (PoolScan {
                ptr: (chunk.pool_addr + chunk.chunk_size) as u64,
                ..*old(self)
            }),
            !accepted ==> *final(self) == (PoolScan {
                ptr: old(self).step_from(chunk.pool_addr),
                ..*old(self)
            }),
            final(self).ptr > old(self).ptr,
    {
        if accepted {
            self.ptr = chunk.pool_addr + chunk.chunk_size;
        } else {
            self.advance_from(chunk.pool_addr);
        }
    }
}

/// Runs a whole sweep: `search(from, end)` answers the next tag hit,
/// `read_units(addr)` the block-size byte of the header at `addr`, and
/// `handler(chunk)` whether the chunk holds the expected object.
///
/// Every chunk handed to `handler` is framed (it holds the header and the
/// object and ends inside the range); the chunks returned are those it
/// accepted, in address order.
pub fn scan_pool<S, R, H>(
    start: u64,
    end: u64,
    header_size: u64,
    object_size: u64,
    search: &S,
    read_units: &R,
    handler: &H,
) -> (accepted: Vec<PoolChunk>)
    where
        S: Fn(u64, u64) -> u64,
        R: Fn(u64) -> u8,
        H: Fn(PoolChunk) -> bool,
    requires
        forall|a: u64, b: u64| search.requires((a, b)),
        forall|a: u64| read_units.requires((a,)),
        forall|c: PoolChunk|
            (PoolScan { ptr: c.pool_addr, end, header_size, object_size }).framed(c)
                ==> handler.requires((c,)),
    ensures
        forall|i: int|
            0 <= i < accepted@.len() ==> {
                let c = #[trigger] accepted@[i];
                &&& (PoolScan { ptr: c.pool_addr, end, header_size, object_size }).framed(c)
                &&& start <= c.pool_addr
                &&& handler.ensures((c,), true)
            },
        forall|i: int, j: int|
            0 <= i < j < accepted@.len() ==> accepted@[i].pool_addr + accepted@[i].chunk_size
                <= accepted@[j].pool_addr,
{
    let mut scan = PoolScan::new(start, end, header_size, object_size);
    let mut accepted: Vec<PoolChunk> = Vec::new();
    while scan.is_active()
        invariant
            scan.end == end,
            scan.header_size == header_size,
            scan.object_size == object_size,
            start <= scan.ptr || accepted@.len() == 0,
            forall|a: u64, b: u64| search.requires((a, b)),
            forall|a: u64| read_units.requires((a,)),
            forall|c: PoolChunk|
                (PoolScan { ptr: c.pool_addr, end, header_size, object_size }).framed(c)
                    ==> handler.requires((c,)),
            forall|i: int|
                0 <= i < accepted@.len() ==> {
                    let c = #[trigger] accepted@[i];
                    &&& (PoolScan { ptr: c.pool_addr, end, header_size, object_size }).framed(c)
                    &&& start <= c.pool_addr
                    &&& handler.ensures((c,), true)
                },
            forall|i: int, j: int|
                0 <= i < j < accepted@.len() ==> accepted@[i].pool_addr + accepted@[i].chunk_size
                    <= accepted@[j].pool_addr,
            accepted@.len() > 0 ==> accepted@.last().pool_addr + accepted@.last().chunk_size
                <= scan.ptr,
            accepted@.len() == 0 ==> start <= scan.ptr || !scan.active(),
        decreases end - scan.ptr,
    {
        let before = scan.ptr;
        let hit = search(scan.ptr, scan.end);
        if !scan.on_hit(hit) {
            break;
        }
        let units = read_units(scan.ptr);
        match scan.on_header(units) {
            None => {},
            Some(chunk) => {
                let ok = handler(chunk);
                if ok {
                    accepted.push(chunk);
                }
                scan.on_verdict(chunk, ok);
            },
        }
        assert(scan.ptr > before);
    }
    accepted
}

/// Searches a chunk for an object: candidates run from `data_addr` in steps
/// of four bytes up to the last place where `object_size` bytes still fit
/// in the chunk; the first one that `probe` accepts is returned.
pub fn find_object<P: Fn(u64) -> bool>(chunk: PoolChunk, object_size: u64, probe: &P) -> (r:
    Option<u64>)
    requires
        forall|a: u64| probe.requires((a,)),
        chunk.data_addr + object_size <= chunk.pool_addr + chunk.chunk_size <= u64::MAX,
    ensures
        match r {
            Some(a) => {
                &&& chunk.data_addr <= a
                &&& a + object_size <= chunk.pool_addr + chunk.chunk_size
                &&& (a - chunk.data_addr) % 4 == 0
                &&& probe.ensures((a,), true)
                &&& forall|x: u64|
                    chunk.data_addr <= x < a && (x - chunk.data_addr) % 4 == 0 ==> probe.ensures(
                        (x,),
                        false,
                    )
            },
            None => forall|x: u64|
                chunk.data_addr <= x && x + object_size <= chunk.pool_addr + chunk.chunk_size && (x
                    - chunk.data_addr) % 4 == 0 ==> probe.ensures((x,), false),
        },
{
    let last = chunk.pool_addr + chunk.chunk_size - object_size;
    let mut at = chunk.data_addr;
    loop
        invariant
            forall|a: u64| probe.requires((a,)),
            chunk.data_addr <= at,
            last == chunk.pool_addr + chunk.chunk_size - object_size,
            chunk.data_addr <= last,
            (at - chunk.data_addr) % 4 == 0,
            forall|x: u64|
                chunk.data_addr <= x < at && (x - chunk.data_addr) % 4 == 0 ==> probe.ensures(
                    (x,),
                    false,
                ),
        decreases last + 4 - at,
    {
        if at > last {
            return None;
        }
        if probe(at) {
            return Some(at);
        }
        if last - at < 4 {
            return None;
        }
        at = at + 4;
    }
}

/// A freshly allocated thread fills its chunk exactly (pool header, object
/// header, thread object); its object then sits at the end of the chunk.
pub fn exact_fit_object(chunk: PoolChunk, header_size: u64, object_header_size: u64, object_size: u64) -> (r: Option<u64>)
    requires
        object_size <= chunk.pool_addr + chunk.chunk_size <= u64::MAX,
    ensures
        r == if chunk.chunk_size == header_size + object_header_size + object_size {
            Some((chunk.pool_addr + chunk.chunk_size - object_size) as u64)
        } else {
            None::<u64>
        },
{
    if header_size <= chunk.chunk_size && object_header_size <= chunk.chunk_size - header_size
        && chunk.chunk_size - header_size - object_header_size == object_size {
        Some(chunk.pool_addr + chunk.chunk_size - object_size)
    } else {
        None
    }
}

/// Discriminator of a file object: its `Type` is 5 and its `Size` is the
/// structure's size.
pub fn is_file_object(object_type: u16, size: u16, object_size: u64) -> (r: bool)
    ensures
        r == (object_type == 5 && size as u64 == object_size),
{
    object_type == 5 && size as u64 == object_size
}

/// Discriminator of a driver object: its `Size` is the structure's size.
pub fn is_driver_object(size: u16, object_size: u64) -> (r: bool)
    ensures
        r == (size as u64 == object_size),
{
    size as u64 == object_size
}

/// Locates a thread object in a chunk: at the end of an exactly filled
/// chunk (a fresh thread whose creation time may not be set yet), else the
/// first candidate that `probe` accepts.
pub fn find_thread_object<P: Fn(u64) -> bool>(
    chunk: PoolChunk,
    header_size: u64,
    object_header_size: u64,
    object_size: u64,
    probe: &P,
) -> (r: Option<u64>)
    requires
        forall|a: u64| probe.requires((a,)),
        chunk.data_addr + object_size <= chunk.pool_addr + chunk.chunk_size <= u64::MAX,
    ensures
        chunk.chunk_size == header_size + object_header_size + object_size ==> r == Some(
            (chunk.pool_addr + chunk.chunk_size - object_size) as u64,
        ),
        chunk.chunk_size != header_size + object_header_size + object_size ==> match r {
            Some(a) => {
                &&& chunk.data_addr <= a
                &&& a + object_size <= chunk.pool_addr + chunk.chunk_size
                &&& (a - chunk.data_addr) % 4 == 0
                &&& probe.ensures((a,), true)
                &&& forall|x: u64|
                    chunk.data_addr <= x < a && (x - chunk.data_addr) % 4 == 0 ==> probe.ensures(
                        (x,),
                        false,
                    )
            },
            None => forall|x: u64|
                chunk.data_addr <= x && x + object_size <= chunk.pool_addr + chunk.chunk_size && (x
                    - chunk.data_addr) % 4 == 0 ==> probe.ensures((x,), false),
        },
{
    match exact_fit_object(chunk, header_size, object_header_size, object_size) {
        Some(a) => Some(a),
        None => find_object(chunk, object_size, probe),
    }
}

} // verus!
