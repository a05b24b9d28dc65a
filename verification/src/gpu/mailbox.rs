//! The mailbox property channel: a builder that assembles a batched tag-list
//! request in a 128-word buffer, and the demultiplexer that turns the
//! firmware's reply words back into typed results.
//!
//! The wire format: word 0 holds the total byte length of the message, word 1
//! the request/response code (0 on a request, `MAILBOX_SUCCESS` on a
//! successful reply), then one record per tag — `{tag id, value buffer size
//! in bytes, 0, value words…}` — and a terminating 0 word. The firmware
//! overwrites the value words of each record with its reply; a registered
//! reader remembers at which word a reply begins and in what shape to read
//! it.
//!
//! The exchange itself — handing the buffer's physical address to the write
//! FIFO and polling the read FIFO — is memory-mapped I/O and belongs to the
//! machine-facing shell; between `seal` and `read_results` the firmware (on
//! hardware) or the test (on a host) fills in the reply words.

use vstd::prelude::*;

verus! {

/// Total words in a property request buffer.
pub const BUFFER_WORDS: usize = 128;

/// Index of the first tag record: words 0 and 1 are length and code.
pub const FIELD_COUNT_OFFSET: usize = 2;

/// Response code the firmware writes into word 1 on success.
pub const MAILBOX_SUCCESS: u32 = 0x8000_0000;

/// Mailbox status bit: the write FIFO is full.
pub const MAILBOX_FULL: u32 = 0x8000_0000;

/// Mailbox status bit: the read FIFO is empty.
pub const MAILBOX_EMPTY: u32 = 0x4000_0000;

/// The property channel number, carried in the low nibble of the buffer
/// address handed to the firmware.
pub const MAILBOX_PROPERTY_CHANNEL: u32 = 8;

/// Clock id of the UART clock.
pub const CLOCK_UART: u32 = 0x2;

pub const TAG_SET_CLOCK_RATE: u32 = 0x0003_8002;

pub const TAG_GET_CLOCK_RATE: u32 = 0x0003_0002;

pub const TAG_SET_PHYSICAL_SIZE: u32 = 0x0004_8003;

pub const TAG_GET_PHYSICAL_SIZE: u32 = 0x0004_0003;

pub const TAG_SET_VIRTUAL_SIZE: u32 = 0x0004_8004;

pub const TAG_GET_VIRTUAL_SIZE: u32 = 0x0004_0004;

pub const TAG_SET_VIRTUAL_OFFSET: u32 = 0x0004_8009;

pub const TAG_GET_VIRTUAL_OFFSET: u32 = 0x0004_0009;

pub const TAG_SET_BUFFER_DEPTH: u32 = 0x0004_8005;

pub const TAG_GET_BUFFER_DEPTH: u32 = 0x0004_0005;

pub const TAG_SET_PIXEL_ORDER: u32 = 0x0004_8006;

pub const TAG_GET_PIXEL_ORDER: u32 = 0x0004_0006;

pub const TAG_ALLOCATE_FRAME_BUFFER: u32 = 0x0004_0001;

pub const TAG_GET_PITCH: u32 = 0x0004_0008;

pub const TAG_GET_ARM_MEMORY: u32 = 0x0001_0005;

/// A framebuffer handed out by the firmware: a bus address and a byte size.
#[derive(Clone, Copy, Debug, PartialEq, Eq, Structural)]
pub struct FrameBuffer {
    pub pointer: u32,
    pub size: u32,
}

/// A width and height in pixels.
#[derive(Clone, Copy, Debug, PartialEq, Eq, Structural)]
pub struct Size {
    pub width: u32,
    pub height: u32,
}

impl Size {
    pub fn new(width: u32, height: u32) -> (s: Self)
        ensures
            s.width == width,
            s.height == height,
    {
        Self { width, height }
    }
}

/// A point in pixel coordinates.
#[derive(Clone, Copy, Debug, PartialEq, Eq, Structural)]
pub struct Point {
    pub x: u32,
    pub y: u32,
}

impl Point {
    pub fn new(x: u32, y: u32) -> (p: Self)
        ensures
            p.x == x,
            p.y == y,
    {
        Self { x, y }
    }
}

/// A clock id and its rate in hertz.
#[derive(Clone, Copy, Debug, PartialEq, Eq, Structural)]
pub struct ClockRate {
    pub id: u32,
    pub hz: u32,
}

/// The DRAM window that belongs to the ARM core: base address and byte size.
#[derive(Clone, Copy, Debug, PartialEq, Eq, Structural)]
pub struct ARMMemory {
    pub base_address: usize,
    pub size: usize,
}

impl ARMMemory {
    pub fn new(base_address: usize, size: usize) -> (m: Self)
        ensures
            m.base_address == base_address,
            m.size == size,
    {
        Self { base_address, size }
    }
}

/// The shape in which a registered reader interprets the firmware's reply
/// words.
#[derive(Clone, Copy, Debug, PartialEq, Eq, Structural)]
pub enum ResultKind {
    SingleU32,
    Size,
    Point,
    ClockRate,
    FrameBuffer,
    ARMMemory,
    Nothing,
}

/// A registered reader: a reply shape and the word index at which the
/// firmware writes the first reply word of the tag.
#[derive(Clone, Copy, Debug, PartialEq, Eq, Structural)]
pub struct ResultReader {
    pub tp: ResultKind,
    pub offset: u32,
}

/// A typed result demultiplexed from a successful reply, one per registered
/// reader, in registration order.
#[derive(Clone, Copy, Debug, PartialEq, Eq, Structural)]
pub enum MailboxResult {
    SingleU32 { first: u32 },
    Size { size: Size },
    Point { point: Point },
    ClockRate { clock_rate: ClockRate },
    FrameBuffer { frame_buffer: FrameBuffer },
    ARMMemory { arm_memory: ARMMemory },
    Nothing,
}

/// The typed result a reader of shape `rd.tp` yields from buffer `b`.
pub open spec fn read_result(b: Seq<u32>, rd: ResultReader) -> MailboxResult {
    let off = rd.offset as int;
    match rd.tp {
        ResultKind::SingleU32 => MailboxResult::SingleU32 { first: b[off] },
        ResultKind::Size => MailboxResult::Size {
            size: Size { width: b[off], height: b[off + 1] },
        },
        ResultKind::Point => MailboxResult::Point { point: Point { x: b[off], y: b[off + 1] } },
        ResultKind::ClockRate => MailboxResult::ClockRate {
            clock_rate: ClockRate { id: b[off], hz: b[off + 1] },
        },
        ResultKind::FrameBuffer => MailboxResult::FrameBuffer {
            frame_buffer: FrameBuffer { pointer: b[off], size: b[off + 1] },
        },
        ResultKind::ARMMemory => MailboxResult::ARMMemory {
            arm_memory: ARMMemory { base_address: b[off] as usize, size: b[off + 1] as usize },
        },
        ResultKind::Nothing => MailboxResult::Nothing,
    }
}

/// All typed results of a reply buffer, in registration order.
pub open spec fn read_all_results(b: Seq<u32>, rds: Seq<ResultReader>) -> Seq<MailboxResult> {
    rds.map_values(|rd: ResultReader| read_result(b, rd))
}

/// No reader of the sequence is of the `Nothing` shape. Submitting with a
/// `Nothing` reader is a programming error; the mistake is excluded here
/// rather than detected at run time.
pub open spec fn no_nothing_readers(rds: Seq<ResultReader>) -> bool {
    forall|i: int| 0 <= i < rds.len() ==> (#[trigger] rds[i]).tp != ResultKind::Nothing
}

/// Builder for one batched property-channel request: the 128-word message
/// under construction, the write cursor, and the readers registered for the
/// replies. A builder is single-use: construct, add tags, submit.
pub struct MailboxPropertyBufferBuilder {
    mbox: Vec<u32>,
    field_count: usize,
    results: Vec<ResultReader>,
}

impl MailboxPropertyBufferBuilder {
    /// The message words as built so far.
    pub closed spec fn buf(&self) -> Seq<u32> {
        self.mbox@
    }

    /// The write cursor: the word index the next tag record would start at.
    pub closed spec fn fc(&self) -> int {
        self.field_count as int
    }

    /// The registered readers, in registration order.
    pub closed spec fn readers(&self) -> Seq<ResultReader> {
        self.results@
    }

    /// The builder's invariant: a full-size buffer, a cursor past the two
    /// header words with room left for the terminator, at most 16 readers,
    /// each reading inside the buffer.
    pub open spec fn wf(&self) -> bool {
        &&& self.buf().len() == BUFFER_WORDS
        &&& FIELD_COUNT_OFFSET <= self.fc() <= BUFFER_WORDS - 1
        &&& self.readers().len() <= 16
        &&& forall|i: int|
            0 <= i < self.readers().len() ==> (#[trigger] self.readers()[i]).offset + 2
                <= BUFFER_WORDS
    }

    /// A fresh builder: an all-zero message (word 1 zero marks a request)
    /// with the cursor at the first tag record and no readers.
    pub fn new() -> (b: MailboxPropertyBufferBuilder)
        ensures
            b.wf(),
            b.fc() == FIELD_COUNT_OFFSET,
            b.readers().len() == 0,
            b.buf().len() == BUFFER_WORDS,
            forall|i: int| 0 <= i < BUFFER_WORDS ==> b.buf()[i] == 0,
    {
        let mut mbox: Vec<u32> = Vec::new();
        let mut i: usize = 0;
        while i < BUFFER_WORDS
            invariant
                i <= BUFFER_WORDS,
                mbox@.len() == i,
                forall|j: int| 0 <= j < i ==> mbox@[j] == 0,
            decreases BUFFER_WORDS - i,
        {
            mbox.push(0);
            i += 1;
        }
        MailboxPropertyBufferBuilder { mbox, field_count: FIELD_COUNT_OFFSET, results: Vec::new() }
    }

    /// One word of the message buffer.
    pub fn word(&self, index: usize) -> (w: u32)
        requires
            self.wf(),
            index < BUFFER_WORDS,
        ensures
            w == self.buf()[index as int],
    {
        self.mbox[index]
    }

    /// Overwrite one word of the message buffer. This is how a reply reaches
    /// the buffer: on hardware the firmware writes the words itself; a test
    /// standing in for the firmware delivers them through here.
    pub fn write_word(&mut self, index: usize, value: u32)
        requires
            old(self).wf(),
            index < BUFFER_WORDS,
        ensures
            final(self).wf(),
            final(self).buf() == old(self).buf().update(index as int, value),
            final(self).fc() == old(self).fc(),
            final(self).readers() == old(self).readers(),
    {
        self.mbox[index] = value;
    }

    /// Register a reader of shape `tp` for the reply words starting at word
    /// `offset`.
    pub fn add_result_reader(&mut self, tp: ResultKind, offset: u32)
        requires
            old(self).wf(),
            old(self).readers().len() < 16,
            offset + 2 <= BUFFER_WORDS,
        ensures
            final(self).wf(),
            final(self).buf() == old(self).buf(),
            final(self).fc() == old(self).fc(),
            final(self).readers() == old(self).readers().push(ResultReader { tp, offset }),
    {
        self.results.push(ResultReader { tp, offset });
    }

    /// How many words of tag records the builder holds so far.
    pub fn get_field_count(&self) -> (n: usize)
        requires
            self.wf(),
        ensures
            n == self.fc() - FIELD_COUNT_OFFSET,
    {
        self.field_count - FIELD_COUNT_OFFSET
    }

    /// Add a SET_CLOCK_RATE tag: `{tag, 12, 0, clock id, rate, skip turbo}`.
    /// With `want_result`, a `ClockRate` reader is registered over the two
    /// reply words.
    pub fn set_clock_rate(&mut self, clock_id: u32, rate: u32, skip_turbo: u32, want_result: bool)
        requires
            old(self).wf(),
            old(self).fc() + 6 <= BUFFER_WORDS - 1,
            want_result ==> old(self).readers().len() < 16,
        ensures
            final(self).wf(),
            final(self).fc() == old(self).fc() + 6,
            final(self).buf() == old(self).buf().update(old(self).fc(), TAG_SET_CLOCK_RATE).update(
                old(self).fc() + 1,
                12u32,
            ).update(old(self).fc() + 2, 0u32).update(old(self).fc() + 3, clock_id).update(
                old(self).fc() + 4,
                rate,
            ).update(old(self).fc() + 5, skip_turbo),
            final(self).readers() == (if want_result {
                old(self).readers().push(
                    (ResultReader { tp: ResultKind::ClockRate, offset: (old(self).fc() + 3) as u32 }),
                )
            } else {
                old(self).readers()
            }),
    {
        let fc = self.field_count;
        self.mbox[fc] = TAG_SET_CLOCK_RATE;
        self.mbox[fc + 1] = 12;
        self.mbox[fc + 2] = 0;
        self.mbox[fc + 3] = clock_id;
        self.mbox[fc + 4] = rate;
        self.mbox[fc + 5] = skip_turbo;
        if want_result {
            let offset = fc + 3;
            self.add_result_reader(ResultKind::ClockRate, offset as u32);
        }
        self.field_count = fc + 6;
    }

    /// Add a GET_CLOCK_RATE tag: `{tag, 8, 0, clock id, 0}`. The firmware
    /// writes the rate over the zero word; a `ClockRate` reader is registered
    /// over the two reply words.
    pub fn get_clock_rate(&mut self, clock_id: u32)
        requires
            old(self).wf(),
            old(self).fc() + 5 <= BUFFER_WORDS - 1,
            old(self).readers().len() < 16,
        ensures
            final(self).wf(),
            final(self).fc() == old(self).fc() + 5,
            final(self).buf() == old(self).buf().update(old(self).fc(), TAG_GET_CLOCK_RATE).update(old(self).fc() + 1, 8u32).update(old(self).fc() + 2, 0u32).update(old(self).fc() + 3, clock_id).update(old(self).fc() + 4, 0),
            final(self).readers() == old(self).readers().push(
                (ResultReader { tp: ResultKind::ClockRate, offset: (old(self).fc() + 3) as u32 }),
            ),
    {
        let fc = self.field_count;
        self.mbox[fc] = TAG_GET_CLOCK_RATE;
        self.mbox[fc + 1] = 8;
        self.mbox[fc + 2] = 0;
        self.mbox[fc + 3] = clock_id;
        self.mbox[fc + 4] = 0;
        let offset = fc + 3;
        self.add_result_reader(ResultKind::ClockRate, offset as u32);
        self.field_count = fc + 5;
    }

    /// Add a SET_PHYSICAL_SIZE tag: `{tag, 8, 0, width, height}`. With
    /// `want_result`, a `Size` reader is registered over the two reply words.
    pub fn set_physical_size(&mut self, width: u32, height: u32, want_result: bool)
        requires
            old(self).wf(),
            old(self).fc() + 5 <= BUFFER_WORDS - 1,
            want_result ==> old(self).readers().len() < 16,
        ensures
            final(self).wf(),
            final(self).fc() == old(self).fc() + 5,
            final(self).buf() == old(self).buf().update(old(self).fc(), TAG_SET_PHYSICAL_SIZE).update(old(self).fc() + 1, 8u32).update(old(self).fc() + 2, 0u32).update(old(self).fc() + 3, width).update(old(self).fc() + 4, height),
            final(self).readers() == (if want_result {
                old(self).readers().push(
                    (ResultReader { tp: ResultKind::Size, offset: (old(self).fc() + 3) as u32 }),
                )
            } else {
                old(self).readers()
            }),
    {
        let fc = self.field_count;
        self.mbox[fc] = TAG_SET_PHYSICAL_SIZE;
        self.mbox[fc + 1] = 8;
        self.mbox[fc + 2] = 0;
        self.mbox[fc + 3] = width;
        self.mbox[fc + 4] = height;
        if want_result {
            let offset = fc + 3;
            self.add_result_reader(ResultKind::Size, offset as u32);
        }
        self.field_count = fc + 5;
    }

    /// Add a GET_PHYSICAL_SIZE tag: `{tag, 8, 0, 0, 0}`. The firmware writes
    /// width and height over the zero words; a `Size` reader is registered.
    pub fn get_physical_size(&mut self)
        requires
            old(self).wf(),
            old(self).fc() + 5 <= BUFFER_WORDS - 1,
            old(self).readers().len() < 16,
        ensures
            final(self).wf(),
            final(self).fc() == old(self).fc() + 5,
            final(self).buf() == old(self).buf().update(old(self).fc(), TAG_GET_PHYSICAL_SIZE).update(old(self).fc() + 1, 8u32).update(old(self).fc() + 2, 0u32).update(old(self).fc() + 3, 0).update(old(self).fc() + 4, 0),
            final(self).readers() == old(self).readers().push(
                (ResultReader { tp: ResultKind::Size, offset: (old(self).fc() + 3) as u32 }),
            ),
    {
        let fc = self.field_count;
        self.mbox[fc] = TAG_GET_PHYSICAL_SIZE;
        self.mbox[fc + 1] = 8;
        self.mbox[fc + 2] = 0;
        self.mbox[fc + 3] = 0;
        self.mbox[fc + 4] = 0;
        let offset = fc + 3;
        self.add_result_reader(ResultKind::Size, offset as u32);
        self.field_count = fc + 5;
    }

    /// Add a SET_VIRTUAL_SIZE tag: `{tag, 8, 0, width, height}`. With
    /// `want_result`, a `Size` reader is registered over the two reply words.
    pub fn set_virtual_size(&mut self, width: u32, height: u32, want_result: bool)
        requires
            old(self).wf(),
            old(self).fc() + 5 <= BUFFER_WORDS - 1,
            want_result ==> old(self).readers().len() < 16,
        ensures
            final(self).wf(),
            final(self).fc() == old(self).fc() + 5,
            final(self).buf() == old(self).buf().update(old(self).fc(), TAG_SET_VIRTUAL_SIZE).update(old(self).fc() + 1, 8u32).update(old(self).fc() + 2, 0u32).update(old(self).fc() + 3, width).update(old(self).fc() + 4, height),
            final(self).readers() == (if want_result {
                old(self).readers().push(
                    (ResultReader { tp: ResultKind::Size, offset: (old(self).fc() + 3) as u32 }),
                )
            } else {
                old(self).readers()
            }),
    {
        let fc = self.field_count;
        self.mbox[fc] = TAG_SET_VIRTUAL_SIZE;
        self.mbox[fc + 1] = 8;
        self.mbox[fc + 2] = 0;
        self.mbox[fc + 3] = width;
        self.mbox[fc + 4] = height;
        if want_result {
            let offset = fc + 3;
            self.add_result_reader(ResultKind::Size, offset as u32);
        }
        self.field_count = fc + 5;
    }

    /// Add a GET_VIRTUAL_SIZE tag: `{tag, 8, 0, 0, 0}`. The firmware writes
    /// width and height over the zero words; a `Size` reader is registered.
    pub fn get_virtual_size(&mut self)
        requires
            old(self).wf(),
            old(self).fc() + 5 <= BUFFER_WORDS - 1,
            old(self).readers().len() < 16,
        ensures
            final(self).wf(),
            final(self).fc() == old(self).fc() + 5,
            final(self).buf() == old(self).buf().update(old(self).fc(), TAG_GET_VIRTUAL_SIZE).update(old(self).fc() + 1, 8u32).update(old(self).fc() + 2, 0u32).update(old(self).fc() + 3, 0).update(old(self).fc() + 4, 0),
            final(self).readers() == old(self).readers().push(
                (ResultReader { tp: ResultKind::Size, offset: (old(self).fc() + 3) as u32 }),
            ),
    {
        let fc = self.field_count;
        self.mbox[fc] = TAG_GET_VIRTUAL_SIZE;
        self.mbox[fc + 1] = 8;
        self.mbox[fc + 2] = 0;
        self.mbox[fc + 3] = 0;
        self.mbox[fc + 4] = 0;
        let offset = fc + 3;
        self.add_result_reader(ResultKind::Size, offset as u32);
        self.field_count = fc + 5;
    }

    /// Add a SET_VIRTUAL_OFFSET tag: `{tag, 8, 0, x, y}`. With `want_result`,
    /// a `Point` reader is registered over the two reply words.
    pub fn set_virtual_offset(&mut self, x: u32, y: u32, want_result: bool)
        requires
            old(self).wf(),
            old(self).fc() + 5 <= BUFFER_WORDS - 1,
            want_result ==> old(self).readers().len() < 16,
        ensures
            final(self).wf(),
            final(self).fc() == old(self).fc() + 5,
            final(self).buf() == old(self).buf().update(old(self).fc(), TAG_SET_VIRTUAL_OFFSET).update(old(self).fc() + 1, 8u32).update(old(self).fc() + 2, 0u32).update(old(self).fc() + 3, x).update(old(self).fc() + 4, y),
            final(self).readers() == (if want_result {
                old(self).readers().push(
                    (ResultReader { tp: ResultKind::Point, offset: (old(self).fc() + 3) as u32 }),
                )
            } else {
                old(self).readers()
            }),
    {
        let fc = self.field_count;
        self.mbox[fc] = TAG_SET_VIRTUAL_OFFSET;
        self.mbox[fc + 1] = 8;
        self.mbox[fc + 2] = 0;
        self.mbox[fc + 3] = x;
        self.mbox[fc + 4] = y;
        if want_result {
            let offset = fc + 3;
            self.add_result_reader(ResultKind::Point, offset as u32);
        }
        self.field_count = fc + 5;
    }

    /// Add a GET_VIRTUAL_OFFSET tag: `{tag, 8, 0, 0, 0}`. The firmware writes
    /// the offsets over the zero words; a `Point` reader is registered.
    pub fn get_virtual_offset(&mut self)
        requires
            old(self).wf(),
            old(self).fc() + 5 <= BUFFER_WORDS - 1,
            old(self).readers().len() < 16,
        ensures
            final(self).wf(),
            final(self).fc() == old(self).fc() + 5,
            final(self).buf() == old(self).buf().update(old(self).fc(), TAG_GET_VIRTUAL_OFFSET).update(old(self).fc() + 1, 8u32).update(old(self).fc() + 2, 0u32).update(old(self).fc() + 3, 0).update(old(self).fc() + 4, 0),
            final(self).readers() == old(self).readers().push(
                (ResultReader { tp: ResultKind::Point, offset: (old(self).fc() + 3) as u32 }),
            ),
    {
        let fc = self.field_count;
        self.mbox[fc] = TAG_GET_VIRTUAL_OFFSET;
        self.mbox[fc + 1] = 8;
        self.mbox[fc + 2] = 0;
        self.mbox[fc + 3] = 0;
        self.mbox[fc + 4] = 0;
        let offset = fc + 3;
        self.add_result_reader(ResultKind::Point, offset as u32);
        self.field_count = fc + 5;
    }

    /// Add a SET_BUFFER_DEPTH tag: `{tag, 4, 0, depth}`. With `want_result`, a
    /// `SingleU32` reader is registered over the reply word.
    pub fn set_buffer_depth(&mut self, depth: u32, want_result: bool)
        requires
            old(self).wf(),
            old(self).fc() + 4 <= BUFFER_WORDS - 1,
            want_result ==> old(self).readers().len() < 16,
        ensures
            final(self).wf(),
            final(self).fc() == old(self).fc() + 4,
            final(self).buf() == old(self).buf().update(old(self).fc(), TAG_SET_BUFFER_DEPTH).update(old(self).fc() + 1, 4u32).update(old(self).fc() + 2, 0u32).update(old(self).fc() + 3, depth),
            final(self).readers() == (if want_result {
                old(self).readers().push(
                    (ResultReader { tp: ResultKind::SingleU32, offset: (old(self).fc() + 3) as u32 }),
                )
            } else {
                old(self).readers()
            }),
    {
        let fc = self.field_count;
        self.mbox[fc] = TAG_SET_BUFFER_DEPTH;
        self.mbox[fc + 1] = 4;
        self.mbox[fc + 2] = 0;
        self.mbox[fc + 3] = depth;
        if want_result {
            let offset = fc + 3;
            self.add_result_reader(ResultKind::SingleU32, offset as u32);
        }
        self.field_count = fc + 4;
    }

    /// Add a GET_BUFFER_DEPTH tag: `{tag, 4, 0, 0}`. The firmware writes the
    /// depth over the zero word; a `SingleU32` reader is registered.
    pub fn get_buffer_depth(&mut self)
        requires
            old(self).wf(),
            old(self).fc() + 4 <= BUFFER_WORDS - 1,
            old(self).readers().len() < 16,
        ensures
            final(self).wf(),
            final(self).fc() == old(self).fc() + 4,
            final(self).buf() == old(self).buf().update(old(self).fc(), TAG_GET_BUFFER_DEPTH).update(old(self).fc() + 1, 4u32).update(old(self).fc() + 2, 0u32).update(old(self).fc() + 3, 0),
            final(self).readers() == old(self).readers().push(
                (ResultReader { tp: ResultKind::SingleU32, offset: (old(self).fc() + 3) as u32 }),
            ),
    {
        let fc = self.field_count;
        self.mbox[fc] = TAG_GET_BUFFER_DEPTH;
        self.mbox[fc + 1] = 4;
        self.mbox[fc + 2] = 0;
        self.mbox[fc + 3] = 0;
        let offset = fc + 3;
        self.add_result_reader(ResultKind::SingleU32, offset as u32);
        self.field_count = fc + 4;
    }

    /// Add a SET_PIXEL_ORDER tag: `{tag, 4, 0, pixel order}`. With
    /// `want_result`, a `SingleU32` reader is registered over the reply word.
    pub fn set_pixel_order(&mut self, pixel_order: u32, want_result: bool)
        requires
            old(self).wf(),
            old(self).fc() + 4 <= BUFFER_WORDS - 1,
            want_result ==> old(self).readers().len() < 16,
        ensures
            final(self).wf(),
            final(self).fc() == old(self).fc() + 4,
            final(self).buf() == old(self).buf().update(old(self).fc(), TAG_SET_PIXEL_ORDER).update(old(self).fc() + 1, 4u32).update(old(self).fc() + 2, 0u32).update(old(self).fc() + 3, pixel_order),
            final(self).readers() == (if want_result {
                old(self).readers().push(
                    (ResultReader { tp: ResultKind::SingleU32, offset: (old(self).fc() + 3) as u32 }),
                )
            } else {
                old(self).readers()
            }),
    {
        let fc = self.field_count;
        self.mbox[fc] = TAG_SET_PIXEL_ORDER;
        self.mbox[fc + 1] = 4;
        self.mbox[fc + 2] = 0;
        self.mbox[fc + 3] = pixel_order;
        if want_result {
            let offset = fc + 3;
            self.add_result_reader(ResultKind::SingleU32, offset as u32);
        }
        self.field_count = fc + 4;
    }

    /// Add a GET_PIXEL_ORDER tag: `{tag, 4, 0, 0}`. The firmware writes the
    /// order over the zero word; a `SingleU32` reader is registered.
    pub fn get_pixel_order(&mut self)
        requires
            old(self).wf(),
            old(self).fc() + 4 <= BUFFER_WORDS - 1,
            old(self).readers().len() < 16,
        ensures
            final(self).wf(),
            final(self).fc() == old(self).fc() + 4,
            final(self).buf() == old(self).buf().update(old(self).fc(), TAG_GET_PIXEL_ORDER).update(old(self).fc() + 1, 4u32).update(old(self).fc() + 2, 0u32).update(old(self).fc() + 3, 0),
            final(self).readers() == old(self).readers().push(
                (ResultReader { tp: ResultKind::SingleU32, offset: (old(self).fc() + 3) as u32 }),
            ),
    {
        let fc = self.field_count;
        self.mbox[fc] = TAG_GET_PIXEL_ORDER;
        self.mbox[fc + 1] = 4;
        self.mbox[fc + 2] = 0;
        self.mbox[fc + 3] = 0;
        let offset = fc + 3;
        self.add_result_reader(ResultKind::SingleU32, offset as u32);
        self.field_count = fc + 4;
    }

    /// Add an ALLOCATE_FRAME_BUFFER tag: `{tag, 8, 0, 4096, 0}` — the 4096 is
    /// the requested alignment, which the firmware overwrites with the
    /// buffer's bus address. With `want_result`, a `FrameBuffer` reader is
    /// registered over the two reply words.
    pub fn allocate_framebuffer(&mut self, want_result: bool)
        requires
            old(self).wf(),
            old(self).fc() + 5 <= BUFFER_WORDS - 1,
            want_result ==> old(self).readers().len() < 16,
        ensures
            final(self).wf(),
            final(self).fc() == old(self).fc() + 5,
            final(self).buf() == old(self).buf().update(old(self).fc(), TAG_ALLOCATE_FRAME_BUFFER).update(old(self).fc() + 1, 8u32).update(old(self).fc() + 2, 0u32).update(old(self).fc() + 3, 4096).update(old(self).fc() + 4, 0),
            final(self).readers() == (if want_result {
                old(self).readers().push(
                    (ResultReader { tp: ResultKind::FrameBuffer, offset: (old(self).fc() + 3) as u32 }),
                )
            } else {
                old(self).readers()
            }),
    {
        let fc = self.field_count;
        self.mbox[fc] = TAG_ALLOCATE_FRAME_BUFFER;
        self.mbox[fc + 1] = 8;
        self.mbox[fc + 2] = 0;
        self.mbox[fc + 3] = 4096;
        self.mbox[fc + 4] = 0;
        if want_result {
            let offset = fc + 3;
            self.add_result_reader(ResultKind::FrameBuffer, offset as u32);
        }
        self.field_count = fc + 5;
    }

    /// Add a GET_PITCH tag: `{tag, 4, 0, 0}`. The firmware writes the row
    /// pitch in bytes over the zero word; a `SingleU32` reader is registered.
    pub fn get_pitch(&mut self)
        requires
            old(self).wf(),
            old(self).fc() + 4 <= BUFFER_WORDS - 1,
            old(self).readers().len() < 16,
        ensures
            final(self).wf(),
            final(self).fc() == old(self).fc() + 4,
            final(self).buf() == old(self).buf().update(old(self).fc(), TAG_GET_PITCH).update(old(self).fc() + 1, 4u32).update(old(self).fc() + 2, 0u32).update(old(self).fc() + 3, 0),
            final(self).readers() == old(self).readers().push(
                (ResultReader { tp: ResultKind::SingleU32, offset: (old(self).fc() + 3) as u32 }),
            ),
    {
        let fc = self.field_count;
        self.mbox[fc] = TAG_GET_PITCH;
        self.mbox[fc + 1] = 4;
        self.mbox[fc + 2] = 0;
        self.mbox[fc + 3] = 0;
        let offset = fc + 3;
        self.add_result_reader(ResultKind::SingleU32, offset as u32);
        self.field_count = fc + 4;
    }

    /// Add a GET_ARM_MEMORY tag: `{tag, 8, 0, 0, 0}`. The firmware writes base
    /// address and size over the zero words; an `ARMMemory` reader is
    /// registered.
    pub fn get_arm_memory(&mut self)
        requires
            old(self).wf(),
            old(self).fc() + 5 <= BUFFER_WORDS - 1,
            old(self).readers().len() < 16,
        ensures
            final(self).wf(),
            final(self).fc() == old(self).fc() + 5,
            final(self).buf() == old(self).buf().update(old(self).fc(), TAG_GET_ARM_MEMORY).update(old(self).fc() + 1, 8u32).update(old(self).fc() + 2, 0u32).update(old(self).fc() + 3, 0).update(old(self).fc() + 4, 0),
            final(self).readers() == old(self).readers().push(
                (ResultReader { tp: ResultKind::ARMMemory, offset: (old(self).fc() + 3) as u32 }),
            ),
    {
        let fc = self.field_count;
        self.mbox[fc] = TAG_GET_ARM_MEMORY;
        self.mbox[fc + 1] = 8;
        self.mbox[fc + 2] = 0;
        self.mbox[fc + 3] = 0;
        self.mbox[fc + 4] = 0;
        let offset = fc + 3;
        self.add_result_reader(ResultKind::ARMMemory, offset as u32);
        self.field_count = fc + 5;
    }

    /// Seal the message: write the terminating 0 word at the cursor and the
    /// total byte length `(field count + 1) * 4` into word 0. After this the
    /// buffer is ready to be handed to the firmware.
    pub fn seal(&mut self)
        requires
            old(self).wf(),
        ensures
            final(self).wf(),
            final(self).fc() == old(self).fc(),
            final(self).readers() == old(self).readers(),
            final(self).buf() == old(self).buf().update(old(self).fc(), 0u32).update(
                0,
                (4 * (old(self).fc() + 1)) as u32,
            ),
            final(self).buf()[0] == 4 * (final(self).fc() + 1),
            final(self).buf()[final(self).fc()] == 0,
    {
        let fc = self.field_count;
        self.mbox[fc] = 0;
        self.mbox[0] = ((fc + 1) * 4) as u32;
    }

    /// Read the reply out of the buffer: `None` unless word 1 holds the
    /// success code, otherwise one typed result per registered reader, in
    /// registration order.
    pub fn read_results(&self) -> (r: Option<Vec<MailboxResult>>)
        requires
            self.wf(),
            no_nothing_readers(self.readers()),
        ensures
            r is Some <==> self.buf()[1] == MAILBOX_SUCCESS,
            r matches Some(vals) ==> vals@ == read_all_results(self.buf(), self.readers()),
    {
        if self.mbox[1] != MAILBOX_SUCCESS {
            return None;
        }
        let mut vals: Vec<MailboxResult> = Vec::new();
        let mut i: usize = 0;
        while i < self.results.len()
            invariant
                self.wf(),
                i <= self.results.len(),
                vals@.len() == i,
                forall|j: int|
                    0 <= j < i ==> vals@[j] == read_result(self.buf(), self.readers()[j]),
            decreases self.results.len() - i,
        {
            let rd = self.results[i];
            let off = rd.offset as usize;
            let v = match rd.tp {
                ResultKind::SingleU32 => MailboxResult::SingleU32 { first: self.mbox[off] },
                ResultKind::Size => MailboxResult::Size {
                    size: Size { width: self.mbox[off], height: self.mbox[off + 1] },
                },
                ResultKind::Point => MailboxResult::Point {
                    point: Point { x: self.mbox[off], y: self.mbox[off + 1] },
                },
                ResultKind::ClockRate => MailboxResult::ClockRate {
                    clock_rate: ClockRate { id: self.mbox[off], hz: self.mbox[off + 1] },
                },
                ResultKind::FrameBuffer => MailboxResult::FrameBuffer {
                    frame_buffer: FrameBuffer {
                        pointer: self.mbox[off],
                        size: self.mbox[off + 1],
                    },
                },
                ResultKind::ARMMemory => MailboxResult::ARMMemory {
                    arm_memory: ARMMemory {
                        base_address: self.mbox[off] as usize,
                        size: self.mbox[off + 1] as usize,
                    },
                },
                ResultKind::Nothing => MailboxResult::Nothing,
            };
            vals.push(v);
            i += 1;
        }
        proof {
            assert(vals@ =~= read_all_results(self.buf(), self.readers()));
        }
        Some(vals)
    }

    /// Seal the message and read the reply back out of the buffer. On
    /// hardware the exchange with the firmware stands between those two
    /// steps; in a test the reply words are delivered through `write_word`
    /// before the call. `None` unless word 1 holds the success code,
    /// otherwise one typed result per registered reader.
    pub fn submit(&mut self) -> (r: Option<Vec<MailboxResult>>)
        requires
            old(self).wf(),
            no_nothing_readers(old(self).readers()),
        ensures
            final(self).wf(),
            final(self).fc() == old(self).fc(),
            final(self).readers() == old(self).readers(),
            final(self).buf() == old(self).buf().update(old(self).fc(), 0u32).update(
                0,
                (4 * (old(self).fc() + 1)) as u32,
            ),
            final(self).buf()[0] == 4 * (final(self).fc() + 1),
            final(self).buf()[final(self).fc()] == 0,
            r is Some <==> old(self).buf()[1] == MAILBOX_SUCCESS,
            r matches Some(vals) ==> vals@ == read_all_results(
                final(self).buf(),
                final(self).readers(),
            ),
    {
        self.seal();
        self.read_results()
    }
}

} // verus!
