//! Framebuffer negotiation with the VideoCore firmware and the pixel
//! arithmetic behind the drawing routines. The volatile stores into the
//! framebuffer itself are the machine-facing shell's; this module computes
//! every value they write.

pub mod mailbox;

use crate::cpu::{spec_dec, to_decimal};
use crate::error::{SalmiakError, SalmiakErrorKind};
use crate::gpu::mailbox::{
    FrameBuffer, MailboxPropertyBufferBuilder, MailboxResult, ResultKind, ResultReader, Size,
    MAILBOX_SUCCESS,
};
use crate::memory::allocator::{lemma_common_powers_of_two, Allocator};
use vstd::prelude::*;
use vstd::string::StringExecFns;

verus! {

/// An ARGB colour, one byte per channel.
#[derive(Clone, Copy, Debug, PartialEq, Eq, Structural)]
pub struct Color {
    pub alpha: u8,
    pub red: u8,
    pub green: u8,
    pub blue: u8,
}

impl Color {
    pub fn new(red: u8, green: u8, blue: u8, alpha: u8) -> (c: Color)
        ensures
            c.red == red,
            c.green == green,
            c.blue == blue,
            c.alpha == alpha,
    {
        Color { red, green, blue, alpha }
    }

    /// The pixel word the framebuffer stores for this colour:
    /// `0xAARRGGBB`.
    pub fn to_u32(&self) -> (w: u32)
        ensures
            w == (self.alpha as u32) << 24 | (self.red as u32) << 16 | (self.green as u32) << 8 | (
            self.blue as u32),
    {
        (self.alpha as u32) << 24 | (self.red as u32) << 16 | (self.green as u32) << 8 | (self.blue
            as u32)
    }
}

impl From<u32> for Color {
    /// The colour a pixel word `0xAARRGGBB` denotes.
    fn from(n: u32) -> (c: Color) {
        Color { alpha: (n >> 24) as u8, red: (n >> 16) as u8, green: (n >> 8) as u8, blue: n as u8 }
    }
}

impl vstd::std_specs::convert::FromSpecImpl<u32> for Color {
    open spec fn obeys_from_spec() -> bool {
        true
    }

    open spec fn from_spec(n: u32) -> Color {
        Color { alpha: (n >> 24) as u8, red: (n >> 16) as u8, green: (n >> 8) as u8, blue: n as u8 }
    }
}

/// A framebuffer the application draws on: the firmware's buffer, the row
/// pitch in bytes, the negotiated resolution, and the kernel-side staging
/// buffer the drawing routines write into before `swap` copies it over.
#[derive(Debug)]
pub struct Gpu {
    pub frame_buffer: FrameBuffer,
    pub pitch: u32,
    pub resolution: Size,
    pub mem_buffer: usize,
}

impl Gpu {
    /// Back a `Gpu` with a staging buffer of the framebuffer's size,
    /// requested from `allocator` at 16-byte alignment. `None` when the
    /// allocator cannot serve it.
    pub fn new<A: Allocator>(
        frame_buffer: FrameBuffer,
        resolution: Size,
        pitch: u32,
        allocator: &mut A,
    ) -> (r: Option<Gpu>)
        requires
            old(allocator).wf(),
        ensures
            final(allocator).wf(),
            final(allocator).region_start() == old(allocator).region_start(),
            final(allocator).region_end() == old(allocator).region_end(),
            r matches Some(g) ==> g.frame_buffer == frame_buffer && g.resolution == resolution
                && g.pitch == pitch && g.mem_buffer != 0 && (g.mem_buffer as int) % 16 == 0
                && g.mem_buffer + frame_buffer.size <= old(allocator).region_end(),
    {
        proof {
            lemma_common_powers_of_two();
        }
        let sz = frame_buffer.size as usize;
        let mem = allocator.allocate(sz, 16);
        if mem == 0 {
            return None;
        }
        Some(Gpu { frame_buffer, resolution, pitch, mem_buffer: mem })
    }

    /// The byte offset of pixel `(x, y)` in a buffer of this `Gpu`'s pitch:
    /// four bytes per pixel, `pitch` bytes per row.
    pub fn pixel_offset(&self, x: u32, y: u32) -> (idx: u32)
        requires
            x * 4 + y * self.pitch <= u32::MAX,
        ensures
            idx == x * 4 + y * self.pitch,
    {
        x * 4 + y * self.pitch
    }
}

/// The CPU-visible physical address of a buffer the firmware returned: the
/// bus-alias bits 31:30 masked off.
pub fn bus_to_cpu_address(bus: u32) -> (r: u32)
    ensures
        r == bus & 0x3fff_ffff,
{
    bus & 0x3fff_ffff
}

/// Whether the pixel `(x, y)` of a circle's bounding square lies inside the
/// circle of radius `rad` centred at `(rad, rad)`.
pub fn circle_contains(rad: u32, x: u32, y: u32) -> (r: bool)
    requires
        rad <= 0xffff,
        x <= 0x2_0000,
        y <= 0x2_0000,
    ensures
        r <==> (rad - x) * (rad - x) + (rad - y) * (rad - y) < rad * rad,
{
    let xdiff = rad as i64 - x as i64;
    let ydiff = rad as i64 - y as i64;
    proof {
        assert(xdiff * xdiff <= 0x3_0000 * 0x3_0000 && ydiff * ydiff <= 0x3_0000 * 0x3_0000
            && xdiff * xdiff >= 0 && ydiff * ydiff >= 0) by (nonlinear_arith)
            requires
                -0x3_0000 <= xdiff <= 0x3_0000 && -0x3_0000 <= ydiff <= 0x3_0000,
        ;
        assert((rad as i64) * (rad as i64) <= 0xffff * 0xffff && (rad as i64) * (rad as i64) >= 0)
            by (nonlinear_arith)
            requires
                0 <= rad as i64 <= 0xffff,
        ;
    }
    let dist = xdiff * xdiff + ydiff * ydiff;
    dist < (rad as i64) * (rad as i64)
}

/// The readers the framebuffer negotiation registers, in order: the five
/// configuration echoes, the allocated framebuffer, the pitch, and the five
/// read-back queries.
pub open spec fn gpu_init_readers() -> Seq<ResultReader> {
    seq![
        ResultReader { tp: ResultKind::Size, offset: 5 },
        ResultReader { tp: ResultKind::Size, offset: 10 },
        ResultReader { tp: ResultKind::Point, offset: 15 },
        ResultReader { tp: ResultKind::SingleU32, offset: 20 },
        ResultReader { tp: ResultKind::SingleU32, offset: 24 },
        ResultReader { tp: ResultKind::FrameBuffer, offset: 28 },
        ResultReader { tp: ResultKind::SingleU32, offset: 33 },
        ResultReader { tp: ResultKind::Size, offset: 37 },
        ResultReader { tp: ResultKind::Size, offset: 42 },
        ResultReader { tp: ResultKind::Point, offset: 47 },
        ResultReader { tp: ResultKind::SingleU32, offset: 52 },
        ResultReader { tp: ResultKind::SingleU32, offset: 56 },
    ]
}

/// Build the framebuffer-negotiation request: set physical and virtual size
/// to `width` by `height`, zero the virtual offset, ask for 32-bit depth
/// and pixel order 0, allocate the framebuffer at 4096-byte alignment, and
/// read back pitch, sizes, offset, depth and order.
pub fn init(width: u32, height: u32) -> (b: MailboxPropertyBufferBuilder)
    ensures
        b.wf(),
        b.fc() == 57,
        b.readers() == gpu_init_readers(),
        b.buf().len() == 128,
        b.buf()[0] == 0 && b.buf()[1] == 0,
        b.buf()[2] == mailbox::TAG_SET_PHYSICAL_SIZE && b.buf()[3] == 8 && b.buf()[4] == 0
            && b.buf()[5] == width && b.buf()[6] == height,
        b.buf()[7] == mailbox::TAG_SET_VIRTUAL_SIZE && b.buf()[8] == 8 && b.buf()[9] == 0
            && b.buf()[10] == width && b.buf()[11] == height,
        b.buf()[12] == mailbox::TAG_SET_VIRTUAL_OFFSET && b.buf()[13] == 8 && b.buf()[14] == 0
            && b.buf()[15] == 0 && b.buf()[16] == 0,
        b.buf()[17] == mailbox::TAG_SET_BUFFER_DEPTH && b.buf()[18] == 4 && b.buf()[19] == 0
            && b.buf()[20] == 32,
        b.buf()[21] == mailbox::TAG_SET_PIXEL_ORDER && b.buf()[22] == 4 && b.buf()[23] == 0
            && b.buf()[24] == 0,
        b.buf()[25] == mailbox::TAG_ALLOCATE_FRAME_BUFFER && b.buf()[26] == 8 && b.buf()[27] == 0
            && b.buf()[28] == 4096 && b.buf()[29] == 0,
        b.buf()[30] == mailbox::TAG_GET_PITCH && b.buf()[31] == 4 && b.buf()[32] == 0 && b.buf()[33]
            == 0,
        b.buf()[34] == mailbox::TAG_GET_VIRTUAL_SIZE && b.buf()[35] == 8 && b.buf()[36] == 0
            && b.buf()[37] == 0 && b.buf()[38] == 0,
        b.buf()[39] == mailbox::TAG_GET_PHYSICAL_SIZE && b.buf()[40] == 8 && b.buf()[41] == 0
            && b.buf()[42] == 0 && b.buf()[43] == 0,
        b.buf()[44] == mailbox::TAG_GET_VIRTUAL_OFFSET && b.buf()[45] == 8 && b.buf()[46] == 0
            && b.buf()[47] == 0 && b.buf()[48] == 0,
        b.buf()[49] == mailbox::TAG_GET_BUFFER_DEPTH && b.buf()[50] == 4 && b.buf()[51] == 0
            && b.buf()[52] == 0,
        b.buf()[53] == mailbox::TAG_GET_PIXEL_ORDER && b.buf()[54] == 4 && b.buf()[55] == 0
            && b.buf()[56] == 0,
        forall|i: int| 57 <= i < 128 ==> b.buf()[i] == 0,
{
    let mut b = MailboxPropertyBufferBuilder::new();
    b.set_physical_size(width, height, true);
    b.set_virtual_size(width, height, true);
    b.set_virtual_offset(0, 0, true);
    b.set_buffer_depth(32, true);
    b.set_pixel_order(0, true);
    b.allocate_framebuffer(true);
    b.get_pitch();
    b.get_virtual_size();
    b.get_physical_size();
    b.get_virtual_offset();
    b.get_buffer_depth();
    b.get_pixel_order();
    proof {
        assert(b.readers() =~= gpu_init_readers());
    }
    b
}

/// The message of the error returned when the firmware refuses the
/// framebuffer request.
pub open spec fn spec_gpu_init_error(width: u32, height: u32) -> Seq<char> {
    "Failed to allocate frame buffer of size w:"@ + spec_dec(width as int) + " h:"@ + spec_dec(
        height as int,
    )
}

/// Finish the framebuffer negotiation over an exchanged request built by
/// `init`: read the reply, and back a `Gpu` with a staging buffer from
/// `allocator`. The firmware's refusal and an exhausted allocator each turn
/// into a GPU initialization error carrying their message.
pub fn complete_init<A: Allocator>(
    b: &mut MailboxPropertyBufferBuilder,
    width: u32,
    height: u32,
    allocator: &mut A,
) -> (r: Result<Gpu, SalmiakError>)
    requires
        old(b).wf(),
        old(b).fc() == 57,
        old(b).readers() == gpu_init_readers(),
        old(allocator).wf(),
    ensures
        final(b).wf(),
        final(b).fc() == old(b).fc(),
        final(b).readers() == old(b).readers(),
        final(b).buf() == old(b).buf().update(old(b).fc(), 0u32).update(
            0,
            (4 * (old(b).fc() + 1)) as u32,
        ),
        final(allocator).wf(),
        final(allocator).region_start() == old(allocator).region_start(),
        final(allocator).region_end() == old(allocator).region_end(),
        old(b).buf()[1] != MAILBOX_SUCCESS ==> (r matches Err(e)
            && e.spec_kind() matches SalmiakErrorKind::InitGPUError(m)
            && m@ == spec_gpu_init_error(width, height)),
        r matches Ok(g) ==> ({
            &&& old(b).buf()[1] == MAILBOX_SUCCESS
            &&& g.frame_buffer == (FrameBuffer {
                pointer: old(b).buf()[28],
                size: old(b).buf()[29],
            })
            &&& g.resolution == (Size { width: old(b).buf()[5], height: old(b).buf()[6] })
            &&& g.pitch == old(b).buf()[33]
            &&& g.mem_buffer != 0
            &&& (g.mem_buffer as int) % 16 == 0
        }),
        old(b).buf()[1] == MAILBOX_SUCCESS ==> (r matches Err(e)
            ==> e.spec_kind() matches SalmiakErrorKind::InitGPUError(m)
            && m@ == "Failed to allocate GPU buffer."@),
{
    match b.submit() {
        None => {
            let mut msg = String::from_str("Failed to allocate frame buffer of size w:");
            let w = to_decimal(width);
            msg.append(w.as_str());
            msg.append(" h:");
            let h = to_decimal(height);
            msg.append(h.as_str());
            Err(SalmiakError::from(SalmiakErrorKind::InitGPUError(msg)))
        },
        Some(vals) => {
            let physical_size = match vals[0] {
                MailboxResult::Size { size } => size,
                _ => Size { width: 0, height: 0 },
            };
            let frame_buffer = match vals[5] {
                MailboxResult::FrameBuffer { frame_buffer } => frame_buffer,
                _ => FrameBuffer { pointer: 0, size: 0 },
            };
            let pitch = match vals[6] {
                MailboxResult::SingleU32 { first } => first,
                _ => 0,
            };
            match Gpu::new(frame_buffer, physical_size, pitch, allocator) {
                Some(g) => Ok(g),
                None => Err(
                    SalmiakError::from(
                        SalmiakErrorKind::InitGPUError(
                            String::from_str("Failed to allocate GPU buffer."),
                        ),
                    ),
                ),
            }
        },
    }
}

} // verus!
