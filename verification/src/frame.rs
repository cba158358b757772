//! Validates packed video buffers and normalizes them to tightly packed BGRA.
use std::collections::TryReserveError;

use crate::spa::{
    Channel, Chunk, SPA_CHUNK_FLAG_CORRUPTED, SPA_CHUNK_FLAG_EMPTY, SPA_VIDEO_FORMAT_BGRA,
    SPA_VIDEO_FORMAT_BGRX, SPA_VIDEO_FORMAT_RGBA, SPA_VIDEO_FORMAT_RGBX,
};
use vstd::prelude::*;

verus! {

/// Dimensions and pixel format that were negotiated for a stream.
#[derive(Clone, Copy, Debug)]
pub struct FrameFormat {
    pub width: u32,
    pub height: u32,
    /// `SPA_VIDEO_FORMAT_*` identifier.
    pub pixel_format: u32,
}

impl FrameFormat {
    /// Bytes in one row of pixels, without padding.
    pub open spec fn row_bytes(self) -> nat {
        (self.width * 4) as nat
    }

    /// Bytes in one tightly packed frame.
    pub open spec fn byte_count(self) -> nat {
        (self.width * self.height * 4) as nat
    }

    /// The number of bytes in a tightly packed frame, or `None` where it overflows.
    pub fn frame_len(self) -> (len: Option<usize>)
        ensures
            self.byte_count() <= usize::MAX ==> len == Some(self.byte_count() as usize),
            self.byte_count() > usize::MAX ==> len is None,
    {
        let pixels: Option<usize> = (self.width as usize).checked_mul(self.height as usize);
        match pixels {
            Some(pixels) => pixels.checked_mul(4),
            None => None,
        }
    }
}

/// Whether a pixel format is one that a frame can be copied from.
pub open spec fn is_supported(pixel_format: u32) -> bool {
    ||| pixel_format == SPA_VIDEO_FORMAT_BGRA
    ||| pixel_format == SPA_VIDEO_FORMAT_BGRX
    ||| pixel_format == SPA_VIDEO_FORMAT_RGBA
    ||| pixel_format == SPA_VIDEO_FORMAT_RGBX
}

/// Whether red comes before blue in memory.
pub open spec fn swaps_red_blue(pixel_format: u32) -> bool {
    pixel_format == SPA_VIDEO_FORMAT_RGBA || pixel_format == SPA_VIDEO_FORMAT_RGBX
}

/// Whether the fourth byte of a pixel is unused rather than alpha.
pub open spec fn is_opaque(pixel_format: u32) -> bool {
    pixel_format == SPA_VIDEO_FORMAT_BGRX || pixel_format == SPA_VIDEO_FORMAT_RGBX
}

/// Whether a chunk carries nothing to copy: no bytes, or marked as corrupted or empty.
pub open spec fn is_ignored(chunk: Chunk) -> bool {
    chunk.size == 0 || chunk.flags & (SPA_CHUNK_FLAG_CORRUPTED | SPA_CHUNK_FLAG_EMPTY) != 0
}

/// Distance between the starts of two rows: that of the chunk, where zero stands for rows
/// without padding.
pub open spec fn row_stride(chunk: Chunk, format: FrameFormat) -> int {
    if chunk.stride == 0 {
        format.row_bytes() as int
    } else {
        chunk.stride as int
    }
}

/// Bytes from the start of the first row to the end of the last one.
pub open spec fn required_bytes(chunk: Chunk, format: FrameFormat) -> int {
    (format.height - 1) * row_stride(chunk, format) + format.row_bytes()
}

/// Where the first row starts in mapped memory of `memory_len` bytes.
pub open spec fn first_row(memory_len: nat, chunk: Chunk) -> int {
    chunk.offset as int % memory_len as int
}

/// The smaller of the size that a chunk claims and the size of the mapped memory.
pub open spec fn valid_bytes(memory_len: nat, chunk: Chunk) -> int {
    if chunk.size < memory_len {
        chunk.size as int
    } else {
        memory_len as int
    }
}

/// Why a chunk that is not ignored cannot be copied, or `None` where it can.
pub open spec fn rejection(memory_len: nat, chunk: Chunk, format: FrameFormat) -> Option<
    Seq<char>,
> {
    if memory_len == 0 || format.width == 0 || format.height == 0 {
        Some("Empty video buffer or dimensions"@)
    } else if !is_supported(format.pixel_format) {
        Some("Unsupported packed video format"@)
    } else if format.row_bytes() > usize::MAX {
        Some("Video row size overflow"@)
    } else if chunk.stride < 0 {
        Some("Negative video stride is unsupported"@)
    } else if row_stride(chunk, format) < format.row_bytes() {
        Some("Video stride is shorter than a row"@)
    } else if required_bytes(chunk, format) > usize::MAX {
        Some("Video buffer size overflow"@)
    } else if required_bytes(chunk, format) > valid_bytes(memory_len, chunk) || required_bytes(
        chunk,
        format,
    ) > memory_len - first_row(memory_len, chunk) {
        Some("Video chunk extends beyond the mapped buffer"@)
    } else if format.byte_count() > usize::MAX {
        Some("Video frame size overflow"@)
    } else {
        None
    }
}

/// The bytes of `rows` rows that start `stride` bytes apart, put end to end.
pub open spec fn packed_rows(
    memory: Seq<u8>,
    offset: int,
    stride: int,
    row_bytes: int,
    rows: int,
) -> Seq<u8> {
    Seq::new(
        (rows * row_bytes) as nat,
        |i: int| memory[offset + (i / row_bytes) * stride + i % row_bytes],
    )
}

/// The place that byte `i` of a BGRA pixel row has where red and blue are the other way round.
pub open spec fn exchanged(i: int) -> int {
    if i % 4 == 0 {
        i + 2
    } else if i % 4 == 2 {
        i - 2
    } else {
        i
    }
}

/// Packed pixels as BGRA: red and blue exchanged and alpha made opaque as asked.
pub open spec fn as_bgra(pixels: Seq<u8>, swap_red_blue: bool, opaque: bool) -> Seq<u8> {
    Seq::new(
        pixels.len(),
        |i: int|
            if opaque && i % 4 == 3 {
                255u8
            } else if swap_red_blue {
                pixels[exchanged(i)]
            } else {
                pixels[i]
            },
    )
}

/// The frame that a chunk describes, as tightly packed BGRA.
pub open spec fn frame_of(memory: Seq<u8>, chunk: Chunk, format: FrameFormat) -> Seq<u8> {
    as_bgra(
        packed_rows(
            memory,
            first_row(memory.len(), chunk),
            row_stride(chunk, format),
            format.row_bytes() as int,
            format.height as int,
        ),
        swaps_red_blue(format.pixel_format),
        is_opaque(format.pixel_format),
    )
}

/// What becomes of a chunk.
pub enum CopyOutcome {
    /// It carries nothing to copy.
    Nothing,
    /// It gives a frame.
    Frame(Seq<u8>),
    /// It is dropped, for the reason given.
    Dropped(Seq<char>),
}

/// What becomes of a chunk, given whether there is memory for a copy.
pub open spec fn copy_outcome(
    memory: Seq<u8>,
    chunk: Chunk,
    format: FrameFormat,
    allocated: bool,
) -> CopyOutcome {
    if is_ignored(chunk) {
        CopyOutcome::Nothing
    } else {
        match rejection(memory.len(), chunk, format) {
            Some(reason) => CopyOutcome::Dropped(reason),
            None => if allocated {
                CopyOutcome::Frame(frame_of(memory, chunk, format))
            } else {
                CopyOutcome::Dropped("Could not allocate video frame"@)
            },
        }
    }
}

/// The outcome that a result of [`copy_frame`] stands for.
pub open spec fn outcome_of(result: Result<Option<Vec<u8>>, &'static str>) -> CopyOutcome {
    match result {
        Ok(None) => CopyOutcome::Nothing,
        Ok(Some(bytes)) => CopyOutcome::Frame(bytes@),
        Err(message) => CopyOutcome::Dropped(message@),
    }
}

/// A validated layout of a frame in mapped memory.
#[derive(Clone, Copy, Debug)]
pub struct FramePlan {
    /// Where the first row starts.
    pub offset: usize,
    /// Distance between the starts of two rows.
    pub stride: usize,
    /// Bytes of pixels in a row.
    pub row_bytes: usize,
    /// Number of rows.
    pub rows: usize,
    /// Bytes in the tightly packed frame.
    pub frame_len: usize,
    /// Red comes before blue in memory.
    pub swap_red_blue: bool,
    /// The fourth byte of each pixel becomes 255.
    pub opaque: bool,
}

impl FramePlan {
    /// Every row lies inside `memory_len` bytes and holds whole pixels.
    pub open spec fn fits(self, memory_len: nat) -> bool {
        &&& self.rows >= 1
        &&& self.row_bytes >= 4
        &&& self.row_bytes % 4 == 0
        &&& self.stride >= self.row_bytes
        &&& self.offset + (self.rows - 1) * self.stride + self.row_bytes <= memory_len
        &&& self.frame_len == self.rows * self.row_bytes
    }

    /// The frame that the layout describes, as tightly packed BGRA.
    pub open spec fn frame(self, memory: Seq<u8>) -> Seq<u8> {
        as_bgra(
            packed_rows(
                memory,
                self.offset as int,
                self.stride as int,
                self.row_bytes as int,
                self.rows as int,
            ),
            self.swap_red_blue,
            self.opaque,
        )
    }

    /// The layout of the frame that a chunk describes.
    pub open spec fn lays_out(self, memory_len: nat, chunk: Chunk, format: FrameFormat) -> bool {
        &&& self.offset == first_row(memory_len, chunk)
        &&& self.stride == row_stride(chunk, format)
        &&& self.row_bytes == format.row_bytes()
        &&& self.rows == format.height
        &&& self.frame_len == format.byte_count()
        &&& self.swap_red_blue == swaps_red_blue(format.pixel_format)
        &&& self.opaque == is_opaque(format.pixel_format)
    }
}

/// Validates a chunk against the mapped memory and the negotiated format.
///
/// `Ok(None)` is a chunk that carries nothing to copy.
pub fn plan_frame(memory_len: usize, chunk: &Chunk, format: FrameFormat) -> (plan: Result<
    Option<FramePlan>,
    &'static str,
>)
    ensures
        is_ignored(*chunk) ==> plan == Ok::<Option<FramePlan>, &'static str>(None),
        !is_ignored(*chunk) ==> match rejection(memory_len as nat, *chunk, format) {
            Some(reason) => plan matches Err(message) && message@ == reason,
            None => plan matches Ok(Some(layout)) && layout.lays_out(
                memory_len as nat,
                *chunk,
                format,
            ) && layout.fits(memory_len as nat),
        },
{
    if chunk.size == 0 || chunk.flags & (SPA_CHUNK_FLAG_CORRUPTED | SPA_CHUNK_FLAG_EMPTY) != 0 {
        return Ok(None);
    }
    if memory_len == 0 || format.width == 0 || format.height == 0 {
        return Err("Empty video buffer or dimensions");
    }
    let (swap_red_blue, opaque): (bool, bool) = if format.pixel_format == SPA_VIDEO_FORMAT_BGRA {
        (false, false)
    } else if format.pixel_format == SPA_VIDEO_FORMAT_BGRX {
        (false, true)
    } else if format.pixel_format == SPA_VIDEO_FORMAT_RGBA {
        (true, false)
    } else if format.pixel_format == SPA_VIDEO_FORMAT_RGBX {
        (true, true)
    } else {
        return Err("Unsupported packed video format");
    };
    let row_bytes: usize = match (format.width as usize).checked_mul(4) {
        Some(row_bytes) => row_bytes,
        None => return Err("Video row size overflow"),
    };
    // A zero stride denotes tightly packed rows. A negative one is refused rather than taken
    // for a huge unsigned distance.
    let stride: usize = if chunk.stride == 0 {
        row_bytes
    } else if chunk.stride > 0 {
        chunk.stride as usize
    } else {
        return Err("Negative video stride is unsupported");
    };
    if stride < row_bytes {
        return Err("Video stride is shorter than a row");
    }
    let rows: usize = format.height as usize;
    let skipped: Option<usize> = (rows - 1).checked_mul(stride);
    let required: usize = match skipped {
        Some(skipped) => match skipped.checked_add(row_bytes) {
            Some(required) => required,
            None => return Err("Video buffer size overflow"),
        },
        None => return Err("Video buffer size overflow"),
    };
    // The offset counts modulo the mapped size, and the size is clamped to it.
    let offset: usize = chunk.offset as usize % memory_len;
    let size: usize = if (chunk.size as usize) < memory_len {
        chunk.size as usize
    } else {
        memory_len
    };
    if required > size || required > memory_len - offset {
        return Err("Video chunk extends beyond the mapped buffer");
    }
    let frame_len: usize = match format.frame_len() {
        Some(frame_len) => frame_len,
        None => return Err("Video frame size overflow"),
    };
    proof {
        assert(format.width * format.height * 4 == format.height * (format.width * 4))
            by (nonlinear_arith);
    }
    Ok(
        Some(
            FramePlan { offset, stride, row_bytes, rows, frame_len, swap_red_blue, opaque },
        ),
    )
}

/// Asks for room for `additional` more bytes through `Vec::try_reserve_exact`.
///
/// Claims only that the bytes already held stay as they are. Whether there is room depends on
/// the allocator, so nothing is said of when it fails.
#[verifier::external_body]
fn reserve_exactly(bytes: &mut Vec<u8>, additional: usize) -> (reserved: Result<
    (),
    TryReserveError,
>)
    ensures
        final(bytes)@ == old(bytes)@,
{
    bytes.try_reserve_exact(additional)
}

/// What a reservation leaves to work with: the storage itself where the allocator gave the room,
/// or `None` where it did not.
pub fn reserved_storage(bytes: Vec<u8>, reserved: Result<(), TryReserveError>) -> (storage: Option<
    Vec<u8>,
>)
    ensures
        reserved is Ok ==> storage == Some(bytes),
        reserved is Err ==> storage is None,
{
    match reserved {
        Ok(()) => Some(bytes),
        Err(_) => None,
    }
}

/// Empty storage with room for a frame, or `None` where the allocator has none to give.
///
/// Which of the two it is rests on the allocator, so nothing is said of that here.
/// [`reserved_storage`] says what each answer of the allocator leads to.
fn frame_storage(frame_len: usize) -> (storage: Option<Vec<u8>>)
    ensures
        storage matches Some(bytes) ==> bytes@ == Seq::<u8>::empty(),
{
    let mut bytes: Vec<u8> = Vec::new();
    let reserved: Result<(), TryReserveError> = reserve_exactly(&mut bytes, frame_len);
    reserved_storage(bytes, reserved)
}

/// Rows put end to end grow by one row at a time.
proof fn lemma_packed_rows_step(memory: Seq<u8>, offset: int, stride: int, row_bytes: int, y: int)
    requires
        0 <= y,
        0 < row_bytes <= stride,
        0 <= offset,
        offset + y * stride + row_bytes <= memory.len(),
    ensures
        packed_rows(memory, offset, stride, row_bytes, y + 1) == packed_rows(
            memory,
            offset,
            stride,
            row_bytes,
            y,
        ) + memory.subrange(offset + y * stride, offset + y * stride + row_bytes),
{
    let longer = packed_rows(memory, offset, stride, row_bytes, y + 1);
    let shorter = packed_rows(memory, offset, stride, row_bytes, y);
    let row = memory.subrange(offset + y * stride, offset + y * stride + row_bytes);
    assert((y + 1) * row_bytes == y * row_bytes + row_bytes) by (nonlinear_arith);
    assert(0 <= y * row_bytes) by (nonlinear_arith)
        requires
            0 <= y,
            0 < row_bytes,
    ;
    assert(0 <= y * stride) by (nonlinear_arith)
        requires
            0 <= y,
            0 < stride,
    ;
    assert forall|i: int| 0 <= i < longer.len() implies longer[i] == (shorter + row)[i] by {
        if i >= shorter.len() {
            vstd::arithmetic::div_mod::lemma_fundamental_div_mod_converse(
                i,
                row_bytes,
                y,
                i - y * row_bytes,
            );
        }
    }
    assert(longer =~= shorter + row);
}

/// Appends the rows of a frame to `frame`, leaving out what lies between them.
fn copy_rows(memory: &[u8], plan: &FramePlan, frame: &mut Vec<u8>)
    requires
        plan.fits(memory@.len()),
        old(frame)@ == Seq::<u8>::empty(),
    ensures
        final(frame)@ == packed_rows(
            memory@,
            plan.offset as int,
            plan.stride as int,
            plan.row_bytes as int,
            plan.rows as int,
        ),
{
    let mut y: usize = 0;
    let available: usize = memory.len();
    assert(frame@ =~= packed_rows(
        memory@,
        plan.offset as int,
        plan.stride as int,
        plan.row_bytes as int,
        0,
    ));
    while y < plan.rows
        invariant
            y <= plan.rows,
            available == memory@.len(),
            plan.fits(memory@.len()),
            frame@ == packed_rows(
                memory@,
                plan.offset as int,
                plan.stride as int,
                plan.row_bytes as int,
                y as int,
            ),
        decreases plan.rows - y,
    {
        assert(0 <= y * plan.stride <= (plan.rows - 1) * plan.stride) by (nonlinear_arith)
            requires
                0 <= y <= plan.rows - 1,
                0 <= plan.stride,
        ;
        proof {
            lemma_packed_rows_step(
                memory@,
                plan.offset as int,
                plan.stride as int,
                plan.row_bytes as int,
                y as int,
            );
        }
        let start: usize = plan.offset + y * plan.stride;
        let ghost before = frame@;
        let row: &[u8] = vstd::slice::slice_subrange(memory, start, start + plan.row_bytes);
        frame.extend_from_slice(row);
        assert(frame@ =~= before + row@);
        y += 1;
    }
}

/// Turns packed pixels into BGRA in place.
fn normalize(frame: &mut Vec<u8>, swap_red_blue: bool, opaque: bool)
    requires
        old(frame)@.len() % 4 == 0,
    ensures
        final(frame)@ == as_bgra(old(frame)@, swap_red_blue, opaque),
{
    let ghost pixels = frame@;
    let len: usize = frame.len();
    let mut at: usize = 0;
    while at < len
        invariant
            len == frame@.len(),
            len == pixels.len(),
            len % 4 == 0,
            at % 4 == 0,
            at <= len,
            forall|i: int| 0 <= i < at ==> frame@[i] == as_bgra(pixels, swap_red_blue, opaque)[i],
            forall|i: int| at <= i < len ==> frame@[i] == pixels[i],
        decreases len - at,
    {
        if swap_red_blue {
            let first: u8 = frame[at];
            let third: u8 = frame[at + 2];
            frame.set(at, third);
            frame.set(at + 2, first);
        }
        if opaque {
            frame.set(at + 3, 255);
        }
        at += 4;
    }
    assert(frame@ =~= as_bgra(pixels, swap_red_blue, opaque));
}

/// Copies the planned frame into the storage that the allocator gave, if it gave any.
pub fn fill_frame(memory: &[u8], plan: &FramePlan, storage: Option<Vec<u8>>) -> (frame: Result<
    Option<Vec<u8>>,
    &'static str,
>)
    requires
        plan.fits(memory@.len()),
        storage matches Some(bytes) ==> bytes@ == Seq::<u8>::empty(),
    ensures
        storage is Some ==> (frame matches Ok(Some(bytes)) && bytes@ == plan.frame(memory@)),
        storage is None ==> (frame matches Err(message) && message@
            == "Could not allocate video frame"@),
{
    let mut bytes: Vec<u8> = match storage {
        Some(bytes) => bytes,
        None => return Err("Could not allocate video frame"),
    };
    copy_rows(memory, plan, &mut bytes);
    if plan.swap_red_blue || plan.opaque {
        proof {
            let pixels_per_row: int = plan.row_bytes as int / 4;
            assert(plan.rows * (4 * pixels_per_row) == 4 * (plan.rows * pixels_per_row))
                by (nonlinear_arith);
        }
        normalize(&mut bytes, plan.swap_red_blue, plan.opaque);
    } else {
        assert(bytes@ =~= plan.frame(memory@));
    }
    Ok(Some(bytes))
}

/// Copies the frame that a chunk describes out of mapped memory, as tightly packed BGRA.
///
/// `Ok(None)` is a chunk that carries nothing to copy. A chunk that is sound but finds no
/// memory for its copy is refused with a message of its own.
pub fn copy_frame(memory: &[u8], chunk: &Chunk, format: FrameFormat) -> (frame: Result<
    Option<Vec<u8>>,
    &'static str,
>)
    ensures
        is_ignored(*chunk) ==> frame == Ok::<Option<Vec<u8>>, &'static str>(None),
        !is_ignored(*chunk) ==> match rejection(memory@.len(), *chunk, format) {
            Some(reason) => frame matches Err(message) && message@ == reason,
            None => match frame {
                Ok(Some(bytes)) => bytes@ == frame_of(memory@, *chunk, format),
                Ok(None) => false,
                Err(message) => message@ == "Could not allocate video frame"@,
            },
        },
        exists|allocated: bool|
            outcome_of(frame) == #[trigger] copy_outcome(memory@, *chunk, format, allocated),
{
    match plan_frame(memory.len(), chunk, format) {
        Ok(Some(plan)) => {
            let frame: Result<Option<Vec<u8>>, &'static str> = fill_frame(
                memory,
                &plan,
                frame_storage(plan.frame_len),
            );
            assert(outcome_of(frame) == copy_outcome(memory@, *chunk, format, frame is Ok));
            frame
        },
        Ok(None) => {
            assert(copy_outcome(memory@, *chunk, format, true) is Nothing);
            Ok(None)
        },
        Err(message) => {
            assert(copy_outcome(memory@, *chunk, format, true) == CopyOutcome::Dropped(message@));
            Err(message)
        },
    }
}

/// Law: a frame that is not rejected has exactly the bytes of a tightly packed frame.
pub proof fn law_frame_has_every_byte(memory: Seq<u8>, chunk: Chunk, format: FrameFormat)
    requires
        rejection(memory.len(), chunk, format) is None,
    ensures
        frame_of(memory, chunk, format).len() == format.byte_count(),
{
    assert(format.height * (format.width * 4) == format.width * format.height * 4)
        by (nonlinear_arith);
    assert(0 <= format.width * format.height * 4) by (nonlinear_arith)
        requires
            0 <= format.width,
            0 <= format.height,
    ;
}

/// Law: every byte that a frame is copied from lies inside the mapped memory, and not further
/// from the first row than the chunk has valid bytes.
pub proof fn law_reads_stay_inside_the_chunk(
    memory_len: nat,
    chunk: Chunk,
    format: FrameFormat,
    row: int,
    column: int,
)
    requires
        rejection(memory_len, chunk, format) is None,
        0 <= row < format.height,
        0 <= column < format.row_bytes(),
    ensures
        0 <= row * row_stride(chunk, format) + column < valid_bytes(memory_len, chunk),
        0 <= first_row(memory_len, chunk) + row * row_stride(chunk, format) + column < memory_len,
{
    let stride = row_stride(chunk, format);
    assert(0 <= row * stride <= (format.height - 1) * stride) by (nonlinear_arith)
        requires
            0 <= row <= format.height - 1,
            0 <= stride,
    ;
}

/// The byte of the mapped memory that a packed byte is taken from.
proof fn lemma_packed_byte(memory: Seq<u8>, chunk: Chunk, format: FrameFormat, i: int)
    requires
        rejection(memory.len(), chunk, format) is None,
        0 <= i < format.height * format.row_bytes(),
    ensures
        0 <= i / (format.row_bytes() as int) < format.height,
        0 <= i % (format.row_bytes() as int) < format.row_bytes(),
{
    let row_bytes: int = format.row_bytes() as int;
    assert(0 <= i / row_bytes < format.height) by (nonlinear_arith)
        requires
            0 <= i < format.height * row_bytes,
            row_bytes > 0,
    ;
}

/// Law: row padding has no bearing on a frame, and neither has the unused fourth byte of a pixel.
/// Two memories of one size that agree on the channels of every pixel give the same frame.
pub proof fn law_padding_is_dropped(
    memory: Seq<u8>,
    other: Seq<u8>,
    chunk: Chunk,
    format: FrameFormat,
)
    requires
        memory.len() == other.len(),
        rejection(memory.len(), chunk, format) is None,
        forall|row: int, column: int|
            0 <= row < format.height && 0 <= column < format.row_bytes() && !(is_opaque(
                format.pixel_format,
            ) && column % 4 == 3) ==> #[trigger] memory[first_row(memory.len(), chunk) + row * row_stride(
                chunk,
                format,
            ) + column] == other[first_row(memory.len(), chunk) + row * row_stride(chunk, format)
                + column],
    ensures
        frame_of(memory, chunk, format) == frame_of(other, chunk, format),
{
    let offset = first_row(memory.len(), chunk);
    let stride = row_stride(chunk, format);
    let row_bytes: int = format.row_bytes() as int;
    let rows: int = format.height as int;
    let one = packed_rows(memory, offset, stride, row_bytes, rows);
    let two = packed_rows(other, offset, stride, row_bytes, rows);
    let unused = is_opaque(format.pixel_format);
    assert(rows * row_bytes == 4 * (rows * format.width)) by (nonlinear_arith)
        requires
            row_bytes == format.width * 4,
    ;
    assert forall|i: int| 0 <= i < one.len() && !(unused && i % 4 == 3) implies one[i]
        == two[i] by {
        lemma_packed_byte(memory, chunk, format, i);
        vstd::arithmetic::div_mod::lemma_fundamental_div_mod(i, row_bytes);
        let row = i / row_bytes;
        assert(row_bytes * row == 4 * (format.width * row)) by (nonlinear_arith)
            requires
                row_bytes == format.width * 4,
        ;
        assert((i % row_bytes) % 4 == i % 4);
    }
    assert(frame_of(memory, chunk, format) =~= frame_of(other, chunk, format));
}

/// Law: where the fourth byte of a pixel is unused, it becomes fully opaque alpha.
pub proof fn law_unused_alpha_becomes_opaque(
    memory: Seq<u8>,
    chunk: Chunk,
    format: FrameFormat,
    i: int,
)
    requires
        is_opaque(format.pixel_format),
        0 <= i < frame_of(memory, chunk, format).len(),
        i % 4 == 3,
    ensures
        frame_of(memory, chunk, format)[i] == 255,
{
}

/// The channels of a BGRA pixel in the order of their bytes.
pub open spec fn bgra_channel(i: int) -> Channel {
    if i % 4 == 0 {
        Channel::Blue
    } else if i % 4 == 1 {
        Channel::Green
    } else if i % 4 == 2 {
        Channel::Red
    } else {
        Channel::Alpha
    }
}

/// Law: every supported format is normalized by channel. A byte of the frame is the byte that
/// carries the same channel in the source pixel, and alpha that the source lacks is 255.
pub proof fn law_channels_keep_their_meaning(
    memory: Seq<u8>,
    chunk: Chunk,
    format: FrameFormat,
    i: int,
    position: int,
)
    requires
        rejection(memory.len(), chunk, format) is None,
        0 <= i < frame_of(memory, chunk, format).len(),
        0 <= position < 4,
    ensures
        crate::spa::memory_order(format.pixel_format) matches Some(channels) && {
            let pixels = packed_rows(
                memory,
                first_row(memory.len(), chunk),
                row_stride(chunk, format),
                format.row_bytes() as int,
                format.height as int,
            );
            &&& channels.len() == 4
            &&& channels[position] == bgra_channel(i) ==> frame_of(memory, chunk, format)[i]
                == pixels[i - i % 4 + position]
            &&& bgra_channel(i) == Channel::Alpha && !channels.contains(Channel::Alpha)
                ==> frame_of(memory, chunk, format)[i] == 255
        },
{
    let channels = crate::spa::memory_order(format.pixel_format)->0;
    if bgra_channel(i) == Channel::Alpha && !is_opaque(format.pixel_format) {
        assert(channels[3] == Channel::Alpha);
    }
}

/// Law: the offset of a chunk counts modulo the size of the mapped memory. Two offsets that
/// leave the same remainder describe the same frame.
pub proof fn law_offset_wraps(memory: Seq<u8>, chunk: Chunk, other: Chunk, format: FrameFormat)
    requires
        memory.len() > 0,
        other.offset as int % memory.len() as int == chunk.offset as int % memory.len() as int,
        other.size == chunk.size,
        other.stride == chunk.stride,
        other.flags == chunk.flags,
    ensures
        is_ignored(chunk) == is_ignored(other),
        rejection(memory.len(), chunk, format) == rejection(memory.len(), other, format),
        frame_of(memory, chunk, format) == frame_of(memory, other, format),
{
}

/// Law: the size of a chunk is clamped to the size of the mapped memory.
pub proof fn law_size_is_clamped(memory: Seq<u8>, chunk: Chunk, other: Chunk, format: FrameFormat)
    requires
        memory.len() > 0,
        chunk.size >= memory.len(),
        other.size == memory.len(),
        other.offset == chunk.offset,
        other.stride == chunk.stride,
        other.flags == chunk.flags,
    ensures
        is_ignored(chunk) == is_ignored(other),
        rejection(memory.len(), chunk, format) == rejection(memory.len(), other, format),
        frame_of(memory, chunk, format) == frame_of(memory, other, format),
{
}

/// Law: a zero stride means rows without padding.
pub proof fn law_zero_stride_is_tight(
    memory: Seq<u8>,
    chunk: Chunk,
    other: Chunk,
    format: FrameFormat,
)
    requires
        chunk.stride == 0,
        other.stride == format.row_bytes(),
        other.offset == chunk.offset,
        other.size == chunk.size,
        other.flags == chunk.flags,
    ensures
        is_ignored(chunk) == is_ignored(other),
        rejection(memory.len(), chunk, format) == rejection(memory.len(), other, format),
        frame_of(memory, chunk, format) == frame_of(memory, other, format),
{
}

/// Law: no frame is copied from a chunk with a negative stride.
pub proof fn law_negative_stride_is_rejected(memory_len: nat, chunk: Chunk, format: FrameFormat)
    requires
        chunk.stride < 0,
    ensures
        rejection(memory_len, chunk, format) is Some,
{
}

/// Law: a tightly packed BGRA frame is its own copy. What a copy gave, copied again, comes back
/// unchanged.
pub proof fn law_bgra_frame_is_its_own_copy(memory: Seq<u8>, chunk: Chunk, format: FrameFormat)
    requires
        format.width > 0,
        format.height > 0,
        format.pixel_format == SPA_VIDEO_FORMAT_BGRA,
        memory.len() == format.byte_count(),
        memory.len() <= usize::MAX,
        chunk.stride == 0,
        chunk.size >= memory.len(),
        chunk.offset as int % memory.len() as int == 0,
    ensures
        rejection(memory.len(), chunk, format) is None,
        frame_of(memory, chunk, format) == memory,
{
    let row_bytes: int = format.row_bytes() as int;
    let rows: int = format.height as int;
    assert(format.height * (format.width * 4) == format.width * format.height * 4)
        by (nonlinear_arith);
    assert((rows - 1) * row_bytes + row_bytes == rows * row_bytes) by (nonlinear_arith);
    assert(row_bytes <= rows * row_bytes) by (nonlinear_arith)
        requires
            rows >= 1,
            row_bytes >= 0,
    ;
    let pixels = packed_rows(memory, 0, row_bytes, row_bytes, rows);
    assert forall|i: int| 0 <= i < pixels.len() implies pixels[i] == memory[i] by {
        vstd::arithmetic::div_mod::lemma_fundamental_div_mod(i, row_bytes);
        assert(row_bytes * (i / row_bytes) == (i / row_bytes) * row_bytes) by (nonlinear_arith);
    }
    assert(pixels =~= memory);
    assert(frame_of(memory, chunk, format) =~= memory);
}

/// Law: a chunk carries nothing exactly where it has no bytes, or where its lowest flag marks it
/// as corrupted or its second flag as empty. No other flag matters.
pub proof fn law_only_two_flags_hide_a_frame(chunk: Chunk)
    ensures
        is_ignored(chunk) <==> chunk.size == 0 || chunk.flags & 1i32 != 0 || chunk.flags & 2i32
            != 0,
{
    let flags: i32 = chunk.flags;
    assert((flags & (1i32 | 2i32) != 0) == (flags & 1i32 != 0 || flags & 2i32 != 0))
        by (bit_vector);
}

/// Law: a frame is accepted by its geometry alone. Where the dimensions are positive, the format
/// is RGBx, BGRx, RGBA or BGRA, and rows do not overlap, all that counts is that the bytes from
/// the first row to the end of the last one are valid and lie in the mapped memory, whatever the
/// padding between rows.
pub proof fn law_accepted_exactly_where_it_fits(memory_len: nat, chunk: Chunk, format: FrameFormat)
    ensures
        rejection(memory_len, chunk, format) is None <==> {
            let row: int = format.width * 4;
            let stride: int = if chunk.stride == 0 {
                row
            } else {
                chunk.stride as int
            };
            let extent: int = (format.height - 1) * stride + row;
            &&& memory_len > 0 && format.width > 0 && format.height > 0
            &&& format.pixel_format == 7 || format.pixel_format == 8 || format.pixel_format == 11
                || format.pixel_format == 12
            &&& row <= stride
            &&& extent <= usize::MAX
            &&& extent <= chunk.size
            &&& chunk.offset as int % memory_len as int + extent <= memory_len
        },
{
    let row: int = format.width * 4;
    let stride: int = if chunk.stride == 0 {
        row
    } else {
        chunk.stride as int
    };
    if memory_len > 0 && format.width > 0 && format.height > 0 && row <= stride {
        assert(0 <= (format.height - 1) * row <= (format.height - 1) * stride) by (nonlinear_arith)
            requires
                format.height >= 1,
                0 <= row <= stride,
        ;
        assert((format.height - 1) * row + row == format.width * format.height * 4)
            by (nonlinear_arith)
            requires
                row == format.width * 4,
        ;
    }
}

/// Law: every refusal names the first thing that is wrong, in this order: nothing to copy, the
/// format, the size of a row, the sign of the stride, its length, the size of the whole, and its
/// place in the mapped memory.
pub proof fn law_refusal_names_the_first_fault(memory_len: nat, chunk: Chunk, format: FrameFormat)
    ensures
        ({
            let refused = rejection(memory_len, chunk, format);
            let row: int = format.width * 4;
            let stride: int = if chunk.stride == 0 {
                row
            } else {
                chunk.stride as int
            };
            let extent: int = (format.height - 1) * stride + row;
            let empty = memory_len == 0 || format.width == 0 || format.height == 0;
            let packed = format.pixel_format == 7 || format.pixel_format == 8
                || format.pixel_format == 11 || format.pixel_format == 12;
            let sound = !empty && packed && row <= usize::MAX;
            &&& empty ==> refused == Some("Empty video buffer or dimensions"@)
            &&& !empty && !packed ==> refused == Some("Unsupported packed video format"@)
            &&& !empty && packed && row > usize::MAX ==> refused == Some(
                "Video row size overflow"@,
            )
            &&& sound && stride < 0 ==> refused == Some("Negative video stride is unsupported"@)
            &&& sound && 0 <= stride < row ==> refused == Some(
                "Video stride is shorter than a row"@,
            )
            &&& sound && stride >= row && extent > usize::MAX ==> refused == Some(
                "Video buffer size overflow"@,
            )
            &&& sound && stride >= row && extent <= usize::MAX && (extent > chunk.size
                || chunk.offset as int % memory_len as int + extent > memory_len) ==> refused
                == Some("Video chunk extends beyond the mapped buffer"@)
        }),
{
}

/// Law: every pixel of an accepted frame is the pixel of the mapped memory at its row and column,
/// as blue, green, red and alpha. Rows follow each other without a gap. Green is second in all
/// formats, blue and red change places for RGBA and RGBx, and BGRx and RGBx are fully opaque.
pub proof fn law_every_pixel_is_copied(
    memory: Seq<u8>,
    chunk: Chunk,
    format: FrameFormat,
    row: int,
    column: int,
)
    requires
        rejection(memory.len(), chunk, format) is None,
        0 <= row < format.height,
        0 <= column < format.width,
    ensures
        ({
            let stride: int = if chunk.stride == 0 {
                format.width * 4
            } else {
                chunk.stride as int
            };
            let from: int = chunk.offset as int % memory.len() as int + row * stride + column * 4;
            let to: int = (row * format.width + column) * 4;
            let frame = frame_of(memory, chunk, format);
            let red_first = format.pixel_format == 7 || format.pixel_format == 11;
            let unused_alpha = format.pixel_format == 7 || format.pixel_format == 8;
            &&& frame.len() == format.width * format.height * 4
            &&& 0 <= from && from + 4 <= memory.len()
            &&& 0 <= to && to + 4 <= frame.len()
            &&& frame[to] == memory[if red_first {
                from + 2
            } else {
                from
            }]
            &&& frame[to + 1] == memory[from + 1]
            &&& frame[to + 2] == memory[if red_first {
                from
            } else {
                from + 2
            }]
            &&& frame[to + 3] == if unused_alpha {
                255u8
            } else {
                memory[from + 3]
            }
        }),
{
    let width: int = format.width as int;
    let row_bytes: int = width * 4;
    let to: int = (row * width + column) * 4;
    let pixels = packed_rows(
        memory,
        first_row(memory.len(), chunk),
        row_stride(chunk, format),
        row_bytes,
        format.height as int,
    );
    law_frame_has_every_byte(memory, chunk, format);
    law_reads_stay_inside_the_chunk(memory.len(), chunk, format, row, column * 4);
    law_reads_stay_inside_the_chunk(memory.len(), chunk, format, row, column * 4 + 3);
    assert((row * width + column) * 4 == row * row_bytes + column * 4) by (nonlinear_arith)
        requires
            row_bytes == width * 4,
    ;
    assert(0 <= row * row_bytes && (row + 1) * row_bytes <= format.height * row_bytes)
        by (nonlinear_arith)
        requires
            0 <= row,
            row + 1 <= format.height,
            0 <= row_bytes,
    ;
    assert((row + 1) * row_bytes == row * row_bytes + row_bytes) by (nonlinear_arith);
    assert(format.height * (format.width * 4) == format.width * format.height * 4)
        by (nonlinear_arith);
    assert forall|k: int| 0 <= k < 4 implies pixels[#[trigger] (to + k)] == memory[first_row(
        memory.len(),
        chunk,
    ) + row * row_stride(chunk, format) + column * 4 + k] by {
        vstd::arithmetic::div_mod::lemma_fundamental_div_mod_converse(
            to + k,
            row_bytes,
            row,
            column * 4 + k,
        );
    }
    assert(pixels[to + 0] == memory[first_row(memory.len(), chunk) + row * row_stride(
        chunk,
        format,
    ) + column * 4]);
    assert(pixels[to + 1] == memory[first_row(memory.len(), chunk) + row * row_stride(
        chunk,
        format,
    ) + column * 4 + 1]);
    assert(pixels[to + 2] == memory[first_row(memory.len(), chunk) + row * row_stride(
        chunk,
        format,
    ) + column * 4 + 2]);
    assert(pixels[to + 3] == memory[first_row(memory.len(), chunk) + row * row_stride(
        chunk,
        format,
    ) + column * 4 + 3]);
}

/// Law: a layout is planned for the frame that the chunk describes. It starts at the offset
/// modulo the mapped size, takes every row of the negotiated size, and gives the same bytes.
pub proof fn law_plan_gives_the_described_frame(
    plan: FramePlan,
    memory: Seq<u8>,
    chunk: Chunk,
    format: FrameFormat,
)
    requires
        memory.len() > 0,
        plan.lays_out(memory.len(), chunk, format),
    ensures
        plan.frame(memory) == frame_of(memory, chunk, format),
        plan.offset == chunk.offset as int % memory.len() as int,
        plan.stride == if chunk.stride == 0 {
            format.width * 4
        } else {
            chunk.stride as int
        },
        plan.row_bytes == format.width * 4,
        plan.rows == format.height,
        plan.frame_len == format.width * format.height * 4,
        plan.swap_red_blue <==> format.pixel_format == 7 || format.pixel_format == 11,
        plan.opaque <==> format.pixel_format == 7 || format.pixel_format == 8,
{
    assert(0 <= format.width * format.height * 4) by (nonlinear_arith)
        requires
            0 <= format.width,
            0 <= format.height,
    ;
}

/// Law: what becomes of a chunk is fixed up to the memory for its copy. Nothing comes of one
/// that carries nothing; one that is refused is dropped for its reason; any other gives its frame
/// where there is memory, and is dropped where there is none.
pub proof fn law_chunk_is_copied_refused_or_ignored(
    memory: Seq<u8>,
    chunk: Chunk,
    format: FrameFormat,
    allocated: bool,
)
    ensures
        ({
            let outcome = copy_outcome(memory, chunk, format, allocated);
            let refused = rejection(memory.len(), chunk, format);
            &&& outcome is Nothing <==> is_ignored(chunk)
            &&& !is_ignored(chunk) && refused is Some ==> outcome == CopyOutcome::Dropped(
                refused->0,
            )
            &&& !is_ignored(chunk) && refused is None && allocated ==> outcome
                == CopyOutcome::Frame(frame_of(memory, chunk, format))
            &&& !is_ignored(chunk) && refused is None && !allocated ==> outcome
                == CopyOutcome::Dropped("Could not allocate video frame"@)
        }),
{
}

/// Law: the result of a copy tells its outcomes apart.
pub proof fn law_copy_result_tells_its_outcome(result: Result<Option<Vec<u8>>, &'static str>)
    ensures
        result matches Ok(Some(bytes)) ==> outcome_of(result) == CopyOutcome::Frame(bytes@),
        result matches Ok(None) ==> outcome_of(result) is Nothing,
        result matches Err(message) ==> outcome_of(result) == CopyOutcome::Dropped(message@),
{
}

} // verus!
