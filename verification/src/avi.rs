use vstd::prelude::*;

use crate::raster::{Image, Rgb};

verus! {

/// Four-character codes, as the little-endian `u32` whose bytes spell them.
pub const FOURCC_RIFF: u32 = 0x4646_4952;
pub const FOURCC_AVI: u32 = 0x2049_5641;
pub const FOURCC_LIST: u32 = 0x5453_494c;
pub const FOURCC_HDRL: u32 = 0x6c72_6468;
pub const FOURCC_AVIH: u32 = 0x6869_7661;
pub const FOURCC_STRL: u32 = 0x6c72_7473;
pub const FOURCC_STRH: u32 = 0x6872_7473;
pub const FOURCC_VIDS: u32 = 0x7364_6976;
pub const FOURCC_DIB: u32 = 0x2042_4944;
pub const FOURCC_STRF: u32 = 0x6672_7473;
pub const FOURCC_MOVI: u32 = 0x6976_6f6d;
pub const FOURCC_00DB: u32 = 0x6264_3030;
pub const FOURCC_IDX1: u32 = 0x3178_6469;

/// Little-endian bytes of a 16-bit value.
pub open spec fn le16(v: u16) -> Seq<u8> {
    seq![(v % 256) as u8, (v / 256) as u8]
}

/// Little-endian bytes of a 32-bit value.
pub open spec fn le32(v: u32) -> Seq<u8> {
    seq![(v % 256) as u8, ((v / 256) % 256) as u8, ((v / 65536) % 256) as u8, (v / 16777216) as u8]
}

/// Little-endian two's-complement bytes of a signed 32-bit value.
pub open spec fn le32_signed(v: i32) -> Seq<u8> {
    le32(v as u32)
}

fn push_u16(out: &mut Vec<u8>, v: u16)
    ensures
        final(out)@ == old(out)@ + le16(v),
{
    out.push((v % 256) as u8);
    out.push((v / 256) as u8);
}

fn push_u32(out: &mut Vec<u8>, v: u32)
    ensures
        final(out)@ == old(out)@ + le32(v),
{
    out.push((v % 256) as u8);
    out.push(((v / 256) % 256) as u8);
    out.push(((v / 65536) % 256) as u8);
    out.push((v / 16777216) as u8);
}

fn push_i32(out: &mut Vec<u8>, v: i32)
    ensures
        final(out)@ == old(out)@ + le32_signed(v),
{
    push_u32(out, v as u32);
}

/// Overwrite the four bytes at `pos` with the little-endian bytes of `v`.
fn patch_u32(out: &mut Vec<u8>, pos: usize, v: u32)
    requires
        pos + 4 <= old(out).len(),
    ensures
        final(out)@ == old(out)@.take(pos as int) + le32(v) + old(out)@.skip(pos + 4),
{
    out.set(pos, (v % 256) as u8);
    out.set(pos + 1, ((v / 256) % 256) as u8);
    out.set(pos + 2, ((v / 65536) % 256) as u8);
    out.set(pos + 3, (v / 16777216) as u8);
}

/// The main AVI header chunk.
#[verifier::opaque]
pub open spec fn avih_chunk(width: u32, height: u32, fps: u32, total_frames: u32, frame_size: u32) -> Seq<u8> {
    le32(FOURCC_AVIH) + le32(56) + le32(1_000_000u32 / fps) + le32(
        (frame_size * fps) as u32,
    ) + le32(0) + le32(0x10) + le32(total_frames) + le32(0) + le32(1) + le32(frame_size) + le32(
        width,
    ) + le32(height) + le32(0) + le32(0) + le32(0) + le32(0)
}

/// The video stream header chunk.
#[verifier::opaque]
pub open spec fn strh_chunk(width: u32, height: u32, fps: u32, total_frames: u32, frame_size: u32) -> Seq<u8> {
    le32(FOURCC_STRH) + le32(56) + le32(FOURCC_VIDS) + le32(FOURCC_DIB) + le32(0) + le16(0) + le16(0) + le32(0) + le32(1) + le32(fps) + le32(0) + le32(total_frames)
        + le32(frame_size) + le32(u32::MAX) + le32(0) + le16(0) + le16(0) + le16(width as u16)
        + le16(height as u16)
}

/// The stream format chunk: a bottom-up 24-bit uncompressed bitmap header.
#[verifier::opaque]
pub open spec fn strf_chunk(width: u32, height: u32, frame_size: u32) -> Seq<u8> {
    le32(FOURCC_STRF) + le32(40) + le32(40) + le32_signed(width as i32) + le32_signed(
        height as i32,
    ) + le16(1) + le16(24) + le32(0) + le32(frame_size) + le32_signed(0) + le32_signed(0) + le32(0)
        + le32(0)
}

/// The `hdrl` list: main header and the single video stream's headers.
#[verifier::opaque]
pub open spec fn header_list(width: u32, height: u32, fps: u32, total_frames: u32, frame_size: u32) -> Seq<u8> {
    le32(FOURCC_LIST) + le32(192) + le32(FOURCC_HDRL) + avih_chunk(
        width,
        height,
        fps,
        total_frames,
        frame_size,
    ) + le32(FOURCC_LIST) + le32(116) + le32(FOURCC_STRL) + strh_chunk(
        width,
        height,
        fps,
        total_frames,
        frame_size,
    ) + strf_chunk(width, height, frame_size)
}

fn write_avih(out: &mut Vec<u8>, width: u32, height: u32, fps: u32, total_frames: u32, frame_size: u32)
    requires
        fps > 0,
        frame_size * fps <= u32::MAX,
    ensures
        final(out)@ == old(out)@ + avih_chunk(width, height, fps, total_frames, frame_size),
{
    push_u32(out, FOURCC_AVIH);
    push_u32(out, 56);
    push_u32(out, 1_000_000 / fps);
    push_u32(out, frame_size * fps);
    push_u32(out, 0);
    push_u32(out, 0x10);
    push_u32(out, total_frames);
    push_u32(out, 0);
    push_u32(out, 1);
    push_u32(out, frame_size);
    push_u32(out, width);
    push_u32(out, height);
    push_u32(out, 0);
    push_u32(out, 0);
    push_u32(out, 0);
    push_u32(out, 0);
    reveal(avih_chunk);
}

fn write_strh(out: &mut Vec<u8>, width: u32, height: u32, fps: u32, total_frames: u32, frame_size: u32)
    ensures
        final(out)@ == old(out)@ + strh_chunk(width, height, fps, total_frames, frame_size),
{
    push_u32(out, FOURCC_STRH);
    push_u32(out, 56);
    push_u32(out, FOURCC_VIDS);
    push_u32(out, FOURCC_DIB);
    push_u32(out, 0);
    push_u16(out, 0);
    push_u16(out, 0);
    push_u32(out, 0);
    push_u32(out, 1);
    push_u32(out, fps);
    push_u32(out, 0);
    push_u32(out, total_frames);
    push_u32(out, frame_size);
    push_u32(out, u32::MAX);
    push_u32(out, 0);
    push_u16(out, 0);
    push_u16(out, 0);
    push_u16(out, width as u16);
    push_u16(out, height as u16);
    reveal(strh_chunk);
}

fn write_strf(out: &mut Vec<u8>, width: u32, height: u32, frame_size: u32)
    ensures
        final(out)@ == old(out)@ + strf_chunk(width, height, frame_size),
{
    push_u32(out, FOURCC_STRF);
    push_u32(out, 40);
    push_u32(out, 40);
    push_i32(out, width as i32);
    push_i32(out, height as i32);
    push_u16(out, 1);
    push_u16(out, 24);
    push_u32(out, 0);
    push_u32(out, frame_size);
    push_i32(out, 0);
    push_i32(out, 0);
    push_u32(out, 0);
    push_u32(out, 0);
    reveal(strf_chunk);
}

/// Append the `hdrl` list describing one uncompressed video stream.
pub fn write_header_list(
    out: &mut Vec<u8>,
    width: u32,
    height: u32,
    fps: u32,
    total_frames: u32,
    frame_size: u32,
)
    requires
        fps > 0,
        frame_size * fps <= u32::MAX,
    ensures
        final(out)@ == old(out)@ + header_list(width, height, fps, total_frames, frame_size),
{
    let hdrl_size: u32 = 4 + 8 + 56 + 8 + 4 + 8 + 56 + 8 + 40;
    push_u32(out, FOURCC_LIST);
    push_u32(out, hdrl_size);
    push_u32(out, FOURCC_HDRL);
    write_avih(out, width, height, fps, total_frames, frame_size);
    push_u32(out, FOURCC_LIST);
    push_u32(out, 4 + 8 + 56 + 8 + 40);
    push_u32(out, FOURCC_STRL);
    write_strh(out, width, height, fps, total_frames, frame_size);
    write_strf(out, width, height, frame_size);
    reveal(header_list);
}

/// Byte `c` (0 = blue, 1 = green, 2 = red) of a pixel in BGR order.
pub open spec fn bgr_byte(p: Rgb, c: int) -> u8 {
    if c == 0 {
        p.2
    } else if c == 1 {
        p.1
    } else {
        p.0
    }
}

/// Row `y` of a frame as stored in the bitmap: BGR triples, zero-padded to `stride` bytes.
pub open spec fn dib_row(image: Image, y: int, stride: int) -> Seq<u8> {
    Seq::new(
        stride as nat,
        |i: int|
            if i < 3 * image.spec_width() {
                bgr_byte(image.pixel(i / 3, y), i % 3)
            } else {
                0u8
            },
    )
}

/// The first `n` stored rows of a frame; rows are stored bottom-up.
pub open spec fn dib_rows(image: Image, stride: int, n: int) -> Seq<u8>
    decreases n,
{
    if n <= 0 {
        Seq::empty()
    } else {
        dib_rows(image, stride, n - 1) + dib_row(image, image.spec_height() - n, stride)
    }
}

/// A whole frame as a bottom-up 24-bit bitmap with rows of `stride` bytes.
pub open spec fn dib_frame(image: Image, stride: int) -> Seq<u8> {
    dib_rows(image, stride, image.spec_height() as int)
}

/// Append `image` as a bottom-up 24-bit bitmap with rows padded to `row_stride` bytes.
pub fn write_dib_frame(out: &mut Vec<u8>, image: &Image, row_stride: u32)
    requires
        image.wf(),
        image.spec_width() * 3 <= row_stride,
    ensures
        final(out)@ == old(out)@ + dib_frame(*image, row_stride as int),
{
    proof {
        image.lemma_wf_size();
    }
    let width = image.width();
    let height = image.height();
    let used = width * 3;
    let mut n: u32 = 0;
    while n < height
        invariant
            n <= height,
            width == image.spec_width(),
            height == image.spec_height(),
            used == width * 3,
            used <= row_stride,
            image.wf(),
            out@ == old(out)@ + dib_rows(*image, row_stride as int, n as int),
        decreases height - n,
    {
        let y = height - 1 - n;
        let ghost base = out@;
        let ghost row = dib_row(*image, y as int, row_stride as int);
        let mut x: u32 = 0;
        while x < width
            invariant
                x <= width,
                y < height,
                width == image.spec_width(),
                height == image.spec_height(),
                used == width * 3,
                used <= row_stride,
                image.wf(),
                row == dib_row(*image, y as int, row_stride as int),
                out@ == base + row.take(3 * x),
            decreases width - x,
        {
            proof {
                image.lemma_wf_size();
            }
            let Rgb(r, g, b) = image.get(x, y);
            out.push(b);
            out.push(g);
            out.push(r);
            x = x + 1;
        }
        let mut i: u32 = used;
        while i < row_stride
            invariant
                used <= i <= row_stride,
                used == width * 3,
                width == image.spec_width(),
                row == dib_row(*image, y as int, row_stride as int),
                out@ == base + row.take(i as int),
            decreases row_stride - i,
        {
            out.push(0);
            i = i + 1;
        }
        n = n + 1;
    }
}

/// One `00db` chunk of the `movi` list: the frame bitmap, padded to an even size.
pub open spec fn movi_chunk(image: Image, stride: int, frame_size: u32) -> Seq<u8> {
    le32(FOURCC_00DB) + le32(frame_size) + dib_frame(image, stride) + if frame_size % 2 == 1 {
        seq![0u8]
    } else {
        Seq::empty()
    }
}

/// The payload of the `movi` list: one chunk per frame, in order.
pub open spec fn movi_data(frames: Seq<Image>, stride: int, frame_size: u32) -> Seq<u8>
    decreases frames.len(),
{
    if frames.len() == 0 {
        Seq::empty()
    } else {
        movi_data(frames.drop_last(), stride, frame_size) + movi_chunk(
            frames.last(),
            stride,
            frame_size,
        )
    }
}

/// One `idx1` entry: a key-frame flag, the chunk's offset from the start of the
/// `movi` payload, and the frame size.
pub open spec fn index_entry(offset: u32, frame_size: u32) -> Seq<u8> {
    le32(FOURCC_00DB) + le32(0x10) + le32(offset) + le32(frame_size)
}

/// The payload of the `idx1` chunk: one entry per frame, in order.
pub open spec fn index_entries(frames: Seq<Image>, stride: int, frame_size: u32) -> Seq<u8>
    decreases frames.len(),
{
    if frames.len() == 0 {
        Seq::empty()
    } else {
        index_entries(frames.drop_last(), stride, frame_size) + index_entry(
            movi_data(frames.drop_last(), stride, frame_size).len() as u32,
            frame_size,
        )
    }
}

/// Bytes per stored row for a frame `width` pixels wide: three per pixel,
/// rounded up to a multiple of four.
pub open spec fn row_stride(width: u32) -> int {
    ((width * 3 + 3) / 4) * 4
}

/// The inputs on which encoding runs without overflow: the first frame fixes
/// the row stride and frame size, every frame fits that stride, and the sizes
/// written to the headers fit in 32 bits.
pub open spec fn encodable(frames: Seq<Image>, fps: u32) -> bool {
    frames.len() > 0 ==> {
        let w = frames[0].spec_width();
        let h = frames[0].spec_height();
        &&& w * 3 + 3 <= u32::MAX
        &&& row_stride(w) * h <= u32::MAX
        &&& fps > 0
        &&& row_stride(w) * h * fps <= u32::MAX
        &&& frames.len() * 16 <= usize::MAX
        &&& forall|i: int|
            0 <= i < frames.len() ==> #[trigger] frames[i].wf() && frames[i].spec_width() * 3
                <= row_stride(w)
    }
}

/// The `RIFF AVI ` file body after the size field.
#[verifier::opaque]
pub open spec fn avi_body(frames: Seq<Image>, fps: u32) -> Seq<u8> {
    let w = frames[0].spec_width();
    let h = frames[0].spec_height();
    let stride = row_stride(w);
    let frame_size = (stride * h) as u32;
    let movi = movi_data(frames, stride, frame_size);
    le32(FOURCC_AVI) + header_list(w, h, fps, frames.len() as u32, frame_size) + le32(FOURCC_LIST)
        + le32((movi.len() + 4) as u32) + le32(FOURCC_MOVI) + movi + le32(FOURCC_IDX1) + le32(
        (frames.len() * 16) as u32,
    ) + index_entries(frames, stride, frame_size)
}

/// The complete uncompressed AVI file for `frames` played at `fps` frames per second.
#[verifier::opaque]
pub open spec fn avi_file(frames: Seq<Image>, fps: u32) -> Seq<u8> {
    le32(FOURCC_RIFF) + le32(avi_body(frames, fps).len() as u32) + avi_body(frames, fps)
}

/// Why a video could not be encoded.
#[derive(Clone, Copy, Debug, PartialEq, Eq, Structural)]
pub enum AviError {
    /// There is no frame to take the video's size from.
    NoFrames,
}

proof fn lemma_take_push<T>(s: Seq<T>, k: int)
    requires
        0 <= k < s.len(),
    ensures
        s.take(k + 1).drop_last() == s.take(k),
        s.take(k + 1).last() == s[k],
        s.take(k + 1).len() == k + 1,
{
}

/// Overwriting the four bytes that follow `x` replaces that field.
proof fn lemma_patch(x: Seq<u8>, a: u32, y: Seq<u8>, v: u32)
    ensures
        (x + le32(a) + y).take(x.len() as int) + le32(v) + (x + le32(a) + y).skip(x.len() as int + 4) == x
            + le32(v) + y,
{
    let s = x + le32(a) + y;
}

/// Append one `00db` chunk per frame; return each chunk's offset from the start
/// of the appended data, paired with the frame size.
fn write_movi_chunks(out: &mut Vec<u8>, frames: &Vec<Image>, stride: u32, frame_size: u32) -> (index: Vec<(u32, u32)>)
    requires
        forall|i: int|
            0 <= i < frames@.len() ==> #[trigger] frames@[i].wf() && frames@[i].spec_width() * 3
                <= stride,
    ensures
        final(out)@ == old(out)@ + movi_data(frames@, stride as int, frame_size),
        index@.len() == frames@.len(),
        forall|j: int|
            0 <= j < index@.len() ==> #[trigger] index@[j] == (
                movi_data(frames@.take(j), stride as int, frame_size).len() as u32,
                frame_size,
            ),
{
    let start = out.len();
    let ghost head = out@;
    let mut index: Vec<(u32, u32)> = Vec::new();
    let mut k: usize = 0;
    while k < frames.len()
        invariant
            k <= frames@.len(),
            forall|i: int|
                0 <= i < frames@.len() ==> #[trigger] frames@[i].wf() && frames@[i].spec_width()
                    * 3 <= stride,
            head.len() == start,
            out@ == head + movi_data(frames@.take(k as int), stride as int, frame_size),
            index@.len() == k,
            forall|j: int|
                0 <= j < k ==> #[trigger] index@[j] == (
                    movi_data(frames@.take(j), stride as int, frame_size).len() as u32,
                    frame_size,
                ),
        decreases frames.len() - k,
    {
        let chunk_start = out.len();
        push_u32(out, FOURCC_00DB);
        push_u32(out, frame_size);
        assert(frames@[k as int].wf());
        write_dib_frame(out, &frames[k], stride);
        if frame_size % 2 == 1 {
            out.push(0);
        }
        proof {
            lemma_take_push(frames@, k as int);
        }
        index.push(((chunk_start - start) as u32, frame_size));
        k = k + 1;
    }
    assert(frames@.take(frames@.len() as int) =~= frames@);
    index
}

/// Append the `idx1` entries for chunks at the given offsets.
fn write_index_entries(
    out: &mut Vec<u8>,
    index: &Vec<(u32, u32)>,
    Ghost(frames): Ghost<Seq<Image>>,
    Ghost(stride): Ghost<int>,
    frame_size: u32,
)
    requires
        index@.len() == frames.len(),
        forall|j: int|
            0 <= j < index@.len() ==> #[trigger] index@[j] == (
                movi_data(frames.take(j), stride, frame_size).len() as u32,
                frame_size,
            ),
    ensures
        final(out)@ == old(out)@ + index_entries(frames, stride, frame_size),
{
    let ghost head = out@;
    let mut j: usize = 0;
    while j < index.len()
        invariant
            j <= index@.len(),
            index@.len() == frames.len(),
            forall|i: int|
                0 <= i < index@.len() ==> #[trigger] index@[i] == (
                    movi_data(frames.take(i), stride, frame_size).len() as u32,
                    frame_size,
                ),
            out@ == head + index_entries(frames.take(j as int), stride, frame_size),
        decreases index.len() - j,
    {
        let (offset, size) = index[j];
        push_u32(out, FOURCC_00DB);
        push_u32(out, 0x10);
        push_u32(out, offset);
        push_u32(out, size);
        proof {
            lemma_take_push(frames, j as int);
        }
        j = j + 1;
    }
    assert(frames.take(frames.len() as int) =~= frames);
}

/// Append the `movi` list, its size field filled in, and then the `idx1` index
/// of its chunks.
fn write_movi_and_index(out: &mut Vec<u8>, frames: &Vec<Image>, stride: u32, frame_size: u32)
    requires
        forall|i: int|
            0 <= i < frames@.len() ==> #[trigger] frames@[i].wf() && frames@[i].spec_width() * 3
                <= stride,
        frames@.len() * 16 <= usize::MAX,
    ensures
        ({
            let movi = movi_data(frames@, stride as int, frame_size);
            final(out)@ == old(out)@ + le32(FOURCC_LIST) + le32((movi.len() + 4) as u32) + le32(
                FOURCC_MOVI,
            ) + movi + le32(FOURCC_IDX1) + le32((frames@.len() * 16) as u32) + index_entries(
                frames@,
                stride as int,
                frame_size,
            )
        }),
{
    let ghost movi = movi_data(frames@, stride as int, frame_size);
    let ghost idx = index_entries(frames@, stride as int, frame_size);
    push_u32(out, FOURCC_LIST);
    let movi_size_pos = out.len();
    let ghost pre_movi = out@;
    push_u32(out, 0);
    push_u32(out, FOURCC_MOVI);
    let movi_data_start = out.len();
    let index = write_movi_chunks(out, frames, stride, frame_size);
    let after_movi = out.len();
    push_u32(out, FOURCC_IDX1);
    push_u32(out, (index.len() * 16) as u32);
    write_index_entries(out, &index, Ghost(frames@), Ghost(stride as int), frame_size);
    let ghost tail = le32(FOURCC_MOVI) + movi + le32(FOURCC_IDX1) + le32(
        (frames@.len() * 16) as u32,
    ) + idx;
    assert(out@ =~= pre_movi + le32(0) + tail);
    assert(after_movi - movi_data_start == movi.len());
    let movi_size = ((after_movi - movi_data_start) as u64 + 4) as u32;
    patch_u32(out, movi_size_pos, movi_size);
    proof {
        lemma_patch(pre_movi, 0, tail, movi_size);
    }
}

/// The file is the `RIFF` code, the body's length, then the body: the `AVI `
/// code, the header list, the `movi` list and the `idx1` index.
proof fn lemma_avi_file_shape(frames: Seq<Image>, fps: u32)
    requires
        frames.len() > 0,
    ensures
        ({
            let w = frames[0].spec_width();
            let h = frames[0].spec_height();
            let stride = row_stride(w);
            let frame_size = (stride * h) as u32;
            let movi = movi_data(frames, stride, frame_size);
            &&& avi_body(frames, fps) == le32(FOURCC_AVI) + header_list(
                w,
                h,
                fps,
                frames.len() as u32,
                frame_size,
            ) + le32(FOURCC_LIST) + le32((movi.len() + 4) as u32) + le32(FOURCC_MOVI) + movi
                + le32(FOURCC_IDX1) + le32((frames.len() * 16) as u32) + index_entries(
                frames,
                stride,
                frame_size,
            )
            &&& avi_file(frames, fps) == le32(FOURCC_RIFF) + le32(avi_body(frames, fps).len() as u32)
                + avi_body(frames, fps)
        }),
{
    reveal(avi_body);
    reveal(avi_file);
}

/// Encode `frames` as an uncompressed AVI file: a `hdrl` list describing one
/// bottom-up 24-bit video stream, a `movi` list with one `00db` chunk per frame
/// and an `idx1` index of those chunks. The first frame sets the frame size.
pub fn encode_avi(frames: &Vec<Image>, fps: u32) -> (res: Result<Vec<u8>, AviError>)
    requires
        encodable(frames@, fps),
    ensures
        res is Err <==> frames@.len() == 0,
        res matches Ok(bytes) ==> bytes@ == avi_file(frames@, fps),
{
    if frames.len() == 0 {
        return Err(AviError::NoFrames);
    }
    let first = &frames[0];
    let width = first.width();
    let height = first.height();
    let stride_bytes = (width * 3 + 3) / 4 * 4;
    let frame_size = stride_bytes * height;
    let mut out: Vec<u8> = Vec::new();
    push_u32(&mut out, FOURCC_RIFF);
    let riff_size_pos = out.len();
    push_u32(&mut out, 0);
    push_u32(&mut out, FOURCC_AVI);
    write_header_list(&mut out, width, height, fps, frames.len() as u32, frame_size);
    write_movi_and_index(&mut out, frames, stride_bytes, frame_size);
    let ghost rest = out@.skip(8);
    proof {
        lemma_avi_file_shape(frames@, fps);
        assert(rest =~= avi_body(frames@, fps));
        assert(out@ =~= le32(FOURCC_RIFF) + le32(0) + rest);
    }
    let file_len = out.len();
    let riff_size = (file_len as u64 - 8) as u32;
    patch_u32(&mut out, riff_size_pos, riff_size);
    proof {
        lemma_patch(le32(FOURCC_RIFF), 0, rest, riff_size);
    }
    Ok(out)
}

/// The `hdrl` list is always 200 bytes long, and each of its size fields holds
/// the length of what follows that field in its list or chunk: 192 for `hdrl`,
/// 56 for `avih`, 116 for `strl`, 56 for `strh` and 40 for `strf`.
pub proof fn lemma_header_list_len(width: u32, height: u32, fps: u32, total_frames: u32, frame_size: u32)
    ensures
        ({
            let b = header_list(width, height, fps, total_frames, frame_size);
            &&& b.len() == 200
            &&& b.subrange(0, 4) == le32(FOURCC_LIST)
            &&& b.subrange(4, 8) == le32((b.len() - 8) as u32)
            &&& b.subrange(8, 12) == le32(FOURCC_HDRL)
            &&& b.subrange(12, 16) == le32(FOURCC_AVIH)
            &&& b.subrange(16, 20) == le32((76 - 20) as u32)
            &&& b.subrange(76, 80) == le32(FOURCC_LIST)
            &&& b.subrange(80, 84) == le32((b.len() - 84) as u32)
            &&& b.subrange(84, 88) == le32(FOURCC_STRL)
            &&& b.subrange(88, 92) == le32(FOURCC_STRH)
            &&& b.subrange(92, 96) == le32((152 - 96) as u32)
            &&& b.subrange(152, 156) == le32(FOURCC_STRF)
            &&& b.subrange(156, 160) == le32((b.len() - 160) as u32)
        }),
{
    let avih = avih_chunk(width, height, fps, total_frames, frame_size);
    let strh = strh_chunk(width, height, fps, total_frames, frame_size);
    let strf = strf_chunk(width, height, frame_size);
    lemma_avih_head(width, height, fps, total_frames, frame_size);
    lemma_strh_head(width, height, fps, total_frames, frame_size);
    lemma_strf_head(width, height, frame_size);
    let p1 = le32(FOURCC_LIST) + le32(192) + le32(FOURCC_HDRL);
    let p2 = le32(FOURCC_LIST) + le32(116) + le32(FOURCC_STRL);
    let b = header_list(width, height, fps, total_frames, frame_size);
    assert(b == p1 + avih + p2 + strh + strf) by {
        reveal(header_list);
    }
    assert(b.subrange(0, 4) =~= p1.subrange(0, 4));
    assert(b.subrange(4, 8) =~= p1.subrange(4, 8));
    assert(b.subrange(8, 12) =~= p1.subrange(8, 12));
    assert(b.subrange(12, 16) =~= avih.subrange(0, 4));
    assert(b.subrange(16, 20) =~= avih.subrange(4, 8));
    assert(b.subrange(76, 80) =~= p2.subrange(0, 4));
    assert(b.subrange(80, 84) =~= p2.subrange(4, 8));
    assert(b.subrange(84, 88) =~= p2.subrange(8, 12));
    assert(b.subrange(88, 92) =~= strh.subrange(0, 4));
    assert(b.subrange(92, 96) =~= strh.subrange(4, 8));
    assert(b.subrange(152, 156) =~= strf.subrange(0, 4));
    assert(b.subrange(156, 160) =~= strf.subrange(4, 8));
    assert(p1.subrange(0, 4) =~= le32(FOURCC_LIST));
    assert(p1.subrange(4, 8) =~= le32(192));
    assert(p1.subrange(8, 12) =~= le32(FOURCC_HDRL));
    assert(p2.subrange(0, 4) =~= le32(FOURCC_LIST));
    assert(p2.subrange(4, 8) =~= le32(116));
    assert(p2.subrange(8, 12) =~= le32(FOURCC_STRL));
}

/// The `avih` chunk: 64 bytes, led by its code and a size field of 56.
proof fn lemma_avih_head(width: u32, height: u32, fps: u32, total_frames: u32, frame_size: u32)
    ensures
        ({
            let avih = avih_chunk(width, height, fps, total_frames, frame_size);
            &&& avih.len() == 64
            &&& avih.subrange(0, 4) == le32(FOURCC_AVIH)
            &&& avih.subrange(4, 8) == le32(56)
        }),
{
    reveal(avih_chunk);
    let avih = avih_chunk(width, height, fps, total_frames, frame_size);
    assert(avih.subrange(0, 4) =~= le32(FOURCC_AVIH));
    assert(avih.subrange(4, 8) =~= le32(56));
}

/// The `strh` chunk: 64 bytes, led by its code and a size field of 56.
proof fn lemma_strh_head(width: u32, height: u32, fps: u32, total_frames: u32, frame_size: u32)
    ensures
        ({
            let strh = strh_chunk(width, height, fps, total_frames, frame_size);
            &&& strh.len() == 64
            &&& strh.subrange(0, 4) == le32(FOURCC_STRH)
            &&& strh.subrange(4, 8) == le32(56)
        }),
{
    reveal(strh_chunk);
    let strh = strh_chunk(width, height, fps, total_frames, frame_size);
    assert(strh.subrange(0, 4) =~= le32(FOURCC_STRH));
    assert(strh.subrange(4, 8) =~= le32(56));
}

/// The `strf` chunk: 48 bytes, led by its code and a size field of 40.
proof fn lemma_strf_head(width: u32, height: u32, frame_size: u32)
    ensures
        ({
            let strf = strf_chunk(width, height, frame_size);
            &&& strf.len() == 48
            &&& strf.subrange(0, 4) == le32(FOURCC_STRF)
            &&& strf.subrange(4, 8) == le32(40)
        }),
{
    reveal(strf_chunk);
    let strf = strf_chunk(width, height, frame_size);
    assert(strf.subrange(0, 4) =~= le32(FOURCC_STRF));
    assert(strf.subrange(4, 8) =~= le32(40));
}

/// The first `n` stored rows are `n` rows of `stride` bytes, the `r`-th of
/// which is image row `height - 1 - r`.
proof fn lemma_dib_rows(image: Image, stride: int, n: int, r: int, i: int)
    requires
        0 <= stride,
        0 <= n,
        0 <= r < n,
        0 <= i < stride,
    ensures
        dib_rows(image, stride, n).len() == n * stride,
        dib_rows(image, stride, n)[r * stride + i] == dib_row(
            image,
            image.spec_height() - 1 - r,
            stride,
        )[i],
    decreases n,
{
    lemma_dib_rows_len(image, stride, n - 1);
    lemma_dib_rows_len(image, stride, n);
    if r < n - 1 {
        lemma_dib_rows(image, stride, n - 1, r, i);
        assert(r * stride + i < (n - 1) * stride) by (nonlinear_arith)
            requires
                0 <= r < n - 1,
                0 <= i < stride,
        ;
    }
}

proof fn lemma_dib_rows_len(image: Image, stride: int, n: int)
    requires
        0 <= stride,
    ensures
        n >= 0 ==> dib_rows(image, stride, n).len() == n * stride,
    decreases n,
{
    if n > 0 {
        lemma_dib_rows_len(image, stride, n - 1);
        let row = dib_row(image, image.spec_height() - n, stride);
        assert((n - 1) * stride + stride == n * stride) by (nonlinear_arith);
    } else if n == 0 {
    }
}

/// In a stored frame, byte `c` of pixel `(x, y)` (blue, green, red) sits in
/// stored row `height - 1 - y`, at column byte `3 * x + c`.
pub proof fn lemma_dib_pixel(image: Image, stride: int, x: int, y: int, c: int)
    requires
        image.wf(),
        image.in_bounds(x, y),
        0 <= c < 3,
        image.spec_width() * 3 <= stride,
    ensures
        dib_frame(image, stride).len() == image.spec_height() * stride,
        dib_frame(image, stride)[(image.spec_height() - 1 - y) * stride + 3 * x + c] == bgr_byte(
            image.pixel(x, y),
            c,
        ),
{
    image.lemma_wf_size();
    let h = image.spec_height() as int;
    lemma_dib_rows(image, stride, h, h - 1 - y, 3 * x + c);
}

proof fn lemma_movi_data_len(frames: Seq<Image>, stride: int, frame_size: u32, k: int)
    requires
        0 <= k <= frames.len(),
    ensures
        movi_data(frames.take(k), stride, frame_size).len() <= movi_data(
            frames,
            stride,
            frame_size,
        ).len(),
        movi_data(frames, stride, frame_size).subrange(
            0,
            movi_data(frames.take(k), stride, frame_size).len() as int,
        ) == movi_data(frames.take(k), stride, frame_size),
    decreases frames.len(),
{
    if k == frames.len() {
        assert(frames.take(k) =~= frames);
        assert(movi_data(frames, stride, frame_size).subrange(
            0,
            movi_data(frames, stride, frame_size).len() as int,
        ) =~= movi_data(frames, stride, frame_size));
    } else {
        let init = frames.drop_last();
        lemma_movi_data_len(init, stride, frame_size, k);
        assert(init.take(k) =~= frames.take(k));
        let a = movi_data(init, stride, frame_size);
        let b = movi_chunk(frames.last(), stride, frame_size);
        let p = movi_data(frames.take(k), stride, frame_size);
    }
}

/// Chunk `k` of the `movi` payload starts right after the chunks of the earlier
/// frames and holds frame `k`.
pub proof fn lemma_movi_chunk_at(frames: Seq<Image>, stride: int, frame_size: u32, k: int)
    requires
        0 <= k < frames.len(),
    ensures
        ({
            let o = movi_data(frames.take(k), stride, frame_size).len() as int;
            let chunk = movi_chunk(frames[k], stride, frame_size);
            &&& o + chunk.len() <= movi_data(frames, stride, frame_size).len()
            &&& movi_data(frames, stride, frame_size).subrange(o, o + chunk.len()) == chunk
        }),
{
    lemma_take_push(frames, k);
    let pre = frames.take(k + 1);
    lemma_movi_data_len(frames, stride, frame_size, k + 1);
    let a = movi_data(frames.take(k), stride, frame_size);
    let chunk = movi_chunk(frames[k], stride, frame_size);
    let whole = movi_data(frames, stride, frame_size);
    assert(whole.subrange(a.len() as int, a.len() as int + chunk.len()) =~= (a + chunk).subrange(
        a.len() as int,
        a.len() as int + chunk.len(),
    ));
}

/// Entry `k` of the index records the offset of chunk `k` in the `movi` payload.
pub proof fn lemma_index_entry_at(frames: Seq<Image>, stride: int, frame_size: u32, k: int)
    requires
        0 <= k < frames.len(),
    ensures
        index_entries(frames, stride, frame_size).len() == 16 * frames.len(),
        index_entries(frames, stride, frame_size).subrange(16 * k, 16 * k + 16) == index_entry(
            movi_data(frames.take(k), stride, frame_size).len() as u32,
            frame_size,
        ),
    decreases frames.len(),
{
    let init = frames.drop_last();
    let n = frames.len() as int;
    lemma_index_entries_len(init, stride, frame_size);
    let a = index_entries(init, stride, frame_size);
    let e = index_entry(
        movi_data(init, stride, frame_size).len() as u32,
        frame_size,
    );
    if k < n - 1 {
        lemma_index_entry_at(init, stride, frame_size, k);
        assert(init.take(k) =~= frames.take(k));
    }
}

proof fn lemma_index_entries_len(frames: Seq<Image>, stride: int, frame_size: u32)
    ensures
        index_entries(frames, stride, frame_size).len() == 16 * frames.len(),
    decreases frames.len(),
{
    if frames.len() > 0 {
        lemma_index_entries_len(frames.drop_last(), stride, frame_size);
    }
}

/// Where the `movi` payload starts in an encoded file.
pub open spec fn movi_offset() -> int {
    224
}

/// An encoded file is a 224-byte prefix, the `movi` payload, then the `idx1` chunk.
proof fn lemma_avi_layout(frames: Seq<Image>, fps: u32)
    requires
        frames.len() > 0,
    ensures
        ({
            let stride = row_stride(frames[0].spec_width());
            let frame_size = (stride * frames[0].spec_height()) as u32;
            let movi = movi_data(frames, stride, frame_size);
            let file = avi_file(frames, fps);
            &&& file.len() == movi_offset() + movi.len() + 8 + 16 * frames.len()
            &&& file.subrange(movi_offset(), movi_offset() + movi.len()) == movi
            &&& file.subrange(movi_offset() + movi.len() + 8, file.len() as int) == index_entries(
                frames,
                stride,
                frame_size,
            )
        }),
{
    let w = frames[0].spec_width();
    let h = frames[0].spec_height();
    let stride = row_stride(w);
    let frame_size = (stride * h) as u32;
    let movi = movi_data(frames, stride, frame_size);
    let idx = index_entries(frames, stride, frame_size);
    let hdr = header_list(w, h, fps, frames.len() as u32, frame_size);
    let body = avi_body(frames, fps);
    let file = avi_file(frames, fps);
    reveal(avi_file);
    reveal(avi_body);
    lemma_header_list_len(w, h, fps, frames.len() as u32, frame_size);
    lemma_index_entries_len(frames, stride, frame_size);
    let pre = le32(FOURCC_RIFF) + le32(body.len() as u32) + le32(FOURCC_AVI) + hdr + le32(
        FOURCC_LIST,
    ) + le32((movi.len() + 4) as u32) + le32(FOURCC_MOVI);
    let post = le32(FOURCC_IDX1) + le32((frames.len() * 16) as u32);
}

/// Reading frame `k` back from an encoded file: index entry `k` holds the
/// offset of chunk `k` within the `movi` payload, the chunk at that offset is a
/// `00db` chunk of the frame size, and byte `c` (blue, green, red) of pixel
/// `(x, y)` of frame `k` sits in its bitmap at stored row `height - 1 - y`.
pub proof fn lemma_avi_frame_readback(frames: Seq<Image>, fps: u32, k: int, x: int, y: int, c: int)
    requires
        encodable(frames, fps),
        0 <= k < frames.len(),
        frames[k].in_bounds(x, y),
        0 <= c < 3,
    ensures
        ({
            let file = avi_file(frames, fps);
            let stride = row_stride(frames[0].spec_width());
            let frame_size = (stride * frames[0].spec_height()) as u32;
            let movi = movi_data(frames, stride, frame_size);
            let o = movi_data(frames.take(k), stride, frame_size).len() as int;
            let entry = movi_offset() + movi.len() + 8 + 16 * k;
            &&& file.subrange(entry, entry + 16) == index_entry(o as u32, frame_size)
            &&& file.subrange(movi_offset() + o, movi_offset() + o + 8) == le32(FOURCC_00DB)
                + le32(frame_size)
            &&& file[movi_offset() + o + 8 + (frames[k].spec_height() - 1 - y) * stride + 3 * x
                + c] == bgr_byte(frames[k].pixel(x, y), c)
        }),
{
    let stride = row_stride(frames[0].spec_width());
    let frame_size = (stride * frames[0].spec_height()) as u32;
    let movi = movi_data(frames, stride, frame_size);
    let idx = index_entries(frames, stride, frame_size);
    let file = avi_file(frames, fps);
    let image = frames[k];
    assert(frames[k].wf());
    lemma_avi_layout(frames, fps);
    let m = file.subrange(movi_offset(), movi_offset() + movi.len());

    let o = movi_data(frames.take(k), stride, frame_size).len() as int;
    let chunk = movi_chunk(image, stride, frame_size);
    lemma_movi_chunk_at(frames, stride, frame_size, k);
    lemma_dib_pixel(image, stride, x, y, c);
    let j = (image.spec_height() - 1 - y) * stride + 3 * x + c;
    let dib = dib_frame(image, stride);
    image.lemma_wf_size();
    assert(0 <= j < dib.len()) by (nonlinear_arith)
        requires
            0 <= y < image.spec_height(),
            0 <= x < image.spec_width(),
            0 <= c < 3,
            image.spec_width() * 3 <= stride,
            dib.len() == image.spec_height() * stride,
            j == (image.spec_height() - 1 - y) * stride + 3 * x + c,
    ;
    assert(movi.subrange(o, o + chunk.len())[8 + j] == chunk[8 + j]);
    assert(file.subrange(movi_offset() + o, movi_offset() + o + 8) =~= chunk.subrange(0, 8));

    lemma_index_entry_at(frames, stride, frame_size, k);
    let entry = movi_offset() + movi.len() + 8 + 16 * k;
    let t = file.subrange(movi_offset() + movi.len() + 8, file.len() as int);
}

} // verus!
