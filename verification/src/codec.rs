use vstd::prelude::*;

verus! {

use vstd::slice::slice_subrange;
use crate::pixels::Pixels;
use crate::policy::MAX_DIMENSION;

/// The largest payload one JPEG marker segment can carry: its length field
/// is 16 bits and covers itself.
pub const MAX_MARKER_DATA: usize = 65533;

/// The marker codes the pipeline preserves: the application segments
/// APP0 through APP15 (0xE0 to 0xEF) and the comment segment (0xFE).
pub open spec fn spec_valid_marker_code(code: u8) -> bool {
    code == 0xFE || (0xE0 <= code && code <= 0xEF)
}

/// One non-pixel segment of a JPEG bitstream, such as EXIF data: the raw
/// marker code and the segment's payload, kept verbatim.
pub struct MarkerSeg {
    pub code: u8,
    pub data: Vec<u8>,
}

impl MarkerSeg {
    /// Well-formedness: a code the encoder can re-emit and a payload that
    /// fits one segment.
    pub open spec fn wf(self) -> bool {
        spec_valid_marker_code(self.code) && self.data@.len() <= MAX_MARKER_DATA
    }
}

/// The mathematical value of a marker sequence: each segment as its code
/// and payload.
pub open spec fn spec_markers_view(ms: Seq<MarkerSeg>) -> Seq<(u8, Seq<u8>)> {
    ms.map_values(|m: MarkerSeg| (m.code, m.data@))
}

/// What a decoder made of a source file: the image size, the interleaved
/// RGB pixels, and the non-pixel marker segments in bitstream order.
pub struct DecodedImage {
    pub width: u32,
    pub height: u32,
    pub data: Vec<u8>,
    pub markers: Vec<MarkerSeg>,
}

impl DecodedImage {
    /// What every real decode satisfies: positive dimensions the codec can
    /// re-encode, one RGB triple per pixel, and well-formed markers.
    pub open spec fn consistent(self) -> bool {
        &&& 1 <= self.width <= MAX_DIMENSION
        &&& 1 <= self.height <= MAX_DIMENSION
        &&& self.data@.len() == self.width * self.height * 3
        &&& forall|i: int| 0 <= i < self.markers@.len() ==> (#[trigger] self.markers@[i]).wf()
    }
}

/// Decides whether a handed-in decode satisfies everything `consistent`
/// asks, so later stages can rely on it.
pub fn check_decoded(d: &DecodedImage) -> (r: bool)
    ensures
        r == d.consistent(),
{
    if d.width < 1 || d.width > MAX_DIMENSION || d.height < 1 || d.height > MAX_DIMENSION {
        return false;
    }
    proof {
        assert(0 <= (d.width as int) * (d.height as int) * 3 < 0x1_0000_0000_0000)
            by (nonlinear_arith)
            requires
                1 <= d.width <= MAX_DIMENSION,
                1 <= d.height <= MAX_DIMENSION,
        ;
    }
    if (d.data.len() as u64) != (d.width as u64) * (d.height as u64) * 3 {
        return false;
    }
    let mut i: usize = 0;
    while i < d.markers.len()
        invariant
            i <= d.markers@.len(),
            forall|j: int| 0 <= j < i ==> (#[trigger] d.markers@[j]).wf(),
        decreases d.markers@.len() - i,
    {
        let m = &d.markers[i];
        if !(m.code == 0xFE || (0xE0 <= m.code && m.code <= 0xEF)) {
            return false;
        }
        if m.data.len() > MAX_MARKER_DATA {
            return false;
        }
        i += 1;
    }
    true
}

#[verifier::external_type_specification]
#[verifier::external_body]
pub struct ExCompress(mozjpeg::Compress);

#[verifier::external_type_specification]
#[verifier::external_body]
#[verifier::reject_recursive_types(W)]
pub struct ExCompressStarted<W>(mozjpeg::compress::CompressStarted<W>);

/// The quality setting an encoder was configured with, as the IEEE-754
/// single-precision bit pattern handed to `set_quality`.
pub uninterp spec fn cfg_quality(c: mozjpeg::Compress) -> u32;

/// The image width an encoder was configured with.
pub uninterp spec fn cfg_width(c: mozjpeg::Compress) -> int;

/// The image height an encoder was configured with.
pub uninterp spec fn cfg_height(c: mozjpeg::Compress) -> int;

/// Whether the encoder's scan mode was fixed to all-components-together.
/// Starting an encoder demands it, so every encoder this library starts
/// is configured the same way but for quality and size — which keeps the
/// emitted bytes a function of the `encoded_of` arguments alone.
pub uninterp spec fn cfg_scan_all(c: mozjpeg::Compress) -> bool;

/// The quality setting a started encoder carries.
pub uninterp spec fn enc_quality(s: mozjpeg::compress::CompressStarted<Vec<u8>>) -> u32;

/// The image width a started encoder carries.
pub uninterp spec fn enc_width(s: mozjpeg::compress::CompressStarted<Vec<u8>>) -> int;

/// The image height a started encoder carries.
pub uninterp spec fn enc_height(s: mozjpeg::compress::CompressStarted<Vec<u8>>) -> int;

/// The marker segments written to a started encoder so far, in order.
pub uninterp spec fn enc_markers(s: mozjpeg::compress::CompressStarted<Vec<u8>>) -> Seq<
    (u8, Seq<u8>),
>;

/// The pixel rows fed to a started encoder so far, as one byte sequence.
pub uninterp spec fn enc_scans(s: mozjpeg::compress::CompressStarted<Vec<u8>>) -> Seq<u8>;

/// What the encoder emits for an interleaved RGB image of the given size,
/// encoded at the given quality with the given marker segments leading the
/// pixel data: a function of these alone.
pub uninterp spec fn encoded_of(
    quality_bits: u32,
    w: int,
    h: int,
    markers: Seq<(u8, Seq<u8>)>,
    scans: Seq<u8>,
) -> Seq<u8>;

/// Relies on mozjpeg::Compress::new with ColorSpace::JCS_RGB: a fresh
/// JPEG encoder taking interleaved RGB input.
#[verifier::external_body]
pub(crate) fn new_compressor() -> (c: mozjpeg::Compress) {
    mozjpeg::Compress::new(mozjpeg::ColorSpace::JCS_RGB)
}

/// Relies on mozjpeg::Compress::set_quality: it stores the quality
/// setting and touches nothing else. The quality is handed over as an
/// IEEE-754 single-precision bit pattern, turned back into a float bit
/// for bit.
#[verifier::external_body]
pub(crate) fn set_quality(c: &mut mozjpeg::Compress, quality_bits: u32)
    ensures
        cfg_quality(*final(c)) == quality_bits,
        cfg_width(*final(c)) == cfg_width(*old(c)),
        cfg_height(*final(c)) == cfg_height(*old(c)),
        cfg_scan_all(*final(c)) == cfg_scan_all(*old(c)),
{
    c.set_quality(bytemuck::cast(quality_bits));
}

/// Relies on mozjpeg::Compress::set_scan_optimization_mode with
/// ScanMode::AllComponentsTogether. Besides storing the scan mode it
/// reapplies the encoder defaults (its body calls jpeg_set_defaults),
/// which resets the quality — so nothing is promised of the quality here,
/// and the quality must be set afterwards.
#[verifier::external_body]
pub(crate) fn set_scan_mode(c: &mut mozjpeg::Compress)
    ensures
        cfg_scan_all(*final(c)),
        cfg_width(*final(c)) == cfg_width(*old(c)),
        cfg_height(*final(c)) == cfg_height(*old(c)),
{
    c.set_scan_optimization_mode(mozjpeg::ScanMode::AllComponentsTogether);
}

/// Relies on mozjpeg::Compress::set_size: it stores the image size and
/// touches nothing else.
#[verifier::external_body]
pub(crate) fn set_size(c: &mut mozjpeg::Compress, w: u32, h: u32)
    ensures
        cfg_width(*final(c)) == w,
        cfg_height(*final(c)) == h,
        cfg_quality(*final(c)) == cfg_quality(*old(c)),
        cfg_scan_all(*final(c)) == cfg_scan_all(*old(c)),
{
    c.set_size(w as usize, h as usize);
}

/// Relies on mozjpeg::Compress::start_compress with an in-memory Vec as
/// the destination: the settings are frozen and the started encoder has
/// seen no marker and no pixel row yet. Starting is owed: its only error
/// is a sampling-factor check that the RGB defaults (factors 2, 1, 1 in
/// each direction) always pass, and the size bounds keep the codec's own
/// limits, which it enforces by aborting, out of reach.
#[verifier::external_body]
pub(crate) fn start_compress(c: mozjpeg::Compress) -> (r: Result<
    mozjpeg::compress::CompressStarted<Vec<u8>>,
    String,
>)
    requires
        1 <= cfg_width(c) <= MAX_DIMENSION,
        1 <= cfg_height(c) <= MAX_DIMENSION,
        cfg_scan_all(c),
    ensures
        (r is Ok),
        r matches Ok(s) ==> enc_quality(s) == cfg_quality(c) && enc_width(s) == cfg_width(c)
            && enc_height(s) == cfg_height(c) && enc_markers(s) == Seq::<(u8, Seq<u8>)>::empty()
            && enc_scans(s) == Seq::<u8>::empty(),
{
    c.start_compress(Vec::new()).map_err(|e| e.to_string())
}

/// Relies on CompressStarted::write_marker (jpeg_write_marker): it appends
/// one marker segment to the output stream, before any pixel data, and
/// leaves the rest of the encoder state alone. The code bounds match the
/// Marker conversion from raw bytes; the payload bound is the segment
/// limit of the format.
#[verifier::external_body]
pub(crate) fn write_marker(
    s: &mut mozjpeg::compress::CompressStarted<Vec<u8>>,
    code: u8,
    data: &Vec<u8>,
)
    requires
        spec_valid_marker_code(code),
        data@.len() <= MAX_MARKER_DATA,
        enc_scans(*old(s)) == Seq::<u8>::empty(),
    ensures
        enc_markers(*final(s)) == enc_markers(*old(s)).push((code, data@)),
        enc_scans(*final(s)) == enc_scans(*old(s)),
        enc_quality(*final(s)) == enc_quality(*old(s)),
        enc_width(*final(s)) == enc_width(*old(s)),
        enc_height(*final(s)) == enc_height(*old(s)),
{
    s.write_marker(mozjpeg::Marker::from(code), data.as_slice());
}

/// Relies on CompressStarted::write_scanlines, fed exactly one whole row
/// at a time (it silently drops a trailing partial row, so whole rows are
/// a requirement here) and never beyond the image height: writing is then
/// owed — with a Vec destination none of its error paths (raw-data mode,
/// zero width, a destination that accepts nothing, rows past the image)
/// is reachable — and the row is appended to the pixel data fed to the
/// encoder, the rest of the encoder state left alone.
#[verifier::external_body]
pub(crate) fn write_scanlines(
    s: &mut mozjpeg::compress::CompressStarted<Vec<u8>>,
    buf: &[u8],
) -> (r: Result<(), String>)
    requires
        1 <= enc_width(*old(s)),
        buf@.len() == enc_width(*old(s)) * 3,
        enc_scans(*old(s)).len() + buf@.len() <= enc_width(*old(s)) * enc_height(*old(s)) * 3,
    ensures
        (r is Ok),
        enc_scans(*final(s)) == enc_scans(*old(s)) + buf@,
        enc_markers(*final(s)) == enc_markers(*old(s)),
        enc_quality(*final(s)) == enc_quality(*old(s)),
        enc_width(*final(s)) == enc_width(*old(s)),
        enc_height(*final(s)) == enc_height(*old(s)),
{
    s.write_scanlines(buf).map_err(|e| e.to_string())
}

/// Relies on CompressStarted::finish (jpeg_finish_compress): once every
/// row of the image has been fed, it flushes and returns the complete,
/// never empty JPEG bytes — a function of the quality, size, markers and
/// pixel rows alone. Finishing is owed: its own body returns the writer
/// unconditionally, and feeding fewer rows than the image height, the
/// one codec error under it, is ruled out by the bound below.
#[verifier::external_body]
pub(crate) fn finish_compress(s: mozjpeg::compress::CompressStarted<Vec<u8>>) -> (r: Result<
    Vec<u8>,
    String,
>)
    requires
        enc_scans(s).len() == enc_width(s) * enc_height(s) * 3,
    ensures
        (r is Ok),
        r matches Ok(v) ==> v@ == encoded_of(
            enc_quality(s),
            enc_width(s),
            enc_height(s),
            enc_markers(s),
            enc_scans(s),
        ) && v@.len() >= 1,
{
    s.finish().map_err(|e| e.to_string())
}

/// Encodes the image as a JPEG at the given quality, re-emitting the given
/// marker segments verbatim, in order, before the pixel data. Encoding
/// into memory is owed: no step of the in-memory encode chain can refuse
/// a well-formed image.
pub fn encode_pixels(quality_bits: u32, px: &Pixels, markers: &Vec<MarkerSeg>) -> (r: Result<
    Vec<u8>,
    String,
>)
    requires
        px.wf(),
        forall|i: int| 0 <= i < markers@.len() ==> (#[trigger] markers@[i]).wf(),
    ensures
        (r is Ok),
        r matches Ok(v) ==> v@ == encoded_of(
            quality_bits,
            px.width as int,
            px.height as int,
            spec_markers_view(markers@),
            px.data@,
        ) && v@.len() >= 1,
{
    let mut c = new_compressor();
    set_scan_mode(&mut c);
    set_quality(&mut c, quality_bits);
    set_size(&mut c, px.width, px.height);
    let mut s = match start_compress(c) {
        Ok(s) => s,
        Err(e) => {
            return Err(e);
        },
    };
    let mut i: usize = 0;
    while i < markers.len()
        invariant
            i <= markers@.len(),
            forall|k: int| 0 <= k < markers@.len() ==> (#[trigger] markers@[k]).wf(),
            enc_markers(s) == spec_markers_view(markers@.take(i as int)),
            enc_scans(s) == Seq::<u8>::empty(),
            enc_quality(s) == quality_bits,
            enc_width(s) == px.width as int,
            enc_height(s) == px.height as int,
        decreases markers@.len() - i,
    {
        write_marker(&mut s, markers[i].code, &markers[i].data);
        proof {
            assert(spec_markers_view(markers@.take(i + 1)) =~= spec_markers_view(
                markers@.take(i as int),
            ).push((markers@[i as int].code, markers@[i as int].data@)));
        }
        i += 1;
    }
    proof {
        assert(markers@.take(markers@.len() as int) =~= markers@);
    }
    let row_bytes: usize = (px.width * 3) as usize;
    let total: usize = px.data.len();
    proof {
        assert(px.data@.len() == px.height * (row_bytes as int)) by (nonlinear_arith)
            requires
                px.data@.len() == px.width * px.height * 3,
                row_bytes == px.width * 3,
        ;
    }
    let mut line: usize = 0;
    while line < px.height as usize
        invariant
            line <= px.height,
            row_bytes == px.width * 3,
            total == px.data@.len(),
            total == px.height * row_bytes,
            px.wf(),
            enc_markers(s) == spec_markers_view(markers@),
            enc_scans(s) == px.data@.take((line * row_bytes) as int),
            enc_quality(s) == quality_bits,
            enc_width(s) == px.width as int,
            enc_height(s) == px.height as int,
        decreases px.height - line,
    {
        proof {
            assert(0 <= line * row_bytes && line * row_bytes + row_bytes == (line + 1) * row_bytes
                && (line + 1) * row_bytes <= px.height * row_bytes && px.height * row_bytes
                == px.width * px.height * 3) by (nonlinear_arith)
                requires
                    0 <= line,
                    line + 1 <= px.height,
                    0 <= row_bytes,
                    row_bytes == px.width * 3,
            ;
        }
        let start: usize = line * row_bytes;
        let row = slice_subrange(px.data.as_slice(), start, start + row_bytes);
        match write_scanlines(&mut s, row) {
            Ok(()) => {},
            Err(e) => {
                return Err(e);
            },
        }
        proof {
            assert(px.data@.take((line * row_bytes) as int) + px.data@.subrange(
                start as int,
                (start + row_bytes) as int,
            ) =~= px.data@.take(((line + 1) * row_bytes) as int));
        }
        line += 1;
    }
    proof {
        assert((px.height * row_bytes) as int == enc_width(s) * enc_height(s) * 3)
            by (nonlinear_arith)
            requires
                row_bytes == px.width * 3,
                enc_width(s) == px.width as int,
                enc_height(s) == px.height as int,
        ;
        assert(px.data@.take(px.data@.len() as int) =~= px.data@);
    }
    finish_compress(s)
}

} // verus!
