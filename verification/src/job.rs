use vstd::prelude::*;

verus! {

use crate::codec::{check_decoded, encode_pixels, encoded_of, spec_markers_view, DecodedImage,
    MarkerSeg};
use crate::outcome::ErrorKind;
use crate::paths::{file_name, is_supported_path, resolve_output_path, spec_file_name,
    spec_is_supported, spec_output_path};
use crate::pixels::Pixels;
use crate::policy::RunPolicy;
use crate::transform::{apply_stage, spec_apply_stage, Stage};

/// Why one job failed. A failure only ever concerns its own job.
#[derive(Clone, PartialEq, Debug)]
pub enum JobError {
    /// The path does not carry a `.jpg`/`.jpeg` extension.
    UnsupportedFormat,
    /// The codec could not decode or encode the image.
    CodecError(String),
    /// Reading the source or writing the output failed.
    IoError(String),
}

impl JobError {
    /// The class this failure is reported under.
    pub open spec fn spec_kind(self) -> ErrorKind {
        match self {
            JobError::UnsupportedFormat => ErrorKind::UnsupportedFormat,
            JobError::CodecError(_) => ErrorKind::CodecError,
            JobError::IoError(_) => ErrorKind::IoError,
        }
    }

    /// The message this failure is reported with.
    pub open spec fn spec_message(self) -> Seq<char> {
        match self {
            JobError::UnsupportedFormat => "not jpeg file"@,
            JobError::CodecError(m) => m@,
            JobError::IoError(m) => m@,
        }
    }

    /// Returns the class this failure is reported under.
    pub fn kind(&self) -> (r: ErrorKind)
        ensures
            r == self.spec_kind(),
    {
        match self {
            JobError::UnsupportedFormat => ErrorKind::UnsupportedFormat,
            JobError::CodecError(_) => ErrorKind::CodecError,
            JobError::IoError(_) => ErrorKind::IoError,
        }
    }

    /// Returns the message this failure is reported with.
    pub fn message(&self) -> (r: String)
        ensures
            r@ == self.spec_message(),
    {
        match self {
            JobError::UnsupportedFormat => String::from_str("not jpeg file"),
            JobError::CodecError(m) => m.clone(),
            JobError::IoError(m) => m.clone(),
        }
    }
}

/// One file's unit of work: the decoded pixels, the metadata kept for
/// re-emission, the resolved output location, and — after compression —
/// the encoded bytes. A job is owned by one worker and never outlives its
/// processing.
pub struct Img {
    pub path: String,
    pub file_name: String,
    pub output_path: String,
    pub origin_size: u64,
    pub pixels: Pixels,
    pub markers: Vec<MarkerSeg>,
    pub buf: Vec<u8>,
}

impl Img {
    /// Well-formedness: sound pixels, markers the encoder can re-emit, and
    /// a source size a real file had.
    pub open spec fn wf(self) -> bool {
        &&& self.pixels.wf()
        &&& forall|i: int| 0 <= i < self.markers@.len() ==> (#[trigger] self.markers@[i]).wf()
        &&& self.origin_size >= 1
    }

    /// This job with another pixel buffer, everything else the same.
    pub open spec fn with_pixels(self, px: Pixels) -> Img {
        Img { pixels: px, ..self }
    }

    /// This job with other encoded bytes, everything else the same.
    pub open spec fn with_buf(self, buf: Vec<u8>) -> Img {
        Img { buf, ..self }
    }

    /// Opens one job: the path must carry a JPEG extension, the handed-in
    /// decode must have succeeded and be sound, and the output location is
    /// resolved here, once — the source path itself when overwriting in
    /// place, else the `compressed` subdirectory beside the source.
    /// Metadata segments are kept only under `preserve_metadata`.
    pub fn open(
        policy: &RunPolicy,
        path: &str,
        origin_size: u64,
        decoded: Result<DecodedImage, String>,
    ) -> (r: Result<Img, JobError>)
        requires
            policy.valid(),
        ensures
            !spec_is_supported(path@) ==> r == Err::<Img, JobError>(JobError::UnsupportedFormat),
            spec_is_supported(path@) ==> match decoded {
                Err(m) => r == Err::<Img, JobError>(JobError::CodecError(m)),
                Ok(d) => {
                    if d.consistent() && origin_size >= 1 {
                        r matches Ok(img) && img.wf() && img.path@ == path@ && img.file_name@
                            == spec_file_name(path@) && img.origin_size == origin_size
                            && img.pixels.width == d.width && img.pixels.height == d.height
                            && img.pixels.data@ == d.data@ && img.buf@.len() == 0 && (
                        if policy.config.general.preserve_metadata {
                            img.markers@ == d.markers@
                        } else {
                            img.markers@.len() == 0
                        }) && (if policy.config.general.overwrite_in_place {
                            img.output_path@ == path@
                        } else {
                            img.output_path@ == spec_output_path(path@) && img.output_path@
                                != path@
                        })
                    } else {
                        r matches Err(e) && e.spec_kind() == ErrorKind::CodecError
                            && e.spec_message() == "invalid decoded image"@
                    }
                },
            },
    {
        if !is_supported_path(path) {
            return Err(JobError::UnsupportedFormat);
        }
        let d = match decoded {
            Ok(d) => d,
            Err(m) => {
                return Err(JobError::CodecError(m));
            },
        };
        if origin_size == 0 || !check_decoded(&d) {
            return Err(JobError::CodecError(String::from_str("invalid decoded image")));
        }
        let name = file_name(path);
        let out = resolve_output_path(policy.config.general.overwrite_in_place, path);
        let markers = if policy.config.general.preserve_metadata {
            d.markers
        } else {
            Vec::new()
        };
        Ok(
            Img {
                path: String::from_str(path),
                file_name: name,
                output_path: out,
                origin_size,
                pixels: Pixels { width: d.width, height: d.height, data: d.data },
                markers,
                buf: Vec::new(),
            },
        )
    }

    /// The resize stage: under an enabled policy, scales the longer side
    /// to the target, keeping the aspect ratio; otherwise leaves the
    /// pixels untouched.
    pub fn resize(&mut self, policy: &RunPolicy)
        requires
            old(self).wf(),
            policy.valid(),
        ensures
            final(self).wf(),
            *final(self) == old(self).with_pixels(final(self).pixels),
            final(self).pixels@ == spec_apply_stage(*policy, Stage::Resize, old(self).pixels@),
    {
        self.run_stage(policy, Stage::Resize);
    }

    /// The sharpen stage: under an enabled policy, applies the unsharp
    /// mask once; otherwise leaves the pixels untouched.
    pub fn sharpen(&mut self, policy: &RunPolicy)
        requires
            old(self).wf(),
            policy.valid(),
        ensures
            final(self).wf(),
            *final(self) == old(self).with_pixels(final(self).pixels),
            final(self).pixels@ == spec_apply_stage(*policy, Stage::Sharpen, old(self).pixels@),
    {
        self.run_stage(policy, Stage::Sharpen);
    }

    /// The brighten stage: under an enabled policy, moves every channel by
    /// the configured delta, saturating at the channel bounds; otherwise
    /// leaves the pixels untouched.
    pub fn brighten(&mut self, policy: &RunPolicy)
        requires
            old(self).wf(),
            policy.valid(),
        ensures
            final(self).wf(),
            *final(self) == old(self).with_pixels(final(self).pixels),
            final(self).pixels@ == spec_apply_stage(*policy, Stage::Brighten, old(self).pixels@),
    {
        self.run_stage(policy, Stage::Brighten);
    }

    /// The contrast stage: under an enabled policy, rescales every
    /// channel's deviation from mid-gray, saturating at the channel
    /// bounds; otherwise leaves the pixels untouched.
    pub fn contrast(&mut self, policy: &RunPolicy)
        requires
            old(self).wf(),
            policy.valid(),
        ensures
            final(self).wf(),
            *final(self) == old(self).with_pixels(final(self).pixels),
            final(self).pixels@ == spec_apply_stage(*policy, Stage::Contrast, old(self).pixels@),
    {
        self.run_stage(policy, Stage::Contrast);
    }

    fn run_stage(&mut self, policy: &RunPolicy, stage: Stage)
        requires
            old(self).wf(),
            policy.valid(),
        ensures
            final(self).wf(),
            *final(self) == old(self).with_pixels(final(self).pixels),
            final(self).pixels@ == spec_apply_stage(*policy, stage, old(self).pixels@),
    {
        let mut px = Pixels { width: 1, height: 1, data: Vec::new() };
        core::mem::swap(&mut px, &mut self.pixels);
        let px = apply_stage(policy, stage, px);
        self.pixels = px;
    }

    /// Encodes the current pixels as a JPEG at the policy's quality,
    /// re-emitting the job's marker segments verbatim, in order, before
    /// the pixel data. Encoding into memory is owed: the encoded bytes
    /// land in the job's buffer.
    pub fn compress(&mut self, policy: &RunPolicy) -> (r: Result<(), JobError>)
        requires
            old(self).wf(),
            policy.valid(),
        ensures
            (r is Ok),
            final(self).wf(),
            *final(self) == old(self).with_buf(final(self).buf),
            final(self).buf@ == encoded_of(
                policy.config.general.jpeg_quality_bits,
                old(self).pixels.width as int,
                old(self).pixels.height as int,
                spec_markers_view(old(self).markers@),
                old(self).pixels.data@,
            ),
            final(self).buf@.len() >= 1,
    {
        match encode_pixels(policy.config.general.jpeg_quality_bits, &self.pixels, &self.markers) {
            Ok(v) => {
                self.buf = v;
                Ok(())
            },
            Err(m) => Err(JobError::CodecError(m)),
        }
    }
}

/// Everything the caller needs to persist one finished job: where to
/// write, what to write, and the ratio to report.
pub struct SaveArtifact {
    pub output_path: String,
    pub bytes: Vec<u8>,
    pub ratio_percent: u64,
}

/// The compression ratio reported for a finished job: the encoded size as
/// a percentage of the original size, rounded to the nearest whole percent.
pub open spec fn spec_ratio_percent(original: int, encoded: int) -> int
    recommends
        original > 0,
{
    (encoded * 100 + original / 2) / original
}

/// Computes the compression ratio as a rounded percentage of the original
/// size.
pub fn ratio_percent(original: u64, encoded: u64) -> (r: u64)
    requires
        original >= 1,
        encoded <= u64::MAX / 200,
    ensures
        r == spec_ratio_percent(original as int, encoded as int),
{
    (encoded * 100 + original / 2) / original
}

impl Img {
    /// Finishes the job: hands back the encoded bytes together with the
    /// output location resolved at open time and the compression ratio.
    /// Fails only when there is nothing to save — `compress` has not
    /// produced encoded bytes — or when the encoded bytes outgrow the
    /// ratio arithmetic.
    pub fn save(self) -> (r: Result<SaveArtifact, JobError>)
        requires
            self.wf(),
        ensures
            1 <= self.buf@.len() <= u64::MAX / 200 ==> (r matches Ok(a) && a.output_path
                == self.output_path && a.bytes == self.buf && a.ratio_percent
                == spec_ratio_percent(self.origin_size as int, self.buf@.len() as int)),
            self.buf@.len() == 0 ==> (r matches Err(e) && e.spec_kind() == ErrorKind::CodecError
                && e.spec_message() == "no encoded data"@),
            self.buf@.len() > u64::MAX / 200 ==> (r matches Err(e) && e.spec_kind()
                == ErrorKind::CodecError && e.spec_message() == "encoded data too large"@),
    {
        if self.buf.len() == 0 {
            return Err(JobError::CodecError(String::from_str("no encoded data")));
        }
        if self.buf.len() as u64 > u64::MAX / 200 {
            return Err(JobError::CodecError(String::from_str("encoded data too large")));
        }
        let ratio = ratio_percent(self.origin_size, self.buf.len() as u64);
        Ok(SaveArtifact { output_path: self.output_path, bytes: self.buf, ratio_percent: ratio })
    }
}

} // verus!
