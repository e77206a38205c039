use vstd::prelude::*;

verus! {

use crate::codec::{spec_markers_view, DecodedImage, encoded_of};
use crate::job::{spec_ratio_percent, Img, SaveArtifact};
use crate::outcome::{ErrorKind, JobOutcome, SpecOutcome};
use crate::paths::{file_name, spec_file_name, spec_is_supported, spec_output_path};
use crate::policy::{resolve, spec_config_error, Config, ConfigError, RunPolicy};
use crate::transform::{spec_pipeline, spec_run_stages, PixelsView};

/// Everything one job needs, gathered by the caller: the source path, the
/// source file's byte size, and what the decoder made of its bytes (or
/// the decoder's complaint).
pub struct JobInput {
    pub path: String,
    pub origin_size: u64,
    pub decoded: Result<DecodedImage, String>,
}

/// One processed job: the outcome to report, and — when compression
/// succeeded — the artifact to persist.
pub struct ProcessedJob {
    pub outcome: JobOutcome,
    pub artifact: Option<SaveArtifact>,
}

/// The bytes the pipeline encodes for a decoded image under a policy: the
/// pixels after the transform pipeline, at the policy's quality, led by
/// the preserved markers (none unless `preserve_metadata`).
pub open spec fn spec_encoded_bytes(policy: RunPolicy, d: DecodedImage) -> Seq<u8> {
    let pv0 = PixelsView { width: d.width as int, height: d.height as int, data: d.data@ };
    let pvn = spec_pipeline(policy, pv0);
    let mk = if policy.config.general.preserve_metadata {
        spec_markers_view(d.markers@)
    } else {
        Seq::<(u8, Seq<u8>)>::empty()
    };
    encoded_of(policy.config.general.jpeg_quality_bits, pvn.width, pvn.height, mk, pvn.data)
}

/// A processed job that failed as a codec error under the given name and
/// message, with no artifact to persist.
pub open spec fn spec_codec_failure(pj: ProcessedJob, name: Seq<char>, message: Seq<char>) -> bool {
    &&& pj.artifact is None
    &&& pj.outcome@ == SpecOutcome::Failed {
        file_name: name,
        error_kind: ErrorKind::CodecError,
        message,
    }
}

/// How one processed job relates to its own input under the policy — and
/// to nothing else: an unsupported extension fails with the fixed message;
/// a failed or unsound decode fails as a codec error; a sound decode is
/// compressed, to exactly the bytes `spec_encoded_bytes` describes, with
/// the ratio computed from them and the artifact aimed at the output
/// location the policy prescribes — unless those bytes outgrow the ratio
/// arithmetic, which alone may fail the job.
pub open spec fn spec_outcome_matches(policy: RunPolicy, input: JobInput, pj: ProcessedJob) -> bool {
    let name = spec_file_name(input.path@);
    if !spec_is_supported(input.path@) {
        &&& pj.artifact is None
        &&& pj.outcome@ == SpecOutcome::Failed {
            file_name: name,
            error_kind: ErrorKind::UnsupportedFormat,
            message: "not jpeg file"@,
        }
    } else {
        match input.decoded {
            Err(m) => {
                &&& pj.artifact is None
                &&& pj.outcome@ == SpecOutcome::Failed {
                    file_name: name,
                    error_kind: ErrorKind::CodecError,
                    message: m@,
                }
            },
            Ok(d) => {
                if d.consistent() && input.origin_size >= 1 {
                    let enc = spec_encoded_bytes(policy, d);
                    let ratio = spec_ratio_percent(input.origin_size as int, enc.len() as int);
                    if 1 <= enc.len() <= u64::MAX / 200 {
                        &&& pj.outcome@ == SpecOutcome::Compressed {
                            file_name: name,
                            ratio_percent: ratio,
                        }
                        &&& pj.artifact matches Some(a) && a.bytes@ == enc && a.ratio_percent
                            == ratio && (if policy.config.general.overwrite_in_place {
                            a.output_path@ == input.path@
                        } else {
                            a.output_path@ == spec_output_path(input.path@) && a.output_path@
                                != input.path@
                        })
                    } else {
                        spec_codec_failure(pj, name, "encoded data too large"@)
                    }
                } else {
                    spec_codec_failure(pj, name, "invalid decoded image"@)
                }
            },
        }
    }
}

fn failed_job(name: String, kind: ErrorKind, message: String) -> (r: ProcessedJob)
    ensures
        (r.artifact is None),
        r.outcome@ == (SpecOutcome::Failed {
            file_name: name@,
            error_kind: kind,
            message: message@,
        }),
{
    ProcessedJob {
        outcome: JobOutcome::Failed { file_name: name, error_kind: kind, message },
        artifact: None,
    }
}

/// Processes one file from open to save: extension check, the transform
/// pipeline in its fixed order, encoding, and the save artifact. Every
/// failure is caught here and turned into this job's outcome; nothing
/// escapes to the rest of the batch.
pub fn process_file(policy: &RunPolicy, input: JobInput) -> (r: ProcessedJob)
    requires
        policy.valid(),
    ensures
        spec_outcome_matches(*policy, input, r),
{
    let JobInput { path, origin_size, decoded } = input;
    let name = file_name(path.as_str());
    let mut img = match Img::open(policy, path.as_str(), origin_size, decoded) {
        Err(e) => {
            let kind = e.kind();
            let message = e.message();
            return failed_job(name, kind, message);
        },
        Ok(img) => img,
    };
    let ghost pv0 = img.pixels@;
    img.resize(policy);
    img.sharpen(policy);
    img.brighten(policy);
    img.contrast(policy);
    proof {
        reveal_with_fuel(spec_run_stages, 5);
        assert(img.pixels@ == spec_pipeline(*policy, pv0));
    }
    match img.compress(policy) {
        Ok(()) => {},
        Err(e) => {
            let kind = e.kind();
            let message = e.message();
            return failed_job(name, kind, message);
        },
    }
    proof {
        if !policy.config.general.preserve_metadata {
            assert(spec_markers_view(img.markers@) =~= Seq::<(u8, Seq<u8>)>::empty());
        }
    }
    match img.save() {
        Ok(a) => {
            let ratio = a.ratio_percent;
            ProcessedJob {
                outcome: JobOutcome::Compressed { file_name: name, ratio_percent: ratio },
                artifact: Some(a),
            }
        },
        Err(e) => {
            let kind = e.kind();
            let message = e.message();
            failed_job(name, kind, message)
        },
    }
}

/// Processing is deterministic: two jobs processed under the same policy,
/// whose paths, source sizes and soundly decoded images carry the same
/// values, report the same outcome — the same ratio, or the same failure
/// kind — and, when compressed, hold the same encoded bytes. Only the
/// worker that runs the job may differ, never the job's result. (Whether
/// a second pass over the *output* of a first reproduces it byte for byte
/// is a different question: each pass is lossy, so that is not promised.)
pub proof fn lemma_processing_is_deterministic(
    policy: RunPolicy,
    i1: JobInput,
    i2: JobInput,
    d1: DecodedImage,
    d2: DecodedImage,
    p1: ProcessedJob,
    p2: ProcessedJob,
)
    requires
        spec_outcome_matches(policy, i1, p1),
        spec_outcome_matches(policy, i2, p2),
        i1.decoded == Ok::<DecodedImage, String>(d1),
        i2.decoded == Ok::<DecodedImage, String>(d2),
        i1.path@ == i2.path@,
        i1.origin_size == i2.origin_size,
        d1.consistent(),
        d2.consistent(),
        i1.origin_size >= 1,
        d1.width == d2.width,
        d1.height == d2.height,
        d1.data@ == d2.data@,
        spec_markers_view(d1.markers@) == spec_markers_view(d2.markers@),
    ensures
        p1.outcome@ == p2.outcome@,
        (p1.artifact is Some) == (p2.artifact is Some),
        p1.artifact is Some ==> p1.artifact.unwrap().bytes@ == p2.artifact.unwrap().bytes@,
{
    assert(spec_encoded_bytes(policy, d1) == spec_encoded_bytes(policy, d2));
}

/// One whole run on gathered inputs: resolves the configuration into the
/// run's policy — an out-of-domain configuration aborts the run before
/// any job starts — then processes every job. Exactly one outcome is
/// produced per input, in input order, and each is decided by the policy
/// and that input alone, so no job's failure can touch another job or
/// abort the batch.
pub fn app_start(config: Config, jobs: Vec<JobInput>) -> (r: Result<Vec<ProcessedJob>, ConfigError>)
    ensures
        r is Ok <==> config.domains_ok(),
        !config.domains_ok() ==> r == Err::<Vec<ProcessedJob>, ConfigError>(
            spec_config_error(config),
        ),
        r matches Ok(v) ==> v@.len() == jobs@.len() && forall|i: int|
            0 <= i < jobs@.len() ==> spec_outcome_matches(
                RunPolicy { config },
                jobs@[i],
                #[trigger] v@[i],
            ),
{
    let policy = match resolve(config) {
        Ok(p) => p,
        Err(e) => {
            return Err(e);
        },
    };
    let mut jobs = jobs;
    let ghost jobs0 = jobs@;
    let mut out: Vec<ProcessedJob> = Vec::new();
    while jobs.len() > 0
        invariant
            policy.valid(),
            policy.config == config,
            out@.len() + jobs@.len() == jobs0.len(),
            jobs@ =~= jobs0.subrange(out@.len() as int, jobs0.len() as int),
            forall|i: int|
                0 <= i < out@.len() ==> spec_outcome_matches(policy, jobs0[i], #[trigger] out@[i]),
        decreases jobs@.len(),
    {
        let ghost k = out@.len() as int;
        let j = jobs.remove(0);
        proof {
            assert(j == jobs0[k]);
        }
        let pj = process_file(&policy, j);
        out.push(pj);
        proof {
            assert(jobs@ =~= jobs0.subrange(out@.len() as int, jobs0.len() as int));
        }
    }
    Ok(out)
}

} // verus!
