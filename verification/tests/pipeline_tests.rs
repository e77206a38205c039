use pcomp::codec::{encode_pixels, DecodedImage, MarkerSeg};
use pcomp::discover::{Discovery, EntryKind};
use pcomp::job::Img;
use pcomp::job::JobError;
use pcomp::outcome::{ErrorKind, JobOutcome};
use pcomp::pixels::Pixels;
use pcomp::policy::{resolve, Brighten, Config, Contrast, General, Resize, RunPolicy, Sharpen};
use pcomp::run::{app_start, process_file, JobInput};

fn config(resize_on: bool, target: u32, overwrite: bool, preserve: bool) -> Config {
    Config {
        general: General {
            jpeg_quality_bits: (80.0f32).to_bits(),
            worker_count: 2,
            recurse_subdirectories: false,
            overwrite_in_place: overwrite,
            preserve_metadata: preserve,
        },
        resize: Resize {
            enabled: resize_on,
            long_side_target: target,
        },
        sharpen: Sharpen {
            enabled: false,
            sigma_bits: (1.0f32).to_bits(),
            threshold: 0,
        },
        brighten: Brighten {
            enabled: false,
            delta: 0,
        },
        contrast: Contrast {
            enabled: false,
            delta_bits: (0.0f32).to_bits(),
        },
    }
}

fn policy(resize_on: bool, target: u32, overwrite: bool, preserve: bool) -> RunPolicy {
    resolve(config(resize_on, target, overwrite, preserve)).unwrap()
}

fn gradient_pixels(w: u32, h: u32) -> Pixels {
    let mut data = Vec::new();
    for y in 0..h {
        for x in 0..w {
            data.push((x * 255 / w.max(1)) as u8);
            data.push((y * 255 / h.max(1)) as u8);
            data.push(128);
        }
    }
    Pixels {
        width: w,
        height: h,
        data,
    }
}

/// Decodes JPEG bytes with the real codec, the way the surrounding
/// application feeds the library.
fn decode(bytes: &[u8]) -> DecodedImage {
    let d = mozjpeg::Decompress::with_markers(mozjpeg::ALL_MARKERS)
        .from_mem(bytes)
        .unwrap();
    let markers: Vec<MarkerSeg> = d
        .markers()
        .map(|m| MarkerSeg {
            code: match m.marker {
                mozjpeg::Marker::COM => 0xFE,
                mozjpeg::Marker::APP(n) => 0xE0 + n,
            },
            data: m.data.to_vec(),
        })
        .collect();
    let mut started = d.rgb().unwrap();
    let width = started.width() as u32;
    let height = started.height() as u32;
    let data: Vec<u8> = started.read_scanlines().unwrap();
    started.finish().unwrap();
    DecodedImage {
        width,
        height,
        data,
        markers,
    }
}

fn encoded_sample(w: u32, h: u32, markers: Vec<MarkerSeg>) -> Vec<u8> {
    encode_pixels((80.0f32).to_bits(), &gradient_pixels(w, h), &markers).unwrap()
}

fn valid_job(path: &str, w: u32, h: u32) -> JobInput {
    let bytes = encoded_sample(w, h, Vec::new());
    JobInput {
        path: path.to_string(),
        origin_size: bytes.len() as u64,
        decoded: Ok(decode(&bytes)),
    }
}

#[test]
fn encoding_produces_a_jpeg_stream() {
    let bytes = encoded_sample(16, 16, Vec::new());
    assert!(bytes.len() > 4);
    assert_eq!(&bytes[0..2], &[0xFF, 0xD8]);
    assert_eq!(&bytes[bytes.len() - 2..], &[0xFF, 0xD9]);
}

#[test]
fn the_quality_setting_reaches_the_encoder() {
    // pseudo-random pixels: noise shows quality in the output size
    let mut seed = 1u64;
    let mut data = Vec::new();
    for _ in 0..64 * 64 * 3 {
        seed = seed
            .wrapping_mul(6364136223846793005)
            .wrapping_add(1442695040888963407);
        data.push((seed >> 56) as u8);
    }
    let px = Pixels {
        width: 64,
        height: 64,
        data,
    };
    let low = encode_pixels((10.0f32).to_bits(), &px, &Vec::new()).unwrap();
    let high = encode_pixels((95.0f32).to_bits(), &px, &Vec::new()).unwrap();
    assert!(
        low.len() < high.len(),
        "quality 10 ({}) should encode smaller than quality 95 ({})",
        low.len(),
        high.len()
    );
}

#[test]
fn encoding_round_trips_through_the_codec() {
    let bytes = encoded_sample(16, 12, Vec::new());
    let d = decode(&bytes);
    assert_eq!(d.width, 16);
    assert_eq!(d.height, 12);
    assert_eq!(d.data.len(), 16 * 12 * 3);
}

#[test]
fn marker_segments_survive_in_order() {
    let markers = vec![
        MarkerSeg {
            code: 0xE1,
            data: b"first segment".to_vec(),
        },
        MarkerSeg {
            code: 0xEE,
            data: b"second".to_vec(),
        },
        MarkerSeg {
            code: 0xFE,
            data: b"third comment".to_vec(),
        },
    ];
    let bytes = encoded_sample(16, 16, markers);
    let d = decode(&bytes);
    // the encoder itself may add a leading JFIF APP0 segment; ours follow
    // it verbatim and in order
    let ours: Vec<&MarkerSeg> = d
        .markers
        .iter()
        .filter(|m| !(m.code == 0xE0 && m.data.starts_with(b"JFIF")))
        .collect();
    assert_eq!(ours.len(), 3);
    assert_eq!(ours[0].code, 0xE1);
    assert_eq!(ours[0].data, b"first segment");
    assert_eq!(ours[1].code, 0xEE);
    assert_eq!(ours[1].data, b"second");
    assert_eq!(ours[2].code, 0xFE);
    assert_eq!(ours[2].data, b"third comment");
}

#[test]
fn markers_are_dropped_unless_metadata_is_preserved() {
    let markers = vec![MarkerSeg {
        code: 0xE1,
        data: b"exif-ish".to_vec(),
    }];
    let bytes = encoded_sample(16, 16, markers);

    let keep = policy(false, 100, true, true);
    let img = Img::open(&keep, "x.jpg", bytes.len() as u64, Ok(decode(&bytes))).unwrap();
    assert!(img.markers.iter().any(|m| m.data == b"exif-ish"));

    let drop = policy(false, 100, true, false);
    let img = Img::open(&drop, "x.jpg", bytes.len() as u64, Ok(decode(&bytes))).unwrap();
    assert!(img.markers.is_empty());
}

#[test]
fn open_rejects_a_non_jpeg_path() {
    let p = policy(false, 100, true, false);
    let bytes = encoded_sample(8, 8, Vec::new());
    let r = Img::open(&p, "x.png", bytes.len() as u64, Ok(decode(&bytes)));
    assert!(matches!(r, Err(JobError::UnsupportedFormat)));
}

#[test]
fn open_surfaces_a_decoder_failure_as_a_codec_error() {
    let p = policy(false, 100, true, false);
    let r = Img::open(&p, "x.jpg", 10, Err("not a jpeg".to_string()));
    match r {
        Err(JobError::CodecError(m)) => assert_eq!(m, "not a jpeg"),
        Err(e) => panic!("expected a codec error, got {e:?}"),
        Ok(_) => panic!("expected a codec error, got a job"),
    }
}

#[test]
fn open_resolves_the_output_path_once() {
    let bytes = encoded_sample(8, 8, Vec::new());
    let overwrite = policy(false, 100, true, false);
    let img = Img::open(
        &overwrite,
        "/d/x.jpg",
        bytes.len() as u64,
        Ok(decode(&bytes)),
    )
    .unwrap();
    assert_eq!(img.output_path, "/d/x.jpg");

    let sibling = policy(false, 100, false, false);
    let img = Img::open(&sibling, "/d/x.jpg", bytes.len() as u64, Ok(decode(&bytes))).unwrap();
    assert_eq!(img.output_path, "/d/compressed/x.jpg");
}

#[test]
fn an_enabled_resize_scales_the_output_image() {
    let p = policy(true, 20, true, false);
    let job = valid_job("photo.jpg", 40, 30);
    let r = process_file(&p, job);
    let art = r.artifact.expect("expected an artifact");
    let out = decode(&art.bytes);
    assert_eq!((out.width, out.height), (20, 15));
    assert!(matches!(r.outcome, JobOutcome::Compressed { .. }));
}

#[test]
fn a_disabled_resize_keeps_the_dimensions() {
    let p = policy(false, 20, true, false);
    let job = valid_job("photo.jpg", 40, 30);
    let r = process_file(&p, job);
    let art = r.artifact.expect("expected an artifact");
    let out = decode(&art.bytes);
    assert_eq!((out.width, out.height), (40, 30));
}

#[test]
fn the_reported_ratio_matches_the_artifact() {
    let p = policy(false, 100, true, false);
    let job = valid_job("photo.jpg", 32, 32);
    let origin = job.origin_size;
    let r = process_file(&p, job);
    let art = r.artifact.expect("expected an artifact");
    let expect = (art.bytes.len() as u64 * 100 + origin / 2) / origin;
    match r.outcome {
        JobOutcome::Compressed {
            file_name,
            ratio_percent,
        } => {
            assert_eq!(file_name, "photo.jpg");
            assert_eq!(ratio_percent, expect);
        }
        other => panic!("expected success, got {other:?}"),
    }
}

#[test]
fn one_corrupt_file_fails_alone_and_the_batch_goes_on() {
    let jobs = vec![
        valid_job("a.jpg", 16, 16),
        JobInput {
            path: "broken.jpg".to_string(),
            origin_size: 10,
            decoded: Err("unreadable bitstream".to_string()),
        },
        valid_job("b.jpg", 16, 16),
        valid_job("c.jpg", 16, 16),
    ];
    let out = app_start(config(false, 100, true, false), jobs).unwrap();
    assert_eq!(out.len(), 4);
    let compressed = out
        .iter()
        .filter(|p| matches!(p.outcome, JobOutcome::Compressed { .. }))
        .count();
    let failed: Vec<_> = out
        .iter()
        .filter_map(|p| match &p.outcome {
            JobOutcome::Failed {
                file_name,
                error_kind,
                message,
            } => Some((file_name.clone(), *error_kind, message.clone())),
            _ => None,
        })
        .collect();
    assert_eq!(compressed, 3);
    assert_eq!(
        failed,
        vec![(
            "broken.jpg".to_string(),
            ErrorKind::CodecError,
            "unreadable bitstream".to_string()
        )]
    );
}

#[test]
fn an_out_of_domain_config_aborts_before_any_job() {
    let mut c = config(false, 100, true, false);
    c.general.worker_count = 0;
    let r = app_start(c, vec![valid_job("a.jpg", 8, 8)]);
    match r {
        Err(e) => assert_eq!(e, pcomp::policy::ConfigError::WorkerCountOutOfDomain),
        Ok(_) => panic!("expected the run to abort on the configuration"),
    }
}

#[test]
fn discovery_collects_files_and_expands_directories() {
    let mut d = Discovery::new(false);
    d.add_arg("a.jpg".to_string(), EntryKind::File);
    d.add_arg("dir".to_string(), EntryKind::Dir);
    d.add_arg("missing".to_string(), EntryKind::Other);
    assert_eq!(d.next_dir(), Some("dir".to_string()));
    d.note_entry("dir/b.jpg".to_string(), EntryKind::File);
    d.note_entry("dir/sub".to_string(), EntryKind::Dir);
    assert_eq!(d.next_dir(), None);
    assert_eq!(d.into_files(), vec!["a.jpg".to_string(), "dir/b.jpg".to_string()]);
}

#[test]
fn discovery_recurses_only_when_asked() {
    let mut d = Discovery::new(true);
    d.add_arg("dir".to_string(), EntryKind::Dir);
    assert_eq!(d.next_dir(), Some("dir".to_string()));
    d.note_entry("dir/sub".to_string(), EntryKind::Dir);
    assert_eq!(d.next_dir(), Some("dir/sub".to_string()));
    d.note_entry("dir/sub/c.jpg".to_string(), EntryKind::File);
    assert_eq!(d.next_dir(), None);
    assert_eq!(d.into_files(), vec!["dir/sub/c.jpg".to_string()]);
}

#[test]
fn discovery_deduplicates_keeping_first_occurrences() {
    let mut d = Discovery::new(false);
    d.add_arg("a.jpg".to_string(), EntryKind::File);
    d.add_arg("b.jpg".to_string(), EntryKind::File);
    d.add_arg("a.jpg".to_string(), EntryKind::File);
    d.add_arg("c.jpg".to_string(), EntryKind::File);
    d.add_arg("b.jpg".to_string(), EntryKind::File);
    assert_eq!(
        d.into_files(),
        vec!["a.jpg".to_string(), "b.jpg".to_string(), "c.jpg".to_string()]
    );
}
