use pcomp::policy::{resolve, Brighten, Config, ConfigError, Contrast, General, Resize, Sharpen};
use pcomp::paths::{file_name, is_supported_path, resolve_output_path};
use pcomp::job::ratio_percent;
use pcomp::report::{report_line, u64_string};
use pcomp::outcome::{ErrorKind, JobOutcome};

fn base_config() -> Config {
    Config {
        general: General {
            jpeg_quality_bits: (80.0f32).to_bits(),
            worker_count: 4,
            recurse_subdirectories: false,
            overwrite_in_place: false,
            preserve_metadata: true,
        },
        resize: Resize {
            enabled: true,
            long_side_target: 2000,
        },
        sharpen: Sharpen {
            enabled: false,
            sigma_bits: (1.5f32).to_bits(),
            threshold: 3,
        },
        brighten: Brighten {
            enabled: false,
            delta: 10,
        },
        contrast: Contrast {
            enabled: false,
            delta_bits: (5.0f32).to_bits(),
        },
    }
}

#[test]
fn resolve_accepts_a_config_in_domain() {
    let p = resolve(base_config()).unwrap();
    assert_eq!(p.config, base_config());
}

#[test]
fn resolve_accepts_quality_boundary_values() {
    let mut c = base_config();
    c.general.jpeg_quality_bits = (100.0f32).to_bits();
    assert!(resolve(c).is_ok());
    c.general.jpeg_quality_bits = f32::MIN_POSITIVE.to_bits();
    assert!(resolve(c).is_ok());
}

#[test]
fn resolve_rejects_quality_zero() {
    let mut c = base_config();
    c.general.jpeg_quality_bits = (0.0f32).to_bits();
    assert_eq!(resolve(c).unwrap_err(), ConfigError::QualityOutOfDomain);
}

#[test]
fn resolve_rejects_quality_above_hundred() {
    let mut c = base_config();
    c.general.jpeg_quality_bits = (100.001f32).to_bits();
    assert_eq!(resolve(c).unwrap_err(), ConfigError::QualityOutOfDomain);
}

#[test]
fn resolve_rejects_negative_quality() {
    let mut c = base_config();
    c.general.jpeg_quality_bits = (-50.0f32).to_bits();
    assert_eq!(resolve(c).unwrap_err(), ConfigError::QualityOutOfDomain);
}

#[test]
fn resolve_rejects_nan_quality() {
    let mut c = base_config();
    c.general.jpeg_quality_bits = f32::NAN.to_bits();
    assert_eq!(resolve(c).unwrap_err(), ConfigError::QualityOutOfDomain);
}

#[test]
fn resolve_rejects_zero_workers() {
    let mut c = base_config();
    c.general.worker_count = 0;
    assert_eq!(resolve(c).unwrap_err(), ConfigError::WorkerCountOutOfDomain);
}

#[test]
fn resolve_rejects_zero_resize_target() {
    let mut c = base_config();
    c.resize.long_side_target = 0;
    assert_eq!(resolve(c).unwrap_err(), ConfigError::LongSideTargetOutOfDomain);
}

#[test]
fn resolve_rejects_a_sigma_the_filter_cannot_take() {
    let mut c = base_config();
    c.sharpen.enabled = true;
    for bad in [
        (0.0f32).to_bits(),
        (-1.5f32).to_bits(),
        f32::MIN_POSITIVE.to_bits() >> 1, // subnormal
        f32::INFINITY.to_bits(),
        f32::NAN.to_bits(),
    ] {
        c.sharpen.sigma_bits = bad;
        assert_eq!(resolve(c).unwrap_err(), ConfigError::SigmaOutOfDomain);
    }
    c.sharpen.sigma_bits = (0.8f32).to_bits();
    assert!(resolve(c).is_ok());
}

#[test]
fn resolve_rejects_a_nan_contrast_delta() {
    let mut c = base_config();
    c.contrast.enabled = true;
    c.contrast.delta_bits = f32::NAN.to_bits();
    assert_eq!(resolve(c).unwrap_err(), ConfigError::ContrastDeltaOutOfDomain);
    c.contrast.delta_bits = (-30.0f32).to_bits();
    assert!(resolve(c).is_ok());
    c.contrast.delta_bits = f32::INFINITY.to_bits();
    assert!(resolve(c).is_ok());
}

#[test]
fn a_disabled_stage_parameter_is_left_alone() {
    let mut c = base_config();
    c.sharpen.enabled = false;
    c.sharpen.sigma_bits = (0.0f32).to_bits();
    c.contrast.enabled = false;
    c.contrast.delta_bits = f32::NAN.to_bits();
    assert!(resolve(c).is_ok());
}

#[test]
fn extension_check_accepts_jpeg_extensions_case_insensitively() {
    assert!(is_supported_path("photo.jpg"));
    assert!(is_supported_path("photo.JPG"));
    assert!(is_supported_path("photo.jpeg"));
    assert!(is_supported_path("photo.JpEg"));
    assert!(is_supported_path("/some/dir/photo.JpG"));
}

#[test]
fn extension_check_rejects_everything_else() {
    assert!(!is_supported_path("photo.png"));
    assert!(!is_supported_path("photo"));
    assert!(!is_supported_path(".jpg"));
    assert!(!is_supported_path("dir.jpg/photo.txt"));
    assert!(!is_supported_path("photo.jpg.bak"));
}

#[test]
fn file_name_takes_what_follows_the_last_separator() {
    assert_eq!(file_name("/a/b/c.jpg"), "c.jpg");
    assert_eq!(file_name("c.jpg"), "c.jpg");
    assert_eq!(file_name("a/b"), "b");
}

#[test]
fn output_path_is_the_source_when_overwriting() {
    assert_eq!(resolve_output_path(true, "/a/b/c.jpg"), "/a/b/c.jpg");
}

#[test]
fn output_path_goes_to_the_compressed_subdirectory() {
    assert_eq!(resolve_output_path(false, "/a/b/c.jpg"), "/a/b/compressed/c.jpg");
    assert_eq!(resolve_output_path(false, "c.jpg"), "compressed/c.jpg");
}

#[test]
fn ratio_is_the_rounded_percentage_of_the_original_size() {
    assert_eq!(ratio_percent(200, 50), 25);
    assert_eq!(ratio_percent(1000, 5), 1);
    assert_eq!(ratio_percent(200, 101), 51);
    assert_eq!(ratio_percent(3, 1), 33);
    assert_eq!(ratio_percent(10, 25), 250);
}

#[test]
fn numbers_render_as_decimal_digits() {
    assert_eq!(u64_string(0), "0");
    assert_eq!(u64_string(7), "7");
    assert_eq!(u64_string(105), "105");
    assert_eq!(u64_string(18446744073709551615), "18446744073709551615");
}

#[test]
fn success_lines_follow_the_report_format() {
    let o = JobOutcome::Compressed {
        file_name: "x.jpg".to_string(),
        ratio_percent: 42,
    };
    assert_eq!(
        report_line(&o),
        "x.jpg has been compressed to 42% of its original size."
    );
}

#[test]
fn failure_lines_follow_the_report_format() {
    let o = JobOutcome::Failed {
        file_name: "x.jpg".to_string(),
        error_kind: ErrorKind::CodecError,
        message: "boom".to_string(),
    };
    assert_eq!(report_line(&o), "x.jpg fails to compress due to \"boom\".");
}
