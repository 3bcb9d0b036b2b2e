//! Tests of sampler evaluation and of the predefined registry: extraction,
//! exact scaling, classification, detail lines, and purity of repeated
//! evaluation.

use metric_sampler::classify::ValueCheck;
use metric_sampler::ratio::MetricValue;
use metric_sampler::ratio::Ratio;
use metric_sampler::registry;
use metric_sampler::sampler::Extractor;
use metric_sampler::sampler::Sampler;
use metric_sampler::stats::StatsData;

const MB: u64 = 1024 * 1024;

fn snapshot() -> StatsData {
    StatsData::default()
}

#[test]
fn fps_sampler_scenario() {
    let fps = registry::fps();
    assert_eq!(fps.label, "Frames per second");

    let mut stats = snapshot();
    stats.fps = MetricValue::from_int(60);
    let v = fps.value(&stats);
    assert!(v.eq_val(&MetricValue::from_int(60)));
    assert_eq!(fps.check(&stats), ValueCheck::Correct);

    stats.fps = MetricValue::from_int(40);
    assert_eq!(fps.check(&stats), ValueCheck::Warning);

    stats.fps = MetricValue::from_int(10);
    assert_eq!(fps.check(&stats), ValueCheck::Error);
}

#[test]
fn wasm_memory_sampler_scenario() {
    let mem = registry::wasm_memory_usage();
    let mut stats = snapshot();
    stats.wasm_memory_usage = 60 * MB;
    // The raw byte count divided by 1048576 is exactly 60 Mb.
    let v = mem.value(&stats);
    assert!(v.eq_val(&MetricValue::from_int(60)));
    // Descending mode: 50 < 60 <= 100 is a warning.
    assert_eq!(mem.check(&stats), ValueCheck::Warning);

    stats.wasm_memory_usage = 50 * MB;
    assert_eq!(mem.check(&stats), ValueCheck::Correct);
    stats.wasm_memory_usage = 200 * MB;
    assert_eq!(mem.check(&stats), ValueCheck::Error);
}

#[test]
fn frame_time_thresholds_are_exact() {
    let ft = registry::frame_time();
    let mut stats = snapshot();
    // Exactly 1000/55 ms (the frame time of 55 fps) is still correct.
    stats.frame_time = MetricValue::Finite(Ratio::new(200, 11));
    assert_eq!(ft.check(&stats), ValueCheck::Correct);
    // A hair slower (1000/54 ms) is a warning.
    stats.frame_time = MetricValue::Finite(Ratio::new(1000, 54));
    assert_eq!(ft.check(&stats), ValueCheck::Warning);
    // Exactly 40 ms (25 fps) is still only a warning; beyond it an error.
    stats.frame_time = MetricValue::from_int(40);
    assert_eq!(ft.check(&stats), ValueCheck::Warning);
    stats.frame_time = MetricValue::Finite(Ratio::new(40001, 1000));
    assert_eq!(ft.check(&stats), ValueCheck::Error);
}

#[test]
fn draw_call_details_scenario() {
    let dc = registry::draw_call_count();
    let mut stats = snapshot();
    stats.draw_calls = vec![
        String::from("clear"),
        String::from("sprites"),
        String::from("text"),
    ];
    let details = dc.details(&stats).expect("draw-call sampler exposes details");
    assert_eq!(details.len(), 3);
    assert_eq!(details[0], "clear");
    assert_eq!(details[1], "sprites");
    assert_eq!(details[2], "text");
    // The value is the number of draw calls.
    assert!(dc.value(&stats).eq_val(&MetricValue::from_int(3)));
    // A sampler without a detail source never returns details.
    assert!(registry::fps().details(&stats).is_none());
}

#[test]
fn non_finite_reading_shows_as_error() {
    let fps = registry::fps();
    let mut stats = snapshot();
    stats.fps = MetricValue::NonFinite;
    assert!(!fps.value(&stats).is_finite());
    assert_eq!(fps.check(&stats), ValueCheck::Error);
}

#[test]
fn unrepresentable_quotient_degrades_to_non_finite() {
    // Dividing by 1/3 multiplies by 3; near i64::MAX the exact quotient has
    // no representation and the value degrades to the non-finite reading.
    let huge = Ratio::from_int(i64::MAX);
    let third = Ratio::new(1, 3);
    let q = huge.div(&third);
    assert!(!q.is_finite());
    // A representable quotient stays exact.
    let q = Ratio::from_int(10).div(&third);
    assert!(q.is_finite());
    assert!(q.eq_val(&MetricValue::from_int(30)));
}

#[test]
fn evaluation_is_pure() {
    let mem = registry::wasm_memory_usage();
    let mut stats = snapshot();
    stats.wasm_memory_usage = 77 * MB + 12345;
    let v1 = mem.value(&stats);
    let v2 = mem.value(&stats);
    assert!(v1.eq_val(&v2));
    // Bit-identical, not merely equal as rationals.
    match (v1, v2) {
        (MetricValue::Finite(a), MetricValue::Finite(b)) => {
            assert_eq!(a.num, b.num);
            assert_eq!(a.den, b.den);
        }
        _ => panic!("the scaled reading is finite"),
    }
    assert_eq!(mem.check(&stats), mem.check(&stats));
}

#[test]
fn default_sampler_reads_zero() {
    let s = Sampler::default();
    assert_eq!(s.label, "Unlabeled");
    assert_eq!(s.precision, 0);
    let stats = snapshot();
    assert!(s.value(&stats).eq_val(&MetricValue::from_int(0)));
    // Zero thresholds: the descending rule applies, zero is correct.
    assert_eq!(s.check(&stats), ValueCheck::Correct);
    assert!(s.details(&stats).is_none());
}

#[test]
fn min_size_and_display_bounds() {
    let fps = registry::fps();
    let min = fps.min_size().expect("min_size is always present");
    assert!(min.eq_val(&Ratio::from_int(55)));
    let (lo, hi) = fps.display_bounds();
    assert!(lo.is_none());
    assert!(hi.expect("fps has a display maximum").eq_val(&Ratio::from_int(60)));
    let ft = registry::frame_time();
    let (lo, hi) = ft.display_bounds();
    assert!(lo.is_none());
    assert!(hi.is_none());
}

#[test]
fn registry_layout() {
    let all = registry::all_samplers();
    assert_eq!(all.len(), 13);
    let labels: Vec<&str> = all.iter().map(|s| s.label).collect();
    assert_eq!(
        labels,
        vec![
            "Frames per second",
            "Frame time (ms)",
            "WASM memory usage (Mb)",
            "GPU memory usage (Mb)",
            "Draw call count",
            "Buffer count",
            "Data upload count",
            "Data upload size (Mb)",
            "Sprite system count",
            "Symbol count",
            "Sprite count",
            "Shader count",
            "Shader compile count",
        ]
    );
    assert_eq!(all[0].expr, Extractor::Fps);
    assert_eq!(all[4].expr, Extractor::DrawCallCount);
    for s in &all {
        assert!(s.value_divisor.num > 0);
        assert!(!s.label.is_empty());
    }
}

#[test]
fn counter_samplers_extract_their_field() {
    let mut stats = snapshot();
    stats.buffer_count = 7;
    stats.data_upload_count = 101;
    stats.data_upload_size = 3 * MB;
    stats.sprite_system_count = 2;
    stats.sprite_count = 123_456;
    stats.symbol_count = 9;
    stats.shader_count = 501;
    stats.shader_compile_count = 10;
    assert!(registry::buffer_count().value(&stats).eq_val(&MetricValue::from_int(7)));
    assert_eq!(registry::buffer_count().check(&stats), ValueCheck::Correct);
    // 101 crosses the warning bound of 100 in descending mode.
    assert_eq!(registry::data_upload_count().check(&stats), ValueCheck::Warning);
    assert!(registry::data_upload_size().value(&stats).eq_val(&MetricValue::from_int(3)));
    assert_eq!(registry::data_upload_size().check(&stats), ValueCheck::Warning);
    assert!(registry::sprite_system_count().value(&stats).eq_val(&MetricValue::from_int(2)));
    assert_eq!(registry::sprite_count().check(&stats), ValueCheck::Warning);
    assert_eq!(registry::symbol_count().check(&stats), ValueCheck::Correct);
    assert_eq!(registry::shader_count().check(&stats), ValueCheck::Error);
    // Exactly the warning bound is still correct in descending mode.
    assert_eq!(registry::shader_compile_count().check(&stats), ValueCheck::Correct);
    stats.shader_compile_count = 11;
    assert_eq!(registry::shader_compile_count().check(&stats), ValueCheck::Warning);
}

#[test]
fn gpu_memory_sampler_scales_exactly() {
    let gpu = registry::gpu_memory_usage();
    let mut stats = snapshot();
    // 1.5 Mb: the value is the exact fraction 3/2, not a rounded figure.
    stats.gpu_memory_usage = MB + MB / 2;
    let v = gpu.value(&stats);
    assert!(v.eq_val(&MetricValue::Finite(Ratio::new(3, 2))));
    assert_eq!(gpu.check(&stats), ValueCheck::Correct);
}
