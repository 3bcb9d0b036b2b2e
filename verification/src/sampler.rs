//! The sampler: a declarative descriptor of one displayed metric.
//!
//! A [`Sampler`] bundles a display label, an extractor selecting which
//! snapshot reading to show, an optional detail-line source, the two
//! thresholds driving classification, a positive scale divisor, optional
//! display bounds for plot scaling, and a display precision. Samplers are
//! immutable values: evaluation is a pure function of the sampler and the
//! snapshot, so repeated or concurrent reads of the same snapshot give
//! identical results.

use vstd::prelude::*;

use crate::classify::ValueCheck;
use crate::classify::classify_spec;
use crate::ratio::MetricValue;
use crate::ratio::Ratio;
use crate::stats::StatsData;

verus! {

/// Which reading of the snapshot a sampler displays.
///
/// Extraction is data-driven: a sampler stores one of these tags instead of
/// arbitrary code, which keeps extraction pure by construction and lets its
/// result be stated exactly (see [`extract_spec`]).
#[derive(Clone, Copy, Debug, PartialEq, Eq, Structural)]
pub enum Extractor {
    /// The constant zero; placeholder of the default sampler.
    Zero,
    /// Frames per second.
    Fps,
    /// Frame time in milliseconds.
    FrameTime,
    /// Linear-memory usage in bytes.
    WasmMemoryUsage,
    /// GPU memory usage in bytes.
    GpuMemoryUsage,
    /// Number of draw calls (the length of the description list).
    DrawCallCount,
    /// Number of vertex buffers.
    BufferCount,
    /// Number of data uploads.
    DataUploadCount,
    /// Size of uploaded data in bytes.
    DataUploadSize,
    /// Number of sprite systems.
    SpriteSystemCount,
    /// Number of sprites.
    SpriteCount,
    /// Number of symbols.
    SymbolCount,
    /// Number of shaders.
    ShaderCount,
    /// Number of shader compilations.
    ShaderCompileCount,
}

/// Which detail lines a sampler exposes in the details view.
#[derive(Clone, Copy, Debug, PartialEq, Eq, Structural)]
pub enum DetailSource {
    /// The free-form description of each draw call, in original order.
    DrawCalls,
}

/// The reading an extractor takes from a snapshot, before scaling.
///
/// Counters are always finite (they fit in `i64` by [`StatsData::wf`]);
/// the frame-timing readings are taken verbatim, non-finite or not.
pub open spec fn extract_spec(extractor: Extractor, stats: StatsData) -> MetricValue {
    match extractor {
        Extractor::Zero => MetricValue::Finite(Ratio { num: 0, den: 1 }),
        Extractor::Fps => stats.fps,
        Extractor::FrameTime => stats.frame_time,
        Extractor::WasmMemoryUsage => MetricValue::Finite(
            Ratio { num: stats.wasm_memory_usage as i64, den: 1 },
        ),
        Extractor::GpuMemoryUsage => MetricValue::Finite(
            Ratio { num: stats.gpu_memory_usage as i64, den: 1 },
        ),
        Extractor::DrawCallCount => MetricValue::Finite(
            Ratio { num: stats.draw_calls@.len() as i64, den: 1 },
        ),
        Extractor::BufferCount => MetricValue::Finite(
            Ratio { num: stats.buffer_count as i64, den: 1 },
        ),
        Extractor::DataUploadCount => MetricValue::Finite(
            Ratio { num: stats.data_upload_count as i64, den: 1 },
        ),
        Extractor::DataUploadSize => MetricValue::Finite(
            Ratio { num: stats.data_upload_size as i64, den: 1 },
        ),
        Extractor::SpriteSystemCount => MetricValue::Finite(
            Ratio { num: stats.sprite_system_count as i64, den: 1 },
        ),
        Extractor::SpriteCount => MetricValue::Finite(
            Ratio { num: stats.sprite_count as i64, den: 1 },
        ),
        Extractor::SymbolCount => MetricValue::Finite(
            Ratio { num: stats.symbol_count as i64, den: 1 },
        ),
        Extractor::ShaderCount => MetricValue::Finite(
            Ratio { num: stats.shader_count as i64, den: 1 },
        ),
        Extractor::ShaderCompileCount => MetricValue::Finite(
            Ratio { num: stats.shader_compile_count as i64, den: 1 },
        ),
    }
}

impl Extractor {
    /// Read this extractor's value from the snapshot.
    pub fn extract(&self, stats: &StatsData) -> (r: MetricValue)
        requires
            stats.wf(),
        ensures
            r == extract_spec(*self, *stats),
            r.wf(),
    {
        match self {
            Extractor::Zero => MetricValue::Finite(Ratio { num: 0, den: 1 }),
            Extractor::Fps => stats.fps,
            Extractor::FrameTime => stats.frame_time,
            Extractor::WasmMemoryUsage => MetricValue::Finite(
                Ratio { num: stats.wasm_memory_usage as i64, den: 1 },
            ),
            Extractor::GpuMemoryUsage => MetricValue::Finite(
                Ratio { num: stats.gpu_memory_usage as i64, den: 1 },
            ),
            Extractor::DrawCallCount => MetricValue::Finite(
                Ratio { num: stats.draw_calls.len() as i64, den: 1 },
            ),
            Extractor::BufferCount => MetricValue::Finite(
                Ratio { num: stats.buffer_count as i64, den: 1 },
            ),
            Extractor::DataUploadCount => MetricValue::Finite(
                Ratio { num: stats.data_upload_count as i64, den: 1 },
            ),
            Extractor::DataUploadSize => MetricValue::Finite(
                Ratio { num: stats.data_upload_size as i64, den: 1 },
            ),
            Extractor::SpriteSystemCount => MetricValue::Finite(
                Ratio { num: stats.sprite_system_count as i64, den: 1 },
            ),
            Extractor::SpriteCount => MetricValue::Finite(
                Ratio { num: stats.sprite_count as i64, den: 1 },
            ),
            Extractor::SymbolCount => MetricValue::Finite(
                Ratio { num: stats.symbol_count as i64, den: 1 },
            ),
            Extractor::ShaderCount => MetricValue::Finite(
                Ratio { num: stats.shader_count as i64, den: 1 },
            ),
            Extractor::ShaderCompileCount => MetricValue::Finite(
                Ratio { num: stats.shader_compile_count as i64, den: 1 },
            ),
        }
    }
}

/// A sampler: how to gather one performance metric and expose it to the
/// performance monitor.
#[derive(Clone, Copy, Debug)]
pub struct Sampler {
    /// Label of the sampler to be displayed in the performance monitor
    /// window; never empty.
    pub label: &'static str,
    /// Which snapshot reading yields the newest value of the sampler.
    pub expr: Extractor,
    /// The details to be displayed in the details view, if this metric
    /// exposes a breakdown.
    pub details: Option<DetailSource>,
    /// If the value crosses this threshold, the graph is drawn in the
    /// warning color.
    pub warn_threshold: Ratio,
    /// If the value crosses this threshold, the graph is drawn in the
    /// error color.
    pub err_threshold: Ratio,
    /// The value is divided by this (positive) number before being displayed
    /// and before threshold comparison.
    pub value_divisor: Ratio,
    /// The minimum expected value, used to scale the monitor plots; smaller
    /// real values are clamped for display only, by the overlay.
    pub min_value: Option<Ratio>,
    /// The maximum expected value, used to scale the monitor plots; bigger
    /// real values are clamped for display only, by the overlay.
    pub max_value: Option<Ratio>,
    /// The number of digits after the dot displayed in the monitor panel.
    pub precision: usize,
}

impl Sampler {
    /// Well-formedness: thresholds and bounds are well-formed fractions, the
    /// divisor is strictly positive, and the label is non-empty.
    pub open spec fn wf(self) -> bool {
        &&& self.warn_threshold.wf()
        &&& self.err_threshold.wf()
        &&& self.value_divisor.wf()
        &&& self.value_divisor.num > 0
        &&& (self.min_value matches Some(m) ==> m.wf())
        &&& (self.max_value matches Some(m) ==> m.wf())
        &&& self.label@.len() > 0
    }

    /// The value this sampler shows for a snapshot: the extracted reading
    /// divided, exactly, by the scale divisor. Non-finite readings (and the
    /// unrepresentable quotient) stay non-finite.
    pub open spec fn value_spec(self, stats: StatsData) -> MetricValue {
        match extract_spec(self.expr, stats) {
            MetricValue::NonFinite => MetricValue::NonFinite,
            MetricValue::Finite(v) => v.div_spec(self.value_divisor),
        }
    }

    /// The classification this sampler gives a snapshot: its value compared
    /// to its own thresholds under [`classify_spec`].
    pub open spec fn check_spec(self, stats: StatsData) -> ValueCheck {
        classify_spec(self.warn_threshold, self.err_threshold, self.value_spec(stats))
    }

    /// The current sampler value: the extracted reading divided by the scale
    /// divisor. A pure function of the sampler and the snapshot.
    pub fn value(&self, stats: &StatsData) -> (r: MetricValue)
        requires
            self.wf(),
            stats.wf(),
        ensures
            r == self.value_spec(*stats),
            r.wf(),
    {
        let raw = self.expr.extract(stats);
        match raw {
            MetricValue::NonFinite => MetricValue::NonFinite,
            MetricValue::Finite(v) => v.div(&self.value_divisor),
        }
    }

    /// Check the current value in order to draw it with warning or error
    /// color if it exceeds the allowed thresholds. A pure function of the
    /// sampler and the snapshot.
    pub fn check(&self, stats: &StatsData) -> (r: ValueCheck)
        requires
            self.wf(),
            stats.wf(),
        ensures
            r == self.check_spec(*stats),
    {
        let value = self.value(stats);
        ValueCheck::from_threshold(self.warn_threshold, self.err_threshold, value)
    }

    /// Minimum size of the space the sampler should occupy in the
    /// performance monitor view: its warning threshold.
    pub fn min_size(&self) -> (r: Option<Ratio>)
        ensures
            r == Some(self.warn_threshold),
    {
        Some(self.warn_threshold)
    }

    /// The display bounds `(min_value, max_value)`, verbatim, for the overlay
    /// to size its plot axis; the sampler never clamps the value itself.
    pub fn display_bounds(&self) -> (r: (Option<Ratio>, Option<Ratio>))
        ensures
            r.0 == self.min_value,
            r.1 == self.max_value,
    {
        (self.min_value, self.max_value)
    }

    /// The detail lines for a snapshot: present exactly when this sampler
    /// was configured with a detail source, and then the draw-call
    /// descriptions in their original order.
    pub fn details<'a>(&self, stats: &'a StatsData) -> (r: Option<&'a Vec<String>>)
        ensures
            r is Some <==> self.details is Some,
            r matches Some(d) ==> d@ == stats.draw_calls@,
    {
        match self.details {
            None => None,
            Some(DetailSource::DrawCalls) => Some(&stats.draw_calls),
        }
    }
}

impl Default for Sampler {
    /// The default descriptor every concrete metric overrides: label
    /// "Unlabeled", the zero extractor, no details, zero thresholds, divisor
    /// one, no display bounds, precision zero.
    fn default() -> (r: Self)
        ensures
            r.label@ == "Unlabeled"@,
            r.expr == Extractor::Zero,
            r.details is None,
            r.warn_threshold == (Ratio { num: 0, den: 1 }),
            r.err_threshold == (Ratio { num: 0, den: 1 }),
            r.value_divisor == (Ratio { num: 1, den: 1 }),
            r.min_value is None,
            r.max_value is None,
            r.precision == 0,
            r.wf(),
    {
        proof {
            reveal_strlit("Unlabeled");
        }
        Sampler {
            label: "Unlabeled",
            expr: Extractor::Zero,
            details: None,
            warn_threshold: Ratio { num: 0, den: 1 },
            err_threshold: Ratio { num: 0, den: 1 },
            value_divisor: Ratio { num: 1, den: 1 },
            min_value: None,
            max_value: None,
            precision: 0,
        }
    }
}

/// The scaling is exact: whenever a sampler's value is finite, multiplying it
/// back by the scale divisor yields exactly the extracted reading — the value
/// is `extract / divisor` with no rounding at all.
pub proof fn lemma_value_is_exact_quotient(sampler: Sampler, stats: StatsData, quotient: Ratio)
    requires
        sampler.wf(),
        stats.wf(),
        extract_spec(sampler.expr, stats) matches MetricValue::Finite(raw),
        sampler.value_spec(stats) == MetricValue::Finite(quotient),
    ensures
        extract_spec(sampler.expr, stats) matches MetricValue::Finite(raw) ==> (quotient.num
            * sampler.value_divisor.num) * raw.den == raw.num * (quotient.den
            * sampler.value_divisor.den),
{
    let raw = extract_spec(sampler.expr, stats)->Finite_0;
    let d = sampler.value_divisor;
    assert(quotient.num == raw.num * d.den && quotient.den == raw.den * d.num);
    assert((quotient.num * d.num) * raw.den == raw.num * (quotient.den * d.den))
        by (nonlinear_arith)
        requires
            quotient.num == raw.num * d.den,
            quotient.den == raw.den * d.num,
    ;
}

} // verus!
