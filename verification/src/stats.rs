//! The per-tick statistics snapshot that samplers read.
//!
//! The snapshot is produced once per sampling tick by the external
//! statistics collector and is consumed read-only: samplers never mutate it.
//! Frame timing comes in as a [`MetricValue`], because a faulty collector can
//! hand over non-finite readings there; the counters are plain integers and
//! are always finite.

use vstd::prelude::*;

use crate::ratio::MetricValue;
use crate::ratio::Ratio;

verus! {

/// One tick's worth of low-level engine counters.
#[derive(Clone, Debug)]
pub struct StatsData {
    /// Frames per second over the last interval.
    pub fps: MetricValue,
    /// Duration of the last frame, in milliseconds.
    pub frame_time: MetricValue,
    /// Linear-memory usage of the engine, in bytes.
    pub wasm_memory_usage: u64,
    /// GPU memory usage, in bytes.
    pub gpu_memory_usage: u64,
    /// One free-form description per draw call of the last frame.
    pub draw_calls: Vec<String>,
    /// Number of vertex buffers.
    pub buffer_count: u32,
    /// Number of data uploads during the last frame.
    pub data_upload_count: u32,
    /// Total size of data uploaded during the last frame, in bytes.
    pub data_upload_size: u64,
    /// Number of sprite systems.
    pub sprite_system_count: u32,
    /// Number of sprites.
    pub sprite_count: u32,
    /// Number of symbols.
    pub symbol_count: u32,
    /// Number of shaders.
    pub shader_count: u32,
    /// Number of shader compilations during the last frame.
    pub shader_compile_count: u32,
}

impl StatsData {
    /// Well-formedness: the frame-timing readings hold well-formed fractions,
    /// and every counter a sampler turns into a numerator fits in `i64`.
    pub open spec fn wf(self) -> bool {
        &&& self.fps.wf()
        &&& self.frame_time.wf()
        &&& self.wasm_memory_usage <= 0x7fff_ffff_ffff_ffff
        &&& self.gpu_memory_usage <= 0x7fff_ffff_ffff_ffff
        &&& self.data_upload_size <= 0x7fff_ffff_ffff_ffff
        &&& self.draw_calls@.len() <= 0x7fff_ffff_ffff_ffff
    }
}

impl Default for StatsData {
    /// An all-zero snapshot: every reading is the finite value zero and the
    /// draw-call list is empty.
    fn default() -> (r: Self)
        ensures
            r.fps == MetricValue::Finite(Ratio { num: 0, den: 1 }),
            r.frame_time == MetricValue::Finite(Ratio { num: 0, den: 1 }),
            r.wasm_memory_usage == 0,
            r.gpu_memory_usage == 0,
            r.draw_calls@ == Seq::<String>::empty(),
            r.buffer_count == 0,
            r.data_upload_count == 0,
            r.data_upload_size == 0,
            r.sprite_system_count == 0,
            r.sprite_count == 0,
            r.symbol_count == 0,
            r.shader_count == 0,
            r.shader_compile_count == 0,
            r.wf(),
    {
        StatsData {
            fps: MetricValue::Finite(Ratio { num: 0, den: 1 }),
            frame_time: MetricValue::Finite(Ratio { num: 0, den: 1 }),
            wasm_memory_usage: 0,
            gpu_memory_usage: 0,
            draw_calls: Vec::new(),
            buffer_count: 0,
            data_upload_count: 0,
            data_upload_size: 0,
            sprite_system_count: 0,
            sprite_count: 0,
            symbol_count: 0,
            shader_count: 0,
            shader_compile_count: 0,
        }
    }
}

} // verus!
