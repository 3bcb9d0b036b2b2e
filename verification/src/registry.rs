//! The fixed registry of predefined samplers.
//!
//! One descriptor per tracked engine metric, each built by taking the
//! default sampler and overriding only the fields that matter for that
//! metric. The registry is static configuration: constructed once at
//! startup, immutable thereafter, iterated by the overlay. Adding a metric
//! means adding one descriptor here and nothing else.

use vstd::prelude::*;

use crate::ratio::Ratio;
use crate::sampler::DetailSource;
use crate::sampler::Extractor;
use crate::sampler::Sampler;

verus! {

/// Bytes per megabyte: the divisor of the memory and upload-size metrics.
pub const BYTES_PER_MB: i64 = 1024 * 1024;

/// Frames per second; higher is better, 60 is the full frame rate.
pub fn fps() -> (s: Sampler)
    ensures
        s.wf(),
        s.label@ == "Frames per second"@,
        s.expr == Extractor::Fps,
        s.details is None,
        s.warn_threshold == (Ratio { num: 55, den: 1 }),
        s.err_threshold == (Ratio { num: 25, den: 1 }),
        s.value_divisor == (Ratio { num: 1, den: 1 }),
        s.min_value is None,
        s.max_value == Some(Ratio { num: 60, den: 1 }),
        s.precision == 2,
{
    proof {
        reveal_strlit("Frames per second");
    }
    let mut s = Sampler::default();
    s.label = "Frames per second";
    s.expr = Extractor::Fps;
    s.warn_threshold = Ratio { num: 55, den: 1 };
    s.err_threshold = Ratio { num: 25, den: 1 };
    s.precision = 2;
    s.max_value = Some(Ratio { num: 60, den: 1 });
    s
}

/// Frame time in milliseconds; lower is better. The thresholds are the frame
/// times of 55 and 25 frames per second: exactly 1000/55 and 1000/25 ms.
pub fn frame_time() -> (s: Sampler)
    ensures
        s.wf(),
        s.label@ == "Frame time (ms)"@,
        s.expr == Extractor::FrameTime,
        s.details is None,
        s.warn_threshold == (Ratio { num: 1000, den: 55 }),
        s.err_threshold == (Ratio { num: 1000, den: 25 }),
        s.value_divisor == (Ratio { num: 1, den: 1 }),
        s.min_value is None,
        s.max_value is None,
        s.precision == 2,
{
    proof {
        reveal_strlit("Frame time (ms)");
    }
    let mut s = Sampler::default();
    s.label = "Frame time (ms)";
    s.expr = Extractor::FrameTime;
    s.warn_threshold = Ratio { num: 1000, den: 55 };
    s.err_threshold = Ratio { num: 1000, den: 25 };
    s.precision = 2;
    s
}

/// Linear-memory usage in megabytes; lower is better.
pub fn wasm_memory_usage() -> (s: Sampler)
    ensures
        s.wf(),
        s.label@ == "WASM memory usage (Mb)"@,
        s.expr == Extractor::WasmMemoryUsage,
        s.details is None,
        s.warn_threshold == (Ratio { num: 50, den: 1 }),
        s.err_threshold == (Ratio { num: 100, den: 1 }),
        s.value_divisor == (Ratio { num: BYTES_PER_MB, den: 1 }),
        s.min_value is None,
        s.max_value is None,
        s.precision == 2,
{
    proof {
        reveal_strlit("WASM memory usage (Mb)");
    }
    let mut s = Sampler::default();
    s.label = "WASM memory usage (Mb)";
    s.expr = Extractor::WasmMemoryUsage;
    s.warn_threshold = Ratio { num: 50, den: 1 };
    s.err_threshold = Ratio { num: 100, den: 1 };
    s.precision = 2;
    s.value_divisor = Ratio { num: BYTES_PER_MB, den: 1 };
    s
}

/// GPU memory usage in megabytes; lower is better.
pub fn gpu_memory_usage() -> (s: Sampler)
    ensures
        s.wf(),
        s.label@ == "GPU memory usage (Mb)"@,
        s.expr == Extractor::GpuMemoryUsage,
        s.details is None,
        s.warn_threshold == (Ratio { num: 100, den: 1 }),
        s.err_threshold == (Ratio { num: 500, den: 1 }),
        s.value_divisor == (Ratio { num: BYTES_PER_MB, den: 1 }),
        s.min_value is None,
        s.max_value is None,
        s.precision == 2,
{
    proof {
        reveal_strlit("GPU memory usage (Mb)");
    }
    let mut s = Sampler::default();
    s.label = "GPU memory usage (Mb)";
    s.expr = Extractor::GpuMemoryUsage;
    s.warn_threshold = Ratio { num: 100, den: 1 };
    s.err_threshold = Ratio { num: 500, den: 1 };
    s.precision = 2;
    s.value_divisor = Ratio { num: BYTES_PER_MB, den: 1 };
    s
}

/// Number of draw calls per frame; lower is better. Exposes the description
/// of each draw call as its detail lines.
pub fn draw_call_count() -> (s: Sampler)
    ensures
        s.wf(),
        s.label@ == "Draw call count"@,
        s.expr == Extractor::DrawCallCount,
        s.details == Some(DetailSource::DrawCalls),
        s.warn_threshold == (Ratio { num: 100, den: 1 }),
        s.err_threshold == (Ratio { num: 500, den: 1 }),
        s.value_divisor == (Ratio { num: 1, den: 1 }),
        s.min_value is None,
        s.max_value is None,
        s.precision == 0,
{
    proof {
        reveal_strlit("Draw call count");
    }
    let mut s = Sampler::default();
    s.label = "Draw call count";
    s.expr = Extractor::DrawCallCount;
    s.details = Some(DetailSource::DrawCalls);
    s.warn_threshold = Ratio { num: 100, den: 1 };
    s.err_threshold = Ratio { num: 500, den: 1 };
    s
}

/// Number of vertex buffers; lower is better.
pub fn buffer_count() -> (s: Sampler)
    ensures
        s.wf(),
        s.label@ == "Buffer count"@,
        s.expr == Extractor::BufferCount,
        s.details is None,
        s.warn_threshold == (Ratio { num: 100, den: 1 }),
        s.err_threshold == (Ratio { num: 500, den: 1 }),
        s.value_divisor == (Ratio { num: 1, den: 1 }),
        s.min_value is None,
        s.max_value is None,
        s.precision == 0,
{
    proof {
        reveal_strlit("Buffer count");
    }
    let mut s = Sampler::default();
    s.label = "Buffer count";
    s.expr = Extractor::BufferCount;
    s.warn_threshold = Ratio { num: 100, den: 1 };
    s.err_threshold = Ratio { num: 500, den: 1 };
    s
}

/// Number of data uploads per frame; lower is better.
pub fn data_upload_count() -> (s: Sampler)
    ensures
        s.wf(),
        s.label@ == "Data upload count"@,
        s.expr == Extractor::DataUploadCount,
        s.details is None,
        s.warn_threshold == (Ratio { num: 100, den: 1 }),
        s.err_threshold == (Ratio { num: 500, den: 1 }),
        s.value_divisor == (Ratio { num: 1, den: 1 }),
        s.min_value is None,
        s.max_value is None,
        s.precision == 0,
{
    proof {
        reveal_strlit("Data upload count");
    }
    let mut s = Sampler::default();
    s.label = "Data upload count";
    s.expr = Extractor::DataUploadCount;
    s.warn_threshold = Ratio { num: 100, den: 1 };
    s.err_threshold = Ratio { num: 500, den: 1 };
    s
}

/// Size of data uploaded per frame, in megabytes; lower is better.
pub fn data_upload_size() -> (s: Sampler)
    ensures
        s.wf(),
        s.label@ == "Data upload size (Mb)"@,
        s.expr == Extractor::DataUploadSize,
        s.details is None,
        s.warn_threshold == (Ratio { num: 1, den: 1 }),
        s.err_threshold == (Ratio { num: 10, den: 1 }),
        s.value_divisor == (Ratio { num: BYTES_PER_MB, den: 1 }),
        s.min_value is None,
        s.max_value is None,
        s.precision == 2,
{
    proof {
        reveal_strlit("Data upload size (Mb)");
    }
    let mut s = Sampler::default();
    s.label = "Data upload size (Mb)";
    s.expr = Extractor::DataUploadSize;
    s.warn_threshold = Ratio { num: 1, den: 1 };
    s.err_threshold = Ratio { num: 10, den: 1 };
    s.precision = 2;
    s.value_divisor = Ratio { num: BYTES_PER_MB, den: 1 };
    s
}

/// Number of sprite systems; lower is better.
pub fn sprite_system_count() -> (s: Sampler)
    ensures
        s.wf(),
        s.label@ == "Sprite system count"@,
        s.expr == Extractor::SpriteSystemCount,
        s.details is None,
        s.warn_threshold == (Ratio { num: 100, den: 1 }),
        s.err_threshold == (Ratio { num: 500, den: 1 }),
        s.value_divisor == (Ratio { num: 1, den: 1 }),
        s.min_value is None,
        s.max_value is None,
        s.precision == 0,
{
    proof {
        reveal_strlit("Sprite system count");
    }
    let mut s = Sampler::default();
    s.label = "Sprite system count";
    s.expr = Extractor::SpriteSystemCount;
    s.warn_threshold = Ratio { num: 100, den: 1 };
    s.err_threshold = Ratio { num: 500, den: 1 };
    s
}

/// Number of symbols; lower is better.
pub fn symbol_count() -> (s: Sampler)
    ensures
        s.wf(),
        s.label@ == "Symbol count"@,
        s.expr == Extractor::SymbolCount,
        s.details is None,
        s.warn_threshold == (Ratio { num: 100, den: 1 }),
        s.err_threshold == (Ratio { num: 500, den: 1 }),
        s.value_divisor == (Ratio { num: 1, den: 1 }),
        s.min_value is None,
        s.max_value is None,
        s.precision == 0,
{
    proof {
        reveal_strlit("Symbol count");
    }
    let mut s = Sampler::default();
    s.label = "Symbol count";
    s.expr = Extractor::SymbolCount;
    s.warn_threshold = Ratio { num: 100, den: 1 };
    s.err_threshold = Ratio { num: 500, den: 1 };
    s
}

/// Number of sprites; lower is better.
pub fn sprite_count() -> (s: Sampler)
    ensures
        s.wf(),
        s.label@ == "Sprite count"@,
        s.expr == Extractor::SpriteCount,
        s.details is None,
        s.warn_threshold == (Ratio { num: 100_000, den: 1 }),
        s.err_threshold == (Ratio { num: 500_000, den: 1 }),
        s.value_divisor == (Ratio { num: 1, den: 1 }),
        s.min_value is None,
        s.max_value is None,
        s.precision == 0,
{
    proof {
        reveal_strlit("Sprite count");
    }
    let mut s = Sampler::default();
    s.label = "Sprite count";
    s.expr = Extractor::SpriteCount;
    s.warn_threshold = Ratio { num: 100_000, den: 1 };
    s.err_threshold = Ratio { num: 500_000, den: 1 };
    s
}

/// Number of shaders; lower is better.
pub fn shader_count() -> (s: Sampler)
    ensures
        s.wf(),
        s.label@ == "Shader count"@,
        s.expr == Extractor::ShaderCount,
        s.details is None,
        s.warn_threshold == (Ratio { num: 100, den: 1 }),
        s.err_threshold == (Ratio { num: 500, den: 1 }),
        s.value_divisor == (Ratio { num: 1, den: 1 }),
        s.min_value is None,
        s.max_value is None,
        s.precision == 0,
{
    proof {
        reveal_strlit("Shader count");
    }
    let mut s = Sampler::default();
    s.label = "Shader count";
    s.expr = Extractor::ShaderCount;
    s.warn_threshold = Ratio { num: 100, den: 1 };
    s.err_threshold = Ratio { num: 500, den: 1 };
    s
}

/// Number of shader compilations per frame; lower is better.
pub fn shader_compile_count() -> (s: Sampler)
    ensures
        s.wf(),
        s.label@ == "Shader compile count"@,
        s.expr == Extractor::ShaderCompileCount,
        s.details is None,
        s.warn_threshold == (Ratio { num: 10, den: 1 }),
        s.err_threshold == (Ratio { num: 100, den: 1 }),
        s.value_divisor == (Ratio { num: 1, den: 1 }),
        s.min_value is None,
        s.max_value is None,
        s.precision == 0,
{
    proof {
        reveal_strlit("Shader compile count");
    }
    let mut s = Sampler::default();
    s.label = "Shader compile count";
    s.expr = Extractor::ShaderCompileCount;
    s.warn_threshold = Ratio { num: 10, den: 1 };
    s.err_threshold = Ratio { num: 100, den: 1 };
    s
}

/// The default registry the overlay iterates over: every predefined sampler,
/// each well-formed, one per tracked metric, in display order.
pub fn all_samplers() -> (r: Vec<Sampler>)
    ensures
        r@.len() == 13,
        forall|i: int| 0 <= i < r@.len() ==> (#[trigger] r@[i]).wf(),
        r@[0].expr == Extractor::Fps,
        r@[1].expr == Extractor::FrameTime,
        r@[2].expr == Extractor::WasmMemoryUsage,
        r@[3].expr == Extractor::GpuMemoryUsage,
        r@[4].expr == Extractor::DrawCallCount,
        r@[5].expr == Extractor::BufferCount,
        r@[6].expr == Extractor::DataUploadCount,
        r@[7].expr == Extractor::DataUploadSize,
        r@[8].expr == Extractor::SpriteSystemCount,
        r@[9].expr == Extractor::SymbolCount,
        r@[10].expr == Extractor::SpriteCount,
        r@[11].expr == Extractor::ShaderCount,
        r@[12].expr == Extractor::ShaderCompileCount,
{
    let mut r: Vec<Sampler> = Vec::new();
    r.push(fps());
    r.push(frame_time());
    r.push(wasm_memory_usage());
    r.push(gpu_memory_usage());
    r.push(draw_call_count());
    r.push(buffer_count());
    r.push(data_upload_count());
    r.push(data_upload_size());
    r.push(sprite_system_count());
    r.push(symbol_count());
    r.push(sprite_count());
    r.push(shader_count());
    r.push(shader_compile_count());
    r
}

} // verus!
