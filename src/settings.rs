//! Construction-time configuration of the runner, as plain values.
//!
//! The rendering backend's settings builder is filled from these values at
//! the edge of the program; everything the runner decides about them is here.
use vstd::prelude::*;

verus! {

/// One gibibyte, in bytes.
pub const GIB: u64 = 1073741824;

/// Scratch memory per buffer category per frame, in bytes.
pub const SCRATCH_BYTES: u64 = 1024;

/// Frames that may be in flight at once.
pub const FRAMES_IN_FLIGHT: u64 = 2;

#[derive(PartialEq, Eq, Structural, Clone, Copy, Debug)]
pub enum PresentMode {
    Immediate,
    Fifo,
    Mailbox,
}

#[derive(PartialEq, Eq, Structural, Clone, Copy, Debug)]
pub enum QueueType {
    Graphics,
    Transfer,
    Compute,
}

/// A queue the device must offer; `dedicated` asks for a family that serves
/// this kind of work and not the others.
#[derive(PartialEq, Eq, Structural, Clone, Copy, Debug)]
pub struct QueueRequest {
    pub dedicated: bool,
    pub queue_type: QueueType,
}

#[derive(Debug)]
pub struct GpuRequirements {
    pub dedicated: bool,
    pub min_video_memory: u64,
    pub min_dedicated_video_memory: u64,
    pub queues: Vec<QueueRequest>,
}

#[derive(Debug)]
pub struct RunnerSettings {
    pub name: String,
    pub version: (u32, u32, u32),
    pub validation: bool,
    pub present_mode: PresentMode,
    pub scratch_size: u64,
    pub gpu: GpuRequirements,
    /// A window is bound, so presentation is set up.
    pub windowed: bool,
}

/// The queues the runner asks for: a shared graphics queue, and dedicated
/// transfer and compute queues.
pub open spec fn runner_queues() -> Seq<QueueRequest> {
    seq![
        QueueRequest { dedicated: false, queue_type: QueueType::Graphics },
        QueueRequest { dedicated: true, queue_type: QueueType::Transfer },
        QueueRequest { dedicated: true, queue_type: QueueType::Compute },
    ]
}

/// The settings the runner starts from, before the caller adjusts them.
pub open spec fn is_runner_settings(s: RunnerSettings, name: Seq<char>, windowed: bool) -> bool {
    &&& s.name@ == name
    &&& s.version == (1u32, 0u32, 0u32)
    &&& s.validation
    &&& s.present_mode == PresentMode::Mailbox
    &&& s.scratch_size == SCRATCH_BYTES
    &&& !s.gpu.dedicated
    &&& s.gpu.min_video_memory == GIB
    &&& s.gpu.min_dedicated_video_memory == GIB
    &&& s.gpu.queues@ == runner_queues()
    &&& s.windowed == windowed
}

/// The runner's default settings for an application called `name`.
pub fn runner_settings(name: String, windowed: bool) -> (r: RunnerSettings)
    ensures
        is_runner_settings(r, name@, windowed),
{
    let mut queues: Vec<QueueRequest> = Vec::new();
    queues.push(QueueRequest { dedicated: false, queue_type: QueueType::Graphics });
    queues.push(QueueRequest { dedicated: true, queue_type: QueueType::Transfer });
    queues.push(QueueRequest { dedicated: true, queue_type: QueueType::Compute });
    assert(queues@ =~= runner_queues());
    RunnerSettings {
        name,
        version: (1, 0, 0),
        validation: true,
        present_mode: PresentMode::Mailbox,
        scratch_size: SCRATCH_BYTES,
        gpu: GpuRequirements {
            dedicated: false,
            min_video_memory: GIB,
            min_dedicated_video_memory: GIB,
            queues,
        },
        windowed,
    }
}

} // verus!
