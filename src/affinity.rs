//! Best-effort placement of worker threads on CPU cores.
use vstd::prelude::*;

verus! {

/// Why a worker was left where the scheduler put it.
#[derive(Debug, Clone, Copy, PartialEq, Eq)]
pub enum PinWarning {
    /// The platform offers no way to pin a thread.
    Unsupported,
    /// The core lies beyond what a CPU set can name.
    CoreOutOfRange { core: usize, capacity: usize },
    /// The operating system refused the request with this error code.
    Refused { core: usize, code: i32 },
}

/// Decides whether worker `core` can be pinned, given whether the platform
/// supports pinning and how many cores a CPU set can name.
pub fn plan_pin(core: usize, supported: bool, capacity: usize) -> (r: Result<(), PinWarning>)
    ensures
        r is Ok <==> supported && core < capacity,
        !supported ==> r == Err::<(), PinWarning>(PinWarning::Unsupported),
        supported && core >= capacity ==> r == Err::<(), PinWarning>(
            PinWarning::CoreOutOfRange { core, capacity },
        ),
{
    if !supported {
        Err(PinWarning::Unsupported)
    } else if core >= capacity {
        Err(PinWarning::CoreOutOfRange { core, capacity })
    } else {
        Ok(())
    }
}

/// Interprets the status that the affinity call returned for worker `core`,
/// with the error code the OS reported alongside it: zero is success.
pub fn pin_outcome(core: usize, status: i32, code: i32) -> (r: Result<(), PinWarning>)
    ensures
        r is Ok <==> status == 0,
        status != 0 ==> r == Err::<(), PinWarning>(PinWarning::Refused { core, code }),
{
    if status == 0 {
        Ok(())
    } else {
        Err(PinWarning::Refused { core, code })
    }
}

} // verus!
