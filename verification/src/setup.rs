//! Device directory and execution-context binding.
//!
//! Enumerates every platform and gathers the devices of a requested class,
//! then binds a chosen device to a context and an out-of-order, profiling
//! command queue. A platform with zero matching devices is a valid, empty
//! result; only a failing query is an `EnumerationError`.

use vstd::prelude::*;

use crate::cl;
use crate::errors::DeviceError;
use crate::exec;

verus! {

/// The classes of device the directory can be asked for.
#[derive(Clone, Copy, PartialEq, Eq, Structural, Debug)]
pub enum DeviceType {
    All,
    Gpu,
    Acc,
    Cpu,
    Custom,
    Default,
}

impl DeviceType {
    /// The OpenCL device-type bitfield value of this device class.
    pub open spec fn spec_code(self) -> u64 {
        match self {
            DeviceType::All => 0xFFFF_FFFFu64,
            DeviceType::Gpu => 1u64 << 2,
            DeviceType::Acc => 1u64 << 3,
            DeviceType::Cpu => 1u64 << 1,
            DeviceType::Custom => 1u64 << 4,
            DeviceType::Default => 1u64 << 0,
        }
    }

    /// Returns the OpenCL device-type bitfield value of this device class.
    pub fn code(self) -> (r: u64)
        ensures
            r == self.spec_code(),
    {
        match self {
            DeviceType::All => 0xFFFF_FFFF,
            DeviceType::Gpu => 1u64 << 2,
            DeviceType::Acc => 1u64 << 3,
            DeviceType::Cpu => 1u64 << 1,
            DeviceType::Custom => 1u64 << 4,
            DeviceType::Default => 1u64 << 0,
        }
    }
}

/// Folds the outcome of one platform's device query into the device list.
/// A successful query extends the list by exactly the queried devices — an
/// empty query is a valid, empty extension, not an error — and a failed
/// query leaves the list untouched and is an `EnumerationError`.
pub fn collect_devices(
    outcome: Result<Vec<opencl3::device::Device>, i32>,
    devices: &mut Vec<opencl3::device::Device>,
) -> (r: Result<(), DeviceError>)
    ensures
        match outcome {
            Ok(found) => r is Ok && final(devices)@ == old(devices)@ + found@,
            Err(code) => r == Err::<(), DeviceError>(
                DeviceError::EnumerationError { code },
            ) && final(devices)@ == old(devices)@,
        },
{
    match outcome {
        Ok(mut found) => {
            devices.append(&mut found);
            Ok(())
        },
        Err(code) => Err(DeviceError::EnumerationError { code }),
    }
}

/// Queries one platform for its devices of the given class and appends them
/// to `devices`. On failure the list is left as it was.
pub fn append_devices_from_platform(
    devices: &mut Vec<opencl3::device::Device>,
    platform: &opencl3::platform::Platform,
    dtype: DeviceType,
) -> (r: Result<(), DeviceError>)
    ensures
        r is Ok ==> final(devices)@.len() >= old(devices)@.len()
            && final(devices)@.subrange(0, old(devices)@.len() as int) == old(devices)@,
        r is Err ==> final(devices)@ == old(devices)@ && r->Err_0 matches
            DeviceError::EnumerationError { .. },
{
    let outcome = cl::cl_platform_devices(platform, dtype.code());
    proof {
        if outcome is Ok {
            assert((old(devices)@ + outcome->Ok_0@).subrange(0, old(devices)@.len() as int)
                =~= old(devices)@);
        }
    }
    collect_devices(outcome, devices)
}

/// The devices that a sequence of per-platform query outcomes yields, in
/// platform order; a failed query contributes nothing.
pub open spec fn spec_gathered(
    outcomes: Seq<Result<Vec<opencl3::device::Device>, i32>>,
) -> Seq<opencl3::device::Device>
    decreases outcomes.len(),
{
    if outcomes.len() == 0 {
        Seq::empty()
    } else {
        spec_gathered(outcomes.drop_last()) + (if outcomes.last() is Ok {
            outcomes.last()->Ok_0@
        } else {
            Seq::empty()
        })
    }
}

/// Folds every platform's query outcome into one directory result: when
/// every query succeeded, `Ok` of all queried devices in platform order —
/// so an enumeration in which every platform reports zero devices is the
/// valid empty directory, not an error — and otherwise the first failing
/// query's `EnumerationError`.
pub fn gather_devices(
    outcomes: Vec<Result<Vec<opencl3::device::Device>, i32>>,
) -> (r: Result<Vec<opencl3::device::Device>, DeviceError>)
    ensures
        (forall|i: int| 0 <= i < outcomes@.len() ==> outcomes@[i] is Ok) <==> r is Ok,
        r matches Ok(devices) ==> devices@ == spec_gathered(outcomes@),
        r matches Err(e) ==> exists|i: int|
            {
                &&& 0 <= i < outcomes@.len()
                &&& (#[trigger] outcomes@[i]) matches Err(code) && e == (
                DeviceError::EnumerationError { code })
                &&& forall|j: int| 0 <= j < i ==> outcomes@[j] is Ok
            },
{
    let ghost all = outcomes@;
    let mut remaining = outcomes;
    let total = remaining.len();
    proof {
        // the outcome list is a vector, so its length fits the machine
        assert(all.len() == total as int);
    }
    let mut devices: Vec<opencl3::device::Device> = Vec::new();
    let mut i: usize = 0;
    while remaining.len() > 0
        invariant
            all == outcomes@,
            all.len() <= usize::MAX,
            i + remaining@.len() == all.len(),
            remaining@ == all.subrange(i as int, all.len() as int),
            devices@ == spec_gathered(all.subrange(0, i as int)),
            forall|j: int| 0 <= j < i ==> all[j] is Ok,
        decreases remaining@.len(),
    {
        let outcome = remaining.remove(0);
        proof {
            assert(outcome == all[i as int]);
            assert(remaining@ =~= all.subrange(i + 1, all.len() as int));
            assert(all.subrange(0, i + 1).drop_last() =~= all.subrange(0, i as int));
            assert(all.subrange(0, i + 1).last() == all[i as int]);
        }
        match outcome {
            Ok(mut found) => {
                devices.append(&mut found);
            },
            Err(code) => {
                proof {
                    assert(all == outcomes@);
                    assert(outcomes@[i as int] matches Err(c) && c == code);
                    assert(forall|j: int| 0 <= j < i ==> outcomes@[j] is Ok);
                }
                return Err(DeviceError::EnumerationError { code });
            },
        }
        i += 1;
    }
    proof {
        assert(all.subrange(0, all.len() as int) =~= all);
    }
    Ok(devices)
}

/// An empty enumeration is a valid, non-error result: when every platform's
/// query succeeds and reports zero devices of the class, the directory is
/// empty — and by the contract of `gather_devices`, `Ok` — distinct from an
/// enumeration fault.
pub proof fn lemma_empty_enumeration_is_valid(
    outcomes: Seq<Result<Vec<opencl3::device::Device>, i32>>,
)
    requires
        forall|i: int| 0 <= i < outcomes.len()
            ==> ((#[trigger] outcomes[i]) matches Ok(found) && found@.len() == 0),
    ensures
        spec_gathered(outcomes).len() == 0,
    decreases outcomes.len(),
{
    if outcomes.len() > 0 {
        lemma_empty_enumeration_is_valid(outcomes.drop_last());
    }
}

/// Enumerates every platform and gathers all GPU-class devices. Zero devices
/// is a valid result distinct from a failing enumeration; the fold itself,
/// with that distinction, is the contract of `gather_devices`.
pub fn get_all_gpus() -> (r: Result<Vec<opencl3::device::Device>, DeviceError>)
    ensures
        r matches Err(e) ==> e matches DeviceError::EnumerationError { .. },
{
    let platforms = match cl::cl_get_platforms() {
        Ok(platforms) => platforms,
        Err(code) => {
            return Err(DeviceError::EnumerationError { code });
        },
    };

    let mut outcomes: Vec<Result<Vec<opencl3::device::Device>, i32>> = Vec::new();
    let mut i: usize = 0;
    while i < platforms.len()
        invariant
            i <= platforms.len(),
        decreases platforms.len() - i,
    {
        outcomes.push(cl::cl_platform_devices(&platforms[i], DeviceType::Gpu.code()));
        i += 1;
    }

    gather_devices(outcomes)
}

/// Binds the device at `device_number` to a fresh context and command queue.
/// An index at or beyond the device count is an `IndexError` carrying the
/// requested index and the available count, and nothing is constructed.
pub fn get_context_for_device(
    devices: Vec<opencl3::device::Device>,
    device_number: usize,
) -> (r: Result<(opencl3::context::Context, opencl3::command_queue::CommandQueue), DeviceError>)
    ensures
        device_number >= devices@.len() ==> (r matches Err(e) && e == (
        DeviceError::IndexError { requested: device_number, available: devices@.len() as usize })),
        r matches Err(e) ==> {
            ||| e matches DeviceError::IndexError { requested, available }
                && requested == device_number && available == devices@.len()
                && device_number >= devices@.len()
            ||| e matches DeviceError::ContextCreationError { .. }
            ||| e matches DeviceError::QueueCreationError { .. }
        },
{
    if device_number >= devices.len() {
        return Err(DeviceError::IndexError {
            requested: device_number,
            available: devices.len(),
        });
    }

    let device = &devices[device_number];
    let context = match cl::cl_context_from_device(device) {
        Ok(context) => context,
        Err(code) => {
            return Err(DeviceError::ContextCreationError { code });
        },
    };

    let queue = match exec::create_queue(&context) {
        Ok(queue) => queue,
        Err(e) => {
            return Err(e);
        },
    };

    Ok((context, queue))
}

} // verus!
