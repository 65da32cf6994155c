//! Command-queue creation, program building, and dispatch geometry.
//!
//! The queue is created with out-of-order execution and profiling enabled:
//! ordering between dependent operations is enforced exclusively through
//! explicit event waits, never through submission order. Programs are built
//! from artifact contents already in memory; reading artifact files is the
//! embedding program's concern.

use vstd::prelude::*;

use crate::cl;
use crate::errors::DeviceError;

verus! {

/// Queue property bits: out-of-order execution mode and profiling, the two
/// properties every queue of this library is created with.
pub open spec fn spec_queue_properties() -> u64 {
    (1u64 << 0) | (1u64 << 1)
}

/// Creates a command queue on the context's device with out-of-order
/// execution and profiling enabled.
pub fn create_queue(
    context: &opencl3::context::Context,
) -> (r: Result<opencl3::command_queue::CommandQueue, DeviceError>)
    ensures
        r matches Err(e) ==> e matches DeviceError::QueueCreationError { .. },
{
    let properties: u64 = (1u64 << 0) | (1u64 << 1);
    proof {
        assert(properties == spec_queue_properties());
    }
    match cl::cl_create_queue_with_properties(context, properties, 0) {
        Ok(queue) => Ok(queue),
        Err(code) => Err(DeviceError::QueueCreationError { code }),
    }
}

/// Compiles and builds one program per source text, in order. The first
/// failing build aborts with its build log; on success there are exactly as
/// many programs as sources.
pub fn create_and_build_from_sources(
    context: &opencl3::context::Context,
    sources: &Vec<String>,
    options: &str,
) -> (r: Result<Vec<opencl3::program::Program>, String>)
    requires
        crate::nul_free(options@),
    ensures
        r matches Ok(programs) ==> programs@.len() == sources@.len(),
        sources@.len() == 0 ==> r is Ok,
{
    let mut programs: Vec<opencl3::program::Program> = Vec::new();
    let mut i: usize = 0;
    while i < sources.len()
        invariant
            i <= sources.len(),
            programs@.len() == i,
            crate::nul_free(options@),
        decreases sources.len() - i,
    {
        match cl::cl_program_from_source(context, sources[i].as_str(), options) {
            Ok(program) => programs.push(program),
            Err(log) => {
                return Err(log);
            },
        }
        i += 1;
    }
    Ok(programs)
}

/// Builds one program per prebuilt binary blob, in order. The first binary
/// the device rejects aborts with its status code; on success there are
/// exactly as many programs as binaries.
pub fn create_and_build_from_binaries(
    context: &opencl3::context::Context,
    binaries: &Vec<Vec<u8>>,
    options: &str,
) -> (r: Result<Vec<opencl3::program::Program>, i32>)
    requires
        crate::nul_free(options@),
    ensures
        r matches Ok(programs) ==> programs@.len() == binaries@.len(),
        binaries@.len() == 0 ==> r is Ok,
{
    let mut programs: Vec<opencl3::program::Program> = Vec::new();
    let mut i: usize = 0;
    while i < binaries.len()
        invariant
            i <= binaries.len(),
            programs@.len() == i,
            crate::nul_free(options@),
        decreases binaries.len() - i,
    {
        match cl::cl_program_from_binary(context, &binaries[i], options) {
            Ok(program) => programs.push(program),
            Err(code) => {
                return Err(code);
            },
        }
        i += 1;
    }
    Ok(programs)
}

/// Looks the named entry point up in the first built program. An empty
/// program set is a `NoProgramError`; an absent entry point is a
/// `KernelLookupError`. Entry-point names holding a NUL character are
/// excluded: the underlying lookup cannot carry them.
pub fn get_kernel(
    programs: &Vec<opencl3::program::Program>,
    name: &str,
) -> (r: Result<opencl3::kernel::Kernel, DeviceError>)
    requires
        forall|i: int| 0 <= i < name@.len() ==> name@[i] != '\0',
    ensures
        programs@.len() == 0 <==> r == Err::<opencl3::kernel::Kernel, DeviceError>(
            DeviceError::NoProgramError,
        ),
        r matches Err(e) ==> {
            ||| (e == DeviceError::NoProgramError && programs@.len() == 0)
            ||| e matches DeviceError::KernelLookupError { .. }
        },
{
    if programs.len() == 0 {
        return Err(DeviceError::NoProgramError);
    }
    match cl::cl_kernel_create(&programs[0], name) {
        Ok(kernel) => Ok(kernel),
        Err(code) => Err(DeviceError::KernelLookupError { code }),
    }
}

/// Judges the outcomes of binding the kernel's positional arguments, in
/// binding order (`None` is a successful bind, `Some(code)` a failed one).
/// The binder stops at the first failure, which is reported with the
/// 1-based index of the failing argument.
pub fn check_arg_binding(outcomes: &Vec<Option<i32>>) -> (r: Result<(), DeviceError>)
    requires
        outcomes@.len() < u32::MAX,
    ensures
        r is Ok <==> (forall|i: int| 0 <= i < outcomes@.len() ==> outcomes@[i] is None),
        r matches Err(e) ==> exists|i: int|
            {
                &&& 0 <= i < outcomes@.len()
                &&& #[trigger] outcomes@[i] matches Some(code) && e == (
                DeviceError::ArgumentBindError { index: (i + 1) as u32, code })
                &&& forall|j: int| 0 <= j < i ==> outcomes@[j] is None
            },
{
    let mut i: usize = 0;
    while i < outcomes.len()
        invariant
            i <= outcomes@.len(),
            outcomes@.len() < u32::MAX,
            forall|j: int| 0 <= j < i ==> outcomes@[j] is None,
        decreases outcomes@.len() - i,
    {
        match outcomes[i] {
            Some(code) => {
                return Err(DeviceError::ArgumentBindError { index: (i + 1) as u32, code });
            },
            None => {},
        }
        i += 1;
    }
    Ok(())
}

/// The global work size for `elements` work items in groups of `local`:
/// `elements` rounded up to the next multiple of `local`.
pub open spec fn spec_work_size(local: int, elements: int) -> int {
    ((elements + local - 1) / local) * local
}

/// The least multiple of `local` that is at least `elements`.
pub fn get_global_work_size(local: usize, elements: usize) -> (r: usize)
    requires
        local > 0,
        elements + local - 1 <= usize::MAX,
    ensures
        r == spec_work_size(local as int, elements as int),
        r % local == 0,
        elements <= r < elements + local,
{
    proof {
        lemma_work_size_bounds(local as int, elements as int);
    }
    let mult = (elements + (local - 1)) / local;
    mult * local
}

/// The rounded-up size is a multiple of `local` and lies within one group
/// of the true element count; rounding zero elements gives zero.
pub proof fn lemma_work_size_bounds(local: int, elements: int)
    requires
        local > 0,
        elements >= 0,
    ensures
        spec_work_size(local, elements) % local == 0,
        elements <= spec_work_size(local, elements) < elements + local,
        elements == 0 ==> spec_work_size(local, elements) == 0,
        forall|k: int| #[trigger] (k % local) == 0 && k >= elements
            ==> k >= spec_work_size(local, elements),
    decreases 0int,
{
    let m = (elements + local - 1) / local;
    vstd::arithmetic::div_mod::lemma_fundamental_div_mod(elements + local - 1, local);
    if elements == 0 {
        assert(m == 0) by (nonlinear_arith)
            requires
                local > 0,
                local - 1 == local * m + (local - 1) % local,
                0 <= (local - 1) % local < local,
        ;
    }
    assert(m * local % local == 0) by (nonlinear_arith)
        requires local > 0,
    ;
    assert(elements <= m * local < elements + local) by (nonlinear_arith)
        requires
            local > 0,
            elements >= 0,
            elements + local - 1 == local * m + (elements + local - 1) % local,
            0 <= (elements + local - 1) % local < local,
    ;
    let ws = spec_work_size(local, elements);
    assert forall|k: int| #[trigger] (k % local) == 0 && k >= elements implies k >= ws by {
        if k < ws {
            vstd::arithmetic::div_mod::lemma_fundamental_div_mod(k, local);
            vstd::arithmetic::div_mod::lemma_fundamental_div_mod(ws, local);
            assert(false) by (nonlinear_arith)
                requires
                    local > 0,
                    k == local * (k / local) + k % local,
                    ws == local * (ws / local) + ws % local,
                    k % local == 0,
                    ws % local == 0,
                    elements <= k < ws,
                    ws < elements + local,
            ;
        }
    }
}

} // verus!
