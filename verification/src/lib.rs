//! Orchestration of an elementwise vector addition on an OpenCL accelerator.
//!
//! The library verifies the host-side logic: device enumeration and context
//! binding, the kernel-artifact cache (prefer a prebuilt binary, fall back
//! to source compilation, persist the rebuilt binary), dispatch geometry,
//! the dependency-ordered submission plan for the write/execute/read
//! operation graph, and the host-only fallback computation. The unsafe FFI
//! submissions themselves (buffer creation, argument binding, enqueues) are
//! performed by the embedding program, driven by the verified protocol in
//! `orchestrate`.

pub mod artifact;
pub mod buffer;
pub mod cl;
pub mod errors;
pub mod exec;
pub mod orchestrate;
pub mod setup;
pub mod traits;

use vstd::prelude::*;
use vstd::string::StringExecFns;

use crate::errors::BinaryLoadFailure;
use crate::errors::DeviceError;
use crate::traits::HasOpenclString;
use crate::traits::OpenclNum;

verus! {

/// Whether a string holds no NUL character. The platform layer hands
/// strings to a C API as null-terminated, so an interior NUL cannot be
/// carried through.
pub open spec fn nul_free(s: Seq<char>) -> bool {
    forall|i: int| 0 <= i < s.len() ==> s[i] != '\0'
}

/// The build options for a given device-side element-type name: the fixed
/// option prefix with the type substituted as a compile-time macro, so a
/// built artifact is valid for exactly that element type.
pub open spec fn spec_build_options(device_name: Seq<char>) -> Seq<char> {
    "-cl-std=CL3.0 -w -D ARRAY_TYPE="@ + device_name
}

/// Assembles the build options embedding the given device-side element-type
/// name as the array-type macro.
pub fn build_options(device_name: &str) -> (r: String)
    ensures
        r@ == spec_build_options(device_name@),
        nul_free(device_name@) ==> nul_free(r@),
{
    let mut options: String = "-cl-std=CL3.0 -w -D ARRAY_TYPE=".to_owned();
    options.append(device_name);
    proof {
        reveal_strlit("-cl-std=CL3.0 -w -D ARRAY_TYPE=");
        if nul_free(device_name@) {
            assert forall|i: int| 0 <= i < options@.len() implies options@[i] != '\0' by {
                if i < "-cl-std=CL3.0 -w -D ARRAY_TYPE="@.len() {
                    assert(options@[i] == "-cl-std=CL3.0 -w -D ARRAY_TYPE="@[i]);
                } else {
                    assert(options@[i] == device_name@[
                        i - "-cl-std=CL3.0 -w -D ARRAY_TYPE="@.len()]);
                }
            }
        }
    }
    options
}

/// The first of the built program's binaries, to be persisted as the cached
/// artifact; an empty set of binaries yields nothing to persist.
pub fn first_binary(binaries: Vec<Vec<u8>>) -> (r: Option<Vec<u8>>)
    ensures
        binaries@.len() == 0 ==> r is None,
        binaries@.len() > 0 ==> r == Some(binaries@[0]),
{
    let mut binaries = binaries;
    if binaries.len() == 0 {
        None
    } else {
        Some(binaries.remove(0))
    }
}

/// Extracts the compiled binary of a freshly built program so the embedding
/// program can persist it. Failure here is non-fatal to the device path:
/// the in-memory program stays usable and the caller only loses the cache.
pub fn create_binary(program: &opencl3::program::Program) -> (r: Option<Vec<u8>>) {
    match cl::cl_program_binaries(program) {
        Ok(binaries) => first_binary(binaries),
        Err(_) => None,
    }
}

/// The second strategy of the artifact cache: compiles the program from
/// source and extracts its binary for persistence. A compile failure is a
/// `BuildError` carrying the binary-load failure that led here beside the
/// compiler's log.
fn compile_source(
    context: &opencl3::context::Context,
    source: &str,
    options: &str,
    binary_failure: BinaryLoadFailure,
) -> (r: Result<(opencl3::program::Program, Option<Vec<u8>>), DeviceError>)
    requires
        nul_free(options@),
    ensures
        r matches Err(e) ==> e matches DeviceError::BuildError { binary: cause, .. }
            && cause == binary_failure,
{
    match cl::cl_program_from_source(context, source, options) {
        Ok(p) => {
            let rebuilt = create_binary(&p);
            Ok((p, rebuilt))
        },
        Err(source_log) => Err(DeviceError::BuildError { binary: binary_failure, source_log }),
    }
}

/// Builds the vector-addition kernel for element type `T` from the cached
/// binary artifact if one could be read and the device accepts it, else by
/// compiling `source`; a program rebuilt from source is returned beside the
/// kernel as bytes to persist for the next run. The caller keys the cached
/// artifact by element type: a binary built for one element type or device
/// must not be offered for another.
///
/// On success the kernel is the `addVectors` entry point of the built
/// program, with no arguments bound yet. A `BuildError` reports the binary
/// artifact as unavailable exactly when none was given.
pub fn prepare_kernel_for_vecadd<T: OpenclNum + HasOpenclString>(
    context: &opencl3::context::Context,
    source: &str,
    binary: Option<&Vec<u8>>,
) -> (r: Result<(opencl3::kernel::Kernel, Option<Vec<u8>>), DeviceError>)
    ensures
        r matches Err(e) ==> {
            ||| (e matches DeviceError::BuildError { binary: cause, .. }
                && (cause == BinaryLoadFailure::ArtifactUnavailable <==> binary is None))
            ||| e matches DeviceError::KernelLookupError { .. }
        },
{
    let elem_name = T::as_opencl_string();
    let options = build_options(elem_name);

    let (program, rebuilt) = match binary {
        Some(blob) => {
            match cl::cl_program_from_binary(context, blob, options.as_str()) {
                Ok(p) => (p, None),
                Err(code) => {
                    match compile_source(
                        context,
                        source,
                        options.as_str(),
                        BinaryLoadFailure::Rejected { code },
                    ) {
                        Ok(built) => built,
                        Err(e) => {
                            return Err(e);
                        },
                    }
                },
            }
        },
        None => {
            match compile_source(
                context,
                source,
                options.as_str(),
                BinaryLoadFailure::ArtifactUnavailable,
            ) {
                Ok(built) => built,
                Err(e) => {
                    return Err(e);
                },
            }
        },
    };

    let entry_point = "addVectors";
    proof {
        reveal_strlit("addVectors");
        assert(forall|i: int| 0 <= i < entry_point@.len() ==> entry_point@[i] != '\0');
    }
    match cl::cl_kernel_create(&program, entry_point) {
        Ok(kernel) => Ok((kernel, rebuilt)),
        Err(code) => Err(DeviceError::KernelLookupError { code }),
    }
}

/// Whether `c` is the elementwise sum of `a` and `b`, truncated to the
/// shorter input.
pub open spec fn is_elementwise_sum(a: Seq<i32>, b: Seq<i32>, c: Seq<i32>) -> bool {
    &&& c.len() == vstd::math::min(a.len() as int, b.len() as int)
    &&& forall|i: int| 0 <= i < c.len() ==> c[i] == a[i] + b[i]
}

/// The host-only fallback: the elementwise sum of the two inputs, truncated
/// to the shorter one. It has no device dependency and cannot fail except
/// on allocation exhaustion, which aborts rather than erring.
pub fn vecadd_cpu(a: &Vec<i32>, b: &Vec<i32>) -> (r: Result<Vec<i32>, String>)
    requires
        forall|i: int| 0 <= i < vstd::math::min(a@.len() as int, b@.len() as int)
            ==> i32::MIN <= #[trigger] (a@[i] + b@[i]) <= i32::MAX,
    ensures
        r matches Ok(c) && is_elementwise_sum(a@, b@, c@),
{
    let size = if a.len() <= b.len() {
        a.len()
    } else {
        b.len()
    };
    let mut c: Vec<i32> = Vec::new();
    let mut i: usize = 0;
    while i < size
        invariant
            i <= size,
            size == vstd::math::min(a@.len() as int, b@.len() as int),
            c@.len() == i,
            forall|j: int| 0 <= j < i ==> c@[j] == a@[j] + b@[j],
            forall|j: int| 0 <= j < size ==> i32::MIN <= #[trigger] (a@[j] + b@[j]) <= i32::MAX,
        decreases size - i,
    {
        c.push(a[i] + b[i]);
        i += 1;
    }
    Ok(c)
}

/// Two runs of the host fallback on the same inputs give the same output:
/// the elementwise sum of two sequences is unique.
pub proof fn lemma_elementwise_sum_unique(a: Seq<i32>, b: Seq<i32>, c1: Seq<i32>, c2: Seq<i32>)
    requires
        is_elementwise_sum(a, b, c1),
        is_elementwise_sum(a, b, c2),
    ensures
        c1 == c2,
{
    assert(c1 =~= c2);
}

/// The top-level recovery policy: a device-path result is delivered as it
/// is, and any device-path failure is recovered by the host fallback over
/// the same inputs, so the caller never observes a device failure.
pub fn recover_with_host(
    a: &Vec<i32>,
    b: &Vec<i32>,
    device_result: Result<Vec<i32>, DeviceError>,
) -> (r: Result<Vec<i32>, String>)
    requires
        forall|i: int| 0 <= i < vstd::math::min(a@.len() as int, b@.len() as int)
            ==> i32::MIN <= #[trigger] (a@[i] + b@[i]) <= i32::MAX,
    ensures
        device_result matches Ok(c) ==> r == Ok::<Vec<i32>, String>(c),
        device_result is Err ==> (r matches Ok(c) && is_elementwise_sum(a@, b@, c@)),
{
    match device_result {
        Ok(c) => Ok(c),
        Err(_) => vecadd_cpu(a, b),
    }
}

} // verus!
