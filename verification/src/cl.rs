//! Trusted boundary to the OpenCL bindings.
//!
//! Each wrapper here makes exactly one call into `opencl3` and converts its
//! error to a plain status code. The handles (platform, device, context,
//! queue, program, kernel) are opaque to verified code: nothing is assumed
//! of what a call returns beyond its type, since every outcome depends on
//! the machine's drivers and devices. The verified callers state what holds
//! whatever came back.

use vstd::prelude::*;

verus! {

#[verifier::external_type_specification]
#[verifier::external_body]
pub struct ExPlatform(opencl3::platform::Platform);

#[verifier::external_type_specification]
#[verifier::external_body]
pub struct ExDevice(opencl3::device::Device);

#[verifier::external_type_specification]
#[verifier::external_body]
pub struct ExContext(opencl3::context::Context);

#[verifier::external_type_specification]
#[verifier::external_body]
pub struct ExCommandQueue(opencl3::command_queue::CommandQueue);

#[verifier::external_type_specification]
#[verifier::external_body]
pub struct ExProgram(opencl3::program::Program);

#[verifier::external_type_specification]
#[verifier::external_body]
pub struct ExKernel(opencl3::kernel::Kernel);

/// Relies on `opencl3::platform::get_platforms`: enumerates the available
/// OpenCL platforms; which (and whether it errs) depends on the machine.
#[verifier::external_body]
pub(crate) fn cl_get_platforms() -> (r: Result<Vec<opencl3::platform::Platform>, i32>) {
    opencl3::platform::get_platforms().map_err(|e| e.0)
}

/// Relies on `opencl3::platform::Platform::get_devices`: queries the ids of
/// the platform's devices of the given class; each id is wrapped as a
/// `Device` handle by `opencl3::device::Device::new`.
#[verifier::external_body]
pub(crate) fn cl_platform_devices(
    platform: &opencl3::platform::Platform,
    device_type: u64,
) -> (r: Result<Vec<opencl3::device::Device>, i32>) {
    match platform.get_devices(device_type) {
        Ok(ids) => Ok(ids.into_iter().map(opencl3::device::Device::new).collect()),
        Err(e) => Err(e.0),
    }
}

/// Relies on `opencl3::context::Context::from_device`: creates a context
/// bound to exactly that device.
#[verifier::external_body]
pub(crate) fn cl_context_from_device(
    device: &opencl3::device::Device,
) -> (r: Result<opencl3::context::Context, i32>) {
    opencl3::context::Context::from_device(device).map_err(|e| e.0)
}

/// Relies on `opencl3::command_queue::CommandQueue::create_default_with_properties`:
/// creates a command queue with the given property bits on the context's
/// default device (the single device the context was created from).
#[verifier::external_body]
pub(crate) fn cl_create_queue_with_properties(
    context: &opencl3::context::Context,
    properties: u64,
    queue_size: u32,
) -> (r: Result<opencl3::command_queue::CommandQueue, i32>) {
    opencl3::command_queue::CommandQueue::create_default_with_properties(
        context,
        properties,
        queue_size,
    ).map_err(|e| e.0)
}

/// Relies on `opencl3::program::Program::create_and_build_from_source`:
/// compiles and builds device source text; on failure the error holds the
/// error-code name or the build log. `Program::build` panics on options
/// holding a NUL character, so such options are excluded; source text is
/// passed by length and carries any bytes.
#[verifier::external_body]
pub(crate) fn cl_program_from_source(
    context: &opencl3::context::Context,
    source: &str,
    options: &str,
) -> (r: Result<opencl3::program::Program, String>)
    requires
        crate::nul_free(options@),
{
    opencl3::program::Program::create_and_build_from_source(context, source, options)
}

/// Relies on `opencl3::program::Program::create_and_build_from_binary`:
/// builds a program from one prebuilt binary for the context's devices; the
/// device may reject an incompatible binary with an error code.
/// `Program::build` panics on options holding a NUL character, so such
/// options are excluded.
#[verifier::external_body]
pub(crate) fn cl_program_from_binary(
    context: &opencl3::context::Context,
    binary: &Vec<u8>,
    options: &str,
) -> (r: Result<opencl3::program::Program, i32>)
    requires
        crate::nul_free(options@),
{
    opencl3::program::Program::create_and_build_from_binary(
        context,
        &[binary.as_slice()],
        options,
    ).map_err(|e| e.0)
}

/// Relies on `opencl3::program::Program::get_binaries`: returns the compiled
/// binary of the program for each device it was built for.
#[verifier::external_body]
pub(crate) fn cl_program_binaries(
    program: &opencl3::program::Program,
) -> (r: Result<Vec<Vec<u8>>, i32>) {
    program.get_binaries().map_err(|e| e.0)
}

/// Relies on `opencl3::kernel::Kernel::create`: looks the named entry point
/// up in the built program. `Kernel::create` panics on a name holding a NUL
/// character, so such names are excluded here.
#[verifier::external_body]
pub(crate) fn cl_kernel_create(
    program: &opencl3::program::Program,
    name: &str,
) -> (r: Result<opencl3::kernel::Kernel, i32>)
    requires
        forall|i: int| 0 <= i < name@.len() ==> name@[i] != '\0',
{
    opencl3::kernel::Kernel::create(program, name).map_err(|e| e.0)
}

/// Relies on `opencl3::command_queue::CommandQueue::finish`: blocks until
/// every operation submitted to the queue has completed.
#[verifier::external_body]
pub(crate) fn cl_queue_finish(
    queue: &opencl3::command_queue::CommandQueue,
) -> (r: Result<(), i32>) {
    queue.finish().map_err(|e| e.0)
}

} // verus!
