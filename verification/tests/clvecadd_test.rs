use clvecadd::artifact::ArtifactCache;
use clvecadd::artifact::Provenance;
use clvecadd::buffer::MemMode;
use clvecadd::errors::DeviceError;
use clvecadd::errors::Stage;
use clvecadd::errors::TransferDirection;
use clvecadd::exec::check_arg_binding;
use clvecadd::exec::get_global_work_size;
use clvecadd::orchestrate::advance;
use clvecadd::orchestrate::common_size;
use clvecadd::orchestrate::next_action;
use clvecadd::orchestrate::vecadd_plan;
use clvecadd::orchestrate::zeroed_output;
use clvecadd::orchestrate::DeviceAction;
use clvecadd::orchestrate::OpKind;
use clvecadd::orchestrate::Phase;
use clvecadd::setup::collect_devices;
use clvecadd::setup::get_context_for_device;
use clvecadd::setup::DeviceType;
use clvecadd::traits::ElemType;
use clvecadd::traits::HasOpenclString;
use clvecadd::build_options;
use clvecadd::first_binary;
use clvecadd::recover_with_host;
use clvecadd::vecadd_cpu;

#[test]
fn perform_vecadd_on_cpu() -> Result<(), String> {
    let a: Vec<i32> = vec![1, 2, 3, 4, 5];
    let b: Vec<i32> = vec![6, 7, 8, 9, 10, 11];
    let desired_outcome: Vec<i32> = vec![7, 9, 11, 13, 15];

    match vecadd_cpu(&a, &b) {
        Ok(c) => {
            assert_eq!(c, desired_outcome);
            Ok(())
        }
        Err(error) => Err(error),
    }
}

#[test]
fn vecadd_cpu_equal_lengths() {
    let a: Vec<i32> = vec![1, 2, 3, -4, 0];
    let b: Vec<i32> = vec![10, 20, 30, 40, -50];
    let c = vecadd_cpu(&a, &b).unwrap();
    assert_eq!(c, vec![11, 22, 33, 36, -50]);
}

#[test]
fn vecadd_cpu_truncates_to_shorter() {
    let a: Vec<i32> = vec![1, 2, 3, 4, 5];
    let b: Vec<i32> = vec![6, 7, 8, 9, 10, 11];
    assert_eq!(vecadd_cpu(&a, &b).unwrap(), vec![7, 9, 11, 13, 15]);
    assert_eq!(vecadd_cpu(&b, &a).unwrap(), vec![7, 9, 11, 13, 15]);
}

#[test]
fn vecadd_cpu_twice_gives_same_result() {
    let a: Vec<i32> = vec![5, -3, 7];
    let b: Vec<i32> = vec![1, 1, 1];
    let first = vecadd_cpu(&a, &b).unwrap();
    let second = vecadd_cpu(&a, &b).unwrap();
    assert_eq!(first, second);
}

#[test]
fn work_size_rounds_up_to_group_multiple() {
    assert_eq!(get_global_work_size(256, 5), 256);
    assert_eq!(get_global_work_size(256, 256), 256);
    assert_eq!(get_global_work_size(256, 257), 512);
    assert_eq!(get_global_work_size(256, 0), 0);
    assert_eq!(get_global_work_size(7, 13), 14);
    assert_eq!(get_global_work_size(1, 9), 9);
}

#[test]
fn device_index_out_of_range_is_index_error() {
    let devices: Vec<opencl3::device::Device> = Vec::new();
    match get_context_for_device(devices, 3) {
        Err(DeviceError::IndexError { requested, available }) => {
            assert_eq!(requested, 3);
            assert_eq!(available, 0);
        }
        _ => panic!("expected an index error"),
    }
}

#[test]
fn index_error_message_names_index_and_count() {
    let e = DeviceError::IndexError { requested: 3, available: 0 };
    assert_eq!(e.message(), "requesting device number 3, but only 0 exist");
    assert_eq!(e.stage(), Stage::DeviceSelection);
}

#[test]
fn empty_device_query_is_valid_not_an_error() {
    let mut devices: Vec<opencl3::device::Device> = Vec::new();
    let outcome: Result<Vec<opencl3::device::Device>, i32> = Ok(Vec::new());
    assert!(collect_devices(outcome, &mut devices).is_ok());
    assert_eq!(devices.len(), 0);

    let failed: Result<Vec<opencl3::device::Device>, i32> = Err(-30);
    match collect_devices(failed, &mut devices) {
        Err(DeviceError::EnumerationError { code }) => assert_eq!(code, -30),
        _ => panic!("expected an enumeration error"),
    }
}

#[test]
fn empty_enumeration_folds_to_a_valid_empty_directory() {
    let outcomes: Vec<Result<Vec<opencl3::device::Device>, i32>> =
        vec![Ok(Vec::new()), Ok(Vec::new()), Ok(Vec::new())];
    let devices = clvecadd::setup::gather_devices(outcomes).unwrap();
    assert_eq!(devices.len(), 0);
    let no_platforms: Vec<Result<Vec<opencl3::device::Device>, i32>> = Vec::new();
    assert_eq!(clvecadd::setup::gather_devices(no_platforms).unwrap().len(), 0);
}

#[test]
fn enumeration_fault_is_reported_from_the_fold() {
    let outcomes: Vec<Result<Vec<opencl3::device::Device>, i32>> =
        vec![Ok(Vec::new()), Err(-32), Err(-1)];
    match clvecadd::setup::gather_devices(outcomes) {
        Err(DeviceError::EnumerationError { code }) => assert_eq!(code, -32),
        _ => panic!("expected an enumeration error"),
    }
}

#[test]
fn enumeration_returns_without_panicking() {
    match clvecadd::setup::get_all_gpus() {
        Ok(devices) => {
            let _ = devices.len();
        }
        Err(e) => match e {
            DeviceError::EnumerationError { .. } => {}
            _ => panic!("enumeration may only fail with an enumeration error"),
        },
    }
}

#[test]
fn artifact_round_trip_reuses_the_persisted_binary() {
    let mut cache = ArtifactCache::empty();
    let first = cache.load_or_build(7, 42, ElemType::I32);
    assert_eq!(first, Provenance { source_id: 42, elem: ElemType::I32 });
    let second = cache.load_or_build(7, 42, ElemType::I32);
    assert_eq!(second, first);
}

#[test]
fn artifact_cache_never_reuses_across_type_or_device() {
    let mut cache = ArtifactCache::empty();
    let for_int = cache.load_or_build(7, 42, ElemType::I32);
    let for_long = cache.load_or_build(7, 42, ElemType::I64);
    assert_eq!(for_long, Provenance { source_id: 42, elem: ElemType::I64 });
    assert_ne!(for_long.elem, for_int.elem);
    let other_device = cache.load_or_build(8, 99, ElemType::I64);
    assert_eq!(other_device, Provenance { source_id: 99, elem: ElemType::I64 });
}

#[test]
fn build_options_embed_the_element_type_macro() {
    assert_eq!(
        build_options(ElemType::I32.device_name()),
        "-cl-std=CL3.0 -w -D ARRAY_TYPE=int"
    );
    assert_eq!(
        build_options(<u16 as HasOpenclString>::as_opencl_string()),
        "-cl-std=CL3.0 -w -D ARRAY_TYPE=ushort"
    );
}

#[test]
fn every_element_type_has_its_canonical_spelling() {
    assert_eq!(<i8 as HasOpenclString>::as_opencl_string(), "char");
    assert_eq!(<i16 as HasOpenclString>::as_opencl_string(), "short");
    assert_eq!(<i32 as HasOpenclString>::as_opencl_string(), "int");
    assert_eq!(<i64 as HasOpenclString>::as_opencl_string(), "long");
    assert_eq!(<u8 as HasOpenclString>::as_opencl_string(), "uchar");
    assert_eq!(<u16 as HasOpenclString>::as_opencl_string(), "ushort");
    assert_eq!(<u32 as HasOpenclString>::as_opencl_string(), "uint");
    assert_eq!(<u64 as HasOpenclString>::as_opencl_string(), "ulong");
    assert_eq!(<bool as HasOpenclString>::as_opencl_string(), "bool");
    assert_eq!(<char as HasOpenclString>::as_opencl_string(), "char");
    assert_eq!(ElemType::F16.device_name(), "half");
    assert_eq!(ElemType::F32.device_name(), "float");
    assert_eq!(ElemType::F64.device_name(), "double");
}

#[test]
fn mem_modes_carry_the_host_pointer_flag() {
    assert_eq!(MemMode::Read.allocation_flags(), (1 << 2) | (1 << 3));
    assert_eq!(MemMode::Write.allocation_flags(), (1 << 1) | (1 << 3));
    assert_eq!(MemMode::ReadWrite.allocation_flags(), (1 << 0) | (1 << 3));
}

#[test]
fn device_type_codes_match_the_platform_constants() {
    assert_eq!(DeviceType::All.code(), 0xFFFF_FFFF);
    assert_eq!(DeviceType::Gpu.code(), opencl3::device::CL_DEVICE_TYPE_GPU);
    assert_eq!(DeviceType::Acc.code(), opencl3::device::CL_DEVICE_TYPE_ACCELERATOR);
    assert_eq!(DeviceType::Cpu.code(), opencl3::device::CL_DEVICE_TYPE_CPU);
    assert_eq!(DeviceType::Custom.code(), opencl3::device::CL_DEVICE_TYPE_CUSTOM);
    assert_eq!(DeviceType::Default.code(), opencl3::device::CL_DEVICE_TYPE_DEFAULT);
}

#[test]
fn vecadd_plan_wires_the_event_graph() {
    let plan = vecadd_plan();
    assert_eq!(plan.len(), 4);
    assert_eq!(plan[0].kind, OpKind::WriteInputA);
    assert!(plan[0].waits.is_empty());
    assert_eq!(plan[1].kind, OpKind::WriteInputB);
    assert!(plan[1].waits.is_empty());
    assert_eq!(plan[2].kind, OpKind::ExecuteKernel);
    assert_eq!(plan[2].waits, vec![0, 1]);
    assert_eq!(plan[3].kind, OpKind::ReadOutput);
    assert_eq!(plan[3].waits, vec![2]);
}

#[test]
fn phases_progress_to_completion() {
    let mut phase = Phase::Init;
    assert_eq!(
        next_action(phase, 1000, 256),
        Some(DeviceAction::AllocateBuffers { size: 1000 })
    );
    phase = advance(phase, Ok(()));
    assert_eq!(phase, Phase::BuffersAllocated);
    assert_eq!(next_action(phase, 1000, 256), Some(DeviceAction::PrepareKernel));
    phase = advance(phase, Ok(()));
    assert_eq!(phase, Phase::KernelReady);
    assert_eq!(
        next_action(phase, 1000, 256),
        Some(DeviceAction::SubmitWritesAndDispatch { global_size: 1024, local_size: 256 })
    );
    phase = advance(phase, Ok(()));
    assert_eq!(phase, Phase::Dispatched);
    assert_eq!(next_action(phase, 1000, 256), Some(DeviceAction::SubmitReadAndDrain));
    phase = advance(phase, Ok(()));
    assert_eq!(phase, Phase::Completed);
    assert_eq!(next_action(phase, 1000, 256), None);
}

#[test]
fn any_failure_is_terminal() {
    let failed = advance(Phase::KernelReady, Err(Stage::Build));
    assert_eq!(failed, Phase::Failed(Stage::Build));
    assert_eq!(advance(failed, Ok(())), failed);
    assert_eq!(next_action(failed, 10, 256), None);
    assert_eq!(advance(Phase::Completed, Err(Stage::Finish)), Phase::Completed);
}

#[test]
fn arg_binding_reports_the_first_failure_one_based() {
    let all_good: Vec<Option<i32>> = vec![None, None, None, None];
    assert!(check_arg_binding(&all_good).is_ok());

    let outcomes: Vec<Option<i32>> = vec![None, Some(-49), None, Some(-50)];
    match check_arg_binding(&outcomes) {
        Err(DeviceError::ArgumentBindError { index, code }) => {
            assert_eq!(index, 2);
            assert_eq!(code, -49);
        }
        _ => panic!("expected an argument-bind error"),
    }
}

#[test]
fn messages_render_status_codes_in_decimal() {
    let e = DeviceError::FinishError { code: -36 };
    assert_eq!(e.message(), "cannot finish queue: -36");
    assert_eq!(e.stage(), Stage::Finish);
    let e = DeviceError::ArgumentBindError { index: 4, code: -51 };
    assert_eq!(e.message(), "error setting kernel argument 4: -51");
    let e = DeviceError::EnumerationError { code: 0 };
    assert_eq!(e.message(), "error enumerating devices: 0");
    let e = DeviceError::NoProgramError;
    assert_eq!(e.message(), "no programs built");
}

#[test]
fn kernel_lookup_on_empty_program_set() {
    let programs: Vec<opencl3::program::Program> = Vec::new();
    match clvecadd::exec::get_kernel(&programs, "addVectors") {
        Err(DeviceError::NoProgramError) => {}
        _ => panic!("expected a no-program error"),
    }
}

#[test]
fn decimal_rendering_is_exact() {
    assert_eq!(clvecadd::errors::usize_to_decimal(0), "0");
    assert_eq!(clvecadd::errors::usize_to_decimal(9), "9");
    assert_eq!(clvecadd::errors::usize_to_decimal(10), "10");
    assert_eq!(clvecadd::errors::usize_to_decimal(120406), "120406");
    assert_eq!(clvecadd::errors::code_to_decimal(-1001), "-1001");
    assert_eq!(clvecadd::errors::code_to_decimal(i32::MIN), "-2147483648");
}

#[test]
fn transfer_errors_name_their_direction() {
    let w = DeviceError::TransferError { direction: TransferDirection::HostToDevice, code: -5 };
    assert_eq!(w.message(), "error writing buffer: -5");
    assert_eq!(w.stage(), Stage::WriteSubmission);
    let r = DeviceError::TransferError { direction: TransferDirection::DeviceToHost, code: -5 };
    assert_eq!(r.message(), "error reading buffer: -5");
    assert_eq!(r.stage(), Stage::ReadSubmission);
}

#[test]
fn first_binary_takes_the_first_program() {
    assert_eq!(first_binary(Vec::new()), None);
    let bins: Vec<Vec<u8>> = vec![vec![1, 2, 3], vec![4]];
    assert_eq!(first_binary(bins), Some(vec![1, 2, 3]));
}

#[test]
fn transfer_byte_len_checks_for_overflow() {
    assert_eq!(clvecadd::buffer::transfer_byte_len(5, 4), Some(20));
    assert_eq!(clvecadd::buffer::transfer_byte_len(0, 8), Some(0));
    assert_eq!(clvecadd::buffer::transfer_byte_len(usize::MAX, 2), None);
}

#[test]
fn recovery_uses_the_host_path_only_on_device_failure() {
    let a: Vec<i32> = vec![1, 2, 3, 4, 5];
    let b: Vec<i32> = vec![6, 7, 8, 9, 10, 11];
    let failure = Err(DeviceError::DispatchError { code: -5 });
    assert_eq!(recover_with_host(&a, &b, failure).unwrap(), vec![7, 9, 11, 13, 15]);
    let device = Ok(vec![7, 9, 11, 13, 15]);
    assert_eq!(recover_with_host(&a, &b, device).unwrap(), vec![7, 9, 11, 13, 15]);
}

#[test]
fn sizing_helpers_follow_the_protocol() {
    assert_eq!(common_size(5, 6), 5);
    assert_eq!(common_size(6, 5), 5);
    assert_eq!(common_size(0, 9), 0);
    let out = zeroed_output(4);
    assert_eq!(out, vec![0, 0, 0, 0]);
}
