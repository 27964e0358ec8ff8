use chihuahua::error::HostProvisioningError;
use chihuahua::hps::{DataSourceMetadata, HostProvisioningState};
use chihuahua::lifecycle::LifecycleState;
use chihuahua::wasm::{
    DecodeOutcome, ExecutionOutcome, ExportDescriptor, ExternValDescriptor, FuncSignature,
    HostCallRequest, ImportDescriptor, RuntimeValue, ValueType, WasmModule,
};

fn i32_signature(param_count: usize) -> FuncSignature {
    FuncSignature {
        params: vec![ValueType::I32; param_count],
        return_type: Some(ValueType::I32),
    }
}

fn main_export() -> ExportDescriptor {
    ExportDescriptor {
        field_name: String::from("main"),
        value: ExternValDescriptor::Func(i32_signature(0)),
    }
}

fn memory_export(size: usize) -> ExportDescriptor {
    ExportDescriptor {
        field_name: String::from("memory"),
        value: ExternValDescriptor::Memory(vec![0u8; size]),
    }
}

fn module_with_trace(host_calls: Vec<HostCallRequest>, outcome: ExecutionOutcome) -> WasmModule {
    WasmModule {
        declares_start: false,
        imports: Vec::new(),
        exports: vec![main_export(), memory_export(64)],
        host_calls,
        outcome,
    }
}

fn trivial_module() -> WasmModule {
    module_with_trace(Vec::new(), ExecutionOutcome::Returns(Some(RuntimeValue::I32(0))))
}

#[test]
fn fresh_state_is_initial_and_empty() {
    let state = HostProvisioningState::new();
    assert_eq!(state.get_lifecycle_state(), LifecycleState::Initial);
    assert!(!state.is_program_registered());
    assert!(!state.is_memory_registered());
    assert!(!state.is_result_registered());
    assert_eq!(state.get_current_data_source_count(), 0);
    assert_eq!(state.get_result(), None);
    assert_eq!(state.get_program_digest(), None);
    assert_eq!(state.get_expected_data_sources(), Vec::<u64>::new());
    assert_eq!(state.get_expected_shutdown_sources(), Vec::<u64>::new());
}

#[test]
fn load_program_with_no_expected_sources_is_ready_to_execute() {
    let mut state = HostProvisioningState::new();
    let r = state.load_program(b"image", DecodeOutcome::Decoded(trivial_module()));
    assert!(r.is_ok());
    assert_eq!(state.get_lifecycle_state(), LifecycleState::ReadyToExecute);
}

#[test]
fn load_program_with_expected_sources_is_data_sources_loading() {
    let mut state = HostProvisioningState::new();
    state.set_expected_data_sources(&[13, 44]);
    assert_eq!(state.get_expected_data_sources(), vec![13, 44]);
    let r = state.load_program(b"image", DecodeOutcome::Decoded(trivial_module()));
    assert!(r.is_ok());
    assert_eq!(state.get_lifecycle_state(), LifecycleState::DataSourcesLoading);
}

#[test]
fn program_memory_and_digest_are_registered_together() {
    let mut state = HostProvisioningState::new();
    assert_eq!(state.is_program_registered(), state.is_memory_registered());
    assert_eq!(state.is_program_registered(), state.get_program_digest().is_some());
    state.load_program(b"image", DecodeOutcome::Decoded(trivial_module())).unwrap();
    assert!(state.is_program_registered());
    assert!(state.is_memory_registered());
    assert!(state.get_program_digest().is_some());
}

#[test]
fn program_digest_is_sha256_of_the_image() {
    let image: &[u8] = b"a small program image";
    let mut state = HostProvisioningState::new();
    state.load_program(image, DecodeOutcome::Decoded(trivial_module())).unwrap();
    let expected = ring::digest::digest(&ring::digest::SHA256, image);
    assert_eq!(state.get_program_digest().unwrap(), expected.as_ref().to_vec());
}

#[test]
fn load_program_twice_is_a_lifecycle_error() {
    let mut state = HostProvisioningState::new();
    state.load_program(b"image", DecodeOutcome::Decoded(trivial_module())).unwrap();
    let r = state.load_program(b"image", DecodeOutcome::Decoded(trivial_module()));
    assert_eq!(
        r,
        Err(HostProvisioningError::InvalidLifeCycleState {
            expected: LifecycleState::Initial,
            found: LifecycleState::ReadyToExecute,
        })
    );
    assert_eq!(state.get_lifecycle_state(), LifecycleState::Error);
}

#[test]
fn rejected_image_is_an_invalid_module() {
    let mut state = HostProvisioningState::new();
    let r = state.load_program(b"not wasm", DecodeOutcome::Rejected);
    assert_eq!(r, Err(HostProvisioningError::InvalidWASMModule));
    assert_eq!(state.get_lifecycle_state(), LifecycleState::Error);
}

#[test]
fn start_function_is_rejected() {
    let mut state = HostProvisioningState::new();
    let mut module = trivial_module();
    module.declares_start = true;
    let r = state.load_program(b"image", DecodeOutcome::Decoded(module));
    assert_eq!(r, Err(HostProvisioningError::InvalidWASMModule));
    assert_eq!(state.get_lifecycle_state(), LifecycleState::Error);
}

#[test]
fn module_without_linear_memory_is_rejected() {
    let mut state = HostProvisioningState::new();
    let module = WasmModule {
        declares_start: false,
        imports: Vec::new(),
        exports: vec![main_export()],
        host_calls: Vec::new(),
        outcome: ExecutionOutcome::Returns(Some(RuntimeValue::I32(0))),
    };
    let r = state.load_program(b"image", DecodeOutcome::Decoded(module));
    assert_eq!(r, Err(HostProvisioningError::NoLinearMemoryFound));
    assert_eq!(state.get_lifecycle_state(), LifecycleState::Error);
}

#[test]
fn unresolvable_import_is_an_instantiation_failure() {
    let mut state = HostProvisioningState::new();
    let mut module = trivial_module();
    module.imports.push(ImportDescriptor::Func {
        field_name: String::from("not_a_host_call"),
        signature: i32_signature(1),
    });
    let r = state.load_program(b"image", DecodeOutcome::Decoded(module));
    assert_eq!(r, Err(HostProvisioningError::ModuleInstantiationFailure));
    assert_eq!(state.get_lifecycle_state(), LifecycleState::Error);
}

#[test]
fn global_import_is_an_instantiation_failure() {
    let mut state = HostProvisioningState::new();
    let mut module = trivial_module();
    module.imports.push(ImportDescriptor::Global { field_name: String::from("g") });
    let r = state.load_program(b"image", DecodeOutcome::Decoded(module));
    assert_eq!(r, Err(HostProvisioningError::ModuleInstantiationFailure));
    assert_eq!(state.get_lifecycle_state(), LifecycleState::Error);
}

#[test]
fn well_imported_host_calls_instantiate() {
    let mut state = HostProvisioningState::new();
    let mut module = trivial_module();
    module.imports.push(ImportDescriptor::Func {
        field_name: String::from("__veracruz_hcall_input_count"),
        signature: i32_signature(1),
    });
    module.imports.push(ImportDescriptor::Func {
        field_name: String::from("__veracruz_hcall_write_output"),
        signature: i32_signature(2),
    });
    assert!(state.load_program(b"image", DecodeOutcome::Decoded(module)).is_ok());
}

#[test]
fn data_sources_arrive_in_order_until_ready() {
    let mut state = HostProvisioningState::new();
    state.set_expected_data_sources(&[7, 8]);
    state.load_program(b"image", DecodeOutcome::Decoded(trivial_module())).unwrap();
    let r = state.add_new_data_source(DataSourceMetadata { client_id: 7, data: vec![1, 2] });
    assert!(r.is_ok());
    assert_eq!(state.get_current_data_source_count(), 1);
    assert_eq!(state.get_lifecycle_state(), LifecycleState::DataSourcesLoading);
    let r = state.add_new_data_source(DataSourceMetadata { client_id: 8, data: vec![3] });
    assert!(r.is_ok());
    assert_eq!(state.get_current_data_source_count(), 2);
    assert_eq!(state.get_lifecycle_state(), LifecycleState::ReadyToExecute);
}

#[test]
fn add_data_source_outside_loading_is_a_lifecycle_error() {
    let mut state = HostProvisioningState::new();
    let r = state.add_new_data_source(DataSourceMetadata { client_id: 1, data: vec![9] });
    assert_eq!(
        r,
        Err(HostProvisioningError::InvalidLifeCycleState {
            expected: LifecycleState::DataSourcesLoading,
            found: LifecycleState::Initial,
        })
    );
    assert_eq!(state.get_lifecycle_state(), LifecycleState::Error);
}

#[test]
fn set_expected_data_sources_outside_initial_is_fatal() {
    let mut state = HostProvisioningState::new();
    state.load_program(b"image", DecodeOutcome::Decoded(trivial_module())).unwrap();
    state.set_expected_data_sources(&[1]);
    assert_eq!(state.get_lifecycle_state(), LifecycleState::Error);
}

#[test]
fn error_state_is_never_left() {
    let mut state = HostProvisioningState::new();
    state.invalidate();
    assert_eq!(state.get_lifecycle_state(), LifecycleState::Error);
    let r = state.load_program(b"image", DecodeOutcome::Decoded(trivial_module()));
    assert!(r.is_err());
    assert_eq!(state.get_lifecycle_state(), LifecycleState::Error);
    let r = state.add_new_data_source(DataSourceMetadata { client_id: 1, data: vec![1] });
    assert!(r.is_err());
    assert_eq!(state.get_lifecycle_state(), LifecycleState::Error);
    let r = state.invoke_entry_point();
    assert!(r.is_err());
    assert_eq!(state.get_lifecycle_state(), LifecycleState::Error);
    state.set_expected_data_sources(&[1]);
    assert_eq!(state.get_lifecycle_state(), LifecycleState::Error);
}

#[test]
fn shutdown_needs_every_expected_source() {
    let mut state = HostProvisioningState::new();
    state.set_expected_shutdown_sources(&[1, 2]);
    assert_eq!(state.get_expected_shutdown_sources(), vec![1, 2]);
    assert!(!state.is_able_to_shutdown());
    state.request_shutdown(1);
    assert!(!state.is_able_to_shutdown());
    state.request_shutdown(9);
    assert!(!state.is_able_to_shutdown());
    state.request_shutdown(2);
    assert!(state.is_able_to_shutdown());
}

#[test]
fn shutdown_with_no_expected_sources_is_immediate() {
    let state = HostProvisioningState::new();
    assert!(state.is_able_to_shutdown());
}

#[test]
fn request_shutdown_is_idempotent() {
    let mut state = HostProvisioningState::new();
    state.set_expected_shutdown_sources(&[5]);
    state.request_shutdown(5);
    state.request_shutdown(5);
    assert!(state.is_able_to_shutdown());
}
