use chihuahua::error::FatalHostError;
use chihuahua::memory::LinearMemory;
use chihuahua::strutil::str_equal;
use chihuahua::wasm::{
    check_getrandom_signature, check_input_count_signature, check_input_size_signature,
    check_main, check_main_signature, check_read_input_signature, check_signature,
    check_write_output_signature, entry_arguments, export_by_name, get_module_memory,
    resolve_func, resolve_imports, EntrySignature, ExecutionOutcome, ExportDescriptor,
    ExternValDescriptor, FuncSignature, ImportDescriptor, InstantiationError, RuntimeValue,
    ValueType, WasmModule, HCALL_GETRANDOM_CODE, HCALL_INPUT_COUNT_CODE, HCALL_INPUT_SIZE_CODE,
    HCALL_READ_INPUT_CODE, HCALL_WRITE_OUTPUT_CODE,
};

fn signature(params: Vec<ValueType>, return_type: Option<ValueType>) -> FuncSignature {
    FuncSignature { params, return_type }
}

fn i32s(n: usize) -> Vec<ValueType> {
    vec![ValueType::I32; n]
}

fn empty_module(exports: Vec<ExportDescriptor>) -> WasmModule {
    WasmModule {
        declares_start: false,
        imports: Vec::new(),
        exports,
        host_calls: Vec::new(),
        outcome: ExecutionOutcome::Returns(Some(RuntimeValue::I32(0))),
    }
}

#[test]
fn host_call_signatures_are_checked_exactly() {
    assert!(check_input_count_signature(&signature(i32s(1), Some(ValueType::I32))));
    assert!(!check_input_count_signature(&signature(i32s(2), Some(ValueType::I32))));
    assert!(!check_input_count_signature(&signature(i32s(1), None)));
    assert!(!check_input_count_signature(&signature(vec![ValueType::I64], Some(ValueType::I32))));

    assert!(check_input_size_signature(&signature(i32s(2), Some(ValueType::I32))));
    assert!(!check_input_size_signature(&signature(i32s(3), Some(ValueType::I32))));

    assert!(check_read_input_signature(&signature(i32s(3), Some(ValueType::I32))));
    assert!(!check_read_input_signature(&signature(i32s(2), Some(ValueType::I32))));

    assert!(check_write_output_signature(&signature(i32s(2), Some(ValueType::I32))));
    assert!(check_getrandom_signature(&signature(i32s(2), Some(ValueType::I32))));
    assert!(!check_getrandom_signature(&signature(i32s(2), Some(ValueType::I64))));
}

#[test]
fn check_signature_follows_the_dispatch_table() {
    assert!(check_signature(HCALL_INPUT_COUNT_CODE, &signature(i32s(1), Some(ValueType::I32))));
    assert!(check_signature(HCALL_INPUT_SIZE_CODE, &signature(i32s(2), Some(ValueType::I32))));
    assert!(check_signature(HCALL_READ_INPUT_CODE, &signature(i32s(3), Some(ValueType::I32))));
    assert!(check_signature(HCALL_WRITE_OUTPUT_CODE, &signature(i32s(2), Some(ValueType::I32))));
    assert!(check_signature(HCALL_GETRANDOM_CODE, &signature(i32s(2), Some(ValueType::I32))));
    assert!(!check_signature(HCALL_INPUT_COUNT_CODE, &signature(i32s(2), Some(ValueType::I32))));
    assert!(!check_signature(99, &signature(i32s(1), Some(ValueType::I32))));
}

#[test]
fn main_signatures_classify_as_specified() {
    assert_eq!(
        check_main_signature(&signature(Vec::new(), Some(ValueType::I32))),
        EntrySignature::NoParameters
    );
    assert_eq!(
        check_main_signature(&signature(i32s(2), Some(ValueType::I32))),
        EntrySignature::ArgvAndArgc
    );
    assert_eq!(
        check_main_signature(&signature(i32s(1), Some(ValueType::I32))),
        EntrySignature::NoEntryFound
    );
    assert_eq!(
        check_main_signature(&signature(Vec::new(), Some(ValueType::I64))),
        EntrySignature::NoEntryFound
    );
    assert_eq!(check_main_signature(&signature(Vec::new(), None)), EntrySignature::NoEntryFound);
}

#[test]
fn check_main_finds_the_entry_export() {
    let module = empty_module(vec![ExportDescriptor {
        field_name: String::from("main"),
        value: ExternValDescriptor::Func(signature(i32s(2), Some(ValueType::I32))),
    }]);
    assert_eq!(check_main(&module), EntrySignature::ArgvAndArgc);

    let module = empty_module(vec![ExportDescriptor {
        field_name: String::from("other"),
        value: ExternValDescriptor::Func(signature(Vec::new(), Some(ValueType::I32))),
    }]);
    assert_eq!(check_main(&module), EntrySignature::NoEntryFound);

    let module = empty_module(vec![ExportDescriptor {
        field_name: String::from("main"),
        value: ExternValDescriptor::Global,
    }]);
    assert_eq!(check_main(&module), EntrySignature::NoEntryFound);
}

#[test]
fn export_lookup_takes_the_first_match() {
    let module = empty_module(vec![
        ExportDescriptor { field_name: String::from("x"), value: ExternValDescriptor::Global },
        ExportDescriptor { field_name: String::from("x"), value: ExternValDescriptor::Table },
    ]);
    assert!(matches!(export_by_name(&module, "x"), Some(&ExternValDescriptor::Global)));
    assert!(export_by_name(&module, "y").is_none());
}

#[test]
fn module_memory_is_built_from_the_memory_export() {
    let module = empty_module(vec![ExportDescriptor {
        field_name: String::from("memory"),
        value: ExternValDescriptor::Memory(vec![1, 2, 3]),
    }]);
    let memory = get_module_memory(&module).unwrap();
    assert_eq!(memory.size(), 3);
    assert_eq!(memory.read_region(0, 3), Ok(vec![1, 2, 3]));

    let module = empty_module(Vec::new());
    assert!(matches!(get_module_memory(&module), Err(FatalHostError::NoMemoryRegistered)));
}

#[test]
fn imports_resolve_by_name_and_signature() {
    assert_eq!(
        resolve_func("__veracruz_hcall_input_count", &signature(i32s(1), Some(ValueType::I32))),
        Ok(HCALL_INPUT_COUNT_CODE)
    );
    assert_eq!(
        resolve_func("__veracruz_hcall_input_size", &signature(i32s(2), Some(ValueType::I32))),
        Ok(HCALL_INPUT_SIZE_CODE)
    );
    assert_eq!(
        resolve_func("__veracruz_hcall_read_input", &signature(i32s(3), Some(ValueType::I32))),
        Ok(HCALL_READ_INPUT_CODE)
    );
    assert_eq!(
        resolve_func("__veracruz_hcall_write_output", &signature(i32s(2), Some(ValueType::I32))),
        Ok(HCALL_WRITE_OUTPUT_CODE)
    );
    assert_eq!(
        resolve_func("__veracruz_hcall_getrandom", &signature(i32s(2), Some(ValueType::I32))),
        Ok(HCALL_GETRANDOM_CODE)
    );
    assert_eq!(
        resolve_func("__veracruz_hcall_getrandom", &signature(i32s(1), Some(ValueType::I32))),
        Err(InstantiationError::MismatchedSignature)
    );
    assert_eq!(
        resolve_func("printf", &signature(i32s(1), Some(ValueType::I32))),
        Err(InstantiationError::UnknownImport)
    );
}

#[test]
fn non_function_imports_never_resolve() {
    let mut module = empty_module(Vec::new());
    module.imports.push(ImportDescriptor::Memory { field_name: String::from("memory") });
    assert_eq!(resolve_imports(&module), Err(InstantiationError::NonFunctionImport));

    let mut module = empty_module(Vec::new());
    module.imports.push(ImportDescriptor::Table { field_name: String::from("table") });
    assert_eq!(resolve_imports(&module), Err(InstantiationError::NonFunctionImport));
}

#[test]
fn entry_arguments_follow_the_convention() {
    assert_eq!(entry_arguments(&EntrySignature::NoParameters), Vec::<RuntimeValue>::new());
    assert_eq!(
        entry_arguments(&EntrySignature::ArgvAndArgc),
        vec![RuntimeValue::I32(0), RuntimeValue::I32(0)]
    );
}

#[test]
fn linear_memory_reads_and_writes_are_bounds_checked() {
    let mut memory = LinearMemory::from_contents(vec![0u8; 8]);
    assert!(memory.write_region(2, &vec![7, 8]).is_ok());
    assert_eq!(memory.read_region(0, 8), Ok(vec![0, 0, 7, 8, 0, 0, 0, 0]));
    assert!(memory.write_region(7, &vec![1, 2]).is_err());
    assert_eq!(memory.read_region(0, 8), Ok(vec![0, 0, 7, 8, 0, 0, 0, 0]));
    assert!(memory.read_region(7, 2).is_err());
    assert!(memory.read_region(8, 0).is_ok());
}

#[test]
fn u32_values_are_written_little_endian() {
    let mut memory = LinearMemory::from_contents(vec![0u8; 8]);
    assert!(memory.write_u32_le(1, 0x0403_0201).is_ok());
    assert_eq!(memory.read_region(0, 6), Ok(vec![0, 1, 2, 3, 4, 0]));
    assert!(memory.write_u32_le(5, 1).is_err());
}

#[test]
fn str_equal_compares_by_characters() {
    assert!(str_equal("main", "main"));
    assert!(!str_equal("main", "mains"));
    assert!(!str_equal("main", "memory"));
    assert!(str_equal("", ""));
}
