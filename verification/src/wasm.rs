//! The host's model of a sandboxed WASM program.
//!
//! The engine that decodes and runs WASM is an external collaborator; the
//! host consumes it through a narrow boundary.  What the host inspects of a
//! module is captured here as plain data: whether it declares a start
//! function, the imports it asks the host to resolve, the exports the host
//! looks up by name, and the program's host-observable behaviour — the
//! sequence of host calls its entry point issues and how it finishes.

use vstd::prelude::*;
use vstd::slice::slice_to_vec;
use crate::error::FatalHostError;
use crate::memory::LinearMemory;
use crate::strutil::str_equal;

verus! {

/// The name of the WASM program's entry point.
pub const ENTRY_POINT_NAME: &'static str = "main";

/// The name of the WASM program's linear memory export.
pub const LINEAR_MEMORY_NAME: &'static str = "memory";

/// Dispatch code of the `__veracruz_hcall_input_count` host call.
pub const HCALL_INPUT_COUNT_CODE: usize = 0;

/// Dispatch code of the `__veracruz_hcall_input_size` host call.
pub const HCALL_INPUT_SIZE_CODE: usize = 1;

/// Dispatch code of the `__veracruz_hcall_read_input` host call.
pub const HCALL_READ_INPUT_CODE: usize = 2;

/// Dispatch code of the `__veracruz_hcall_write_output` host call.
pub const HCALL_WRITE_OUTPUT_CODE: usize = 3;

/// Dispatch code of the `__veracruz_hcall_getrandom` host call.
pub const HCALL_GETRANDOM_CODE: usize = 4;

/// A WASM value type, as far as the host-call interface inspects one.
#[derive(Clone, Copy, PartialEq, Eq, Structural, Debug)]
pub enum ValueType {
    I32,
    I64,
    F32,
    F64,
}

/// The type of a function the module imports or exports.
pub struct FuncSignature {
    pub params: Vec<ValueType>,
    pub return_type: Option<ValueType>,
}

/// A WASM runtime value, as far as the host inspects one: the entry point
/// must return a 32-bit integer, anything else is an error.
#[derive(Clone, Copy, PartialEq, Eq, Structural, Debug)]
pub enum RuntimeValue {
    I32(i32),
    I64(i64),
}

/// The shape of the module's entry point.
#[derive(Clone, Copy, PartialEq, Eq, Structural, Debug)]
pub enum EntrySignature {
    /// `main` takes no parameters and returns an `i32`.
    NoParameters,
    /// `main` takes `(argv, argc)` as two `i32`s and returns an `i32`.
    ArgvAndArgc,
    /// The module exports no entry point of an accepted shape.
    NoEntryFound,
}

/// An import the module asks the host to resolve from the `env` namespace.
pub enum ImportDescriptor {
    /// A function import: only the five host calls are accepted.
    Func { field_name: String, signature: FuncSignature },
    /// A global import: always rejected.
    Global { field_name: String },
    /// A memory import: always rejected.
    Memory { field_name: String },
    /// A table import: always rejected.
    Table { field_name: String },
}

/// Why instantiation of a module failed.
#[derive(Clone, Copy, PartialEq, Eq, Structural, Debug)]
pub enum InstantiationError {
    /// The module imports a function that is not one of the five host calls.
    UnknownImport,
    /// The module imports a host call under the wrong signature.
    MismatchedSignature,
    /// The module imports a global, memory or table, which the sandbox may
    /// never do.
    NonFunctionImport,
}

/// A value the module exports, as far as the host inspects one.
pub enum ExternValDescriptor {
    /// An exported function of the given signature.
    Func(FuncSignature),
    /// An exported linear memory with the given initial contents.
    Memory(Vec<u8>),
    /// An exported global, which the host never touches.
    Global,
    /// An exported table, which the host never touches.
    Table,
}

/// One named export of the module.
pub struct ExportDescriptor {
    pub field_name: String,
    pub value: ExternValDescriptor,
}

/// One host call the program issues during execution: a dispatch code and
/// the arguments the guest passes.
pub struct HostCallRequest {
    pub index: usize,
    pub args: Vec<u32>,
}

/// How the program's entry point finishes, after its host calls.
#[derive(Clone, Copy, PartialEq, Eq, Structural, Debug)]
pub enum ExecutionOutcome {
    /// The entry point returns the given value, or nothing.
    Returns(Option<RuntimeValue>),
    /// The program traps on its own (an illegal instruction, an exhausted
    /// stack, and the like).
    Traps,
}

/// The host's view of an instantiated WASM module: its structure as far as
/// the host inspects it, and its host-observable behaviour.  The engine that
/// produced it is an external collaborator; the guest's internal computation
/// is opaque and only its host calls and final outcome are modelled.
pub struct WasmModule {
    /// Whether the module declares a start function; the runtime forbids
    /// side effects before provisioning completes, so such a module is
    /// rejected at load.
    pub declares_start: bool,
    /// The imports instantiation must resolve against the host.
    pub imports: Vec<ImportDescriptor>,
    /// The module's named exports.
    pub exports: Vec<ExportDescriptor>,
    /// The host calls the entry point issues, in program order.
    pub host_calls: Vec<HostCallRequest>,
    /// How the entry point finishes once its host calls are done.
    pub outcome: ExecutionOutcome,
}

/// The external decoder's verdict on a program image: the module it
/// decoded, or that the bytes are not a valid WASM module.  Decoding is
/// purely syntactic validation and belongs to the engine; the runtime
/// consumes its verdict.
pub enum DecodeOutcome {
    /// The bytes decode to this module.
    Decoded(WasmModule),
    /// The bytes are not a valid WASM module.
    Rejected,
}

/// Does `s` have the type of `__veracruz_hcall_input_count`, that is
/// `(i32) -> i32`?
pub open spec fn is_input_count_signature(s: FuncSignature) -> bool {
    &&& s.params@.len() == 1
    &&& s.params@[0] == ValueType::I32
    &&& s.return_type == Some(ValueType::I32)
}

/// Does `s` have the type of `__veracruz_hcall_input_size`, that is
/// `(i32, i32) -> i32`?
pub open spec fn is_input_size_signature(s: FuncSignature) -> bool {
    &&& s.params@.len() == 2
    &&& s.params@[0] == ValueType::I32
    &&& s.params@[1] == ValueType::I32
    &&& s.return_type == Some(ValueType::I32)
}

/// Does `s` have the type of `__veracruz_hcall_read_input`, that is
/// `(i32, i32, i32) -> i32`?
pub open spec fn is_read_input_signature(s: FuncSignature) -> bool {
    &&& s.params@.len() == 3
    &&& s.params@[0] == ValueType::I32
    &&& s.params@[1] == ValueType::I32
    &&& s.params@[2] == ValueType::I32
    &&& s.return_type == Some(ValueType::I32)
}

/// Does `s` have the type of `__veracruz_hcall_write_output`, that is
/// `(i32, i32) -> i32`?
pub open spec fn is_write_output_signature(s: FuncSignature) -> bool {
    is_input_size_signature(s)
}

/// Does `s` have the type of `__veracruz_hcall_getrandom`, that is
/// `(i32, i32) -> i32`?
pub open spec fn is_getrandom_signature(s: FuncSignature) -> bool {
    is_input_size_signature(s)
}

/// Does `s` have the correct type for the host call coded by `index`?
pub open spec fn spec_check_signature(index: usize, s: FuncSignature) -> bool {
    if index == HCALL_INPUT_COUNT_CODE {
        is_input_count_signature(s)
    } else if index == HCALL_INPUT_SIZE_CODE {
        is_input_size_signature(s)
    } else if index == HCALL_READ_INPUT_CODE {
        is_read_input_signature(s)
    } else if index == HCALL_WRITE_OUTPUT_CODE {
        is_write_output_signature(s)
    } else if index == HCALL_GETRANDOM_CODE {
        is_getrandom_signature(s)
    } else {
        false
    }
}

/// The entry-point shape a function signature falls under.
pub open spec fn entry_signature_of(s: FuncSignature) -> EntrySignature {
    if s.params@.len() == 0 && s.return_type == Some(ValueType::I32) {
        EntrySignature::NoParameters
    } else if s.params@.len() == 2 && s.params@[0] == ValueType::I32 && s.params@[1]
        == ValueType::I32 && s.return_type == Some(ValueType::I32) {
        EntrySignature::ArgvAndArgc
    } else {
        EntrySignature::NoEntryFound
    }
}

/// Checks the signature of the `__veracruz_hcall_input_count` import.
pub fn check_input_count_signature(signature: &FuncSignature) -> (r: bool)
    ensures
        r == is_input_count_signature(*signature),
{
    signature.params.len() == 1 && matches!(signature.params[0], ValueType::I32) && matches!(
        signature.return_type,
        Some(ValueType::I32),
    )
}

/// Checks the signature of the `__veracruz_hcall_input_size` import.
pub fn check_input_size_signature(signature: &FuncSignature) -> (r: bool)
    ensures
        r == is_input_size_signature(*signature),
{
    signature.params.len() == 2 && matches!(signature.params[0], ValueType::I32) && matches!(
        signature.params[1],
        ValueType::I32,
    ) && matches!(signature.return_type, Some(ValueType::I32))
}

/// Checks the signature of the `__veracruz_hcall_read_input` import.
pub fn check_read_input_signature(signature: &FuncSignature) -> (r: bool)
    ensures
        r == is_read_input_signature(*signature),
{
    signature.params.len() == 3 && matches!(signature.params[0], ValueType::I32) && matches!(
        signature.params[1],
        ValueType::I32,
    ) && matches!(signature.params[2], ValueType::I32) && matches!(
        signature.return_type,
        Some(ValueType::I32),
    )
}

/// Checks the signature of the `__veracruz_hcall_write_output` import.
pub fn check_write_output_signature(signature: &FuncSignature) -> (r: bool)
    ensures
        r == is_write_output_signature(*signature),
{
    check_input_size_signature(signature)
}

/// Checks the signature of the `__veracruz_hcall_getrandom` import.
pub fn check_getrandom_signature(signature: &FuncSignature) -> (r: bool)
    ensures
        r == is_getrandom_signature(*signature),
{
    check_input_size_signature(signature)
}

/// Checks that `signature` has the correct type for the host call coded by
/// `index`.
pub fn check_signature(index: usize, signature: &FuncSignature) -> (r: bool)
    ensures
        r == spec_check_signature(index, *signature),
{
    if index == HCALL_INPUT_COUNT_CODE {
        check_input_count_signature(signature)
    } else if index == HCALL_INPUT_SIZE_CODE {
        check_input_size_signature(signature)
    } else if index == HCALL_READ_INPUT_CODE {
        check_read_input_signature(signature)
    } else if index == HCALL_WRITE_OUTPUT_CODE {
        check_write_output_signature(signature)
    } else if index == HCALL_GETRANDOM_CODE {
        check_getrandom_signature(signature)
    } else {
        false
    }
}

/// Classifies the module's entry-point signature against the accepted
/// shapes.
pub fn check_main_signature(signature: &FuncSignature) -> (entry: EntrySignature)
    ensures
        entry == entry_signature_of(*signature),
{
    if signature.params.len() == 0 && matches!(signature.return_type, Some(ValueType::I32)) {
        EntrySignature::NoParameters
    } else if signature.params.len() == 2 && matches!(signature.params[0], ValueType::I32)
        && matches!(signature.params[1], ValueType::I32) && matches!(
        signature.return_type,
        Some(ValueType::I32),
    ) {
        EntrySignature::ArgvAndArgc
    } else {
        EntrySignature::NoEntryFound
    }
}

/// The first export under `name`, if any.
pub open spec fn spec_export_by_name(exports: Seq<ExportDescriptor>, name: Seq<char>) -> Option<
    ExternValDescriptor,
>
    decreases exports.len(),
{
    if exports.len() == 0 {
        None
    } else if exports[0].field_name@ == name {
        Some(exports[0].value)
    } else {
        spec_export_by_name(exports.skip(1), name)
    }
}

/// Looks up the first export under `name`.
pub fn export_by_name<'a>(module: &'a WasmModule, name: &str) -> (r: Option<
    &'a ExternValDescriptor,
>)
    ensures
        match r {
            Some(value) => spec_export_by_name(module.exports@, name@) == Some(*value),
            None => spec_export_by_name(module.exports@, name@) is None,
        },
{
    let mut i: usize = 0;
    proof {
        assert(module.exports@.skip(0) =~= module.exports@);
    }
    while i < module.exports.len()
        invariant
            i <= module.exports@.len(),
            spec_export_by_name(module.exports@, name@) == spec_export_by_name(
                module.exports@.skip(i as int),
                name@,
            ),
        decreases module.exports@.len() - i,
    {
        if str_equal(module.exports[i].field_name.as_str(), name) {
            proof {
                assert(module.exports@.skip(i as int)[0] == module.exports@[i as int]);
            }
            return Some(&module.exports[i].value);
        }
        i = i + 1;
        proof {
            assert(module.exports@.skip(i - 1).skip(1) =~= module.exports@.skip(i as int));
            assert(module.exports@.skip(i - 1)[0] == module.exports@[i - 1]);
        }
    }
    proof {
        assert(module.exports@.skip(i as int).len() == 0);
    }
    None
}

/// The entry-point shape of the export under `name`: `NoEntryFound` when
/// there is none or it is not a function.
pub open spec fn spec_entry_of(module: WasmModule, name: Seq<char>) -> EntrySignature {
    match spec_export_by_name(module.exports@, name) {
        Some(ExternValDescriptor::Func(signature)) => entry_signature_of(signature),
        _ => EntrySignature::NoEntryFound,
    }
}

/// The entry-point shape of the module: the shape of its `main` export.
pub open spec fn spec_check_main(module: WasmModule) -> EntrySignature {
    spec_entry_of(module, ENTRY_POINT_NAME@)
}

/// Finds the export under `name` and classifies its signature against the
/// accepted entry-point shapes.
pub fn check_entry(module: &WasmModule, name: &str) -> (entry: EntrySignature)
    ensures
        entry == spec_entry_of(*module, name@),
{
    match export_by_name(module, name) {
        Some(ExternValDescriptor::Func(signature)) => check_main_signature(signature),
        _ => EntrySignature::NoEntryFound,
    }
}

/// Finds the entry point of `module` and classifies its signature.
pub fn check_main(module: &WasmModule) -> (entry: EntrySignature)
    ensures
        entry == spec_check_main(*module),
{
    check_entry(module, ENTRY_POINT_NAME)
}

/// The initial contents of the module's exported linear memory, if the
/// module exports one under the expected name.
pub open spec fn spec_module_memory(module: WasmModule) -> Option<Seq<u8>> {
    match spec_export_by_name(module.exports@, LINEAR_MEMORY_NAME@) {
        Some(ExternValDescriptor::Memory(contents)) => Some(contents@),
        _ => None,
    }
}

/// Finds the linear memory the module exports and builds the sandbox memory
/// from its initial contents; a module without one cannot run.
pub fn get_module_memory(module: &WasmModule) -> (r: Result<LinearMemory, FatalHostError>)
    ensures
        match spec_module_memory(*module) {
            Some(contents) => r matches Ok(mem) && mem@ == contents,
            None => r == Err::<LinearMemory, FatalHostError>(FatalHostError::NoMemoryRegistered),
        },
{
    match export_by_name(module, LINEAR_MEMORY_NAME) {
        Some(ExternValDescriptor::Memory(contents)) => {
            Ok(LinearMemory::from_contents(slice_to_vec(contents.as_slice())))
        },
        _ => Err(FatalHostError::NoMemoryRegistered),
    }
}

/// Builds the argument vector the entry point receives: nothing for a
/// parameterless entry, and `(argv, argc) = (0, 0)` — the zero-length-argv
/// convention — for the two-parameter shape.
pub fn entry_arguments(entry: &EntrySignature) -> (arguments: Vec<RuntimeValue>)
    requires
        *entry != EntrySignature::NoEntryFound,
    ensures
        *entry == EntrySignature::NoParameters ==> arguments@ == Seq::<RuntimeValue>::empty(),
        *entry == EntrySignature::ArgvAndArgc ==> arguments@ == seq![
            RuntimeValue::I32(0),
            RuntimeValue::I32(0),
        ],
{
    match entry {
        EntrySignature::ArgvAndArgc => {
            let mut arguments: Vec<RuntimeValue> = Vec::new();
            arguments.push(RuntimeValue::I32(0));
            arguments.push(RuntimeValue::I32(0));
            proof {
                assert(arguments@ =~= seq![RuntimeValue::I32(0), RuntimeValue::I32(0)]);
            }
            arguments
        },
        _ => {
            let arguments: Vec<RuntimeValue> = Vec::new();
            proof {
                assert(arguments@ =~= Seq::<RuntimeValue>::empty());
            }
            arguments
        },
    }
}

/// The host-call code an `env` function import resolves to, by name.
pub open spec fn hcall_code_of(name: Seq<char>) -> Option<usize> {
    if name == "__veracruz_hcall_input_count"@ {
        Some(HCALL_INPUT_COUNT_CODE)
    } else if name == "__veracruz_hcall_input_size"@ {
        Some(HCALL_INPUT_SIZE_CODE)
    } else if name == "__veracruz_hcall_read_input"@ {
        Some(HCALL_READ_INPUT_CODE)
    } else if name == "__veracruz_hcall_write_output"@ {
        Some(HCALL_WRITE_OUTPUT_CODE)
    } else if name == "__veracruz_hcall_getrandom"@ {
        Some(HCALL_GETRANDOM_CODE)
    } else {
        None
    }
}

/// How a function import resolves: the host call it names, provided the
/// requested signature matches the host call's type exactly.
pub open spec fn spec_resolve_func(name: Seq<char>, s: FuncSignature) -> Result<
    usize,
    InstantiationError,
> {
    match hcall_code_of(name) {
        None => Err(InstantiationError::UnknownImport),
        Some(code) => if spec_check_signature(code, s) {
            Ok(code)
        } else {
            Err(InstantiationError::MismatchedSignature)
        },
    }
}

/// How an import resolves: functions through `spec_resolve_func`; globals,
/// memories and tables are always rejected.
pub open spec fn spec_resolve_import(import: ImportDescriptor) -> Result<
    usize,
    InstantiationError,
> {
    match import {
        ImportDescriptor::Func { field_name, signature } => spec_resolve_func(
            field_name@,
            signature,
        ),
        _ => Err(InstantiationError::NonFunctionImport),
    }
}

/// Every import of the module resolves against the host-call interface.
pub open spec fn imports_resolvable(imports: Seq<ImportDescriptor>) -> bool {
    forall|i: int| 0 <= i < imports.len() ==> (#[trigger] spec_resolve_import(imports[i])) is Ok
}

/// Resolves a function import from the `env` namespace: translates the name
/// to a host-call code and checks the requested signature against the
/// host call's type.
pub fn resolve_func(field_name: &str, signature: &FuncSignature) -> (r: Result<
    usize,
    InstantiationError,
>)
    ensures
        r == spec_resolve_func(field_name@, *signature),
{
    let code: usize = if str_equal(field_name, "__veracruz_hcall_input_count") {
        HCALL_INPUT_COUNT_CODE
    } else if str_equal(field_name, "__veracruz_hcall_input_size") {
        HCALL_INPUT_SIZE_CODE
    } else if str_equal(field_name, "__veracruz_hcall_read_input") {
        HCALL_READ_INPUT_CODE
    } else if str_equal(field_name, "__veracruz_hcall_write_output") {
        HCALL_WRITE_OUTPUT_CODE
    } else if str_equal(field_name, "__veracruz_hcall_getrandom") {
        HCALL_GETRANDOM_CODE
    } else {
        return Err(InstantiationError::UnknownImport);
    };
    if check_signature(code, signature) {
        Ok(code)
    } else {
        Err(InstantiationError::MismatchedSignature)
    }
}

/// Resolves a global import from the `env` namespace: the sandbox may never
/// import a global, so resolution always fails.
pub fn resolve_global(_field_name: &str) -> (r: Result<usize, InstantiationError>)
    ensures
        r == Err::<usize, InstantiationError>(InstantiationError::NonFunctionImport),
{
    Err(InstantiationError::NonFunctionImport)
}

/// Resolves a memory import from the `env` namespace: the sandbox may never
/// import a memory, so resolution always fails.
pub fn resolve_memory(_field_name: &str) -> (r: Result<usize, InstantiationError>)
    ensures
        r == Err::<usize, InstantiationError>(InstantiationError::NonFunctionImport),
{
    Err(InstantiationError::NonFunctionImport)
}

/// Resolves a table import from the `env` namespace: the sandbox may never
/// import a table, so resolution always fails.
pub fn resolve_table(_field_name: &str) -> (r: Result<usize, InstantiationError>)
    ensures
        r == Err::<usize, InstantiationError>(InstantiationError::NonFunctionImport),
{
    Err(InstantiationError::NonFunctionImport)
}

/// Resolves every import of the module, as instantiation does: each function
/// import must name a host call under its exact signature, and no global,
/// memory or table may be imported.
pub fn resolve_imports(module: &WasmModule) -> (r: Result<(), InstantiationError>)
    ensures
        r is Ok <==> imports_resolvable(module.imports@),
        r matches Err(e) ==> exists|i: int|
            0 <= i < module.imports@.len() && spec_resolve_import(module.imports@[i]) == Err::<
                usize,
                InstantiationError,
            >(e),
{
    let mut i: usize = 0;
    while i < module.imports.len()
        invariant
            i <= module.imports@.len(),
            forall|j: int|
                0 <= j < i ==> (#[trigger] spec_resolve_import(module.imports@[j])) is Ok,
        decreases module.imports@.len() - i,
    {
        let outcome: Result<usize, InstantiationError> = match &module.imports[i] {
            ImportDescriptor::Func { field_name, signature } => {
                resolve_func(field_name.as_str(), signature)
            },
            ImportDescriptor::Global { field_name } => resolve_global(field_name.as_str()),
            ImportDescriptor::Memory { field_name } => resolve_memory(field_name.as_str()),
            ImportDescriptor::Table { field_name } => resolve_table(field_name.as_str()),
        };
        proof {
            assert(outcome == spec_resolve_import(module.imports@[i as int]));
        }
        match outcome {
            Ok(_) => {
            },
            Err(e) => {
                proof {
                    assert(spec_resolve_import(module.imports@[i as int]) == Err::<
                        usize,
                        InstantiationError,
                    >(e));
                }
                return Err(e);
            },
        }
        i = i + 1;
    }
    Ok(())
}

} // verus!
