use vstd::prelude::*;

use crate::errors::RunError;

verus! {

#[verifier::external_type_specification]
#[verifier::external_body]
pub struct ExStore(wasmer::Store);

#[verifier::external_type_specification]
#[verifier::external_body]
pub struct ExModule(wasmer::Module);

#[verifier::external_type_specification]
#[verifier::external_body]
pub struct ExInstance(wasmer::Instance);

#[verifier::external_type_specification]
#[verifier::external_body]
pub struct ExMemory(wasmer::Memory);

#[verifier::external_type_specification]
#[verifier::external_body]
#[verifier::reject_recursive_types(Args)]
#[verifier::reject_recursive_types(Rets)]
pub struct ExTypedFunction<Args, Rets>(wasmer::TypedFunction<Args, Rets>);

/// The time source linked to a guest's `env.unixtime` import. Injected at
/// link time, so a run can use the real clock or a substitutable fixed one
/// for deterministic output.
#[derive(Clone, Copy, Debug, PartialEq, Eq, Structural)]
pub enum TimeSource {
    /// The process clock: seconds since the Unix epoch.
    System,
    /// A fixed number of seconds, for deterministic runs.
    Fixed(u64),
}

/// Whether wasmer's compiler accepts this module source. Compilation is a
/// function of the source text alone — the same source compiles or fails the
/// same way everywhere — so its success carries a name.
pub uninterp spec fn compiles(source: Seq<char>) -> bool;

/// Whether every import a compiled module declares is the `env.unixtime`
/// capability the host supplies, at the host's signature. A module's import
/// list is a fixed part of the compiled module.
pub uninterp spec fn imports_supplied(module: wasmer::Module) -> bool;

/// Whether an instance exports a linear memory under the name `memory`.
pub uninterp spec fn exports_memory(instance: wasmer::Instance) -> bool;

/// Whether an instance exports a function of the given name at the wasm
/// signature i32 -> i32.
pub uninterp spec fn exports_i32_fn(instance: wasmer::Instance, name: Seq<char>) -> bool;

/// Whether an instance handle belongs to this store. wasmer aborts when a
/// handle is used with a store other than the one it was created in, so
/// every wrapper that pairs a handle with a store demands this relation.
pub uninterp spec fn in_store_instance(instance: wasmer::Instance, store: wasmer::Store) -> bool;

/// Whether a memory handle belongs to this store.
pub uninterp spec fn in_store_memory(memory: wasmer::Memory, store: wasmer::Store) -> bool;

/// Whether a typed-function handle belongs to this store.
pub uninterp spec fn in_store_fn(f: wasmer::TypedFunction<i32, i32>, store: wasmer::Store) -> bool;

/// Whether this memory handle is the instance's `memory` export.
pub uninterp spec fn is_export_memory(memory: wasmer::Memory, instance: wasmer::Instance) -> bool;

/// Whether this typed-function handle is the instance's export of the given
/// name.
pub uninterp spec fn is_export_fn(
    f: wasmer::TypedFunction<i32, i32>,
    instance: wasmer::Instance,
    name: Seq<char>,
) -> bool;

/// Relies on wasmer::Store::new and NativeEngineExt::set_tunables: a fresh,
/// isolated execution context that shares nothing with any other store. Its
/// linear memories are grown on demand rather than reserved up front, so a
/// host with a bounded address space can run many guests side by side.
#[verifier::external_body]
pub(crate) fn store_new() -> wasmer::Store {
    let mut engine = wasmer::Engine::default();
    let tunables = wasmer::sys::BaseTunables {
        static_memory_bound: wasmer::Pages(0),
        static_memory_offset_guard_size: 0x1_0000,
        dynamic_memory_offset_guard_size: 0x1_0000,
    };
    wasmer::sys::NativeEngineExt::set_tunables(&mut engine, tunables);
    wasmer::Store::new(engine)
}

/// Relies on wasmer::Module::new: compiles guest module source into a
/// module, succeeding exactly when the compiler accepts the source
/// (`compiles`) and failing exactly on malformed input.
#[verifier::external_body]
pub(crate) fn module_compile(store: &wasmer::Store, source: &str) -> (r: Result<
    wasmer::Module,
    RunError,
>)
    ensures
        r is Ok <==> compiles(source@),
        r matches Err(e) ==> e == RunError::CompileError,
{
    wasmer::Module::new(store, source).map_err(|_| RunError::CompileError)
}

/// Relies on std::time::SystemTime: the wall-clock time in whole seconds
/// since the Unix epoch, or 0 if the clock reads earlier than the epoch.
/// Handed to guests that import `env.unixtime`; nothing is assumed of the
/// value.
#[verifier::external_body]
pub(crate) fn unix_time_seconds() -> u64 {
    match std::time::SystemTime::now().duration_since(std::time::UNIX_EPOCH) {
        Ok(d) => d.as_secs(),
        Err(_) => 0,
    }
}

/// Relies on wasmer::Instance::new: instantiates the module with the
/// process clock behind `env.unixtime` as the only supplied import, and
/// fails exactly when the module requires an import not supplied
/// (`!imports_supplied`) or its start section faults. The start section
/// runs guest code, which may read the clock, so success cannot be promised
/// even for a module whose imports are all supplied. The returned instance
/// belongs to the store that built it.
#[verifier::external_body]
pub(crate) fn instance_link_system(store: &mut wasmer::Store, module: &wasmer::Module) -> (r:
    Result<wasmer::Instance, RunError>)
    ensures
        r matches Ok(inst) ==> imports_supplied(*module) && in_store_instance(
            inst,
            *final(store),
        ),
        r matches Err(e) ==> e == RunError::LinkError,
{
    let mut imports = wasmer::Imports::new();
    let unixtime = wasmer::Function::new_typed(store, || unix_time_seconds());
    imports.define("env", "unixtime", unixtime);
    wasmer::Instance::new(store, module, &imports).map_err(|_| RunError::LinkError)
}

/// Relies on wasmer::Instance::new, as `instance_link_system`, but the
/// closure behind `env.unixtime` returns the given fixed value, for
/// deterministic runs.
#[verifier::external_body]
pub(crate) fn instance_link_fixed(
    store: &mut wasmer::Store,
    module: &wasmer::Module,
    seconds: u64,
) -> (r: Result<wasmer::Instance, RunError>)
    ensures
        r matches Ok(inst) ==> imports_supplied(*module) && in_store_instance(
            inst,
            *final(store),
        ),
        r matches Err(e) ==> e == RunError::LinkError,
{
    let mut imports = wasmer::Imports::new();
    let unixtime = wasmer::Function::new_typed(store, move || seconds);
    imports.define("env", "unixtime", unixtime);
    wasmer::Instance::new(store, module, &imports).map_err(|_| RunError::LinkError)
}

/// Relies on wasmer::Exports::get_memory: the export named `memory`, cloned
/// as a handle to the same linear memory. It succeeds exactly when the
/// instance exports such a memory (`exports_memory`); the handle is that
/// export and lives in whatever store the instance lives in. The lookup
/// itself touches no store.
#[verifier::external_body]
pub(crate) fn export_memory(instance: &wasmer::Instance) -> (r: Result<wasmer::Memory, RunError>)
    ensures
        r is Ok <==> exports_memory(*instance),
        r matches Ok(m) ==> is_export_memory(m, *instance) && (forall|s: wasmer::Store|
            #[trigger] in_store_instance(*instance, s) ==> in_store_memory(m, s)),
        r matches Err(e) ==> e == RunError::LinkError,
{
    match instance.exports.get_memory("memory") {
        Ok(m) => Ok(m.clone()),
        Err(_) => Err(RunError::LinkError),
    }
}

/// Relies on wasmer::Exports::get_typed_function: the exported function of
/// the given name at signature i32 -> i32. It succeeds exactly when the
/// instance exports such a function (`exports_i32_fn`), failing when the
/// export is absent or of another type, and the handle is that export. The
/// signature check reads through the store, which aborts on a foreign
/// instance, so the instance must belong to the store.
#[verifier::external_body]
pub(crate) fn export_i32_fn(instance: &wasmer::Instance, store: &wasmer::Store, name: &str) -> (r:
    Result<wasmer::TypedFunction<i32, i32>, RunError>)
    requires
        in_store_instance(*instance, *store),
    ensures
        r is Ok <==> exports_i32_fn(*instance, name@),
        r matches Ok(f) ==> is_export_fn(f, *instance, name@) && in_store_fn(f, *store),
        r matches Err(e) ==> e == RunError::LinkError,
{
    instance.exports.get_typed_function::<i32, i32>(store, name).map_err(|_| RunError::LinkError)
}

/// Relies on wasmer::TypedFunction::call: runs the guest function on one
/// i32 argument, and fails exactly when the guest faults. Nothing is assumed
/// of the returned value: the guest picks it, and two calls may differ. The
/// call reads the function through the store, which aborts on a foreign
/// handle, so the function must belong to the store; every handle of that
/// store still belongs to it afterwards.
#[verifier::external_body]
pub(crate) fn call_i32_fn(
    f: &wasmer::TypedFunction<i32, i32>,
    store: &mut wasmer::Store,
    arg: i32,
) -> (r: Result<i32, RunError>)
    requires
        in_store_fn(*f, *old(store)),
    ensures
        r matches Err(e) ==> e == RunError::GuestTrap,
        forall|g: wasmer::TypedFunction<i32, i32>|
            #[trigger] in_store_fn(g, *old(store)) ==> in_store_fn(g, *final(store)),
        forall|m: wasmer::Memory|
            #[trigger] in_store_memory(m, *old(store)) ==> in_store_memory(m, *final(store)),
{
    f.call(store, arg).map_err(|_| RunError::GuestTrap)
}

/// Relies on wasmer::MemoryView::data_size: the byte size of the guest's
/// linear memory at the time of the call. The guest may grow its memory, so
/// two calls may differ. The view reads through the store, which aborts on
/// a foreign handle, so the memory must belong to the store.
#[verifier::external_body]
pub(crate) fn memory_data_size(memory: &wasmer::Memory, store: &wasmer::Store) -> u64
    requires
        in_store_memory(*memory, *store),
{
    memory.view(store).data_size()
}

/// Relies on wasmer::MemoryView::read: fills the whole buffer with the guest
/// memory's bytes starting at `offset`, and reports an out-of-bounds window
/// instead of truncating. On success the returned vector holds exactly `len`
/// bytes. The view reads through the store, which aborts on a foreign
/// handle, so the memory must belong to the store.
#[verifier::external_body]
pub(crate) fn memory_read(
    memory: &wasmer::Memory,
    store: &wasmer::Store,
    offset: u64,
    len: usize,
) -> (r: Result<Vec<u8>, RunError>)
    requires
        in_store_memory(*memory, *store),
    ensures
        r matches Ok(bytes) ==> bytes@.len() == len,
        r matches Err(e) ==> e == RunError::GuestTrap,
{
    let mut buf = vec![0u8; len];
    match memory.view(store).read(offset, &mut buf) {
        Ok(()) => Ok(buf),
        Err(_) => Err(RunError::GuestTrap),
    }
}

} // verus!
