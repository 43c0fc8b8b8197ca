//! Wasmtime as the library sees it: the runtime's types, declared so that
//! verified code can carry them, the library's own types that pair runtime
//! values which must stay together, and the trusted wrappers around the
//! runtime calls.
//!
//! Wasmtime panics when a store is handed an instance or a function that it
//! does not own. A `LiveInstance` holds an instance together with the store
//! it was made in, and every export is looked up and called through it, so
//! no wrapper can be handed a foreign store. A wrapper promises nothing of
//! what the runtime answers where the answer rests on the component's own
//! code (its exports, what they compute, whether they trap); nor can any
//! contract say that guest code terminates.

use vstd::prelude::*;

verus! {

/// Wasmtime's compilation and execution environment.
#[verifier::external_type_specification]
#[verifier::external_body]
pub struct ExEngine(wasmtime::Engine);

/// Wasmtime's error type.
#[verifier::external_type_specification]
#[verifier::external_body]
pub struct ExError(wasmtime::Error);

/// A compiled WebAssembly component.
#[verifier::external_type_specification]
#[verifier::external_body]
pub struct ExComponent(wasmtime::component::Component);

/// An instantiated component, owned by a store.
#[verifier::external_type_specification]
#[verifier::external_body]
pub struct ExInstance(wasmtime::component::Instance);

/// The state in which instances live and guest code runs.
#[verifier::external_type_specification]
#[verifier::external_body]
#[verifier::reject_recursive_types(T)]
pub struct ExStore<T: 'static>(wasmtime::Store<T>);

/// The settings an engine is built with, as plain values.
pub struct EngineSettings {
    /// Whether the component-model proposal is enabled for compilation.
    pub component_model: bool,
    /// The target triple that code is compiled for.
    pub target: String,
    /// Whether guest code consumes fuel, so that a store's fuel bounds how
    /// long it can run.
    pub consume_fuel: bool,
    /// Bytes of address space reserved for each linear memory.
    pub memory_reservation: u64,
    /// Bytes reserved beyond a linear memory for it to grow into.
    pub memory_reservation_for_growth: u64,
}

/// An engine together with the settings it was built from.
pub struct ConfiguredEngine {
    engine: wasmtime::Engine,
    settings: EngineSettings,
}

impl ConfiguredEngine {
    /// The settings this engine was built from.
    pub closed spec fn settings(&self) -> EngineSettings {
        self.settings
    }
}

/// A component compiled by an engine, with the engine's settings and the
/// bytes it was compiled from.
pub struct CompiledComponent {
    component: wasmtime::component::Component,
    settings: Ghost<EngineSettings>,
    source: Ghost<Seq<u8>>,
}

impl CompiledComponent {
    /// The settings of the engine that compiled this component.
    pub closed spec fn settings(&self) -> EngineSettings {
        self.settings@
    }

    /// The bytes this component was compiled from.
    pub closed spec fn source(&self) -> Seq<u8> {
        self.source@
    }
}

/// The arguments an export was called with.
pub enum CallArgs {
    /// One `option<string>` argument.
    OptionalString(Option<Seq<char>>),
    /// No argument.
    Nothing,
}

/// What looking up and calling an export gave.
#[derive(Debug)]
pub enum ExportCall {
    /// No function export of that name and type: the lookup's error.
    Missing(wasmtime::Error),
    /// The call trapped or broke the canonical ABI: the call's error.
    Trapped(wasmtime::Error),
    /// The string the export returned.
    Returned(String),
}

/// One export call made on a live instance: the export's name, the
/// arguments, and what came back.
pub struct CallRecord {
    pub export: Seq<char>,
    pub args: CallArgs,
    pub outcome: ExportCall,
}

/// An instance together with the store that owns it, the settings of the
/// engine and the bytes it was made from, and the record of the export calls
/// made on it so far.
pub struct LiveInstance {
    store: wasmtime::Store<()>,
    instance: wasmtime::component::Instance,
    settings: Ghost<EngineSettings>,
    source: Ghost<Seq<u8>>,
    fuel: Ghost<u64>,
    calls: Ghost<Seq<CallRecord>>,
}

impl LiveInstance {
    /// The export calls made on this instance so far, oldest first.
    pub closed spec fn calls(&self) -> Seq<CallRecord> {
        self.calls@
    }

    /// The settings of the engine this instance runs on.
    pub closed spec fn settings(&self) -> EngineSettings {
        self.settings@
    }

    /// The bytes of the component this instance was made from.
    pub closed spec fn source(&self) -> Seq<u8> {
        self.source@
    }

    /// The fuel its store was granted before the component was instantiated.
    pub closed spec fn granted_fuel(&self) -> u64 {
        self.fuel@
    }
}

/// Builds a `wasmtime::Config` from `settings` (`Config::wasm_component_model`,
/// `Config::target`, `Config::consume_fuel`, `Config::memory_reservation`,
/// `Config::memory_reservation_for_growth`) and calls `Engine::new` on it.
/// The engine that comes back is the one built from these settings. When it
/// comes back is not promised, and no name is given to it: which targets
/// `Config::target` and `Engine::new` accept depends on the Cranelift
/// backends compiled in, which follow the architecture of the machine the
/// crate was built on (`cranelift-codegen`'s `host-arch` feature), and
/// `Engine::new` allocates fallibly, so it can also fail for want of memory.
#[verifier::external_body]
pub(crate) fn engine_from_settings(settings: EngineSettings) -> (built: Result<
    ConfiguredEngine,
    wasmtime::Error,
>)
    ensures
        built matches Ok(configured) ==> configured.settings() == settings,
{
    let mut config = wasmtime::Config::new();
    config.wasm_component_model(settings.component_model);
    config.target(&settings.target)?;
    config.consume_fuel(settings.consume_fuel);
    config.memory_reservation(settings.memory_reservation);
    config.memory_reservation_for_growth(settings.memory_reservation_for_growth);
    let engine = wasmtime::Engine::new(&config)?;
    Ok(ConfiguredEngine { engine, settings })
}

/// Calls `Component::new`: compiles component bytes (binary, or text with
/// the `wat` feature) with `engine`, or fails when they are no valid
/// component. What comes back records the engine's settings and the bytes;
/// which bytes compile is not promised.
#[verifier::external_body]
pub(crate) fn compile_component(engine: &ConfiguredEngine, bytes: &[u8]) -> (compiled: Result<
    CompiledComponent,
    wasmtime::Error,
>)
    ensures
        compiled matches Ok(c) ==> c.settings() == engine.settings() && c.source() == bytes@,
{
    let component = wasmtime::component::Component::new(&engine.engine, bytes)?;
    Ok(CompiledComponent { component, settings: Ghost(engine.settings()), source: Ghost(bytes@) })
}

/// Makes a fresh `Store::new(.., ())` for the engine that compiled
/// `component`, grants it `fuel` (`Store::set_fuel`), and instantiates the
/// component through an empty `Linker::<()>` (no imports, so no WASI) with
/// `Linker::instantiate`. `Store::set_fuel` fails where the engine does not
/// consume fuel, before any guest code runs; so guest code only ever runs
/// with a finite amount of fuel, and traps when it is used up. Fails too
/// when the component imports anything or its start-up traps; nothing is
/// promised of which. A new instance has had no export called.
#[verifier::external_body]
pub(crate) fn instantiate_live(component: &CompiledComponent, fuel: u64) -> (live: Result<
    LiveInstance,
    wasmtime::Error,
>)
    ensures
        !component.settings().consume_fuel ==> live is Err,
        live matches Ok(instance) ==> {
            &&& instance.calls() == Seq::<CallRecord>::empty()
            &&& instance.settings() == component.settings()
            &&& instance.source() == component.source()
            &&& instance.granted_fuel() == fuel
        },
{
    let engine = component.component.engine();
    let linker = wasmtime::component::Linker::<()>::new(engine);
    let mut store = wasmtime::Store::new(engine, ());
    store.set_fuel(fuel)?;
    let instance = linker.instantiate(&mut store, &component.component)?;
    Ok(LiveInstance {
        store,
        instance,
        settings: Ghost(component.settings()),
        source: Ghost(component.source()),
        fuel: Ghost(fuel),
        calls: Ghost(Seq::empty()),
    })
}

/// Looks up the export `export` of `live` at the type
/// `(option<string>) -> string` (`Instance::get_typed_func`) and, where there
/// is one, calls it with `arg` (`TypedFunc::call`). The call is appended to
/// the record of calls; what the lookup and the call give is the
/// component's business and is not promised.
#[verifier::external_body]
pub(crate) fn call_with_optional_string(
    live: &mut LiveInstance,
    export: &str,
    arg: Option<String>,
) -> (outcome: ExportCall)
    ensures
        final(live).calls() == old(live).calls().push(
            CallRecord {
                export: export@,
                args: CallArgs::OptionalString(arg.deep_view()),
                outcome,
            },
        ),
        final(live).settings() == old(live).settings(),
        final(live).source() == old(live).source(),
        final(live).granted_fuel() == old(live).granted_fuel(),
{
    let lookup = live.instance.get_typed_func::<(Option<String>,), (String,)>(&mut live.store, export);
    match lookup {
        Err(e) => ExportCall::Missing(e),
        Ok(func) => match func.call(&mut live.store, (arg,)) {
            Err(e) => ExportCall::Trapped(e),
            Ok((returned,)) => ExportCall::Returned(returned),
        },
    }
}

/// Looks up the export `export` of `live` at the type `() -> string`
/// (`Instance::get_typed_func`) and, where there is one, calls it
/// (`TypedFunc::call`). The call is appended to the record of calls; what
/// the lookup and the call give is not promised.
#[verifier::external_body]
pub(crate) fn call_without_args(live: &mut LiveInstance, export: &str) -> (outcome: ExportCall)
    ensures
        final(live).calls() == old(live).calls().push(
            CallRecord { export: export@, args: CallArgs::Nothing, outcome },
        ),
        final(live).settings() == old(live).settings(),
        final(live).source() == old(live).source(),
        final(live).granted_fuel() == old(live).granted_fuel(),
{
    let lookup = live.instance.get_typed_func::<(), (String,)>(&mut live.store, export);
    match lookup {
        Err(e) => ExportCall::Missing(e),
        Ok(func) => match func.call(&mut live.store, ()) {
            Err(e) => ExportCall::Trapped(e),
            Ok((returned,)) => ExportCall::Returned(returned),
        },
    }
}

} // verus!
