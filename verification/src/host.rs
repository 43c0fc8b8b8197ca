//! The host: builds a Pulley engine, runs each guest component's exports
//! through Wasmtime, and decides what is reported of them.

use vstd::prelude::*;
use vstd::string::StringExecFns;
use crate::runtime::{
    call_with_optional_string, call_without_args, compile_component, engine_from_settings,
    instantiate_live, CallArgs, CallRecord, ConfiguredEngine, EngineSettings, ExportCall,
    LiveInstance,
};

verus! {

/// Name passed to guests whose `run` takes an optional name, when the
/// command line gives none.
pub const DEFAULT_GUEST_NAME: &'static str = "Pulley";

/// Pulley target handed to `Config::target`, so that Wasmtime compiles for
/// and runs on the portable Pulley interpreter rather than the native host.
pub const PULLEY_TARGET: &'static str = "pulley64";

/// Fuel granted to each instance: about as many WebAssembly operators as its
/// guest code may execute before it traps, so that no guest runs forever.
pub const GUEST_FUEL: u64 = 10_000_000;

/// Bytes of address space reserved per linear memory: Wasmtime's own default
/// for a 64-bit target, written out.
pub const MEMORY_RESERVATION: u64 = 4_294_967_296;

/// Bytes reserved for a linear memory to grow into: Wasmtime's own default
/// for a 64-bit target, written out.
pub const MEMORY_RESERVATION_FOR_GROWTH: u64 = 2_147_483_648;

/// Why running the host flow failed, by the step that failed; each variant
/// carries Wasmtime's own error.
#[derive(Debug)]
pub enum HostError {
    /// The engine could not be configured for Pulley or could not be built.
    Engine(wasmtime::Error),
    /// The component's bytes could not be compiled.
    Compile(wasmtime::Error),
    /// The component could not be instantiated.
    Instantiate(wasmtime::Error),
    /// The component exports `run` at neither accepted type.
    MissingRun(wasmtime::Error),
    /// The `run` export that was called trapped or broke the canonical ABI.
    Call(wasmtime::Error),
    /// `run` returned `run_message`, then the `describe` export trapped or
    /// broke the canonical ABI.
    Describe { run_message: String, error: wasmtime::Error },
}

/// What one component's exports returned: the message of `run`, and that of
/// `describe` where the component exports it.
pub struct ComponentReport {
    pub run_message: String,
    pub description: Option<String>,
}

/// The name a run of the host greets: the first command-line argument after
/// the program's own name, or `DEFAULT_GUEST_NAME` when there is none.
pub open spec fn chosen_name(args: Seq<Seq<char>>) -> Seq<char> {
    if args.len() > 1 {
        args[1]
    } else {
        DEFAULT_GUEST_NAME@
    }
}

/// The line printed for the message of a `describe` export.
pub open spec fn describe_line_of(message: Seq<char>) -> Seq<char> {
    "describe: "@ + message
}

/// The lines printed for one component: the message of `run`, then the
/// `describe` line where there is a description.
pub open spec fn report_lines(run_message: Seq<char>, description: Option<Seq<char>>) -> Seq<
    Seq<char>,
> {
    match description {
        Some(d) => seq![run_message, describe_line_of(d)],
        None => seq![run_message],
    }
}

/// The views of a list of strings.
pub open spec fn string_views(strings: Seq<String>) -> Seq<Seq<char>> {
    strings.map_values(|s: String| s@)
}

/// Picks the guest name from the command-line arguments (program name first).
pub fn guest_name<'a>(args: &'a Vec<String>) -> (name: &'a str)
    ensures
        name@ == chosen_name(string_views(args@)),
        args.len() > 1 ==> name@ == args[1]@,
        args.len() <= 1 ==> name@ == "Pulley"@,
{
    if args.len() > 1 {
        args[1].as_str()
    } else {
        DEFAULT_GUEST_NAME
    }
}

/// The line printed for the message of a `describe` export.
pub fn describe_line(message: &str) -> (line: String)
    ensures
        line@ == describe_line_of(message@),
{
    let mut line = "describe: ".to_owned();
    line.append(message);
    line
}

impl ComponentReport {
    /// The lines the host prints for this component, in order.
    pub fn lines(&self) -> (lines: Vec<String>)
        ensures
            string_views(lines@) == report_lines(
                self.run_message@,
                self.description.deep_view(),
            ),
            lines@.len() >= 1,
            lines@[0]@ == self.run_message@,
            self.description matches Some(d) ==> lines@.len() == 2 && lines@[1]@ == "describe: "@
                + d@,
            self.description is None ==> lines@.len() == 1,
    {
        let mut lines: Vec<String> = Vec::new();
        lines.push(self.run_message.clone());
        match &self.description {
            Some(d) => lines.push(describe_line(d.as_str())),
            None => {},
        }
        lines
    }
}

/// The settings of the host's engine: the component model on, the
/// `PULLEY_TARGET` target, fuel metering on, and Wasmtime's 64-bit memory
/// reservations.
pub open spec fn is_pulley_settings(settings: EngineSettings) -> bool {
    &&& settings.component_model
    &&& settings.target@ == PULLEY_TARGET@
    &&& settings.consume_fuel
    &&& settings.memory_reservation == MEMORY_RESERVATION
    &&& settings.memory_reservation_for_growth == MEMORY_RESERVATION_FOR_GROWTH
}

/// The settings the host builds its engine with.
pub fn pulley_settings() -> (settings: EngineSettings)
    ensures
        is_pulley_settings(settings),
{
    EngineSettings {
        component_model: true,
        target: PULLEY_TARGET.to_owned(),
        consume_fuel: true,
        memory_reservation: MEMORY_RESERVATION,
        memory_reservation_for_growth: MEMORY_RESERVATION_FOR_GROWTH,
    }
}

/// What the host reports of an attempt to build its engine.
pub open spec fn engine_report(
    built: Result<ConfiguredEngine, wasmtime::Error>,
) -> Result<ConfiguredEngine, HostError> {
    match built {
        Ok(configured) => Ok(configured),
        Err(e) => Err(HostError::Engine(e)),
    }
}

/// Reports an attempt to build the engine: the engine as it came, or the
/// runtime's error as an engine failure.
pub fn report_engine(built: Result<ConfiguredEngine, wasmtime::Error>) -> (report: Result<
    ConfiguredEngine,
    HostError,
>)
    ensures
        report == engine_report(built),
{
    match built {
        Ok(configured) => Ok(configured),
        Err(e) => Err(HostError::Engine(e)),
    }
}

/// Builds a Wasmtime engine with `settings`. Whether the runtime builds it
/// is not in the library's hands: the targets it accepts follow the machine
/// the crate was built on, and building allocates fallibly. A failure is
/// reported as an engine failure carrying the runtime's error, as
/// `report_engine` states.
pub fn configure_engine(settings: EngineSettings) -> (engine: Result<ConfiguredEngine, HostError>)
    ensures
        engine matches Ok(configured) ==> configured.settings() == settings,
        engine matches Err(e) ==> e is Engine,
{
    report_engine(engine_from_settings(settings))
}

/// Builds the host's Wasmtime engine: the component model enabled and the
/// `PULLEY_TARGET` target selected, so that components run on the Pulley
/// interpreter, with fuel metering on. Success is not promised, for the
/// reasons given at `configure_engine`.
pub fn build_engine() -> (engine: Result<ConfiguredEngine, HostError>)
    ensures
        engine matches Ok(configured) ==> is_pulley_settings(configured.settings()),
        engine matches Err(e) ==> e is Engine,
{
    configure_engine(pulley_settings())
}

/// Any two engines the host builds are configured alike.
pub proof fn lemma_engines_configured_alike(first: ConfiguredEngine, second: ConfiguredEngine)
    requires
        is_pulley_settings(first.settings()),
        is_pulley_settings(second.settings()),
    ensures
        first.settings().component_model == second.settings().component_model,
        first.settings().target@ == second.settings().target@,
        first.settings().consume_fuel == second.settings().consume_fuel,
        first.settings().memory_reservation == second.settings().memory_reservation,
        first.settings().memory_reservation_for_growth
            == second.settings().memory_reservation_for_growth,
{
}

/// Whether the export call `call` was made on `export` with `args`.
pub open spec fn is_call(call: CallRecord, export: Seq<char>, args: CallArgs) -> bool {
    call.export == export && call.args == args
}

/// What the host reports once `run` returned `run_message` and `describe`
/// was called with `outcome`: a description where `describe` returned one,
/// none where the component has no such export, and the `Describe` failure,
/// carrying `run`'s message, where it trapped.
pub open spec fn describe_report(run_message: String, outcome: ExportCall) -> Result<
    ComponentReport,
    HostError,
> {
    match outcome {
        ExportCall::Returned(d) => Ok(ComponentReport { run_message, description: Some(d) }),
        ExportCall::Missing(_) => Ok(ComponentReport { run_message, description: None }),
        ExportCall::Trapped(error) => Err(HostError::Describe { run_message, error }),
    }
}

/// The export calls `calls` are those the host makes for the guest name
/// `name`, and `report` is what it reports of them:
/// - first `run` with `Some(name)`; where it traps, that is the `Call` failure;
/// - where there is no such `run`, `run` with no arguments; where that is
///   missing too, the `MissingRun` failure, and where it traps, the `Call`
///   failure;
/// - once a `run` returned, `describe` with no arguments, reported as
///   `describe_report` says; no other call is made.
pub open spec fn exports_run(
    calls: Seq<CallRecord>,
    name: Seq<char>,
    report: Result<ComponentReport, HostError>,
) -> bool {
    &&& calls.len() >= 1
    &&& is_call(calls[0], "run"@, CallArgs::OptionalString(Some(name)))
    &&& match calls[0].outcome {
        ExportCall::Returned(m) => {
            &&& calls.len() == 2
            &&& is_call(calls[1], "describe"@, CallArgs::Nothing)
            &&& report == describe_report(m, calls[1].outcome)
        },
        ExportCall::Trapped(e) => calls.len() == 1 && report == Err::<ComponentReport, HostError>(
            HostError::Call(e),
        ),
        ExportCall::Missing(_) => {
            &&& calls.len() >= 2
            &&& is_call(calls[1], "run"@, CallArgs::Nothing)
            &&& match calls[1].outcome {
                ExportCall::Returned(m) => {
                    &&& calls.len() == 3
                    &&& is_call(calls[2], "describe"@, CallArgs::Nothing)
                    &&& report == describe_report(m, calls[2].outcome)
                },
                ExportCall::Trapped(e) => calls.len() == 2 && report == Err::<
                    ComponentReport,
                    HostError,
                >(HostError::Call(e)),
                ExportCall::Missing(e) => calls.len() == 2 && report == Err::<
                    ComponentReport,
                    HostError,
                >(HostError::MissingRun(e)),
            }
        },
    }
}

/// A successful run reports what the guest's exports returned: its run
/// message is what a `run` call returned, the last call is `describe`, and
/// the description is what `describe` returned, or none where the component
/// has no such export.
pub proof fn lemma_report_is_what_exports_returned(
    calls: Seq<CallRecord>,
    name: Seq<char>,
    report: ComponentReport,
)
    requires
        exports_run(calls, name, Ok(report)),
    ensures
        exists|i: int|
            0 <= i < calls.len() && #[trigger] calls[i].export == "run"@ && calls[i].outcome
                == ExportCall::Returned(report.run_message),
        calls.last().export == "describe"@,
        report.description matches Some(d) ==> calls.last().outcome == ExportCall::Returned(d),
        report.description is None ==> calls.last().outcome is Missing,
{
    if calls[0].outcome is Returned {
        assert(calls[0].export == "run"@);
    } else {
        assert(calls[1].export == "run"@);
    }
}

/// Reports the outcome of calling `describe` after `run` returned
/// `run_message`.
pub fn report_description(run_message: String, outcome: ExportCall) -> (report: Result<
    ComponentReport,
    HostError,
>)
    ensures
        report == describe_report(run_message, outcome),
{
    match outcome {
        ExportCall::Returned(d) => Ok(ComponentReport { run_message, description: Some(d) }),
        ExportCall::Missing(_) => Ok(ComponentReport { run_message, description: None }),
        ExportCall::Trapped(error) => Err(HostError::Describe { run_message, error }),
    }
}

/// Calls the exports of a live instance for the guest name `name`, as
/// `exports_run` says: `run` with `Some(name)`, else `run` with no arguments,
/// then `describe`. The calls it makes are appended to the instance's record
/// and the report is what `exports_run` gives for them.
pub fn run_exports(live: &mut LiveInstance, name: &str) -> (report: Result<
    ComponentReport,
    HostError,
>)
    ensures
        final(live).settings() == old(live).settings(),
        final(live).source() == old(live).source(),
        final(live).granted_fuel() == old(live).granted_fuel(),
        final(live).calls().len() >= old(live).calls().len(),
        final(live).calls().subrange(0, old(live).calls().len() as int) == old(live).calls(),
        exports_run(final(live).calls().skip(old(live).calls().len() as int), name@, report),
        final(live).calls().len() > old(live).calls().len(),
        final(live).calls()[old(live).calls().len() as int].export == "run"@,
        final(live).calls()[old(live).calls().len() as int].args == CallArgs::OptionalString(
            Some(name@),
        ),
{
    let ghost before = live.calls();
    let arg = Some(name.to_owned());
    assert(arg.deep_view() == Some(name@));
    let named = call_with_optional_string(live, "run", arg);
    let ghost after_named = live.calls();
    let run_message = match named {
        ExportCall::Returned(m) => m,
        ExportCall::Trapped(e) => {
            assert(live.calls().skip(before.len() as int) =~= seq![after_named.last()]);
            assert(live.calls().subrange(0, before.len() as int) =~= before);
            return Err(HostError::Call(e));
        },
        ExportCall::Missing(_) => {
            let plain = call_without_args(live, "run");
            let ghost after_plain = live.calls();
            assert(live.calls().skip(before.len() as int) =~= seq![
                after_named.last(),
                after_plain.last(),
            ]);
            assert(live.calls().subrange(0, before.len() as int) =~= before);
            match plain {
                ExportCall::Returned(m) => m,
                ExportCall::Trapped(e) => return Err(HostError::Call(e)),
                ExportCall::Missing(e) => return Err(HostError::MissingRun(e)),
            }
        },
    };
    let ghost after_run = live.calls();
    let described = call_without_args(live, "describe");
    let ghost after_describe = live.calls();
    assert(after_describe.subrange(0, before.len() as int) =~= before);
    assert(after_describe.skip(before.len() as int) =~= after_run.skip(before.len() as int).push(
        after_describe.last(),
    ));
    report_description(run_message, described)
}

/// A run of one component: what is reported of it, and the instance its
/// exports were called on, where compiling and instantiating succeeded.
pub struct ComponentRun {
    pub report: Result<ComponentReport, HostError>,
    pub instance: Option<LiveInstance>,
}

/// Compiles one component with `engine`, instantiates it with no imports in
/// a fresh store granted `GUEST_FUEL`, and calls its exports as
/// `run_exports` does.
///
/// Where compiling or instantiating fails, the run ends there with the
/// `Compile` or `Instantiate` failure and no instance; with an engine that
/// does not consume fuel the run always ends there, before any guest code
/// runs.
/// Otherwise the run hands back the instance, made from `bytes` on an
/// engine with `engine`'s settings, whose record holds exactly the export
/// calls made, and the report is what `exports_run` gives for them. Which
/// bytes compile, which exports the component has and what they return is
/// the component's own business.
pub fn run_component(engine: &ConfiguredEngine, bytes: &[u8], name: &str) -> (run: ComponentRun)
    ensures
        run.instance matches None ==> (run.report matches Err(e) && (e is Compile
            || e is Instantiate)),
        !engine.settings().consume_fuel ==> run.instance is None,
        run.instance matches Some(live) ==> {
            &&& engine.settings().consume_fuel
            &&& live.granted_fuel() == GUEST_FUEL
            &&& live.settings() == engine.settings()
            &&& live.source() == bytes@
            &&& exports_run(live.calls(), name@, run.report)
        },
{
    let component = match compile_component(engine, bytes) {
        Ok(component) => component,
        Err(e) => return ComponentRun { report: Err(HostError::Compile(e)), instance: None },
    };
    let mut live = match instantiate_live(&component, GUEST_FUEL) {
        Ok(live) => live,
        Err(e) => return ComponentRun { report: Err(HostError::Instantiate(e)), instance: None },
    };
    let report = run_exports(&mut live, name);
    assert(live.calls().skip(0) =~= live.calls());
    ComponentRun { report, instance: Some(live) }
}

} // verus!

verus! {

/// The greeted name is the first argument after the program's own name,
/// verbatim, whatever it holds; "Pulley" only when there is no such
/// argument.
pub proof fn lemma_chosen_name(args: Seq<Seq<char>>)
    ensures
        args.len() > 1 ==> chosen_name(args) == args[1],
        args.len() <= 1 ==> chosen_name(args) == "Pulley"@,
{
}

/// Arguments after the first do not change the greeted name.
pub proof fn lemma_chosen_name_ignores_later_arguments(args: Seq<Seq<char>>, extra: Seq<char>)
    requires
        args.len() > 1,
    ensures
        chosen_name(args.push(extra)) == chosen_name(args),
{
}

/// The first export call of every run is `run` with the given name, verbatim.
pub proof fn lemma_run_gets_the_name(
    calls: Seq<CallRecord>,
    name: Seq<char>,
    report: Result<ComponentReport, HostError>,
)
    requires
        exports_run(calls, name, report),
    ensures
        calls.len() >= 1,
        calls[0].export == "run"@,
        calls[0].args == CallArgs::OptionalString(Some(name)),
{
}

/// The printed lines: the run message first, and exactly one more line,
/// "describe: " and the description, when there is a description.
pub proof fn lemma_report_lines(run_message: Seq<char>, description: Option<Seq<char>>)
    ensures
        report_lines(run_message, description).len() == if description is Some {
            2int
        } else {
            1int
        },
        report_lines(run_message, description)[0] == run_message,
        description matches Some(d) ==> report_lines(run_message, description)[1]
            == "describe: "@ + d,
{
}

} // verus!
