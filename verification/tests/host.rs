use hello_world::host::{
    build_engine, configure_engine, describe_line, guest_name, pulley_settings,
    report_description, report_engine, run_component, ComponentReport, HostError,
    DEFAULT_GUEST_NAME, MEMORY_RESERVATION, MEMORY_RESERVATION_FOR_GROWTH, PULLEY_TARGET,
};
use hello_world::runtime::{ConfiguredEngine, EngineSettings, ExportCall};

/// A component with the guest1 interface: `run: func() -> string`.
const GUEST1_WAT: &str = r#"
(component
  (core module $m
    (memory (export "memory") 1)
    (data (i32.const 64) "guest1 run() called")
    (func (export "run") (result i32)
      (i32.store (i32.const 0) (i32.const 64))
      (i32.store (i32.const 4) (i32.const 19))
      (i32.const 0)))
  (core instance $i (instantiate $m))
  (func (export "run") (result string)
    (canon lift (core func $i "run") (memory (core memory $i "memory")))))
"#;

/// A component with the guest2 interface:
/// `run: func(name: option<string>) -> string` and `describe: func() -> string`.
const GUEST2_WAT: &str = r#"
(component
  (core module $m
    (memory (export "memory") 1)
    (global $bump (mut i32) (i32.const 1024))
    (data (i32.const 16) "guest2 run() called: hello, ")
    (data (i32.const 48) "world")
    (data (i32.const 64) "guest2 has an extra `describe` export")
    (func (export "realloc") (param i32 i32 i32 i32) (result i32)
      (local $p i32)
      (local.set $p (global.get $bump))
      (global.set $bump (i32.add (local.get $p) (local.get 3)))
      (local.get $p))
    (func (export "run") (param $tag i32) (param $ptr i32) (param $len i32) (result i32)
      (local $out i32)
      (if (i32.eqz (local.get $tag))
        (then (local.set $ptr (i32.const 48)) (local.set $len (i32.const 5))))
      (local.set $out (i32.const 8192))
      (memory.copy (local.get $out) (i32.const 16) (i32.const 28))
      (memory.copy (i32.add (local.get $out) (i32.const 28)) (local.get $ptr) (local.get $len))
      (i32.store8 (i32.add (i32.add (local.get $out) (i32.const 28)) (local.get $len)) (i32.const 33))
      (i32.store (i32.const 0) (local.get $out))
      (i32.store (i32.const 4) (i32.add (local.get $len) (i32.const 29)))
      (i32.const 0))
    (func (export "describe") (result i32)
      (i32.store (i32.const 8) (i32.const 64))
      (i32.store (i32.const 12) (i32.const 37))
      (i32.const 8)))
  (core instance $i (instantiate $m))
  (func (export "run") (param "name" (option string)) (result string)
    (canon lift (core func $i "run") (memory (core memory $i "memory")) (realloc (core func $i "realloc"))))
  (func (export "describe") (result string)
    (canon lift (core func $i "describe") (memory (core memory $i "memory")))))
"#;

/// A component whose only export is not called `run`.
const NO_RUN_WAT: &str = r#"
(component
  (core module $m
    (memory (export "memory") 1)
    (func (export "start") (result i32)
      (i32.const 0)))
  (core instance $i (instantiate $m))
  (func (export "start") (result string)
    (canon lift (core func $i "start") (memory (core memory $i "memory")))))
"#;

/// A component whose `run` traps.
const TRAPPING_RUN_WAT: &str = r#"
(component
  (core module $m
    (memory (export "memory") 1)
    (func (export "run") (result i32)
      unreachable))
  (core instance $i (instantiate $m))
  (func (export "run") (result string)
    (canon lift (core func $i "run") (memory (core memory $i "memory")))))
"#;

/// A component whose `run` returns and whose `describe` traps.
const TRAPPING_DESCRIBE_WAT: &str = r#"
(component
  (core module $m
    (memory (export "memory") 1)
    (data (i32.const 64) "guest1 run() called")
    (func (export "run") (result i32)
      (i32.store (i32.const 0) (i32.const 64))
      (i32.store (i32.const 4) (i32.const 19))
      (i32.const 0))
    (func (export "describe") (result i32)
      unreachable))
  (core instance $i (instantiate $m))
  (func (export "run") (result string)
    (canon lift (core func $i "run") (memory (core memory $i "memory"))))
  (func (export "describe") (result string)
    (canon lift (core func $i "describe") (memory (core memory $i "memory")))))
"#;

/// A component whose `describe` returns a number rather than a string.
const MISTYPED_DESCRIBE_WAT: &str = r#"
(component
  (core module $m
    (memory (export "memory") 1)
    (data (i32.const 64) "guest1 run() called")
    (func (export "run") (result i32)
      (i32.store (i32.const 0) (i32.const 64))
      (i32.store (i32.const 4) (i32.const 19))
      (i32.const 0))
    (func (export "describe") (result i32)
      (i32.const 7)))
  (core instance $i (instantiate $m))
  (func (export "run") (result string)
    (canon lift (core func $i "run") (memory (core memory $i "memory"))))
  (func (export "describe") (result u32)
    (canon lift (core func $i "describe"))))
"#;

/// A component that imports a host function, which the empty linker lacks.
const IMPORTING_WAT: &str = r#"
(component
  (import "log" (func $log))
  (core func $log_lowered (canon lower (func $log)))
  (core module $m
    (import "host" "log" (func))
    (memory (export "memory") 1)
    (func (export "run") (result i32)
      (i32.const 0)))
  (core instance $host (export "log" (func $log_lowered)))
  (core instance $i (instantiate $m (with "host" (instance $host))))
  (func (export "run") (result string)
    (canon lift (core func $i "run") (memory (core memory $i "memory")))))
"#;

fn args(items: &[&str]) -> Vec<String> {
    items.iter().map(|s| s.to_string()).collect()
}

/// Settings like the host's, but with small linear-memory reservations, so
/// that instances fit in a sandbox with little address space.
fn small_settings(consume_fuel: bool) -> EngineSettings {
    EngineSettings {
        component_model: true,
        target: PULLEY_TARGET.to_string(),
        consume_fuel,
        memory_reservation: 1 << 20,
        memory_reservation_for_growth: 1 << 16,
    }
}

fn small_pulley_engine() -> ConfiguredEngine {
    configure_engine(small_settings(true)).expect("small Pulley engine")
}

fn run_wat(wat: &str, name: &str) -> Result<ComponentReport, HostError> {
    run_component(&small_pulley_engine(), wat.as_bytes(), name).report
}

/// A component whose `run` never ends on its own.
const LOOPING_RUN_WAT: &str = r#"
(component
  (core module $m
    (memory (export "memory") 1)
    (func (export "run") (result i32)
      (loop $forever (br $forever))
      (i32.const 0)))
  (core instance $i (instantiate $m))
  (func (export "run") (result string)
    (canon lift (core func $i "run") (memory (core memory $i "memory")))))
"#;

#[test]
fn guest_name_defaults_to_pulley() {
    assert_eq!(DEFAULT_GUEST_NAME, "Pulley");
    assert_eq!(guest_name(&args(&["hello"])), "Pulley");
    assert_eq!(guest_name(&Vec::new()), "Pulley");
}

#[test]
fn guest_name_takes_the_first_argument() {
    assert_eq!(guest_name(&args(&["hello", "Kevin"])), "Kevin");
    assert_eq!(guest_name(&args(&["hello", "Kevin", "Alice"])), "Kevin");
    assert_eq!(guest_name(&args(&["hello", ""])), "");
}

#[test]
fn describe_line_prefixes_the_message() {
    assert_eq!(
        describe_line("guest2 has an extra `describe` export"),
        "describe: guest2 has an extra `describe` export"
    );
    assert_eq!(describe_line(""), "describe: ");
}

#[test]
fn report_lines_without_description() {
    let report = ComponentReport {
        run_message: "guest1 run() called".to_string(),
        description: None,
    };
    assert_eq!(report.lines(), vec!["guest1 run() called".to_string()]);
}

#[test]
fn report_lines_with_description() {
    let report = ComponentReport {
        run_message: "guest2 run() called: hello, Kevin!".to_string(),
        description: Some("guest2 has an extra `describe` export".to_string()),
    };
    assert_eq!(
        report.lines(),
        vec![
            "guest2 run() called: hello, Kevin!".to_string(),
            "describe: guest2 has an extra `describe` export".to_string(),
        ]
    );
}

#[test]
fn pulley_engine_builds() {
    assert_eq!(PULLEY_TARGET, "pulley64");
    assert!(build_engine().is_ok());
}

#[test]
fn invalid_bytes_fail_to_compile() {
    let engine = build_engine().expect("Pulley engine");
    let run = run_component(&engine, b"not a component", "Pulley");
    assert!(matches!(run.report, Err(HostError::Compile(_))));
    assert!(run.instance.is_none());
}

#[test]
fn component_without_parameter_runs_without_arguments() {
    let report = run_wat(GUEST1_WAT, "Pulley").expect("guest1 fixture runs");
    assert_eq!(report.run_message, "guest1 run() called");
    assert!(report.description.is_none());
    assert_eq!(report.lines(), vec!["guest1 run() called".to_string()]);
}

#[test]
fn component_with_parameter_gets_the_name_and_is_described() {
    let report = run_wat(GUEST2_WAT, "Kevin").expect("guest2 fixture runs");
    assert_eq!(report.run_message, "guest2 run() called: hello, Kevin!");
    assert_eq!(
        report.description.as_deref(),
        Some("guest2 has an extra `describe` export")
    );
    assert_eq!(
        report.lines(),
        vec![
            "guest2 run() called: hello, Kevin!".to_string(),
            "describe: guest2 has an extra `describe` export".to_string(),
        ]
    );
}

#[test]
fn component_with_parameter_gets_the_default_guest_name() {
    let report = run_wat(GUEST2_WAT, DEFAULT_GUEST_NAME).expect("guest2 fixture runs");
    assert_eq!(report.run_message, "guest2 run() called: hello, Pulley!");
}

#[test]
fn component_without_run_is_reported() {
    let result = run_wat(NO_RUN_WAT, "Pulley");
    assert!(matches!(result, Err(HostError::MissingRun(_))));
}

#[test]
fn trapping_run_is_reported() {
    let result = run_wat(TRAPPING_RUN_WAT, "Pulley");
    assert!(matches!(result, Err(HostError::Call(_))));
}

#[test]
fn missing_import_fails_instantiation() {
    let result = run_wat(IMPORTING_WAT, "Pulley");
    assert!(matches!(result, Err(HostError::Instantiate(_))));
}

#[test]
fn pulley_settings_select_component_model_and_pulley64() {
    let settings = pulley_settings();
    assert!(settings.component_model);
    assert_eq!(settings.target, "pulley64");
    assert!(settings.consume_fuel);
    assert_eq!(settings.memory_reservation, MEMORY_RESERVATION);
    assert_eq!(settings.memory_reservation_for_growth, MEMORY_RESERVATION_FOR_GROWTH);
    assert_eq!(MEMORY_RESERVATION, 1 << 32);
    assert_eq!(MEMORY_RESERVATION_FOR_GROWTH, 2 << 30);
}

#[test]
fn engine_failure_is_reported_as_engine_error() {
    let report = report_engine(Err(wasmtime::Error::msg("no engine")));
    match report {
        Err(HostError::Engine(e)) => assert_eq!(e.to_string(), "no engine"),
        _ => panic!("expected an engine failure"),
    }
    let built = build_engine().expect("Pulley engine");
    assert!(report_engine(Ok(built)).is_ok());
}

#[test]
fn description_outcomes_are_reported() {
    let described = report_description(
        "m".to_string(),
        ExportCall::Returned("d".to_string()),
    )
    .expect("described");
    assert_eq!(described.run_message, "m");
    assert_eq!(described.description.as_deref(), Some("d"));
    let undescribed = report_description(
        "m".to_string(),
        ExportCall::Missing(wasmtime::Error::msg("missing")),
    )
    .expect("undescribed");
    assert_eq!(undescribed.run_message, "m");
    assert!(undescribed.description.is_none());
    match report_description("m".to_string(), ExportCall::Trapped(wasmtime::Error::msg("trap"))) {
        Err(HostError::Describe { run_message, error }) => {
            assert_eq!(run_message, "m");
            assert_eq!(error.to_string(), "trap");
        }
        _ => panic!("expected a describe failure"),
    }
}

#[test]
fn trapping_describe_keeps_the_run_message() {
    match run_wat(TRAPPING_DESCRIBE_WAT, "Pulley") {
        Err(HostError::Describe { run_message, .. }) => {
            assert_eq!(run_message, "guest1 run() called")
        }
        _ => panic!("expected a describe failure"),
    }
}

#[test]
fn mistyped_describe_gives_no_description() {
    let report = run_wat(MISTYPED_DESCRIBE_WAT, "Pulley").expect("fixture runs");
    assert_eq!(report.run_message, "guest1 run() called");
    assert!(report.description.is_none());
}

#[test]
fn repeated_runs_agree() {
    let engine = small_pulley_engine();
    let first = run_component(&engine, GUEST2_WAT.as_bytes(), "Kevin").report.expect("first run");
    let second = run_component(&engine, GUEST2_WAT.as_bytes(), "Kevin").report.expect("second run");
    assert_eq!(first.lines(), second.lines());
}

#[test]
fn looping_run_runs_out_of_fuel() {
    let result = run_wat(LOOPING_RUN_WAT, "Pulley");
    assert!(matches!(result, Err(HostError::Call(_))));
}

#[test]
fn engine_without_fuel_runs_no_guest_code() {
    let engine = configure_engine(small_settings(false)).expect("engine without fuel");
    let run = run_component(&engine, GUEST1_WAT.as_bytes(), "Pulley");
    assert!(matches!(run.report, Err(HostError::Instantiate(_))));
    assert!(run.instance.is_none());
}

#[test]
fn successful_run_hands_back_its_instance() {
    let run = run_component(&small_pulley_engine(), GUEST1_WAT.as_bytes(), "Pulley");
    assert!(run.report.is_ok());
    assert!(run.instance.is_some());
}
