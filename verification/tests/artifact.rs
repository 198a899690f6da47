use sel4_build_config::cache::{ingest, ConstantValue, GeneratedConstant, IngestedCache};
use sel4_build_config::emit::{
    emit, file_name, path_of_artifact, process_cmake_cache, push_declaration, render_module,
    signal_feature, signal_rebuild, signals_for_host, variable_of_cache_path,
    variable_with_namespace,
};
use sel4_build_config::error::ConfigError;

fn sample_cache() -> Vec<String> {
    [
        "# This is the CMakeCache file.",
        "# For build in directory: /tmp/out/build",
        "# You can edit this file to change values found and used by cmake.",
        "",
        "########################",
        "# EXTERNAL cache entries",
        "########################",
        "",
        "//Build with common simulation settings",
        "BuildWithCommonSimulationSettings:BOOL=ON",
        "",
        "//Path to a program.",
        "CMAKE_AR:FILEPATH=/usr/bin/ar",
        "",
        "//Choose the type of build",
        "CMAKE_BUILD_TYPE:STRING=",
        "",
        "//Architecture of the kernel",
        "KernelArch:STRING=x86",
        "",
        "//Build the kernel with debug support",
        "KernelDebugBuild:BOOL=OFF",
        "",
        "//Max number of CPU cores to boot",
        "KernelMaxNumNodes:STRING=4",
        "",
        "//Kernel printing",
        "KernelPrinting:BOOL=TRUE",
        "",
        "KernelRetypeFanOutLimit:STRING=256",
        "",
        "LibSel4FunctionAttributes:STRING=public",
        "",
        "KERNEL_PATH:UNINITIALIZED=/src/kernel",
        "",
        "########################",
        "# INTERNAL cache entries",
        "########################",
        "",
        "//ADVANCED property for variable: CMAKE_AR",
        "CMAKE_AR-ADVANCED:INTERNAL=1",
        "KernelPlatformChoice:STATIC=pc99",
        "KernelDir:PATH=/src/kernel",
    ]
    .iter()
    .map(|line| line.to_string())
    .collect()
}

fn sample_module(namespace: &str) -> String {
    format!(
        "#[allow(dead_code)]\nmod {}_config {{\n{}{}{}{}{}{}{}}}\n",
        namespace,
        "    pub const BUILD_WITH_COMMON_SIMULATION_SETTINGS: bool = true;\n",
        "    pub const KERNEL_ARCH: &'static str = \"x86\";\n",
        "    pub const KERNEL_DEBUG_BUILD: bool = false;\n",
        "    pub const KERNEL_MAX_NUM_NODES: usize = 4;\n",
        "    pub const KERNEL_PRINTING: bool = true;\n",
        "    pub const KERNEL_RETYPE_FAN_OUT_LIMIT: usize = 256;\n",
        "    pub const LIB_SEL4_FUNCTION_ATTRIBUTES: &'static str = \"public\";\n",
    )
}

#[test]
fn test_cache_file_processing() {
    let artifact = process_cmake_cache("sel4", &sample_cache()).unwrap();
    assert_eq!(artifact.file_name, "sel4_config.rs");
    assert_eq!(artifact.contents, sample_module("sel4"));
    assert_eq!(
        artifact.features,
        vec!["BUILD_WITH_COMMON_SIMULATION_SETTINGS".to_string(), "KERNEL_PRINTING".to_string()]
    );
}

#[test]
fn test_env_cache_file_processing() {
    assert_eq!(variable_of_cache_path("test"), "DEP_TEST_CMAKE_CACHE_PATH");
    let artifact = process_cmake_cache("test", &sample_cache()).unwrap();
    assert_eq!(artifact.file_name, "test_config.rs");
    assert_eq!(artifact.contents, sample_module("test"));
}

#[test]
fn processing_fails_on_a_key_without_identifier() {
    let lines = vec!["KernelArch:STRING=x86".to_string(), "kernel.arch:STRING=x86".to_string()];
    assert_eq!(
        process_cmake_cache("sel4", &lines),
        Err(ConfigError::InvalidGeneratedIdentifier { key: "kernel.arch".to_string() })
    );
}

#[test]
fn declarations_have_the_type_of_their_value() {
    let declare = |key: &str, value: ConstantValue| {
        let mut out = String::from("<");
        push_declaration(&mut out, &GeneratedConstant { key: key.to_string(), value });
        out
    };
    assert_eq!(declare("A", ConstantValue::Bool(true)), "<    pub const A: bool = true;\n");
    assert_eq!(declare("A", ConstantValue::Bool(false)), "<    pub const A: bool = false;\n");
    assert_eq!(declare("B_1", ConstantValue::UnsignedInteger(0)), "<    pub const B_1: usize = 0;\n");
    assert_eq!(
        declare("B_1", ConstantValue::UnsignedInteger(4294967296)),
        "<    pub const B_1: usize = 4294967296;\n"
    );
    assert_eq!(
        declare("B_1", ConstantValue::UnsignedInteger(u64::MAX)),
        "<    pub const B_1: usize = 18446744073709551615;\n"
    );
    assert_eq!(
        declare("C", ConstantValue::Str("x86".to_string())),
        "<    pub const C: &'static str = \"x86\";\n"
    );
    assert_eq!(
        declare("C", ConstantValue::Str(String::new())),
        "<    pub const C: &'static str = \"\";\n"
    );
}

#[test]
fn module_without_constants_is_an_empty_module() {
    assert_eq!(render_module("sel4", &Vec::new()), "#[allow(dead_code)]\nmod sel4_config {\n}\n");
}

#[test]
fn module_holds_the_declarations_in_order() {
    let constants = vec![
        GeneratedConstant { key: "B".to_string(), value: ConstantValue::UnsignedInteger(12) },
        GeneratedConstant { key: "A".to_string(), value: ConstantValue::Bool(true) },
    ];
    assert_eq!(
        render_module("ns", &constants),
        "#[allow(dead_code)]\nmod ns_config {\n    pub const B: usize = 12;\n    pub const A: bool = true;\n}\n"
    );
}

#[test]
fn emitting_twice_gives_the_same_artifact() {
    let first = ingest(&sample_cache(), "sel4").unwrap();
    let second = ingest(&sample_cache(), "sel4").unwrap();
    assert_eq!(emit(&first), emit(&second));
    assert_eq!(emit(&first), emit(&first));
    assert_eq!(emit(&first).contents.as_bytes(), emit(&second).contents.as_bytes());
    assert_eq!(
        process_cmake_cache("sel4", &sample_cache()),
        process_cmake_cache("sel4", &sample_cache())
    );
}

#[test]
fn emit_carries_name_text_and_features() {
    let cache = IngestedCache {
        namespace: "demo".to_string(),
        constants: vec![GeneratedConstant {
            key: "ON_SWITCH".to_string(),
            value: ConstantValue::Bool(true),
        }],
        features: vec!["ON_SWITCH".to_string()],
    };
    let artifact = emit(&cache);
    assert_eq!(artifact.file_name, "demo_config.rs");
    assert_eq!(
        artifact.contents,
        "#[allow(dead_code)]\nmod demo_config {\n    pub const ON_SWITCH: bool = true;\n}\n"
    );
    assert_eq!(artifact.features, vec!["ON_SWITCH".to_string()]);
}

#[test]
fn artifact_names_and_paths() {
    assert_eq!(file_name("sel4"), "sel4_config.rs");
    assert_eq!(file_name(""), "_config.rs");
    assert_eq!(path_of_artifact("/tmp/out", "sel4"), "/tmp/out/sel4_config.rs");
}

#[test]
fn cache_path_variable_shouts_the_namespace() {
    assert_eq!(variable_of_cache_path("sel4"), "DEP_SEL4_CMAKE_CACHE_PATH");
    assert_eq!(variable_of_cache_path("myKernel"), "DEP_MY_KERNEL_CMAKE_CACHE_PATH");
    assert_eq!(variable_with_namespace("X_Y"), "DEP_X_Y_CMAKE_CACHE_PATH");
}

#[test]
fn signals_for_the_host_build() {
    assert_eq!(signal_feature("KERNEL_PRINTING"), "cargo:rustc-cfg=feature=\"KERNEL_PRINTING\"");
    assert_eq!(signal_rebuild("/tmp/x"), "cargo:rerun-if-changed=/tmp/x");
    assert_eq!(
        signals_for_host(
            &vec!["A".to_string(), "B".to_string()],
            "/out/build/CMakeCache.txt",
            "/out"
        ),
        vec![
            "cargo:rustc-cfg=feature=\"A\"".to_string(),
            "cargo:rustc-cfg=feature=\"B\"".to_string(),
            "cargo:rerun-if-changed=/out/build/CMakeCache.txt".to_string(),
            "cargo:rerun-if-changed=/out".to_string(),
        ]
    );
    assert_eq!(
        signals_for_host(&Vec::new(), "c", "o"),
        vec!["cargo:rerun-if-changed=c".to_string(), "cargo:rerun-if-changed=o".to_string()]
    );
}
