use sel4_build_config::cache::{
    ingest, ingest_line, parse_cache_line, read_bool_literal, resolve_constant, typed_value,
    CacheEntry, ConstantValue, GeneratedConstant, TypeHint,
};
use sel4_build_config::casing::{accept_identifier, is_identifier, normalize_key};
use sel4_build_config::error::ConfigError;

fn entry_of(key: &str, type_hint: TypeHint, value: &str) -> CacheEntry {
    CacheEntry { key: key.to_string(), type_hint, value: value.to_string() }
}

fn constant_of(key: &str, value: ConstantValue) -> GeneratedConstant {
    GeneratedConstant { key: key.to_string(), value }
}

fn lines_of(text: &[&str]) -> Vec<String> {
    text.iter().map(|line| line.to_string()).collect()
}

#[test]
fn line_splits_into_key_type_and_value() {
    assert_eq!(
        parse_cache_line("KernelMaxNumNodes:STRING=4"),
        Some(entry_of("KernelMaxNumNodes", TypeHint::Str, "4"))
    );
    assert_eq!(
        parse_cache_line("KernelDebugBuild:BOOL=ON"),
        Some(entry_of("KernelDebugBuild", TypeHint::Bool, "ON"))
    );
}

#[test]
fn line_is_trimmed_before_it_is_read() {
    assert_eq!(
        parse_cache_line("  \tKernelArch:STRING=x86 \r"),
        Some(entry_of("KernelArch", TypeHint::Str, "x86"))
    );
    assert_eq!(
        parse_cache_line("\u{2003}KernelArch:STRING=x86\u{3000}"),
        Some(entry_of("KernelArch", TypeHint::Str, "x86"))
    );
}

#[test]
fn only_the_first_colon_and_the_first_equals_delimit() {
    assert_eq!(
        parse_cache_line("Flags:STRING=-O2 -DX=1:2"),
        Some(entry_of("Flags", TypeHint::Str, "-O2 -DX=1:2"))
    );
    assert_eq!(
        parse_cache_line("Name:STRING=a:PATH=b"),
        Some(entry_of("Name", TypeHint::Str, "a:PATH=b"))
    );
}

#[test]
fn empty_value_and_empty_type_are_read() {
    assert_eq!(
        parse_cache_line("CMAKE_BUILD_TYPE:STRING="),
        Some(entry_of("CMAKE_BUILD_TYPE", TypeHint::Str, ""))
    );
    assert_eq!(parse_cache_line("Key:=v"), Some(entry_of("Key", TypeHint::Str, "v")));
}

#[test]
fn comments_and_blank_lines_hold_nothing() {
    assert_eq!(parse_cache_line(""), None);
    assert_eq!(parse_cache_line("   "), None);
    assert_eq!(parse_cache_line("# This is the CMakeCache file."), None);
    assert_eq!(parse_cache_line("#Key:BOOL=ON"), None);
    assert_eq!(parse_cache_line("//Build the kernel with debug support"), None);
    assert_eq!(parse_cache_line("  //Key:BOOL=ON"), None);
}

#[test]
fn lines_without_the_delimiter_pattern_hold_nothing() {
    assert_eq!(parse_cache_line("no delimiters at all"), None);
    assert_eq!(parse_cache_line("Key=value"), None);
    assert_eq!(parse_cache_line("Key:BOOL"), None);
    assert_eq!(parse_cache_line("Key=value:more"), None);
    assert_eq!(parse_cache_line("/Key:BOOL=ON"), Some(entry_of("/Key", TypeHint::Bool, "ON")));
}

#[test]
fn type_words_map_to_hints() {
    let hint = |line: &str| parse_cache_line(line).map(|entry| entry.type_hint);
    assert_eq!(hint("K:BOOL=1"), Some(TypeHint::Bool));
    assert_eq!(hint("K:STRING=1"), Some(TypeHint::Str));
    assert_eq!(hint("K:FILEPATH=1"), Some(TypeHint::Path));
    assert_eq!(hint("K:PATH=1"), Some(TypeHint::Path));
    assert_eq!(hint("K:INTERNAL=1"), Some(TypeHint::Internal));
    assert_eq!(hint("K:STATIC=1"), Some(TypeHint::Static));
    assert_eq!(hint("K:UNINITIALIZED=1"), Some(TypeHint::Uninitialized));
    assert_eq!(hint("K:bool=1"), Some(TypeHint::Str));
    assert_eq!(hint("K:SOMETHING=1"), Some(TypeHint::Str));
}

#[test]
fn bookkeeping_is_told_by_type_or_by_reserved_key() {
    assert!(entry_of("KernelPath", TypeHint::Path, "/x").is_bookkeeping());
    assert!(entry_of("KernelPath", TypeHint::Internal, "x").is_bookkeeping());
    assert!(entry_of("KernelPath", TypeHint::Static, "x").is_bookkeeping());
    assert!(entry_of("KernelPath", TypeHint::Uninitialized, "x").is_bookkeeping());
    assert!(entry_of("CMAKE_BUILD_TYPE", TypeHint::Str, "Debug").is_bookkeeping());
    assert!(entry_of("CMAKE_", TypeHint::Bool, "ON").is_bookkeeping());
    assert!(!entry_of("CMAKE", TypeHint::Bool, "ON").is_bookkeeping());
    assert!(!entry_of("KernelCMAKE_", TypeHint::Bool, "ON").is_bookkeeping());
    assert!(!entry_of("cmake_thing", TypeHint::Str, "x").is_bookkeeping());
    assert!(!entry_of("KernelArch", TypeHint::Str, "x86").is_bookkeeping());
}

#[test]
fn bookkeeping_lines_never_become_constants() {
    for line in [
        "KernelHeader:FILEPATH=/usr/include/kernel.h",
        "KernelDir:PATH=/usr/src/kernel",
        "KernelFlag:INTERNAL=1",
        "KernelChoice:STATIC=a",
        "KERNEL_PATH:UNINITIALIZED=/x/y",
        "CMAKE_BUILD_TYPE:STRING=Debug",
        "CMAKE_EXPORT:BOOL=ON",
    ] {
        assert_eq!(ingest_line(line), Ok(None), "{}", line);
    }
    let cache = ingest(
        &lines_of(&[
            "KernelHeader:FILEPATH=/usr/include/kernel.h",
            "KernelDebugBuild:BOOL=ON",
            "CMAKE_EXPORT:BOOL=ON",
            "KernelFlag:INTERNAL=1",
        ]),
        "sel4",
    )
    .unwrap();
    assert_eq!(cache.constants, vec![constant_of("KERNEL_DEBUG_BUILD", ConstantValue::Bool(true))]);
    assert_eq!(cache.features, vec!["KERNEL_DEBUG_BUILD".to_string()]);
}

#[test]
fn string_entry_with_a_number_becomes_an_unsigned_constant() {
    assert_eq!(
        ingest_line("KernelMaxNumNodes:STRING=4"),
        Ok(Some(constant_of("KERNEL_MAX_NUM_NODES", ConstantValue::UnsignedInteger(4))))
    );
}

#[test]
fn number_above_thirty_two_bits_is_still_an_unsigned_constant() {
    assert_eq!(
        ingest_line("KernelMaxAddr:STRING=4294967296"),
        Ok(Some(constant_of("KERNEL_MAX_ADDR", ConstantValue::UnsignedInteger(4294967296))))
    );
}

#[test]
fn boolean_line_that_is_on_reads_back_as_true() {
    assert_eq!(
        ingest_line("DebugBuild:BOOL=ON"),
        Ok(Some(constant_of("DEBUG_BUILD", ConstantValue::Bool(true))))
    );
    assert_eq!(
        ingest_line("DebugBuild:BOOL=OFF"),
        Ok(Some(constant_of("DEBUG_BUILD", ConstantValue::Bool(false))))
    );
}

#[test]
fn canonical_boolean_spellings() {
    assert_eq!(read_bool_literal("ON"), Some(true));
    assert_eq!(read_bool_literal("TRUE"), Some(true));
    assert_eq!(read_bool_literal("OFF"), Some(false));
    assert_eq!(read_bool_literal("FALSE"), Some(false));
    assert_eq!(read_bool_literal("on"), None);
    assert_eq!(read_bool_literal("1"), None);
    assert_eq!(read_bool_literal(""), None);
    assert_eq!(read_bool_literal("ON "), None);
}

#[test]
fn boolean_entry_with_another_spelling_stays_a_string() {
    assert_eq!(typed_value(TypeHint::Bool, "yes"), ConstantValue::Str("yes".to_string()));
    assert_eq!(typed_value(TypeHint::Bool, "1"), ConstantValue::Str("1".to_string()));
    assert_eq!(typed_value(TypeHint::Bool, "true"), ConstantValue::Str("true".to_string()));
    assert_eq!(typed_value(TypeHint::Bool, "TRUE"), ConstantValue::Bool(true));
}

#[test]
fn string_entries_are_numbers_only_where_they_read_cleanly() {
    assert_eq!(typed_value(TypeHint::Str, "0"), ConstantValue::UnsignedInteger(0));
    assert_eq!(typed_value(TypeHint::Str, "256"), ConstantValue::UnsignedInteger(256));
    assert_eq!(typed_value(TypeHint::Str, "+7"), ConstantValue::UnsignedInteger(7));
    assert_eq!(typed_value(TypeHint::Str, "007"), ConstantValue::UnsignedInteger(7));
    assert_eq!(
        typed_value(TypeHint::Str, "4294967295"),
        ConstantValue::UnsignedInteger(4294967295)
    );
    assert_eq!(
        typed_value(TypeHint::Str, "4294967296"),
        ConstantValue::UnsignedInteger(4294967296)
    );
    assert_eq!(
        typed_value(TypeHint::Str, "18446744073709551615"),
        ConstantValue::UnsignedInteger(18446744073709551615)
    );
    assert_eq!(
        typed_value(TypeHint::Str, "+0018446744073709551615"),
        ConstantValue::UnsignedInteger(u64::MAX)
    );
    assert_eq!(
        typed_value(TypeHint::Str, "18446744073709551616"),
        ConstantValue::Str("18446744073709551616".to_string())
    );
    assert_eq!(
        typed_value(TypeHint::Str, "99999999999999999999999999"),
        ConstantValue::Str("99999999999999999999999999".to_string())
    );
    assert_eq!(typed_value(TypeHint::Str, "-1"), ConstantValue::Str("-1".to_string()));
    assert_eq!(typed_value(TypeHint::Str, ""), ConstantValue::Str("".to_string()));
    assert_eq!(typed_value(TypeHint::Str, "+"), ConstantValue::Str("+".to_string()));
    assert_eq!(typed_value(TypeHint::Str, "4 "), ConstantValue::Str("4 ".to_string()));
    assert_eq!(typed_value(TypeHint::Str, "0x10"), ConstantValue::Str("0x10".to_string()));
    assert_eq!(typed_value(TypeHint::Str, "ON"), ConstantValue::Str("ON".to_string()));
    assert_eq!(typed_value(TypeHint::Str, "x86"), ConstantValue::Str("x86".to_string()));
}

#[test]
fn keys_are_normalized_to_screaming_snake_case() {
    assert_eq!(normalize_key("KernelMaxNumNodes"), Ok("KERNEL_MAX_NUM_NODES".to_string()));
    assert_eq!(normalize_key("kernelArch"), Ok("KERNEL_ARCH".to_string()));
    assert_eq!(normalize_key("LibSel4FunctionAttributes"), Ok("LIB_SEL4_FUNCTION_ATTRIBUTES".to_string()));
    assert_eq!(normalize_key("XMLHttpRequest"), Ok("XML_HTTP_REQUEST".to_string()));
    assert_eq!(normalize_key("snake_case"), Ok("SNAKE_CASE".to_string()));
    assert_eq!(normalize_key("kebab-case"), Ok("KEBAB_CASE".to_string()));
}

#[test]
fn normalizing_a_normalized_key_changes_nothing() {
    for key in [
        "KernelMaxNumNodes",
        "kernelArch",
        "XMLHttpRequest",
        "KernelX86IBPBOnContextSwitch",
        "mixed_up_snake_case with some _spaces",
        "SHOUTY_SNAKE_CASE",
        "A1",
    ] {
        let once = normalize_key(key).unwrap();
        assert_eq!(normalize_key(&once), Ok(once.clone()), "{}", key);
    }
    assert_eq!(normalize_key("KERNEL_MAX_NUM_NODES"), Ok("KERNEL_MAX_NUM_NODES".to_string()));
}

#[test]
fn key_that_gives_no_identifier_is_fatal() {
    assert_eq!(
        normalize_key("kernel.arch"),
        Err(ConfigError::InvalidGeneratedIdentifier { key: "kernel.arch".to_string() })
    );
    assert_eq!(
        ingest_line("kernel.arch:STRING=x86"),
        Err(ConfigError::InvalidGeneratedIdentifier { key: "kernel.arch".to_string() })
    );
    assert_eq!(
        resolve_constant(&entry_of("can't", TypeHint::Bool, "ON")),
        Err(ConfigError::InvalidGeneratedIdentifier { key: "can't".to_string() })
    );
}

#[test]
fn identifier_is_uppercase_letters_digits_and_underscores() {
    assert!(is_identifier("KERNEL_MAX_NUM_NODES"));
    assert!(is_identifier("A1_B2"));
    assert!(is_identifier("_"));
    assert!(is_identifier("123"));
    assert!(is_identifier(""));
    assert!(is_identifier("\u{c9}COLE"));
    assert!(!is_identifier("Kernel"));
    assert!(!is_identifier("kernel"));
    assert!(!is_identifier("A-B"));
    assert!(!is_identifier("A B"));
    assert!(!is_identifier("A.B"));
    assert!(!is_identifier("\u{4e2d}"));
    assert!(!is_identifier("\u{661}"));
}

#[test]
fn accepting_an_identifier_hands_it_on_and_rejecting_names_the_key() {
    assert_eq!(accept_identifier("Raw", "RAW".to_string()), Ok("RAW".to_string()));
    assert_eq!(
        accept_identifier("Raw", "raw".to_string()),
        Err(ConfigError::InvalidGeneratedIdentifier { key: "Raw".to_string() })
    );
}

#[test]
fn resolving_a_kept_entry() {
    assert_eq!(
        resolve_constant(&entry_of("KernelArch", TypeHint::Str, "x86")),
        Ok(constant_of("KERNEL_ARCH", ConstantValue::Str("x86".to_string())))
    );
    assert_eq!(
        resolve_constant(&entry_of("KernelPrinting", TypeHint::Bool, "TRUE")),
        Ok(constant_of("KERNEL_PRINTING", ConstantValue::Bool(true)))
    );
}

#[test]
fn constants_keep_the_order_of_the_lines() {
    let cache = ingest(
        &lines_of(&[
            "# comment",
            "KernelPrinting:BOOL=ON",
            "",
            "//doc",
            "KernelArch:STRING=x86",
            "KernelDebugBuild:BOOL=OFF",
            "junk",
            "KernelMaxNumNodes:STRING=4",
            "KernelVerbose:BOOL=TRUE",
            "KernelOdd:BOOL=maybe",
        ]),
        "sel4",
    )
    .unwrap();
    assert_eq!(cache.namespace, "sel4");
    assert_eq!(
        cache.constants,
        vec![
            constant_of("KERNEL_PRINTING", ConstantValue::Bool(true)),
            constant_of("KERNEL_ARCH", ConstantValue::Str("x86".to_string())),
            constant_of("KERNEL_DEBUG_BUILD", ConstantValue::Bool(false)),
            constant_of("KERNEL_MAX_NUM_NODES", ConstantValue::UnsignedInteger(4)),
            constant_of("KERNEL_VERBOSE", ConstantValue::Bool(true)),
            constant_of("KERNEL_ODD", ConstantValue::Str("maybe".to_string())),
        ]
    );
    assert_eq!(
        cache.features,
        vec!["KERNEL_PRINTING".to_string(), "KERNEL_VERBOSE".to_string()]
    );
}

#[test]
fn empty_cache_gives_nothing() {
    let cache = ingest(&Vec::new(), "sel4").unwrap();
    assert!(cache.constants.is_empty());
    assert!(cache.features.is_empty());
}

#[test]
fn first_bad_key_fails_the_cache() {
    let result = ingest(
        &lines_of(&["KernelArch:STRING=x86", "bad.one:BOOL=ON", "bad.two:BOOL=ON"]),
        "sel4",
    );
    assert_eq!(
        result,
        Err(ConfigError::InvalidGeneratedIdentifier { key: "bad.one".to_string() })
    );
}

#[test]
fn bad_key_under_bookkeeping_is_passed_over() {
    let cache = ingest(&lines_of(&["bad.one:INTERNAL=1", "CMAKE_bad.two:BOOL=ON"]), "sel4").unwrap();
    assert!(cache.constants.is_empty());
}
