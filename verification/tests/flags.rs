use mbedtls_bindgen::error::GenerationError;
use mbedtls_bindgen::flags::{
    config_define, override_variable, sysroot_flag, sysroot_flag_from_output, sysroot_query,
    target_override, target_variable, FlagSet,
};

#[test]
fn config_header_becomes_a_quoted_define() {
    assert_eq!(
        config_define("/build/out/config.h"),
        "-DMBEDTLS_CONFIG_FILE=\"/build/out/config.h\""
    );
    assert_eq!(config_define(""), "-DMBEDTLS_CONFIG_FILE=\"\"");
    assert_eq!(config_define("a b/ü.h"), "-DMBEDTLS_CONFIG_FILE=\"a b/ü.h\"");
}

#[test]
fn sysroot_flag_carries_the_trimmed_answer() {
    assert_eq!(sysroot_flag("/usr/foo\r\n"), "--sysroot=/usr/foo");
    assert_eq!(sysroot_flag("/usr/foo\n"), "--sysroot=/usr/foo");
    assert_eq!(sysroot_flag("/usr/foo"), "--sysroot=/usr/foo");
    assert_eq!(sysroot_flag("/usr/foo\n\n"), "--sysroot=/usr/foo\n");
    assert_eq!(sysroot_flag(""), "--sysroot=");
    assert_eq!(sysroot_flag("\n"), "--sysroot=");
}

#[test]
fn sysroot_bytes_are_decoded_as_text() {
    assert_eq!(
        sysroot_flag_from_output(b"/opt/cross/sysroot\n"),
        Ok("--sysroot=/opt/cross/sysroot".to_string())
    );
    assert_eq!(
        sysroot_flag_from_output("/opt/gr\u{fc}n/\u{1f980}\r\n".as_bytes()),
        Ok("--sysroot=/opt/gr\u{fc}n/\u{1f980}".to_string())
    );
    assert_eq!(sysroot_flag_from_output(b""), Ok("--sysroot=".to_string()));
}

#[test]
fn sysroot_bytes_that_are_not_text_are_rejected() {
    assert_eq!(sysroot_flag_from_output(&[0xff, b'\n']), Err(GenerationError::MalformedSysroot));
    assert_eq!(
        sysroot_flag_from_output(&[b'/', 0xc3, b'\n']),
        Err(GenerationError::MalformedSysroot)
    );
    assert_eq!(
        sysroot_flag_from_output(&[0xed, 0xa0, 0x80]),
        Err(GenerationError::MalformedSysroot)
    );
    assert_eq!(sysroot_flag_from_output(&[0xc0, 0x80]), Err(GenerationError::MalformedSysroot));
}

#[test]
fn query_and_variable_are_the_fixed_texts() {
    assert_eq!(sysroot_query(), "--print-sysroot");
    assert_eq!(override_variable(), "RUST_MBEDTLS_BINDGEN_TARGET");
    assert_eq!(target_variable(), "TARGET");
}

#[test]
fn target_is_overridden_only_on_request() {
    assert_eq!(target_override(true), Some("arm64-apple-ios13.1-macabi".to_string()));
    assert_eq!(target_override(false), None);
}

#[test]
fn flag_set_is_seeded_with_define_and_caller_flags() {
    let extra = vec!["-O2".to_string(), "-DX".to_string()];
    let flags = FlagSet::seed("/src/include", "/out/config.h", &extra);
    assert_eq!(flags.include_dir, "/src/include");
    assert_eq!(
        flags.arguments,
        vec![
            "-DMBEDTLS_CONFIG_FILE=\"/out/config.h\"".to_string(),
            "-O2".to_string(),
            "-DX".to_string()
        ]
    );
    assert_eq!(flags.arguments(), flags.arguments);
    let bare = FlagSet::seed("i", "c", &vec![]);
    assert_eq!(bare.arguments, vec!["-DMBEDTLS_CONFIG_FILE=\"c\"".to_string()]);
}

#[test]
fn added_flags_come_last() {
    let mut flags = FlagSet::seed("i", "c", &vec!["-a".to_string()]);
    flags.add("--sysroot=/s".to_string());
    assert_eq!(flags.include_dir, "i");
    assert_eq!(
        flags.arguments,
        vec![
            "-DMBEDTLS_CONFIG_FILE=\"c\"".to_string(),
            "-a".to_string(),
            "--sysroot=/s".to_string()
        ]
    );
}
