//! The configuration of the declaration extractor: what it parses, which
//! declarations it keeps, and how it writes them down.

use crate::policy::MbedtlsParseCallbacks;
use crate::text::{optional_text, texts};
use vstd::prelude::*;
use vstd::string::*;

verus! {

/// How the extractor writes down a C enum.
#[derive(Debug, Clone, Copy, PartialEq, Eq, Structural)]
pub enum EnumStyle {
    /// As a Rust enum.
    Rust,
    /// As a newtype around the integer.
    NewType,
    /// As plain integer constants.
    Consts,
    /// As integer constants in a module of the enum's name.
    ModuleConsts,
}

/// Everything the extractor is told for one run.
#[derive(Debug, PartialEq, Eq)]
pub struct ExtractorConfig {
    /// The arguments for the C parser, in order.
    pub clang_args: Vec<String>,
    /// The name under which the virtual input unit is parsed.
    pub header_name: String,
    /// The virtual input unit.
    pub header_contents: String,
    /// The pattern that a function's name has to match to be kept.
    pub allowlist_function: String,
    /// The pattern that a type's name has to match to be kept.
    pub allowlist_type: String,
    /// The pattern that a variable's name has to match to be kept.
    pub allowlist_var: String,
    /// Whether what a kept declaration refers to is kept as well.
    pub allowlist_recursively: bool,
    /// The pattern of the type names that are left out in any case.
    pub blocklist_type: String,
    /// Whether the declarations name `core` in place of `std`.
    pub use_core: bool,
    /// The path below which the C integer types are found.
    pub ctypes_prefix: String,
    /// The normalization policy.
    pub parse_callbacks: MbedtlsParseCallbacks,
    /// How enums are written down.
    pub default_enum_style: EnumStyle,
    /// Whether comments are carried over.
    pub generate_comments: bool,
    /// Whether `Copy` is derived.
    pub derive_copy: bool,
    /// Whether `Debug` is derived.
    pub derive_debug: bool,
    /// Whether `Default` is derived.
    pub derive_default: bool,
    /// Whether a variant's name starts with the name of its enum.
    pub prepend_enum_name: bool,
    /// Whether the integer type of an enum is written as a Rust integer.
    pub translate_enum_integer_types: bool,
    /// Whether the output is formatted.
    pub rustfmt_bindings: bool,
    /// The line that the output starts with.
    pub raw_line: String,
    /// The target to parse for, where it is not the build's own. It holds for
    /// this extraction only.
    pub target: Option<String>,
}

/// Mathematical model of an [`ExtractorConfig`].
pub struct ExtractorConfigView {
    pub clang_args: Seq<Seq<char>>,
    pub header_name: Seq<char>,
    pub header_contents: Seq<char>,
    pub allowlist_function: Seq<char>,
    pub allowlist_type: Seq<char>,
    pub allowlist_var: Seq<char>,
    pub allowlist_recursively: bool,
    pub blocklist_type: Seq<char>,
    pub use_core: bool,
    pub ctypes_prefix: Seq<char>,
    pub parse_callbacks: MbedtlsParseCallbacks,
    pub default_enum_style: EnumStyle,
    pub generate_comments: bool,
    pub derive_copy: bool,
    pub derive_debug: bool,
    pub derive_default: bool,
    pub prepend_enum_name: bool,
    pub translate_enum_integer_types: bool,
    pub rustfmt_bindings: bool,
    pub raw_line: Seq<char>,
    pub target: Option<Seq<char>>,
}

impl View for ExtractorConfig {
    type V = ExtractorConfigView;

    open spec fn view(&self) -> ExtractorConfigView {
        ExtractorConfigView {
            clang_args: texts(self.clang_args@),
            header_name: self.header_name@,
            header_contents: self.header_contents@,
            allowlist_function: self.allowlist_function@,
            allowlist_type: self.allowlist_type@,
            allowlist_var: self.allowlist_var@,
            allowlist_recursively: self.allowlist_recursively,
            blocklist_type: self.blocklist_type@,
            use_core: self.use_core,
            ctypes_prefix: self.ctypes_prefix@,
            parse_callbacks: self.parse_callbacks,
            default_enum_style: self.default_enum_style,
            generate_comments: self.generate_comments,
            derive_copy: self.derive_copy,
            derive_debug: self.derive_debug,
            derive_default: self.derive_default,
            prepend_enum_name: self.prepend_enum_name,
            translate_enum_integer_types: self.translate_enum_integer_types,
            rustfmt_bindings: self.rustfmt_bindings,
            raw_line: self.raw_line@,
            target: optional_text(self.target),
        }
    }
}

/// The pattern of the names that are kept: the library's prefix, in any
/// case, at the start of the name.
pub open spec fn allow_pattern() -> Seq<char> {
    "^(?i)mbedtls_.*"@
}

/// The pattern of the one type name that is left out: the library's raw
/// time type, which another module supplies.
pub open spec fn deny_pattern() -> Seq<char> {
    "^mbedtls_time_t$"@
}

/// The line that the generated declarations start with.
pub open spec fn lint_line() -> Seq<char> {
    "#![allow(dead_code, non_snake_case, non_camel_case_types, non_upper_case_globals, invalid_value)]"@
}

/// The extractor's configuration for the given parser arguments, virtual
/// input unit and target.
///
/// Functions, types and variables are kept where their name matches the
/// allow pattern, and nothing that they merely refer to; the raw time type is
/// left out. Enums become plain integer constants without the enum's name in
/// front. `Copy` and `Default` are derived, `Debug` is not. The output is
/// neither commented nor formatted.
pub open spec fn extractor_settings(
    clang_args: Seq<Seq<char>>,
    header_contents: Seq<char>,
    target: Option<Seq<char>>,
) -> ExtractorConfigView {
    ExtractorConfigView {
        clang_args,
        header_name: "bindgen-input.h"@,
        header_contents,
        allowlist_function: allow_pattern(),
        allowlist_type: allow_pattern(),
        allowlist_var: allow_pattern(),
        allowlist_recursively: false,
        blocklist_type: deny_pattern(),
        use_core: true,
        ctypes_prefix: "::types::raw_types"@,
        parse_callbacks: MbedtlsParseCallbacks,
        default_enum_style: EnumStyle::Consts,
        generate_comments: false,
        derive_copy: true,
        derive_debug: false,
        derive_default: true,
        prepend_enum_name: false,
        translate_enum_integer_types: true,
        rustfmt_bindings: false,
        raw_line: lint_line(),
        target,
    }
}

/// Builds the extractor's configuration.
pub fn extractor_config(
    clang_args: Vec<String>,
    header_contents: String,
    target: Option<String>,
) -> (config: ExtractorConfig)
    ensures
        config@ == extractor_settings(texts(clang_args@), header_contents@, optional_text(target)),
{
    ExtractorConfig {
        clang_args,
        header_name: String::from_str("bindgen-input.h"),
        header_contents,
        allowlist_function: String::from_str("^(?i)mbedtls_.*"),
        allowlist_type: String::from_str("^(?i)mbedtls_.*"),
        allowlist_var: String::from_str("^(?i)mbedtls_.*"),
        allowlist_recursively: false,
        blocklist_type: String::from_str("^mbedtls_time_t$"),
        use_core: true,
        ctypes_prefix: String::from_str("::types::raw_types"),
        parse_callbacks: MbedtlsParseCallbacks,
        default_enum_style: EnumStyle::Consts,
        generate_comments: false,
        derive_copy: true,
        derive_debug: false,
        derive_default: true,
        prepend_enum_name: false,
        translate_enum_integer_types: true,
        rustfmt_bindings: false,
        raw_line: String::from_str(
            "#![allow(dead_code, non_snake_case, non_camel_case_types, non_upper_case_globals, invalid_value)]",
        ),
        target,
    }
}

} // verus!
