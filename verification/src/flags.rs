//! The flag set handed to the toolchain: the library's include directory,
//! the define that names its configuration header, the caller's flags, and
//! the sysroot flag where the compiler tells its sysroot.

use crate::error::GenerationError;
use crate::text::{copy_texts, texts, trim_line_end, without_line_end};
use vstd::prelude::*;
use vstd::string::*;
use vstd::utf8::*;

verus! {

broadcast use vstd::seq::group_seq_axioms;

/// The define that points the library at its configuration header.
pub open spec fn config_define_text(path: Seq<char>) -> Seq<char> {
    "-DMBEDTLS_CONFIG_FILE=\""@ + path + "\""@
}

/// The argument that asks a GNU-like compiler for its sysroot.
pub open spec fn sysroot_query_text() -> Seq<char> {
    "--print-sysroot"@
}

/// The sysroot flag for the compiler's answer to the sysroot query: the
/// answer without its one trailing line terminator, behind `--sysroot=`.
pub open spec fn sysroot_flag_text(answer: Seq<char>) -> Seq<char> {
    "--sysroot="@ + without_line_end(answer)
}

/// The variable whose presence asks for the target override.
pub open spec fn override_variable_text() -> Seq<char> {
    "RUST_MBEDTLS_BINDGEN_TARGET"@
}

/// The variable from which the toolchain and the extractor read the target.
pub open spec fn target_variable_text() -> Seq<char> {
    "TARGET"@
}

/// The target that stands in for a custom target during extraction.
pub open spec fn substitute_target_text() -> Seq<char> {
    "arm64-apple-ios13.1-macabi"@
}

/// The target to force for the requested override, if any.
pub open spec fn target_for(requested: bool) -> Option<Seq<char>> {
    if requested {
        Some(substitute_target_text())
    } else {
        None
    }
}

/// Builds the define for the configuration header at `path`.
pub fn config_define(path: &str) -> (flag: String)
    ensures
        flag@ == config_define_text(path@),
{
    let mut flag = String::from_str("-DMBEDTLS_CONFIG_FILE=\"");
    flag.append(path);
    flag.append("\"");
    flag
}

/// The argument of the sysroot query.
pub fn sysroot_query() -> (argument: &'static str)
    ensures
        argument@ == sysroot_query_text(),
{
    "--print-sysroot"
}

/// Builds the sysroot flag from the compiler's answer.
pub fn sysroot_flag(answer: &str) -> (flag: String)
    ensures
        flag@ == sysroot_flag_text(answer@),
{
    let mut flag = String::from_str("--sysroot=");
    flag.append(trim_line_end(answer));
    flag
}

/// Decodes bytes as text with `std::str::from_utf8`.
///
/// The contract claims what the function's documentation says: the result is
/// text exactly where the bytes are well-formed UTF-8, and then it is the
/// text that those bytes encode.
#[verifier::external_body]
fn text_of_bytes(bytes: &[u8]) -> (text: Option<&str>)
    ensures
        text is Some <==> valid_utf8(bytes@),
        text matches Some(t) ==> t.spec_bytes() == bytes@,
{
    std::str::from_utf8(bytes).ok()
}

/// Builds the sysroot flag from the bytes that the compiler printed. Fails
/// exactly where the bytes are not text.
pub fn sysroot_flag_from_output(stdout: &[u8]) -> (flag: Result<String, GenerationError>)
    ensures
        match flag {
            Ok(f) => valid_utf8(stdout@) && f@ == sysroot_flag_text(decode_utf8(stdout@)),
            Err(e) => !valid_utf8(stdout@) && e == GenerationError::MalformedSysroot,
        },
{
    match text_of_bytes(stdout) {
        Some(answer) => {
            proof {
                encode_utf8_decode_utf8(answer@);
            }
            Ok(sysroot_flag(answer))
        },
        None => Err(GenerationError::MalformedSysroot),
    }
}

/// The variable whose presence asks for the target override.
pub fn override_variable() -> (name: &'static str)
    ensures
        name@ == override_variable_text(),
{
    "RUST_MBEDTLS_BINDGEN_TARGET"
}

/// The variable from which the toolchain and the extractor read the target.
pub fn target_variable() -> (name: &'static str)
    ensures
        name@ == target_variable_text(),
{
    "TARGET"
}

/// The target to force during extraction: the substitute where the override
/// is requested, none otherwise.
pub fn target_override(requested: bool) -> (target: Option<String>)
    ensures
        match target {
            Some(t) => target_for(requested) == Some(t@),
            None => target_for(requested) is None,
        },
{
    if requested {
        Some(String::from_str("arm64-apple-ios13.1-macabi"))
    } else {
        None
    }
}

/// What the toolchain is configured with: the include directory and the
/// arguments, in the order in which they were added.
#[derive(Debug, PartialEq, Eq)]
pub struct FlagSet {
    pub include_dir: String,
    pub arguments: Vec<String>,
}

/// Mathematical model of a [`FlagSet`].
pub struct FlagSetView {
    pub include_dir: Seq<char>,
    pub arguments: Seq<Seq<char>>,
}

impl View for FlagSet {
    type V = FlagSetView;

    open spec fn view(&self) -> FlagSetView {
        FlagSetView { include_dir: self.include_dir@, arguments: texts(self.arguments@) }
    }
}

/// The flag set that a run starts with: the include directory, then the
/// define for the configuration header, then the caller's flags in the order
/// given.
pub open spec fn seeded(
    include_dir: Seq<char>,
    config_path: Seq<char>,
    extra: Seq<Seq<char>>,
) -> FlagSetView {
    FlagSetView { include_dir, arguments: seq![config_define_text(config_path)] + extra }
}

impl FlagSet {
    /// The flag set that a run starts with.
    pub fn seed(include_dir: &str, config_path: &str, extra: &Vec<String>) -> (flags: FlagSet)
        ensures
            flags@ == seeded(include_dir@, config_path@, texts(extra@)),
    {
        let mut arguments: Vec<String> = Vec::new();
        arguments.push(config_define(config_path));
        let mut i: usize = 0;
        while i < extra.len()
            invariant
                i <= extra.len(),
                arguments@.len() == i + 1,
                arguments@[0]@ == config_define_text(config_path@),
                forall|j: int| 0 <= j < i ==> arguments@[j + 1]@ == extra@[j]@,
            decreases extra.len() - i,
        {
            arguments.push(extra[i].clone());
            i += 1;
        }
        let flags = FlagSet { include_dir: String::from_str(include_dir), arguments };
        assert(flags@.arguments =~= seq![config_define_text(config_path@)] + texts(extra@));
        flags
    }

    /// Adds one argument behind those that are there.
    pub fn add(&mut self, argument: String)
        ensures
            final(self)@.include_dir == old(self)@.include_dir,
            final(self)@.arguments == old(self)@.arguments.push(argument@),
    {
        self.arguments.push(argument);
        assert(self@.arguments =~= old(self)@.arguments.push(argument@));
    }

    /// A copy of the arguments, in order.
    pub fn arguments(&self) -> (copy: Vec<String>)
        ensures
            texts(copy@) == self@.arguments,
    {
        copy_texts(&self.arguments)
    }
}

} // verus!
