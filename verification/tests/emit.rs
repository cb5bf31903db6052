use mbedtls_bindgen::emit::{artifact_file_name, bindings_artifact, module_artifact};
use mbedtls_bindgen::error::{Artifact, GenerationError};

#[test]
fn first_artifact_is_declarations_shims_import() {
    assert_eq!(
        bindings_artifact("pub fn foo_bar();", "impl U { }"),
        "pub fn foo_bar();impl U { }use crate::types::*;\n"
    );
    assert_eq!(bindings_artifact("", ""), "use crate::types::*;\n");
    assert_eq!(bindings_artifact("a\n", ""), "a\nuse crate::types::*;\n");
}

#[test]
fn second_artifact_declares_the_first() {
    assert_eq!(module_artifact(), "mod bindings;\n");
}

#[test]
fn artifacts_have_fixed_file_names() {
    assert_eq!(artifact_file_name(Artifact::Bindings), "bindings.rs");
    assert_eq!(artifact_file_name(Artifact::Module), "mod-bindings.rs");
}

#[test]
fn every_error_has_its_diagnostic() {
    assert_eq!(GenerationError::IncludePathNotText.message(), "include directory UTF-8 error");
    assert_eq!(GenerationError::ConfigPathNotText.message(), "config.h UTF-8 error");
    assert_eq!(GenerationError::MalformedSysroot.message(), "Malformed sysroot");
    assert_eq!(GenerationError::ArgumentNotText.message(), "compiler argument UTF-8 error");
    assert_eq!(GenerationError::Extraction.message(), "bindgen error");
    assert_eq!(GenerationError::MalformedDeclarations.message(), "bindings.rs syntax error");
    assert_eq!(GenerationError::Io(Artifact::Bindings).message(), "bindings.rs I/O error");
    assert_eq!(GenerationError::Io(Artifact::Module).message(), "mod-bindings.rs I/O error");
    assert_eq!(GenerationError::UnexpectedEvent.message(), "unexpected event");
}
