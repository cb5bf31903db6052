//! The output emitter: the text of the two artifacts and their file names.

use crate::error::Artifact;
use vstd::prelude::*;
use vstd::string::*;

verus! {

broadcast use vstd::seq::group_seq_axioms;

/// The import that lets the platform types named by the declarations resolve.
pub open spec fn import_line() -> Seq<char> {
    "use crate::types::*;\n"@
}

/// The first artifact: the declarations, the shims, the import line.
pub open spec fn bindings_text(declarations: Seq<char>, shims: Seq<char>) -> Seq<char> {
    declarations + shims + import_line()
}

/// The second artifact: the declaration of the first as a submodule.
pub open spec fn module_text() -> Seq<char> {
    "mod bindings;\n"@
}

/// The file name of an artifact, below the output directory.
pub open spec fn file_name_of(artifact: Artifact) -> Seq<char> {
    match artifact {
        Artifact::Bindings => "bindings.rs"@,
        Artifact::Module => "mod-bindings.rs"@,
    }
}

/// Builds the text of the first artifact.
pub fn bindings_artifact(declarations: &str, shims: &str) -> (text: String)
    ensures
        text@ == bindings_text(declarations@, shims@),
{
    let mut text = String::from_str(declarations);
    text.append(shims);
    text.append("use crate::types::*;\n");
    text
}

/// Builds the text of the second artifact.
pub fn module_artifact() -> (text: String)
    ensures
        text@ == module_text(),
{
    String::from_str("mod bindings;\n")
}

/// The file name of an artifact.
pub fn artifact_file_name(artifact: Artifact) -> (name: &'static str)
    ensures
        name@ == file_name_of(artifact),
{
    match artifact {
        Artifact::Bindings => "bindings.rs",
        Artifact::Module => "mod-bindings.rs",
    }
}

} // verus!
