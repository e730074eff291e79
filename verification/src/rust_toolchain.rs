//! The pinned toolchain file that every scaffolded workspace carries at its
//! root, so the generated packages build with a known toolchain.

use vstd::prelude::*;

verus! {

use vstd::string::StringExecFns;
use crate::scaffold::{GeneratedFile, GeneratedFileModel};

/// The file's name at the workspace root.
pub open spec fn toolchain_file_name() -> Seq<char> {
    "rust-toolchain"@
}

/// The pinned toolchain the generated workspace builds with.
pub open spec fn toolchain_contents_model() -> Seq<char> {
    "nightly-2021-06-17\n"@
}

/// Produces the toolchain pin file for a new workspace.
pub fn create() -> (f: GeneratedFile)
    ensures
        f@ == (GeneratedFileModel {
            relative_path: toolchain_file_name(),
            contents: toolchain_contents_model(),
        }),
{
    GeneratedFile {
        relative_path: String::from_str("rust-toolchain"),
        contents: String::from_str("nightly-2021-06-17\n"),
    }
}

} // verus!
