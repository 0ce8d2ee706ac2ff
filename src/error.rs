use vstd::prelude::*;

verus! {

/// What went wrong while applying size optimizations.
#[allow(inconsistent_fields)]
pub enum SizeOptsError {
    /// The manifest could not be read or parsed.
    GetManifestFailed { source: cargo_toml::Error },
    /// The manifest could not be written back.
    WriteManifestFailed { source: std::io::Error },
    /// The entry point could not be read.
    ReadLibFailed { source: std::io::Error },
    /// The entry point could not be written back.
    WriteLibFailed { source: std::io::Error },
}

/// What each error says, with the remedy: run `perseus tinker` again with a clean build
/// directory.
pub const GET_MANIFEST_FAILED: &'static str = "couldn't get and parse `.perseus/Cargo.toml`, try running `perseus tinker` again (without the `--no-clean` option)";

pub const WRITE_MANIFEST_FAILED: &'static str = "couldn't update `.perseus/Cargo.toml`, try running `perseus tinker` again (without the `--no-clean` option)";

pub const READ_LIB_FAILED: &'static str = "couldn't read `.perseus/src/lib.rs`, try running `perseus tinker` again (without the `--no-clean` option)";

pub const WRITE_LIB_FAILED: &'static str = "couldn't update `.perseus/src/lib.rs`, try running `perseus tinker` again (without the `--no-clean` option)";

impl SizeOptsError {
    /// The message that describes this error.
    pub fn message(&self) -> (r: &'static str)
        ensures
            self is GetManifestFailed ==> r == GET_MANIFEST_FAILED,
            self is WriteManifestFailed ==> r == WRITE_MANIFEST_FAILED,
            self is ReadLibFailed ==> r == READ_LIB_FAILED,
            self is WriteLibFailed ==> r == WRITE_LIB_FAILED,
    {
        match self {
            SizeOptsError::GetManifestFailed { .. } => GET_MANIFEST_FAILED,
            SizeOptsError::WriteManifestFailed { .. } => WRITE_MANIFEST_FAILED,
            SizeOptsError::ReadLibFailed { .. } => READ_LIB_FAILED,
            SizeOptsError::WriteLibFailed { .. } => WRITE_LIB_FAILED,
        }
    }
}

} // verus!
