//! What the code generators are configured with, and what they output.

use crate::text;
use crate::text::Text;
use vstd::prelude::*;

verus! {

/// The names that the user's configuration chooses.
pub struct IncludeCppConfig {
    /// The name of the generated Rust module.
    pub mod_name: String,
    /// The name of the generated function that makes a C++ string.
    pub makestring_name: String,
}

/// What an [`IncludeCppConfig`] stands for.
#[verifier::ext_equal]
pub struct IncludeCppConfigView {
    pub mod_name: Text,
    pub makestring_name: Text,
}

impl View for IncludeCppConfig {
    type V = IncludeCppConfigView;

    open spec fn view(&self) -> IncludeCppConfigView {
        IncludeCppConfigView {
            mod_name: self.mod_name@,
            makestring_name: self.makestring_name@,
        }
    }
}

/// The generated C++ files.
pub struct CppFilePair {
    /// The header.
    pub header: Vec<u8>,
    /// The implementation, if there is anything in it.
    pub implementation: Option<Vec<u8>>,
    /// The name of the header.
    pub header_name: String,
}

/// What a [`CppFilePair`] stands for.
#[verifier::ext_equal]
pub struct CppFilePairView {
    pub header: Seq<u8>,
    pub implementation: Option<Seq<u8>>,
    pub header_name: Text,
}

impl View for CppFilePair {
    type V = CppFilePairView;

    open spec fn view(&self) -> CppFilePairView {
        CppFilePairView {
            header: self.header@,
            implementation: text::opt_view(self.implementation),
            header_name: self.header_name@,
        }
    }
}

} // verus!
