//! The shader stages of a pipeline.

use vstd::prelude::*;

verus! {

/// One shader unit of a pipeline.
#[derive(Clone, Copy, Debug, PartialEq, Eq, Structural, Hash)]
pub enum ModuleType {
    Vertex,
    Fragment,
}

impl ModuleType {
    /// The stage's upper-case tag, as it appears in the names of generated constants.
    pub open spec fn name_spec(self) -> Seq<char> {
        match self {
            ModuleType::Fragment => "FRAG"@,
            ModuleType::Vertex => "VERT"@,
        }
    }

    /// Returns the stage's upper-case tag.
    pub fn name(&self) -> (tag: &'static str)
        ensures
            tag@ == self.name_spec(),
    {
        match self {
            ModuleType::Fragment => "FRAG",
            ModuleType::Vertex => "VERT",
        }
    }
}

} // verus!
