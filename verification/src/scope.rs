//! Maps a dependency declaration to the Gradle configuration it belongs to.

use vstd::prelude::*;
use crate::manifest::{DependencyDef, DependencyType};

verus! {

/// The configuration for dependencies needed to compile and to run.
pub open spec fn compile_keyword() -> Seq<char> {
    "implementation"@
}

/// The configuration for dependencies needed only at run time.
pub open spec fn runtime_keyword() -> Seq<char> {
    "runtimeOnly"@
}

/// The configuration keyword a declaration resolves to: the run-time one
/// exactly when the declaration asks for the run-time scope.
pub open spec fn directive_keyword(decl: DependencyDef) -> Seq<char> {
    match decl.declared_scope() {
        Some(DependencyType::Runtime) => runtime_keyword(),
        _ => compile_keyword(),
    }
}

/// Resolves a declaration to its configuration keyword and its coordinate.
pub fn resolve(decl: &DependencyDef) -> (r: (&'static str, &str))
    ensures
        r.0@ == directive_keyword(*decl),
        r.1@ == decl.coordinate(),
{
    match decl {
        DependencyDef::Simple(c) => ("implementation", c.as_str()),
        DependencyDef::Full { value, scope } => {
            let keyword = match scope {
                Some(DependencyType::Runtime) => "runtimeOnly",
                Some(DependencyType::Compile) => "implementation",
                None => "implementation",
            };
            (keyword, value.as_str())
        },
    }
}

/// The two keywords differ, so a run-time declaration never resolves to the
/// compile keyword and the other way round.
pub proof fn lemma_keywords_differ()
    ensures
        compile_keyword() != runtime_keyword(),
{
    reveal_strlit("implementation");
    reveal_strlit("runtimeOnly");
    assert(compile_keyword().len() == 14);
    assert(runtime_keyword().len() == 11);
}

} // verus!
