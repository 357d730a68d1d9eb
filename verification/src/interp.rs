//! Interpreter selection: the ordered chain of runtime invocations the
//! launcher tries until one spawns. Packaged deployments must be
//! self-contained, so they get the bundled interpreter alone; development
//! runs fall back to runtime aliases on the host's executable search path.

use vstd::prelude::*;

use crate::paths::BuildMode;

verus! {

/// How a runtime invocation names its binary.
pub enum InvocationKind {
    /// An absolute path to the bundled interpreter.
    Bundled(String),
    /// A command name the host resolves through its executable search path.
    SearchPath(&'static str),
}

/// One way to invoke the sidecar's runtime, with a human-readable label for
/// diagnostics.
pub struct RuntimeInvocation {
    pub kind: InvocationKind,
    pub label: &'static str,
}

/// The primary candidate first, then aliases resolved via the search path.
pub fn select_fallback_chain(primary: String) -> (chain: Vec<RuntimeInvocation>)
    ensures
        chain@.len() == 3,
        chain@[0].kind matches InvocationKind::Bundled(p) && p@ == primary@,
        chain@[0].label@ == "bundled interpreter"@,
        chain@[1].kind matches InvocationKind::SearchPath(c) && c@ == "python3"@,
        chain@[1].label@ == "python3 on the search path"@,
        chain@[2].kind matches InvocationKind::SearchPath(c) && c@ == "python"@,
        chain@[2].label@ == "python on the search path"@,
{
    let mut chain: Vec<RuntimeInvocation> = Vec::new();
    chain.push(
        RuntimeInvocation { kind: InvocationKind::Bundled(primary), label: "bundled interpreter" },
    );
    chain.push(
        RuntimeInvocation {
            kind: InvocationKind::SearchPath("python3"),
            label: "python3 on the search path",
        },
    );
    chain.push(
        RuntimeInvocation {
            kind: InvocationKind::SearchPath("python"),
            label: "python on the search path",
        },
    );
    chain
}

/// How many invocations each mode's chain holds: development tries the
/// bundled interpreter and two aliases; packaged mode must not depend on the
/// host's installed software and tries the bundled interpreter alone.
pub open spec fn chain_length(mode: BuildMode) -> int {
    match mode {
        BuildMode::Development => 3,
        BuildMode::Packaged => 1,
    }
}

/// The full chain the launcher walks for a mode, given the resolved bundled
/// interpreter path.
pub fn launch_chain(mode: BuildMode, bundled: String) -> (chain: Vec<RuntimeInvocation>)
    ensures
        chain@.len() == chain_length(mode),
        chain@[0].kind matches InvocationKind::Bundled(p) && p@ == bundled@,
        chain@[0].label@ == "bundled interpreter"@,
        mode is Development ==> {
            &&& chain@[1].kind matches InvocationKind::SearchPath(c) && c@ == "python3"@
            &&& chain@[1].label@ == "python3 on the search path"@
            &&& chain@[2].kind matches InvocationKind::SearchPath(c) && c@ == "python"@
            &&& chain@[2].label@ == "python on the search path"@
        },
{
    match mode {
        BuildMode::Development => select_fallback_chain(bundled),
        BuildMode::Packaged => {
            let mut chain: Vec<RuntimeInvocation> = Vec::new();
            chain.push(
                RuntimeInvocation {
                    kind: InvocationKind::Bundled(bundled),
                    label: "bundled interpreter",
                },
            );
            chain
        },
    }
}

} // verus!
