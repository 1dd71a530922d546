//! The bridge between the caller's logging hooks and the internal traces.

use vstd::prelude::*;
use vstd::string::StringExecFns;

verus! {

/// The hooks of the caller: an opaque word that is handed back with every
/// call, and the addresses of the six functions.
#[derive(Clone, Copy, Debug, PartialEq, Eq, Structural)]
pub struct LoggingHooks {
    pub data: usize,
    pub is_enabled_callback: usize,
    pub new_spawn_callback: usize,
    pub record_callback: usize,
    pub event_callback: usize,
    pub enter_callback: usize,
    pub exit_callback: usize,
}

/// The state of the bridge: the hooks that were installed, if any. There is
/// no way back from installed.
pub struct HookBridge {
    hooks: Option<LoggingHooks>,
}

impl HookBridge {
    /// The hooks installed, `None` before the first installation.
    pub closed spec fn installed(&self) -> Option<LoggingHooks> {
        self.hooks
    }

    /// A bridge without hooks.
    pub fn new() -> (res: HookBridge)
        ensures
            res.installed() is None,
    {
        HookBridge { hooks: None }
    }

    /// The hooks installed, `None` before the first installation.
    pub fn hooks(&self) -> (res: Option<LoggingHooks>)
        ensures
            res == self.installed(),
    {
        self.hooks
    }
}

/// Installs the hooks of the caller, once.
///
/// While no hooks are installed, `wire` is called to wire the hooks into the
/// trace subsystem, and tells whether it did. Hooks that were wired are
/// installed, and the call tells so with `true`. Once hooks are installed,
/// every later call changes nothing, wires nothing and tells so with `false`;
/// so does a call whose wiring failed.
pub fn csharp_set_logging_hooks<F: FnOnce() -> bool>(
    bridge: &mut HookBridge,
    hooks: LoggingHooks,
    wire: F,
) -> (res: bool)
    requires
        call_requires(wire, ()),
    ensures
        old(bridge).installed() is Some ==> !res,
        old(bridge).installed() is None ==> call_ensures(wire, (), res),
        final(bridge).installed() == if res {
            Some(hooks)
        } else {
            old(bridge).installed()
        },
{
    if bridge.hooks.is_none() {
        if wire() {
            bridge.hooks = Some(hooks);
            true
        } else {
            false
        }
    } else {
        false
    }
}

/// The trace targets that reach the hooks: the namespaces of the wrapped
/// client, of its protocol layer and of its logger, and that of this package.
pub fn hook_targets(package: &str) -> (res: Vec<String>)
    ensures
        res@.len() == 4,
        res@[0]@ == "glide"@,
        res@[1]@ == "redis"@,
        res@[2]@ == "logger_core"@,
        res@[3]@ == package@,
{
    let mut targets: Vec<String> = Vec::new();
    targets.push(String::from_str("glide"));
    targets.push(String::from_str("redis"));
    targets.push(String::from_str("logger_core"));
    targets.push(String::from_str(package));
    targets
}

/// One entry for the error log.
#[derive(Debug, PartialEq, Eq)]
pub struct LogRecord {
    pub target: String,
    pub message: String,
}

} // verus!
