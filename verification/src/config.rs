use vstd::prelude::*;

verus! {

/// Privilege class of the current invocation, determined once from the
/// process environment and consumed by template location and by the
/// installer's choice of candidate directories.
#[derive(Clone, Copy, Debug, PartialEq, Eq, Structural)]
pub enum Privilege {
    SYSTEM,
    USER,
    UNSPEC,
}

/// Alias under which the system-level generator is installed.
pub const SYSTEM_EXEC_NAME: &'static str = "systemd-pixi-system-generator";

/// Alias under which the user-level generator is installed.
pub const USER_EXEC_NAME: &'static str = "systemd-pixi-user-generator";

/// Default unit-file template location for SYSTEM invocations,
/// relative to the current working directory.
pub const SYSTEM_UNIT_FILE_TEMPLATE: &'static str = "src/resources/system.unit.service.tera";

/// Default unit-file template location for USER and UNSPEC invocations,
/// relative to the current working directory.
pub const USER_UNIT_FILE_TEMPLATE: &'static str = "src/resources/user.unit.service.tera";

} // verus!
