use vstd::prelude::*;

use crate::config;
use crate::install;
use crate::install::spec_system_dirs;
use crate::install::spec_user_dirs;
use crate::install::InstallPlan;

verus! {

/// Builds the installation plan for this executable: for each class
/// the four candidate directories with that class's alias appended,
/// in priority order. An entry point kept beside the installer's own
/// for callers that reach initialization through this module; the two
/// promise the same plan.
pub fn initialize(source_path: String) -> (r: InstallPlan)
    ensures
        r.source@ == source_path@,
        r.system_targets@.len() == 4,
        forall|i: int|
            0 <= i < 4 ==> r.system_targets@[i]@ == spec_system_dirs()[i]
                + config::SYSTEM_EXEC_NAME@,
        r.user_targets@.len() == 4,
        forall|i: int|
            0 <= i < 4 ==> r.user_targets@[i]@ == spec_user_dirs()[i] + config::USER_EXEC_NAME@,
{
    install::initialize(source_path)
}

} // verus!
