use vstd::prelude::*;

use crate::config;

verus! {

/// The four candidate generator directories for the system class, in
/// priority order: runtime, /etc, local-lib, lib.
pub open spec fn spec_system_dirs() -> Seq<Seq<char>> {
    seq![
        "/run/systemd/system-generators/"@,
        "/etc/systemd/system-generators/"@,
        "/usr/local/lib/systemd/system-generators/"@,
        "/usr/lib/systemd/system-generators/"@,
    ]
}

/// The four candidate generator directories for the user class, in
/// priority order: runtime, /etc, local-lib, lib.
pub open spec fn spec_user_dirs() -> Seq<Seq<char>> {
    seq![
        "/run/systemd/user-generators/"@,
        "/etc/systemd/user-generators/"@,
        "/usr/local/lib/systemd/user-generators/"@,
        "/usr/lib/systemd/user-generators/"@,
    ]
}

/// An installation plan: the source executable to link from and, per
/// privilege class, the symlink targets to try in priority order.
pub struct InstallPlan {
    pub source: String,
    pub system_targets: Vec<String>,
    pub user_targets: Vec<String>,
}

/// Builds the installation plan for this executable: for each class
/// the four candidate directories with that class's alias appended,
/// in priority order.
pub fn initialize(source_path: String) -> (r: InstallPlan)
    ensures
        r.source@ == source_path@,
        r.system_targets@.len() == 4,
        forall|i: int|
            0 <= i < 4 ==> r.system_targets@[i]@ == spec_system_dirs()[i]
                + config::SYSTEM_EXEC_NAME@,
        r.user_targets@.len() == 4,
        forall|i: int|
            0 <= i < 4 ==> r.user_targets@[i]@ == spec_user_dirs()[i] + config::USER_EXEC_NAME@,
{
    let mut system_targets: Vec<String> = Vec::new();
    system_targets.push(
        String::from_str("/run/systemd/system-generators/").concat(config::SYSTEM_EXEC_NAME),
    );
    system_targets.push(
        String::from_str("/etc/systemd/system-generators/").concat(config::SYSTEM_EXEC_NAME),
    );
    system_targets.push(
        String::from_str("/usr/local/lib/systemd/system-generators/").concat(
            config::SYSTEM_EXEC_NAME,
        ),
    );
    system_targets.push(
        String::from_str("/usr/lib/systemd/system-generators/").concat(config::SYSTEM_EXEC_NAME),
    );
    let mut user_targets: Vec<String> = Vec::new();
    user_targets.push(
        String::from_str("/run/systemd/user-generators/").concat(config::USER_EXEC_NAME),
    );
    user_targets.push(
        String::from_str("/etc/systemd/user-generators/").concat(config::USER_EXEC_NAME),
    );
    user_targets.push(
        String::from_str("/usr/local/lib/systemd/user-generators/").concat(config::USER_EXEC_NAME),
    );
    user_targets.push(
        String::from_str("/usr/lib/systemd/user-generators/").concat(config::USER_EXEC_NAME),
    );
    InstallPlan { source: source_path, system_targets, user_targets }
}

/// The committed candidate of a first-success search: the index of
/// the first successful attempt, if any.
pub open spec fn spec_first_success(outcomes: Seq<bool>) -> Option<int>
    decreases outcomes.len(),
{
    if outcomes.len() == 0 {
        None
    } else if outcomes[0] {
        Some(0int)
    } else {
        match spec_first_success(outcomes.drop_first()) {
            Some(i) => Some(i + 1),
            None => None,
        }
    }
}

/// How many attempts the first-success search makes: up to and
/// including the first success, or every candidate when none
/// succeeds.
pub open spec fn spec_attempt_count(outcomes: Seq<bool>) -> int {
    match spec_first_success(outcomes) {
        Some(i) => i + 1,
        None => outcomes.len() as int,
    }
}

/// The first success is the least successful index: it succeeded, and
/// every candidate before it failed; when there is none, every
/// candidate failed.
pub proof fn lemma_first_success_least(outcomes: Seq<bool>)
    ensures
        match spec_first_success(outcomes) {
            Some(i) => 0 <= i < outcomes.len() && outcomes[i] && (forall|j: int|
                0 <= j < i ==> !outcomes[j]),
            None => forall|j: int| 0 <= j < outcomes.len() ==> !outcomes[j],
        },
    decreases outcomes.len(),
{
    if outcomes.len() == 0 {
    } else if outcomes[0] {
    } else {
        lemma_first_success_least(outcomes.drop_first());
        match spec_first_success(outcomes.drop_first()) {
            Some(i) => {
                assert forall|j: int| 0 <= j < i + 1 implies !outcomes[j] by {
                    if j > 0 {
                        assert(outcomes[j] == outcomes.drop_first()[j - 1]);
                    }
                }
            },
            None => {
                assert forall|j: int| 0 <= j < outcomes.len() implies !outcomes[j] by {
                    if j > 0 {
                        assert(outcomes[j] == outcomes.drop_first()[j - 1]);
                    }
                }
            },
        }
    }
}

/// A writable candidate stops the search: when candidate `i` succeeds
/// and every candidate before it fails, the search commits to `i` and
/// attempts only candidates up to `i` — the remaining candidates are
/// never attempted.
pub proof fn lemma_success_stops_search(outcomes: Seq<bool>, i: int)
    requires
        0 <= i < outcomes.len(),
        outcomes[i],
        forall|j: int| 0 <= j < i ==> !outcomes[j],
    ensures
        spec_first_success(outcomes) == Some(i),
        spec_attempt_count(outcomes) == i + 1,
    decreases outcomes.len(),
{
    if i == 0 {
    } else {
        assert forall|j: int| 0 <= j < i - 1 implies !outcomes.drop_first()[j] by {
            assert(outcomes.drop_first()[j] == outcomes[j + 1]);
        }
        assert(outcomes.drop_first()[i - 1] == outcomes[i]);
        lemma_success_stops_search(outcomes.drop_first(), i - 1);
    }
}

/// Total exhaustion is absorbed: when every candidate fails, the
/// search completes without error, commits to no candidate, and has
/// attempted them all.
pub proof fn lemma_exhaustion_absorbed(outcomes: Seq<bool>)
    requires
        forall|j: int| 0 <= j < outcomes.len() ==> !outcomes[j],
    ensures
        spec_first_success(outcomes) is None,
        spec_attempt_count(outcomes) == outcomes.len(),
    decreases outcomes.len(),
{
    if outcomes.len() > 0 {
        assert forall|j: int| 0 <= j < outcomes.len() - 1 implies !outcomes.drop_first()[j] by {
            assert(outcomes.drop_first()[j] == outcomes[j + 1]);
        }
        lemma_exhaustion_absorbed(outcomes.drop_first());
    }
}

/// First-success search over a complete list of attempt outcomes.
pub fn first_success(outcomes: &Vec<bool>) -> (r: Option<usize>)
    ensures
        r matches Some(i) ==> spec_first_success(outcomes@) == Some(i as int),
        r is None ==> spec_first_success(outcomes@) is None,
        match r {
            Some(i) => i < outcomes@.len() && outcomes@[i as int] && (forall|j: int|
                0 <= j < i ==> !outcomes@[j]),
            None => forall|j: int| 0 <= j < outcomes@.len() ==> !outcomes@[j],
        },
{
    let mut i: usize = 0;
    while i < outcomes.len()
        invariant
            i <= outcomes@.len(),
            forall|j: int| 0 <= j < i ==> !outcomes@[j],
        decreases outcomes@.len() - i,
    {
        if outcomes[i] {
            proof {
                lemma_success_stops_search(outcomes@, i as int);
            }
            return Some(i);
        }
        i = i + 1;
    }
    proof {
        lemma_exhaustion_absorbed(outcomes@);
    }
    None
}

/// A first-success search in progress over a class's candidates. The
/// caller attempts the candidate that `current` names, reports the
/// outcome through `record`, and stops when `current` is `None`.
pub struct ClassRun {
    pub total: usize,
    pub next: usize,
    pub committed: Option<usize>,
}

impl ClassRun {
    /// The search invariant: attempts stay within bounds and a
    /// committed candidate is one that was attempted.
    pub open spec fn wf(self) -> bool {
        self.next <= self.total && match self.committed {
            Some(i) => i < self.next,
            None => true,
        }
    }

    /// Starts a search over `total` candidates.
    pub fn start(total: usize) -> (r: ClassRun)
        ensures
            r.wf(),
            r.total == total,
            r.next == 0,
            r.committed is None,
    {
        ClassRun { total, next: 0, committed: None }
    }

    /// The candidate to attempt now: `None` once a candidate has been
    /// committed or every candidate has been attempted.
    pub fn current(&self) -> (r: Option<usize>)
        ensures
            r == (if self.committed is None && self.next < self.total {
                Some(self.next)
            } else {
                None::<usize>
            }),
    {
        if self.committed.is_none() && self.next < self.total {
            Some(self.next)
        } else {
            None
        }
    }

    /// Records the outcome of attempting the current candidate: a
    /// success commits to it and ends the search for this class, so no
    /// later candidate is offered; a failure moves on to the next
    /// candidate and is otherwise absorbed.
    pub fn record(&mut self, ok: bool)
        requires
            old(self).wf(),
            old(self).committed is None,
            old(self).next < old(self).total,
        ensures
            final(self).wf(),
            final(self).total == old(self).total,
            final(self).next == old(self).next + 1,
            final(self).committed == (if ok {
                Some(old(self).next)
            } else {
                None::<usize>
            }),
    {
        if ok {
            self.committed = Some(self.next);
        }
        self.next = self.next + 1;
    }
}

} // verus!
