use pixi_generator::install::{first_success, ClassRun};

#[test]
fn install_plan_appends_aliases() {
    let plan = pixi_generator::install::initialize(String::from("/usr/bin/pixi-gen"));
    assert_eq!(plan.source, String::from("/usr/bin/pixi-gen"));
    assert_eq!(
        plan.system_targets,
        vec![
            String::from("/run/systemd/system-generators/systemd-pixi-system-generator"),
            String::from("/etc/systemd/system-generators/systemd-pixi-system-generator"),
            String::from("/usr/local/lib/systemd/system-generators/systemd-pixi-system-generator"),
            String::from("/usr/lib/systemd/system-generators/systemd-pixi-system-generator"),
        ]
    );
    assert_eq!(
        plan.user_targets,
        vec![
            String::from("/run/systemd/user-generators/systemd-pixi-user-generator"),
            String::from("/etc/systemd/user-generators/systemd-pixi-user-generator"),
            String::from("/usr/local/lib/systemd/user-generators/systemd-pixi-user-generator"),
            String::from("/usr/lib/systemd/user-generators/systemd-pixi-user-generator"),
        ]
    );
}

#[test]
fn init_plan_matches_installer_plan() {
    let a = pixi_generator::init::initialize(String::from("/usr/bin/pixi-gen"));
    let b = pixi_generator::install::initialize(String::from("/usr/bin/pixi-gen"));
    assert_eq!(a.source, b.source);
    assert_eq!(a.system_targets, b.system_targets);
    assert_eq!(a.user_targets, b.user_targets);
    assert_eq!(
        a.system_targets[0],
        String::from("/run/systemd/system-generators/systemd-pixi-system-generator")
    );
}

#[test]
fn first_success_picks_least_index() {
    assert_eq!(first_success(&vec![true, true, false, false]), Some(0));
    assert_eq!(first_success(&vec![false, true, false, true]), Some(1));
    assert_eq!(first_success(&vec![false, false, false, true]), Some(3));
}

#[test]
fn first_success_none_when_all_fail() {
    assert_eq!(first_success(&vec![false, false, false, false]), None);
    assert_eq!(first_success(&vec![]), None);
}

#[test]
fn class_run_commits_on_first_success_and_stops() {
    let mut run = ClassRun::start(4);
    assert_eq!(run.current(), Some(0));
    run.record(true);
    assert_eq!(run.committed, Some(0));
    assert_eq!(run.current(), None);
}

#[test]
fn class_run_moves_past_failures() {
    let mut run = ClassRun::start(4);
    run.record(false);
    assert_eq!(run.current(), Some(1));
    run.record(false);
    run.record(true);
    assert_eq!(run.committed, Some(2));
    assert_eq!(run.current(), None);
}

#[test]
fn class_run_exhaustion_is_absorbed() {
    let mut run = ClassRun::start(4);
    let mut attempts: usize = 0;
    while let Some(_i) = run.current() {
        run.record(false);
        attempts += 1;
    }
    assert_eq!(attempts, 4);
    assert_eq!(run.committed, None);
}
