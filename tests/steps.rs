use openbsd_update::steps::{
    accepts_event, advance, syspatch, sysupgrade, upgrade_packages, Action, Event, Mode, Note,
    Outcome, Stage, StepError, Transition,
};
use openbsd_update::version::Version;

const MIRROR: &str = "https://ftp.openbsd.org/pub/OpenBSD";

fn texts(t: &Transition) -> Vec<String> {
    t.notes
        .iter()
        .map(|n| match n {
            Note::Separator(s) => format!("sep:{s}"),
            Note::Info(s) => format!("info:{s}"),
            Note::Warning(s) => format!("warn:{s}"),
            Note::Blank => "blank".to_string(),
        })
        .collect()
}

fn privileged_argv(t: &Transition) -> Option<(Vec<String>, Mode, bool)> {
    match &t.action {
        Action::Privileged(inv) => Some((inv.argv.clone(), inv.mode, inv.capture)),
        _ => None,
    }
}

fn result(t: &Transition) -> Option<Result<(), StepError>> {
    match &t.action {
        Action::Done(r) => Some(*r),
        _ => None,
    }
}

#[test]
fn upgrade_start_probes_next_release() {
    let t = sysupgrade("7.4", "amd64", MIRROR, Mode::Real, true);
    assert_eq!(texts(&t), vec!["sep:OpenBSD System Update"]);
    assert_eq!(
        t.stage,
        Stage::Probing { next: Version { major: 7, minor: 5 }, mode: Mode::Real, privileged: true }
    );
    match &t.action {
        Action::Fetch(argv) => assert_eq!(
            argv,
            &vec!["/usr/bin/ftp", "-V", "-o", "-", "https://ftp.openbsd.org/pub/OpenBSD/7.5/amd64/SHA256.sig"]
        ),
        other => panic!("unexpected action {other:?}"),
    }
}

#[test]
fn upgrade_start_crosses_major_line() {
    let t = sysupgrade("7.9", "arm64", "http://m/pub/OpenBSD", Mode::Real, true);
    match &t.action {
        Action::Fetch(argv) => assert_eq!(argv[4], "http://m/pub/OpenBSD/8.0/arm64/SHA256.sig"),
        other => panic!("unexpected action {other:?}"),
    }
}

#[test]
fn upgrade_start_rejects_bad_release() {
    for release in ["abc", "7", "7.x"] {
        let t = sysupgrade(release, "amd64", MIRROR, Mode::Real, true);
        assert_eq!(t.stage, Stage::Finished);
        assert_eq!(result(&t), Some(Err(StepError::VersionParse)));
        assert!(privileged_argv(&t).is_none());
    }
}

#[test]
fn upgrade_start_refuses_release_without_successor() {
    let t = sysupgrade("4294967295.9", "amd64", MIRROR, Mode::Real, true);
    assert_eq!(result(&t), Some(Err(StepError::LastRelease)));
}

#[test]
fn failed_probe_reports_no_update() {
    let t = sysupgrade("7.4", "amd64", MIRROR, Mode::Real, true);
    let u = advance(t.stage, Event::Fetched(false));
    assert_eq!(u.stage, Stage::Finished);
    assert_eq!(texts(&u), vec!["info:No new updates found. Skipping."]);
    assert_eq!(result(&u), Some(Ok(())));
    assert!(privileged_argv(&u).is_none());
}

#[test]
fn published_release_runs_one_upgrade_then_reminds() {
    let t = sysupgrade("7.4", "amd64", MIRROR, Mode::Real, true);
    let u = advance(t.stage, Event::Fetched(true));
    assert_eq!(texts(&u), vec!["info:New update available for OpenBSD 7.5."]);
    assert_eq!(u.stage, Stage::Upgrading);
    assert_eq!(
        privileged_argv(&u),
        Some((vec!["/usr/sbin/sysupgrade".to_string(), "-n".to_string()], Mode::Real, false))
    );
    let w = advance(u.stage, Event::Succeeded);
    assert_eq!(texts(&w), vec!["warn:Please reboot to finish the update."]);
    assert_eq!(result(&w), Some(Ok(())));
    assert_eq!(w.stage, Stage::Finished);
}

#[test]
fn failed_upgrade_gives_no_reminder() {
    let u = advance(
        Stage::Probing { next: Version { major: 7, minor: 5 }, mode: Mode::Real, privileged: true },
        Event::Fetched(true),
    );
    let w = advance(u.stage, Event::Failed);
    assert!(texts(&w).is_empty());
    assert_eq!(result(&w), Some(Err(StepError::CommandFailed)));
}

#[test]
fn upgrade_without_credential_warns() {
    let t = sysupgrade("7.4", "amd64", MIRROR, Mode::Real, false);
    let u = advance(t.stage, Event::Fetched(true));
    assert!(privileged_argv(&u).is_none());
    assert_eq!(
        texts(&u),
        vec![
            "info:New update available for OpenBSD 7.5.",
            "warn:No sudo detected. Skipping step.",
            "warn:Please reboot to finish the update.",
        ]
    );
    assert_eq!(result(&u), Some(Ok(())));
}

#[test]
fn patch_check_lists_and_installs_once() {
    let t = syspatch(Mode::Real, true);
    assert_eq!(texts(&t), vec!["sep:OpenBSD Patches", "info:Checking for patches..."]);
    assert_eq!(
        privileged_argv(&t),
        Some((vec!["/usr/sbin/syspatch".to_string(), "-c".to_string()], Mode::Real, true))
    );
    let out = Outcome::Executed { stdout: b"patchA\npatchB\n\n".to_vec(), success: true };
    let u = advance(t.stage, Event::Captured(out));
    assert_eq!(
        texts(&u),
        vec!["info:New patches available:", "info:- patchA", "info:- patchB", "blank"]
    );
    assert_eq!(u.stage, Stage::InstallingPatches);
    assert_eq!(
        privileged_argv(&u),
        Some((vec!["/usr/sbin/syspatch".to_string()], Mode::Real, false))
    );
    let w = advance(u.stage, Event::Succeeded);
    assert_eq!(result(&w), Some(Ok(())));
    assert!(privileged_argv(&w).is_none());
}

#[test]
fn blank_patch_output_installs_nothing() {
    for stdout in [&b""[..], &b"\n"[..], &b"\n\n\n"[..]] {
        let out = Outcome::Executed { stdout: stdout.to_vec(), success: true };
        let u = advance(Stage::CheckingPatches { mode: Mode::Real }, Event::Captured(out));
        assert_eq!(texts(&u), vec!["info:No new available patches. Skipping."]);
        assert_eq!(result(&u), Some(Ok(())));
        assert!(privileged_argv(&u).is_none());
    }
}

#[test]
fn undecodable_patch_name_stops_before_install() {
    let out = Outcome::Executed { stdout: b"ok\n\xc3\x28\n".to_vec(), success: true };
    let u = advance(Stage::CheckingPatches { mode: Mode::Real }, Event::Captured(out));
    assert_eq!(result(&u), Some(Err(StepError::Decode)));
    assert!(privileged_argv(&u).is_none());
}

#[test]
fn failed_patch_check_or_install_is_an_error() {
    let u = advance(Stage::CheckingPatches { mode: Mode::Real }, Event::Failed);
    assert_eq!(result(&u), Some(Err(StepError::CommandFailed)));
    let w = advance(Stage::InstallingPatches, Event::Failed);
    assert_eq!(result(&w), Some(Err(StepError::CommandFailed)));
}

#[test]
fn no_credential_skips_every_step() {
    for mode in [Mode::Real, Mode::Simulate] {
        let p = syspatch(mode, false);
        assert_eq!(texts(&p), vec!["sep:OpenBSD Patches", "warn:No sudo detected. Skipping step."]);
        assert_eq!(result(&p), Some(Ok(())));
        let k = upgrade_packages(mode, false);
        assert_eq!(texts(&k), vec!["sep:OpenBSD Packages", "warn:No sudo detected. Skipping step."]);
        assert_eq!(result(&k), Some(Ok(())));
        let t = sysupgrade("7.4", "amd64", MIRROR, mode, false);
        assert!(privileged_argv(&t).is_none());
        for fetched in [false, true] {
            assert!(privileged_argv(&advance(t.stage, Event::Fetched(fetched))).is_none());
        }
    }
}

#[test]
fn simulate_mode_reads_no_output() {
    let t = syspatch(Mode::Simulate, true);
    assert_eq!(privileged_argv(&t).map(|p| p.1), Some(Mode::Simulate));
    let u = advance(t.stage, Event::Captured(Outcome::Simulated));
    assert!(texts(&u).is_empty());
    assert_eq!(result(&u), Some(Ok(())));
    let out = Outcome::Executed { stdout: b"patchA\n".to_vec(), success: true };
    let w = advance(Stage::CheckingPatches { mode: Mode::Simulate }, Event::Captured(out));
    assert!(privileged_argv(&w).is_none());
    assert_eq!(result(&w), Some(Ok(())));
}

#[test]
fn simulate_mode_hands_every_command_over_as_simulated() {
    let t = sysupgrade("7.4", "amd64", MIRROR, Mode::Simulate, true);
    let u = advance(t.stage, Event::Fetched(true));
    assert_eq!(privileged_argv(&u).map(|p| p.1), Some(Mode::Simulate));
    let k = upgrade_packages(Mode::Simulate, true);
    assert_eq!(
        privileged_argv(&k),
        Some((vec!["/usr/sbin/pkg_add".to_string(), "-u".to_string()], Mode::Simulate, false))
    );
    assert_eq!(result(&advance(k.stage, Event::Succeeded)), Some(Ok(())));
}

#[test]
fn stages_accept_only_their_events() {
    let probing = Stage::Probing { next: Version { major: 7, minor: 5 }, mode: Mode::Real, privileged: true };
    assert!(accepts_event(&probing, &Event::Fetched(true)));
    assert!(!accepts_event(&probing, &Event::Succeeded));
    assert!(accepts_event(&Stage::Upgrading, &Event::Failed));
    assert!(!accepts_event(&Stage::Upgrading, &Event::Captured(Outcome::Simulated)));
    assert!(accepts_event(&Stage::CheckingPatches { mode: Mode::Real }, &Event::Captured(Outcome::Simulated)));
    assert!(!accepts_event(&Stage::CheckingPatches { mode: Mode::Real }, &Event::Succeeded));
    assert!(!accepts_event(&Stage::Finished, &Event::Succeeded));
}
