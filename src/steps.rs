use vstd::prelude::*;
use crate::version::{Version, next_version, release_version, version_text, LAST_MINOR};
use crate::probe::{signature_url, fetch_argv, probe_url, fetch_command};
use crate::patches::{pending_patches, list_pending, report_lines, lines_after, flush, decoded, NEWLINE};

verus! {

/// How privileged commands are carried out: only reported, or really run.
#[derive(Debug, Clone, Copy, PartialEq, Eq, Structural)]
pub enum Mode {
    Simulate,
    Real,
}

/// What a privileged command that captures its output gave: nothing when it
/// was only simulated, else its standard output and whether it succeeded.
#[derive(Debug)]
pub enum Outcome {
    Simulated,
    Executed { stdout: Vec<u8>, success: bool },
}

/// What the runner reports after carrying out the action it was given.
#[derive(Debug)]
pub enum Event {
    /// The fetch finished: whether it succeeded.
    Fetched(bool),
    /// A status-checked command succeeded, or was simulated.
    Succeeded,
    /// A command could not be run, or a status-checked one failed.
    Failed,
    /// A command whose output is captured ran.
    Captured(Outcome),
}

/// Why a step failed.
#[derive(Debug, Clone, Copy, PartialEq, Eq, Structural)]
pub enum StepError {
    /// The running release string is not `major.minor`.
    VersionParse,
    /// The running release is the last that the numbering can express.
    LastRelease,
    /// A privileged command could not run or exited with failure.
    CommandFailed,
    /// A patch name is not valid UTF-8.
    Decode,
}

/// A line for the user.
#[derive(Debug)]
pub enum Note {
    Separator(String),
    Info(String),
    Warning(String),
    Blank,
}

/// A command to run with elevated rights, in the given mode; `capture` asks
/// for its output rather than a checked status.
#[derive(Debug)]
pub struct Invocation {
    pub argv: Vec<String>,
    pub mode: Mode,
    pub capture: bool,
}

/// What the runner is to do next.
#[derive(Debug)]
pub enum Action {
    /// Run this unprivileged, read-only command and report whether it succeeded.
    Fetch(Vec<String>),
    /// Run this command through the elevation credential.
    Privileged(Invocation),
    /// The step is over, with this result.
    Done(Result<(), StepError>),
}

/// Where a step stands while it waits for the runner.
#[derive(Debug, Clone, Copy, PartialEq, Eq, Structural)]
pub enum Stage {
    /// Waiting for the fetch that tells whether release `next` exists.
    Probing { next: Version, mode: Mode, privileged: bool },
    /// Waiting for the system upgrade command.
    Upgrading,
    /// Waiting for the output of the patch check.
    CheckingPatches { mode: Mode },
    /// Waiting for the patch installation.
    InstallingPatches,
    /// Waiting for the package update.
    UpdatingPackages,
    /// The step is over.
    Finished,
}

/// The next stage, the lines to show now, and the action to carry out.
#[derive(Debug)]
pub struct Transition {
    pub stage: Stage,
    pub notes: Vec<Note>,
    pub action: Action,
}

/// An `Outcome` with its output as a sequence of bytes.
pub enum OutcomeView {
    Simulated,
    Executed { stdout: Seq<u8>, success: bool },
}

/// An `Event` as a mathematical value.
pub enum EventView {
    Fetched(bool),
    Succeeded,
    Failed,
    Captured(OutcomeView),
}

/// A `Note` with its text as a sequence of characters.
pub enum NoteView {
    Separator(Seq<char>),
    Info(Seq<char>),
    Warning(Seq<char>),
    Blank,
}

/// An `Invocation` with its arguments as sequences of characters.
pub struct InvocationView {
    pub argv: Seq<Seq<char>>,
    pub mode: Mode,
    pub capture: bool,
}

/// An `Action` as a mathematical value.
pub enum ActionView {
    Fetch(Seq<Seq<char>>),
    Privileged(InvocationView),
    Done(Result<(), StepError>),
}

/// A `Transition` as a mathematical value.
pub struct TransitionView {
    pub stage: Stage,
    pub notes: Seq<NoteView>,
    pub action: ActionView,
}

impl View for Outcome {
    type V = OutcomeView;

    open spec fn view(&self) -> OutcomeView {
        match self {
            Outcome::Simulated => OutcomeView::Simulated,
            Outcome::Executed { stdout, success } => OutcomeView::Executed {
                stdout: stdout@,
                success: *success,
            },
        }
    }
}

impl View for Event {
    type V = EventView;

    open spec fn view(&self) -> EventView {
        match self {
            Event::Fetched(ok) => EventView::Fetched(*ok),
            Event::Succeeded => EventView::Succeeded,
            Event::Failed => EventView::Failed,
            Event::Captured(o) => EventView::Captured(o@),
        }
    }
}

impl View for Note {
    type V = NoteView;

    open spec fn view(&self) -> NoteView {
        match self {
            Note::Separator(s) => NoteView::Separator(s@),
            Note::Info(s) => NoteView::Info(s@),
            Note::Warning(s) => NoteView::Warning(s@),
            Note::Blank => NoteView::Blank,
        }
    }
}

impl View for Invocation {
    type V = InvocationView;

    open spec fn view(&self) -> InvocationView {
        InvocationView { argv: self.argv.deep_view(), mode: self.mode, capture: self.capture }
    }
}

impl View for Action {
    type V = ActionView;

    open spec fn view(&self) -> ActionView {
        match self {
            Action::Fetch(argv) => ActionView::Fetch(argv.deep_view()),
            Action::Privileged(inv) => ActionView::Privileged(inv@),
            Action::Done(r) => ActionView::Done(*r),
        }
    }
}

/// The lines as the user reads them.
pub open spec fn notes_view(ns: Seq<Note>) -> Seq<NoteView> {
    ns.map_values(|n: Note| n@)
}

impl View for Transition {
    type V = TransitionView;

    open spec fn view(&self) -> TransitionView {
        TransitionView { stage: self.stage, notes: notes_view(self.notes@), action: self.action@ }
    }
}


/// The system upgrade, without rebooting.
pub open spec fn upgrade_argv() -> Seq<Seq<char>> {
    seq!["/usr/sbin/sysupgrade"@, "-n"@]
}

/// The check for pending patches, which lists them one per line.
pub open spec fn patch_check_argv() -> Seq<Seq<char>> {
    seq!["/usr/sbin/syspatch"@, "-c"@]
}

/// The installation of all pending patches.
pub open spec fn patch_install_argv() -> Seq<Seq<char>> {
    seq!["/usr/sbin/syspatch"@]
}

/// The update of all installed packages.
pub open spec fn package_update_argv() -> Seq<Seq<char>> {
    seq!["/usr/sbin/pkg_add"@, "-u"@]
}

/// The warning shown where a privileged command is skipped.
pub open spec fn no_privilege_text() -> Seq<char> {
    "No sudo detected. Skipping step."@
}

/// The reminder shown once the system upgrade has been staged.
pub open spec fn reboot_text() -> Seq<char> {
    "Please reboot to finish the update."@
}

/// The report that the next release is not published.
pub open spec fn no_update_text() -> Seq<char> {
    "No new updates found. Skipping."@
}

/// The report that release `v` is published.
pub open spec fn update_found_text(v: Version) -> Seq<char> {
    "New update available for OpenBSD "@ + version_text(v) + "."@
}

/// The report that no patch is pending.
pub open spec fn no_patches_text() -> Seq<char> {
    "No new available patches. Skipping."@
}

/// The line that reports one pending patch.
pub open spec fn patch_line(name: Seq<char>) -> NoteView {
    NoteView::Info("- "@ + name)
}

/// One line for each patch of `p`, in order.
pub open spec fn patch_lines(p: Seq<Seq<char>>) -> Seq<NoteView> {
    p.map_values(|n: Seq<char>| patch_line(n))
}

/// The report of the pending patches `p`, in order.
pub open spec fn patch_report(p: Seq<Seq<char>>) -> Seq<NoteView> {
    seq![NoteView::Info("New patches available:"@)] + patch_lines(p) + seq![NoteView::Blank]
}

/// A privileged command in mode `mode`.
pub open spec fn run_privileged(argv: Seq<Seq<char>>, mode: Mode, capture: bool) -> ActionView {
    ActionView::Privileged(InvocationView { argv, mode, capture })
}

/// The step ends with result `r` after showing `notes`.
pub open spec fn finish(notes: Seq<NoteView>, r: Result<(), StepError>) -> TransitionView {
    TransitionView { stage: Stage::Finished, notes, action: ActionView::Done(r) }
}

/// The step moves to `stage` and asks for `action` after showing `notes`.
pub open spec fn go(stage: Stage, notes: Seq<NoteView>, action: ActionView) -> TransitionView {
    TransitionView { stage, notes, action }
}

/// The start of the system upgrade on a machine of architecture `machine`
/// running release `release`, with the repository at `location`.
pub open spec fn sysupgrade_start(
    release: Seq<char>,
    machine: Seq<char>,
    location: Seq<char>,
    mode: Mode,
    privileged: bool,
) -> TransitionView {
    let sep = seq![NoteView::Separator("OpenBSD System Update"@)];
    match release_version(release) {
        None => finish(sep, Err(StepError::VersionParse)),
        Some(v) => if v.minor >= LAST_MINOR && v.major == u32::MAX {
            finish(sep, Err(StepError::LastRelease))
        } else {
            let n = next_version(v);
            go(
                Stage::Probing { next: n, mode, privileged },
                sep,
                ActionView::Fetch(fetch_argv(signature_url(location, n, machine))),
            )
        },
    }
}

/// The start of the patch step.
pub open spec fn syspatch_start(mode: Mode, privileged: bool) -> TransitionView {
    let sep = NoteView::Separator("OpenBSD Patches"@);
    if privileged {
        go(
            Stage::CheckingPatches { mode },
            seq![sep, NoteView::Info("Checking for patches..."@)],
            run_privileged(patch_check_argv(), mode, true),
        )
    } else {
        finish(seq![sep, NoteView::Warning(no_privilege_text())], Ok(()))
    }
}

/// The start of the package step.
pub open spec fn packages_start(mode: Mode, privileged: bool) -> TransitionView {
    let sep = NoteView::Separator("OpenBSD Packages"@);
    if privileged {
        go(Stage::UpdatingPackages, seq![sep], run_privileged(package_update_argv(), mode, false))
    } else {
        finish(seq![sep, NoteView::Warning(no_privilege_text())], Ok(()))
    }
}

/// The events that `stage` waits for.
pub open spec fn accepts(stage: Stage, e: EventView) -> bool {
    match stage {
        Stage::Probing { .. } => e is Fetched,
        Stage::CheckingPatches { .. } => e is Captured || e is Failed,
        Stage::Finished => false,
        _ => e is Succeeded || e is Failed,
    }
}

/// A privileged command's status ends the step.
pub open spec fn command_result(e: EventView) -> Result<(), StepError> {
    if e is Succeeded {
        Ok(())
    } else {
        Err(StepError::CommandFailed)
    }
}

/// What the patch check's outcome leads to. Only output captured in real mode
/// is read: a simulated check has found nothing.
pub open spec fn after_patch_check(mode: Mode, o: OutcomeView) -> TransitionView {
    match o {
        OutcomeView::Executed { stdout, .. } => if mode == Mode::Real {
            match pending_patches(stdout) {
                None => finish(seq![], Err(StepError::Decode)),
                Some(p) => if p.len() == 0 {
                    finish(seq![NoteView::Info(no_patches_text())], Ok(()))
                } else {
                    go(
                        Stage::InstallingPatches,
                        patch_report(p),
                        run_privileged(patch_install_argv(), mode, false),
                    )
                },
            }
        } else {
            finish(seq![], Ok(()))
        },
        OutcomeView::Simulated => finish(seq![], Ok(())),
    }
}

/// What event `e` leads to from `stage`.
pub open spec fn advance_model(stage: Stage, e: EventView) -> TransitionView {
    match stage {
        Stage::Probing { next, mode, privileged } => {
            let found = NoteView::Info(update_found_text(next));
            if e == EventView::Fetched(false) {
                finish(seq![NoteView::Info(no_update_text())], Ok(()))
            } else if privileged {
                go(Stage::Upgrading, seq![found], run_privileged(upgrade_argv(), mode, false))
            } else {
                finish(
                    seq![
                        found,
                        NoteView::Warning(no_privilege_text()),
                        NoteView::Warning(reboot_text()),
                    ],
                    Ok(()),
                )
            }
        },
        Stage::Upgrading => if e is Succeeded {
            finish(seq![NoteView::Warning(reboot_text())], Ok(()))
        } else {
            finish(seq![], Err(StepError::CommandFailed))
        },
        Stage::CheckingPatches { mode } => match e {
            EventView::Captured(o) => after_patch_check(mode, o),
            _ => finish(seq![], Err(StepError::CommandFailed)),
        },
        _ => finish(seq![], command_result(e)),
    }
}

fn args1(a: &str) -> (r: Vec<String>)
    ensures
        r.deep_view() == seq![a@],
{
    let mut v: Vec<String> = Vec::new();
    v.push(String::from_str(a));
    assert(v.deep_view() =~= seq![a@]);
    v
}

fn args2(a: &str, b: &str) -> (r: Vec<String>)
    ensures
        r.deep_view() == seq![a@, b@],
{
    let mut v: Vec<String> = Vec::new();
    v.push(String::from_str(a));
    v.push(String::from_str(b));
    assert(v.deep_view() =~= seq![a@, b@]);
    v
}

fn one_note(n: Note) -> (r: Vec<Note>)
    ensures
        notes_view(r@) == seq![n@],
{
    let mut v: Vec<Note> = Vec::new();
    v.push(n);
    assert(notes_view(v@) =~= seq![n@]);
    v
}

fn two_notes(a: Note, b: Note) -> (r: Vec<Note>)
    ensures
        notes_view(r@) == seq![a@, b@],
{
    let mut v: Vec<Note> = Vec::new();
    v.push(a);
    v.push(b);
    assert(notes_view(v@) =~= seq![a@, b@]);
    v
}

fn skip_warning() -> (r: Note)
    ensures
        r@ == NoteView::Warning(no_privilege_text()),
{
    Note::Warning(String::from_str("No sudo detected. Skipping step."))
}

fn reboot_warning() -> (r: Note)
    ensures
        r@ == NoteView::Warning(reboot_text()),
{
    Note::Warning(String::from_str("Please reboot to finish the update."))
}

fn no_notes() -> (r: Vec<Note>)
    ensures
        notes_view(r@) == Seq::<NoteView>::empty(),
{
    let v: Vec<Note> = Vec::new();
    assert(notes_view(v@) =~= Seq::<NoteView>::empty());
    v
}

fn done(notes: Vec<Note>, r: Result<(), StepError>) -> (t: Transition)
    ensures
        t@ == finish(notes_view(notes@), r),
{
    Transition { stage: Stage::Finished, notes, action: Action::Done(r) }
}

fn invoke(argv: Vec<String>, mode: Mode, capture: bool) -> (a: Action)
    ensures
        a@ == run_privileged(argv.deep_view(), mode, capture),
{
    Action::Privileged(Invocation { argv, mode, capture })
}

fn update_found(next: Version) -> (r: Note)
    ensures
        r@ == NoteView::Info(update_found_text(next)),
{
    let mut text = String::from_str("New update available for OpenBSD ");
    let v = next.to_string();
    text.append(v.as_str());
    text.append(".");
    Note::Info(text)
}

fn patch_notes(names: &Vec<String>) -> (r: Vec<Note>)
    ensures
        notes_view(r@) == patch_report(names.deep_view()),
{
    let ghost p = names.deep_view();
    let ghost head = seq![NoteView::Info("New patches available:"@)];
    let mut notes = one_note(Note::Info(String::from_str("New patches available:")));
    let mut k: usize = 0;
    assert(p.take(0) =~= Seq::<Seq<char>>::empty());
    assert(notes_view(notes@) =~= head + patch_lines(p.take(0)));
    while k < names.len()
        invariant
            k <= names@.len(),
            p == names.deep_view(),
            head == seq![NoteView::Info("New patches available:"@)],
            notes_view(notes@) == head + patch_lines(p.take(k as int)),
        decreases names@.len() - k,
    {
        let ghost before = notes_view(notes@);
        let mut line = String::from_str("- ");
        line.append(names[k].as_str());
        let n = Note::Info(line);
        let ghost nv = n@;
        assert(p[k as int] == names@[k as int]@);
        assert(nv == patch_line(p[k as int]));
        notes.push(n);
        assert(notes_view(notes@) =~= before.push(nv));
        assert(patch_lines(p.take(k + 1)) =~= patch_lines(p.take(k as int)).push(nv));
        assert((head + patch_lines(p.take(k as int))).push(nv) =~= head + patch_lines(p.take(k as int)).push(nv));
        k += 1;
    }
    let ghost before = notes_view(notes@);
    notes.push(Note::Blank);
    assert(p.take(k as int) =~= p);
    assert(notes_view(notes@) =~= patch_report(p));
    notes
}

/// Starts the system upgrade on a machine of architecture `machine` that runs
/// release `release`, with the release repository at `location`. `privileged`
/// tells whether an elevation credential is available.
pub fn sysupgrade(release: &str, machine: &str, location: &str, mode: Mode, privileged: bool) -> (r:
    Transition)
    ensures
        r@ == sysupgrade_start(release@, machine@, location@, mode, privileged),
{
    let notes = one_note(Note::Separator(String::from_str("OpenBSD System Update")));
    match Version::new(release) {
        Err(_) => done(notes, Err(StepError::VersionParse)),
        Ok(v) => {
            if v.minor >= LAST_MINOR && v.major == u32::MAX {
                done(notes, Err(StepError::LastRelease))
            } else {
                let n = v.next();
                let url = probe_url(location, n, machine);
                Transition {
                    stage: Stage::Probing { next: n, mode, privileged },
                    notes,
                    action: Action::Fetch(fetch_command(url)),
                }
            }
        },
    }
}

/// Starts the patch step: checks for pending patches, with elevated rights.
pub fn syspatch(mode: Mode, privileged: bool) -> (r: Transition)
    ensures
        r@ == syspatch_start(mode, privileged),
{
    let sep = Note::Separator(String::from_str("OpenBSD Patches"));
    if privileged {
        let n = Note::Info(String::from_str("Checking for patches..."));
        Transition {
            stage: Stage::CheckingPatches { mode },
            notes: two_notes(sep, n),
            action: invoke(args2("/usr/sbin/syspatch", "-c"), mode, true),
        }
    } else {
        done(two_notes(sep, skip_warning()), Ok(()))
    }
}

/// Starts the package step: updates every installed package, with elevated
/// rights.
pub fn upgrade_packages(mode: Mode, privileged: bool) -> (r: Transition)
    ensures
        r@ == packages_start(mode, privileged),
{
    let sep = Note::Separator(String::from_str("OpenBSD Packages"));
    if privileged {
        Transition {
            stage: Stage::UpdatingPackages,
            notes: one_note(sep),
            action: invoke(args2("/usr/sbin/pkg_add", "-u"), mode, false),
        }
    } else {
        done(two_notes(sep, skip_warning()), Ok(()))
    }
}

/// Whether `stage` waits for `event`.
pub fn accepts_event(stage: &Stage, event: &Event) -> (r: bool)
    ensures
        r == accepts(*stage, event@),
{
    match stage {
        Stage::Probing { .. } => matches!(event, Event::Fetched(_)),
        Stage::CheckingPatches { .. } => matches!(event, Event::Captured(_) | Event::Failed),
        Stage::Finished => false,
        _ => matches!(event, Event::Succeeded | Event::Failed),
    }
}

fn after_check(mode: Mode, o: Outcome) -> (r: Transition)
    ensures
        r@ == after_patch_check(mode, o@),
{
    match o {
        Outcome::Executed { stdout, .. } => {
            if mode == Mode::Real {
                match list_pending(stdout.as_slice()) {
                    Err(_) => done(no_notes(), Err(StepError::Decode)),
                    Ok(names) => {
                        if names.len() == 0 {
                            let n = Note::Info(String::from_str("No new available patches. Skipping."));
                            done(one_note(n), Ok(()))
                        } else {
                            let notes = patch_notes(&names);
                            Transition {
                                stage: Stage::InstallingPatches,
                                notes,
                                action: invoke(args1("/usr/sbin/syspatch"), mode, false),
                            }
                        }
                    },
                }
            } else {
                done(no_notes(), Ok(()))
            }
        },
        Outcome::Simulated => done(no_notes(), Ok(())),
    }
}

/// Moves the step on from `stage` after the runner reported `event`.
pub fn advance(stage: Stage, event: Event) -> (r: Transition)
    requires
        accepts(stage, event@),
    ensures
        r@ == advance_model(stage, event@),
{
    match stage {
        Stage::Probing { next, mode, privileged } => {
            let fetched = match event {
                Event::Fetched(ok) => ok,
                _ => false,
            };
            if !fetched {
                let n = Note::Info(String::from_str("No new updates found. Skipping."));
                done(one_note(n), Ok(()))
            } else if privileged {
                Transition {
                    stage: Stage::Upgrading,
                    notes: one_note(update_found(next)),
                    action: invoke(args2("/usr/sbin/sysupgrade", "-n"), mode, false),
                }
            } else {
                assert(event@ != EventView::Fetched(false));
                let mut notes = two_notes(update_found(next), skip_warning());
                let ghost first = notes_view(notes@);
                let b = reboot_warning();
                let ghost bv = b@;
                notes.push(b);
                assert(notes_view(notes@) =~= first.push(bv));
                assert(notes_view(notes@) =~= seq![
                    NoteView::Info(update_found_text(next)),
                    NoteView::Warning(no_privilege_text()),
                    NoteView::Warning(reboot_text()),
                ]);
                done(notes, Ok(()))
            }
        },
        Stage::Upgrading => {
            match event {
                Event::Succeeded => done(one_note(reboot_warning()), Ok(())),
                _ => done(no_notes(), Err(StepError::CommandFailed)),
            }
        },
        Stage::CheckingPatches { mode } => {
            match event {
                Event::Captured(o) => after_check(mode, o),
                _ => done(no_notes(), Err(StepError::CommandFailed)),
            }
        },
        _ => {
            match event {
                Event::Succeeded => done(no_notes(), Ok(())),
                _ => done(no_notes(), Err(StepError::CommandFailed)),
            }
        },
    }
}

/// Whether every mode that `stage` keeps is `m`.
pub open spec fn stage_in_mode(stage: Stage, m: Mode) -> bool {
    match stage {
        Stage::Probing { mode, .. } => mode == m,
        Stage::CheckingPatches { mode } => mode == m,
        _ => true,
    }
}

/// Whether `t` keeps mode `m` and hands over privileged commands only in mode `m`.
pub open spec fn runs_in_mode(t: TransitionView, m: Mode) -> bool {
    &&& stage_in_mode(t.stage, m)
    &&& (t.action matches ActionView::Privileged(inv) ==> inv.mode == m)
}

/// When the fetch for the next release fails, the upgrade reports that there
/// is no update and ends; no privileged command is issued on the way.
pub proof fn lemma_unpublished_release_is_left_alone(
    release: Seq<char>,
    machine: Seq<char>,
    location: Seq<char>,
    mode: Mode,
    privileged: bool,
)
    ensures
        !(sysupgrade_start(release, machine, location, mode, privileged).action is Privileged),
        sysupgrade_start(release, machine, location, mode, privileged).stage is Probing ==> advance_model(
            sysupgrade_start(release, machine, location, mode, privileged).stage,
            EventView::Fetched(false),
        ) == finish(seq![NoteView::Info(no_update_text())], Ok(())),
{
}

/// When the next release is published and a credential is available, the
/// upgrade issues one privileged command, the system upgrade without reboot.
/// Whatever that command gives, the step then ends with no further command,
/// and it reminds of the reboot exactly when the command succeeded.
pub proof fn lemma_published_release_upgrades_once(next: Version, mode: Mode, e: EventView)
    requires
        accepts(Stage::Upgrading, e),
    ensures
        advance_model(Stage::Probing { next, mode, privileged: true }, EventView::Fetched(true))
            == go(
            Stage::Upgrading,
            seq![NoteView::Info(update_found_text(next))],
            run_privileged(upgrade_argv(), mode, false),
        ),
        upgrade_argv().contains("-n"@),
        advance_model(Stage::Upgrading, e).stage == Stage::Finished,
        !(advance_model(Stage::Upgrading, e).action is Privileged),
        advance_model(Stage::Upgrading, e).notes.contains(NoteView::Warning(reboot_text()))
            <==> e is Succeeded,
        advance_model(Stage::Upgrading, e).action == ActionView::Done(command_result(e)),
{
    assert(upgrade_argv()[1] == "-n"@);
    if e is Succeeded {
        assert(advance_model(Stage::Upgrading, e).notes[0] == NoteView::Warning(reboot_text()));
    }
}

proof fn lemma_blank_lines(b: Seq<u8>)
    requires
        forall|i: int| 0 <= i < b.len() ==> b[i] == NEWLINE,
    ensures
        lines_after(b, seq![]) == Seq::<Seq<u8>>::empty(),
    decreases b.len(),
{
    if b.len() > 0 {
        lemma_blank_lines(b.drop_first());
        assert(flush(seq![]) =~= Seq::<Seq<u8>>::empty());
        assert(flush(seq![]) + Seq::<Seq<u8>>::empty() =~= Seq::<Seq<u8>>::empty());
    }
}

/// Output of the patch check that holds nothing but newlines lists no patch,
/// and the patch step then reports that and ends without installing.
pub proof fn lemma_blank_output_installs_nothing(stdout: Seq<u8>, success: bool)
    requires
        forall|i: int| 0 <= i < stdout.len() ==> stdout[i] == NEWLINE,
    ensures
        pending_patches(stdout) == Some(Seq::<Seq<char>>::empty()),
        advance_model(
            Stage::CheckingPatches { mode: Mode::Real },
            EventView::Captured(OutcomeView::Executed { stdout, success }),
        ) == finish(seq![NoteView::Info(no_patches_text())], Ok(())),
{
    lemma_blank_lines(stdout);
    let ls = report_lines(stdout);
    assert(decoded(ls) =~= Seq::<Seq<char>>::empty());
}

/// When the patch check lists patches, they are reported in the order given
/// and one privileged command, the installation, follows; after it the step
/// ends with no further command.
pub proof fn lemma_pending_patches_install_once(stdout: Seq<u8>, success: bool, e: EventView)
    requires
        pending_patches(stdout) matches Some(p) && p.len() > 0,
        accepts(Stage::InstallingPatches, e),
    ensures
        advance_model(
            Stage::CheckingPatches { mode: Mode::Real },
            EventView::Captured(OutcomeView::Executed { stdout, success }),
        ) == go(
            Stage::InstallingPatches,
            patch_report(pending_patches(stdout)->Some_0),
            run_privileged(patch_install_argv(), Mode::Real, false),
        ),
        advance_model(Stage::InstallingPatches, e) == finish(seq![], command_result(e)),
{
}

/// Without an elevation credential no step issues a privileged command, and
/// each step warns that it skips its work instead.
pub proof fn lemma_no_credential_no_privileged_command(
    release: Seq<char>,
    machine: Seq<char>,
    location: Seq<char>,
    mode: Mode,
    e: EventView,
)
    ensures
        !(syspatch_start(mode, false).action is Privileged),
        syspatch_start(mode, false).notes.contains(NoteView::Warning(no_privilege_text())),
        !(packages_start(mode, false).action is Privileged),
        packages_start(mode, false).notes.contains(NoteView::Warning(no_privilege_text())),
        !(sysupgrade_start(release, machine, location, mode, false).action is Privileged),
        sysupgrade_start(release, machine, location, mode, false).stage is Probing ==> {
            let stage = sysupgrade_start(release, machine, location, mode, false).stage;
            &&& !(advance_model(stage, e).action is Privileged)
            &&& (e == EventView::Fetched(true) ==> advance_model(stage, e).notes.contains(
                NoteView::Warning(no_privilege_text()),
            ))
        },
{
    assert(syspatch_start(mode, false).notes[1] == NoteView::Warning(no_privilege_text()));
    assert(packages_start(mode, false).notes[1] == NoteView::Warning(no_privilege_text()));
    let stage = sysupgrade_start(release, machine, location, mode, false).stage;
    if stage is Probing && e == EventView::Fetched(true) {
        assert(advance_model(stage, e).notes[1] == NoteView::Warning(no_privilege_text()));
    }
}

/// In simulate mode every privileged command is handed over to be simulated,
/// from each start and from each stage whatever the runner reports, so nothing
/// on the system changes; the output of a simulated patch check is never read,
/// and the patch step then ends without listing or installing a patch.
pub proof fn lemma_simulate_mode_changes_nothing(
    release: Seq<char>,
    machine: Seq<char>,
    location: Seq<char>,
    privileged: bool,
    stage: Stage,
    e: EventView,
)
    requires
        stage_in_mode(stage, Mode::Simulate),
        accepts(stage, e),
    ensures
        runs_in_mode(sysupgrade_start(release, machine, location, Mode::Simulate, privileged), Mode::Simulate),
        runs_in_mode(syspatch_start(Mode::Simulate, privileged), Mode::Simulate),
        runs_in_mode(packages_start(Mode::Simulate, privileged), Mode::Simulate),
        runs_in_mode(advance_model(stage, e), Mode::Simulate),
        stage is CheckingPatches && e is Captured ==> advance_model(stage, e) == finish(seq![], Ok(())),
{
}

} // verus!
