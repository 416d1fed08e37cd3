use mobile_init::context::{build_template_context, ContextValue};
use mobile_init::dot_cargo::DotCargo;
use mobile_init::init::{Action, Event, Orchestrator, Phase, RunFlags, Target};
use mobile_init::{Error, Options};

fn flags(open_in_editor: bool) -> RunFlags {
    RunFlags {
        non_interactive: true,
        skip_dev_tools: false,
        reinstall_deps: true,
        open_in_editor,
        can_generate_ios: true,
    }
}

/// Drives a run up to the template context, answering every step with success.
fn run_to_context(o: &mut Orchestrator, asset_dir_exists: bool, editor_present: bool) -> Vec<Action> {
    let mut acts = vec![o.action()];
    acts.push(o.step(Event::ConfigLoaded { asset_dir: "assets".to_string() }));
    acts.push(o.step(Event::Present(asset_dir_exists)));
    if !asset_dir_exists {
        acts.push(o.step(Event::Done));
    }
    acts.push(o.step(Event::Present(editor_present)));
    if editor_present {
        acts.push(o.step(Event::Done));
    }
    acts.push(o.step(Event::Done));
    acts.push(o.step(Event::Done));
    acts
}

fn count(acts: &[Action], pred: fn(&Action) -> bool) -> usize {
    acts.iter().filter(|a| pred(a)).count()
}

#[test]
fn options_ci_from_environment() {
    assert!(Options { ci: false }.non_interactive(true));
    assert!(Options { ci: true }.non_interactive(false));
    assert!(!Options { ci: false }.non_interactive(false));
}

#[test]
fn full_android_run_in_order() {
    let mut o = Orchestrator::new(Target::Android, flags(false));
    let mut acts = run_to_context(&mut o, false, true);
    assert!(matches!(acts[0], Action::LoadConfig));
    assert!(matches!(acts[1], Action::CheckAssetDir));
    assert!(matches!(&acts[2], Action::CreateAssetDir(d) if d == "assets"));
    assert!(matches!(acts[3], Action::DetectEditor));
    assert!(matches!(acts[4], Action::InstallExtension { force: true }));
    assert!(matches!(acts[5], Action::LoadDotCargo));
    assert!(matches!(acts[6], Action::DetectHostTriple));
    assert!(matches!(acts[7], Action::BuildContext { include_apple: true }));
    acts.push(o.step(Event::Done));
    assert!(matches!(acts[8], Action::DiscoverAndroidEnv));
    acts.push(o.step(Event::Done));
    assert!(matches!(acts[9], Action::GenerateAndroid));
    acts.push(o.step(Event::Done));
    assert!(matches!(acts[10], Action::WriteDotCargo));
    acts.push(o.step(Event::Done));
    assert!(matches!(acts[11], Action::ReportVictory));
    acts.push(o.step(Event::Done));
    assert!(matches!(acts[12], Action::Finish));
    assert!(o.is_finished());
    assert!(matches!(o.phase, Phase::Succeeded));
}

#[test]
fn existing_asset_dir_is_not_created_again() {
    for _ in 0..2 {
        let mut o = Orchestrator::new(Target::Android, flags(false));
        o.step(Event::ConfigLoaded { asset_dir: "assets".to_string() });
        let a = o.step(Event::Present(true));
        assert!(matches!(a, Action::DetectEditor));
        assert!(!o.is_finished());
    }
}

#[test]
fn missing_sdk_is_reported_and_run_succeeds() {
    let mut o = Orchestrator::new(Target::Android, flags(true));
    let mut acts = run_to_context(&mut o, true, false);
    acts.push(o.step(Event::Done));
    acts.push(o.step(Event::AndroidEnvFailed { sdk_or_ndk_issue: true, cause: "no NDK".to_string() }));
    while !o.is_finished() {
        acts.push(o.step(Event::Done));
    }
    assert!(matches!(o.phase, Phase::Succeeded));
    assert_eq!(count(&acts, |a| matches!(a, Action::ReportEnvIssue(c) if c == "no NDK")), 1);
    assert_eq!(count(&acts, |a| matches!(a, Action::ReportEnvIssue(_))), 1);
    assert_eq!(count(&acts, |a| matches!(a, Action::WriteDotCargo)), 1);
    assert_eq!(count(&acts, |a| matches!(a, Action::GenerateAndroid)), 0);
    assert_eq!(count(&acts, |a| matches!(a, Action::OpenEditor)), 1);
}

#[test]
fn fatal_android_env_stops_before_write() {
    let mut o = Orchestrator::new(Target::Android, flags(false));
    let mut acts = run_to_context(&mut o, true, false);
    acts.push(o.step(Event::Done));
    let a = o.step(Event::AndroidEnvFailed { sdk_or_ndk_issue: false, cause: "broken".to_string() });
    assert!(matches!(&a, Action::Abort(Error::AndroidEnv(c)) if c == "broken"));
    acts.push(a);
    for _ in 0..5 {
        acts.push(o.step(Event::Done));
    }
    assert_eq!(count(&acts, |a| matches!(a, Action::WriteDotCargo)), 0);
    assert!(matches!(&o.phase, Phase::Failed(Error::AndroidEnv(_))));
}

#[test]
fn ios_run_generates_xcode_project_when_possible() {
    let mut o = Orchestrator::new(Target::Ios, flags(false));
    run_to_context(&mut o, true, false);
    let a = o.step(Event::Done);
    assert!(matches!(a, Action::GenerateIos { non_interactive: true, skip_dev_tools: false, reinstall_deps: true }));
    assert!(matches!(o.step(Event::Done), Action::WriteDotCargo));

    let mut no_ios = flags(false);
    no_ios.can_generate_ios = false;
    let mut o = Orchestrator::new(Target::Ios, no_ios);
    run_to_context(&mut o, true, false);
    assert!(matches!(o.step(Event::Done), Action::WriteDotCargo));
}

#[test]
fn skipped_dev_tools_do_not_look_for_editor() {
    let mut f = flags(false);
    f.skip_dev_tools = true;
    let mut o = Orchestrator::new(Target::Android, f);
    o.step(Event::ConfigLoaded { asset_dir: "a".to_string() });
    assert!(matches!(o.step(Event::Present(true)), Action::LoadDotCargo));
}

#[test]
fn editor_detection_failure_counts_as_absent() {
    let mut o = Orchestrator::new(Target::Android, flags(false));
    o.step(Event::ConfigLoaded { asset_dir: "a".to_string() });
    o.step(Event::Present(true));
    assert!(matches!(o.step(Event::Failed("which failed".to_string())), Action::LoadDotCargo));
}

#[test]
fn unrelated_event_leaves_run_unchanged() {
    let mut o = Orchestrator::new(Target::Android, flags(false));
    assert!(matches!(o.step(Event::Done), Action::LoadConfig));
    assert!(matches!(o.phase, Phase::LoadingConfig));
}

fn fail_at(steps_before: usize, open: bool, target: Target) -> Action {
    let mut o = Orchestrator::new(target, flags(open));
    let answers = [
        Event::ConfigLoaded { asset_dir: "assets".to_string() },
        Event::Present(false),
        Event::Done,
        Event::Present(true),
        Event::Done,
        Event::Done,
        Event::Done,
        Event::Done,
        Event::Done,
        Event::Done,
        Event::Done,
        Event::Done,
    ];
    for e in answers.into_iter().take(steps_before) {
        o.step(e);
    }
    o.step(Event::Failed("cause".to_string()))
}

#[test]
fn each_step_failure_maps_to_its_error() {
    assert!(matches!(fail_at(0, false, Target::Android), Action::Abort(Error::InvalidTauriConfig(_))));
    assert!(matches!(
        fail_at(2, false, Target::Android),
        Action::Abort(Error::AssetDirCreation { ref asset_dir, ref cause }) if asset_dir == "assets" && cause == "cause"
    ));
    assert!(matches!(fail_at(4, false, Target::Android), Action::Abort(Error::LldbExtensionInstall(_))));
    assert!(matches!(fail_at(5, false, Target::Android), Action::Abort(Error::DotCargoLoad(_))));
    assert!(matches!(fail_at(6, false, Target::Android), Action::Abort(Error::HostTargetTripleDetection(_))));
    assert!(matches!(fail_at(8, false, Target::Android), Action::Abort(Error::AndroidEnv(_))));
    assert!(matches!(fail_at(9, false, Target::Android), Action::Abort(Error::AndroidInit(_))));
    assert!(matches!(fail_at(8, false, Target::Ios), Action::Abort(Error::IosInit(_))));
    assert!(matches!(fail_at(10, false, Target::Android), Action::Abort(Error::DotCargoWrite(_))));
    assert!(matches!(fail_at(12, true, Target::Android), Action::Abort(Error::OpenInEditor(_))));
}

#[test]
fn dot_cargo_keeps_foreign_keys() {
    let mut d = DotCargo::from_entries(vec![
        ("target.aarch64-linux-android.linker".to_string(), "clang".to_string()),
        ("build.target".to_string(), "old-triple".to_string()),
        ("alias.b".to_string(), "build".to_string()),
    ]);
    d.set_default_target("x86_64-unknown-linux-gnu".to_string());
    assert_eq!(d.default_target(), Some(&"x86_64-unknown-linux-gnu".to_string()));
    assert_eq!(d.entries.len(), 3);
    assert_eq!(d.entries[0], ("target.aarch64-linux-android.linker".to_string(), "clang".to_string()));
    assert_eq!(d.entries[2], ("alias.b".to_string(), "build".to_string()));
}

#[test]
fn dot_cargo_new_gets_default_target() {
    let mut d = DotCargo::new();
    assert_eq!(d.default_target(), None);
    d.set_default_target("aarch64-apple-darwin".to_string());
    d.set_default_target("aarch64-apple-darwin".to_string());
    assert_eq!(d.entries.len(), 1);
    assert_eq!(d.default_target(), Some(&"aarch64-apple-darwin".to_string()));
}

#[test]
fn context_holds_binary_name() {
    let ctx = build_template_context(
        ContextValue::Record(vec![]),
        ContextValue::Record(vec![]),
        Some(ContextValue::Record(vec![])),
        Some("/usr/bin/tauri".to_string()),
    );
    let keys: Vec<&str> = ctx.entries.iter().map(|(k, _)| k.as_str()).collect();
    assert_eq!(keys, vec!["app", "apple", "android", "tauri-binary"]);
    assert!(matches!(&ctx.entries[3].1, ContextValue::Text(b) if b == "/usr/bin/tauri"));

    let ctx = build_template_context(ContextValue::Record(vec![]), ContextValue::Record(vec![]), None, None);
    assert!(matches!(&ctx.entries[2].1, ContextValue::Text(b) if b == "cargo"));
    assert_eq!(ctx.entries.len(), 3);
}

#[test]
fn empty_first_argument_falls_back_to_cargo() {
    let ctx = build_template_context(
        ContextValue::Record(vec![]),
        ContextValue::Record(vec![]),
        None,
        Some(String::new()),
    );
    assert!(matches!(&ctx.entries[2].1, ContextValue::Text(b) if b == "cargo"));
}
