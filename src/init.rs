use vstd::prelude::*;

verus! {

/// The mobile platform to initialise.
#[derive(Clone, Copy, Debug, PartialEq, Eq, Structural)]
pub enum Target {
    Android,
    Ios,
}

/// Command-line options of the init command.
#[derive(Clone, Copy, Debug, PartialEq, Eq, Structural)]
pub struct Options {
    /// Skip prompting for values.
    pub ci: bool,
}

impl Options {
    /// Whether the run is non-interactive: asked for, or forced by a `CI`
    /// variable in the environment.
    pub fn non_interactive(&self, ci_variable_set: bool) -> (r: bool)
        ensures
            r == (self.ci || ci_variable_set),
    {
        self.ci || ci_variable_set
    }
}

/// The flags an initialisation run is made with.
#[derive(Clone, Copy, Debug, PartialEq, Eq, Structural)]
pub struct RunFlags {
    pub non_interactive: bool,
    pub skip_dev_tools: bool,
    pub reinstall_deps: bool,
    pub open_in_editor: bool,
    /// Whether this host can generate Xcode projects.
    pub can_generate_ios: bool,
}

/// Why an initialisation run stopped. Each carries the underlying cause as text.
#[derive(Clone, Debug)]
pub enum Error {
    InvalidTauriConfig(String),
    AssetDirCreation { asset_dir: String, cause: String },
    LldbExtensionInstall(String),
    DotCargoLoad(String),
    HostTargetTripleDetection(String),
    IosInit(String),
    AndroidEnv(String),
    AndroidInit(String),
    DotCargoWrite(String),
    OpenInEditor(String),
}

/// Where a run stands: the step whose outcome it waits for, or its end.
#[derive(Clone, Debug)]
pub enum Phase {
    LoadingConfig,
    CheckingAssetDir,
    CreatingAssetDir,
    DetectingEditor,
    InstallingExtension,
    LoadingDotCargo,
    DetectingHostTriple,
    BuildingContext,
    DiscoveringAndroidEnv,
    GeneratingAndroid,
    /// The Android environment lacks its SDK or NDK; the cause is reported.
    ReportingEnvIssue(String),
    GeneratingIos,
    WritingDotCargo,
    ReportingVictory,
    OpeningEditor,
    Succeeded,
    Failed(Error),
}

/// The outcome of a step, handed back by whoever performed it.
#[derive(Clone, Debug)]
pub enum Event {
    /// The step succeeded.
    Done,
    /// The step failed, for the given cause.
    Failed(String),
    /// The configuration was loaded; it names the asset directory.
    ConfigLoaded { asset_dir: String },
    /// The answer to a yes-or-no query: the asset directory exists, the editor
    /// is installed.
    Present(bool),
    /// The Android environment could not be set up.
    AndroidEnvFailed { sdk_or_ndk_issue: bool, cause: String },
}

/// The work a run asks for next.
#[derive(Clone, Debug)]
pub enum Action {
    LoadConfig,
    CheckAssetDir,
    CreateAssetDir(String),
    DetectEditor,
    /// Install the debugger extension, forcing it when nobody can be asked.
    InstallExtension { force: bool },
    LoadDotCargo,
    /// Detect the host's target triple and pin it as the default target.
    DetectHostTriple,
    /// Build the template context; the `apple` facet goes in only where this
    /// host can generate Xcode projects.
    BuildContext { include_apple: bool },
    DiscoverAndroidEnv,
    GenerateAndroid,
    /// Print an action request: Android support needs the fix described.
    ReportEnvIssue(String),
    GenerateIos { non_interactive: bool, skip_dev_tools: bool, reinstall_deps: bool },
    WriteDotCargo,
    ReportVictory,
    OpenEditor,
    /// The run is over and succeeded.
    Finish,
    /// The run is over and failed.
    Abort(Error),
}

/// One initialisation run: the fixed sequence of steps and where it stands.
#[derive(Clone, Debug)]
pub struct Orchestrator {
    pub target: Target,
    pub flags: RunFlags,
    /// The asset directory the configuration names, once it is loaded.
    pub asset_dir: String,
    pub phase: Phase,
}

/// The run moved to `phase`.
pub open spec fn moved(o: Orchestrator, phase: Phase) -> Orchestrator {
    Orchestrator { phase, ..o }
}

/// Where a run goes once the asset directory exists.
pub open spec fn after_asset_dir(o: Orchestrator) -> Orchestrator {
    if o.flags.skip_dev_tools {
        moved(o, Phase::LoadingDotCargo)
    } else {
        moved(o, Phase::DetectingEditor)
    }
}

/// Where a run goes once the template context is built.
pub open spec fn after_context(o: Orchestrator) -> Orchestrator {
    match o.target {
        Target::Android => moved(o, Phase::DiscoveringAndroidEnv),
        Target::Ios => if o.flags.can_generate_ios {
            moved(o, Phase::GeneratingIos)
        } else {
            moved(o, Phase::WritingDotCargo)
        },
    }
}

/// The run after `e` answers the step it waits for. An event that does not
/// answer that step leaves the run as it is; a finished run stays finished.
pub open spec fn next(o: Orchestrator, e: Event) -> Orchestrator {
    match (o.phase, e) {
        (Phase::LoadingConfig, Event::ConfigLoaded { asset_dir }) => Orchestrator {
            asset_dir,
            phase: Phase::CheckingAssetDir,
            ..o
        },
        (Phase::LoadingConfig, Event::Failed(c)) => moved(
            o,
            Phase::Failed(Error::InvalidTauriConfig(c)),
        ),
        (Phase::CheckingAssetDir, Event::Present(exists)) => if exists {
            after_asset_dir(o)
        } else {
            moved(o, Phase::CreatingAssetDir)
        },
        (Phase::CreatingAssetDir, Event::Done) => after_asset_dir(o),
        (Phase::CreatingAssetDir, Event::Failed(c)) => moved(
            o,
            Phase::Failed(Error::AssetDirCreation { asset_dir: o.asset_dir, cause: c }),
        ),
        (Phase::DetectingEditor, Event::Present(present)) => if present {
            moved(o, Phase::InstallingExtension)
        } else {
            moved(o, Phase::LoadingDotCargo)
        },
        (Phase::DetectingEditor, Event::Failed(_)) => moved(o, Phase::LoadingDotCargo),
        (Phase::InstallingExtension, Event::Done) => moved(o, Phase::LoadingDotCargo),
        (Phase::InstallingExtension, Event::Failed(c)) => moved(
            o,
            Phase::Failed(Error::LldbExtensionInstall(c)),
        ),
        (Phase::LoadingDotCargo, Event::Done) => moved(o, Phase::DetectingHostTriple),
        (Phase::LoadingDotCargo, Event::Failed(c)) => moved(
            o,
            Phase::Failed(Error::DotCargoLoad(c)),
        ),
        (Phase::DetectingHostTriple, Event::Done) => moved(o, Phase::BuildingContext),
        (Phase::DetectingHostTriple, Event::Failed(c)) => moved(
            o,
            Phase::Failed(Error::HostTargetTripleDetection(c)),
        ),
        (Phase::BuildingContext, Event::Done) => after_context(o),
        (Phase::DiscoveringAndroidEnv, Event::Done) => moved(o, Phase::GeneratingAndroid),
        (Phase::DiscoveringAndroidEnv, Event::AndroidEnvFailed { sdk_or_ndk_issue, cause }) =>
            if sdk_or_ndk_issue {
            moved(o, Phase::ReportingEnvIssue(cause))
        } else {
            moved(o, Phase::Failed(Error::AndroidEnv(cause)))
        },
        (Phase::DiscoveringAndroidEnv, Event::Failed(c)) => moved(
            o,
            Phase::Failed(Error::AndroidEnv(c)),
        ),
        (Phase::GeneratingAndroid, Event::Done) => moved(o, Phase::WritingDotCargo),
        (Phase::GeneratingAndroid, Event::Failed(c)) => moved(
            o,
            Phase::Failed(Error::AndroidInit(c)),
        ),
        (Phase::ReportingEnvIssue(_), Event::Done) => moved(o, Phase::WritingDotCargo),
        (Phase::GeneratingIos, Event::Done) => moved(o, Phase::WritingDotCargo),
        (Phase::GeneratingIos, Event::Failed(c)) => moved(o, Phase::Failed(Error::IosInit(c))),
        (Phase::WritingDotCargo, Event::Done) => moved(o, Phase::ReportingVictory),
        (Phase::WritingDotCargo, Event::Failed(c)) => moved(
            o,
            Phase::Failed(Error::DotCargoWrite(c)),
        ),
        (Phase::ReportingVictory, Event::Done) => if o.flags.open_in_editor {
            moved(o, Phase::OpeningEditor)
        } else {
            moved(o, Phase::Succeeded)
        },
        (Phase::OpeningEditor, Event::Done) => moved(o, Phase::Succeeded),
        (Phase::OpeningEditor, Event::Failed(c)) => moved(
            o,
            Phase::Failed(Error::OpenInEditor(c)),
        ),
        _ => o,
    }
}

/// The work a run in phase `o.phase` asks for.
pub open spec fn action_for(o: Orchestrator) -> Action {
    match o.phase {
        Phase::LoadingConfig => Action::LoadConfig,
        Phase::CheckingAssetDir => Action::CheckAssetDir,
        Phase::CreatingAssetDir => Action::CreateAssetDir(o.asset_dir),
        Phase::DetectingEditor => Action::DetectEditor,
        Phase::InstallingExtension => Action::InstallExtension { force: o.flags.non_interactive },
        Phase::LoadingDotCargo => Action::LoadDotCargo,
        Phase::DetectingHostTriple => Action::DetectHostTriple,
        Phase::BuildingContext => Action::BuildContext {
            include_apple: o.flags.can_generate_ios,
        },
        Phase::DiscoveringAndroidEnv => Action::DiscoverAndroidEnv,
        Phase::GeneratingAndroid => Action::GenerateAndroid,
        Phase::ReportingEnvIssue(c) => Action::ReportEnvIssue(c),
        Phase::GeneratingIos => Action::GenerateIos {
            non_interactive: o.flags.non_interactive,
            skip_dev_tools: o.flags.skip_dev_tools,
            reinstall_deps: o.flags.reinstall_deps,
        },
        Phase::WritingDotCargo => Action::WriteDotCargo,
        Phase::ReportingVictory => Action::ReportVictory,
        Phase::OpeningEditor => Action::OpenEditor,
        Phase::Succeeded => Action::Finish,
        Phase::Failed(e) => Action::Abort(e),
    }
}


impl Error {
    /// A copy of this error.
    pub fn duplicate(&self) -> (r: Error)
        ensures
            r == *self,
    {
        match self {
            Error::InvalidTauriConfig(c) => Error::InvalidTauriConfig(c.clone()),
            Error::AssetDirCreation { asset_dir, cause } => Error::AssetDirCreation {
                asset_dir: asset_dir.clone(),
                cause: cause.clone(),
            },
            Error::LldbExtensionInstall(c) => Error::LldbExtensionInstall(c.clone()),
            Error::DotCargoLoad(c) => Error::DotCargoLoad(c.clone()),
            Error::HostTargetTripleDetection(c) => Error::HostTargetTripleDetection(c.clone()),
            Error::IosInit(c) => Error::IosInit(c.clone()),
            Error::AndroidEnv(c) => Error::AndroidEnv(c.clone()),
            Error::AndroidInit(c) => Error::AndroidInit(c.clone()),
            Error::DotCargoWrite(c) => Error::DotCargoWrite(c.clone()),
            Error::OpenInEditor(c) => Error::OpenInEditor(c.clone()),
        }
    }
}

impl Orchestrator {
    /// A run for `target` that starts by loading the configuration.
    pub fn new(target: Target, flags: RunFlags) -> (r: Orchestrator)
        ensures
            r.target == target,
            r.flags == flags,
            r.phase == Phase::LoadingConfig,
            r.asset_dir@.len() == 0,
    {
        Orchestrator { target, flags, asset_dir: String::new(), phase: Phase::LoadingConfig }
    }

    /// Whether the run is over.
    pub fn is_finished(&self) -> (r: bool)
        ensures
            r == (self.phase is Succeeded || self.phase is Failed),
    {
        match self.phase {
            Phase::Succeeded | Phase::Failed(_) => true,
            _ => false,
        }
    }

    /// The work the run asks for now.
    pub fn action(&self) -> (r: Action)
        ensures
            r == action_for(*self),
    {
        match &self.phase {
            Phase::LoadingConfig => Action::LoadConfig,
            Phase::CheckingAssetDir => Action::CheckAssetDir,
            Phase::CreatingAssetDir => Action::CreateAssetDir(self.asset_dir.clone()),
            Phase::DetectingEditor => Action::DetectEditor,
            Phase::InstallingExtension => Action::InstallExtension {
                force: self.flags.non_interactive,
            },
            Phase::LoadingDotCargo => Action::LoadDotCargo,
            Phase::DetectingHostTriple => Action::DetectHostTriple,
            Phase::BuildingContext => Action::BuildContext {
                include_apple: self.flags.can_generate_ios,
            },
            Phase::DiscoveringAndroidEnv => Action::DiscoverAndroidEnv,
            Phase::GeneratingAndroid => Action::GenerateAndroid,
            Phase::ReportingEnvIssue(c) => Action::ReportEnvIssue(c.clone()),
            Phase::GeneratingIos => Action::GenerateIos {
                non_interactive: self.flags.non_interactive,
                skip_dev_tools: self.flags.skip_dev_tools,
                reinstall_deps: self.flags.reinstall_deps,
            },
            Phase::WritingDotCargo => Action::WriteDotCargo,
            Phase::ReportingVictory => Action::ReportVictory,
            Phase::OpeningEditor => Action::OpenEditor,
            Phase::Succeeded => Action::Finish,
            Phase::Failed(e) => Action::Abort(e.duplicate()),
        }
    }

    /// The phase after the asset directory exists.
    fn phase_after_asset_dir(&self) -> (r: Phase)
        ensures
            r == after_asset_dir(*self).phase,
    {
        if self.flags.skip_dev_tools {
            Phase::LoadingDotCargo
        } else {
            Phase::DetectingEditor
        }
    }

    /// The phase after the template context is built.
    fn phase_after_context(&self) -> (r: Phase)
        ensures
            r == after_context(*self).phase,
    {
        match self.target {
            Target::Android => Phase::DiscoveringAndroidEnv,
            Target::Ios => if self.flags.can_generate_ios {
                Phase::GeneratingIos
            } else {
                Phase::WritingDotCargo
            },
        }
    }

    /// Takes the outcome `e` of the pending step and returns the work asked
    /// for next.
    pub fn step(&mut self, e: Event) -> (r: Action)
        ensures
            *final(self) == next(*old(self), e),
            r == action_for(*final(self)),
    {
        let new_phase: Option<Phase> = match (&self.phase, e) {
            (Phase::LoadingConfig, Event::ConfigLoaded { asset_dir }) => {
                self.asset_dir = asset_dir;
                Some(Phase::CheckingAssetDir)
            },
            (Phase::LoadingConfig, Event::Failed(c)) => Some(
                Phase::Failed(Error::InvalidTauriConfig(c)),
            ),
            (Phase::CheckingAssetDir, Event::Present(exists)) => if exists {
                Some(self.phase_after_asset_dir())
            } else {
                Some(Phase::CreatingAssetDir)
            },
            (Phase::CreatingAssetDir, Event::Done) => Some(self.phase_after_asset_dir()),
            (Phase::CreatingAssetDir, Event::Failed(c)) => Some(
                Phase::Failed(
                    Error::AssetDirCreation { asset_dir: self.asset_dir.clone(), cause: c },
                ),
            ),
            (Phase::DetectingEditor, Event::Present(present)) => if present {
                Some(Phase::InstallingExtension)
            } else {
                Some(Phase::LoadingDotCargo)
            },
            (Phase::DetectingEditor, Event::Failed(_)) => Some(Phase::LoadingDotCargo),
            (Phase::InstallingExtension, Event::Done) => Some(Phase::LoadingDotCargo),
            (Phase::InstallingExtension, Event::Failed(c)) => Some(
                Phase::Failed(Error::LldbExtensionInstall(c)),
            ),
            (Phase::LoadingDotCargo, Event::Done) => Some(Phase::DetectingHostTriple),
            (Phase::LoadingDotCargo, Event::Failed(c)) => Some(
                Phase::Failed(Error::DotCargoLoad(c)),
            ),
            (Phase::DetectingHostTriple, Event::Done) => Some(Phase::BuildingContext),
            (Phase::DetectingHostTriple, Event::Failed(c)) => Some(
                Phase::Failed(Error::HostTargetTripleDetection(c)),
            ),
            (Phase::BuildingContext, Event::Done) => Some(self.phase_after_context()),
            (Phase::DiscoveringAndroidEnv, Event::Done) => Some(Phase::GeneratingAndroid),
            (
                Phase::DiscoveringAndroidEnv,
                Event::AndroidEnvFailed { sdk_or_ndk_issue, cause },
            ) => if sdk_or_ndk_issue {
                Some(Phase::ReportingEnvIssue(cause))
            } else {
                Some(Phase::Failed(Error::AndroidEnv(cause)))
            },
            (Phase::DiscoveringAndroidEnv, Event::Failed(c)) => Some(
                Phase::Failed(Error::AndroidEnv(c)),
            ),
            (Phase::GeneratingAndroid, Event::Done) => Some(Phase::WritingDotCargo),
            (Phase::GeneratingAndroid, Event::Failed(c)) => Some(
                Phase::Failed(Error::AndroidInit(c)),
            ),
            (Phase::ReportingEnvIssue(_), Event::Done) => Some(Phase::WritingDotCargo),
            (Phase::GeneratingIos, Event::Done) => Some(Phase::WritingDotCargo),
            (Phase::GeneratingIos, Event::Failed(c)) => Some(Phase::Failed(Error::IosInit(c))),
            (Phase::WritingDotCargo, Event::Done) => Some(Phase::ReportingVictory),
            (Phase::WritingDotCargo, Event::Failed(c)) => Some(
                Phase::Failed(Error::DotCargoWrite(c)),
            ),
            (Phase::ReportingVictory, Event::Done) => if self.flags.open_in_editor {
                Some(Phase::OpeningEditor)
            } else {
                Some(Phase::Succeeded)
            },
            (Phase::OpeningEditor, Event::Done) => Some(Phase::Succeeded),
            (Phase::OpeningEditor, Event::Failed(c)) => Some(
                Phase::Failed(Error::OpenInEditor(c)),
            ),
            _ => None,
        };
        match new_phase {
            Some(p) => {
                self.phase = p;
            },
            None => {},
        }
        self.action()
    }
}


/// The run after the events `events`, in order.
pub open spec fn run(o: Orchestrator, events: Seq<Event>) -> Orchestrator
    decreases events.len(),
{
    if events.len() == 0 {
        o
    } else {
        run(next(o, events[0]), events.drop_first())
    }
}

/// The work asked for after each of the events `events`, in order.
pub open spec fn actions(o: Orchestrator, events: Seq<Event>) -> Seq<Action>
    decreases events.len(),
{
    if events.len() == 0 {
        Seq::empty()
    } else {
        seq![action_for(next(o, events[0]))] + actions(next(o, events[0]), events.drop_first())
    }
}

/// Whether a run issued a write of the override store.
pub open spec fn writes_dot_cargo(acts: Seq<Action>) -> bool {
    exists|i: int| 0 <= i < acts.len() && acts[i] is WriteDotCargo
}

/// A failed run stays failed, whatever comes after, and asks for nothing but
/// to abort.
pub proof fn lemma_failed_run_stays_failed(o: Orchestrator, events: Seq<Event>)
    requires
        o.phase is Failed,
    ensures
        run(o, events) == o,
        forall|i: int| 0 <= i < actions(o, events).len() ==> actions(o, events)[i] is Abort,
    decreases events.len(),
{
    if events.len() > 0 {
        lemma_failed_run_stays_failed(o, events.drop_first());
    }
}

/// Where the asset directory already exists, the run goes on without creating
/// it and without failing, so checking it a second time is harmless.
pub proof fn lemma_existing_asset_dir_left_alone(o: Orchestrator)
    requires
        o.phase is CheckingAssetDir,
    ensures
        !(next(o, Event::Present(true)).phase is CreatingAssetDir),
        !(next(o, Event::Present(true)).phase is Failed),
        !(action_for(next(o, Event::Present(true))) is CreateAssetDir),
        next(o, Event::Present(true)).asset_dir == o.asset_dir,
{
}

/// An Android environment that lacks its SDK or NDK is reported once and the
/// run goes on: the override store is still written and the run succeeds,
/// without Android generation.
pub proof fn lemma_missing_sdk_recovers(o: Orchestrator, cause: String)
    requires
        o.phase is DiscoveringAndroidEnv,
    ensures
        ({
            let events = seq![
                Event::AndroidEnvFailed { sdk_or_ndk_issue: true, cause },
                Event::Done,
                Event::Done,
                Event::Done,
                Event::Done,
            ];
            &&& run(o, events).phase is Succeeded
            &&& actions(o, events) == seq![
                Action::ReportEnvIssue(cause),
                Action::WriteDotCargo,
                Action::ReportVictory,
                if o.flags.open_in_editor {
                    Action::OpenEditor
                } else {
                    Action::Finish
                },
                Action::Finish,
            ]
        }),
{
    let events = seq![
        Event::AndroidEnvFailed { sdk_or_ndk_issue: true, cause },
        Event::Done,
        Event::Done,
        Event::Done,
        Event::Done,
    ];
    let o1 = next(o, events[0]);
    let o2 = next(o1, Event::Done);
    let o3 = next(o2, Event::Done);
    let o4 = next(o3, Event::Done);
    let o5 = next(o4, Event::Done);
    let e1 = events.drop_first();
    let e2 = e1.drop_first();
    let e3 = e2.drop_first();
    let e4 = e3.drop_first();
    assert(e1 =~= seq![Event::Done, Event::Done, Event::Done, Event::Done]);
    assert(e2 =~= seq![Event::Done, Event::Done, Event::Done]);
    assert(e3 =~= seq![Event::Done, Event::Done]);
    assert(e4 =~= seq![Event::Done]);
    assert(e4.drop_first() =~= Seq::<Event>::empty());
    assert(o5.phase is Succeeded);
    assert(e4[0] == Event::Done);
    assert(run(o5, e4.drop_first()) == o5);
    assert(actions(o5, e4.drop_first()) =~= Seq::<Action>::empty());
    assert(run(o4, e4) == o5);
    assert(run(o3, e3) == o5);
    assert(run(o2, e2) == o5);
    assert(run(o1, e1) == o5);
    assert(actions(o4, e4) =~= seq![action_for(o5)]);
    assert(actions(o3, e3) =~= seq![action_for(o4), action_for(o5)]);
    assert(actions(o2, e2) =~= seq![action_for(o3), action_for(o4), action_for(o5)]);
    assert(actions(o1, e1) =~= seq![action_for(o2), action_for(o3), action_for(o4), action_for(o5)]);
    assert(actions(o, events) =~= seq![
        action_for(o1),
        action_for(o2),
        action_for(o3),
        action_for(o4),
        action_for(o5),
    ]);
}

/// An Android environment failure other than a missing SDK or NDK ends the
/// run with that error, whatever comes after: the override store is never
/// written and no Android project is generated.
pub proof fn lemma_fatal_android_env_stops(o: Orchestrator, cause: String, rest: Seq<Event>)
    requires
        o.phase is DiscoveringAndroidEnv,
    ensures
        ({
            let events = seq![Event::AndroidEnvFailed { sdk_or_ndk_issue: false, cause }] + rest;
            &&& run(o, events).phase == Phase::Failed(Error::AndroidEnv(cause))
            &&& !writes_dot_cargo(actions(o, events))
            &&& forall|i: int|
                0 <= i < actions(o, events).len() ==> !(actions(o, events)[i] is GenerateAndroid)
        }),
{
    let events = seq![Event::AndroidEnvFailed { sdk_or_ndk_issue: false, cause }] + rest;
    let o1 = next(o, events[0]);
    assert(events.drop_first() =~= rest);
    assert(o1.phase == Phase::Failed(Error::AndroidEnv(cause)));
    lemma_failed_run_stays_failed(o1, rest);
    assert(actions(o, events) =~= seq![action_for(o1)] + actions(o1, rest));
    let acts = actions(o, events);
    assert forall|i: int| 0 <= i < acts.len() implies acts[i] is Abort by {
        if i > 0 {
            assert(acts[i] == actions(o1, rest)[i - 1]);
        }
    }
}

} // verus!
