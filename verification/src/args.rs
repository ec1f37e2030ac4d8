//! Options of the rebuild commands, and what each command needs of Nix.

use vstd::prelude::*;
use vstd::string::StringExecFns;
use crate::clean::CleanProxy;
use crate::passthrough::NixBuildPassthroughArgs;
use crate::search::SearchArgs;
use crate::text::texts;

verus! {

/// When to show what a rebuild changes in the set of packages.
#[derive(Clone, Copy, Debug, PartialEq, Eq, Structural)]
pub enum DiffType {
    /// Only if the current and the deployed configuration match.
    Auto,
    /// Always.
    Always,
    /// Never.
    Never,
}

impl Default for DiffType {
    fn default() -> (d: DiffType)
        ensures
            d == DiffType::Auto,
    {
        DiffType::Auto
    }
}

impl DiffType {
    /// Whether a package diff is attempted at all.
    pub fn shows_diff(&self) -> (b: bool)
        ensures
            b == !(*self == DiffType::Never),
    {
        match self {
            DiffType::Never => false,
            _ => true,
        }
    }
}

/// Which flake inputs to update before a rebuild.
#[derive(Debug)]
pub struct UpdateArgs {
    /// Update all flake inputs.
    pub update_all: bool,
    /// Update the specified flake input(s).
    pub update_input: Option<Vec<String>>,
}

impl UpdateArgs {
    /// Whether anything is updated: all inputs, or the inputs named.
    pub fn wants_update(&self) -> (b: bool)
        ensures
            b == (self.update_all || self.update_input is Some),
    {
        self.update_all || self.update_input.is_some()
    }
}

/// Options of a rollback to an earlier system generation.
#[derive(Debug)]
pub struct OsRollbackArgs {
    /// Only print actions, without performing them.
    pub dry: bool,
    /// Ask for confirmation.
    pub ask: bool,
    /// Explicitly select some specialisation.
    pub specialisation: Option<String>,
    /// Ignore specialisations.
    pub no_specialisation: bool,
    /// Roll back to this generation; the previous one if not given.
    pub to: Option<u64>,
    /// Do not refuse to run as root.
    pub bypass_root_check: bool,
    /// Whether to display a package diff.
    pub diff: DiffType,
}

/// Options for listing the generations of a system profile.
#[derive(Debug)]
pub struct OsGenerationsArgs {
    /// Path to Nix' profiles directory.
    pub profile: Option<String>,
    /// Names of the field(s) to display.
    pub fields: Option<Vec<String>>,
}

/// What a command is asked to build or load.
#[derive(Debug)]
pub enum Installable {
    Flake { reference: String, attribute: Vec<String> },
    File { path: String, attribute: Vec<String> },
    Store { path: String },
    Expression { expression: String, attribute: Vec<String> },
    /// Nothing was given; a default is looked for later.
    Unspecified,
}

impl Installable {
    /// Whether this is a flake reference.
    pub fn is_flake(&self) -> (b: bool)
        ensures
            b == (*self is Flake),
    {
        matches!(self, Installable::Flake { .. })
    }
}

/// The experimental features of Nix that a command needs.
#[derive(Clone, Copy, Debug, PartialEq, Eq, Structural)]
pub enum FeatureRequirements {
    NoFeatures,
    FlakeFeatures,
    LegacyFeatures,
    OsReplFeatures { is_flake: bool },
    HomeReplFeatures { is_flake: bool },
    DarwinReplFeatures { is_flake: bool },
}

/// The flake references that the environment gives for each kind of
/// configuration; `None` where the variable is not set.
#[derive(Debug)]
pub struct FlakeEnv {
    /// `NH_OS_FLAKE`
    pub os: Option<String>,
    /// `NH_HOME_FLAKE`
    pub home: Option<String>,
    /// `NH_DARWIN_FLAKE`
    pub darwin: Option<String>,
}

/// The variable is set to something that is not empty.
pub open spec fn names_flake(var: Option<String>) -> bool {
    var is Some && var.unwrap()@.len() > 0
}

/// What a build needs: flakes if it uses them, else nothing experimental.
pub open spec fn build_features(uses_flakes: bool) -> FeatureRequirements {
    if uses_flakes {
        FeatureRequirements::FlakeFeatures
    } else {
        FeatureRequirements::LegacyFeatures
    }
}

fn is_set_and_not_empty(var: &Option<String>) -> (b: bool)
    ensures
        b == names_flake(*var),
{
    match var {
        Some(v) => !v.as_str().is_empty(),
        None => false,
    }
}

fn features_of_build(uses_flakes: bool) -> (r: FeatureRequirements)
    ensures
        r == build_features(uses_flakes),
{
    if uses_flakes {
        FeatureRequirements::FlakeFeatures
    } else {
        FeatureRequirements::LegacyFeatures
    }
}

/// Options common to every rebuild.
#[derive(Debug)]
pub struct CommonRebuildArgs {
    /// Only print actions, without performing them.
    pub dry: bool,
    /// Ask for confirmation.
    pub ask: bool,
    pub installable: Installable,
    /// Don't use nix-output-monitor for the build process.
    pub no_nom: bool,
    /// Path to save the result link; a temporary directory if not given.
    pub out_link: Option<String>,
    /// Whether to display a package diff.
    pub diff: DiffType,
    pub passthrough: NixBuildPassthroughArgs,
}

/// Options of a NixOS rebuild.
#[derive(Debug)]
pub struct OsRebuildArgs {
    pub common: CommonRebuildArgs,
    pub update_args: UpdateArgs,
    /// Select this hostname from nixosConfigurations.
    pub hostname: Option<String>,
    /// Explicitly select some specialisation.
    pub specialisation: Option<String>,
    /// Ignore specialisations.
    pub no_specialisation: bool,
    /// Install bootloader for switch and boot commands.
    pub install_bootloader: bool,
    /// Extra arguments passed to nix build.
    pub extra_args: Vec<String>,
    /// Do not refuse to run as root.
    pub bypass_root_check: bool,
    /// Deploy the built configuration to a different host over SSH.
    pub target_host: Option<String>,
    /// Build the configuration on a different host over SSH.
    pub build_host: Option<String>,
    /// Skip pre-activation system validation checks.
    pub no_validate: bool,
}

impl OsRebuildArgs {
    /// Whether the rebuild uses flakes: `NH_OS_FLAKE` names one, or the
    /// installable is one.
    #[must_use]
    pub fn uses_flakes(&self, env: &FlakeEnv) -> (b: bool)
        ensures
            b == (names_flake(env.os) || self.common.installable is Flake),
    {
        if is_set_and_not_empty(&env.os) {
            return true;
        }
        self.common.installable.is_flake()
    }
}

/// Options of a NixOS rebuild that activates what it built.
#[derive(Debug)]
pub struct OsRebuildActivateArgs {
    pub rebuild: OsRebuildArgs,
    /// Show activation logs.
    pub show_activation_logs: bool,
}

/// Options for building a NixOS VM image.
#[derive(Debug)]
pub struct OsBuildVmArgs {
    pub common: OsRebuildArgs,
    /// Build with bootloader. Bootloader is bypassed by default.
    pub with_bootloader: bool,
    /// Run the VM immediately after building.
    pub run: bool,
}

/// Options for building a NixOS disk image.
#[derive(Debug)]
pub struct OsBuildImageArgs {
    pub common: OsRebuildArgs,
    /// Image variant.
    pub image_variant: String,
}

/// Options for loading a system in a repl.
#[derive(Debug)]
pub struct OsReplArgs {
    pub installable: Installable,
    /// Select this hostname from nixosConfigurations.
    pub hostname: Option<String>,
}

impl OsReplArgs {
    /// Whether the repl uses flakes: `NH_OS_FLAKE` is set at all, or the
    /// installable is a flake.
    #[must_use]
    pub fn uses_flakes(&self, env: &FlakeEnv) -> (b: bool)
        ensures
            b == (env.os is Some || self.installable is Flake),
    {
        if env.os.is_some() {
            return true;
        }
        self.installable.is_flake()
    }
}

/// The NixOS subcommands.
#[derive(Debug)]
pub enum OsSubcommand {
    /// Build and activate the new configuration, and make it the boot default.
    Switch(OsRebuildActivateArgs),
    /// Build the new configuration and make it the boot default.
    Boot(OsRebuildActivateArgs),
    /// Build and activate the new configuration.
    Test(OsRebuildActivateArgs),
    /// Build the new configuration.
    Build(OsRebuildArgs),
    /// Load system in a repl.
    Repl(OsReplArgs),
    /// List available generations from profile path.
    Info(OsGenerationsArgs),
    /// Rollback to a previous generation.
    Rollback(OsRollbackArgs),
    /// Build a NixOS VM image.
    BuildVm(OsBuildVmArgs),
    /// Build a NixOS disk-image variant.
    BuildImage(OsBuildImageArgs),
}

/// NixOS functionality.
#[derive(Debug)]
pub struct OsArgs {
    pub subcommand: OsSubcommand,
}

impl OsArgs {
    /// What the subcommand needs of Nix.
    pub open spec fn features(&self, env: FlakeEnv) -> FeatureRequirements {
        match self.subcommand {
            OsSubcommand::Repl(a) => FeatureRequirements::OsReplFeatures {
                is_flake: env.os is Some || a.installable is Flake,
            },
            OsSubcommand::Switch(a) => build_features(
                names_flake(env.os) || a.rebuild.common.installable is Flake,
            ),
            OsSubcommand::Boot(a) => build_features(
                names_flake(env.os) || a.rebuild.common.installable is Flake,
            ),
            OsSubcommand::Test(a) => build_features(
                names_flake(env.os) || a.rebuild.common.installable is Flake,
            ),
            OsSubcommand::Build(a) => build_features(
                names_flake(env.os) || a.common.installable is Flake,
            ),
            OsSubcommand::BuildVm(a) => build_features(
                names_flake(env.os) || a.common.common.installable is Flake,
            ),
            OsSubcommand::BuildImage(a) => build_features(
                names_flake(env.os) || a.common.common.installable is Flake,
            ),
            OsSubcommand::Info(_) => FeatureRequirements::LegacyFeatures,
            OsSubcommand::Rollback(_) => FeatureRequirements::LegacyFeatures,
        }
    }

    /// What the subcommand needs of Nix.
    #[must_use]
    pub fn get_feature_requirements(&self, env: &FlakeEnv) -> (r: FeatureRequirements)
        ensures
            r == self.features(*env),
    {
        match &self.subcommand {
            OsSubcommand::Repl(args) => {
                let is_flake = args.uses_flakes(env);
                FeatureRequirements::OsReplFeatures { is_flake }
            },
            OsSubcommand::Switch(args) => features_of_build(args.rebuild.uses_flakes(env)),
            OsSubcommand::Boot(args) => features_of_build(args.rebuild.uses_flakes(env)),
            OsSubcommand::Test(args) => features_of_build(args.rebuild.uses_flakes(env)),
            OsSubcommand::Build(args) => features_of_build(args.uses_flakes(env)),
            OsSubcommand::BuildVm(args) => features_of_build(args.common.uses_flakes(env)),
            OsSubcommand::Info(_) => FeatureRequirements::LegacyFeatures,
            OsSubcommand::Rollback(_) => FeatureRequirements::LegacyFeatures,
            OsSubcommand::BuildImage(args) => features_of_build(args.common.uses_flakes(env)),
        }
    }
}

/// Options of a home-manager rebuild.
#[derive(Debug)]
pub struct HomeRebuildArgs {
    pub common: CommonRebuildArgs,
    pub update_args: UpdateArgs,
    /// Name of the flake homeConfigurations attribute, like username@hostname.
    pub configuration: Option<String>,
    /// Explicitly select some specialisation.
    pub specialisation: Option<String>,
    /// Ignore specialisations.
    pub no_specialisation: bool,
    /// Extra arguments passed to nix build.
    pub extra_args: Vec<String>,
    /// Move existing files by backing up with this file extension.
    pub backup_extension: Option<String>,
    /// Show activation logs.
    pub show_activation_logs: bool,
    /// Build the configuration on a different host over SSH.
    pub build_host: Option<String>,
}

impl HomeRebuildArgs {
    /// Whether the rebuild uses flakes: `NH_HOME_FLAKE` names one, or the
    /// installable is one.
    #[must_use]
    pub fn uses_flakes(&self, env: &FlakeEnv) -> (b: bool)
        ensures
            b == (names_flake(env.home) || self.common.installable is Flake),
    {
        if is_set_and_not_empty(&env.home) {
            return true;
        }
        self.common.installable.is_flake()
    }
}

/// Options for loading a home-manager configuration in a repl.
#[derive(Debug)]
pub struct HomeReplArgs {
    pub installable: Installable,
    /// Name of the flake homeConfigurations attribute, like username@hostname.
    pub configuration: Option<String>,
    /// Extra arguments passed to nix repl.
    pub extra_args: Vec<String>,
}

impl HomeReplArgs {
    /// Whether the repl uses flakes: `NH_HOME_FLAKE` names one, or the
    /// installable is one.
    #[must_use]
    pub fn uses_flakes(&self, env: &FlakeEnv) -> (b: bool)
        ensures
            b == (names_flake(env.home) || self.installable is Flake),
    {
        if is_set_and_not_empty(&env.home) {
            return true;
        }
        self.installable.is_flake()
    }
}

/// The home-manager subcommands.
#[derive(Debug)]
pub enum HomeSubcommand {
    /// Build and activate a home-manager configuration.
    Switch(HomeRebuildArgs),
    /// Build a home-manager configuration.
    Build(HomeRebuildArgs),
    /// Load a home-manager configuration in a Nix REPL.
    Repl(HomeReplArgs),
}

/// Home-manager functionality.
#[derive(Debug)]
pub struct HomeArgs {
    pub subcommand: HomeSubcommand,
}

impl HomeArgs {
    /// What the subcommand needs of Nix.
    pub open spec fn features(&self, env: FlakeEnv) -> FeatureRequirements {
        match self.subcommand {
            HomeSubcommand::Repl(a) => FeatureRequirements::HomeReplFeatures {
                is_flake: names_flake(env.home) || a.installable is Flake,
            },
            HomeSubcommand::Switch(a) => build_features(
                names_flake(env.home) || a.common.installable is Flake,
            ),
            HomeSubcommand::Build(a) => build_features(
                names_flake(env.home) || a.common.installable is Flake,
            ),
        }
    }

    /// What the subcommand needs of Nix.
    #[must_use]
    pub fn get_feature_requirements(&self, env: &FlakeEnv) -> (r: FeatureRequirements)
        ensures
            r == self.features(*env),
    {
        match &self.subcommand {
            HomeSubcommand::Repl(args) => {
                let is_flake = args.uses_flakes(env);
                FeatureRequirements::HomeReplFeatures { is_flake }
            },
            HomeSubcommand::Switch(args) => features_of_build(args.uses_flakes(env)),
            HomeSubcommand::Build(args) => features_of_build(args.uses_flakes(env)),
        }
    }
}

/// Options of a nix-darwin rebuild.
#[derive(Debug)]
pub struct DarwinRebuildArgs {
    pub common: CommonRebuildArgs,
    pub update_args: UpdateArgs,
    /// Select this hostname from darwinConfigurations.
    pub hostname: Option<String>,
    /// Extra arguments passed to nix build.
    pub extra_args: Vec<String>,
    /// Do not refuse to run as root.
    pub bypass_root_check: bool,
    /// Show activation logs.
    pub show_activation_logs: bool,
    /// Build the configuration on a different host over SSH.
    pub build_host: Option<String>,
}

impl DarwinRebuildArgs {
    /// Whether the rebuild uses flakes: `NH_DARWIN_FLAKE` names one, or the
    /// installable is one.
    #[must_use]
    pub fn uses_flakes(&self, env: &FlakeEnv) -> (b: bool)
        ensures
            b == (names_flake(env.darwin) || self.common.installable is Flake),
    {
        if is_set_and_not_empty(&env.darwin) {
            return true;
        }
        self.common.installable.is_flake()
    }
}

/// Options for loading a nix-darwin configuration in a repl.
#[derive(Debug)]
pub struct DarwinReplArgs {
    pub installable: Installable,
    /// Select this hostname from darwinConfigurations.
    pub hostname: Option<String>,
}

impl DarwinReplArgs {
    /// Whether the repl uses flakes: `NH_DARWIN_FLAKE` names one, or the
    /// installable is one.
    #[must_use]
    pub fn uses_flakes(&self, env: &FlakeEnv) -> (b: bool)
        ensures
            b == (names_flake(env.darwin) || self.installable is Flake),
    {
        if is_set_and_not_empty(&env.darwin) {
            return true;
        }
        self.installable.is_flake()
    }
}

/// The nix-darwin subcommands.
#[derive(Debug)]
pub enum DarwinSubcommand {
    /// Build and activate a nix-darwin configuration.
    Switch(DarwinRebuildArgs),
    /// Build a nix-darwin configuration.
    Build(DarwinRebuildArgs),
    /// Load a nix-darwin configuration in a Nix REPL.
    Repl(DarwinReplArgs),
}

/// Nix-darwin functionality.
#[derive(Debug)]
pub struct DarwinArgs {
    pub subcommand: DarwinSubcommand,
}

impl DarwinArgs {
    /// What the subcommand needs of Nix.
    pub open spec fn features(&self, env: FlakeEnv) -> FeatureRequirements {
        match self.subcommand {
            DarwinSubcommand::Repl(a) => FeatureRequirements::DarwinReplFeatures {
                is_flake: names_flake(env.darwin) || a.installable is Flake,
            },
            DarwinSubcommand::Switch(a) => build_features(
                names_flake(env.darwin) || a.common.installable is Flake,
            ),
            DarwinSubcommand::Build(a) => build_features(
                names_flake(env.darwin) || a.common.installable is Flake,
            ),
        }
    }

    /// What the subcommand needs of Nix.
    #[must_use]
    pub fn get_feature_requirements(&self, env: &FlakeEnv) -> (r: FeatureRequirements)
        ensures
            r == self.features(*env),
    {
        match &self.subcommand {
            DarwinSubcommand::Repl(args) => {
                let is_flake = args.uses_flakes(env);
                FeatureRequirements::DarwinReplFeatures { is_flake }
            },
            DarwinSubcommand::Switch(args) => features_of_build(args.uses_flakes(env)),
            DarwinSubcommand::Build(args) => features_of_build(args.uses_flakes(env)),
        }
    }
}

/// The commands of the tool.
#[derive(Debug)]
pub enum NHCommand {
    Os(OsArgs),
    Home(HomeArgs),
    Darwin(DarwinArgs),
    Search(SearchArgs),
    Clean(CleanProxy),
}

impl NHCommand {
    /// What the command needs of Nix: searching and cleaning need nothing.
    pub open spec fn features(&self, env: FlakeEnv) -> FeatureRequirements {
        match *self {
            NHCommand::Os(a) => a.features(env),
            NHCommand::Home(a) => a.features(env),
            NHCommand::Darwin(a) => a.features(env),
            NHCommand::Search(_) => FeatureRequirements::NoFeatures,
            NHCommand::Clean(_) => FeatureRequirements::NoFeatures,
        }
    }

    /// What the command needs of Nix.
    #[must_use]
    pub fn get_feature_requirements(&self, env: &FlakeEnv) -> (r: FeatureRequirements)
        ensures
            r == self.features(*env),
    {
        match self {
            NHCommand::Os(args) => args.get_feature_requirements(env),
            NHCommand::Home(args) => args.get_feature_requirements(env),
            NHCommand::Darwin(args) => args.get_feature_requirements(env),
            NHCommand::Search(_) => FeatureRequirements::NoFeatures,
            NHCommand::Clean(_) => FeatureRequirements::NoFeatures,
        }
    }
}

/// A call of `nix` that updates flake inputs, and what to tell the user.
#[derive(Debug)]
pub struct UpdateCommand {
    /// Arguments for `nix`.
    pub args: Vec<String>,
    pub message: String,
}

/// The texts joined, with `", "` between each two.
pub open spec fn joined(items: Seq<Seq<char>>) -> Seq<char>
    decreases items.len(),
{
    if items.len() == 0 {
        Seq::empty()
    } else if items.len() == 1 {
        items[0]
    } else {
        joined(items.drop_last()) + ", "@ + items.last()
    }
}

/// The arguments of the update call: `flake update`, the switch that commits
/// the lock file if wanted, the inputs if any are named, then `--flake` and
/// the reference.
pub open spec fn update_args(
    reference: Seq<char>,
    inputs: Option<Seq<Seq<char>>>,
    commit_lock_file: bool,
) -> Seq<Seq<char>> {
    seq!["flake"@, "update"@] + (if commit_lock_file {
        seq!["--commit-lock-file"@]
    } else {
        Seq::empty()
    }) + (match inputs {
        Some(names) => names,
        None => Seq::empty(),
    }) + seq!["--flake"@, reference]
}

/// What the user is told: which inputs are updated, in the plural for more
/// than one, or that all are.
pub open spec fn update_message(inputs: Option<Seq<Seq<char>>>) -> Seq<char> {
    match inputs {
        Some(names) => if names.len() > 1 {
            "Updating flake inputs "@ + joined(names)
        } else {
            "Updating flake input "@ + joined(names)
        },
        None => "Updating all flake inputs"@,
    }
}

/// The names of the inputs as plain texts.
pub open spec fn input_names(inputs: Option<Vec<String>>) -> Option<Seq<Seq<char>>> {
    match inputs {
        Some(v) => Some(texts(v@)),
        None => None,
    }
}

fn join_names(names: &Vec<String>) -> (r: String)
    ensures
        r@ == joined(texts(names@)),
{
    let mut r = String::new();
    let n: usize = names.len();
    let mut i: usize = 0;
    assert(joined(texts(names@).take(0)) =~= Seq::<char>::empty());
    while i < n
        invariant
            n == names@.len(),
            i <= n,
            r@ == joined(texts(names@).take(i as int)),
        decreases n - i,
    {
        let ghost all = texts(names@);
        assert(all.take(i + 1).drop_last() =~= all.take(i as int));
        assert(all.take(i + 1).last() == names@[i as int]@);
        if i > 0 {
            r.append(", ");
        } else {
            assert(all.take(1)[0] == names@[0]@);
            assert(r@ + names@[0]@ =~= names@[0]@);
        }
        r.append(names[i].as_str());
        i = i + 1;
    }
    assert(texts(names@).take(n as int) =~= texts(names@));
    r
}

/// Plans the update of the inputs of a flake. Only a flake can be updated:
/// for any other installable there is nothing to run.
pub fn update(installable: &Installable, inputs: &Option<Vec<String>>, commit_lock_file: bool) -> (r:
    Option<UpdateCommand>)
    ensures
        r is Some <==> *installable is Flake,
        r is Some ==> texts(r.unwrap().args@) == update_args(
            installable->Flake_reference@,
            input_names(*inputs),
            commit_lock_file,
        ) && r.unwrap().message@ == update_message(input_names(*inputs)),
{
    let reference = match installable {
        Installable::Flake { reference, .. } => reference,
        _ => {
            return None;
        },
    };
    let mut args: Vec<String> = Vec::new();
    args.push("flake".to_owned());
    args.push("update".to_owned());
    if commit_lock_file {
        args.push("--commit-lock-file".to_owned());
    }
    let ghost head = texts(args@);
    let message = match inputs {
        Some(names) => {
            let n: usize = names.len();
            let mut i: usize = 0;
            assert(texts(args@) =~= head + texts(names@).take(0));
            while i < n
                invariant
                    n == names@.len(),
                    i <= n,
                    texts(args@) == head + texts(names@).take(i as int),
                decreases n - i,
            {
                let ghost before = texts(args@);
                args.push(names[i].clone());
                assert(texts(args@) =~= before.push(names@[i as int]@));
                assert(texts(names@).take(i + 1) =~= texts(names@).take(i as int).push(
                    names@[i as int]@,
                ));
                assert(texts(args@) =~= head + texts(names@).take(i + 1));
                i = i + 1;
            }
            assert(texts(names@).take(n as int) =~= texts(names@));
            let mut message = if n > 1 {
                "Updating flake inputs ".to_owned()
            } else {
                "Updating flake input ".to_owned()
            };
            let list = join_names(names);
            message.append(list.as_str());
            message
        },
        None => {
            assert(texts(args@) =~= head + Seq::<Seq<char>>::empty());
            "Updating all flake inputs".to_owned()
        },
    };
    let ghost body = texts(args@);
    args.push("--flake".to_owned());
    args.push(reference.clone());
    assert(texts(args@) =~= body + seq!["--flake"@, reference@]);
    assert(texts(args@) =~= update_args(reference@, input_names(*inputs), commit_lock_file));
    Some(UpdateCommand { args, message })
}

/// What is done about the variable `FLAKE` at start-up.
#[derive(Debug)]
pub struct EnvironmentSetup {
    /// The value to set `NH_FLAKE` to, if it is to be set.
    pub nh_flake: Option<String>,
    /// Whether to warn that `FLAKE` is on its way out.
    pub warn: bool,
}

/// Decides what becomes of `FLAKE`: it is handed on to `NH_FLAKE` unless that
/// is set already, and a warning is due only if it was handed on and none of
/// the variables for a single kind of configuration is set.
pub fn setup_environment(flake: &Option<String>, nh_flake: &Option<String>, env: &FlakeEnv) -> (r:
    EnvironmentSetup)
    ensures
        r.nh_flake == (if *flake is Some && *nh_flake is None {
            *flake
        } else {
            None
        }),
        r.warn == (*flake is Some && *nh_flake is None && env.os is None && env.home is None
            && env.darwin is None),
{
    match flake {
        Some(f) => {
            if nh_flake.is_none() {
                let warn = env.os.is_none() && env.home.is_none() && env.darwin.is_none();
                EnvironmentSetup { nh_flake: Some(f.clone()), warn }
            } else {
                EnvironmentSetup { nh_flake: None, warn: false }
            }
        },
        None => EnvironmentSetup { nh_flake: None, warn: false },
    }
}

} // verus!
