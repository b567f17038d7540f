//! The command line of the iOS tooling: its subcommands, and which of them
//! an invocation runs at which verbosity.

use vstd::prelude::*;

verus! {

/// Options of the `init` subcommand, which sets up the iOS target in a
/// project.
#[derive(Clone, Copy, Debug, PartialEq, Eq, Structural)]
pub struct InitOptions {
    /// Skip prompting for values.
    pub ci: bool,
    /// Reinstall dependencies.
    pub reinstall_deps: bool,
    /// Skip installing rust toolchains via rustup.
    pub skip_targets_install: bool,
}

/// The subcommands.
#[derive(Clone, Copy, Debug, PartialEq, Eq, Structural)]
pub enum Commands {
    Init(InitOptions),
    Dev,
    Build,
    XcodeScript,
}

/// A parsed command line.
#[derive(Clone, Copy, Debug, PartialEq, Eq, Structural)]
pub struct Cli {
    pub command: Commands,
}

/// How much a command reports while it runs.
#[derive(Clone, Copy, Debug, PartialEq, Eq, Structural)]
pub enum NoiseLevel {
    Polite,
    LoudAndProud,
    FranklyQuitePedantic,
}

/// What an invocation runs.
#[derive(Clone, Copy, Debug, PartialEq, Eq, Structural)]
pub enum Invocation {
    /// Initialise the iOS target of the project.
    Init { ci: bool, reinstall_deps: bool, skip_targets_install: bool },
    /// Run the application in development mode.
    Dev(NoiseLevel),
    /// Build the application.
    Build(NoiseLevel),
    /// Run the build step that Xcode calls back into.
    XcodeScript,
}

/// The noise level that a number of `-v` flags asks for.
pub open spec fn noise_level_of(occurrences: int) -> NoiseLevel {
    if occurrences == 0 {
        NoiseLevel::Polite
    } else if occurrences == 1 {
        NoiseLevel::LoudAndProud
    } else {
        NoiseLevel::FranklyQuitePedantic
    }
}

/// Calls `cargo_mobile2::opts::NoiseLevel::from_occurrences`.
///
/// Claimed: the level is polite without a flag, loud with one and pedantic
/// with more.
#[verifier::external_body]
fn noise_level(occurrences: u64) -> (level: NoiseLevel)
    ensures
        level == noise_level_of(occurrences as int),
{
    match cargo_mobile2::opts::NoiseLevel::from_occurrences(occurrences) {
        cargo_mobile2::opts::NoiseLevel::Polite => NoiseLevel::Polite,
        cargo_mobile2::opts::NoiseLevel::LoudAndProud => NoiseLevel::LoudAndProud,
        cargo_mobile2::opts::NoiseLevel::FranklyQuitePedantic => NoiseLevel::FranklyQuitePedantic,
    }
}

/// What `cli` runs when it is given `verbosity` flags.
pub open spec fn invocation_of(cli: Cli, verbosity: u8) -> Invocation {
    match cli.command {
        Commands::Init(options) => Invocation::Init {
            ci: options.ci,
            reinstall_deps: options.reinstall_deps,
            skip_targets_install: options.skip_targets_install,
        },
        Commands::Dev => Invocation::Dev(noise_level_of(verbosity as int)),
        Commands::Build => Invocation::Build(noise_level_of(verbosity as int)),
        Commands::XcodeScript => Invocation::XcodeScript,
    }
}

/// Decides what a parsed command line runs: the subcommand, with the
/// options of `init` or the noise level of `dev` and `build`.
pub fn command(cli: Cli, verbosity: u8) -> (invocation: Invocation)
    ensures
        invocation == invocation_of(cli, verbosity),
{
    let level = noise_level(verbosity.into());
    match cli.command {
        Commands::Init(options) => Invocation::Init {
            ci: options.ci,
            reinstall_deps: options.reinstall_deps,
            skip_targets_install: options.skip_targets_install,
        },
        Commands::Dev => Invocation::Dev(level),
        Commands::Build => Invocation::Build(level),
        Commands::XcodeScript => Invocation::XcodeScript,
    }
}

} // verus!
