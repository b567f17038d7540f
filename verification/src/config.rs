//! Synthesis of the build configuration from its sources: the environment,
//! the project configuration, the command line and the signing identities
//! found on the machine.

use vstd::prelude::*;
use vstd::string::StringExecFns;
use crate::paths::{
    extension, extension_of, file_stem, file_stem_of, is_absolute, is_absolute_path, join,
    joined_path, relativize_path, relativized_path,
};
use crate::text::{
    append_all, copy_opt_text, copy_opt_texts, copy_texts, lemma_texts_push, opt_ref_texts,
    opt_text, opt_texts, texts,
};

verus! {

/// The environment variable that overrides the development team.
pub const APPLE_DEVELOPMENT_TEAM_ENV_VAR_NAME: &'static str = "APPLE_DEVELOPMENT_TEAM";

/// The environment variable that carries the generated project's directory
/// to later invocations.
pub const PROJECT_PATH_ENV_VAR_NAME: &'static str = "TAURI_IOS_PROJECT_PATH";

/// The environment variable that carries the application's name to later
/// invocations.
pub const APP_NAME_ENV_VAR_NAME: &'static str = "TAURI_IOS_APP_NAME";

/// The minimum iOS version that a build targets.
pub const TARGET_IOS_VERSION: &'static str = "13.0";

/// A signing identity found on the machine: a certificate's name and the
/// id of the development team it belongs to.
#[derive(Clone, Debug, PartialEq, Eq)]
pub struct SigningIdentity {
    pub name: String,
    pub id: String,
}

/// Why no development team could be chosen from the signing identities.
#[derive(Clone, Copy, Debug, PartialEq, Eq, Structural)]
pub enum TeamWarning {
    /// There is no identity: one has to be added.
    NoIdentities,
    /// There are several identities: one has to be chosen explicitly.
    AmbiguousIdentities,
}

/// The team ids of a list of identities.
pub open spec fn identity_ids(identities: Seq<SigningIdentity>) -> Seq<Seq<char>> {
    Seq::new(identities.len(), |i: int| identities[i].id@)
}

/// The development team: the environment's override if there is one, else
/// the project's configured team, else the team of the only signing
/// identity; unset where there is no identity or more than one.
pub open spec fn development_team_of(
    team_override: Option<Seq<char>>,
    configured: Option<Seq<char>>,
    ids: Seq<Seq<char>>,
) -> Option<Seq<char>> {
    if team_override is Some {
        team_override
    } else if configured is Some {
        configured
    } else if ids.len() == 1 {
        Some(ids[0])
    } else {
        None
    }
}

/// The warning that goes with an unset development team.
pub open spec fn team_warning_of(
    team_override: Option<Seq<char>>,
    configured: Option<Seq<char>>,
    ids: Seq<Seq<char>>,
) -> Option<TeamWarning> {
    if team_override is Some || configured is Some || ids.len() == 1 {
        None
    } else if ids.len() == 0 {
        Some(TeamWarning::NoIdentities)
    } else {
        Some(TeamWarning::AmbiguousIdentities)
    }
}

/// Whether the signing identities have to be looked up at all: only where
/// neither the environment nor the project names a team.
pub fn needs_identities(team_override: &Option<String>, configured: &Option<String>) -> (needed:
    bool)
    ensures
        needed == (team_override is None && configured is None),
{
    team_override.is_none() && configured.is_none()
}

/// Resolves the development team by precedence, with the warning to show
/// where it stays unset.
pub fn development_team(
    team_override: Option<String>,
    configured: Option<String>,
    identities: &Vec<SigningIdentity>,
) -> (resolved: (Option<String>, Option<TeamWarning>))
    ensures
        opt_text(resolved.0) == development_team_of(
            opt_text(team_override),
            opt_text(configured),
            identity_ids(identities@),
        ),
        resolved.1 == team_warning_of(
            opt_text(team_override),
            opt_text(configured),
            identity_ids(identities@),
        ),
{
    match team_override {
        Some(team) => (Some(team), None),
        None => match configured {
            Some(team) => (Some(team), None),
            None => {
                if identities.len() == 0 {
                    (None, Some(TeamWarning::NoIdentities))
                } else if identities.len() == 1 {
                    (Some(identities[0].id.clone()), None)
                } else {
                    (None, Some(TeamWarning::AmbiguousIdentities))
                }
            },
        },
    }
}

/// The warning shown where there is no signing identity.
pub const NO_IDENTITIES_WARNING: &'static str =
    "No code signing certificates found. You must add one and set the certificate development team ID on the `bundle > iOS > developmentTeam` config value or the `APPLE_DEVELOPMENT_TEAM` environment variable. To list the available certificates, run `tauri info`.";

/// The head of the warning shown where there are several signing
/// identities; the identities follow it.
pub const AMBIGUOUS_IDENTITIES_WARNING: &'static str =
    "You must set the code signing certificate development team ID on  the `bundle > iOS > developmentTeam` config value or the `APPLE_DEVELOPMENT_TEAM` environment variable. Available certificates: ";

/// How an identity is shown: its name, and its team id in brackets.
pub open spec fn identity_label(identity: SigningIdentity) -> Seq<char> {
    identity.name@ + " (ID: "@ + identity.id@ + ")"@
}

/// How a list of identities is shown: their labels, separated by a comma
/// and a space.
pub open spec fn identity_listing(identities: Seq<SigningIdentity>) -> Seq<char>
    decreases identities.len(),
{
    if identities.len() == 0 {
        Seq::empty()
    } else if identities.len() == 1 {
        identity_label(identities[0])
    } else {
        identity_listing(identities.drop_last()) + ", "@ + identity_label(identities.last())
    }
}

/// The text of a warning: for no identity the advice to add one, for
/// several the advice to choose one, with the identities to choose from.
pub open spec fn warning_text(warning: TeamWarning, identities: Seq<SigningIdentity>) -> Seq<char> {
    match warning {
        TeamWarning::NoIdentities => NO_IDENTITIES_WARNING@,
        TeamWarning::AmbiguousIdentities => AMBIGUOUS_IDENTITIES_WARNING@ + identity_listing(
            identities,
        ),
    }
}

/// Writes the warning for the user, listing the identities found where
/// one of them has to be chosen.
pub fn warning_message(warning: TeamWarning, identities: &Vec<SigningIdentity>) -> (message: String)
    ensures
        message@ == warning_text(warning, identities@),
{
    match warning {
        TeamWarning::NoIdentities => NO_IDENTITIES_WARNING.to_owned(),
        TeamWarning::AmbiguousIdentities => {
            let mut message = AMBIGUOUS_IDENTITIES_WARNING.to_owned();
            let mut i: usize = 0;
            while i < identities.len()
                invariant
                    i <= identities.len(),
                    message@ == AMBIGUOUS_IDENTITIES_WARNING@ + identity_listing(
                        identities@.take(i as int),
                    ),
                decreases identities.len() - i,
            {
                let ghost shown = identities@.take(i as int);
                let ghost next = identities@.take(i + 1);
                proof {
                    assert(next.drop_last() == shown);
                    assert(next.last() == identities@[i as int]);
                    assert(shown.len() == 0 ==> identity_listing(shown) =~= Seq::<char>::empty());
                }
                if i > 0 {
                    message.append(", ");
                }
                message.append(identities[i].name.as_str());
                message.append(" (ID: ");
                message.append(identities[i].id.as_str());
                message.append(")");
                proof {
                    assert(message@ =~= AMBIGUOUS_IDENTITIES_WARNING@ + identity_listing(next));
                }
                i = i + 1;
            }
            proof {
                assert(identities@.take(identities@.len() as int) == identities@);
            }
            message
        },
    }
}

/// The feature list: the caller's features appended to those already
/// present, duplicates kept.
pub open spec fn merged_features(
    base: Option<Seq<Seq<char>>>,
    extra: Option<Seq<Seq<char>>>,
) -> Option<Seq<Seq<char>>> {
    match extra {
        None => base,
        Some(extra) => match base {
            Some(base) => Some(base + extra),
            None => Some(extra),
        },
    }
}

/// Appends the caller's features to those already present.
pub fn merge_features(base: Option<Vec<String>>, extra: Option<&Vec<String>>) -> (merged: Option<
    Vec<String>,
>)
    ensures
        opt_texts(merged) == merged_features(opt_texts(base), opt_ref_texts(extra)),
{
    match extra {
        None => base,
        Some(extra) => {
            let mut merged = match base {
                Some(base) => base,
                None => Vec::new(),
            };
            proof {
                assert(base is None ==> texts(merged@) + texts(extra@) =~= texts(extra@));
            }
            append_all(&mut merged, extra);
            Some(merged)
        },
    }
}

/// A framework reference without an extension names a system framework.
pub open spec fn is_system_framework(reference: Seq<char>) -> bool {
    match extension_of(reference) {
        Some(ext) => ext.len() == 0,
        None => true,
    }
}

/// A framework reference with the extension `framework` is a framework
/// bundle.
pub open spec fn is_framework_bundle(reference: Seq<char>) -> bool {
    extension_of(reference) == Some("framework"@)
}

/// A framework reference with any other extension is a vendor library,
/// embedded in the application.
pub open spec fn is_vendor_framework(reference: Seq<char>) -> bool {
    !is_system_framework(reference) && !is_framework_bundle(reference)
}

/// The name under which a framework is linked: a system framework's
/// reference as it is, a bundle's file stem.
pub open spec fn link_name(reference: Seq<char>) -> Seq<char> {
    if is_system_framework(reference) {
        reference
    } else {
        file_stem_of(reference).unwrap()
    }
}

/// Whether a path is absolute and begins at the root `/`.
pub open spec fn is_rooted(path: Seq<char>) -> bool {
    is_absolute_path(path) && path.len() > 0 && path[0] == '/'
}

/// The path of a vendor framework as seen from the project directory: the
/// reference is resolved against `config_dir` and then made relative to
/// `project_dir`. There is none unless both are absolute and begin at the
/// root.
pub open spec fn vendor_path_of(
    reference: Seq<char>,
    config_dir: Seq<char>,
    project_dir: Seq<char>,
) -> Option<Seq<char>> {
    let full = joined_path(config_dir, reference);
    if is_rooted(full) && is_rooted(project_dir) {
        Some(relativized_path(full, project_dir))
    } else {
        None
    }
}

/// Selects the references that are linked.
pub open spec fn linked() -> spec_fn(Seq<char>) -> bool {
    |reference: Seq<char>| !is_vendor_framework(reference)
}

/// Selects the references that are embedded.
pub open spec fn embedded() -> spec_fn(Seq<char>) -> bool {
    |reference: Seq<char>| is_vendor_framework(reference)
}

/// Maps a linked reference to its link name.
pub open spec fn to_link_name() -> spec_fn(Seq<char>) -> Seq<char> {
    |reference: Seq<char>| link_name(reference)
}

/// Maps an embedded reference to its path from the project directory.
pub open spec fn to_vendor_path(config_dir: Seq<char>, project_dir: Seq<char>) -> spec_fn(
    Seq<char>,
) -> Seq<char> {
    |reference: Seq<char>| vendor_path_of(reference, config_dir, project_dir).unwrap()
}

/// The link list: the names of the system frameworks and framework
/// bundles, in the order of their references.
pub open spec fn linked_frameworks(references: Seq<Seq<char>>) -> Seq<Seq<char>> {
    references.filter(linked()).map_values(to_link_name())
}

/// The embed list: the paths of the vendor frameworks from the project
/// directory, in the order of their references.
pub open spec fn vendor_frameworks(
    references: Seq<Seq<char>>,
    config_dir: Seq<char>,
    project_dir: Seq<char>,
) -> Seq<Seq<char>> {
    references.filter(embedded()).map_values(to_vendor_path(config_dir, project_dir))
}

/// Whether every vendor framework among the references has a path from the
/// project directory.
pub open spec fn frameworks_resolvable(
    references: Seq<Seq<char>>,
    config_dir: Seq<char>,
    project_dir: Seq<char>,
) -> bool {
    forall|i: int|
        0 <= i < references.len() && is_vendor_framework(#[trigger] references[i])
            ==> vendor_path_of(references[i], config_dir, project_dir) is Some
}

/// Why a configuration could not be synthesized.
#[derive(Clone, Copy, Debug, PartialEq, Eq, Structural)]
pub enum ConfigError {
    /// A vendor framework has no path relative to the project directory.
    UnresolvableFramework,
}

/// How a framework reference is treated.
#[derive(Clone, Copy, Debug, PartialEq, Eq, Structural)]
pub enum FrameworkKind {
    /// Linked by its name.
    System,
    /// Linked by the stem of its file name.
    Bundle,
    /// Embedded from a path relative to the project directory.
    Vendor,
}

/// The kind of a framework reference, given the extension of its path.
pub open spec fn framework_kind_of(ext: Option<Seq<char>>) -> FrameworkKind {
    match ext {
        None => FrameworkKind::System,
        Some(ext) => if ext.len() == 0 {
            FrameworkKind::System
        } else if ext == "framework"@ {
            FrameworkKind::Bundle
        } else {
            FrameworkKind::Vendor
        },
    }
}

/// Classifies a framework reference by the extension of its path.
pub fn framework_kind(ext: &Option<String>) -> (kind: FrameworkKind)
    ensures
        kind == framework_kind_of(opt_text(*ext)),
{
    match ext {
        None => FrameworkKind::System,
        Some(ext) => {
            if ext.as_str().is_empty() {
                FrameworkKind::System
            } else if *ext == "framework".to_owned() {
                FrameworkKind::Bundle
            } else {
                FrameworkKind::Vendor
            }
        },
    }
}

/// Classifies a framework reference by the extension of its path. A
/// reference without a dot has no extension, and names a system framework.
pub fn classify_framework(reference: &str) -> (kind: FrameworkKind)
    ensures
        kind == framework_kind_of(extension_of(reference@)),
        kind == FrameworkKind::System <==> is_system_framework(reference@),
        kind == FrameworkKind::Bundle <==> is_framework_bundle(reference@),
        kind == FrameworkKind::Vendor <==> is_vendor_framework(reference@),
        !reference@.contains('.') ==> kind == FrameworkKind::System,
{
    proof {
        reveal_strlit("framework");
    }
    let ext = extension(reference);
    framework_kind(&ext)
}

/// Tells whether a path is absolute and begins at the root `/`.
fn rooted(path: &str) -> (yes: bool)
    ensures
        yes == is_rooted(path@),
{
    is_absolute(path) && path.unicode_len() > 0 && path.get_char(0) == '/'
}

/// Resolves a vendor framework against `config_dir` and makes it relative
/// to `project_dir`.
pub fn vendor_path(reference: &str, config_dir: &str, project_dir: &str) -> (path: Option<String>)
    ensures
        opt_text(path) == vendor_path_of(reference@, config_dir@, project_dir@),
{
    let full = join(config_dir, reference);
    if rooted(full.as_str()) && rooted(project_dir) {
        Some(relativize_path(full.as_str(), project_dir))
    } else {
        None
    }
}

/// The frameworks of a build: those to link, and those to embed.
#[derive(Clone, Debug, PartialEq, Eq)]
pub struct FrameworkLists {
    /// Names of the frameworks to link.
    pub frameworks: Vec<String>,
    /// Paths of the frameworks to embed, relative to the project directory.
    pub vendor_frameworks: Vec<String>,
}

/// Classifies each framework reference: system frameworks and framework
/// bundles are linked, everything else is embedded.
pub fn classify_frameworks(references: &Vec<String>, config_dir: &str, project_dir: &str) -> (lists:
    Result<FrameworkLists, ConfigError>)
    ensures
        lists is Ok <==> frameworks_resolvable(texts(references@), config_dir@, project_dir@),
        lists matches Ok(lists) ==> texts(lists.frameworks@) == linked_frameworks(
            texts(references@),
        ),
        lists matches Ok(lists) ==> texts(lists.vendor_frameworks@) == vendor_frameworks(
            texts(references@),
            config_dir@,
            project_dir@,
        ),
        lists matches Err(error) ==> error == ConfigError::UnresolvableFramework,
{
    let ghost refs = texts(references@);
    let mut frameworks: Vec<String> = Vec::new();
    let mut vendor: Vec<String> = Vec::new();
    let mut i: usize = 0;
    proof {
        reveal(Seq::filter);
        assert(refs.take(0).filter(linked()).map_values(to_link_name()) =~= texts(frameworks@));
        assert(refs.take(0).filter(embedded()).map_values(to_vendor_path(config_dir@, project_dir@))
            =~= texts(vendor@));
    }
    while i < references.len()
        invariant
            i <= references.len(),
            refs == texts(references@),
            texts(frameworks@) == linked_frameworks(refs.take(i as int)),
            texts(vendor@) == vendor_frameworks(refs.take(i as int), config_dir@, project_dir@),
            frameworks_resolvable(refs.take(i as int), config_dir@, project_dir@),
        decreases references.len() - i,
    {
        let reference = references[i].as_str();
        let ghost before = refs.take(i as int);
        let ghost after = refs.take(i + 1);
        proof {
            reveal(Seq::filter);
            assert(after.drop_last() == before);
            assert(after.last() == reference@);
        }
        match classify_framework(reference) {
            FrameworkKind::System => {
                proof {
                    lemma_texts_push(frameworks@, references@[i as int]);
                    assert(after.filter(linked()) == before.filter(linked()).push(reference@));
                    assert(after.filter(linked()).map_values(to_link_name())
                        =~= before.filter(linked()).map_values(to_link_name()).push(reference@));
                }
                frameworks.push(references[i].clone());
            },
            FrameworkKind::Bundle => {
                let stem = file_stem(reference).unwrap();
                proof {
                    lemma_texts_push(frameworks@, stem);
                    assert(after.filter(linked()) == before.filter(linked()).push(reference@));
                    assert(after.filter(linked()).map_values(to_link_name())
                        =~= before.filter(linked()).map_values(to_link_name()).push(stem@));
                }
                frameworks.push(stem);
            },
            FrameworkKind::Vendor => {
                match vendor_path(reference, config_dir, project_dir) {
                    Some(path) => {
                        proof {
                            lemma_texts_push(vendor@, path);
                            assert(after.filter(embedded()) == before.filter(embedded()).push(
                                reference@,
                            ));
                            assert(after.filter(embedded()).map_values(
                                to_vendor_path(config_dir@, project_dir@),
                            ) =~= before.filter(embedded()).map_values(
                                to_vendor_path(config_dir@, project_dir@),
                            ).push(path@));
                        }
                        vendor.push(path);
                    },
                    None => {
                        assert(is_vendor_framework(refs[i as int]));
                        return Err(ConfigError::UnresolvableFramework);
                    },
                }
            },
        }
        proof {
            assert forall|j: int|
                0 <= j < after.len() && is_vendor_framework(#[trigger] after[j])
                    implies vendor_path_of(after[j], config_dir@, project_dir@) is Some by {
                if j < i {
                    assert(after[j] == before[j]);
                }
            }
        }
        i = i + 1;
    }
    proof {
        assert(refs.take(references@.len() as int) == refs);
    }
    Ok(FrameworkLists { frameworks, vendor_frameworks: vendor })
}

/// The application that is built.
#[derive(Clone, Debug, PartialEq, Eq)]
pub struct App {
    /// The application's name.
    pub name: String,
    /// The directory of the generated Xcode project.
    pub project_dir: String,
}

/// What the project configuration says of the iOS build.
#[derive(Clone, Debug, PartialEq, Eq)]
pub struct ProjectConfig {
    /// The application's version.
    pub version: Option<String>,
    /// The development team that signs the application.
    pub development_team: Option<String>,
    /// The frameworks that the application uses.
    pub frameworks: Option<Vec<String>>,
}

/// Options that the command line carries to the build.
#[derive(Clone, Debug, PartialEq, Eq)]
pub struct CliOptions {
    /// Cargo features that are already switched on.
    pub features: Option<Vec<String>>,
    /// Further arguments for cargo.
    pub args: Vec<String>,
}

/// What the machine says: the environment's override of the development
/// team, the signing identities found, and the directory of the project
/// configuration.
#[derive(Clone, Debug, PartialEq, Eq)]
pub struct Environment {
    /// The value of the development-team variable, if it is set.
    pub development_team: Option<String>,
    /// The signing identities found; empty where none were looked up.
    pub identities: Vec<SigningIdentity>,
    /// The directory that holds the project configuration.
    pub config_dir: String,
}

/// The synthesized build configuration. Every field holds a value or is
/// explicitly unset.
#[derive(Clone, Debug, PartialEq, Eq)]
pub struct ResolvedBuildConfig {
    /// The development team that signs the application.
    pub development_team: Option<String>,
    /// Shown to the user where the development team stays unset.
    pub warning: Option<TeamWarning>,
    /// Cargo features of the build.
    pub features: Option<Vec<String>>,
    /// Further arguments for cargo.
    pub cargo_args: Vec<String>,
    /// Names of the frameworks to link.
    pub frameworks: Vec<String>,
    /// Paths of the frameworks to embed, relative to the project directory.
    pub vendor_frameworks: Vec<String>,
    /// The bundle's version.
    pub bundle_version: Option<String>,
    /// The bundle's short version.
    pub bundle_version_short: Option<String>,
    /// The minimum iOS version.
    pub ios_version: String,
    /// The generated project's directory, for later invocations.
    pub project_path: String,
    /// The application's name, for later invocations.
    pub app_name: String,
}

/// The framework references of a project configuration: none where it
/// lists none.
pub open spec fn framework_references(frameworks: Option<Vec<String>>) -> Seq<Seq<char>> {
    match frameworks {
        Some(list) => texts(list@),
        None => Seq::empty(),
    }
}

/// Synthesizes the build configuration.
///
/// The development team follows the precedence of `development_team_of`;
/// the caller's features are appended to those of the command line; each
/// framework of the project configuration is linked or embedded by the
/// extension of its reference; the bundle versions are the application's
/// version. Synthesis fails exactly where a vendor framework has no path
/// from the project directory.
pub fn get_config(
    app: &App,
    project_config: &ProjectConfig,
    features: Option<&Vec<String>>,
    cli_options: &CliOptions,
    env: &Environment,
) -> (config: Result<ResolvedBuildConfig, ConfigError>)
    ensures
        config is Ok <==> frameworks_resolvable(
            framework_references(project_config.frameworks),
            env.config_dir@,
            app.project_dir@,
        ),
        config matches Ok(config) ==> opt_text(config.development_team) == development_team_of(
            opt_text(env.development_team),
            opt_text(project_config.development_team),
            identity_ids(env.identities@),
        ),
        config matches Ok(config) ==> config.warning == team_warning_of(
            opt_text(env.development_team),
            opt_text(project_config.development_team),
            identity_ids(env.identities@),
        ),
        config matches Ok(config) ==> opt_texts(config.features) == merged_features(
            opt_texts(cli_options.features),
            opt_ref_texts(features),
        ),
        config matches Ok(config) ==> texts(config.cargo_args@) == texts(cli_options.args@),
        config matches Ok(config) ==> texts(config.frameworks@) == linked_frameworks(
            framework_references(project_config.frameworks),
        ),
        config matches Ok(config) ==> texts(config.vendor_frameworks@) == vendor_frameworks(
            framework_references(project_config.frameworks),
            env.config_dir@,
            app.project_dir@,
        ),
        config matches Ok(config) ==> opt_text(config.bundle_version) == opt_text(
            project_config.version,
        ),
        config matches Ok(config) ==> opt_text(config.bundle_version_short) == opt_text(
            project_config.version,
        ),
        config matches Ok(config) ==> config.ios_version@ == TARGET_IOS_VERSION@,
        config matches Ok(config) ==> config.project_path@ == app.project_dir@,
        config matches Ok(config) ==> config.app_name@ == app.name@,
        config matches Err(error) ==> error == ConfigError::UnresolvableFramework,
{
    let merged = merge_features(copy_opt_texts(&cli_options.features), features);
    let (team, warning) = development_team(
        copy_opt_text(&env.development_team),
        copy_opt_text(&project_config.development_team),
        &env.identities,
    );
    let references = match &project_config.frameworks {
        Some(list) => copy_texts(list),
        None => Vec::new(),
    };
    assert(texts(references@) =~= framework_references(project_config.frameworks));
    match classify_frameworks(&references, env.config_dir.as_str(), app.project_dir.as_str()) {
        Ok(lists) => Ok(
            ResolvedBuildConfig {
                development_team: team,
                warning,
                features: merged,
                cargo_args: copy_texts(&cli_options.args),
                frameworks: lists.frameworks,
                vendor_frameworks: lists.vendor_frameworks,
                bundle_version: copy_opt_text(&project_config.version),
                bundle_version_short: copy_opt_text(&project_config.version),
                ios_version: TARGET_IOS_VERSION.to_owned(),
                project_path: app.project_dir.clone(),
                app_name: app.name.clone(),
            },
        ),
        Err(error) => Err(error),
    }
}

/// With an override in the environment and a team in the project
/// configuration, the development team is the environment's: whatever
/// identities were found, and without a warning.
pub proof fn lemma_environment_override_wins(
    team_override: Seq<char>,
    configured: Seq<char>,
    ids: Seq<Seq<char>>,
)
    ensures
        development_team_of(Some(team_override), Some(configured), ids) == Some(team_override),
        team_warning_of(Some(team_override), Some(configured), ids) is None,
{
}

/// A team is resolved without looking at any later source once an earlier
/// one names it: the environment first, then the project configuration.
pub proof fn lemma_team_precedence(
    team_override: Option<Seq<char>>,
    configured: Option<Seq<char>>,
    ids: Seq<Seq<char>>,
    other_ids: Seq<Seq<char>>,
)
    ensures
        team_override is Some ==> development_team_of(team_override, configured, ids)
            == team_override,
        team_override is None && configured is Some ==> development_team_of(
            team_override,
            configured,
            ids,
        ) == configured,
        team_override is Some || configured is Some ==> development_team_of(
            team_override,
            configured,
            ids,
        ) == development_team_of(team_override, configured, other_ids),
        development_team_of(team_override, configured, ids) is None
            <==> team_warning_of(team_override, configured, ids) is Some,
{
}

} // verus!
