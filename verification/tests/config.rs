use mobile_ios::config::{
    classify_framework, classify_frameworks, development_team, framework_kind, get_config,
    merge_features, needs_identities, vendor_path, warning_message, App, CliOptions, ConfigError,
    Environment, FrameworkKind, FrameworkLists, ResolvedBuildConfig, SigningIdentity, ProjectConfig,
    TeamWarning, APPLE_DEVELOPMENT_TEAM_ENV_VAR_NAME, APP_NAME_ENV_VAR_NAME,
    PROJECT_PATH_ENV_VAR_NAME, TARGET_IOS_VERSION,
};

const CONFIG_DIR: &str = "/work/app/src-tauri";
const PROJECT_DIR: &str = "/work/app/src-tauri/gen/apple";

fn identity(name: &str, id: &str) -> SigningIdentity {
    SigningIdentity { name: name.to_string(), id: id.to_string() }
}

fn strings(items: &[&str]) -> Vec<String> {
    items.iter().map(|item| item.to_string()).collect()
}

fn app() -> App {
    App { name: "demo".to_string(), project_dir: PROJECT_DIR.to_string() }
}

fn environment(team: Option<&str>, identities: Vec<SigningIdentity>) -> Environment {
    Environment {
        development_team: team.map(|team| team.to_string()),
        identities,
        config_dir: CONFIG_DIR.to_string(),
    }
}

#[test]
fn names_of_the_environment_variables() {
    assert_eq!(APPLE_DEVELOPMENT_TEAM_ENV_VAR_NAME, "APPLE_DEVELOPMENT_TEAM");
    assert_eq!(PROJECT_PATH_ENV_VAR_NAME, "TAURI_IOS_PROJECT_PATH");
    assert_eq!(APP_NAME_ENV_VAR_NAME, "TAURI_IOS_APP_NAME");
    assert_eq!(TARGET_IOS_VERSION, "13.0");
}

#[test]
fn environment_override_wins_over_the_project() {
    let identities = vec![identity("Anna", "IDENTITY01")];
    let resolved =
        development_team(Some("ENVTEAM".to_string()), Some("CONFTEAM".to_string()), &identities);
    assert_eq!(resolved, (Some("ENVTEAM".to_string()), None));
}

#[test]
fn project_team_wins_over_the_identities() {
    let identities = vec![identity("Anna", "IDENTITY01")];
    let resolved = development_team(None, Some("CONFTEAM".to_string()), &identities);
    assert_eq!(resolved, (Some("CONFTEAM".to_string()), None));
}

#[test]
fn single_identity_is_selected() {
    let identities = vec![identity("Anna", "IDENTITY01")];
    assert_eq!(development_team(None, None, &identities), (Some("IDENTITY01".to_string()), None));
}

#[test]
fn no_identity_leaves_the_team_unset() {
    assert_eq!(development_team(None, None, &vec![]), (None, Some(TeamWarning::NoIdentities)));
}

#[test]
fn several_identities_leave_the_team_unset() {
    let identities = vec![identity("Anna", "IDENTITY01"), identity("Ben", "IDENTITY02")];
    assert_eq!(
        development_team(None, None, &identities),
        (None, Some(TeamWarning::AmbiguousIdentities))
    );
}

#[test]
fn empty_override_is_still_an_override() {
    assert_eq!(
        development_team(Some(String::new()), Some("CONFTEAM".to_string()), &vec![]),
        (Some(String::new()), None)
    );
}

#[test]
fn identities_are_needed_only_without_a_team() {
    assert!(needs_identities(&None, &None));
    assert!(!needs_identities(&Some("ENVTEAM".to_string()), &None));
    assert!(!needs_identities(&None, &Some("CONFTEAM".to_string())));
    assert!(!needs_identities(&Some("ENVTEAM".to_string()), &Some("CONFTEAM".to_string())));
}

#[test]
fn warning_without_identities_says_to_add_one() {
    assert_eq!(
        warning_message(TeamWarning::NoIdentities, &vec![]),
        "No code signing certificates found. You must add one and set the certificate development team ID on the `bundle > iOS > developmentTeam` config value or the `APPLE_DEVELOPMENT_TEAM` environment variable. To list the available certificates, run `tauri info`."
    );
}

#[test]
fn warning_with_several_identities_lists_them() {
    let identities = vec![identity("Anna", "IDENTITY01"), identity("Ben", "IDENTITY02")];
    assert_eq!(
        warning_message(TeamWarning::AmbiguousIdentities, &identities),
        "You must set the code signing certificate development team ID on  the `bundle > iOS > developmentTeam` config value or the `APPLE_DEVELOPMENT_TEAM` environment variable. Available certificates: Anna (ID: IDENTITY01), Ben (ID: IDENTITY02)"
    );
}

#[test]
fn warning_lists_three_identities_with_two_separators() {
    let identities =
        vec![identity("A", "1"), identity("B", "2"), identity("C", "3")];
    let message = warning_message(TeamWarning::AmbiguousIdentities, &identities);
    assert!(message.ends_with("Available certificates: A (ID: 1), B (ID: 2), C (ID: 3)"));
}

#[test]
fn features_are_appended_and_duplicates_kept() {
    let extra = strings(&["x", "y"]);
    assert_eq!(
        merge_features(Some(strings(&["x"])), Some(&extra)),
        Some(strings(&["x", "x", "y"]))
    );
}

#[test]
fn features_start_a_list_where_there_was_none() {
    let extra = strings(&["a"]);
    assert_eq!(merge_features(None, Some(&extra)), Some(strings(&["a"])));
    assert_eq!(merge_features(None, Some(&vec![])), Some(vec![]));
}

#[test]
fn no_features_leave_the_list_as_it_was() {
    assert_eq!(merge_features(Some(strings(&["x"])), None), Some(strings(&["x"])));
    assert_eq!(merge_features(None, None), None);
}

#[test]
fn kind_by_extension() {
    assert_eq!(framework_kind(&None), FrameworkKind::System);
    assert_eq!(framework_kind(&Some(String::new())), FrameworkKind::System);
    assert_eq!(framework_kind(&Some("framework".to_string())), FrameworkKind::Bundle);
    assert_eq!(framework_kind(&Some("a".to_string())), FrameworkKind::Vendor);
    assert_eq!(framework_kind(&Some("Framework".to_string())), FrameworkKind::Vendor);
    assert_eq!(framework_kind(&Some("xcframework".to_string())), FrameworkKind::Vendor);
}

#[test]
fn reference_without_extension_is_a_system_framework() {
    assert_eq!(classify_framework("Foo"), FrameworkKind::System);
    assert_eq!(classify_framework("Foo."), FrameworkKind::System);
    assert_eq!(classify_framework(".hidden"), FrameworkKind::System);
    assert_eq!(classify_framework(""), FrameworkKind::System);
}

#[test]
fn reference_with_framework_extension_is_a_bundle() {
    assert_eq!(classify_framework("Foo.framework"), FrameworkKind::Bundle);
    assert_eq!(classify_framework("vendor/Foo.framework"), FrameworkKind::Bundle);
}

#[test]
fn reference_with_another_extension_is_a_vendor_framework() {
    assert_eq!(classify_framework("libs/foo.a"), FrameworkKind::Vendor);
    assert_eq!(classify_framework("Foo.xcframework"), FrameworkKind::Vendor);
}

#[test]
fn system_framework_is_linked_by_its_name() {
    let lists = classify_frameworks(&strings(&["Foo"]), CONFIG_DIR, PROJECT_DIR);
    assert_eq!(
        lists,
        Ok(FrameworkLists { frameworks: strings(&["Foo"]), vendor_frameworks: vec![] })
    );
}

#[test]
fn framework_bundle_is_linked_by_its_stem() {
    let lists = classify_frameworks(&strings(&["Foo.framework"]), CONFIG_DIR, PROJECT_DIR);
    assert_eq!(
        lists,
        Ok(FrameworkLists { frameworks: strings(&["Foo"]), vendor_frameworks: vec![] })
    );
    let lists = classify_frameworks(&strings(&["some/dir/Bar.framework"]), CONFIG_DIR, PROJECT_DIR);
    assert_eq!(
        lists,
        Ok(FrameworkLists { frameworks: strings(&["Bar"]), vendor_frameworks: vec![] })
    );
}

#[test]
fn vendor_framework_is_embedded_relative_to_the_project() {
    let lists = classify_frameworks(&strings(&["libs/foo.a"]), CONFIG_DIR, PROJECT_DIR);
    assert_eq!(
        lists,
        Ok(FrameworkLists {
            frameworks: vec![],
            vendor_frameworks: strings(&["../../libs/foo.a"]),
        })
    );
}

#[test]
fn frameworks_keep_their_order_in_each_list() {
    let references =
        strings(&["libs/one.a", "UIKit", "Two.framework", "libs/three.dylib", "WebKit"]);
    let lists = classify_frameworks(&references, CONFIG_DIR, PROJECT_DIR);
    assert_eq!(
        lists,
        Ok(FrameworkLists {
            frameworks: strings(&["UIKit", "Two", "WebKit"]),
            vendor_frameworks: strings(&["../../libs/one.a", "../../libs/three.dylib"]),
        })
    );
}

#[test]
fn no_frameworks_give_empty_lists() {
    assert_eq!(
        classify_frameworks(&vec![], CONFIG_DIR, PROJECT_DIR),
        Ok(FrameworkLists { frameworks: vec![], vendor_frameworks: vec![] })
    );
}

#[test]
fn vendor_path_joins_and_relativizes() {
    assert_eq!(
        vendor_path("libs/foo.a", CONFIG_DIR, PROJECT_DIR),
        Some("../../libs/foo.a".to_string())
    );
    assert_eq!(vendor_path("/opt/sdk/foo.a", CONFIG_DIR, "/opt/app"), Some("../sdk/foo.a".to_string()));
}

#[test]
fn vendor_path_needs_absolute_directories() {
    assert_eq!(vendor_path("libs/foo.a", "src-tauri", PROJECT_DIR), None);
    assert_eq!(vendor_path("libs/foo.a", CONFIG_DIR, "gen/apple"), None);
    assert_eq!(vendor_path("libs/foo.a", "", ""), None);
}

#[test]
fn vendor_framework_without_a_path_fails_the_classification() {
    let references = strings(&["UIKit", "libs/foo.a"]);
    assert_eq!(
        classify_frameworks(&references, "src-tauri", PROJECT_DIR),
        Err(ConfigError::UnresolvableFramework)
    );
    assert_eq!(
        classify_frameworks(&references, CONFIG_DIR, "gen/apple"),
        Err(ConfigError::UnresolvableFramework)
    );
}

#[test]
fn linked_frameworks_need_no_absolute_directories() {
    let references = strings(&["UIKit", "Foo.framework"]);
    assert_eq!(
        classify_frameworks(&references, "src-tauri", "gen/apple"),
        Ok(FrameworkLists { frameworks: strings(&["UIKit", "Foo"]), vendor_frameworks: vec![] })
    );
}

#[test]
fn configuration_is_synthesized_from_all_sources() {
    let project_config = ProjectConfig {
        version: Some("1.2.3".to_string()),
        development_team: Some("CONFTEAM".to_string()),
        frameworks: Some(strings(&["UIKit", "Foo.framework", "libs/foo.a"])),
    };
    let cli_options =
        CliOptions { features: Some(strings(&["base"])), args: strings(&["--locked"]) };
    let features = strings(&["extra", "base"]);
    let env = environment(Some("ENVTEAM"), vec![identity("Anna", "IDENTITY01")]);
    let config = get_config(&app(), &project_config, Some(&features), &cli_options, &env);
    assert_eq!(
        config,
        Ok(ResolvedBuildConfig {
            development_team: Some("ENVTEAM".to_string()),
            warning: None,
            features: Some(strings(&["base", "extra", "base"])),
            cargo_args: strings(&["--locked"]),
            frameworks: strings(&["UIKit", "Foo"]),
            vendor_frameworks: strings(&["../../libs/foo.a"]),
            bundle_version: Some("1.2.3".to_string()),
            bundle_version_short: Some("1.2.3".to_string()),
            ios_version: "13.0".to_string(),
            project_path: PROJECT_DIR.to_string(),
            app_name: "demo".to_string(),
        })
    );
}

#[test]
fn configuration_with_nothing_set() {
    let project_config = ProjectConfig { version: None, development_team: None, frameworks: None };
    let cli_options = CliOptions { features: None, args: vec![] };
    let env = environment(None, vec![]);
    let config = get_config(&app(), &project_config, None, &cli_options, &env);
    assert_eq!(
        config,
        Ok(ResolvedBuildConfig {
            development_team: None,
            warning: Some(TeamWarning::NoIdentities),
            features: None,
            cargo_args: vec![],
            frameworks: vec![],
            vendor_frameworks: vec![],
            bundle_version: None,
            bundle_version_short: None,
            ios_version: "13.0".to_string(),
            project_path: PROJECT_DIR.to_string(),
            app_name: "demo".to_string(),
        })
    );
}

#[test]
fn configuration_takes_the_team_of_the_only_identity() {
    let project_config = ProjectConfig { version: None, development_team: None, frameworks: None };
    let cli_options = CliOptions { features: None, args: vec![] };
    let env = environment(None, vec![identity("Anna", "IDENTITY01")]);
    let config = get_config(&app(), &project_config, None, &cli_options, &env).unwrap();
    assert_eq!(config.development_team, Some("IDENTITY01".to_string()));
    assert_eq!(config.warning, None);
}

#[test]
fn configuration_warns_of_several_identities() {
    let project_config = ProjectConfig { version: None, development_team: None, frameworks: None };
    let cli_options = CliOptions { features: None, args: vec![] };
    let env = environment(None, vec![identity("Anna", "IDENTITY01"), identity("Ben", "IDENTITY02")]);
    let config = get_config(&app(), &project_config, None, &cli_options, &env).unwrap();
    assert_eq!(config.development_team, None);
    assert_eq!(config.warning, Some(TeamWarning::AmbiguousIdentities));
}

#[test]
fn configuration_fails_on_an_unresolvable_vendor_framework() {
    let project_config = ProjectConfig {
        version: None,
        development_team: None,
        frameworks: Some(strings(&["libs/foo.a"])),
    };
    let cli_options = CliOptions { features: None, args: vec![] };
    let mut env = environment(None, vec![]);
    env.config_dir = "relative/dir".to_string();
    assert_eq!(
        get_config(&app(), &project_config, None, &cli_options, &env),
        Err(ConfigError::UnresolvableFramework)
    );
}
