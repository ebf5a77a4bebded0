use launcher_core::manifest::{
    Argument, ArgumentType, AssetIndex, Library, UtcTime, VersionInfo, VersionType,
};
use launcher_core::modded::{
    merge_partial_version, PartialVersionInfo, Processor, SidedDataEntry, DUMMY_REPLACE_STRING,
};

fn time(seconds: i64) -> UtcTime {
    UtcTime { seconds, nanos: 0 }
}

fn library(name: &str, include_in_classpath: bool) -> Library {
    Library {
        downloads: None,
        extract: None,
        name: name.to_string(),
        url: None,
        natives: None,
        rules: None,
        checksums: None,
        include_in_classpath,
        downloadable: true,
    }
}

fn base_manifest(id: &str, libraries: Vec<Library>) -> VersionInfo {
    VersionInfo {
        arguments: None,
        asset_index: AssetIndex {
            id: id.to_string(),
            sha1: "da39a3ee5e6b4b0d3255bfef95601890afd80709".to_string(),
            size: 4,
            total_size: 64,
            url: "https://assets.example/index.json".to_string(),
        },
        assets: id.to_string(),
        downloads: Vec::new(),
        id: id.to_string(),
        java_version: None,
        libraries,
        logging: None,
        main_class: "net.minecraft.client.main.Main".to_string(),
        minecraft_arguments: None,
        minimum_launcher_version: 21,
        release_time: time(1_700_000_000),
        time: time(1_700_000_100),
        type_: VersionType::Release,
        data: None,
        processors: None,
    }
}

fn partial_manifest(id: &str, inherits_from: &str, libraries: Vec<Library>) -> PartialVersionInfo {
    PartialVersionInfo {
        id: id.to_string(),
        inherits_from: inherits_from.to_string(),
        release_time: time(1_700_100_000),
        time: time(1_700_100_100),
        main_class: None,
        minecraft_arguments: None,
        arguments: None,
        libraries,
        type_: VersionType::Release,
        data: None,
        processors: None,
    }
}

#[test]
fn superseded_base_library_is_dropped() {
    let base = base_manifest("1.20.1", vec![library("org.foo:bar:1.0", true)]);
    let partial = partial_manifest("loader-x", "1.20.1", vec![library("org.foo:bar:2.0", true)]);
    let merged = merge_partial_version(partial, base);
    assert_eq!(merged.libraries.len(), 1);
    assert_eq!(merged.libraries[0].name, "org.foo:bar:2.0");
}

#[test]
fn classpath_excluded_partial_does_not_supersede() {
    let base = base_manifest("1.20.1", vec![library("org.foo:bar:1.0", true)]);
    let partial = partial_manifest("loader-x", "1.20.1", vec![library("org.foo:bar:2.0", false)]);
    let merged = merge_partial_version(partial, base);
    // Both survive: base first, partial after.
    assert_eq!(merged.libraries.len(), 2);
    assert_eq!(merged.libraries[0].name, "org.foo:bar:1.0");
    assert_eq!(merged.libraries[1].name, "org.foo:bar:2.0");
}

#[test]
fn different_artifacts_both_survive_in_base_then_partial_order() {
    let base = base_manifest(
        "1.20.1",
        vec![library("org.foo:bar:1.0", true), library("com.acme:gadget:3.1", true)],
    );
    let partial = partial_manifest("loader-x", "1.20.1", vec![library("net.loader:core:0.5", true)]);
    let merged = merge_partial_version(partial, base);
    assert_eq!(merged.libraries.len(), 3);
    assert_eq!(merged.libraries[0].name, "org.foo:bar:1.0");
    assert_eq!(merged.libraries[1].name, "com.acme:gadget:3.1");
    assert_eq!(merged.libraries[2].name, "net.loader:core:0.5");
}

#[test]
fn library_without_coordinate_is_kept() {
    let base = base_manifest("1.20.1", vec![library("plain-name-no-colon", true)]);
    let partial = partial_manifest("loader-x", "1.20.1", vec![library("plain-name-no-colon", true)]);
    let merged = merge_partial_version(partial, base);
    assert_eq!(merged.libraries.len(), 2);
}

#[test]
fn argument_categories_merge_base_first() {
    let mut base = base_manifest("1.20.1", Vec::new());
    base.arguments = Some(vec![(
        ArgumentType::Game,
        vec![Argument::Normal("--a".to_string())],
    )]);
    let mut partial = partial_manifest("loader-x", "1.20.1", Vec::new());
    partial.arguments = Some(vec![(
        ArgumentType::Game,
        vec![Argument::Normal("--b".to_string())],
    )]);
    let merged = merge_partial_version(partial, base);
    let args = merged.arguments.unwrap();
    let game: Vec<&Vec<Argument>> = args
        .iter()
        .filter(|(k, _)| *k == ArgumentType::Game)
        .map(|(_, v)| v)
        .collect();
    assert_eq!(game.len(), 1);
    assert_eq!(
        game[0],
        &vec![Argument::Normal("--a".to_string()), Argument::Normal("--b".to_string())]
    );
}

#[test]
fn argument_sides_pass_through_when_one_is_missing() {
    let base_args = vec![(ArgumentType::Jvm, vec![Argument::Normal("-Xmx2G".to_string())])];
    let mut base = base_manifest("1.20.1", Vec::new());
    base.arguments = Some(base_args.clone());
    let partial = partial_manifest("loader-x", "1.20.1", Vec::new());
    let merged = merge_partial_version(partial, base);
    assert_eq!(merged.arguments, Some(base_args));

    let partial_args = vec![(ArgumentType::Jvm, vec![Argument::Normal("-Dloader".to_string())])];
    let base2 = base_manifest("1.20.1", Vec::new());
    let mut partial2 = partial_manifest("loader-x", "1.20.1", Vec::new());
    partial2.arguments = Some(partial_args.clone());
    let merged2 = merge_partial_version(partial2, base2);
    assert_eq!(merged2.arguments, Some(partial_args));
}

#[test]
fn placeholder_is_substituted_in_id_and_library_names() {
    let base = base_manifest("1.20.1", Vec::new());
    let mut partial = partial_manifest(
        &format!("fabric-loader-{}", DUMMY_REPLACE_STRING),
        "1.20.1",
        vec![library(
            &format!("net.fabricmc:intermediary:{}", DUMMY_REPLACE_STRING),
            true,
        )],
    );
    partial.main_class = Some("net.fabricmc.loader.launch.Knot".to_string());
    let merged = merge_partial_version(partial, base);
    assert_eq!(merged.id, "fabric-loader-1.20.1");
    assert_eq!(merged.libraries[0].name, "net.fabricmc:intermediary:1.20.1");
    assert_eq!(merged.main_class, "net.fabricmc.loader.launch.Knot");
}

#[test]
fn field_precedence_follows_the_partial() {
    let mut base = base_manifest("1.20.1", Vec::new());
    base.minecraft_arguments = Some("--legacy".to_string());
    let mut partial = partial_manifest("loader-x", "1.20.1", Vec::new());
    partial.type_ = VersionType::Snapshot;
    let merged = merge_partial_version(partial, base);
    // The partial's (absent) legacy arguments win over the base's.
    assert_eq!(merged.minecraft_arguments, None);
    assert_eq!(merged.type_, VersionType::Snapshot);
    assert_eq!(merged.release_time, time(1_700_100_000));
    assert_eq!(merged.time, time(1_700_100_100));
    // Base-only fields fall through.
    assert_eq!(merged.assets, "1.20.1");
    assert_eq!(merged.minimum_launcher_version, 21);
    assert_eq!(merged.main_class, "net.minecraft.client.main.Main");
}

#[test]
fn absent_arguments_stay_absent() {
    let base = base_manifest("1.20.1", Vec::new());
    let partial = partial_manifest("loader-x", "1.20.1", Vec::new());
    let merged = merge_partial_version(partial, base);
    assert_eq!(merged.arguments, None);
}

#[test]
fn loader_data_and_processors_come_from_the_partial() {
    let base = base_manifest("1.20.1", Vec::new());
    let mut partial = partial_manifest("forge-x", "1.20.1", Vec::new());
    partial.data = Some(vec![(
        "MAPPINGS".to_string(),
        SidedDataEntry {
            client: "client.txt".to_string(),
            server: "server.txt".to_string(),
        },
    )]);
    partial.processors = Some(vec![Processor {
        jar: "net.minecraftforge:installertools:1.3".to_string(),
        classpath: vec!["net.md-5:SpecialSource:1.11".to_string()],
        args: vec!["--task".to_string(), "MCP_DATA".to_string()],
        outputs: None,
        sides: Some(vec!["client".to_string()]),
    }]);
    let expected_data = partial.data.clone();
    let expected_processors = partial.processors.clone();
    let merged = merge_partial_version(partial, base);
    assert_eq!(merged.data, expected_data);
    assert_eq!(merged.processors, expected_processors);
}
