use launcher_core::archive::{parse_archive, should_yield, FILE_BATCH_SIZE};
use launcher_core::catalog::{build_catalog_url, parse_catalog_response, select_package, JavaPackage};
use launcher_core::download::DownloadTracker;
use launcher_core::errors::ProvisionError;
use launcher_core::install::{
    build_java_executable_path, configure_java_installation, get_default_java_dir, zulu_dir_name,
};
use launcher_core::jre::{check_jre, check_jre_impl, extract_java_version, test_jre};
use launcher_core::memory::{get_max_memory, get_max_memory_impl, DEFAULT_MEMORY_KB};
use launcher_core::platform::{get_system_arch, get_system_os, TargetArch, TargetOs};
use launcher_core::progress::{download_progress, extract_progress};
use launcher_core::state::State;
use std::io::Write;

#[test]
fn extract_major_version_legacy() {
    assert_eq!(extract_java_version("1.8.0_291").unwrap(), 8);
}

#[test]
fn extract_major_version_modern() {
    assert_eq!(extract_java_version("17.0.2").unwrap(), 17);
}

#[test]
fn extract_major_version_garbage_fails() {
    assert!(matches!(
        extract_java_version("garbage"),
        Err(ProvisionError::VersionUnparseable)
    ));
}

#[test]
fn extract_major_version_more_shapes() {
    assert_eq!(extract_java_version("21.0.1").unwrap(), 21);
    assert_eq!(extract_java_version("11.0.1").unwrap(), 11);
    assert_eq!(extract_java_version("1.8.0").unwrap(), 8);
    assert_eq!(extract_java_version("9").unwrap(), 9);
    assert_eq!(extract_java_version("18.some.junk").unwrap(), 18);
    assert!(matches!(
        extract_java_version(""),
        Err(ProvisionError::VersionUnparseable)
    ));
    assert!(matches!(
        extract_java_version("99999999999.1.2"),
        Err(ProvisionError::VersionUnparseable)
    ));
}

#[test]
fn platform_arch_defaults_to_x64() {
    assert_eq!(get_system_arch(TargetArch::Other), "x64");
    assert_eq!(get_system_arch(TargetArch::X86_64), "x64");
    assert_eq!(get_system_arch(TargetArch::Aarch64), "arm64");
}

#[test]
fn platform_os_names() {
    assert_eq!(get_system_os(TargetOs::Windows).unwrap(), "windows");
    assert_eq!(get_system_os(TargetOs::MacOs).unwrap(), "macos");
    assert_eq!(get_system_os(TargetOs::Linux).unwrap(), "linux");
    assert!(matches!(
        get_system_os(TargetOs::Other),
        Err(ProvisionError::PlatformUnsupported)
    ));
}

#[test]
fn catalog_url_is_exact() {
    let url = build_catalog_url(17, TargetArch::X86_64, TargetOs::Linux).unwrap();
    assert_eq!(
        url,
        "https://api.azul.com/metadata/v1/zulu/packages/?arch=x64&java_version=17&os=linux&archive_type=zip&javafx_bundled=false&java_package_type=jre&page_size=1"
    );
    assert!(matches!(
        build_catalog_url(17, TargetArch::X86_64, TargetOs::Other),
        Err(ProvisionError::PlatformUnsupported)
    ));
}

#[test]
fn catalog_response_round_trip() {
    let body = r#"[{"download_url":"https://cdn.example/zulu17.zip","name":"zulu17.0.2","java_version":[17,0,2],"latest":true}]"#;
    let packages = parse_catalog_response(body).unwrap();
    assert_eq!(packages.len(), 1);
    assert_eq!(packages[0].download_url, "https://cdn.example/zulu17.zip");
    assert_eq!(packages[0].name, "zulu17.0.2");
}

#[test]
fn catalog_response_errors() {
    assert!(matches!(
        parse_catalog_response("not json"),
        Err(ProvisionError::CatalogParseError)
    ));
    assert!(matches!(
        parse_catalog_response(r#"{"download_url":"x"}"#),
        Err(ProvisionError::CatalogParseError)
    ));
    assert!(matches!(
        parse_catalog_response(r#"[{"name":"only-a-name"}]"#),
        Err(ProvisionError::CatalogParseError)
    ));
    let empty = parse_catalog_response("[]").unwrap();
    assert!(empty.is_empty());
}

#[test]
fn select_package_takes_first_or_fails() {
    let none: Vec<JavaPackage> = Vec::new();
    assert!(matches!(
        select_package(&none),
        Err(ProvisionError::NoPackageFound)
    ));
    let two = vec![
        JavaPackage {
            download_url: "https://a".to_string(),
            name: "first".to_string(),
        },
        JavaPackage {
            download_url: "https://b".to_string(),
            name: "second".to_string(),
        },
    ];
    let picked = select_package(&two).unwrap();
    assert_eq!(picked.name, "first");
    assert_eq!(picked.download_url, "https://a");
}

#[test]
fn download_tracker_reports_stage_fractions() {
    let mut t = DownloadTracker::new(1000);
    let ev = t.on_chunk(100).unwrap();
    assert_eq!(ev.permille, 260);
    assert_eq!(ev.message, "Downloading... 100 / 1000 bytes");
    let ev = t.on_chunk(900).unwrap();
    assert_eq!(ev.permille, 800);
    let ev = t.on_chunk(100).unwrap();
    assert_eq!(ev.permille, 800);
}

#[test]
fn download_tracker_silent_without_total() {
    let mut t = DownloadTracker::new(0);
    assert!(t.on_chunk(4096).is_none());
}

#[test]
fn progress_formulas_are_exact() {
    assert_eq!(download_progress(0, 10), 200);
    assert_eq!(download_progress(5, 10), 500);
    assert_eq!(download_progress(10, 10), 800);
    assert_eq!(extract_progress(13, 13), 950);
    assert_eq!(extract_progress(1, 13), 830);
    assert_eq!(extract_progress(0, 0), 820);
}

#[test]
fn memory_probe_and_fallback() {
    assert!(get_max_memory_impl(0).is_none());
    assert_eq!(get_max_memory_impl(8 * 1024 * 1024 * 1024).unwrap(), 8 * 1024 * 1024);
    assert_eq!(DEFAULT_MEMORY_KB, 8 * 1024 * 1024);
    let kb = get_max_memory();
    assert!(kb >= 0);
}

#[test]
fn jre_probe_reads_stub_output() {
    let stderr = "openjdk version \"21.0.1\" 2023-10-17 LTS\nOpenJDK Runtime Environment";
    let jv = check_jre_impl("/opt/java/bin/java", true, stderr).unwrap();
    assert_eq!(jv.version, "21.0.1");
    assert_eq!(jv.major_version, 21);
    assert_eq!(jv.path, "/opt/java/bin/java");
}

#[test]
fn jre_probe_failures() {
    assert!(matches!(
        check_jre_impl("java", false, "anything"),
        Err(ProvisionError::ProcessExitError)
    ));
    assert!(matches!(
        check_jre_impl("java", true, "no version here"),
        Err(ProvisionError::VersionUnparseable)
    ));
    assert!(matches!(
        check_jre_impl("java", true, "version \"garbage\""),
        Err(ProvisionError::VersionUnparseable)
    ));
    assert!(check_jre("java", false, "x").is_none());
}

#[test]
fn jre_version_match_predicate() {
    let stderr = "openjdk version \"17.0.2\" 2022-01-18";
    assert!(test_jre("java", true, stderr, 17));
    assert!(!test_jre("java", true, stderr, 21));
    assert!(!test_jre("java", false, stderr, 17));
}

#[test]
fn error_descriptions() {
    assert_eq!(
        ProvisionError::CatalogError(404).describe(),
        "Package catalog returned HTTP status 404"
    );
    assert_eq!(ProvisionError::PlatformUnsupported.describe(), "Unsupported platform");
    assert_eq!(
        ProvisionError::FilesystemError("disk full".to_string()).describe(),
        "Filesystem error: disk full"
    );
    assert_eq!(
        ProvisionError::DownloadHttpError(503).describe(),
        "Download failed: HTTP status 503"
    );
}

#[test]
fn install_paths() {
    assert_eq!(get_default_java_dir("/data/app"), "/data/app/java");
    assert_eq!(zulu_dir_name(17), "zulu17");
    assert_eq!(
        build_java_executable_path("/j/zulu17", 17, TargetOs::MacOs),
        "/j/zulu17/zulu-17.jre/Contents/Home/bin/java"
    );
    assert_eq!(
        build_java_executable_path("/j/zulu17", 17, TargetOs::Windows),
        "/j/zulu17/bin/javaw.exe"
    );
    assert_eq!(
        build_java_executable_path("/j/zulu17", 17, TargetOs::Linux),
        "/j/zulu17/bin/java"
    );
}

#[test]
fn configure_is_idempotent_on_paths() {
    // First run: the extracted root exists, no canonical target yet.
    let first = configure_java_installation("/data/java", "zulu17.0.2-jre", 17, TargetOs::Linux, false, true);
    assert!(!first.remove_target);
    assert!(first.rename_original);
    assert_eq!(first.target_path, "/data/java/zulu17");
    assert_eq!(first.original_path, "/data/java/zulu17.0.2-jre");
    // Second run with the same inputs: the target now exists, the root is gone.
    let second = configure_java_installation("/data/java", "zulu17.0.2-jre", 17, TargetOs::Linux, true, false);
    assert!(second.remove_target);
    assert!(!second.rename_original);
    assert_eq!(second.executable_path, first.executable_path);
    assert_eq!(first.executable_path, "/data/java/zulu17/bin/java");
}

#[test]
fn yield_cadence() {
    assert_eq!(FILE_BATCH_SIZE, 10);
    assert!(should_yield(9));
    assert!(!should_yield(8));
    assert!(should_yield(19));
    assert!(!should_yield(0));
}

#[test]
fn archive_round_trip() {
    let mut w = zip::ZipWriter::new(std::io::Cursor::new(Vec::new()));
    let opts = zip::write::SimpleFileOptions::default();
    w.add_directory("zulu21.0.1-jre/", opts).unwrap();
    w.add_directory("zulu21.0.1-jre/bin/", opts).unwrap();
    w.start_file("zulu21.0.1-jre/bin/java", opts).unwrap();
    w.write_all(b"#!ELF java binary bytes").unwrap();
    w.start_file("zulu21.0.1-jre/release", opts).unwrap();
    w.write_all(b"JAVA_VERSION=\"21.0.1\"\n").unwrap();
    w.start_file("zulu21.0.1-jre/lib/modules", opts).unwrap();
    w.write_all(&[0u8, 1, 2, 3, 255]).unwrap();
    let bytes = w.finish().unwrap().into_inner();

    let (entries, root) = parse_archive(bytes).unwrap();
    assert_eq!(root, "zulu21.0.1-jre");
    assert_eq!(entries.len(), 5);
    assert!(entries[0].is_dir);
    assert_eq!(entries[0].name, "zulu21.0.1-jre/");
    let java = entries.iter().find(|e| e.name == "zulu21.0.1-jre/bin/java").unwrap();
    assert!(!java.is_dir);
    assert_eq!(java.data, b"#!ELF java binary bytes");
    let release = entries.iter().find(|e| e.name == "zulu21.0.1-jre/release").unwrap();
    assert_eq!(release.data, b"JAVA_VERSION=\"21.0.1\"\n");
    let modules = entries.iter().find(|e| e.name == "zulu21.0.1-jre/lib/modules").unwrap();
    assert_eq!(modules.data, vec![0u8, 1, 2, 3, 255]);
}

#[test]
fn archive_corrupt_bytes_fail() {
    assert!(matches!(
        parse_archive(vec![1, 2, 3, 4]),
        Err(ProvisionError::ArchiveCorrupt)
    ));
}

#[test]
fn archive_without_directories_has_unknown_root() {
    let mut w = zip::ZipWriter::new(std::io::Cursor::new(Vec::new()));
    let opts = zip::write::SimpleFileOptions::default();
    w.start_file("flat.txt", opts).unwrap();
    w.write_all(b"flat").unwrap();
    let bytes = w.finish().unwrap().into_inner();
    let (_, root) = parse_archive(bytes).unwrap();
    assert_eq!(root, "unknown");
}

#[test]
fn state_constructs() {
    let _ = State::init();
}

#[test]
fn empty_archive_parses_with_unknown_root() {
    let w = zip::ZipWriter::new(std::io::Cursor::new(Vec::new()));
    let bytes = w.finish().unwrap().into_inner();
    let (entries, root) = parse_archive(bytes).unwrap();
    assert!(entries.is_empty());
    assert_eq!(root, "unknown");
}
