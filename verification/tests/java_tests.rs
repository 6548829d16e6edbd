use substrate_mc::error::SubstrateError;
use substrate_mc::java::{
    check_java_installed, java_archive_name, java_binary_path, java_dir_name, looks_like_jdk,
    rename_unpacked_java_folder, select_jdk_folder, DirEntryInfo, JavaConfig, JavaDownloadConfig,
};

fn config() -> JavaConfig {
    JavaConfig {
        linux: vec![
            JavaDownloadConfig { version: "17".to_string(), url: "u17".to_string() },
            JavaDownloadConfig { version: "21".to_string(), url: "first".to_string() },
            JavaDownloadConfig { version: "21".to_string(), url: "second".to_string() },
        ],
    }
}

fn dir(name: &str) -> DirEntryInfo {
    DirEntryInfo { name: Some(name.to_string()), is_dir: true }
}

#[test]
fn find_returns_first_match() {
    let c = config();
    assert_eq!(c.find("21").map(|j| j.url.as_str()), Some("first"));
    assert_eq!(c.find("17").map(|j| j.url.as_str()), Some("u17"));
    assert!(c.find("8").is_none());
    assert!(JavaConfig::default().find("21").is_none());
}

#[test]
fn runtime_names() {
    assert_eq!(java_dir_name("21"), "java-21");
    assert_eq!(java_archive_name("21"), "java-21.tar.gz");
    assert_eq!(java_binary_path("17"), "../../runtime/java-17/bin/java");
}

#[test]
fn installed_needs_config_and_folder() {
    let c = config();
    assert!(check_java_installed(&c, "21", true));
    assert!(!check_java_installed(&c, "21", false));
    assert!(!check_java_installed(&c, "8", true));
}

#[test]
fn jdk_folder_found_case_insensitively() {
    let entries = vec![
        DirEntryInfo { name: Some("jdk-file".to_string()), is_dir: false },
        dir("java-21"),
        DirEntryInfo { name: None, is_dir: true },
        dir("other"),
        dir("jdk-21.0.2+13"),
        dir("OpenJDK"),
    ];
    assert_eq!(select_jdk_folder(&entries, "java-21"), Some(4));
}

#[test]
fn target_named_folder_is_skipped() {
    let entries = vec![dir("jdk"), dir("jdk-b")];
    assert_eq!(select_jdk_folder(&entries, "jdk"), Some(1));
    assert_eq!(select_jdk_folder(&vec![dir("lib")], "java-21"), None);
}

#[test]
fn looks_like_jdk_needs_uppercase() {
    assert!(looks_like_jdk("XJDKY"));
    assert!(!looks_like_jdk("jdk"));
}

#[test]
fn rename_refused_when_target_exists() {
    let r = rename_unpacked_java_folder(true, &vec![dir("jdk")], "java-21");
    assert!(matches!(r, Err(SubstrateError::AlreadyExists { resource }) if resource == "Target path already exists"));
    let r = rename_unpacked_java_folder(false, &vec![dir("a"), dir("Jdk17")], "java-21");
    assert!(matches!(r, Ok(Some(1))));
}
