use devenv::config::{make_path, Config, ConfigError};
use devenv::detect::{detect_base_image, has_extension, has_gradle_files, name_has_extension, DirEntry};

fn file(name: &str) -> DirEntry {
    DirEntry { name: name.to_string(), depth: 1, is_file: true }
}

#[test]
fn detects_rust() {
    let td = vec![file("Cargo.toml")];
    let img = detect_base_image(&td);
    assert_eq!(img.as_deref(), Some("rust:trixie"));
}

#[test]
fn detects_node() {
    let td = vec![file("package.json")];
    assert_eq!(detect_base_image(&td).as_deref(), Some("node:current-bookworm"));
}

#[test]
fn detects_python() {
    let td = vec![file("requirements.txt")];
    assert_eq!(detect_base_image(&td).as_deref(), Some("python:bookworm"));
}

#[test]
fn detects_java_gradle() {
    let td = vec![file("build.gradle")];
    assert_eq!(detect_base_image(&td).as_deref(), Some("eclipse-temurin:latest"));
}

#[test]
fn detects_dotnet_csproj() {
    let td = vec![
        DirEntry { name: "src".to_string(), depth: 1, is_file: false },
        DirEntry { name: "app.csproj".to_string(), depth: 2, is_file: true },
    ];
    assert_eq!(detect_base_image(&td).as_deref(), Some("mcr.microsoft.com/dotnet/sdk:8.0"));
}

#[test]
fn returns_none_when_unknown() {
    let td: Vec<DirEntry> = Vec::new();
    assert_eq!(detect_base_image(&td), None);
}

#[test]
fn detects_the_other_kinds() {
    assert_eq!(detect_base_image(&vec![file("pyproject.toml")]).as_deref(), Some("python:bookworm"));
    assert_eq!(detect_base_image(&vec![file("go.mod")]).as_deref(), Some("golang:bookworm"));
    assert_eq!(detect_base_image(&vec![file("Gemfile")]).as_deref(), Some("ruby:bookworm"));
    assert_eq!(detect_base_image(&vec![file("pom.xml")]).as_deref(), Some("eclipse-temurin:latest"));
    assert_eq!(detect_base_image(&vec![file("build.gradle.kts")]).as_deref(), Some("eclipse-temurin:latest"));
    assert_eq!(detect_base_image(&vec![file("composer.json")]).as_deref(), Some("php:bookworm"));
    assert_eq!(detect_base_image(&vec![file("mix.exs")]).as_deref(), Some("elixir:slim"));
}

#[test]
fn the_first_marker_decides() {
    let td = vec![file("mix.exs"), file("package.json"), file("Cargo.toml")];
    assert_eq!(detect_base_image(&td).as_deref(), Some("rust:trixie"));
    let td = vec![file("app.csproj"), file("Gemfile")];
    assert_eq!(detect_base_image(&td).as_deref(), Some("ruby:bookworm"));
}

#[test]
fn markers_below_the_root_do_not_count() {
    let td = vec![DirEntry { name: "Cargo.toml".to_string(), depth: 2, is_file: true }];
    assert_eq!(detect_base_image(&td), None);
    assert!(!has_gradle_files(&vec![DirEntry { name: "build.gradle".to_string(), depth: 2, is_file: true }]));
}

#[test]
fn extension_is_sought_to_depth_two_in_files() {
    assert!(has_extension(&vec![DirEntry { name: "a.csproj".to_string(), depth: 2, is_file: true }], "csproj"));
    assert!(!has_extension(&vec![DirEntry { name: "a.csproj".to_string(), depth: 3, is_file: true }], "csproj"));
    assert!(!has_extension(&vec![DirEntry { name: "a.csproj".to_string(), depth: 1, is_file: false }], "csproj"));
    assert!(name_has_extension("app.csproj", "csproj"));
    assert!(name_has_extension("a.b.csproj", "csproj"));
    assert!(!name_has_extension(".csproj", "csproj"));
    assert!(!name_has_extension("csproj", "csproj"));
    assert!(!name_has_extension("appcsproj", "csproj"));
    assert!(!name_has_extension("app.csproj.bak", "csproj"));
}

#[test]
fn exists_and_open_work_with_dir_and_file_paths() {
    // The path of the configuration is the same for the directory and for the file itself.
    assert_eq!(make_path("/tmp/td"), "/tmp/td/devenv.toml");
    assert_eq!(make_path("/tmp/td/devenv.toml"), "/tmp/td/devenv.toml");
    assert_eq!(make_path("/tmp/td/"), "/tmp/td/devenv.toml");
    assert_eq!(make_path(""), "devenv.toml");
    assert_eq!(make_path("devenv.toml"), "devenv.toml");
    assert_eq!(make_path("/tmp/td/other.toml"), "/tmp/td/other.toml/devenv.toml");
}

#[test]
fn create_sets_defaults_and_detects_image() {
    // No recognizable files -> default image
    let cfg = Config::create("/tmp/td/myproj", true, false, &Vec::new()).ok().unwrap();
    assert_eq!(cfg.devenv.name, "myproj");
    assert_eq!(cfg.devenv.image, "debian:bookworm-slim");
    assert!(cfg.devenv.packages.is_empty());
    assert!(cfg.devenv.commands.is_empty());
    assert!(!cfg.devenv.provision_as_non_root);
    assert_eq!(cfg.path, "/tmp/td/myproj/devenv.toml");

    // Recognizable language file -> detected image
    let cfg2 = Config::create("/tmp/td/rustproj", true, false, &vec![file("Cargo.toml")]).ok().unwrap();
    assert_eq!(cfg2.devenv.name, "rustproj");
    assert_eq!(cfg2.devenv.image, "rust:trixie");
    assert_eq!(cfg2.path, "/tmp/td/rustproj/devenv.toml");
}

#[test]
fn create_refuses_what_is_no_fresh_directory() {
    assert_eq!(Config::create("/tmp/x", false, false, &Vec::new()).err(), Some(ConfigError::NotADirectory));
    assert_eq!(Config::create("/tmp/x", false, true, &Vec::new()).err(), Some(ConfigError::NotADirectory));
    assert_eq!(Config::create("/tmp/x", true, true, &Vec::new()).err(), Some(ConfigError::AlreadyExists));
}

#[test]
fn create_names_a_directory_without_name() {
    let cfg = Config::create("/", true, false, &Vec::new()).ok().unwrap();
    assert_eq!(cfg.devenv.name, "new_project");
    let cfg = Config::create("..", true, false, &Vec::new()).ok().unwrap();
    assert_eq!(cfg.devenv.name, "new_project");
}
