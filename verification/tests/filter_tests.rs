use vs_toolbox::filter::classify;
use vs_toolbox::filter::is_visible;
use vs_toolbox::FilterOptions;
use vs_toolbox::Remote;
use vs_toolbox::Entry;
use vs_toolbox::VscodeInstances;

fn entry_with(folder_uri: Option<&str>, remote_authority: Option<&str>) -> Entry {
    Entry {
        folder_uri: folder_uri.map(|s| s.to_string()),
        workspace: None,
        label: None,
        remote_authority: remote_authority.map(|s| s.to_string()),
    }
}

fn permissive() -> FilterOptions {
    FilterOptions {
        search_text: String::new(),
        show_vscode_insiders: true,
        show_vscode_exploration: true,
        show_vscodium: true,
        show_wsl: true,
        show_ssh: true,
        show_dev_container: true,
        show_folders: true,
        show_workspaces: true,
        show_remote_repositories: true,
        show_vscode: true,
        show_host: true,
    }
}

#[test]
fn classify_host_without_authority() {
    assert!(classify(None, "file:///home/u/proj") == Remote::Host);
}

#[test]
fn classify_remote_repository_uri() {
    assert!(classify(None, "vscode-vfs://github/owner/repo") == Remote::RemoteRepository);
}

#[test]
fn classify_authority_prefixes() {
    assert!(classify(Some("wsl+Ubuntu"), "file:///x") == Remote::Wsl);
    assert!(classify(Some("dev-container+abc"), "file:///x") == Remote::DevContainer);
    assert!(classify(Some("ssh-remote+myhost"), "file:///x") == Remote::Ssh);
    assert!(classify(Some("attached-container+1"), "file:///x") == Remote::Unknown);
}

#[test]
fn classify_is_deterministic() {
    let a = classify(Some("ssh-remote+myhost"), "file:///home/u/proj");
    let b = classify(Some("ssh-remote+myhost"), "file:///home/u/proj");
    assert!(a == b);
}

#[test]
fn get_remote_authority_first_prefix_wins() {
    assert!(Remote::get_remote_authority("wsl+Ubuntu") == Some(Remote::Wsl));
    assert!(Remote::get_remote_authority("sshx") == Some(Remote::Ssh));
    assert!(Remote::get_remote_authority("k8s-container") == None);
}

#[test]
fn get_proto_labels() {
    assert_eq!(Remote::Host.get_proto(), "host");
    assert_eq!(Remote::Wsl.get_proto(), "wsl");
    assert_eq!(Remote::DevContainer.get_proto(), "dev-container");
    assert_eq!(Remote::Ssh.get_proto(), "ssh");
    assert_eq!(Remote::RemoteRepository.get_proto(), "vscode-vfs");
    assert_eq!(Remote::Unknown.get_proto(), "unknown");
}

#[test]
fn is_filtered_by_backend_toggle() {
    let mut options = permissive();
    assert!(Remote::is_filtered("ssh-remote+myhost", &options));
    options.show_ssh = false;
    assert!(!Remote::is_filtered("ssh-remote+myhost", &options));
    // an unknown authority has no toggle and always passes
    assert!(Remote::is_filtered("attached-container+1", &options));
}

#[test]
fn permissive_options_show_every_entry_with_uri() {
    let options = permissive();
    let with_uri = entry_with(Some("file:///home/u/proj"), None);
    let without_uri = entry_with(None, None);
    assert!(is_visible(&with_uri, VscodeInstances::Vscode, &options));
    assert!(!is_visible(&without_uri, VscodeInstances::Vscode, &options));
}

#[test]
fn search_is_case_insensitive_both_ways() {
    let mut options = permissive();
    let entry = entry_with(Some("file:///home/User/MyProj"), None);
    options.search_text = "myproj".to_string();
    assert!(is_visible(&entry, VscodeInstances::Vscode, &options));
    options.search_text = "MYPROJ".to_string();
    assert!(is_visible(&entry, VscodeInstances::Vscode, &options));
    options.search_text = "other".to_string();
    assert!(!is_visible(&entry, VscodeInstances::Vscode, &options));
}

#[test]
fn search_matches_path_component_not_scheme() {
    let mut options = permissive();
    let entry = entry_with(Some("file:///home/u/proj"), None);
    // "file" is only in the scheme; the path component is /home/u/proj
    options.search_text = "file".to_string();
    assert!(!is_visible(&entry, VscodeInstances::Vscode, &options));
    options.search_text = "/home/u".to_string();
    assert!(is_visible(&entry, VscodeInstances::Vscode, &options));
}

#[test]
fn installation_toggle_hides_entries() {
    let mut options = permissive();
    let entry = entry_with(Some("file:///home/u/proj"), None);
    options.show_vscodium = false;
    assert!(!is_visible(&entry, VscodeInstances::Vscodium, &options));
    assert!(is_visible(&entry, VscodeInstances::Vscode, &options));
}

#[test]
fn kind_toggle_hides_entries() {
    let mut options = permissive();
    let ssh_entry = entry_with(Some("file:///home/u/proj"), Some("ssh-remote+myhost"));
    assert!(is_visible(&ssh_entry, VscodeInstances::Vscode, &options));
    options.show_ssh = false;
    assert!(!is_visible(&ssh_entry, VscodeInstances::Vscode, &options));
    // an unknown kind has no toggle and stays visible
    let odd_entry = entry_with(Some("file:///home/u/proj"), Some("attached-container+1"));
    assert!(is_visible(&odd_entry, VscodeInstances::Vscode, &options));
}

#[test]
fn host_toggle_hides_local_entries() {
    let mut options = permissive();
    let entry = entry_with(Some("file:///home/u/proj"), None);
    options.show_host = false;
    assert!(!is_visible(&entry, VscodeInstances::Vscode, &options));
}

#[test]
fn default_options() {
    let options = FilterOptions::default();
    assert_eq!(options.search_text, "");
    assert!(options.show_vscode);
    assert!(!options.show_vscode_insiders);
    assert!(!options.show_vscode_exploration);
    assert!(!options.show_vscodium);
    assert!(options.show_wsl);
    assert!(options.show_ssh);
    assert!(options.show_dev_container);
    assert!(options.show_folders);
    assert!(options.show_workspaces);
    assert!(options.show_remote_repositories);
    assert!(!options.show_host);
}

#[test]
fn instance_names() {
    assert_eq!(VscodeInstances::Vscode.get_base_path_dir(), "Code");
    assert_eq!(VscodeInstances::VscodeInsiders.get_base_path_dir(), "Code - Insiders");
    assert_eq!(VscodeInstances::VscodeExploration.get_base_path_dir(), "Code - Exploration");
    assert_eq!(VscodeInstances::Vscodium.get_base_path_dir(), "VSCodium");
    assert_eq!(VscodeInstances::Vscode.get_executable(), "code");
    assert_eq!(VscodeInstances::VscodeInsiders.get_executable(), "code-insiders");
    assert_eq!(VscodeInstances::VscodeExploration.get_executable(), "code-exploration");
    assert_eq!(VscodeInstances::Vscodium.get_executable(), "codium");
}

#[test]
fn last_segment_is_the_primary_label() {
    assert_eq!(vs_toolbox::text::last_segment("/home/u/proj").as_deref(), Some("proj"));
    assert_eq!(vs_toolbox::text::last_segment("proj").as_deref(), Some("proj"));
    assert_eq!(vs_toolbox::text::last_segment("/home/u/"), None);
    assert_eq!(vs_toolbox::text::last_segment(""), None);
}

#[test]
fn substring_test_is_exact() {
    assert!(vs_toolbox::text::contains_sub("/home/u/proj", "u/pro"));
    assert!(vs_toolbox::text::contains_sub("/home/u/proj", ""));
    assert!(!vs_toolbox::text::contains_sub("", "x"));
    assert!(!vs_toolbox::text::contains_sub("/home/u/proj", "proj/"));
    assert!(vs_toolbox::text::str_has_prefix("vscode-vfs://x", "vscode-vfs"));
    assert!(!vs_toolbox::text::str_has_prefix("vs", "vscode-vfs"));
}
