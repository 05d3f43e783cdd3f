use vs_toolbox::Entry;
use vs_toolbox::EntryList;
use vs_toolbox::FilterOptions;
use vs_toolbox::Toolbox;
use vs_toolbox::VscodeEntries;
use vs_toolbox::VscodeInstances;
use vs_toolbox::Workspace;

fn entry(uri: &str) -> Entry {
    Entry {
        folder_uri: Some(uri.to_string()),
        workspace: None,
        label: None,
        remote_authority: None,
    }
}

fn permissive() -> FilterOptions {
    FilterOptions {
        search_text: String::new(),
        show_vscode_insiders: true,
        show_vscode_exploration: true,
        show_vscodium: true,
        show_wsl: true,
        show_ssh: true,
        show_dev_container: true,
        show_folders: true,
        show_workspaces: true,
        show_remote_repositories: true,
        show_vscode: true,
        show_host: true,
    }
}

fn toolbox_with(entries: Vec<Entry>) -> Toolbox {
    let mut toolbox = Toolbox::default();
    toolbox.filter_options = permissive();
    toolbox.cached = vec![VscodeEntries {
        installation: VscodeInstances::Vscode,
        entry_list: EntryList { entries },
    }];
    toolbox
}

#[test]
fn pin_then_is_pinned() {
    let mut toolbox = Toolbox::default();
    let e = entry("file:///home/u/proj");
    assert!(!toolbox.is_pinned(&e));
    toolbox.pin(e.clone(), VscodeInstances::Vscode);
    assert!(toolbox.is_pinned(&e));
}

#[test]
fn unpin_then_not_pinned() {
    let mut toolbox = Toolbox::default();
    let e = entry("file:///home/u/proj");
    toolbox.pin(e.clone(), VscodeInstances::Vscode);
    toolbox.unpin(&e);
    assert!(!toolbox.is_pinned(&e));
    // unpinning an absent entry is a no-op
    toolbox.unpin(&e);
    assert!(!toolbox.is_pinned(&e));
    assert_eq!(toolbox.pinned.len(), 0);
}

#[test]
fn pinning_twice_keeps_one_copy() {
    let mut toolbox = Toolbox::default();
    let e = entry("file:///home/u/proj");
    toolbox.pin(e.clone(), VscodeInstances::Vscode);
    assert_eq!(toolbox.pinned.len(), 1);
    toolbox.pin(e.clone(), VscodeInstances::Vscodium);
    assert_eq!(toolbox.pinned.len(), 1);
}

#[test]
fn new_pins_go_to_the_front() {
    let mut toolbox = Toolbox::default();
    let first = entry("file:///home/u/first");
    let second = entry("file:///home/u/second");
    toolbox.pin(first.clone(), VscodeInstances::Vscode);
    toolbox.pin(second.clone(), VscodeInstances::Vscode);
    assert_eq!(toolbox.pinned.len(), 2);
    assert!(toolbox.pinned[0].0 == second);
    assert!(toolbox.pinned[1].0 == first);
}

#[test]
fn pin_equality_is_structural() {
    let mut toolbox = Toolbox::default();
    let e = entry("file:///home/u/proj");
    toolbox.pin(e.clone(), VscodeInstances::Vscode);
    // a freshly built, structurally equal entry counts as pinned
    let twin = entry("file:///home/u/proj");
    assert!(toolbox.is_pinned(&twin));
    let other = entry("file:///home/u/other");
    assert!(!toolbox.is_pinned(&other));
    // the workspace descriptor takes part in structural equality
    let mut with_ws = entry("file:///home/u/proj");
    with_ws.workspace = Some(Workspace::new("id1".to_string(), "/cfg".to_string()));
    assert!(!toolbox.is_pinned(&with_ws));
}

#[test]
fn feed_lists_visible_entries_in_order() {
    let toolbox = toolbox_with(vec![entry("file:///a"), entry("file:///b")]);
    let feed = toolbox.visible_entries();
    assert_eq!(feed.len(), 2);
    assert!(feed[0].0 == entry("file:///a"));
    assert_eq!(feed[0].1, VscodeInstances::Vscode);
    assert!(feed[1].0 == entry("file:///b"));
}

#[test]
fn feed_skips_entries_without_uri() {
    let no_uri = Entry { folder_uri: None, workspace: None, label: None, remote_authority: None };
    let toolbox = toolbox_with(vec![no_uri, entry("file:///a")]);
    let feed = toolbox.visible_entries();
    assert_eq!(feed.len(), 1);
    assert!(feed[0].0 == entry("file:///a"));
}

#[test]
fn feed_excludes_pinned_entries() {
    let mut toolbox = toolbox_with(vec![entry("file:///a"), entry("file:///b")]);
    toolbox.pin(entry("file:///a"), VscodeInstances::Vscode);
    let feed = toolbox.visible_entries();
    assert_eq!(feed.len(), 1);
    assert!(feed[0].0 == entry("file:///b"));
}

#[test]
fn pinned_entry_survives_disabled_toggle() {
    // scenario: pin an entry, then disable its installation's toggle;
    // the main feed drops it but the pinned section still holds it
    let mut toolbox = toolbox_with(vec![entry("file:///home/u/proj")]);
    toolbox.pin(entry("file:///home/u/proj"), VscodeInstances::Vscode);
    toolbox.filter_options.show_vscode = false;
    let feed = toolbox.visible_entries();
    assert_eq!(feed.len(), 0);
    assert!(toolbox.is_pinned(&entry("file:///home/u/proj")));
    assert_eq!(toolbox.pinned.len(), 1);
    assert!(toolbox.pinned[0].0 == entry("file:///home/u/proj"));
}

#[test]
fn ssh_entry_hidden_when_ssh_toggle_off() {
    // scenario: a remote entry disappears from the feed once its kind's
    // toggle is off, even with empty search text
    let mut ssh_entry = entry("file:///home/u/proj");
    ssh_entry.remote_authority = Some("ssh-remote+myhost".to_string());
    let mut toolbox = toolbox_with(vec![ssh_entry.clone()]);
    assert_eq!(toolbox.visible_entries().len(), 1);
    toolbox.filter_options.show_ssh = false;
    assert_eq!(toolbox.visible_entries().len(), 0);
}

#[test]
fn refresh_clears_the_cache() {
    let mut toolbox = toolbox_with(vec![entry("file:///a")]);
    toolbox.pin(entry("file:///b"), VscodeInstances::Vscode);
    toolbox.refresh();
    assert_eq!(toolbox.cached.len(), 0);
    assert_eq!(toolbox.pinned.len(), 1);
}

#[test]
fn default_toolbox_is_empty() {
    let toolbox = Toolbox::default();
    assert_eq!(toolbox.cached.len(), 0);
    assert_eq!(toolbox.pinned.len(), 0);
    assert!(toolbox.filter_options.show_vscode);
}

#[test]
fn discovery_keeps_enumeration_order() {
    let all = vs_toolbox::vscode::all_instances();
    assert_eq!(all.len(), 4);
    assert_eq!(all[0], VscodeInstances::Vscode);
    assert_eq!(all[3], VscodeInstances::Vscodium);
    let some = vs_toolbox::vscode::discover_installed(&[true, false, false, true]);
    assert_eq!(some.len(), 2);
    assert_eq!(some[0], VscodeInstances::Vscode);
    assert_eq!(some[1], VscodeInstances::Vscodium);
    let none = vs_toolbox::vscode::discover_installed(&[false, false, false, false]);
    assert_eq!(none.len(), 0);
}

#[test]
fn launch_command_line() {
    let cmd = vs_toolbox::vscode::launch_command(
        VscodeInstances::Vscodium,
        "file:///home/u/proj",
    );
    assert_eq!(cmd, "codium --folder-uri file:///home/u/proj");
}
