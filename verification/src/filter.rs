//! The remote-connection classifier and the visibility filter that decides
//! which history entries the main feed shows.

use vstd::prelude::*;

use crate::text::contains_sub;
use crate::text::has_substring;
use crate::text::lower_of;
use crate::text::lowercase;
use crate::text::str_has_prefix;
use crate::text::uri_path;
use crate::text::uri_path_of;
use crate::vscode::EntryView;
use crate::vscode::Entry;
use crate::vscode::VscodeInstances;

verus! {

/// User-controlled filter state: free-text search plus one visibility toggle
/// per third-party installation variant and per remote-connection kind.
pub struct FilterOptions {
    pub search_text: String,
    pub show_vscode_insiders: bool,
    pub show_vscode_exploration: bool,
    pub show_vscodium: bool,
    pub show_wsl: bool,
    pub show_ssh: bool,
    pub show_dev_container: bool,
    pub show_folders: bool,
    pub show_workspaces: bool,
    pub show_remote_repositories: bool,
    pub show_vscode: bool,
    pub show_host: bool,
}

/// The mathematical value of a [`FilterOptions`].
#[verifier::ext_equal]
pub struct FilterOptionsView {
    pub search_text: Seq<char>,
    pub show_vscode_insiders: bool,
    pub show_vscode_exploration: bool,
    pub show_vscodium: bool,
    pub show_wsl: bool,
    pub show_ssh: bool,
    pub show_dev_container: bool,
    pub show_folders: bool,
    pub show_workspaces: bool,
    pub show_remote_repositories: bool,
    pub show_vscode: bool,
    pub show_host: bool,
}

impl View for FilterOptions {
    type V = FilterOptionsView;

    open spec fn view(&self) -> FilterOptionsView {
        FilterOptionsView {
            search_text: self.search_text@,
            show_vscode_insiders: self.show_vscode_insiders,
            show_vscode_exploration: self.show_vscode_exploration,
            show_vscodium: self.show_vscodium,
            show_wsl: self.show_wsl,
            show_ssh: self.show_ssh,
            show_dev_container: self.show_dev_container,
            show_folders: self.show_folders,
            show_workspaces: self.show_workspaces,
            show_remote_repositories: self.show_remote_repositories,
            show_vscode: self.show_vscode,
            show_host: self.show_host,
        }
    }
}

/// The filter state a fresh profile starts with: no search text; the stable
/// variant and every remote kind except the local host are shown.
pub open spec fn spec_default_options() -> FilterOptionsView {
    FilterOptionsView {
        search_text: Seq::<char>::empty(),
        show_vscode_insiders: false,
        show_vscode_exploration: false,
        show_vscode: true,
        show_vscodium: false,
        show_wsl: true,
        show_ssh: true,
        show_dev_container: true,
        show_folders: true,
        show_workspaces: true,
        show_remote_repositories: true,
        show_host: false,
    }
}

impl Default for FilterOptions {
    fn default() -> (r: FilterOptions)
        ensures
            r@ == spec_default_options(),
    {
        FilterOptions {
            search_text: String::new(),
            show_vscode_insiders: false,
            show_vscode_exploration: false,
            show_vscode: true,
            show_vscodium: false,
            show_wsl: true,
            show_ssh: true,
            show_dev_container: true,
            show_folders: true,
            show_workspaces: true,
            show_remote_repositories: true,
            show_host: false,
        }
    }
}

/// The search text selects a path when, after lower-casing both, the text
/// occurs inside the path; empty search text selects every path.
pub open spec fn search_matches(path: Seq<char>, search: Seq<char>) -> bool {
    search.len() == 0 || has_substring(lower_of(path), lower_of(search))
}

/// The connection kind of a history entry: local host, a remote backend, a
/// virtual remote-repository URI, or an authority this tool does not know.
#[derive(Clone, Copy, Debug, PartialEq, Eq, Structural)]
pub enum Remote {
    Host,
    Wsl,
    DevContainer,
    Ssh,
    RemoteRepository,
    Unknown,
}

/// The label of each kind; for the remote backends it is also the
/// authority prefix that selects the kind.
pub open spec fn spec_proto(r: Remote) -> Seq<char> {
    match r {
        Remote::Host => "host"@,
        Remote::Wsl => "wsl"@,
        Remote::DevContainer => "dev-container"@,
        Remote::Ssh => "ssh"@,
        Remote::RemoteRepository => "vscode-vfs"@,
        Remote::Unknown => "unknown"@,
    }
}

/// Which remote backend a remote-authority string selects: the first of the
/// known authority prefixes that begins it, if any.
pub open spec fn spec_remote_of_authority(a: Seq<char>) -> Option<Remote> {
    if crate::text::has_prefix(a, "wsl"@) {
        Some(Remote::Wsl)
    } else if crate::text::has_prefix(a, "dev-container"@) {
        Some(Remote::DevContainer)
    } else if crate::text::has_prefix(a, "ssh"@) {
        Some(Remote::Ssh)
    } else {
        None
    }
}

/// The single source of truth for an entry's connection kind. A present
/// remote authority is matched by prefix, first match wins, an unmatched
/// authority is [`Remote::Unknown`]; without one, a `vscode-vfs` URI is a
/// remote repository and anything else is the local host.
pub open spec fn spec_classify(remote_authority: Option<Seq<char>>, folder_uri: Seq<char>) -> Remote {
    match remote_authority {
        Some(a) => match spec_remote_of_authority(a) {
            Some(r) => r,
            None => Remote::Unknown,
        },
        None => if crate::text::has_prefix(folder_uri, "vscode-vfs"@) {
            Remote::RemoteRepository
        } else {
            Remote::Host
        },
    }
}

impl Remote {
    pub fn get_proto(&self) -> (r: &'static str)
        ensures
            r@ == spec_proto(*self),
    {
        match self {
            Remote::Host => "host",
            Remote::Wsl => "wsl",
            Remote::DevContainer => "dev-container",
            Remote::Ssh => "ssh",
            Remote::RemoteRepository => "vscode-vfs",
            Remote::Unknown => "unknown",
        }
    }

    pub fn get_remote_authority(remote_authority: &str) -> (r: Option<Remote>)
        ensures
            r == spec_remote_of_authority(remote_authority@),
    {
        if str_has_prefix(remote_authority, "wsl") {
            Some(Remote::Wsl)
        } else if str_has_prefix(remote_authority, "dev-container") {
            Some(Remote::DevContainer)
        } else if str_has_prefix(remote_authority, "ssh") {
            Some(Remote::Ssh)
        } else {
            None
        }
    }

    /// Whether the toggles let an entry with this remote authority through:
    /// the toggle of its backend, and always for an unknown authority.
    pub fn is_filtered(remote_authority: &str, filter: &FilterOptions) -> (r: bool)
        ensures
            r == kind_enabled(
                spec_classify(Some(remote_authority@), Seq::<char>::empty()),
                filter@,
            ),
    {
        match Remote::get_remote_authority(remote_authority) {
            Some(remote) => match remote {
                Remote::Wsl => filter.show_wsl,
                Remote::DevContainer => filter.show_dev_container,
                Remote::Ssh => filter.show_ssh,
                _ => true,
            },
            None => true,
        }
    }
}

/// The view of an optional borrowed string.
pub open spec fn opt_str_view(o: Option<&str>) -> Option<Seq<char>> {
    match o {
        Some(s) => Some(s@),
        None => None,
    }
}

/// The connection kind of an entry with the given remote authority and
/// folder URI. See [`spec_classify`].
pub fn classify(remote_authority: Option<&str>, folder_uri: &str) -> (r: Remote)
    ensures
        r == spec_classify(opt_str_view(remote_authority), folder_uri@),
{
    match remote_authority {
        Some(a) => match Remote::get_remote_authority(a) {
            Some(remote) => remote,
            None => Remote::Unknown,
        },
        None => if str_has_prefix(folder_uri, "vscode-vfs") {
            Remote::RemoteRepository
        } else {
            Remote::Host
        },
    }
}

/// Whether the toggle for an installation variant is on.
pub open spec fn installation_enabled(i: VscodeInstances, o: FilterOptionsView) -> bool {
    match i {
        VscodeInstances::Vscode => o.show_vscode,
        VscodeInstances::VscodeInsiders => o.show_vscode_insiders,
        VscodeInstances::VscodeExploration => o.show_vscode_exploration,
        VscodeInstances::Vscodium => o.show_vscodium,
    }
}

/// Whether the toggle for a connection kind is on. An unknown kind has no
/// toggle and is always shown.
pub open spec fn kind_enabled(k: Remote, o: FilterOptionsView) -> bool {
    match k {
        Remote::Host => o.show_host,
        Remote::Wsl => o.show_wsl,
        Remote::DevContainer => o.show_dev_container,
        Remote::Ssh => o.show_ssh,
        Remote::RemoteRepository => o.show_remote_repositories,
        Remote::Unknown => true,
    }
}

/// An entry is visible iff its installation's toggle is on, it has a folder
/// URI, the lower-cased path of that URI contains the lower-cased search
/// text, and the toggle of its connection kind is on.
pub open spec fn spec_visible(e: EntryView, i: VscodeInstances, o: FilterOptionsView) -> bool {
    match e.folder_uri {
        Some(u) => installation_enabled(i, o) && search_matches(uri_path_of(u), o.search_text)
            && kind_enabled(spec_classify(e.remote_authority, u), o),
        None => false,
    }
}

/// Decides whether the main feed shows `entry`. Pure: depends only on the
/// entry, its owning installation, and the current options.
pub fn is_visible(entry: &Entry, installation: VscodeInstances, options: &FilterOptions) -> (r:
    bool)
    ensures
        r == spec_visible(entry@, installation, options@),
{
    let uri: &String = match &entry.folder_uri {
        Some(u) => u,
        None => { return false; },
    };
    let installation_on = match installation {
        VscodeInstances::Vscode => options.show_vscode,
        VscodeInstances::VscodeInsiders => options.show_vscode_insiders,
        VscodeInstances::VscodeExploration => options.show_vscode_exploration,
        VscodeInstances::Vscodium => options.show_vscodium,
    };
    if !installation_on {
        return false;
    }
    if !options.search_text.as_str().is_empty() {
        let path = uri_path(uri.as_str());
        let lower_path = lowercase(path.as_str());
        let lower_search = lowercase(options.search_text.as_str());
        if !contains_sub(lower_path.as_str(), lower_search.as_str()) {
            return false;
        }
    }
    let authority: Option<&str> = match &entry.remote_authority {
        Some(a) => Some(a.as_str()),
        None => None,
    };
    let kind = classify(authority, uri.as_str());
    match kind {
        Remote::Host => options.show_host,
        Remote::Wsl => options.show_wsl,
        Remote::DevContainer => options.show_dev_container,
        Remote::Ssh => options.show_ssh,
        Remote::RemoteRepository => options.show_remote_repositories,
        Remote::Unknown => true,
    }
}

/// Every visibility toggle is on.
pub open spec fn all_toggles_on(o: FilterOptionsView) -> bool {
    o.show_vscode && o.show_vscode_insiders && o.show_vscode_exploration && o.show_vscodium
        && o.show_host && o.show_wsl && o.show_ssh && o.show_dev_container
        && o.show_remote_repositories
}

/// With every toggle on and empty search text, exactly the entries that
/// carry a folder URI are visible.
pub proof fn lemma_permissive_visibility(e: EntryView, i: VscodeInstances, o: FilterOptionsView)
    requires
        all_toggles_on(o),
        o.search_text.len() == 0,
    ensures
        spec_visible(e, i, o) <==> e.folder_uri is Some,
{
}

/// With every toggle on, visibility of an entry that carries a folder URI
/// depends only on whether the lower-cased path of the URI contains the
/// lower-cased search text; an entry without one is never visible.
pub proof fn lemma_visibility_is_path_match(e: EntryView, i: VscodeInstances, o: FilterOptionsView)
    requires
        all_toggles_on(o),
    ensures
        match e.folder_uri {
            Some(u) => spec_visible(e, i, o) <==> search_matches(uri_path_of(u), o.search_text),
            None => !spec_visible(e, i, o),
        },
{
}

/// Classification is a total function of the remote authority and the folder
/// URI: the same pair always yields the same single connection kind.
pub proof fn lemma_classify_deterministic(
    remote_authority: Option<Seq<char>>,
    folder_uri: Seq<char>,
    k1: Remote,
    k2: Remote,
)
    requires
        k1 == spec_classify(remote_authority, folder_uri),
        k2 == spec_classify(remote_authority, folder_uri),
    ensures
        k1 == k2,
{
}

} // verus!
