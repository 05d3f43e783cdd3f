//! The editor variants that can be installed on the host, and the records
//! each of them keeps about recently opened folders and workspaces.

use vstd::prelude::*;

verus! {

/// The closed set of editor variants this tool knows how to locate and launch.
#[derive(Clone, Copy, Debug, PartialEq, Eq, Structural)]
pub enum VscodeInstances {
    Vscode,
    VscodeInsiders,
    VscodeExploration,
    Vscodium,
}

/// The directory name under the roaming application-data root that holds a
/// variant's per-user data.
pub open spec fn spec_base_path_dir(i: VscodeInstances) -> Seq<char> {
    match i {
        VscodeInstances::Vscode => "Code"@,
        VscodeInstances::VscodeInsiders => "Code - Insiders"@,
        VscodeInstances::VscodeExploration => "Code - Exploration"@,
        VscodeInstances::Vscodium => "VSCodium"@,
    }
}

/// The name of the executable that launches a variant.
pub open spec fn spec_executable(i: VscodeInstances) -> Seq<char> {
    match i {
        VscodeInstances::Vscode => "code"@,
        VscodeInstances::VscodeInsiders => "code-insiders"@,
        VscodeInstances::VscodeExploration => "code-exploration"@,
        VscodeInstances::Vscodium => "codium"@,
    }
}

/// The fixed enumeration order of the variants.
pub open spec fn spec_all_instances() -> Seq<VscodeInstances> {
    seq![
        VscodeInstances::Vscode,
        VscodeInstances::VscodeInsiders,
        VscodeInstances::VscodeExploration,
        VscodeInstances::Vscodium,
    ]
}

impl VscodeInstances {
    pub fn get_base_path_dir(&self) -> (r: &'static str)
        ensures
            r@ == spec_base_path_dir(*self),
    {
        match self {
            VscodeInstances::Vscode => "Code",
            VscodeInstances::VscodeInsiders => "Code - Insiders",
            VscodeInstances::VscodeExploration => "Code - Exploration",
            VscodeInstances::Vscodium => "VSCodium",
        }
    }

    pub fn get_executable(&self) -> (r: &'static str)
        ensures
            r@ == spec_executable(*self),
    {
        match self {
            VscodeInstances::Vscode => "code",
            VscodeInstances::VscodeInsiders => "code-insiders",
            VscodeInstances::VscodeExploration => "code-exploration",
            VscodeInstances::Vscodium => "codium",
        }
    }
}

/// An opaque workspace descriptor carried by a history record.
#[derive(Debug)]
pub struct Workspace {
    id: String,
    config_path: String,
}

/// The mathematical value of a [`Workspace`]: its two strings.
#[verifier::ext_equal]
pub struct WorkspaceView {
    pub id: Seq<char>,
    pub config_path: Seq<char>,
}

impl View for Workspace {
    type V = WorkspaceView;

    closed spec fn view(&self) -> WorkspaceView {
        WorkspaceView { id: self.id@, config_path: self.config_path@ }
    }
}

impl Workspace {
    pub fn new(id: String, config_path: String) -> (r: Workspace)
        ensures
            r@ == (WorkspaceView { id: id@, config_path: config_path@ }),
    {
        Workspace { id, config_path }
    }

    pub fn id_text(&self) -> (r: String)
        ensures
            r@ == self@.id,
    {
        self.id.clone()
    }

    pub fn config_path_text(&self) -> (r: String)
        ensures
            r@ == self@.config_path,
    {
        self.config_path.clone()
    }
}

impl Clone for Workspace {
    fn clone(&self) -> (r: Workspace)
        ensures
            r@ == self@,
    {
        Workspace { id: self.id.clone(), config_path: self.config_path.clone() }
    }
}

impl PartialEq for Workspace {
    fn eq(&self, other: &Workspace) -> (r: bool) {
        self.id == other.id && self.config_path == other.config_path
    }
}

impl vstd::std_specs::cmp::PartialEqSpecImpl for Workspace {
    open spec fn obeys_eq_spec() -> bool {
        true
    }

    open spec fn eq_spec(&self, other: &Workspace) -> bool {
        self@ == other@
    }
}

/// One "recently opened" record, as an installation's history stores it.
#[derive(Debug)]
pub struct Entry {
    pub folder_uri: Option<String>,
    pub workspace: Option<Workspace>,
    pub label: Option<String>,
    pub remote_authority: Option<String>,
}

/// The mathematical value of an [`Entry`].
#[verifier::ext_equal]
pub struct EntryView {
    pub folder_uri: Option<Seq<char>>,
    pub workspace: Option<WorkspaceView>,
    pub label: Option<Seq<char>>,
    pub remote_authority: Option<Seq<char>>,
}

/// The view of an optional string.
pub open spec fn opt_view(o: Option<String>) -> Option<Seq<char>> {
    match o {
        Some(s) => Some(s@),
        None => None,
    }
}

impl View for Entry {
    type V = EntryView;

    open spec fn view(&self) -> EntryView {
        EntryView {
            folder_uri: opt_view(self.folder_uri),
            workspace: match self.workspace {
                Some(w) => Some(w@),
                None => None,
            },
            label: opt_view(self.label),
            remote_authority: opt_view(self.remote_authority),
        }
    }
}

/// Whether two optional strings hold the same characters.
fn opt_string_eq(a: &Option<String>, b: &Option<String>) -> (r: bool)
    ensures
        r == (opt_view(*a) == opt_view(*b)),
{
    match (a, b) {
        (Some(x), Some(y)) => x.eq(y),
        (None, None) => true,
        _ => false,
    }
}

/// A copy of an optional string.
fn opt_string_clone(a: &Option<String>) -> (r: Option<String>)
    ensures
        opt_view(r) == opt_view(*a),
{
    match a {
        Some(x) => Some(x.clone()),
        None => None,
    }
}

impl Clone for Entry {
    fn clone(&self) -> (r: Entry)
        ensures
            r@ == self@,
    {
        Entry {
            folder_uri: opt_string_clone(&self.folder_uri),
            workspace: match &self.workspace {
                Some(w) => Some(w.clone()),
                None => None,
            },
            label: opt_string_clone(&self.label),
            remote_authority: opt_string_clone(&self.remote_authority),
        }
    }
}

impl PartialEq for Entry {
    fn eq(&self, other: &Entry) -> (r: bool) {
        let ws_eq = match (&self.workspace, &other.workspace) {
            (Some(a), Some(b)) => a == b,
            (None, None) => true,
            _ => false,
        };
        ws_eq && opt_string_eq(&self.folder_uri, &other.folder_uri) && opt_string_eq(
            &self.label,
            &other.label,
        ) && opt_string_eq(&self.remote_authority, &other.remote_authority)
    }
}

impl vstd::std_specs::cmp::PartialEqSpecImpl for Entry {
    open spec fn obeys_eq_spec() -> bool {
        true
    }

    open spec fn eq_spec(&self, other: &Entry) -> bool {
        self@ == other@
    }
}

/// The ordered history of one installation, most-recent-first.
#[derive(Debug)]
pub struct EntryList {
    pub entries: Vec<Entry>,
}

impl View for EntryList {
    type V = Seq<EntryView>;

    open spec fn view(&self) -> Seq<EntryView> {
        self.entries@.map(|i: int, e: Entry| e@)
    }
}

/// An installation paired with the history read from it.
#[derive(Debug)]
pub struct VscodeEntries {
    pub installation: VscodeInstances,
    pub entry_list: EntryList,
}

/// The mathematical value of a [`VscodeEntries`].
#[verifier::ext_equal]
pub struct VscodeEntriesView {
    pub installation: VscodeInstances,
    pub entry_list: Seq<EntryView>,
}

impl View for VscodeEntries {
    type V = VscodeEntriesView;

    open spec fn view(&self) -> VscodeEntriesView {
        VscodeEntriesView { installation: self.installation, entry_list: self.entry_list@ }
    }
}

/// Every variant, in the fixed enumeration order.
pub fn all_instances() -> (r: Vec<VscodeInstances>)
    ensures
        r@ == spec_all_instances(),
{
    let mut v: Vec<VscodeInstances> = Vec::new();
    v.push(VscodeInstances::Vscode);
    v.push(VscodeInstances::VscodeInsiders);
    v.push(VscodeInstances::VscodeExploration);
    v.push(VscodeInstances::Vscodium);
    proof {
        assert(v@ =~= spec_all_instances());
    }
    v
}

/// The variants whose data directories are present, in enumeration order.
/// `present` holds one flag per variant, in the same order.
pub open spec fn spec_discover(present: Seq<bool>) -> Seq<VscodeInstances> {
    let s0 = if present[0] {
        seq![VscodeInstances::Vscode]
    } else {
        Seq::<VscodeInstances>::empty()
    };
    let s1 = if present[1] {
        s0.push(VscodeInstances::VscodeInsiders)
    } else {
        s0
    };
    let s2 = if present[2] {
        s1.push(VscodeInstances::VscodeExploration)
    } else {
        s1
    };
    if present[3] {
        s2.push(VscodeInstances::Vscodium)
    } else {
        s2
    }
}

/// The subset of variants that are installed, given one directory-presence
/// flag per variant in enumeration order. The caller checks the directories;
/// with no resolvable application-data root it hands four `false` flags and
/// discovery degrades to an empty set.
pub fn discover_installed(present: &[bool; 4]) -> (r: Vec<VscodeInstances>)
    ensures
        r@ == spec_discover(present@),
{
    let mut r: Vec<VscodeInstances> = Vec::new();
    if present[0] {
        r.push(VscodeInstances::Vscode);
    }
    if present[1] {
        r.push(VscodeInstances::VscodeInsiders);
    }
    if present[2] {
        r.push(VscodeInstances::VscodeExploration);
    }
    if present[3] {
        r.push(VscodeInstances::Vscodium);
    }
    proof {
        assert(r@ =~= spec_discover(present@));
    }
    r
}

/// The command line that opens a folder URI in an installation:
/// `<executable> --folder-uri <uri>`.
pub open spec fn spec_launch_command(i: VscodeInstances, uri: Seq<char>) -> Seq<char> {
    spec_executable(i) + " --folder-uri "@ + uri
}

pub fn launch_command(installation: VscodeInstances, folder_uri: &str) -> (r: String)
    ensures
        r@ == spec_launch_command(installation, folder_uri@),
{
    let mut s = installation.get_executable().to_owned();
    s.append(" --folder-uri ");
    s.append(folder_uri);
    proof {
        assert(s@ =~= spec_launch_command(installation, folder_uri@));
    }
    s
}

} // verus!
