//! Reading one installation's "recently opened" history: the settings-store
//! path, the single history row fetched from the embedded database, and the
//! verified extraction of entries from the stored JSON document.

use vstd::prelude::*;

use crate::vscode::spec_base_path_dir;
use crate::vscode::Entry;
use crate::vscode::EntryList;
use crate::vscode::EntryView;
use crate::vscode::VscodeInstances;
use crate::vscode::Workspace;
use crate::vscode::WorkspaceView;
use crate::vscode::opt_view;

verus! {

/// Why a history read failed. Every variant is recoverable: the installation
/// contributes no entries this cycle and aggregation goes on.
#[derive(Clone, Copy, Debug, PartialEq, Eq, Structural)]
pub enum ReadError {
    /// The settings store is missing, locked, or not a database.
    StoreOpenError,
    /// The store opened but the history query could not be run or read.
    QueryError,
    /// The store holds no history row yet.
    NoHistoryError,
    /// The stored text is not valid JSON or does not match the history schema.
    ParseError,
}

/// A JSON document, as far as the history schema distinguishes values:
/// the exact string contents matter, object fields are a map from name to
/// value, and everything else is only told apart by kind.
pub enum JsonData {
    Null,
    Bool,
    Num,
    Str(Seq<char>),
    Arr(Seq<JsonData>),
    Obj(Map<Seq<char>, JsonData>),
}

/// serde_json's dynamically typed JSON value; opaque here, read only through
/// the trusted accessors below.
#[verifier::external_type_specification]
#[verifier::external_body]
pub struct ExValue(serde_json::Value);

/// What a `serde_json::Value` holds, as a [`JsonData`].
pub uninterp spec fn value_model(v: serde_json::Value) -> JsonData;

/// What serde_json's parser returns for a text: `None` when the text is not
/// one valid JSON document.
pub uninterp spec fn json_parse(s: Seq<char>) -> Option<JsonData>;

/// Relies on `serde_json::from_str::<Value>`: parses the whole text as one
/// JSON document; the result depends on the text alone.
#[verifier::external_body]
fn parse_json(text: &str) -> (r: Option<serde_json::Value>)
    ensures
        r is Some <==> json_parse(text@) is Some,
        r matches Some(v) ==> Some(value_model(v)) == json_parse(text@),
{
    serde_json::from_str::<serde_json::Value>(text).ok()
}

/// Relies on `serde_json::Value::get` with a string key: a lookup among an
/// object's fields; `None` on a missing key or on any non-object value.
#[verifier::external_body]
fn json_get<'a>(v: &'a serde_json::Value, key: &str) -> (r: Option<&'a serde_json::Value>)
    ensures
        match value_model(*v) {
            JsonData::Obj(m) => {
                &&& r is Some <==> m.contains_key(key@)
                &&& (r matches Some(w) ==> m.contains_key(key@) && value_model(*w) == m[key@])
            },
            _ => r is None,
        },
{
    v.get(key)
}

/// Relies on `serde_json::Value::is_object`.
#[verifier::external_body]
fn json_is_object(v: &serde_json::Value) -> (r: bool)
    ensures
        r == (value_model(*v) is Obj),
{
    v.is_object()
}

/// Relies on `serde_json::Value::is_null`.
#[verifier::external_body]
fn json_is_null(v: &serde_json::Value) -> (r: bool)
    ensures
        r == (value_model(*v) is Null),
{
    v.is_null()
}

/// Relies on `serde_json::Value::as_str`: `Some` exactly on a JSON string.
#[verifier::external_body]
fn json_as_str<'a>(v: &'a serde_json::Value) -> (r: Option<&'a str>)
    ensures
        match value_model(*v) {
            JsonData::Str(s) => r matches Some(t) && t@ == s,
            _ => r is None,
        },
{
    v.as_str()
}

/// Relies on `serde_json::Value::as_array`: `Some` exactly on a JSON array,
/// with the array's elements in order.
#[verifier::external_body]
fn json_as_array<'a>(v: &'a serde_json::Value) -> (r: Option<&'a Vec<serde_json::Value>>)
    ensures
        match value_model(*v) {
            JsonData::Arr(s) => r matches Some(a) && a@.len() == s.len() && (forall|k: int|
                0 <= k < s.len() ==> #[trigger] value_model(a@[k]) == s[k]),
            _ => r is None,
        },
{
    v.as_array()
}

/// An optional string field of an object: absent or null is `Some(None)`, a
/// string is kept, any other value is a schema mismatch.
pub open spec fn opt_str_field(m: Map<Seq<char>, JsonData>, k: Seq<char>) -> Option<
    Option<Seq<char>>,
> {
    if !m.contains_key(k) {
        Some(None)
    } else {
        match m[k] {
            JsonData::Null => Some(None),
            JsonData::Str(s) => Some(Some(s)),
            _ => None,
        }
    }
}

/// The optional workspace field of an object: absent or null is `Some(None)`;
/// an object must carry string fields `id` and `configPath`; anything else is
/// a schema mismatch.
pub open spec fn workspace_field(m: Map<Seq<char>, JsonData>, k: Seq<char>) -> Option<
    Option<WorkspaceView>,
> {
    if !m.contains_key(k) {
        Some(None)
    } else {
        match m[k] {
            JsonData::Null => Some(None),
            JsonData::Obj(w) => {
                if w.contains_key("id"@) && w["id"@] is Str && w.contains_key("configPath"@)
                    && w["configPath"@] is Str {
                    Some(
                        Some(
                            WorkspaceView {
                                id: w["id"@]->Str_0,
                                config_path: w["configPath"@]->Str_0,
                            },
                        ),
                    )
                } else {
                    None
                }
            },
            _ => None,
        }
    }
}

/// The entry a history array element encodes, if it matches the schema:
/// an object whose four known fields are each well-formed; unknown fields
/// are ignored.
pub open spec fn entry_of(j: JsonData) -> Option<EntryView> {
    match j {
        JsonData::Obj(m) => {
            match (
                opt_str_field(m, "folderUri"@),
                workspace_field(m, "workspace"@),
                opt_str_field(m, "label"@),
                opt_str_field(m, "remoteAuthority"@),
            ) {
                (Some(fu), Some(w), Some(l), Some(ra)) => Some(
                    EntryView { folder_uri: fu, workspace: w, label: l, remote_authority: ra },
                ),
                _ => None,
            }
        },
        _ => None,
    }
}

/// Every element of the array encodes an entry.
pub open spec fn entries_ok(s: Seq<JsonData>) -> bool {
    forall|k: int| 0 <= k < s.len() ==> #[trigger] entry_of(s[k]) is Some
}

/// The entries an array of well-formed elements encodes, in order.
pub open spec fn entry_views_of(s: Seq<JsonData>) -> Seq<EntryView> {
    s.map(|k: int, j: JsonData| entry_of(j).unwrap())
}

/// The entry list a history document encodes, if it matches the schema: an
/// object with an `entries` array of well-formed elements.
pub open spec fn history_of(j: JsonData) -> Option<Seq<EntryView>> {
    match j {
        JsonData::Obj(m) => {
            if m.contains_key("entries"@) {
                match m["entries"@] {
                    JsonData::Arr(s) => if entries_ok(s) {
                        Some(entry_views_of(s))
                    } else {
                        None
                    },
                    _ => None,
                }
            } else {
                None
            }
        },
        _ => None,
    }
}

/// What the stored history text must yield: text that is not a valid JSON
/// history document is a `ParseError`; otherwise the entry list it encodes.
pub open spec fn spec_history_of(text: Seq<char>) -> Result<Seq<EntryView>, ReadError> {
    match json_parse(text) {
        None => Err(ReadError::ParseError),
        Some(j) => match history_of(j) {
            None => Err(ReadError::ParseError),
            Some(es) => Ok(es),
        },
    }
}

/// Reads an optional string field of the object `v` holds.
fn opt_str_from(v: &serde_json::Value, key: &str) -> (r: Option<Option<String>>)
    requires
        value_model(*v) is Obj,
    ensures
        match opt_str_field(value_model(*v)->Obj_0, key@) {
            None => r is None,
            Some(fo) => r matches Some(o) && opt_view(o) == fo,
        },
{
    match json_get(v, key) {
        None => Some(None),
        Some(w) => {
            if json_is_null(w) {
                Some(None)
            } else {
                match json_as_str(w) {
                    Some(s) => Some(Some(s.to_owned())),
                    None => None,
                }
            }
        },
    }
}

/// Reads the optional workspace field of the object `v` holds.
fn workspace_from(v: &serde_json::Value, key: &str) -> (r: Option<Option<Workspace>>)
    requires
        value_model(*v) is Obj,
    ensures
        match workspace_field(value_model(*v)->Obj_0, key@) {
            None => r is None,
            Some(None) => r matches Some(o) && o is None,
            Some(Some(wv)) => r matches Some(o) && o matches Some(w) && w@ == wv,
        },
{
    match json_get(v, key) {
        None => Some(None),
        Some(w) => {
            if json_is_null(w) {
                Some(None)
            } else if !json_is_object(w) {
                None
            } else {
                let id = match json_get(w, "id") {
                    Some(x) => match json_as_str(x) {
                        Some(s) => s,
                        None => { return None; },
                    },
                    None => { return None; },
                };
                let cp = match json_get(w, "configPath") {
                    Some(x) => match json_as_str(x) {
                        Some(s) => s,
                        None => { return None; },
                    },
                    None => { return None; },
                };
                Some(Some(Workspace::new(id.to_owned(), cp.to_owned())))
            }
        },
    }
}

/// Builds the entry a history array element encodes, rejecting elements that
/// do not match the schema.
fn entry_from(v: &serde_json::Value) -> (r: Option<Entry>)
    ensures
        match entry_of(value_model(*v)) {
            None => r is None,
            Some(ev) => r matches Some(e) && e@ == ev,
        },
{
    if !json_is_object(v) {
        return None;
    }
    let fu = match opt_str_from(v, "folderUri") {
        Some(x) => x,
        None => { return None; },
    };
    let ws = match workspace_from(v, "workspace") {
        Some(x) => x,
        None => { return None; },
    };
    let lb = match opt_str_from(v, "label") {
        Some(x) => x,
        None => { return None; },
    };
    let ra = match opt_str_from(v, "remoteAuthority") {
        Some(x) => x,
        None => { return None; },
    };
    let e = Entry { folder_uri: fu, workspace: ws, label: lb, remote_authority: ra };
    proof {
        assert(e@ =~= entry_of(value_model(*v)).unwrap());
    }
    Some(e)
}

/// Builds the entry list a history document encodes, rejecting documents
/// that do not match the schema.
fn entry_list_from(v: &serde_json::Value) -> (r: Option<EntryList>)
    ensures
        match history_of(value_model(*v)) {
            None => r is None,
            Some(es) => r matches Some(el) && el@ == es,
        },
{
    if !json_is_object(v) {
        return None;
    }
    let entries_val = match json_get(v, "entries") {
        Some(x) => x,
        None => { return None; },
    };
    let arr = match json_as_array(entries_val) {
        Some(a) => a,
        None => { return None; },
    };
    let ghost s = value_model(*entries_val)->Arr_0;
    let mut out: Vec<Entry> = Vec::new();
    let n = arr.len();
    let mut k: usize = 0;
    while k < n
        invariant
            n == arr@.len(),
            s == value_model(*entries_val)->Arr_0,
            value_model(*entries_val) is Arr,
            value_model(*v) is Obj,
            value_model(*v)->Obj_0.contains_key("entries"@),
            value_model(*v)->Obj_0["entries"@] == value_model(*entries_val),
            arr@.len() == s.len(),
            forall|t: int| 0 <= t < s.len() ==> #[trigger] value_model(arr@[t]) == s[t],
            0 <= k <= n,
            out@.len() == k,
            forall|t: int| 0 <= t < k ==> #[trigger] entry_of(s[t]) is Some,
            forall|t: int| 0 <= t < k ==> #[trigger] out@[t]@ == entry_of(s[t]).unwrap(),
        decreases n - k,
    {
        let e = match entry_from(&arr[k]) {
            Some(e) => e,
            None => {
                proof {
                    assert(!(entry_of(s[k as int]) is Some));
                }
                return None;
            },
        };
        out.push(e);
        k += 1;
    }
    let el = EntryList { entries: out };
    proof {
        assert(entries_ok(s));
        assert(el@ =~= entry_views_of(s));
    }
    Some(el)
}

/// Deserializes the stored history text into the entry list it encodes.
pub fn history_from_text(text: &str) -> (r: Result<EntryList, ReadError>)
    ensures
        match spec_history_of(text@) {
            Ok(es) => r matches Ok(el) && el@ == es,
            Err(e) => r matches Err(e2) && e2 == e,
        },
{
    let v = match parse_json(text) {
        Some(v) => v,
        None => { return Err(ReadError::ParseError); },
    };
    match entry_list_from(&v) {
        Some(el) => Ok(el),
        None => Err(ReadError::ParseError),
    }
}

/// rusqlite's database connection; opaque here, used only by the trusted
/// store accessors below.
#[verifier::external_type_specification]
#[verifier::external_body]
pub struct ExConnection(rusqlite::Connection);

/// The outcome of looking for the single history row in an open store.
pub enum RowFetch {
    /// The query could not be prepared, run, or its first column read.
    Failed,
    /// The query ran and returned zero rows.
    NoRow,
    /// The text of column 0 of the first row.
    Row(String),
}

/// Relies on `rusqlite::Connection::open_with_flags` with the read-only
/// flag: `None` when the file is missing, locked, or not a database the
/// library can open. Nothing more is promised: what is on disk is outside
/// state.
#[verifier::external_body]
fn open_store(path: &str) -> (r: Option<rusqlite::Connection>) {
    rusqlite::Connection::open_with_flags(
        path,
        rusqlite::OpenFlags::SQLITE_OPEN_READ_ONLY,
    ).ok()
}

/// Relies on rusqlite's `Connection::prepare`, `Statement::query`,
/// `Rows::next` and `Row::get`: runs `sql` against the open store and reads
/// column 0 of the first returned row as text. Nothing is promised of the
/// outcome: what the store holds is outside state.
#[verifier::external_body]
fn query_first_text(conn: &rusqlite::Connection, sql: &str) -> (r: RowFetch) {
    let mut stmt = match conn.prepare(sql) {
        Ok(s) => s,
        Err(_) => return RowFetch::Failed,
    };
    let mut rows = match stmt.query([]) {
        Ok(r) => r,
        Err(_) => return RowFetch::Failed,
    };
    match rows.next() {
        Ok(Some(row)) => row.get(0).map_or(RowFetch::Failed, RowFetch::Row),
        Ok(None) => RowFetch::NoRow,
        Err(_) => RowFetch::Failed,
    }
}

/// Maps the outcome of the store query to the history result: a failed
/// query, zero rows, and a malformed row each give their error; a row's
/// text is parsed as the history document.
pub fn history_from_row(fetch: RowFetch) -> (r: Result<EntryList, ReadError>)
    ensures
        match fetch {
            RowFetch::Failed => r matches Err(e) && e == ReadError::QueryError,
            RowFetch::NoRow => r matches Err(e) && e == ReadError::NoHistoryError,
            RowFetch::Row(t) => match spec_history_of(t@) {
                Ok(es) => r matches Ok(el) && el@ == es,
                Err(e) => r matches Err(e2) && e2 == e,
            },
        },
{
    match fetch {
        RowFetch::Failed => Err(ReadError::QueryError),
        RowFetch::NoRow => Err(ReadError::NoHistoryError),
        RowFetch::Row(t) => history_from_text(t.as_str()),
    }
}

/// The settings-store path of an installation under the application-data
/// root: `<root>/<variant dir>/User/globalStorage/state.vscdb`.
pub open spec fn spec_store_path(root: Seq<char>, i: VscodeInstances) -> Seq<char> {
    root + "/"@ + spec_base_path_dir(i) + "/User/globalStorage/state.vscdb"@
}

pub fn settings_store_path(app_data_root: &str, installation: VscodeInstances) -> (r: String)
    ensures
        r@ == spec_store_path(app_data_root@, installation),
{
    let mut s = app_data_root.to_owned();
    s.append("/");
    s.append(installation.get_base_path_dir());
    s.append("/User/globalStorage/state.vscdb");
    proof {
        assert(s@ =~= spec_store_path(app_data_root@, installation));
    }
    s
}

/// Reads one installation's history from the settings store at `db_path`:
/// opens the store read-only, fetches the single history row, and parses its
/// text. The store's content is outside state, so only this much is owed: an
/// `Ok` entry list is one that some stored text parses to, and each error
/// names the stage that failed.
pub fn read_history_at(db_path: &str) -> (r: Result<EntryList, ReadError>)
    ensures
        r matches Ok(el) ==> exists|t: Seq<char>|
            #[trigger] spec_history_of(t) == Ok::<Seq<EntryView>, ReadError>(el@),
{
    let conn = match open_store(db_path) {
        Some(c) => c,
        None => { return Err(ReadError::StoreOpenError); },
    };
    let fetch = query_first_text(
        &conn,
        "SELECT value FROM ItemTable WHERE key LIKE 'history.recentlyOpenedPathsList'",
    );
    history_from_row(fetch)
}

/// Reads an installation's history from its settings store under the given
/// roaming application-data root.
pub fn read_history(installation: VscodeInstances, app_data_root: &str) -> (r: Result<
    EntryList,
    ReadError,
>)
    ensures
        r matches Ok(el) ==> exists|t: Seq<char>|
            #[trigger] spec_history_of(t) == Ok::<Seq<EntryView>, ReadError>(el@),
{
    let path = settings_store_path(app_data_root, installation);
    read_history_at(path.as_str())
}

} // verus!
