//! The connection settings and the six requests of an export.
use vstd::prelude::*;
use crate::error::ExportError;
use crate::index::{first_wins, is_first, keys_unique, lemma_first_wins};
use crate::json::{json_items, json_items_of};
use crate::listing::{
    is_complete, lemma_uid_pairs_have_uid, missing_org_field_message, org_pairs, orgs_from_entries, uid_index, uid_pairs,
    OrgEntry,
};
use crate::reply::{
    field_text, field_text_of, follows_reply, nested_field_text, nested_field_text_of, read_reply, reply_body, Reply,
};
use crate::sanitize::{sanitize_names, sanitized, unquoted};

verus! {

/// Relies on the derived `Clone` of serde_json::Value (and the field-wise
/// `Clone` of its `Map`): a copy equal to the value.
pub assume_specification[ <serde_json::Value as Clone>::clone ](v: &serde_json::Value) -> (r: serde_json::Value)
    ensures
        r == *v,
;

/// Where to export to, and the server with its credentials.
#[derive(Debug)]
pub struct ClientInfo<'a> {
    pub cfg_path: Option<&'a str>,
    pub ip: Option<&'a str>,
    pub auth_usr: Option<&'a str>,
    pub auth_pwd: Option<&'a str>,
}

/// The requests of an export.
#[derive(Debug)]
pub enum Call {
    ListOrgs,
    SwitchOrg(String),
    ListDatasources,
    GetDatasource(String),
    ListDashboards,
    GetDashboard(String),
}

/// The two HTTP methods in use.
#[derive(Debug, Clone, Copy, PartialEq, Eq)]
pub enum Method {
    Get,
    Post,
}

impl Call {
    pub open spec fn path_view(&self) -> Seq<char> {
        match self {
            Call::ListOrgs => "/api/orgs"@,
            Call::SwitchOrg(id) => "/api/user/using/"@ + id@,
            Call::ListDatasources => "/api/datasources"@,
            Call::GetDatasource(uid) => "/api/datasources/uid/"@ + uid@,
            Call::ListDashboards => "/api/search?type=dash-db"@,
            Call::GetDashboard(uid) => "/api/dashboards/uid/"@ + uid@,
        }
    }

    /// The path of the request below the server's base URL.
    pub fn path(&self) -> (r: String)
        ensures
            r@ == self.path_view(),
    {
        match self {
            Call::ListOrgs => String::from_str("/api/orgs"),
            Call::SwitchOrg(id) => String::from_str("/api/user/using/").concat(id.as_str()),
            Call::ListDatasources => String::from_str("/api/datasources"),
            Call::GetDatasource(uid) => String::from_str("/api/datasources/uid/").concat(uid.as_str()),
            Call::ListDashboards => String::from_str("/api/search?type=dash-db"),
            Call::GetDashboard(uid) => String::from_str("/api/dashboards/uid/").concat(uid.as_str()),
        }
    }

    /// Switching the organization is a POST, everything else a GET.
    pub fn method(&self) -> (r: Method)
        ensures
            r == (if self is SwitchOrg { Method::Post } else { Method::Get }),
    {
        match self {
            Call::SwitchOrg(_) => Method::Post,
            _ => Method::Get,
        }
    }

    /// Whether the request waits the short time (organizations) or the long
    /// one (listings and fetches, whose bodies are larger).
    pub fn short_timeout(&self) -> (r: bool)
        ensures
            r == (self is ListOrgs || self is SwitchOrg),
    {
        match self {
            Call::ListOrgs => true,
            Call::SwitchOrg(_) => true,
            _ => false,
        }
    }
}

pub open spec fn missing_credentials_message() -> Seq<char> {
    "Missing auth credentials"@
}

/// `{root}/{org}/{kind}/{folder}`, the folder sanitized.
pub open spec fn dir_path(root: Seq<char>, org: Seq<char>, kind: Seq<char>, folder: Seq<char>) -> Seq<char> {
    root + "/"@ + org + "/"@ + kind + "/"@ + sanitized(folder)
}

/// `{dir}/{name}.json`, the name sanitized.
pub open spec fn file_path(dir: Seq<char>, name: Seq<char>) -> Seq<char> {
    dir + "/"@ + sanitized(name) + ".json"@
}

/// The directory and the file that an object is written to, given the JSON
/// texts of its two naming fields; `None` where either field is missing.
pub fn target_paths(root: &str, org: &str, kind: &str, folder: Option<String>, name: Option<String>) -> (r: Option<(String, String)>)
    ensures
        r is Some <==> (folder is Some && name is Some),
        r matches Some(p) ==> p.0@ == dir_path(root@, org@, kind@, folder->Some_0@)
            && p.1@ == file_path(p.0@, name->Some_0@),
{
    match (folder, name) {
        (Some(f), Some(n)) => {
            let mut dir = String::from_str(root);
            dir.append("/");
            dir.append(org);
            dir.append("/");
            dir.append(kind);
            dir.append("/");
            let f = sanitize_names(f);
            dir.append(f.as_str());
            let mut file = dir.clone();
            file.append("/");
            let n = sanitize_names(n);
            file.append(n.as_str());
            file.append(".json");
            Some((dir, file))
        },
        _ => None,
    }
}

/// An object to write: where, and the document itself.
#[derive(Debug)]
pub struct SaveTarget {
    pub dir: String,
    pub file: String,
    pub document: serde_json::Value,
}

/// What reading a fetched object `doc` gives, given the JSON texts of its
/// two naming fields: nothing to write where either is missing, else `doc`
/// itself under `{root}/{org}/{kind}/{folder}/{name}.json`.
pub open spec fn saved_read(
    root: Seq<char>,
    org: Seq<char>,
    kind: Seq<char>,
    folder: Option<Seq<char>>,
    name: Option<Seq<char>>,
    doc: serde_json::Value,
    r: Result<Option<SaveTarget>, ExportError>,
) -> bool {
    match r {
        Ok(x) => match x {
            Some(t) => {
                &&& folder is Some && name is Some
                &&& t.document == doc
                &&& t.dir@ == dir_path(root, org, kind, folder->Some_0)
                &&& t.file@ == file_path(t.dir@, name->Some_0)
            },
            None => !(folder is Some && name is Some),
        },
        Err(_) => false,
    }
}

/// Distinct uids, each with a copy of its entry.
pub open spec fn uids_distinct(r: Seq<(String, serde_json::Value)>) -> bool {
    forall|i: int, j: int| 0 <= i < j < r.len() ==> (#[trigger] r[i]).0@ != (#[trigger] r[j]).0@
}

pub open spec fn not_array_message() -> Seq<char> {
    "expected a JSON array"@
}

fn not_an_array() -> (e: ExportError)
    ensures
        e matches ExportError::Parse(m) && m@ == not_array_message(),
{
    ExportError::Parse(String::from_str("expected a JSON array"))
}

/// The uid texts of the entries of a list, `None` for those without one.
pub open spec fn uid_texts_of(items: Seq<serde_json::Value>) -> Seq<Option<Seq<char>>> {
    items.map_values(|it: serde_json::Value| field_text_of(it, "uid"@))
}

/// `m` maps each uid of `items` to a copy of the first entry that has it, in
/// order of first appearance; entries without a uid are left out.
pub open spec fn is_uid_map(m: Seq<(String, serde_json::Value)>, items: Seq<serde_json::Value>) -> bool {
    let index = first_wins(uid_pairs(uid_texts_of(items)));
    &&& m.len() == index.len()
    &&& forall|k: int| 0 <= k < m.len() ==> (#[trigger] m[k]).0@ == index[k].0 && m[k].1 == items[index[k].1 as int]
}

/// What reading a list body `v` gives: its uid map, or a parse error where
/// it is not an array.
pub open spec fn uid_map_read(v: serde_json::Value, r: Result<Vec<(String, serde_json::Value)>, ExportError>) -> bool {
    match json_items_of(v) {
        None => r matches Err(ExportError::Parse(m)) && m@ == not_array_message(),
        Some(items) => match r {
            Ok(m) => is_uid_map(m@, items) && uids_distinct(m@),
            Err(_) => false,
        },
    }
}

/// The (id, name) texts of the entries of an organization list.
pub open spec fn org_entries_of(items: Seq<serde_json::Value>) -> Seq<(Option<Seq<char>>, Option<Seq<char>>)> {
    items.map_values(|it: serde_json::Value| (field_text_of(it, "id"@), field_text_of(it, "name"@)))
}

/// What reading an organization list body `v` gives: a parse error where it
/// is not an array or an entry lacks `id` or `name`, else the first-wins map
/// of sanitized ids to sanitized names.
pub open spec fn orgs_read(v: serde_json::Value, r: Result<Vec<(String, String)>, ExportError>) -> bool {
    match json_items_of(v) {
        None => r matches Err(ExportError::Parse(m)) && m@ == not_array_message(),
        Some(items) => {
            let es = org_entries_of(items);
            match r {
                Ok(m) => (forall|i: int| 0 <= i < es.len() ==> is_complete(#[trigger] es[i]))
                    && m.deep_view() == first_wins(org_pairs(es)) && keys_unique(m.deep_view()),
                Err(e) => (exists|i: int| 0 <= i < es.len() && !is_complete(#[trigger] es[i]))
                    && (e matches ExportError::Parse(m) && m@ == missing_org_field_message()),
            }
        },
    }
}

/// Two objects whose naming fields sanitize alike, saved for organizations
/// whose names sanitize alike, go to the same file: the later write wins.
pub proof fn lemma_alike_names_share_a_file(
    root: Seq<char>,
    kind: Seq<char>,
    org1: Seq<char>,
    org2: Seq<char>,
    folder1: Seq<char>,
    folder2: Seq<char>,
    name1: Seq<char>,
    name2: Seq<char>,
    doc1: serde_json::Value,
    doc2: serde_json::Value,
    t1: SaveTarget,
    t2: SaveTarget,
)
    requires
        sanitized(org1) == sanitized(org2),
        sanitized(folder1) == sanitized(folder2),
        sanitized(name1) == sanitized(name2),
        saved_read(root, sanitized(org1), kind, Some(folder1), Some(name1), doc1, Ok(Some(t1))),
        saved_read(root, sanitized(org2), kind, Some(folder2), Some(name2), doc2, Ok(Some(t2))),
    ensures
        t1.dir@ == t2.dir@,
        t1.file@ == t2.file@,
{
}

/// Every entry of a listing's uid map is a copy of a listed item that has a
/// uid, keyed by that uid without quotes: items without a uid never show up.
pub proof fn lemma_uid_map_entries_have_uid(items: Seq<serde_json::Value>, m: Seq<(String, serde_json::Value)>)
    requires
        items.len() <= usize::MAX,
        is_uid_map(m, items),
    ensures
        forall|k: int| 0 <= k < m.len() ==> exists|j: int| {
            &&& 0 <= j < items.len()
            &&& (#[trigger] m[k]).1 == items[j]
            &&& field_text_of(items[j], "uid"@) is Some
            &&& m[k].0@ == unquoted(field_text_of(items[j], "uid"@)->Some_0)
        },
{
    let us = uid_texts_of(items);
    let pairs = uid_pairs(us);
    lemma_first_wins(pairs);
    lemma_uid_pairs_have_uid(us);
    assert forall|k: int| 0 <= k < m.len() implies exists|j: int| {
        &&& 0 <= j < items.len()
        &&& (#[trigger] m[k]).1 == items[j]
        &&& field_text_of(items[j], "uid"@) is Some
        &&& m[k].0@ == unquoted(field_text_of(items[j], "uid"@)->Some_0)
    } by {
        let e = first_wins(pairs)[k];
        assert(first_wins(pairs).contains(e));
        let w = choose|w: int| is_first(pairs, w) && #[trigger] pairs[w] == e;
        let j = e.1 as int;
        assert(us[j] == field_text_of(items[j], "uid"@));
    }
}

/// The uid index of a list reply, each uid with a copy of its entry; a reply
/// that is not an array cannot be read.
fn objects_by_uid(body: &serde_json::Value) -> (r: Result<Vec<(String, serde_json::Value)>, ExportError>)
    ensures
        uid_map_read(*body, r),
{
    let mut out: Vec<(String, serde_json::Value)> = Vec::new();
    let items = match json_items(body) {
        Some(items) => items,
        None => return Err(not_an_array()),
    };
    let mut uids: Vec<Option<String>> = Vec::new();
    let mut i: usize = 0;
    while i < items.len()
        invariant
            i <= items@.len(),
            uids@.len() == i,
            forall|l: int| 0 <= l < i ==> (#[trigger] uids.deep_view()[l]) == field_text_of(items@[l], "uid"@),
        decreases items@.len() - i,
    {
        let u = field_text(&items[i], "uid");
        assert(u.deep_view() == field_text_of(items@[i as int], "uid"@));
        let ghost prev = uids.deep_view();
        uids.push(u);
        assert forall|l: int| 0 <= l < i + 1 implies (#[trigger] uids.deep_view()[l]) == field_text_of(items@[l], "uid"@) by {
            if l < i {
                assert(uids.deep_view()[l] == prev[l]);
            } else {
                assert(uids.deep_view()[l] == u.deep_view());
            }
        }
        i = i + 1;
    }
    assert(uids.deep_view() =~= uid_texts_of(items@));
    let index = uid_index(&uids);
    let ghost pairs = uid_pairs(uids.deep_view());
    proof {
        lemma_first_wins(pairs);
        lemma_uid_pairs_have_uid(uids.deep_view());
        assert forall|l: int| 0 <= l < index@.len() implies (#[trigger] index@[l]).1 < items@.len() by {
            let e = index.deep_view()[l];
            assert(first_wins(pairs).contains(e));
            let j = choose|j: int| is_first(pairs, j) && #[trigger] pairs[j] == e;
        }
    }
    let mut k: usize = 0;
    while k < index.len()
        invariant
            k <= index@.len(),
            out@.len() == k,
            index.deep_view() == first_wins(pairs),
            pairs == uid_pairs(uid_texts_of(items@)),
            keys_unique(index.deep_view()),
            forall|l: int| 0 <= l < index@.len() ==> (#[trigger] index@[l]).1 < items@.len(),
            forall|l: int| 0 <= l < k ==> (#[trigger] out@[l]).0@ == index.deep_view()[l].0
                && out@[l].1 == items@[index.deep_view()[l].1 as int],
        decreases index@.len() - k,
    {
        let pos = index[k].1;
        out.push((index[k].0.clone(), items[pos].clone()));
        k = k + 1;
    }
    proof {
        assert forall|i: int, j: int| 0 <= i < j < out@.len() implies (#[trigger] out@[i]).0@ != (#[trigger] out@[j]).0@ by {
            assert(index.deep_view()[i].0 != index.deep_view()[j].0);
        }
    }
    Ok(out)
}

impl<'a> ClientInfo<'a> {
    pub fn new(cfg_path: Option<&'a str>, ip: Option<&'a str>, auth_usr: Option<&'a str>, auth_pwd: Option<&'a str>) -> (r: ClientInfo<'a>)
        ensures
            r.cfg_path == cfg_path,
            r.ip == ip,
            r.auth_usr == auth_usr,
            r.auth_pwd == auth_pwd,
    {
        ClientInfo { cfg_path, ip, auth_usr, auth_pwd }
    }

    /// Both a user name and a password are given, neither empty.
    pub open spec fn has_credentials(&self) -> bool {
        &&& self.auth_usr matches Some(u) && u@.len() > 0
        &&& self.auth_pwd matches Some(p) && p@.len() > 0
    }

    /// The export root: the configured path, `export` where none is given.
    pub open spec fn root_view(&self) -> Seq<char> {
        match self.cfg_path {
            Some(p) => p@,
            None => "export"@,
        }
    }

    /// Fails with an authentication error unless both credentials are given
    /// and not empty; this is checked before any request goes out.
    pub fn check_credentials(&self) -> (r: Result<(), ExportError>)
        ensures
            r is Ok <==> self.has_credentials(),
            r matches Err(e) ==> (e matches ExportError::Auth(m) && m@ == missing_credentials_message()),
    {
        let usr_ok = match self.auth_usr {
            Some(u) => u.unicode_len() > 0,
            None => false,
        };
        let pwd_ok = match self.auth_pwd {
            Some(p) => p.unicode_len() > 0,
            None => false,
        };
        if usr_ok && pwd_ok {
            Ok(())
        } else {
            Err(ExportError::Auth(String::from_str("Missing auth credentials")))
        }
    }

    /// The full URL of a request; `None` where no server is configured.
    pub fn endpoint(&self, call: &Call) -> (r: Option<String>)
        ensures
            r is Some <==> self.ip is Some,
            r matches Some(u) ==> u@ == self.ip->Some_0@ + call.path_view(),
    {
        match self.ip {
            Some(host) => {
                let path = call.path();
                Some(String::from_str(host).concat(path.as_str()))
            },
            None => None,
        }
    }

    /// The export root in use.
    pub fn export_root(&self) -> (r: &str)
        ensures
            r@ == self.root_view(),
    {
        match self.cfg_path {
            Some(p) => p,
            None => "export",
        }
    }

    /// Reads the organization list: a map from sanitized id to sanitized
    /// name, the first entry of an id winning. Missing credentials fail
    /// before the reply is looked at; a body that is not an array, or an
    /// entry without `id` or `name`, cannot be read.
    pub fn get_orgs(&self, reply: Result<Reply, String>) -> (r: Result<Vec<(String, String)>, ExportError>)
        ensures
            !self.has_credentials() ==> (r matches Err(ExportError::Auth(m)) && m@ == missing_credentials_message()),
            self.has_credentials() ==> follows_reply(reply, r),
            reply_body(reply) matches Some(v) ==> (self.has_credentials() ==> orgs_read(v, r)),
    {
        match self.check_credentials() {
            Err(e) => return Err(e),
            Ok(()) => {},
        }
        let body = match read_reply(reply) {
            Ok(v) => v,
            Err(e) => return Err(e),
        };
        let items = match json_items(&body) {
            Some(items) => items,
            None => return Err(not_an_array()),
        };
        let mut entries: Vec<OrgEntry> = Vec::new();
        let mut i: usize = 0;
        while i < items.len()
            invariant
                i <= items@.len(),
                entries@.len() == i,
                forall|l: int| 0 <= l < i ==> (#[trigger] entries.deep_view()[l])
                    == (field_text_of(items@[l], "id"@), field_text_of(items@[l], "name"@)),
            decreases items@.len() - i,
        {
            let e = (field_text(&items[i], "id"), field_text(&items[i], "name"));
            assert(e.deep_view() == (field_text_of(items@[i as int], "id"@), field_text_of(items@[i as int], "name"@)));
            let ghost prev = entries.deep_view();
            entries.push(e);
            assert forall|l: int| 0 <= l < i + 1 implies (#[trigger] entries.deep_view()[l])
                == (field_text_of(items@[l], "id"@), field_text_of(items@[l], "name"@)) by {
                if l < i {
                    assert(entries.deep_view()[l] == prev[l]);
                } else {
                    assert(entries.deep_view()[l] == e.deep_view());
                }
            }
            i = i + 1;
        }
        assert(entries.deep_view() =~= org_entries_of(items@));
        let r = orgs_from_entries(&entries);
        proof {
            let es = org_entries_of(items@);
            lemma_first_wins(org_pairs(es));
            assert(json_items_of(body) == Some(items@));
            if r is Ok {
                assert forall|i: int| 0 <= i < es.len() implies is_complete(#[trigger] es[i]) by {
                    assert(entries.deep_view()[i] == es[i]);
                }
            } else {
                let i = choose|i: int| 0 <= i < entries@.len() && !is_complete(#[trigger] entries.deep_view()[i]);
                assert(es[i] == entries.deep_view()[i]);
            }
            assert(orgs_read(body, r));
        }
        r
    }

    /// Reads the answer to switching the current organization: any 200
    /// whose body is JSON is a success, with or without a `message` field.
    pub fn set_org(&self, reply: Result<Reply, String>) -> (r: Result<(), ExportError>)
        ensures
            follows_reply(reply, r),
            reply_body(reply) is Some ==> r is Ok,
    {
        match read_reply(reply) {
            Ok(_) => Ok(()),
            Err(e) => Err(e),
        }
    }

    /// Reads the datasource list: each uid with its first entry; entries
    /// without a uid are left out. A body that is not an array cannot be read.
    pub fn search_datasources(&self, reply: Result<Reply, String>) -> (r: Result<Vec<(String, serde_json::Value)>, ExportError>)
        ensures
            follows_reply(reply, r),
            reply_body(reply) matches Some(v) ==> uid_map_read(v, r),
    {
        match read_reply(reply) {
            Ok(v) => objects_by_uid(&v),
            Err(e) => Err(e),
        }
    }

    /// Reads the dashboard list: each uid with its first entry; entries
    /// without a uid are left out. A body that is not an array cannot be read.
    pub fn search_dashboards(&self, reply: Result<Reply, String>) -> (r: Result<Vec<(String, serde_json::Value)>, ExportError>)
        ensures
            follows_reply(reply, r),
            reply_body(reply) matches Some(v) ==> uid_map_read(v, r),
    {
        match read_reply(reply) {
            Ok(v) => objects_by_uid(&v),
            Err(e) => Err(e),
        }
    }

    /// Reads a fetched datasource and says where it goes:
    /// `{root}/{org_name}/datasources/{type}/{name}.json`. `Ok(None)` where
    /// `type` or `name` is missing: nothing is written then.
    pub fn save_datasources(&self, org_name: &str, reply: Result<Reply, String>) -> (r: Result<Option<SaveTarget>, ExportError>)
        ensures
            follows_reply(reply, r),
            reply_body(reply) matches Some(doc) ==> saved_read(self.root_view(), org_name@, "datasources"@,
                field_text_of(doc, "type"@), field_text_of(doc, "name"@), doc, r),
    {
        let doc = match read_reply(reply) {
            Ok(v) => v,
            Err(e) => return Err(e),
        };
        let folder = field_text(&doc, "type");
        let name = field_text(&doc, "name");
        match target_paths(self.export_root(), org_name, "datasources", folder, name) {
            Some((dir, file)) => Ok(Some(SaveTarget { dir, file, document: doc })),
            None => Ok(None),
        }
    }

    /// Reads a fetched dashboard and says where it goes:
    /// `{root}/{org_name}/dashboards/{meta.folderTitle}/{dashboard.title}.json`.
    /// `Ok(None)` where either field is missing: nothing is written then.
    pub fn save_dashboards(&self, org_name: &str, reply: Result<Reply, String>) -> (r: Result<Option<SaveTarget>, ExportError>)
        ensures
            follows_reply(reply, r),
            reply_body(reply) matches Some(doc) ==> saved_read(self.root_view(), org_name@, "dashboards"@,
                nested_field_text_of(doc, "meta"@, "folderTitle"@), nested_field_text_of(doc, "dashboard"@, "title"@), doc, r),
    {
        let doc = match read_reply(reply) {
            Ok(v) => v,
            Err(e) => return Err(e),
        };
        let folder = nested_field_text(&doc, "meta", "folderTitle");
        let name = nested_field_text(&doc, "dashboard", "title");
        match target_paths(self.export_root(), org_name, "dashboards", folder, name) {
            Some((dir, file)) => Ok(Some(SaveTarget { dir, file, document: doc })),
            None => Ok(None),
        }
    }
}

} // verus!
