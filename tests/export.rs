use grafana_export::{
    failure, orgs_from_entries, read_reply, sanitize_names, strip_quotes, target_paths, uid_index, Action, Call,
    ClientInfo, Event, Export, ExportError, Method, Reply, Stage,
};

fn ok_reply(body: &str) -> Result<Reply, String> {
    Ok(Reply { status: 200, body: body.as_bytes().to_vec() })
}

fn status_reply(status: u16, body: &str) -> Result<Reply, String> {
    Ok(Reply { status, body: body.as_bytes().to_vec() })
}

fn client() -> ClientInfo<'static> {
    ClientInfo::new(Some("export"), Some("http://localhost:3000"), Some("admin"), Some("secret"))
}

fn s(x: &str) -> String {
    x.to_string()
}

#[test]
fn sanitize_removes_every_forbidden_character() {
    assert_eq!(sanitize_names(s("\"Main Org.\"")), "Main Org");
    assert_eq!(sanitize_names(s("a/b\\c(d)e{f}g[h]i,j\"k.l;m:n'o`p!q@r#s$t%u^v&w*x~y")), "abcdefghijklmnopqrstuvwxy");
    assert_eq!(sanitize_names(s("")), "");
    assert_eq!(sanitize_names(s("plain name")), "plain name");
}

#[test]
fn sanitize_is_idempotent_on_examples() {
    for x in ["\"../etc/passwd\"", "Ops: prod (eu)", "~*&^%$#@!", "already clean"] {
        let once = sanitize_names(s(x));
        let twice = sanitize_names(once.clone());
        assert_eq!(once, twice);
        assert!(!once.contains('/') && !once.contains('.') && !once.contains('"'));
    }
}

#[test]
fn strip_quotes_removes_only_quotes() {
    assert_eq!(strip_quotes(s("\"a.b\"")), "a.b");
    assert_eq!(strip_quotes(s("no quotes")), "no quotes");
}

#[test]
fn orgs_keep_the_first_name_of_an_id() {
    let entries = vec![
        (Some(s("1")), Some(s("\"First\""))),
        (Some(s("2")), Some(s("\"Other\""))),
        (Some(s("1")), Some(s("\"Second\""))),
    ];
    let m = orgs_from_entries(&entries).unwrap();
    assert_eq!(m, vec![(s("1"), s("First")), (s("2"), s("Other"))]);
}

#[test]
fn orgs_without_a_field_are_a_parse_error() {
    let entries = vec![(Some(s("1")), Some(s("\"A\""))), (None, Some(s("\"B\"")))];
    match orgs_from_entries(&entries) {
        Err(ExportError::Parse(m)) => assert_eq!(m, "organization without id or name"),
        other => panic!("unexpected {:?}", other),
    }
}

#[test]
fn uid_index_skips_entries_without_uid() {
    let uids = vec![Some(s("\"abc\"")), None, Some(s("\"def\"")), Some(s("\"abc\""))];
    assert_eq!(uid_index(&uids), vec![(s("abc"), 0), (s("def"), 2)]);
    assert_eq!(uid_index(&vec![None, None]), vec![]);
}

#[test]
fn failure_classifies_by_status() {
    assert_eq!(failure(401, Some(s("\"bad\""))), ExportError::Auth(s("bad")));
    assert_eq!(failure(403, None), ExportError::Auth(s("unknown")));
    assert_eq!(failure(500, Some(s("\"boom\""))), ExportError::Server(s("boom")));
    assert_eq!(failure(404, None), ExportError::Server(s("unknown")));
}

#[test]
fn read_reply_maps_each_outcome() {
    assert_eq!(read_reply(Err(s("timed out"))).unwrap_err(), ExportError::Transport(s("timed out")));
    assert_eq!(read_reply(ok_reply("not json")).unwrap_err(), ExportError::Parse(s("Failed to parse json")));
    assert_eq!(read_reply(status_reply(502, "{\"message\":\"bad gateway\"}")).unwrap_err(), ExportError::Server(s("bad gateway")));
    assert_eq!(read_reply(status_reply(502, "<html>")).unwrap_err(), ExportError::Server(s("unknown")));
    assert_eq!(read_reply(ok_reply("{\"a\":1}")).unwrap(), serde_json::from_str::<serde_json::Value>("{\"a\":1}").unwrap());
}

#[test]
fn get_orgs_needs_credentials() {
    let c = ClientInfo::new(Some("export"), Some("http://h"), Some(""), Some("pwd"));
    assert_eq!(c.get_orgs(ok_reply("[]")).unwrap_err(), ExportError::Auth(s("Missing auth credentials")));
    let c = ClientInfo::new(Some("export"), Some("http://h"), Some("usr"), None);
    assert_eq!(c.check_credentials().unwrap_err(), ExportError::Auth(s("Missing auth credentials")));
    assert!(client().check_credentials().is_ok());
}

#[test]
fn get_orgs_unauthorized_carries_the_message() {
    let r = client().get_orgs(status_reply(401, "{\"message\":\"invalid credentials\"}"));
    let e = r.unwrap_err();
    assert_eq!(e, ExportError::Auth(s("invalid credentials")));
    assert_eq!(e.message(), "invalid credentials");
}

#[test]
fn get_orgs_with_duplicate_names_collide_on_disk() {
    let body = "[{\"id\":1,\"name\":\"Main Org.\"},{\"id\":2,\"name\":\"Main Org.\"}]";
    let orgs = client().get_orgs(ok_reply(body)).unwrap();
    assert_eq!(orgs, vec![(s("1"), s("Main Org")), (s("2"), s("Main Org"))]);
    let a = target_paths("export", &orgs[0].1, "datasources", Some(s("\"prometheus\"")), Some(s("\"Prod\""))).unwrap();
    let b = target_paths("export", &orgs[1].1, "datasources", Some(s("\"prometheus\"")), Some(s("\"Prod\""))).unwrap();
    assert_eq!(a, b);
    assert_eq!(a.1, "export/Main Org/datasources/prometheus/Prod.json");
}

#[test]
fn get_orgs_duplicate_ids_keep_first_name() {
    let body = "[{\"id\":1,\"name\":\"A\"},{\"id\":1,\"name\":\"B\"}]";
    assert_eq!(client().get_orgs(ok_reply(body)).unwrap(), vec![(s("1"), s("A"))]);
}

#[test]
fn get_orgs_other_failures() {
    assert_eq!(client().get_orgs(Err(s("refused"))).unwrap_err(), ExportError::Transport(s("refused")));
    assert_eq!(client().get_orgs(ok_reply("{oops")).unwrap_err(), ExportError::Parse(s("Failed to parse json")));
    assert_eq!(client().get_orgs(status_reply(500, "{}")).unwrap_err(), ExportError::Server(s("unknown")));
    assert_eq!(client().get_orgs(ok_reply("{\"id\":1}")).unwrap_err(), ExportError::Parse(s("expected a JSON array")));
    assert_eq!(client().search_datasources(ok_reply("{}")).unwrap_err(), ExportError::Parse(s("expected a JSON array")));
    assert_eq!(client().get_orgs(ok_reply("[]")).unwrap(), vec![]);
}

#[test]
fn set_org_accepts_a_reply_without_message() {
    assert!(client().set_org(ok_reply("{}")).is_ok());
    assert!(client().set_org(ok_reply("{\"message\":\"Active organization changed\"}")).is_ok());
    assert_eq!(client().set_org(status_reply(403, "{\"message\":\"denied\"}")).unwrap_err(), ExportError::Auth(s("denied")));
    assert_eq!(client().set_org(ok_reply("x")).unwrap_err(), ExportError::Parse(s("Failed to parse json")));
}

#[test]
fn search_skips_entries_without_uid() {
    let body = "[{\"uid\":\"a\",\"title\":\"one\"},{\"title\":\"old\"},{\"uid\":\"b\"},{\"uid\":\"a\",\"title\":\"dup\"}]";
    let m = client().search_dashboards(ok_reply(body)).unwrap();
    let keys: Vec<&str> = m.iter().map(|p| p.0.as_str()).collect();
    assert_eq!(keys, vec!["a", "b"]);
    assert_eq!(m[0].1["title"], "one");
    let d = client().search_datasources(ok_reply("[{\"name\":\"x\"}]")).unwrap();
    assert!(d.is_empty());
}

#[test]
fn save_datasource_goes_under_its_type() {
    let body = "{\"uid\":\"abc\",\"type\":\"prometheus\",\"name\":\"Prod\"}";
    let t = client().save_datasources("Main Org", ok_reply(body)).unwrap().unwrap();
    assert_eq!(t.dir, "export/Main Org/datasources/prometheus");
    assert_eq!(t.file, "export/Main Org/datasources/prometheus/Prod.json");
    assert_eq!(t.document, serde_json::from_str::<serde_json::Value>(body).unwrap());
}

#[test]
fn save_dashboard_goes_under_its_folder() {
    let body = "{\"meta\":{\"folderTitle\":\"Team: Ops\"},\"dashboard\":{\"title\":\"CPU / Load\"}}";
    let c = ClientInfo::new(None, Some("http://h"), Some("u"), Some("p"));
    let t = c.save_dashboards("Org", ok_reply(body)).unwrap().unwrap();
    assert_eq!(t.file, "export/Org/dashboards/Team Ops/CPU  Load.json");
}

#[test]
fn save_without_naming_fields_writes_nothing() {
    assert!(client().save_datasources("O", ok_reply("{\"type\":\"loki\"}")).unwrap().is_none());
    assert!(client().save_dashboards("O", ok_reply("{\"meta\":{},\"dashboard\":{\"title\":\"t\"}}")).unwrap().is_none());
    assert!(client().save_dashboards("O", ok_reply("{\"meta\":{\"folderTitle\":\"f\"}}")).unwrap().is_none());
    assert_eq!(client().save_datasources("O", Err(s("reset"))).unwrap_err(), ExportError::Transport(s("reset")));
}

#[test]
fn target_paths_needs_both_fields() {
    assert!(target_paths("r", "o", "k", None, Some(s("n"))).is_none());
    assert_eq!(target_paths("r", "o", "k", Some(s("\"f\"")), Some(s("\"n.x\""))).unwrap(), (s("r/o/k/f"), s("r/o/k/f/nx.json")));
}

#[test]
fn endpoints_follow_the_api() {
    let c = client();
    assert_eq!(c.endpoint(&Call::ListOrgs).unwrap(), "http://localhost:3000/api/orgs");
    assert_eq!(c.endpoint(&Call::SwitchOrg(s("2"))).unwrap(), "http://localhost:3000/api/user/using/2");
    assert_eq!(c.endpoint(&Call::ListDashboards).unwrap(), "http://localhost:3000/api/search?type=dash-db");
    assert_eq!(c.endpoint(&Call::GetDatasource(s("abc"))).unwrap(), "http://localhost:3000/api/datasources/uid/abc");
    assert_eq!(c.endpoint(&Call::GetDashboard(s("d1"))).unwrap(), "http://localhost:3000/api/dashboards/uid/d1");
    assert_eq!(c.endpoint(&Call::ListDatasources).unwrap(), "http://localhost:3000/api/datasources");
    assert_eq!(Call::SwitchOrg(s("1")).method(), Method::Post);
    assert_eq!(Call::ListOrgs.method(), Method::Get);
    assert!(Call::ListOrgs.short_timeout() && !Call::GetDashboard(s("x")).short_timeout());
    assert!(ClientInfo::new(None, None, None, None).endpoint(&Call::ListOrgs).is_none());
    assert_eq!(ClientInfo::new(None, None, None, None).export_root(), "export");
}

fn is_save_ds(a: &Action, org: &str, uid: &str) -> bool {
    matches!(a, Action::SaveDatasource { org_name, uid: u } if org_name == org && u == uid)
}

#[test]
fn failed_listing_of_one_org_does_not_stop_the_next() {
    let mut e = Export::start(vec![(s("1"), s("A")), (s("2"), s("B"))]);
    assert!(matches!(e.action(), Action::SwitchOrg(ref id) if id == "1"));
    e.step(Event::Done);
    assert!(matches!(e.action(), Action::ListDatasources));
    e.step(Event::Failed(ExportError::Transport(s("timeout"))));
    assert!(matches!(e.action(), Action::ListDashboards));
    e.step(Event::Listed(vec![]));
    assert!(matches!(e.action(), Action::SwitchOrg(ref id) if id == "2"));
    e.step(Event::Done);
    e.step(Event::Listed(vec![s("ds1")]));
    assert!(is_save_ds(&e.action(), "B", "ds1"));
    e.step(Event::Done);
    assert!(matches!(e.action(), Action::ListDashboards));
    e.step(Event::Listed(vec![s("d1"), s("d2")]));
    assert!(matches!(e.action(), Action::SaveDashboard { ref org_name, ref uid } if org_name == "B" && uid == "d1"));
    e.step(Event::Done);
    assert!(matches!(e.action(), Action::SaveDashboard { ref uid, .. } if uid == "d2"));
    e.step(Event::Done);
    assert_eq!(e.stage, Stage::Finished);
    assert!(matches!(e.action(), Action::Finish));
}

#[test]
fn failed_save_aborts_the_run() {
    let mut e = Export::start(vec![(s("1"), s("A")), (s("2"), s("B"))]);
    e.step(Event::Done);
    e.step(Event::Listed(vec![s("x"), s("y")]));
    e.step(Event::Failed(ExportError::Server(s("gone"))));
    assert_eq!(e.stage, Stage::Aborted);
    assert!(matches!(e.action(), Action::Abort));
    assert_eq!(e.failure, Some(ExportError::Server(s("gone"))));
    e.step(Event::Done);
    assert_eq!(e.stage, Stage::Aborted);
}

#[test]
fn failed_switch_skips_the_org() {
    let mut e = Export::start(vec![(s("1"), s("A"))]);
    e.step(Event::Failed(ExportError::Auth(s("no"))));
    assert_eq!(e.stage, Stage::Finished);
    let e = Export::start(vec![]);
    assert_eq!(e.stage, Stage::Finished);
}

#[test]
fn written_document_reads_back_equal() {
    let body = "{\"uid\":\"abc\",\"type\":\"prometheus\",\"name\":\"Prod\",\"jsonData\":{\"a\":[1,2.5,null,true]}}";
    let t = client().save_datasources("O", ok_reply(body)).unwrap().unwrap();
    let text = serde_json::to_string_pretty(&t.document).unwrap();
    let back: serde_json::Value = serde_json::from_str(&text).unwrap();
    assert_eq!(back, t.document);
}
