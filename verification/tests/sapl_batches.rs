use oopsla2024_benchmarks::entity::{attr, AttrValue, EntityData, EntityUid, RequestData};
use oopsla2024_benchmarks::json::{JsonObject, JsonValue};
use oopsla2024_benchmarks::sapl_engine::{
    reports_from_outputs, Decision, SaplEngine, SaplTestOutput, SingleExecutionReport,
};
use oopsla2024_benchmarks::sapl_requests::{
    build_entity_graph, default_algorithm, gdrive, github, sapl_action, sapl_uid,
    sapl_uid_from_pv, tinytodo, SaplBatch,
};

fn uid(ty: &str, id: &str) -> EntityUid {
    EntityUid { entity_type: ty.to_string(), eid: id.to_string() }
}

fn s(t: &str) -> JsonValue {
    JsonValue::Str(t.to_string())
}

fn obj(pairs: Vec<(&str, JsonValue)>) -> JsonValue {
    let mut o = JsonObject::new();
    for (k, v) in pairs {
        o.insert(k.to_string(), v);
    }
    JsonValue::Object(o)
}

fn parent(ty: &str, id: &str) -> JsonValue {
    obj(vec![("type", s(ty)), ("id", s(id))])
}

fn entity(ty: &str, id: &str, attrs: Vec<(&str, AttrValue)>, parents: Vec<JsonValue>) -> EntityData {
    let json = obj(vec![
        ("uid", parent(ty, id)),
        ("attrs", obj(vec![])),
        ("parents", JsonValue::Array(parents)),
    ]);
    EntityData {
        uid: uid(ty, id),
        attrs: attrs.into_iter().map(|(k, v)| (k.to_string(), v)).collect(),
        json,
    }
}

fn request(p: EntityUid, a: &str, r: EntityUid) -> RequestData {
    RequestData { principal: Some(p), action: Some(uid("Action", a)), resource: Some(r) }
}

fn get<'a>(v: &'a JsonValue, key: &str) -> &'a JsonValue {
    v.get(key).unwrap_or_else(|| panic!("missing key {key}"))
}

fn strs(v: &JsonValue) -> Vec<String> {
    v.as_array().unwrap().iter().map(|x| x.as_str().unwrap().clone()).collect()
}

fn subscriptions(batch: &SaplBatch) -> Vec<(String, String, String)> {
    batch
        .subscriptions
        .iter()
        .map(|sub| {
            (
                sub.subject.as_str().unwrap().clone(),
                sub.action.as_str().unwrap().clone(),
                sub.resource.as_str().unwrap().clone(),
            )
        })
        .collect()
}

#[test]
fn sapl_uid_drops_the_quotes() {
    assert_eq!(sapl_uid(&uid("User", "user_0")), "User::user_0");
    assert_eq!(sapl_uid(&uid("Repository", "repo 1")), "Repository::repo 1");
}

#[test]
fn sapl_uid_escapes_the_id() {
    assert_eq!(sapl_uid(&uid("User", "a\"b")), "User::a\\\"b");
    assert_eq!(sapl_uid(&uid("User", "line\nbreak")), "User::line\\nbreak");
}

#[test]
fn sapl_uid_from_pv_reads_the_entity() {
    let pv = AttrValue::Entity(uid("Team", "t1"));
    assert_eq!(sapl_uid_from_pv(&pv), "Team::t1");
}

#[test]
fn sapl_action_is_the_bare_name() {
    let r = request(uid("User", "u"), "read", uid("Repository", "r"));
    assert_eq!(sapl_action(&r), "read");
    let r = request(uid("User", "u"), "say \"hi\"", uid("Repository", "r"));
    assert_eq!(sapl_action(&r), "say \\\"hi\\\"");
}

#[test]
fn default_algorithm_is_deny_overrides() {
    let a = default_algorithm();
    assert_eq!(get(&a, "votingMode").as_str().unwrap(), "PRIORITY_DENY");
    assert_eq!(get(&a, "defaultDecision").as_str().unwrap(), "DENY");
    assert_eq!(get(&a, "errorHandling").as_str().unwrap(), "PROPAGATE");
    assert!(a.get("other").is_none());
}

#[test]
fn attribute_lookup_takes_the_last_occurrence() {
    let attrs = vec![
        ("owner".to_string(), AttrValue::Bool(true)),
        ("owner".to_string(), AttrValue::Bool(false)),
    ];
    assert_eq!(attr(&attrs, "owner"), Some(&AttrValue::Bool(false)));
    assert_eq!(attr(&attrs, "missing"), None);
}

#[test]
fn entity_graph_lists_raw_parents() {
    let es = vec![
        entity("User", "alice", vec![], vec![parent("Team", "t\"1"), parent("Org", "o")]),
        entity(
            "Team",
            "t\"1",
            vec![],
            vec![obj(vec![("type", s("Org"))]), obj(vec![("type", s("Org")), ("id", JsonValue::Bool(true))])],
        ),
    ];
    let g = build_entity_graph(&es);
    assert_eq!(strs(get(&g, "User::alice")), vec!["Team::t\"1", "Org::o"]);
    assert_eq!(strs(get(&g, "Team::t\\\"1")), Vec::<String>::new());
    assert!(g.get("Org::o").is_none());
}

#[test]
fn entity_graph_without_parents_field_is_empty() {
    let e = EntityData { uid: uid("User", "bob"), attrs: vec![], json: obj(vec![]) };
    let g = build_entity_graph(&vec![e]);
    assert_eq!(strs(get(&g, "User::bob")), Vec::<String>::new());
}

#[test]
fn github_batch_has_repos_and_orgs() {
    let es = vec![
        entity(
            "Repository",
            "r",
            vec![
                ("readers", AttrValue::Entity(uid("UserGroup", "r_readers"))),
                ("owner", AttrValue::Entity(uid("User", "o"))),
                ("name", AttrValue::Other),
            ],
            vec![],
        ),
        entity("Organization", "org", vec![("admins", AttrValue::Entity(uid("UserGroup", "a")))], vec![]),
        entity("User", "u", vec![], vec![parent("UserGroup", "r_readers")]),
    ];
    let rs = vec![request(uid("User", "u"), "pull", uid("Repository", "r"))];
    let b = github::build_batch(&es, &rs);
    assert_eq!(b.app, "github");
    let repo = get(get(&b.variables, "repos"), "Repository::r");
    assert_eq!(get(repo, "readers").as_str().unwrap(), "UserGroup::r_readers");
    assert_eq!(get(repo, "owner").as_str().unwrap(), "User::o");
    assert!(repo.get("writers").is_none());
    let org = get(get(&b.variables, "orgs"), "Organization::org");
    assert_eq!(get(org, "admins").as_str().unwrap(), "UserGroup::a");
    assert!(get(&b.variables, "repos").get("User::u").is_none());
    assert_eq!(strs(get(get(&b.variables, "entityGraph"), "User::u")), vec!["UserGroup::r_readers"]);
    assert_eq!(b.algorithm, default_algorithm());
    assert_eq!(
        subscriptions(&b),
        vec![("User::u".to_string(), "pull".to_string(), "Repository::r".to_string())]
    );
}

#[test]
fn gdrive_batch_defaults() {
    let es = vec![
        entity(
            "User",
            "u",
            vec![
                ("documentsAndFoldersWithViewAccess", AttrValue::Entity(uid("View", "v"))),
                ("ownedDocuments", AttrValue::EntitySet(vec![uid("Document", "d1"), uid("Document", "d2")])),
            ],
            vec![],
        ),
        entity("User", "w", vec![], vec![]),
        entity("Document", "d1", vec![("isPublic", AttrValue::Bool(true))], vec![]),
        entity("Document", "d2", vec![], vec![]),
    ];
    let rs = vec![request(uid("User", "u"), "viewDocument", uid("Document", "d1"))];
    let b = gdrive::build_batch(&es, &rs);
    assert_eq!(b.app, "gdrive");
    let users = get(&b.variables, "users");
    let u = get(users, "User::u");
    assert_eq!(get(u, "documentsAndFoldersWithViewAccess").as_str().unwrap(), "View::v");
    assert_eq!(strs(get(u, "ownedDocuments")), vec!["Document::d1", "Document::d2"]);
    assert_eq!(strs(get(u, "ownedFolders")), Vec::<String>::new());
    let w = get(users, "User::w");
    assert!(w.get("documentsAndFoldersWithViewAccess").is_none());
    assert_eq!(strs(get(w, "ownedDocuments")), Vec::<String>::new());
    let docs = get(&b.variables, "docs");
    assert_eq!(get(get(docs, "Document::d1"), "isPublic"), &JsonValue::Bool(true));
    assert_eq!(get(get(docs, "Document::d2"), "isPublic"), &JsonValue::Bool(false));
    assert_eq!(subscriptions(&b).len(), 1);
}

#[test]
fn tinytodo_batch_has_lists() {
    let es = vec![
        entity(
            "List",
            "l",
            vec![
                ("owner", AttrValue::Entity(uid("User", "o"))),
                ("editors", AttrValue::Entity(uid("Team", "e"))),
            ],
            vec![parent("Application", "TinyTodo")],
        ),
        entity("Application", "TinyTodo", vec![], vec![]),
    ];
    let rs = vec![
        request(uid("User", "o"), "GetList", uid("List", "l")),
        request(uid("User", "o"), "CreateList", uid("Application", "TinyTodo")),
    ];
    let b = tinytodo::build_batch(&es, &rs);
    assert_eq!(b.app, "tinytodo");
    let l = get(get(&b.variables, "lists"), "List::l");
    assert_eq!(get(l, "owner").as_str().unwrap(), "User::o");
    assert_eq!(get(l, "editors").as_str().unwrap(), "Team::e");
    assert!(l.get("readers").is_none());
    assert_eq!(
        subscriptions(&b)[1],
        ("User::o".to_string(), "CreateList".to_string(), "Application::TinyTodo".to_string())
    );
}

#[test]
fn engine_batch_dispatches_by_app_name() {
    let es = vec![entity("List", "l", vec![], vec![])];
    let rs = vec![request(uid("User", "o"), "GetList", uid("List", "l"))];
    let e = SaplEngine::new("github-templates", vec![]);
    assert_eq!(e.batch(&rs).unwrap().app, "github");
    let e = SaplEngine::new("gdrive-templates", vec![]);
    assert_eq!(e.batch(&rs).unwrap().app, "gdrive");
    let e = SaplEngine::new("tinytodo", es);
    let b = e.batch(&rs).unwrap();
    assert_eq!(b.app, "tinytodo");
    assert!(get(&b.variables, "lists").get("List::l").is_some());
    let e = SaplEngine::new("photoflash", vec![]);
    assert!(e.batch(&rs).is_none());
}

#[test]
fn reports_follow_the_outputs() {
    let outs = vec![
        SaplTestOutput { decision: true, dur_nanoseconds: 1500 },
        SaplTestOutput { decision: false, dur_nanoseconds: 7 },
    ];
    let reports = reports_from_outputs(outs);
    assert_eq!(
        reports,
        vec![
            SingleExecutionReport { dur_nanos: 1500, decision: Decision::Allow, errors: vec![], context_attrs: 0 },
            SingleExecutionReport { dur_nanos: 7, decision: Decision::Deny, errors: vec![], context_attrs: 0 },
        ]
    );
    let r = SingleExecutionReport::from_output(SaplTestOutput { decision: false, dur_nanoseconds: 0 });
    assert_eq!(r.decision, Decision::Deny);
}

#[test]
fn object_read_after_write() {
    let mut o = JsonObject::new();
    o.insert("a".to_string(), JsonValue::Bool(true));
    o.insert("b".to_string(), JsonValue::Null);
    o.insert("a".to_string(), JsonValue::Bool(false));
    assert_eq!(o.get("a"), Some(&JsonValue::Bool(false)));
    assert_eq!(o.get("b"), Some(&JsonValue::Null));
    assert_eq!(o.get("c"), None);
    assert_eq!(o.entries().len(), 2);
    assert_eq!(o.entries()[0].0, "a");
}

#[test]
fn batch_inputs_are_checked() {
    let good = vec![entity("Document", "d", vec![("isPublic", AttrValue::Bool(false))], vec![])];
    let bad = vec![entity("Document", "d", vec![("isPublic", AttrValue::Entity(uid("User", "u")))], vec![])];
    let complete = vec![request(uid("User", "u"), "viewDocument", uid("Document", "d"))];
    let incomplete = vec![RequestData { principal: None, action: Some(uid("Action", "a")), resource: None }];
    assert!(SaplEngine::new("gdrive", good).batch_inputs_ok(&complete));
    let bad_engine = SaplEngine::new("gdrive", bad);
    assert!(!bad_engine.batch_inputs_ok(&complete));
    assert!(!SaplEngine::new("tinytodo", vec![]).batch_inputs_ok(&incomplete));
    assert!(SaplEngine::new("photoflash", vec![]).batch_inputs_ok(&incomplete));
    let repo = entity("Repository", "r", vec![("owner", AttrValue::Bool(true))], vec![]);
    assert!(!github::is_readable(&repo));
    let user = entity("User", "u", vec![("owner", AttrValue::Bool(true))], vec![]);
    assert!(github::is_readable(&user));
    let list = entity("List", "l", vec![("editors", AttrValue::EntitySet(vec![]))], vec![]);
    assert!(!tinytodo::is_readable(&list));
    let u = entity("User", "u", vec![("ownedFolders", AttrValue::Entity(uid("Folder", "f")))], vec![]);
    assert!(!gdrive::is_readable(&u));
}

#[test]
fn sapl_uid_preserves_identity() {
    let a = sapl_uid(&uid("User", "a\"b"));
    let b = sapl_uid(&uid("User", "a\\\"b"));
    assert_ne!(a, b);
    assert_ne!(sapl_uid(&uid("User", "x")), sapl_uid(&uid("User", "y")));
    assert_eq!(sapl_uid(&uid("User", "plain id-1")), "User::plain id-1");
}

#[test]
fn plain_parents_are_graph_keys() {
    let es = vec![
        entity("User", "alice", vec![], vec![parent("Team", "t-1")]),
        entity("Team", "t-1", vec![], vec![]),
    ];
    let g = build_entity_graph(&es);
    let listed = strs(get(&g, "User::alice"));
    assert_eq!(listed, vec!["Team::t-1"]);
    assert!(g.get(&listed[0]).is_some());
}
