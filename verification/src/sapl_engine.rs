//! The SAPL engine adapter: which batch an application gets, and the
//! execution reports made from SAPL's answers.
use vstd::prelude::*;

use crate::entity::{attr_of, AttrValue, EntityData, EntityUid, RequestData};
use crate::json::{json_get, Json};
use crate::sapl_requests::gdrive::{self, gdrive_batch};
use crate::sapl_requests::github::{self, github_batch};
use crate::sapl_requests::tinytodo::{self, tinytodo_batch};
use crate::sapl_requests::gdrive::{docs, users};
use crate::sapl_requests::github::{orgs, repos};
use crate::sapl_requests::tinytodo::lists;
use crate::sapl_requests::{
    entity_graph, is_complete, law_graph_covers_entities, law_graph_lists_parents,
    law_parents_in_order, law_record_of_entity, law_records_cover_type, records_of_type,
    request_complete, subscription_json, subscriptions_json, uid_text, SaplBatch,
};

verus! {

/// An authorization decision.
#[derive(Clone, Copy, Debug, PartialEq, Eq, Structural)]
pub enum Decision {
    Allow,
    Deny,
}

/// One answer of the SAPL process: the decision (true for permit) and the
/// evaluation time in nanoseconds.
#[derive(Debug, Clone, Copy, PartialEq, Eq)]
pub struct SaplTestOutput {
    pub decision: bool,
    pub dur_nanoseconds: u64,
}

/// The report of one request's execution.
#[derive(Debug, PartialEq, Eq)]
pub struct SingleExecutionReport {
    /// The evaluation time in nanoseconds.
    pub dur_nanos: u64,
    pub decision: Decision,
    pub errors: Vec<String>,
    pub context_attrs: usize,
}

impl SingleExecutionReport {
    /// The report for one SAPL answer: its time, `Allow` for a permit and
    /// `Deny` otherwise, no errors and no context attributes.
    pub fn from_output(val: SaplTestOutput) -> (r: SingleExecutionReport)
        ensures
            r.dur_nanos == val.dur_nanoseconds,
            r.decision == (if val.decision {
                Decision::Allow
            } else {
                Decision::Deny
            }),
            r.errors@.len() == 0,
            r.context_attrs == 0,
    {
        let decision = if val.decision {
            Decision::Allow
        } else {
            Decision::Deny
        };
        SingleExecutionReport {
            dur_nanos: val.dur_nanoseconds,
            decision,
            errors: Vec::new(),
            context_attrs: 0,
        }
    }
}

/// The decision that a SAPL answer reports.
pub open spec fn output_decision(val: SaplTestOutput) -> Decision {
    if val.decision {
        Decision::Allow
    } else {
        Decision::Deny
    }
}

/// The reports for SAPL's answers, one per answer, in order.
pub fn reports_from_outputs(outputs: Vec<SaplTestOutput>) -> (r: Vec<SingleExecutionReport>)
    ensures
        r.len() == outputs.len(),
        forall|i: int|
            0 <= i < r.len() ==> {
                &&& (#[trigger] r@[i]).dur_nanos == outputs@[i].dur_nanoseconds
                &&& r@[i].decision == output_decision(outputs@[i])
                &&& r@[i].errors@.len() == 0
                &&& r@[i].context_attrs == 0
            },
{
    let mut out: Vec<SingleExecutionReport> = Vec::new();
    let mut i: usize = 0;
    while i < outputs.len()
        invariant
            i <= outputs.len(),
            out.len() == i,
            forall|j: int|
                0 <= j < i ==> {
                    &&& (#[trigger] out@[j]).dur_nanos == outputs@[j].dur_nanoseconds
                    &&& out@[j].decision == output_decision(outputs@[j])
                    &&& out@[j].errors@.len() == 0
                    &&& out@[j].context_attrs == 0
                },
        decreases outputs.len() - i,
    {
        let o = SaplTestOutput {
            decision: outputs[i].decision,
            dur_nanoseconds: outputs[i].dur_nanoseconds,
        };
        out.push(SingleExecutionReport::from_output(o));
        i = i + 1;
    }
    out
}

/// The batch that application `app` gets: GitHub's for `github` and
/// `github-templates`, GDrive's for `gdrive` and `gdrive-templates`,
/// TinyTodo's for `tinytodo`, and none for any other application.
pub open spec fn batch_for(app: Seq<char>, es: Seq<EntityData>, rs: Seq<RequestData>) -> Option<
    Json,
> {
    if app == "github"@ || app == "github-templates"@ {
        Some(github_batch(es, rs))
    } else if app == "gdrive"@ || app == "gdrive-templates"@ {
        Some(gdrive_batch(es, rs))
    } else if app == "tinytodo"@ {
        Some(tinytodo_batch(es, rs))
    } else {
        None
    }
}

/// The templates encodings of GitHub and GDrive get the same batch as the
/// plain encodings; applications without a SAPL encoding get none.
pub proof fn law_templates_share_batch(es: Seq<EntityData>, rs: Seq<RequestData>, app: Seq<char>)
    ensures
        batch_for("github-templates"@, es, rs) == batch_for("github"@, es, rs),
        batch_for("gdrive-templates"@, es, rs) == batch_for("gdrive"@, es, rs),
        json_get(batch_for("github-templates"@, es, rs).unwrap(), "app"@) == Some(
            Json::Str("github"@),
        ),
        json_get(batch_for("gdrive-templates"@, es, rs).unwrap(), "app"@) == Some(
            Json::Str("gdrive"@),
        ),
        batch_for(app, es, rs) is None <==> (app != "github"@ && app != "github-templates"@
            && app != "gdrive"@ && app != "gdrive-templates"@ && app != "tinytodo"@),
{
    reveal_strlit("github");
    reveal_strlit("github-templates");
    reveal_strlit("gdrive");
    reveal_strlit("gdrive-templates");
    assert("gdrive-templates"@.len() != "github"@.len());
    assert("gdrive-templates"@[1] != "github-templates"@[1]);
    assert("gdrive"@[1] != "github"@[1]);
    assert("gdrive"@.len() != "github-templates"@.len());
    reveal_strlit("app");
    reveal_strlit("variables");
    reveal_strlit("algorithm");
    reveal_strlit("subscriptions");
    assert("app"@.len() != "variables"@.len());
    assert("app"@.len() != "algorithm"@.len());
    assert("app"@.len() != "subscriptions"@.len());
}

/// Application `app` has a SAPL encoding.
pub open spec fn has_sapl_encoding(app: Seq<char>) -> bool {
    app == "github"@ || app == "github-templates"@ || app == "gdrive"@ || app
        == "gdrive-templates"@ || app == "tinytodo"@
}

/// Every batch holds one subscription per request, in request order, each
/// made from its request's principal, action and resource alone: the
/// subscriptions do not depend on the entities.
pub proof fn law_subscriptions_follow_requests(
    app: Seq<char>,
    es1: Seq<EntityData>,
    es2: Seq<EntityData>,
    rs: Seq<RequestData>,
)
    requires
        has_sapl_encoding(app),
    ensures
        batch_for(app, es1, rs) is Some,
        json_get(batch_for(app, es1, rs).unwrap(), "subscriptions"@) == Some(
            Json::Array(subscriptions_json(rs)),
        ),
        json_get(batch_for(app, es1, rs).unwrap(), "subscriptions"@) == json_get(
            batch_for(app, es2, rs).unwrap(),
            "subscriptions"@,
        ),
        subscriptions_json(rs).len() == rs.len(),
        forall|i: int|
            0 <= i < rs.len() ==> #[trigger] subscriptions_json(rs)[i] == subscription_json(rs[i]),
{
}

/// The variable `variable` of a batch.
pub open spec fn batch_variable(batch: Json, variable: Seq<char>) -> Option<Json> {
    match json_get(batch, "variables"@) {
        Some(vars) => json_get(vars, variable),
        None => None,
    }
}

/// The entry for `key` of the variable `variable` of a batch.
pub open spec fn batch_entry(batch: Json, variable: Seq<char>, key: Seq<char>) -> Option<Json> {
    match batch_variable(batch, variable) {
        Some(v) => json_get(v, key),
        None => None,
    }
}

/// Application `app` is GitHub, in either encoding.
pub open spec fn is_github(app: Seq<char>) -> bool {
    app == "github"@ || app == "github-templates"@
}

/// Application `app` is GDrive, in either encoding.
pub open spec fn is_gdrive(app: Seq<char>) -> bool {
    app == "gdrive"@ || app == "gdrive-templates"@
}

pub(crate) proof fn lemma_batch_variables(app: Seq<char>, es: Seq<EntityData>, rs: Seq<RequestData>)
    requires
        has_sapl_encoding(app),
    ensures
        batch_for(app, es, rs) is Some,
        batch_variable(batch_for(app, es, rs).unwrap(), "entityGraph"@) == Some(
            Json::Object(entity_graph(es)),
        ),
        is_github(app) ==> batch_variable(batch_for(app, es, rs).unwrap(), "repos"@) == Some(
            Json::Object(repos(es)),
        ),
        is_github(app) ==> batch_variable(batch_for(app, es, rs).unwrap(), "orgs"@) == Some(
            Json::Object(orgs(es)),
        ),
        is_gdrive(app) ==> batch_variable(batch_for(app, es, rs).unwrap(), "users"@) == Some(
            Json::Object(users(es)),
        ),
        is_gdrive(app) ==> batch_variable(batch_for(app, es, rs).unwrap(), "docs"@) == Some(
            Json::Object(docs(es)),
        ),
        app == "tinytodo"@ ==> batch_variable(batch_for(app, es, rs).unwrap(), "lists"@) == Some(
            Json::Object(lists(es)),
        ),
{
    reveal_strlit("github");
    reveal_strlit("github-templates");
    reveal_strlit("gdrive");
    reveal_strlit("gdrive-templates");
    reveal_strlit("tinytodo");
    reveal_strlit("app");
    reveal_strlit("variables");
    reveal_strlit("algorithm");
    reveal_strlit("subscriptions");
    reveal_strlit("entityGraph");
    reveal_strlit("repos");
    reveal_strlit("orgs");
    reveal_strlit("users");
    reveal_strlit("docs");
    reveal_strlit("lists");
    assert("gdrive"@[1] != "github"@[1]);
    assert("gdrive-templates"@[1] != "github-templates"@[1]);
    assert("variables"@[0] != "algorithm"@[0]);
    assert("entityGraph"@.len() == 11);
    assert("tinytodo"@.len() == 8 && "github"@.len() == 6 && "gdrive"@.len() == 6);
    assert("github-templates"@.len() == 16 && "gdrive-templates"@.len() == 16);
    assert("users"@.len() == 5 && "docs"@.len() == 4 && "lists"@.len() == 5);
    assert("repos"@.len() == 5 && "orgs"@.len() == 4);
    assert("entityGraph"@ != "users"@ && "entityGraph"@ != "docs"@ && "entityGraph"@ != "lists"@);
    let g = Json::Object(entity_graph(es));
    if is_github(app) {
        let vars = Map::empty().insert("entityGraph"@, g).insert("repos"@, Json::Object(repos(es))).insert(
            "orgs"@,
            Json::Object(orgs(es)),
        );
        assert(batch_for(app, es, rs) == Some(github_batch(es, rs)));
        assert(json_get(github_batch(es, rs), "variables"@) == Some(Json::Object(vars)));
        assert(json_get(Json::Object(vars), "entityGraph"@) == Some(g));
    } else if is_gdrive(app) {
        let vars = Map::empty().insert("entityGraph"@, g).insert("users"@, Json::Object(users(es))).insert(
            "docs"@,
            Json::Object(docs(es)),
        );
        assert(batch_for(app, es, rs) == Some(gdrive_batch(es, rs)));
        assert(json_get(gdrive_batch(es, rs), "variables"@) == Some(Json::Object(vars)));
        assert(json_get(Json::Object(vars), "entityGraph"@) == Some(g));
    } else {
        let vars = Map::empty().insert("entityGraph"@, g).insert("lists"@, Json::Object(lists(es)));
        assert(batch_for(app, es, rs) == Some(tinytodo_batch(es, rs)));
        assert(json_get(tinytodo_batch(es, rs), "variables"@) == Some(Json::Object(vars)));
        assert(json_get(Json::Object(vars), "entityGraph"@) == Some(g));
        assert(json_get(Json::Object(vars), "lists"@) == Some(Json::Object(lists(es))));
    }
}

/// The entities have the attribute kinds that the batch of application `app` reads.
pub open spec fn readable_for(app: Seq<char>, es: Seq<EntityData>) -> bool {
    if app == "github"@ || app == "github-templates"@ {
        forall|i: int| 0 <= i < es.len() ==> github::readable(#[trigger] es[i])
    } else if app == "gdrive"@ || app == "gdrive-templates"@ {
        forall|i: int| 0 <= i < es.len() ==> gdrive::readable(#[trigger] es[i])
    } else if app == "tinytodo"@ {
        forall|i: int| 0 <= i < es.len() ==> tinytodo::readable(#[trigger] es[i])
    } else {
        true
    }
}

/// The SAPL engine adapter: the application's name and the entities of one
/// hierarchy.
#[derive(Debug)]
pub struct SaplEngine {
    pub app_name: String,
    pub entities: Vec<EntityData>,
}

impl SaplEngine {
    /// An engine for the application named `app_name` over `entities`.
    pub fn new(app_name: &str, entities: Vec<EntityData>) -> (r: SaplEngine)
        ensures
            r.app_name@ == app_name@,
            r.entities@ == entities@,
    {
        SaplEngine { app_name: String::from_str(app_name), entities }
    }

    /// Whether the entities and `requests` meet what `batch` requires: the
    /// attributes that the application's batch reads have the kinds it reads
    /// them as, and every request names its principal, action and resource.
    pub fn batch_inputs_ok(&self, requests: &Vec<RequestData>) -> (r: bool)
        ensures
            r == (readable_for(self.app_name@, self.entities@) && (has_sapl_encoding(
                self.app_name@,
            ) ==> forall|i: int| 0 <= i < requests.len() ==> request_complete(#[trigger] requests@[i]))),
    {
        let github = self.app_name == String::from_str("github") || self.app_name
            == String::from_str("github-templates");
        let gdrive = !github && (self.app_name == String::from_str("gdrive") || self.app_name
            == String::from_str("gdrive-templates"));
        let tinytodo = !github && !gdrive && self.app_name == String::from_str("tinytodo");
        if !(github || gdrive || tinytodo) {
            return true;
        }
        let mut i: usize = 0;
        assert(has_sapl_encoding(self.app_name@));
        while i < requests.len()
            invariant
                i <= requests.len(),
                has_sapl_encoding(self.app_name@),
                forall|j: int| 0 <= j < i ==> request_complete(#[trigger] requests@[j]),
            decreases requests.len() - i,
        {
            if !is_complete(&requests[i]) {
                return false;
            }
            i = i + 1;
        }
        let mut k: usize = 0;
        while k < self.entities.len()
            invariant
                k <= self.entities.len(),
                github == (self.app_name@ == "github"@ || self.app_name@ == "github-templates"@),
                gdrive == (!github && (self.app_name@ == "gdrive"@ || self.app_name@
                    == "gdrive-templates"@)),
                tinytodo == (!github && !gdrive && self.app_name@ == "tinytodo"@),
                forall|j: int|
                    0 <= j < k ==> {
                        &&& github ==> github::readable(#[trigger] self.entities@[j])
                        &&& gdrive ==> gdrive::readable(self.entities@[j])
                        &&& tinytodo ==> tinytodo::readable(self.entities@[j])
                    },
            decreases self.entities.len() - k,
        {
            let e = &self.entities[k];
            if github && !github::is_readable(e) {
                return false;
            }
            if gdrive && !gdrive::is_readable(e) {
                return false;
            }
            if tinytodo && !tinytodo::is_readable(e) {
                return false;
            }
            k = k + 1;
        }
        true
    }

    /// The batch to send to the SAPL process for `requests`, or none when the
    /// application has no SAPL encoding.
    pub fn batch(&self, requests: &Vec<RequestData>) -> (r: Option<SaplBatch>)
        requires
            readable_for(self.app_name@, self.entities@),
            has_sapl_encoding(self.app_name@) ==> forall|i: int|
                0 <= i < requests.len() ==> request_complete(#[trigger] requests@[i]),
        ensures
            r is Some <==> batch_for(self.app_name@, self.entities@, requests@) is Some,
            r matches Some(b) ==> batch_for(self.app_name@, self.entities@, requests@) == Some(
                b.json(),
            ),
    {
        if self.app_name == String::from_str("github") || self.app_name == String::from_str(
            "github-templates",
        ) {
            Some(github::build_batch(&self.entities, requests))
        } else if self.app_name == String::from_str("gdrive") || self.app_name
            == String::from_str("gdrive-templates") {
            Some(gdrive::build_batch(&self.entities, requests))
        } else if self.app_name == String::from_str("tinytodo") {
            Some(tinytodo::build_batch(&self.entities, requests))
        } else {
            None
        }
    }
}

} // verus!
