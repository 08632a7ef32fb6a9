//! The benchmark driver's choices: the command line's values, which
//! experiments run in which order, which engines produce decision sequences,
//! which generated requests are kept, and whether the engines agree.
use vstd::prelude::*;

use crate::entity::{same_uid, uid_known, EntityUid, RequestData};
use crate::sapl_engine::Decision;

verus! {

/// The example applications.
#[derive(Clone, Copy, Debug, PartialEq, Eq, Hash, Structural)]
pub enum App {
    /// Github example application
    Github,
    /// Github example application, alternate templates encoding
    GithubTemplates,
    /// Gdrive example application
    Gdrive,
    /// Gdrive example application, alternate templates encoding
    GdriveTemplates,
    /// TinyTodo example application
    TinyTodo,
}

/// The authorization engines.
#[derive(Clone, Copy, Debug, PartialEq, Eq, PartialOrd, Ord, Hash, Structural)]
pub enum EngineChoice {
    /// Cedar authorization engine
    Cedar,
    /// OpenFGA authorization engine
    OpenFGA,
    /// Cedar with policy slicing
    CedarOpt,
    /// Rego authorization engine
    Rego,
    /// Rego authorization engine, pre-compute transitive closure
    RegoPreTC,
    /// SAPL authorization engine (embedded JVM via subprocess)
    Sapl,
}

/// Parameters which are not varied experimentally.
#[derive(Debug, PartialEq, Eq)]
pub struct CommonBenchArgs {
    /// Which example applications to benchmark.
    pub app: Vec<App>,
    /// Which authorization engines to test.
    pub engine: Vec<EngineChoice>,
    /// Number of requests to generate, per hierarchy.
    pub num_requests: usize,
    /// Number of hierarchies to generate, per experiment.
    pub num_hierarchies: usize,
}

/// The arguments of a benchmark run.
#[derive(Debug, PartialEq, Eq)]
pub struct BenchArgs {
    pub common_args: CommonBenchArgs,
    /// Numbers of bytes to use for `Unstructured`, one experiment each.
    pub unstructured_bytes: Vec<usize>,
    /// Numbers of entities to generate per entity type, one experiment each.
    pub num_entities: Vec<usize>,
}

/// The commands of the benchmark program.
#[derive(Debug, PartialEq, Eq)]
pub enum Commands {
    /// Run benchmarks
    Bench(BenchArgs),
}

/// The name of an application.
pub open spec fn app_text(a: App) -> Seq<char> {
    match a {
        App::Github => "github"@,
        App::GithubTemplates => "github-templates"@,
        App::Gdrive => "gdrive"@,
        App::GdriveTemplates => "gdrive-templates"@,
        App::TinyTodo => "tinytodo"@,
    }
}

/// The file that an application's results are written to.
pub open spec fn csv_text(a: App) -> Seq<char> {
    match a {
        App::Github => "output/github.csv"@,
        App::GithubTemplates => "output/github-templates.csv"@,
        App::Gdrive => "output/gdrive.csv"@,
        App::GdriveTemplates => "output/gdrive-templates.csv"@,
        App::TinyTodo => "output/tinytodo.csv"@,
    }
}

/// The name of an engine.
pub open spec fn engine_text(e: EngineChoice) -> Seq<char> {
    match e {
        EngineChoice::Cedar => "cedar"@,
        EngineChoice::OpenFGA => "openfga"@,
        EngineChoice::CedarOpt => "cedaropt"@,
        EngineChoice::Rego => "rego"@,
        EngineChoice::RegoPreTC => "rego_pre_tc"@,
        EngineChoice::Sapl => "sapl"@,
    }
}

impl App {
    /// The application's name.
    pub fn to_string(&self) -> (r: String)
        ensures
            r@ == app_text(*self),
    {
        match self {
            App::Github => String::from_str("github"),
            App::GithubTemplates => String::from_str("github-templates"),
            App::Gdrive => String::from_str("gdrive"),
            App::GdriveTemplates => String::from_str("gdrive-templates"),
            App::TinyTodo => String::from_str("tinytodo"),
        }
    }

    /// The CSV file that the application's results are written to.
    pub fn csv_filename(&self) -> (r: String)
        ensures
            r@ == csv_text(*self),
    {
        match self {
            App::Github => String::from_str("output/github.csv"),
            App::GithubTemplates => String::from_str("output/github-templates.csv"),
            App::Gdrive => String::from_str("output/gdrive.csv"),
            App::GdriveTemplates => String::from_str("output/gdrive-templates.csv"),
            App::TinyTodo => String::from_str("output/tinytodo.csv"),
        }
    }
}

impl EngineChoice {
    /// The engine's name.
    pub fn to_string(&self) -> (r: String)
        ensures
            r@ == engine_text(*self),
    {
        match self {
            EngineChoice::Cedar => String::from_str("cedar"),
            EngineChoice::OpenFGA => String::from_str("openfga"),
            EngineChoice::CedarOpt => String::from_str("cedaropt"),
            EngineChoice::Rego => String::from_str("rego"),
            EngineChoice::RegoPreTC => String::from_str("rego_pre_tc"),
            EngineChoice::Sapl => String::from_str("sapl"),
        }
    }
}

/// The experiments of one application, in order: for each number of
/// entities, for each number of unstructured bytes, the pair of them.
pub open spec fn plan(num_entities: Seq<usize>, unstructured_bytes: Seq<usize>) -> Seq<(usize, usize)>
    decreases num_entities.len(),
{
    if num_entities.len() == 0 {
        Seq::empty()
    } else {
        let n = num_entities[num_entities.len() - 1];
        plan(num_entities.subrange(0, num_entities.len() - 1), unstructured_bytes) + unstructured_bytes.map_values(
            |u: usize| (n, u),
        )
    }
}

/// Every pair of a number of entities and a number of unstructured bytes is
/// one experiment, in row order: the experiment at `i * m + j` pairs the
/// `i`-th number of entities with the `j`-th number of bytes.
pub proof fn law_plan_is_row_major(num_entities: Seq<usize>, unstructured_bytes: Seq<usize>)
    ensures
        plan(num_entities, unstructured_bytes).len() == num_entities.len()
            * unstructured_bytes.len(),
        forall|i: int, j: int|
            0 <= i < num_entities.len() && 0 <= j < unstructured_bytes.len() ==> #[trigger] plan(
                num_entities,
                unstructured_bytes,
            )[i * unstructured_bytes.len() + j] == (num_entities[i], unstructured_bytes[j]),
    decreases num_entities.len(),
{
    let n = num_entities.len();
    let m = unstructured_bytes.len();
    if n > 0 {
        let p = num_entities.subrange(0, n - 1);
        law_plan_is_row_major(p, unstructured_bytes);
        let whole = plan(num_entities, unstructured_bytes);
        let front = plan(p, unstructured_bytes);
        assert((n - 1) * m + m == n * m) by (nonlinear_arith);
        assert forall|i: int, j: int| 0 <= i < n && 0 <= j < m implies #[trigger] whole[i * m + j]
            == (num_entities[i], unstructured_bytes[j]) by {
            if i < n - 1 {
                assert(i * m + j < (n - 1) * m) by (nonlinear_arith)
                    requires
                        0 <= i < n - 1,
                        0 <= j < m,
                ;
                assert(p[i] == num_entities[i]);
                assert(whole[i * m + j] == front[i * m + j]);
            } else {
                assert(i * m == (n - 1) * m);
            }
        }
    }
}

/// The experiments to run, as (number of entities, unstructured bytes) pairs.
pub fn experiment_plan(num_entities: &Vec<usize>, unstructured_bytes: &Vec<usize>) -> (r: Vec<(usize, usize)>)
    ensures
        r@ == plan(num_entities@, unstructured_bytes@),
{
    let mut out: Vec<(usize, usize)> = Vec::new();
    let mut i: usize = 0;
    while i < num_entities.len()
        invariant
            i <= num_entities.len(),
            out@ == plan(num_entities@.subrange(0, i as int), unstructured_bytes@),
        decreases num_entities.len() - i,
    {
        let n = num_entities[i];
        let ghost before = out@;
        let ghost row = unstructured_bytes@.map_values(|u: usize| (n, u));
        let mut j: usize = 0;
        while j < unstructured_bytes.len()
            invariant
                i < num_entities.len(),
                j <= unstructured_bytes.len(),
                n == num_entities@[i as int],
                row == unstructured_bytes@.map_values(|u: usize| (n, u)),
                out@ == before + row.subrange(0, j as int),
            decreases unstructured_bytes.len() - j,
        {
            out.push((n, unstructured_bytes[j]));
            assert(row.subrange(0, j + 1) =~= row.subrange(0, j as int).push(
                (n, unstructured_bytes@[j as int]),
            ));
            j = j + 1;
        }
        assert(row.subrange(0, unstructured_bytes.len() as int) =~= row);
        assert(num_entities@.subrange(0, i + 1).subrange(0, i as int) =~= num_entities@.subrange(
            0,
            i as int,
        ));
        i = i + 1;
    }
    assert(num_entities@.subrange(0, num_entities.len() as int) =~= num_entities@);
    out
}

/// The engines other than SAPL, in order, each as often as chosen.
pub open spec fn without_sapl(engines: Seq<EngineChoice>) -> Seq<EngineChoice>
    decreases engines.len(),
{
    if engines.len() == 0 {
        Seq::empty()
    } else {
        let rest = without_sapl(engines.subrange(0, engines.len() - 1));
        if engines[engines.len() - 1] == EngineChoice::Sapl {
            rest
        } else {
            rest.push(engines[engines.len() - 1])
        }
    }
}

/// The engines that produce decision sequences, in order: every chosen
/// engine but SAPL as often as chosen, then SAPL once when it is chosen.
pub open spec fn engine_order(engines: Seq<EngineChoice>) -> Seq<EngineChoice> {
    if engines.contains(EngineChoice::Sapl) {
        without_sapl(engines).push(EngineChoice::Sapl)
    } else {
        without_sapl(engines)
    }
}

/// Whether SAPL is among the chosen engines.
pub fn uses_sapl(engines: &Vec<EngineChoice>) -> (r: bool)
    ensures
        r == engines@.contains(EngineChoice::Sapl),
{
    let mut i: usize = 0;
    while i < engines.len()
        invariant
            i <= engines.len(),
            forall|j: int| 0 <= j < i ==> engines@[j] != EngineChoice::Sapl,
        decreases engines.len() - i,
    {
        if engines[i] == EngineChoice::Sapl {
            return true;
        }
        i = i + 1;
    }
    false
}

proof fn lemma_without_sapl(engines: Seq<EngineChoice>)
    ensures
        !without_sapl(engines).contains(EngineChoice::Sapl),
        forall|e: EngineChoice|
            e != EngineChoice::Sapl ==> (without_sapl(engines).contains(e) <==> engines.contains(e)),
    decreases engines.len(),
{
    if engines.len() > 0 {
        let p = engines.subrange(0, engines.len() - 1);
        lemma_without_sapl(p);
        let w = without_sapl(engines);
        let wp = without_sapl(p);
        let last = engines[engines.len() - 1];
        assert forall|e: EngineChoice| e != EngineChoice::Sapl implies (w.contains(e)
            <==> engines.contains(e)) by {
            if engines.contains(e) {
                let i = choose|i: int| 0 <= i < engines.len() && engines[i] == e;
                if i < engines.len() - 1 {
                    assert(p[i] == e);
                    assert(p.contains(e));
                    assert(wp.contains(e));
                    let k = choose|k: int| 0 <= k < wp.len() && wp[k] == e;
                    assert(w[k] == e);
                } else {
                    assert(w[w.len() - 1] == e);
                }
            }
            if w.contains(e) {
                if e == last {
                    assert(engines[engines.len() - 1] == e);
                } else {
                    let i = choose|i: int| 0 <= i < w.len() && w[i] == e;
                    assert(i < wp.len());
                    assert(wp[i] == e);
                    assert(wp.contains(e));
                    assert(p.contains(e));
                    let j = choose|j: int| 0 <= j < p.len() && p[j] == e;
                    assert(engines[j] == e);
                }
            }
        }
        if without_sapl(engines).contains(EngineChoice::Sapl) {
            let i = choose|i: int|
                0 <= i < without_sapl(engines).len() && without_sapl(engines)[i]
                    == EngineChoice::Sapl;
            assert(without_sapl(p)[i] == EngineChoice::Sapl);
        }
    }
}

/// SAPL, when chosen, runs once and after every other engine; every other
/// chosen engine runs.
pub proof fn law_sapl_runs_last(engines: Seq<EngineChoice>)
    ensures
        engine_order(engines).contains(EngineChoice::Sapl) == engines.contains(
            EngineChoice::Sapl,
        ),
        forall|i: int|
            0 <= i < engine_order(engines).len() - 1 ==> #[trigger] engine_order(engines)[i]
                != EngineChoice::Sapl,
        engines.contains(EngineChoice::Sapl) ==> engine_order(engines).last()
            == EngineChoice::Sapl,
        forall|e: EngineChoice|
            e != EngineChoice::Sapl ==> (engine_order(engines).contains(e) <==> engines.contains(
                e,
            )),
{
    lemma_without_sapl(engines);
    let w = without_sapl(engines);
    let o = engine_order(engines);
    assert forall|i: int| 0 <= i < o.len() - 1 implies #[trigger] o[i] != EngineChoice::Sapl by {
        assert(o[i] == w[i]);
    }
    if engines.contains(EngineChoice::Sapl) {
        assert(o[o.len() - 1] == EngineChoice::Sapl);
    }
    assert forall|e: EngineChoice| e != EngineChoice::Sapl implies (o.contains(e) <==> engines.contains(e)) by {
        if o.contains(e) {
            let i = choose|i: int| 0 <= i < o.len() && o[i] == e;
            assert(w[i] == e);
        }
        if w.contains(e) {
            let i = choose|i: int| 0 <= i < w.len() && w[i] == e;
            assert(o[i] == e);
        }
    }
}

/// The engines whose decision sequences are compared, in the order in which
/// they are run.
pub fn decision_order(engines: &Vec<EngineChoice>) -> (r: Vec<EngineChoice>)
    ensures
        r@ == engine_order(engines@),
{
    let mut out: Vec<EngineChoice> = Vec::new();
    let mut i: usize = 0;
    while i < engines.len()
        invariant
            i <= engines.len(),
            out@ == without_sapl(engines@.subrange(0, i as int)),
        decreases engines.len() - i,
    {
        assert(engines@.subrange(0, i + 1).subrange(0, i as int) =~= engines@.subrange(0, i as int));
        if engines[i] != EngineChoice::Sapl {
            out.push(engines[i]);
        }
        i = i + 1;
    }
    assert(engines@.subrange(0, engines.len() as int) =~= engines@);
    if uses_sapl(engines) {
        out.push(EngineChoice::Sapl);
    }
    out
}

/// A generated request is kept when both its principal and its resource are
/// entities of the hierarchy.
pub open spec fn targets_known(request: RequestData, known: Seq<EntityUid>) -> bool {
    &&& request.principal is Some
    &&& request.resource is Some
    &&& exists|i: int| 0 <= i < known.len() && same_uid(known[i], request.principal.unwrap())
    &&& exists|i: int| 0 <= i < known.len() && same_uid(known[i], request.resource.unwrap())
}

/// Whether a generated request names a principal and a resource that are both
/// entities of the hierarchy.
pub fn request_targets_known(request: &RequestData, known: &Vec<EntityUid>) -> (r: bool)
    ensures
        r == targets_known(*request, known@),
{
    match (&request.principal, &request.resource) {
        (Some(p), Some(q)) => uid_known(p, known) && uid_known(q, known),
        _ => false,
    }
}

/// The outcome of comparing the decision sequences of the engines.
#[derive(Clone, Copy, Debug, PartialEq, Eq, Structural)]
pub enum DecisionCheck {
    /// Every engine decided every request as the first engine did.
    Agree,
    /// The first disagreement, by request and then by engine.
    Mismatch { request: usize, engine: usize },
    /// There was no decision sequence at all.
    NoSequences,
}

/// Every engine decided request `req` as the first engine did.
pub open spec fn agree_on(seqs: Seq<Vec<Decision>>, req: int) -> bool {
    forall|k: int| 0 <= k < seqs.len() ==> #[trigger] seqs[k]@[req] == seqs[0]@[req]
}

/// Compares the engines' decision sequences on the first `num_requests`
/// requests: the engines should have the same allow/deny behavior.
pub fn check_decisions(seqs: &Vec<Vec<Decision>>, num_requests: usize) -> (r: DecisionCheck)
    requires
        forall|k: int| 0 <= k < seqs.len() ==> (#[trigger] seqs@[k]).len() >= num_requests,
    ensures
        r == DecisionCheck::NoSequences <==> seqs.len() == 0,
        r == DecisionCheck::Agree <==> seqs.len() > 0 && forall|q: int|
            0 <= q < num_requests ==> agree_on(seqs@, q),
        r matches DecisionCheck::Mismatch { request, engine } ==> {
            &&& request < num_requests
            &&& 1 <= engine < seqs.len()
            &&& seqs@[engine as int]@[request as int] != seqs@[0]@[request as int]
            &&& forall|q: int| 0 <= q < request ==> agree_on(seqs@, q)
            &&& forall|k: int|
                0 <= k < engine ==> #[trigger] seqs@[k]@[request as int] == seqs@[0]@[request as int]
        },
{
    if seqs.len() == 0 {
        return DecisionCheck::NoSequences;
    }
    let mut req: usize = 0;
    while req < num_requests
        invariant
            seqs.len() > 0,
            req <= num_requests,
            forall|k: int| 0 <= k < seqs.len() ==> (#[trigger] seqs@[k]).len() >= num_requests,
            forall|q: int| 0 <= q < req ==> agree_on(seqs@, q),
        decreases num_requests - req,
    {
        let first = seqs[0][req];
        let mut k: usize = 1;
        while k < seqs.len()
            invariant
                seqs.len() > 0,
                req < num_requests,
                1 <= k <= seqs.len(),
                forall|j: int| 0 <= j < seqs.len() ==> (#[trigger] seqs@[j]).len() >= num_requests,
                first == seqs@[0]@[req as int],
                forall|q: int| 0 <= q < req ==> agree_on(seqs@, q),
                forall|j: int| 0 <= j < k ==> #[trigger] seqs@[j]@[req as int] == first,
            decreases seqs.len() - k,
        {
            assert(seqs@[k as int].len() >= num_requests);
            if seqs[k][req] != first {
                assert(!agree_on(seqs@, req as int));
                return DecisionCheck::Mismatch { request: req, engine: k };
            }
            k = k + 1;
        }
        req = req + 1;
    }
    DecisionCheck::Agree
}

} // verus!
