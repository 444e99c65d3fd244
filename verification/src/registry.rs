//! Model registry: the table of known models, and the decisions of model
//! discovery (which settings apply to a model, which files are missing, which
//! backend serves it and how it is reported in the inventory).

use vstd::prelude::*;
use vstd::string::StringExecFns;
use crate::config::{InferenceConfig, ModelOverrideConfig};

verus! {

/// Static metadata definition for a known model.
#[derive(Debug, Clone, Copy)]
pub struct RegisteredModel {
    /// Model identifier key.
    pub model_id: &'static str,
    /// Upstream HuggingFace repository identifier.
    pub hf_repo: &'static str,
    /// Task description.
    pub task: &'static str,
    /// Expected class output count.
    pub num_classes: usize,
}

/// The plain values of a registered model: (id, repository, task, class count).
pub open spec fn registered_view(m: RegisteredModel) -> (Seq<char>, Seq<char>, Seq<char>, usize) {
    (m.model_id@, m.hf_repo@, m.task@, m.num_classes)
}

/// The known models, in registration order.
pub open spec fn registry_table_spec() -> Seq<(Seq<char>, Seq<char>, Seq<char>, usize)> {
    seq![
        ("coherence"@, "madhurjindal/autonlp-Gibberish-Detector-492513457"@, "text-classification"@, 4usize),
        ("toxicity"@, "minuva/MiniLMv2-toxic-jigsaw-onnx"@, "text-classification"@, 2usize),
        ("intent"@, "testsavantai/prompt-injection-defender-base-v0-onnx"@, "text-classification"@, 2usize),
        ("cross_encoder"@, "cross-encoder/nli-distilroberta-base"@, "text-classification"@, 3usize),
    ]
}

/// The table of known models.
pub fn model_registry_table() -> (t: Vec<RegisteredModel>)
    ensures
        t@.map_values(|m: RegisteredModel| registered_view(m)) == registry_table_spec(),
{
    let mut t: Vec<RegisteredModel> = Vec::new();
    t.push(RegisteredModel {
        model_id: "coherence",
        hf_repo: "madhurjindal/autonlp-Gibberish-Detector-492513457",
        task: "text-classification",
        num_classes: 4,
    });
    t.push(RegisteredModel {
        model_id: "toxicity",
        hf_repo: "minuva/MiniLMv2-toxic-jigsaw-onnx",
        task: "text-classification",
        num_classes: 2,
    });
    t.push(RegisteredModel {
        model_id: "intent",
        hf_repo: "testsavantai/prompt-injection-defender-base-v0-onnx",
        task: "text-classification",
        num_classes: 2,
    });
    t.push(RegisteredModel {
        model_id: "cross_encoder",
        hf_repo: "cross-encoder/nli-distilroberta-base",
        task: "text-classification",
        num_classes: 3,
    });
    proof {
        assert(t@.map_values(|m: RegisteredModel| registered_view(m)) =~= registry_table_spec());
    }
    t
}

/// Status report for an individual model in the readiness inventory.
#[derive(Debug)]
pub struct ModelInfo {
    /// Model identifier.
    pub model_id: String,
    /// Backend kind ("onnx" or "stub").
    pub backend: String,
    /// True when backed by live weights.
    pub is_live: bool,
    /// Upstream HuggingFace repository.
    pub hf_repo: String,
    /// Task category.
    pub task: String,
}

impl Clone for ModelInfo {
    fn clone(&self) -> (r: Self)
        ensures
            r == *self,
    {
        ModelInfo {
            model_id: self.model_id.clone(),
            backend: self.backend.clone(),
            is_live: self.is_live,
            hf_repo: self.hf_repo.clone(),
            task: self.task.clone(),
        }
    }
}

impl ModelInfo {
    /// The inventory entry of a registered model served by live ONNX weights
    /// (`live`) or by the stub.
    pub fn for_model(registered: &RegisteredModel, live: bool) -> (info: Self)
        ensures
            info.model_id@ == registered.model_id@,
            info.backend@ == (if live { "onnx"@ } else { "stub"@ }),
            info.is_live == live,
            info.hf_repo@ == registered.hf_repo@,
            info.task@ == registered.task@,
    {
        ModelInfo {
            model_id: String::from_str(registered.model_id),
            backend: if live { String::from_str("onnx") } else { String::from_str("stub") },
            is_live: live,
            hf_repo: String::from_str(registered.hf_repo),
            task: String::from_str(registered.task),
        }
    }
}

/// The settings that apply to one model.
#[derive(Debug)]
pub struct ModelPlan {
    /// Number of pooled sessions.
    pub pool_size: usize,
    /// File name of the weights inside the model directory.
    pub weights_file: String,
}

/// Resolves a model's settings: an override's pool size and weights file win
/// over the pool size configured for every model and the default `model.onnx`.
pub fn plan_model(config: &InferenceConfig, model_override: Option<&ModelOverrideConfig>) -> (plan: ModelPlan)
    ensures
        plan.pool_size == (match model_override {
            Some(o) => match o.pool_size { Some(p) => p, None => config.pool_size_per_model },
            None => config.pool_size_per_model,
        }),
        plan.weights_file@ == (match model_override {
            Some(o) => match o.weights_file { Some(w) => w@, None => "model.onnx"@ },
            None => "model.onnx"@,
        }),
{
    let pool_size = match model_override {
        Some(o) => match o.pool_size { Some(p) => p, None => config.pool_size_per_model },
        None => config.pool_size_per_model,
    };
    let weights_file = match model_override {
        Some(o) => match &o.weights_file { Some(w) => w.clone(), None => String::from_str("model.onnx") },
        None => String::from_str("model.onnx"),
    };
    ModelPlan { pool_size, weights_file }
}

/// The names of the missing model files, in the order weights, tokenizer, config.
pub open spec fn missing_files_spec(has_weights: bool, has_tokenizer: bool, has_config: bool) -> Seq<Seq<char>> {
    let a: Seq<Seq<char>> = if has_weights { seq![] } else { seq!["weights"@] };
    let b: Seq<Seq<char>> = if has_tokenizer { a } else { a.push("tokenizer.json"@) };
    if has_config { b } else { b.push("config.json"@) }
}

/// Each model file is listed as missing exactly when it is absent, whatever
/// the other two files: the weights when `has_weights` is false,
/// "tokenizer.json" when `has_tokenizer` is false, "config.json" when
/// `has_config` is false, and nothing else.
pub proof fn law_missing_files_name_each_absent_file(has_weights: bool, has_tokenizer: bool, has_config: bool)
    ensures
        missing_files_spec(has_weights, has_tokenizer, has_config).contains("weights"@) <==> !has_weights,
        missing_files_spec(has_weights, has_tokenizer, has_config).contains("tokenizer.json"@) <==> !has_tokenizer,
        missing_files_spec(has_weights, has_tokenizer, has_config).contains("config.json"@) <==> !has_config,
        missing_files_spec(has_weights, has_tokenizer, has_config).len()
            == (if has_weights { 0int } else { 1int }) + (if has_tokenizer { 0int } else { 1int })
            + (if has_config { 0int } else { 1int }),
        missing_files_spec(has_weights, has_tokenizer, has_config).len() == 0
            <==> (has_weights && has_tokenizer && has_config),
{
    reveal_strlit("weights");
    reveal_strlit("tokenizer.json");
    reveal_strlit("config.json");
    let m = missing_files_spec(has_weights, has_tokenizer, has_config);
    let w: Seq<char> = "weights"@;
    let t: Seq<char> = "tokenizer.json"@;
    let c: Seq<char> = "config.json"@;
    assert(w.len() != t.len() && w.len() != c.len() && t.len() != c.len());
    if !has_weights {
        assert(m[0] == w);
    }
    if !has_tokenizer {
        assert(m[if has_weights { 0int } else { 1int }] == t);
    }
    if !has_config {
        assert(m[m.len() - 1] == c);
    }
    if m.contains(w) {
        let i = choose|i: int| 0 <= i < m.len() && m[i] == w;
        assert(m[i].len() == w.len());
    }
    if m.contains(t) {
        let i = choose|i: int| 0 <= i < m.len() && m[i] == t;
        assert(m[i].len() == t.len());
    }
    if m.contains(c) {
        let i = choose|i: int| 0 <= i < m.len() && m[i] == c;
        assert(m[i].len() == c.len());
    }
}

/// Lists the model files that are missing from disk.
pub fn missing_files(has_weights: bool, has_tokenizer: bool, has_config: bool) -> (m: Vec<&'static str>)
    ensures
        m@.map_values(|s: &'static str| s@) == missing_files_spec(has_weights, has_tokenizer, has_config),
{
    let mut m: Vec<&'static str> = Vec::new();
    if !has_weights {
        m.push("weights");
    }
    if !has_tokenizer {
        m.push("tokenizer.json");
    }
    if !has_config {
        m.push("config.json");
    }
    proof {
        assert(m@.map_values(|s: &'static str| s@) =~= missing_files_spec(has_weights, has_tokenizer, has_config));
    }
    m
}

/// Whether loading live ONNX weights is attempted: no file is missing and the stub is not forced.
pub open spec fn attempts_live(missing: Seq<&'static str>, force_stub: bool) -> bool {
    missing.len() == 0 && !force_stub
}

/// Whether loading live ONNX weights is attempted for a model: only when no
/// file is missing and the stub is not forced.
pub fn attempt_live_backend(missing: &Vec<&'static str>, force_stub: bool) -> (b: bool)
    ensures
        b == attempts_live(missing@, force_stub),
{
    missing.len() == 0 && !force_stub
}

/// Whether a model is served by live weights: loading was attempted and succeeded.
pub open spec fn serves_live(missing: Seq<&'static str>, force_stub: bool, loaded: bool) -> bool {
    attempts_live(missing, force_stub) && loaded
}

/// Whether the inventory reports a model as live: loading was attempted and succeeded.
pub fn reported_live(attempted: bool, loaded: bool) -> (b: bool)
    ensures
        b == (attempted && loaded),
{
    attempted && loaded
}

/// With the stub forced, or with any model file missing, a model is served by
/// the stub, whatever loading would have done.
pub proof fn law_stub_when_forced_or_incomplete(missing: Seq<&'static str>, force_stub: bool, loaded: bool)
    requires
        force_stub || missing.len() > 0,
    ensures
        !serves_live(missing, force_stub, loaded),
{
}

/// Whether a model identifier is among the registered models.
pub open spec fn is_registered_id(id: Seq<char>) -> bool {
    exists|i: int| 0 <= i < registry_table_spec().len() && #[trigger] registry_table_spec()[i].0 == id
}

/// The override identifiers that do not name a registered model, in order.
pub fn unregistered_overrides(ids: &Vec<String>) -> (r: Vec<String>)
    ensures
        forall|i: int| 0 <= i < r@.len() ==> !is_registered_id(#[trigger] r@[i]@),
        forall|i: int| 0 <= i < ids@.len() && !is_registered_id(#[trigger] ids@[i]@)
            ==> exists|j: int| 0 <= j < r@.len() && r@[j]@ == ids@[i]@,
{
    let table = model_registry_table();
    let mut r: Vec<String> = Vec::new();
    let mut i: usize = 0;
    while i < ids.len()
        invariant
            i <= ids@.len(),
            table@.map_values(|m: RegisteredModel| registered_view(m)) == registry_table_spec(),
            forall|k: int| 0 <= k < r@.len() ==> !is_registered_id(#[trigger] r@[k]@),
            forall|k: int| 0 <= k < i && !is_registered_id(#[trigger] ids@[k]@)
                ==> exists|j: int| 0 <= j < r@.len() && r@[j]@ == ids@[k]@,
        decreases ids@.len() - i,
    {
        let id = &ids[i];
        let mut found = false;
        let mut j: usize = 0;
        while j < table.len()
            invariant
                j <= table@.len(),
                table@.map_values(|m: RegisteredModel| registered_view(m)) == registry_table_spec(),
                found == exists|k: int| 0 <= k < j && #[trigger] registry_table_spec()[k].0 == id@,
            decreases table@.len() - j,
        {
            let name = String::from_str(table[j].model_id);
            proof {
                assert(registry_table_spec()[j as int].0 == table@[j as int].model_id@);
            }
            if name == *id {
                found = true;
            }
            j = j + 1;
        }
        if !found {
            let ghost before = r@;
            r.push(id.clone());
            proof {
                assert(r@[r@.len() - 1]@ == ids@[i as int]@);
                assert forall|k: int| 0 <= k < i + 1 && !is_registered_id(#[trigger] ids@[k]@)
                    implies exists|j: int| 0 <= j < r@.len() && r@[j]@ == ids@[k]@ by {
                    if k < i {
                        let j0 = choose|j: int| 0 <= j < before.len() && before[j]@ == ids@[k]@;
                        assert(r@[j0] == before[j0]);
                    }
                }
            }
        } else {
            proof {
                assert(is_registered_id(ids@[i as int]@));
            }
        }
        i = i + 1;
    }
    r
}

} // verus!

verus! {

/// The backend registered last under an identifier, if any.
pub open spec fn lookup<B>(entries: Seq<(Seq<char>, B)>, id: Seq<char>) -> Option<B>
    decreases entries.len(),
{
    if entries.len() == 0 {
        None
    } else if entries.last().0 == id {
        Some(entries.last().1)
    } else {
        lookup(entries.drop_last(), id)
    }
}

/// The models loaded at startup: the backend serving each model, and the
/// inventory reported by the readiness probe. `B` is the backend handle.
pub struct ModelRegistry<B> {
    backends: Vec<(String, B)>,
    infos: Vec<ModelInfo>,
}

impl<B> ModelRegistry<B> {
    /// The registrations, in order, as (model identifier, backend).
    pub closed spec fn entries(&self) -> Seq<(Seq<char>, B)> {
        self.backends@.map_values(|e: (String, B)| (e.0@, e.1))
    }

    /// The inventory entries, in registration order.
    pub closed spec fn infos(&self) -> Seq<ModelInfo> {
        self.infos@
    }

    /// An empty registry.
    pub fn new() -> (r: Self)
        ensures
            r.entries() == Seq::<(Seq<char>, B)>::empty(),
            r.infos() == Seq::<ModelInfo>::empty(),
    {
        ModelRegistry { backends: Vec::new(), infos: Vec::new() }
    }

    /// Registers the backend serving a model and its inventory entry; a later
    /// registration of the same model replaces the backend.
    pub fn register(&mut self, model_id: &str, backend: B, info: ModelInfo)
        ensures
            final(self).entries() == old(self).entries().push((model_id@, backend)),
            final(self).infos() == old(self).infos().push(info),
    {
        let ghost before = self.entries();
        self.backends.push((String::from_str(model_id), backend));
        self.infos.push(info);
        proof {
            assert(self.entries() =~= before.push((model_id@, backend)));
        }
    }

    /// The backend serving a model, if one is registered.
    pub fn get(&self, model_id: &str) -> (r: Option<&B>)
        ensures
            r == match lookup(self.entries(), model_id@) {
                Some(b) => Some(&b),
                None => None::<&B>,
            },
    {
        let target = String::from_str(model_id);
        let ghost es = self.entries();
        let mut i: usize = self.backends.len();
        proof {
            assert(es.take(i as int) =~= es);
        }
        while i > 0
            invariant
                i <= self.backends@.len(),
                es == self.entries(),
                target@ == model_id@,
                lookup(es, model_id@) == lookup(es.take(i as int), model_id@),
            decreases i,
        {
            proof {
                assert(es.take(i as int).drop_last() =~= es.take(i as int - 1));
                assert(es.take(i as int).last() == es[i - 1]);
            }
            if self.backends[i - 1].0 == target {
                return Some(&self.backends[i - 1].1);
            }
            i = i - 1;
        }
        None
    }

    /// The inventory of loaded models.
    pub fn inventory(&self) -> (r: &Vec<ModelInfo>)
        ensures
            r@ == self.infos(),
    {
        &self.infos
    }
}

/// After a model is registered, looking it up gives the backend just
/// registered, and looking up any other model gives what it gave before.
pub proof fn law_get_returns_registered<B>(entries: Seq<(Seq<char>, B)>, id: Seq<char>, backend: B, other: Seq<char>)
    requires
        other != id,
    ensures
        lookup(entries.push((id, backend)), id) == Some(backend),
        lookup(entries.push((id, backend)), other) == lookup(entries, other),
{
    assert(entries.push((id, backend)).drop_last() =~= entries);
}

/// Looking a model up finds a backend exactly when the model was registered
/// at some point: every registered model is found, and a model that was never
/// registered is not.
pub proof fn law_lookup_finds_registered_ids<B>(entries: Seq<(Seq<char>, B)>, id: Seq<char>)
    ensures
        lookup(entries, id) is Some <==> exists|i: int| 0 <= i < entries.len() && #[trigger] entries[i].0 == id,
    decreases entries.len(),
{
    if entries.len() > 0 {
        let pre = entries.drop_last();
        law_lookup_finds_registered_ids(pre, id);
        if exists|i: int| 0 <= i < pre.len() && #[trigger] pre[i].0 == id {
            let i = choose|i: int| 0 <= i < pre.len() && #[trigger] pre[i].0 == id;
            assert(entries[i].0 == id);
        }
        if exists|i: int| 0 <= i < entries.len() && #[trigger] entries[i].0 == id {
            let i = choose|i: int| 0 <= i < entries.len() && #[trigger] entries[i].0 == id;
            if i < entries.len() - 1 {
                assert(pre[i].0 == id);
            }
        }
    }
}

/// The inventory entry `info` reports model `m`: the same identifier,
/// repository and task, and backend "onnx" when live, "stub" otherwise.
pub open spec fn reports_model(info: ModelInfo, m: RegisteredModel) -> bool {
    &&& info.model_id@ == m.model_id@
    &&& info.hf_repo@ == m.hf_repo@
    &&& info.task@ == m.task@
    &&& info.backend@ == (if info.is_live { "onnx"@ } else { "stub"@ })
}

/// Startup discovery of the known models, one model at a time, in table
/// order. The caller looks for each model's files and loads its weights;
/// the discovery decides which backend serves the model and what the
/// inventory reports, and registers it.
pub struct Discovery<B> {
    table: Vec<RegisteredModel>,
    registry: ModelRegistry<B>,
}

impl<B> Discovery<B> {
    /// The models to discover, in order.
    pub closed spec fn spec_table(&self) -> Seq<RegisteredModel> {
        self.table@
    }

    /// The registry built so far.
    pub closed spec fn spec_registry(&self) -> ModelRegistry<B> {
        self.registry
    }

    /// How many models have been registered so far.
    pub open spec fn done_count(&self) -> int {
        self.spec_registry().infos().len() as int
    }

    /// The first `done_count()` models of the table are registered, in
    /// order, each with an inventory entry that reports it.
    pub closed spec fn wf(&self) -> bool {
        let infos = self.registry.infos();
        let entries = self.registry.entries();
        &&& infos.len() == entries.len()
        &&& infos.len() <= self.table@.len()
        &&& forall|i: int| 0 <= i < infos.len() ==> reports_model(#[trigger] infos[i], self.table@[i])
        &&& forall|i: int| 0 <= i < entries.len() ==> (#[trigger] entries[i]).0 == self.table@[i].model_id@
    }

    /// Starts discovering the models of `table`.
    pub fn new(table: Vec<RegisteredModel>) -> (d: Self)
        ensures
            d.wf(),
            d.spec_table() == table@,
            d.done_count() == 0,
    {
        Discovery { table, registry: ModelRegistry::new() }
    }

    /// The next model to discover, if any is left.
    pub fn next_model(&self) -> (r: Option<RegisteredModel>)
        requires
            self.wf(),
        ensures
            self.done_count() < self.spec_table().len() ==> r == Some(self.spec_table()[self.done_count()]),
            self.done_count() >= self.spec_table().len() ==> r is None,
    {
        let n = self.registry.infos.len();
        if n < self.table.len() {
            Some(self.table[n])
        } else {
            None
        }
    }

    /// Registers the next model: it is served by its live backend when
    /// loading was attempted and produced one, and by the stub otherwise; the
    /// inventory reports it as live exactly in the first case.
    pub fn register_next(&mut self, attempted: bool, live_backend: Option<B>, stub: B)
        requires
            old(self).wf(),
            old(self).done_count() < old(self).spec_table().len(),
        ensures
            final(self).wf(),
            final(self).spec_table() == old(self).spec_table(),
            final(self).done_count() == old(self).done_count() + 1,
            final(self).spec_registry().entries() == old(self).spec_registry().entries().push((
                old(self).spec_table()[old(self).done_count()].model_id@,
                if attempted && live_backend is Some { live_backend->0 } else { stub },
            )),
            final(self).spec_registry().infos().drop_last() == old(self).spec_registry().infos(),
            final(self).spec_registry().infos().last().is_live == (attempted && live_backend is Some),
    {
        let n = self.registry.infos.len();
        let m = self.table[n];
        let live = reported_live(attempted, live_backend.is_some());
        let info = ModelInfo::for_model(&m, live);
        let backend = match live_backend {
            Some(b) => if attempted { b } else { stub },
            None => stub,
        };
        let ghost old_infos = self.registry.infos();
        self.registry.register(m.model_id, backend, info);
        proof {
            reveal_strlit("onnx");
            reveal_strlit("stub");
            assert(self.registry.infos().drop_last() =~= old_infos);
        }
    }

    /// The registry of the discovered models.
    pub fn finish(self) -> (r: ModelRegistry<B>)
        ensures
            r.entries() == self.spec_registry().entries(),
            r.infos() == self.spec_registry().infos(),
    {
        self.registry
    }
}

/// Once every model of the table is discovered, the inventory mirrors the
/// table row by row (identifier, repository, task), reporting "onnx" exactly
/// for the live models and "stub" for the others; every model of the table
/// is found in the registry, and no other identifier is.
pub proof fn law_discovery_mirrors_table<B>(d: Discovery<B>, id: Seq<char>)
    requires
        d.wf(),
        d.done_count() == d.spec_table().len(),
    ensures
        d.spec_registry().infos().len() == d.spec_table().len(),
        forall|i: int| 0 <= i < d.spec_table().len()
            ==> reports_model(#[trigger] d.spec_registry().infos()[i], d.spec_table()[i]),
        forall|i: int| 0 <= i < d.spec_table().len()
            ==> lookup(d.spec_registry().entries(), #[trigger] d.spec_table()[i].model_id@) is Some,
        (forall|i: int| 0 <= i < d.spec_table().len() ==> #[trigger] d.spec_table()[i].model_id@ != id)
            ==> lookup(d.spec_registry().entries(), id) is None,
{
    let entries = d.spec_registry().entries();
    assert forall|i: int| 0 <= i < d.spec_table().len()
        implies lookup(entries, #[trigger] d.spec_table()[i].model_id@) is Some by {
        law_lookup_finds_registered_ids(entries, d.spec_table()[i].model_id@);
        assert(entries[i].0 == d.spec_table()[i].model_id@);
    }
    law_lookup_finds_registered_ids(entries, id);
    if (forall|i: int| 0 <= i < d.spec_table().len() ==> #[trigger] d.spec_table()[i].model_id@ != id) {
        if exists|i: int| 0 <= i < entries.len() && #[trigger] entries[i].0 == id {
            let i = choose|i: int| 0 <= i < entries.len() && #[trigger] entries[i].0 == id;
            assert(d.spec_table()[i].model_id@ != id);
        }
    }
}

} // verus!
