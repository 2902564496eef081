use crate::error::{ErrorModel, PluginError};
use crate::hqnow::{HttpOutcome, RemoteCall};
use crate::json::{parsed_document, JsonModel, JsonValue};
use crate::models::{PluginInfo, RepoOption};
use crate::response::{failed, PluginResponse, ResponseModel};
use crate::simple_plugin_runner::{planned, Execution, ExecutionModel, SimplePluginRunner};
use crate::text::{join, same_text, texts};
use crate::utils::{joined_path, parent_path, path_join, path_parent};
use vstd::prelude::*;

verus! {

/// The directory of an installed plugin: its name, and the text of its
/// manifest where it has one.
#[derive(Debug, PartialEq, Eq)]
pub struct InstalledFolder {
    pub name: String,
    pub manifest: Option<String>,
}

/// What became of one plugin in an activation pass.
#[derive(Debug, PartialEq, Eq)]
pub enum Activation {
    /// The plugin of this name was not tested: it has no entry file, no
    /// runner could be made for it, or the request of its test call was
    /// not made.
    Missing(String),
    /// The plugin has this runner, and its test call got this response.
    Tested(SimplePluginRunner, PluginResponse),
}

/// A plugin whose entry file exists, with the call that tests it.
#[derive(Debug, PartialEq, Eq)]
pub struct Candidate {
    pub runner: SimplePluginRunner,
    pub test: Execution,
}

/// The registry of the active plugins, and the directory they are installed
/// in. The registry holds the plugins that passed in the latest activation
/// pass and no others, and no two of its runners have the same name.
pub struct PluginManager {
    plugins_path: String,
    active_plugins: Vec<SimplePluginRunner>,
}

/// The plugin behind the one content source that is built in.
pub open spec fn catalogue_plugin() -> Seq<char> {
    "comic-universe-plugin-hqnow"@
}

/// Why a plugin that is not in the registry cannot be called: it is not
/// found.
pub open spec fn not_active_error(name: Seq<char>) -> ErrorModel {
    ErrorModel::NotFound("Plugin '"@ + name + "' not found or not active"@)
}

/// The response to a call of a plugin that is not in the registry.
pub open spec fn not_active(name: Seq<char>) -> ResponseModel {
    failed(not_active_error(name).message())
}

/// What a call of `method` on the plugin `name` comes to, given the
/// registry: a plugin that is not active answers with [`not_active`], an
/// active one as its runner does.
pub open spec fn dispatched(
    active: Map<Seq<char>, Seq<char>>,
    name: Seq<char>,
    method: Seq<char>,
    args: JsonModel,
) -> ExecutionModel {
    if active.dom().contains(name) {
        planned(name, method, args)
    } else {
        ExecutionModel::Done(not_active(name))
    }
}

impl Candidate {
    /// The request that has to be made to test the plugin, if any.
    pub fn request(&self) -> (r: Option<&RemoteCall>)
        ensures
            match r {
                Some(call) => self.test@ == ExecutionModel::Fetch(call@),
                None => self.test is Done,
            },
    {
        self.test.request()
    }

    /// What became of the plugin: it was tested with this runner and with
    /// the response that its test call comes to, given how the request of
    /// that call ended where one was made. Where the request was to be made
    /// and was not, the plugin was not tested.
    pub fn conclude(self, outcome: &Option<HttpOutcome>) -> (r: Activation)
        ensures
            r.name() == self.runner.name(),
            match self.test@.response(*outcome) {
                Some(response) => r is Tested && r->Tested_0 == self.runner && r->Tested_1@
                    == response,
                None => r is Missing,
            },
            r.passed() <==> self.test@.response(*outcome) is Some && self.test@.response(
                *outcome,
            )->Some_0.success,
    {
        let Candidate { runner, test } = self;
        match test.conclude(outcome) {
            Some(response) => Activation::Tested(runner, response),
            None => Activation::Missing(runner.plugin_name().to_owned()),
        }
    }
}

impl Activation {
    /// The plugin that was to be activated.
    pub open spec fn name(self) -> Seq<char> {
        match self {
            Activation::Missing(name) => name@,
            Activation::Tested(runner, _) => runner.name(),
        }
    }

    /// Whether the plugin passed: it was tested, and the response to its
    /// test call tells of success.
    pub open spec fn passed(self) -> bool {
        self is Tested && self->Tested_1.success
    }

    /// Whether the plugin passed.
    pub fn has_passed(&self) -> (r: bool)
        ensures
            r == self.passed(),
    {
        match self {
            Activation::Missing(_) => false,
            Activation::Tested(_, response) => response.success,
        }
    }
}

/// The registry with one activation taken in: a plugin that passed is in
/// it with the runner that was tested, one that did not pass is not in it,
/// and every other plugin stays.
pub open spec fn settled_one(active: Map<Seq<char>, Seq<char>>, activation: Activation) -> Map<
    Seq<char>,
    Seq<char>,
> {
    if activation.passed() {
        active.insert(activation.name(), activation->Tested_0.path())
    } else {
        active.remove(activation.name())
    }
}

/// The registry `active` with the activations of a pass taken in, one
/// after the other.
pub open spec fn settled(active: Map<Seq<char>, Seq<char>>, pass: Seq<Activation>) -> Map<
    Seq<char>,
    Seq<char>,
>
    decreases pass.len(),
{
    if pass.len() == 0 {
        active
    } else {
        settled_one(settled(active, pass.drop_last()), pass.last())
    }
}

/// Whether activation `k` is the last that the pass holds for the plugin
/// `name`.
pub open spec fn is_last_of(pass: Seq<Activation>, name: Seq<char>, k: int) -> bool {
    &&& 0 <= k < pass.len()
    &&& pass[k].name() == name
    &&& forall|j: int| k < j < pass.len() ==> (#[trigger] pass[j]).name() != name
}

/// Whether the plugin `name` passed in the pass: the pass dealt with it,
/// and when it last did, the plugin was tested and the response to its
/// test call told of success.
pub open spec fn passed_in(pass: Seq<Activation>, name: Seq<char>) -> bool {
    exists|k: int| is_last_of(pass, name, k) && pass[k].passed()
}

/// The registry that a pass leaves: the plugins that passed in it, each
/// with the runner that was tested, and no other plugin, whatever the
/// registry held before.
pub open spec fn registry_of(pass: Seq<Activation>) -> Map<Seq<char>, Seq<char>> {
    settled(Map::empty(), pass)
}

impl PluginManager {
    /// Runner `i` exists and serves the plugin `name`.
    closed spec fn runs(self, i: int, name: Seq<char>) -> bool {
        0 <= i < self.active_plugins.len() && self.active_plugins[i].name() == name
    }

    #[verifier::type_invariant]
    closed spec fn distinct_names(self) -> bool {
        forall|i: int, j: int|
            0 <= i < j < self.active_plugins.len() ==> self.active_plugins[i].name()
                != self.active_plugins[j].name()
    }

    /// The directory that the plugins are installed in.
    pub closed spec fn root(&self) -> Seq<char> {
        self.plugins_path@
    }

    /// The registry: the name of each active plugin, with the path of its
    /// entry file.
    pub closed spec fn active(&self) -> Map<Seq<char>, Seq<char>> {
        Map::new(
            |name: Seq<char>| exists|i: int| self.runs(i, name),
            |name: Seq<char>| self.active_plugins[choose|i: int| self.runs(i, name)].path(),
        )
    }

    proof fn lemma_runner(self, i: int)
        requires
            self.distinct_names(),
            0 <= i < self.active_plugins.len(),
        ensures
            self.active().dom().contains(self.active_plugins[i].name()),
            self.active()[self.active_plugins[i].name()] == self.active_plugins[i].path(),
    {
        let name = self.active_plugins[i].name();
        assert(self.runs(i, name));
        let c = choose|c: int| self.runs(c, name);
        assert(self.runs(c, name));
        assert(c == i);
    }

    /// A manager for the plugins below `plugins_path`, with no plugin
    /// active.
    pub fn new(plugins_path: String) -> (r: Self)
        ensures
            r.root() == plugins_path@,
            r.active() == Map::<Seq<char>, Seq<char>>::empty(),
    {
        let r = PluginManager { plugins_path, active_plugins: Vec::new() };
        assert(r.active() =~= Map::<Seq<char>, Seq<char>>::empty());
        r
    }

    /// The directory that the plugins are installed in.
    pub fn plugins_path(&self) -> (r: &str)
        ensures
            r@ == self.root(),
    {
        self.plugins_path.as_str()
    }

    fn position(&self, name: &str) -> (r: Option<usize>)
        ensures
            match r {
                Some(i) => self.runs(i as int, name@),
                None => forall|i: int| !self.runs(i, name@),
            },
    {
        let mut i: usize = 0;
        while i < self.active_plugins.len()
            invariant
                i <= self.active_plugins.len(),
                forall|j: int| 0 <= j < i ==> !self.runs(j, name@),
            decreases self.active_plugins.len() - i,
        {
            if same_text(self.active_plugins[i].plugin_name(), name) {
                return Some(i);
            }
            i += 1;
        }
        None
    }

    /// Whether the plugin `plugin_name` is active.
    pub fn is_plugin_active(&self, plugin_name: &str) -> (r: bool)
        ensures
            r == self.active().dom().contains(plugin_name@),
    {
        self.position(plugin_name).is_some()
    }

    /// The runner of the plugin `plugin_name`, if it is active.
    pub fn runner(&self, plugin_name: &str) -> (r: Option<SimplePluginRunner>)
        ensures
            match r {
                Some(runner) => self.active().dom().contains(plugin_name@) && runner.name()
                    == plugin_name@ && runner.path() == self.active()[plugin_name@],
                None => !self.active().dom().contains(plugin_name@),
            },
    {
        proof {
            use_type_invariant(self);
        }
        match self.position(plugin_name) {
            Some(i) => {
                proof {
                    self.lemma_runner(i as int);
                }
                Some(self.active_plugins[i].clone())
            },
            None => None,
        }
    }

    /// The names of the active plugins, each once.
    pub fn get_active_plugin_names(&self) -> (r: Vec<String>)
        ensures
            texts(r@).no_duplicates(),
            forall|name: Seq<char>|
                texts(r@).contains(name) <==> self.active().dom().contains(name),
    {
        proof {
            use_type_invariant(self);
        }
        let mut names: Vec<String> = Vec::new();
        let mut i: usize = 0;
        while i < self.active_plugins.len()
            invariant
                i <= self.active_plugins.len(),
                names.len() == i,
                forall|j: int| 0 <= j < i ==> names[j]@ == self.active_plugins[j].name(),
            decreases self.active_plugins.len() - i,
        {
            names.push(self.active_plugins[i].plugin_name().to_owned());
            i += 1;
        }
        proof {
            let t = texts(names@);
            assert forall|a: int, b: int| 0 <= a < t.len() && 0 <= b < t.len() && a != b implies t[a]
                != t[b] by {
                if a < b {
                    assert(self.active_plugins[a].name() != self.active_plugins[b].name());
                } else {
                    assert(self.active_plugins[b].name() != self.active_plugins[a].name());
                }
            }
            assert forall|name: Seq<char>| t.contains(name) <==> self.active().dom().contains(
                name,
            ) by {
                if t.contains(name) {
                    let j = choose|j: int| 0 <= j < t.len() && t[j] == name;
                    assert(self.runs(j, name));
                }
                if self.active().dom().contains(name) {
                    let j = choose|j: int| self.runs(j, name);
                    assert(self.runs(j, name));
                    assert(t[j] == name);
                }
            }
        }
        names
    }

    /// The content sources that the user can choose: the built-in one, if
    /// the plugin behind it is active.
    pub fn get_repo_list(&self) -> (r: Vec<RepoOption>)
        ensures
            self.active().dom().contains(catalogue_plugin()) ==> r.len() == 1 && r[0].label@
                == "HQ Now"@ && r[0].value@ == "hqnow"@,
            !self.active().dom().contains(catalogue_plugin()) ==> r.len() == 0,
    {
        let mut repos: Vec<RepoOption> = Vec::new();
        if self.is_plugin_active("comic-universe-plugin-hqnow") {
            repos.push(RepoOption { label: "HQ Now".to_owned(), value: "hqnow".to_owned() });
        }
        repos
    }

    /// What a call of `method` on the plugin `plugin_name` comes to. A
    /// plugin that is not active is an ordinary outcome: the response says
    /// so, and nothing else happens.
    pub fn execute_plugin_method(&self, plugin_name: &str, method: &str, args: JsonValue) -> (r:
        Execution)
        ensures
            r@ == dispatched(self.active(), plugin_name@, method@, args@),
            !self.active().dom().contains(plugin_name@) ==> r@ == ExecutionModel::Done(
                not_active(plugin_name@),
            ),
    {
        match self.runner(plugin_name) {
            Some(runner) => runner.execute_method(method, args),
            None => {
                let error = PluginError::NotFound(
                    join(join("Plugin '", plugin_name).as_str(), "' not found or not active"),
                );
                Execution::Done(PluginResponse::failure(&error))
            },
        }
    }

    /// The same as [`PluginManager::execute_plugin_method`].
    pub fn execute_plugin_method_async(
        &self,
        plugin_name: &str,
        method: &str,
        args: JsonValue,
    ) -> (r: Execution)
        ensures
            r@ == dispatched(self.active(), plugin_name@, method@, args@),
    {
        self.execute_plugin_method(plugin_name, method, args)
    }

    /// The path of the entry file of a plugin: below the plugins directory,
    /// in the directory of the plugin's name.
    pub fn entry_path(&self, info: &PluginInfo) -> (r: String)
        ensures
            r@ == joined_path(joined_path(self.root(), info.name@), info.path@),
    {
        let folder = path_join(self.plugins_path.as_str(), info.name.as_str());
        path_join(folder.as_str(), info.path.as_str())
    }

    /// The first step of activating a plugin: where its entry file exists,
    /// its runner and the call that tests it; where it does not, what
    /// became of the plugin already.
    pub fn candidate(&self, info: &PluginInfo, entry_exists: bool) -> (r: Result<
        Candidate,
        Activation,
    >)
        ensures
            match r {
                Ok(c) => entry_exists && c.runner.name() == info.name@ && c.runner.path()
                    == joined_path(joined_path(self.root(), info.name@), info.path@) && c.test@
                    == planned(info.name@, "getList"@, JsonModel::Object(Map::empty())),
                Err(a) => !entry_exists && a is Missing && a.name() == info.name@,
            },
    {
        if entry_exists {
            match SimplePluginRunner::new(self.entry_path(info), info.name.clone()) {
                Ok(runner) => {
                    let test = runner.test_plugin();
                    Ok(Candidate { runner, test })
                },
                Err(_) => Err(Activation::Missing(info.name.clone())),
            }
        } else {
            Err(Activation::Missing(info.name.clone()))
        }
    }

    fn insert(&mut self, runner: &SimplePluginRunner)
        ensures
            final(self).root() == old(self).root(),
            final(self).active() == old(self).active().insert(runner.name(), runner.path()),
    {
        proof {
            use_type_invariant(&*self);
        }
        let ghost before = *self;
        let mut runners: Vec<SimplePluginRunner> = Vec::new();
        let found = self.position(runner.plugin_name());
        core::mem::swap(&mut self.active_plugins, &mut runners);
        match found {
            Some(i) => {
                runners.set(i, runner.clone());
            },
            None => {
                runners.push(runner.clone());
            },
        }
        proof {
            assert forall|a: int, b: int| 0 <= a < b < runners.len() implies runners[a].name()
                != runners[b].name() by {
                assert(before.runs(a, before.active_plugins[a].name()));
                if b < before.active_plugins.len() {
                    assert(before.runs(b, before.active_plugins[b].name()));
                }
            }
        }
        self.active_plugins = runners;
        proof {
            let after = *self;
            let name = runner.name();
            let slot = match found {
                Some(i) => i as int,
                None => before.active_plugins.len() as int,
            };
            assert(after.runs(slot, name));
            after.lemma_runner(slot);
            let goal = before.active().insert(name, runner.path());
            assert forall|k: Seq<char>| #[trigger]
                after.active().dom().contains(k) == goal.dom().contains(k) by {
                if after.active().dom().contains(k) && k != name {
                    let i = choose|i: int| after.runs(i, k);
                    assert(after.runs(i, k));
                    assert(before.runs(i, k));
                }
                if before.active().dom().contains(k) && k != name {
                    let i = choose|i: int| before.runs(i, k);
                    assert(before.runs(i, k));
                    assert(after.runs(i, k));
                }
            }
            assert forall|k: Seq<char>| #[trigger]
                after.active().dom().contains(k) implies after.active()[k] == goal[k] by {
                if k != name {
                    let i = choose|i: int| after.runs(i, k);
                    assert(after.runs(i, k));
                    assert(before.runs(i, k));
                    after.lemma_runner(i);
                    before.lemma_runner(i);
                }
            }
            assert(after.active() =~= goal);
        }
    }

    fn remove(&mut self, name: &str)
        ensures
            final(self).root() == old(self).root(),
            final(self).active() == old(self).active().remove(name@),
    {
        proof {
            use_type_invariant(&*self);
        }
        let ghost before = *self;
        let mut runners: Vec<SimplePluginRunner> = Vec::new();
        let found = self.position(name);
        match found {
            Some(i) => {
                core::mem::swap(&mut self.active_plugins, &mut runners);
                runners.remove(i);
                proof {
                    assert forall|a: int, b: int| 0 <= a < b < runners.len() implies runners[a].name()
                        != runners[b].name() by {
                        let x = if a < i {
                            a
                        } else {
                            a + 1
                        };
                        let y = if b < i {
                            b
                        } else {
                            b + 1
                        };
                        assert(runners[a] == before.active_plugins[x]);
                        assert(runners[b] == before.active_plugins[y]);
                    }
                }
                self.active_plugins = runners;
                proof {
                    let after = *self;
                    let goal = before.active().remove(name@);
                    assert forall|k: Seq<char>| #[trigger]
                        after.active().dom().contains(k) == goal.dom().contains(k) by {
                        if after.active().dom().contains(k) {
                            let j = choose|j: int| after.runs(j, k);
                            assert(after.runs(j, k));
                            let x = if j < i {
                                j
                            } else {
                                j + 1
                            };
                            assert(after.active_plugins[j] == before.active_plugins[x]);
                            assert(before.runs(x, k));
                            if k == name@ {
                                assert(before.runs(i as int, k));
                            }
                        }
                        if goal.dom().contains(k) {
                            let x = choose|x: int| before.runs(x, k);
                            assert(before.runs(x, k));
                            let j = if x < i {
                                x
                            } else {
                                x - 1
                            };
                            assert(after.active_plugins[j] == before.active_plugins[x]);
                            assert(after.runs(j, k));
                        }
                    }
                    assert forall|k: Seq<char>| #[trigger]
                        after.active().dom().contains(k) implies after.active()[k] == goal[k] by {
                        let j = choose|j: int| after.runs(j, k);
                        assert(after.runs(j, k));
                        let x = if j < i {
                            j
                        } else {
                            j + 1
                        };
                        assert(after.active_plugins[j] == before.active_plugins[x]);
                        assert(before.runs(x, k));
                        after.lemma_runner(j);
                        before.lemma_runner(x);
                    }
                    assert(after.active() =~= goal);
                }
            },
            None => {
                assert(before.active().remove(name@) =~= before.active());
            },
        }
    }

    /// Takes one activation of a pass into the registry: a plugin that
    /// passed is active from now on, with the runner that was tested; one
    /// that did not pass is not active from now on.
    fn settle(&mut self, activation: &Activation)
        ensures
            final(self).root() == old(self).root(),
            final(self).active() == settled_one(old(self).active(), *activation),
            final(self).active().dom().contains(activation.name()) <==> activation.passed(),
    {
        match activation {
            Activation::Missing(name) => self.remove(name.as_str()),
            Activation::Tested(runner, response) => {
                if response.success {
                    self.insert(runner);
                } else {
                    self.remove(runner.plugin_name());
                }
            },
        }
    }

    fn clear(&mut self)
        ensures
            final(self).root() == old(self).root(),
            final(self).active() == Map::<Seq<char>, Seq<char>>::empty(),
    {
        self.active_plugins = Vec::new();
        assert(self.active() =~= Map::<Seq<char>, Seq<char>>::empty());
    }

    /// Makes the registry that of the pass: afterwards a plugin is active
    /// if and only if it passed in this pass, with the runner that was
    /// tested. What the registry held before does not count: a plugin that
    /// the pass does not deal with is not active afterwards.
    pub fn activation_pass(&mut self, pass: &Vec<Activation>)
        ensures
            final(self).root() == old(self).root(),
            final(self).active() == registry_of(pass@),
            forall|name: Seq<char>| #[trigger]
                final(self).active().dom().contains(name) <==> passed_in(pass@, name),
    {
        self.clear();
        let mut i: usize = 0;
        assert(pass@.take(0) =~= Seq::<Activation>::empty());
        while i < pass.len()
            invariant
                i <= pass.len(),
                self.root() == old(self).root(),
                self.active() == registry_of(pass@.take(i as int)),
            decreases pass.len() - i,
        {
            proof {
                let next = pass@.take(i + 1);
                assert(next.drop_last() =~= pass@.take(i as int));
                assert(next.last() == pass@[i as int]);
            }
            self.settle(&pass[i]);
            i += 1;
        }
        assert(pass@.take(pass.len() as int) =~= pass@);
        proof {
            assert forall|name: Seq<char>| #[trigger]
                self.active().dom().contains(name) <==> passed_in(pass@, name) by {
                lemma_registry_is_latest_pass(pass@, name);
            }
        }
    }
}

/// A call of a plugin that is not active never reaches a runner and never
/// asks for a request: it is answered at once, without success, and the
/// error names the plugin.
pub proof fn lemma_inactive_plugin_is_not_found(
    active: Map<Seq<char>, Seq<char>>,
    name: Seq<char>,
    method: Seq<char>,
    args: JsonModel,
)
    requires
        !active.dom().contains(name),
    ensures
        dispatched(active, name, method, args) == ExecutionModel::Done(not_active(name)),
        !not_active(name).success,
        not_active(name).data is None,
        not_active(name).error == Some("Plugin '"@ + name + "' not found or not active"@),
{
}

/// Taking the activations of a pass into a registry one by one, a plugin
/// that the pass deals with ends up in it if and only if it passed when
/// the pass last dealt with it; it then has the runner that was tested.
pub proof fn lemma_pass_decides(active: Map<Seq<char>, Seq<char>>, pass: Seq<Activation>, k: int)
    requires
        is_last_of(pass, pass[k].name(), k),
    ensures
        settled(active, pass).dom().contains(pass[k].name()) <==> pass[k].passed(),
        pass[k].passed() ==> settled(active, pass)[pass[k].name()] == pass[k]->Tested_0.path(),
    decreases pass.len(),
{
    if k < pass.len() - 1 {
        let rest = pass.drop_last();
        assert(rest[k] == pass[k]);
        assert forall|j: int| k < j < rest.len() implies (#[trigger] rest[j]).name()
            != rest[k].name() by {
            assert(rest[j] == pass[j]);
        }
        lemma_pass_decides(active, rest, k);
    }
}

/// After an activation pass, a plugin is in the registry if and only if
/// it passed in that pass.
pub proof fn lemma_registry_is_latest_pass(pass: Seq<Activation>, name: Seq<char>)
    ensures
        registry_of(pass).dom().contains(name) <==> passed_in(pass, name),
    decreases pass.len(),
{
    if pass.len() > 0 {
        let rest = pass.drop_last();
        let last = pass.len() - 1;
        lemma_registry_is_latest_pass(rest, name);
        if pass[last].name() == name {
            assert(is_last_of(pass, name, last));
            assert forall|k: int| is_last_of(pass, name, k) implies k == last by {
                if k < last {
                    assert(pass[last].name() != name);
                }
            }
        } else {
            assert forall|k: int| is_last_of(pass, name, k) implies is_last_of(rest, name, k) by {
                assert(rest[k] == pass[k]);
                assert forall|j: int| k < j < rest.len() implies (#[trigger] rest[j]).name()
                    != name by {
                    assert(rest[j] == pass[j]);
                }
            }
            assert forall|k: int| is_last_of(rest, name, k) implies is_last_of(pass, name, k) by {
                assert(rest[k] == pass[k]);
                assert forall|j: int| k < j < pass.len() implies (#[trigger] pass[j]).name()
                    != name by {
                    if j < rest.len() {
                        assert(rest[j] == pass[j]);
                    }
                }
            }
            if passed_in(pass, name) {
                let k = choose|k: int| is_last_of(pass, name, k) && pass[k].passed();
                assert(is_last_of(rest, name, k) && rest[k].passed());
            }
            if passed_in(rest, name) {
                let k = choose|k: int| is_last_of(rest, name, k) && rest[k].passed();
                assert(is_last_of(pass, name, k) && pass[k].passed());
            }
        }
    }
}

/// A plugin that the pass does not deal with is not active after the
/// pass, whether it was active before or not.
pub proof fn lemma_pass_drops_others(pass: Seq<Activation>, name: Seq<char>)
    requires
        forall|j: int| 0 <= j < pass.len() ==> (#[trigger] pass[j]).name() != name,
    ensures
        !registry_of(pass).dom().contains(name),
{
    lemma_registry_is_latest_pass(pass, name);
}

/// Every plugin that is active after a pass was tested in that pass, and
/// the response to its test call told of success.
pub proof fn lemma_active_plugins_passed(pass: Seq<Activation>, name: Seq<char>)
    requires
        registry_of(pass).dom().contains(name),
    ensures
        exists|k: int|
            0 <= k < pass.len() && (#[trigger] pass[k]).name() == name && pass[k] is Tested
                && pass[k]->Tested_1.success,
{
    lemma_registry_is_latest_pass(pass, name);
    let k = choose|k: int| is_last_of(pass, name, k) && pass[k].passed();
    assert(pass[k].name() == name && pass[k] is Tested && pass[k]->Tested_1.success);
}

/// A plugin whose test call did not succeed when the pass last dealt with
/// it is not active after the pass, however earlier passes went for it.
pub proof fn lemma_failed_test_deactivates(pass: Seq<Activation>, k: int)
    requires
        is_last_of(pass, pass[k].name(), k),
        !pass[k].passed(),
    ensures
        !registry_of(pass).dom().contains(pass[k].name()),
{
    lemma_pass_decides(Map::empty(), pass, k);
}

/// The text under `key` in a manifest, or `default` where the manifest has
/// no text there.
pub open spec fn text_or(doc: JsonModel, key: Seq<char>, default: Seq<char>) -> Seq<char> {
    match doc.text_field(key) {
        Some(t) => t,
        None => default,
    }
}

/// Whether `info` is what the manifest `doc` says of the plugin in the
/// directory `folder` below `root`: each field as the manifest gives it, or
/// its default.
pub open spec fn describes(
    info: PluginInfo,
    root: Seq<char>,
    folder: Seq<char>,
    doc: JsonModel,
) -> bool {
    &&& info.name@ == text_or(doc, "name"@, folder)
    &&& info.path@ == text_or(doc, "main"@, "index.js"@)
    &&& match info.author {
        Some(author) => doc.text_field("author"@) == Some(author@),
        None => doc.text_field("author"@) is None,
    }
    &&& info.version@ == text_or(doc, "version"@, "0.0.0"@)
    &&& info.repository@ == text_or(doc, "repository"@, ""@)
    &&& info.icon_path@ == joined_path(
        joined_path(root, folder),
        text_or(doc, "icon"@, "icon.png"@),
    )
}

/// The manifest of a directory, where it has one that is a JSON text.
pub open spec fn manifest_of(folder: InstalledFolder) -> Option<JsonModel> {
    match folder.manifest {
        Some(text) => match parsed_document(text@) {
            Ok(doc) => Some(doc),
            Err(_) => None,
        },
        None => None,
    }
}

/// The directories of `folders` that have a manifest, each with its
/// manifest, in order.
pub open spec fn with_manifest(folders: Seq<InstalledFolder>) -> Seq<(Seq<char>, JsonModel)>
    decreases folders.len(),
{
    if folders.len() == 0 {
        Seq::empty()
    } else {
        match manifest_of(folders.last()) {
            Some(doc) => with_manifest(folders.drop_last()).push((folders.last().name@, doc)),
            None => with_manifest(folders.drop_last()),
        }
    }
}

/// Where the plugins are installed: in development below the parent of the
/// working directory, else below the data directory of the user.
pub open spec fn plugins_root(is_dev: bool, base: Seq<char>) -> Result<Seq<char>, ErrorModel> {
    if is_dev {
        match parent_path(base) {
            Some(parent) => Ok(joined_path(parent, "plugins"@)),
            None => Err(ErrorModel::Io("Could not find project root directory"@)),
        }
    } else {
        Ok(joined_path(joined_path(base, "comic-universe"@), "plugins"@))
    }
}

fn text_or_default(doc: &JsonValue, key: &str, default: &str) -> (r: String)
    ensures
        r@ == text_or(doc@, key@, default@),
{
    match doc.text_field(key) {
        Some(t) => t.to_owned(),
        None => default.to_owned(),
    }
}

impl PluginManager {
    /// Where the plugins are installed, given the directory to start from:
    /// the working directory in development, else the data directory of
    /// the user.
    pub fn plugins_root(is_dev: bool, base: &str) -> (r: Result<String, PluginError>)
        ensures
            match r {
                Ok(path) => plugins_root(is_dev, base@) == Ok::<Seq<char>, ErrorModel>(path@),
                Err(e) => plugins_root(is_dev, base@) == Err::<Seq<char>, ErrorModel>(e@),
            },
    {
        if is_dev {
            match path_parent(base) {
                Some(parent) => Ok(path_join(parent.as_str(), "plugins")),
                None => Err(PluginError::Io("Could not find project root directory".to_owned())),
            }
        } else {
            let data = path_join(base, "comic-universe");
            Ok(path_join(data.as_str(), "plugins"))
        }
    }

    /// The path of the manifest of the plugin in the directory `folder`.
    pub fn manifest_path(&self, folder: &str) -> (r: String)
        ensures
            r@ == joined_path(joined_path(self.root(), folder@), "package.json"@),
    {
        let folder_path = path_join(self.plugins_path.as_str(), folder);
        path_join(folder_path.as_str(), "package.json")
    }

    /// What the manifest `doc` says of the plugin in the directory
    /// `folder`. A field that the manifest does not give as text gets its
    /// default: the name of the directory, `index.js`, no author, version
    /// `0.0.0`, no repository, and `icon.png` in the plugin's directory.
    pub fn info_from(&self, folder: &str, doc: &JsonValue) -> (r: PluginInfo)
        ensures
            describes(r, self.root(), folder@, doc@),
    {
        let folder_path = path_join(self.plugins_path.as_str(), folder);
        let icon = text_or_default(doc, "icon", "icon.png");
        PluginInfo {
            name: text_or_default(doc, "name", folder),
            path: text_or_default(doc, "main", "index.js"),
            author: match doc.text_field("author") {
                Some(a) => Some(a.to_owned()),
                None => None,
            },
            version: text_or_default(doc, "version", "0.0.0"),
            repository: text_or_default(doc, "repository", ""),
            icon_path: path_join(folder_path.as_str(), icon.as_str()),
        }
    }

    /// What the manifest with the text `manifest` says of the plugin in the
    /// directory `folder`; nothing where the text is no JSON text.
    pub fn describe(&self, folder: &str, manifest: &str) -> (r: Option<PluginInfo>)
        ensures
            match r {
                Some(info) => parsed_document(manifest@) is Ok && describes(
                    info,
                    self.root(),
                    folder@,
                    parsed_document(manifest@)->Ok_0,
                ),
                None => parsed_document(manifest@) is Err,
            },
    {
        match JsonValue::parse(manifest) {
            Ok(doc) => Some(self.info_from(folder, &doc)),
            Err(_) => None,
        }
    }

    /// The installed plugins: one for each directory with a manifest that
    /// is a JSON text, in the order of `folders`. A directory without such a
    /// manifest is passed over.
    pub fn get_plugin_info_list(&self, folders: &Vec<InstalledFolder>) -> (r: Vec<PluginInfo>)
        ensures
            r.len() == with_manifest(folders@).len(),
            forall|i: int|
                0 <= i < r.len() ==> describes(
                    #[trigger] r[i],
                    self.root(),
                    with_manifest(folders@)[i].0,
                    with_manifest(folders@)[i].1,
                ),
    {
        let mut out: Vec<PluginInfo> = Vec::new();
        let mut i: usize = 0;
        assert(folders@.take(0) =~= Seq::<InstalledFolder>::empty());
        while i < folders.len()
            invariant
                i <= folders.len(),
                out.len() == with_manifest(folders@.take(i as int)).len(),
                forall|j: int|
                    0 <= j < out.len() ==> describes(
                        #[trigger] out[j],
                        self.root(),
                        with_manifest(folders@.take(i as int))[j].0,
                        with_manifest(folders@.take(i as int))[j].1,
                    ),
            decreases folders.len() - i,
        {
            proof {
                let next = folders@.take(i + 1);
                assert(next.drop_last() =~= folders@.take(i as int));
                assert(next.last() == folders@[i as int]);
            }
            let folder = &folders[i];
            match &folder.manifest {
                Some(text) => match self.describe(folder.name.as_str(), text.as_str()) {
                    Some(info) => {
                        out.push(info);
                    },
                    None => {},
                },
                None => {},
            }
            i += 1;
        }
        assert(folders@.take(folders.len() as int) =~= folders@);
        out
    }
}

/// A content source that a loaded plugin provides.
pub trait PluginRepository: Send + Sync {
    fn repo_name(&self) -> &str;

    fn repo_tag(&self) -> &str;
}

} // verus!
