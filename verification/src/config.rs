//! The configuration: repositories, charts, mirrors, variables and global
//! patches, and how a chart is completed from the global parts.
use vstd::prelude::*;
use crate::extension::Extension;
use crate::inclusion::Include;
use crate::patch::Patch;
use crate::text::{concat3, copy_opt, copy_strings, str_eq};
use crate::vars::Variables;

verus! {

/// The whole configuration file.
pub struct Config {
    pub includes: Option<Vec<Include>>,
    pub variables: Option<Variables>,
    pub repositories: Option<Vec<Repository>>,
    pub charts: Option<Vec<Chart>>,
    pub mirrors: Option<Vec<Mirror>>,
    pub patches: Option<Vec<Patch>>,
}

/// The two kinds of repository a chart can come from.
#[derive(PartialEq, Eq, Structural, Clone, Copy, Debug)]
pub enum RepositoryKind {
    Helm,
    Git,
}

/// A repository that charts refer to by name.
pub struct Repository {
    pub name: String,
    pub helm: Option<Helm>,
    pub git: Option<Git>,
}

/// A helm repository.
pub struct Helm {
    pub url: String,
}

/// A git repository holding charts under `path`, checked out at `git_ref`.
pub struct Git {
    pub url: String,
    pub git_ref: String,
    pub path: String,
}

/// A place that charts are mirrored to.
pub struct Mirror {
    pub name: String,
    pub git: Option<GitMirror>,
    pub custom_command: Option<CustomCommandsMirror>,
}

/// Commands that package a chart and upload it.
pub struct CustomCommandsMirror {
    pub package: Vec<String>,
    pub upload: Vec<String>,
}

/// A git repository that charts are pushed to. All fields but `rebase` are
/// templates.
pub struct GitMirror {
    pub url: String,
    pub path: Option<String>,
    pub branch: String,
    pub commit: Option<String>,
    pub git_dir: Option<String>,
    pub default_branch: Option<String>,
    pub rebase: Option<bool>,
}

/// A mirror, with its command lists as sequences.
pub struct MirrorView {
    pub name: String,
    pub git: Option<GitMirror>,
    pub custom_command: Option<(Seq<String>, Seq<String>)>,
}

impl View for Mirror {
    type V = MirrorView;

    open spec fn view(&self) -> MirrorView {
        MirrorView {
            name: self.name,
            git: self.git,
            custom_command: match self.custom_command {
                Some(c) => Some((c.package@, c.upload@)),
                None => None,
            },
        }
    }
}

impl GitMirror {
    fn duplicate(&self) -> (r: GitMirror)
        ensures
            r == *self,
    {
        GitMirror {
            url: self.url.clone(),
            path: copy_opt(&self.path),
            branch: self.branch.clone(),
            commit: copy_opt(&self.commit),
            git_dir: copy_opt(&self.git_dir),
            default_branch: copy_opt(&self.default_branch),
            rebase: self.rebase,
        }
    }
}

impl Mirror {
    /// A copy of this mirror.
    pub fn duplicate(&self) -> (r: Mirror)
        ensures
            r@ == self@,
    {
        Mirror {
            name: self.name.clone(),
            git: match &self.git {
                Some(g) => Some(g.duplicate()),
                None => None,
            },
            custom_command: match &self.custom_command {
                Some(c) => Some(
                    CustomCommandsMirror {
                        package: copy_strings(&c.package),
                        upload: copy_strings(&c.upload),
                    },
                ),
                None => None,
            },
        }
    }
}

/// A chart to mirror, as configured.
pub struct Chart {
    pub name: String,
    pub repository: String,
    pub mirrors: Vec<String>,
    pub version: Option<String>,
    pub extensions: Option<Vec<Extension>>,
    pub patches: Option<Vec<Patch>>,
    pub variables: Option<Variables>,
    pub repository_obj: Option<Repository>,
    pub mirror_objs: Option<Vec<Mirror>>,
}

/// Why a chart cannot be completed or sourced.
pub enum ConfigError {
    /// No repository has the name that the chart refers to.
    RepoNotFound(String),
    /// The chart's repository is neither a helm nor a git repository.
    UnknownRepositoryKind,
    /// The chart's repository has not been looked up.
    RepositoryNotFilled,
}

impl ConfigError {
    /// The message that describes the error.
    pub fn message(&self) -> (r: String)
        ensures
            r@ == match self {
                ConfigError::RepoNotFound(n) => "repo "@ + n@ + " is not found in the repo list"@,
                ConfigError::UnknownRepositoryKind => "unknown repository kind is found"@,
                ConfigError::RepositoryNotFilled => "repository object is not filled up for the chart"@,
            },
    {
        match self {
            ConfigError::RepoNotFound(n) => concat3("repo ", n.as_str(), " is not found in the repo list"),
            ConfigError::UnknownRepositoryKind => "unknown repository kind is found".to_owned(),
            ConfigError::RepositoryNotFilled => "repository object is not filled up for the chart".to_owned(),
        }
    }
}

/// The copies of `g` that a chart asking for the mirrors `names` gets: one
/// for each name equal to that of `g`.
pub open spec fn copies_for(g: Mirror, names: Seq<String>) -> Seq<MirrorView>
    decreases names.len(),
{
    if names.len() == 0 {
        Seq::empty()
    } else {
        copies_for(g, names.drop_last()) + if names.last()@ == g.name@ {
            seq![g@]
        } else {
            Seq::empty()
        }
    }
}

/// The mirrors that a chart asking for `names` gets from the global mirrors
/// `globals`: in the order of `globals`, each as often as it is asked for.
pub open spec fn selected_mirrors(globals: Seq<Mirror>, names: Seq<String>) -> Seq<MirrorView>
    decreases globals.len(),
{
    if globals.len() == 0 {
        Seq::empty()
    } else {
        selected_mirrors(globals.drop_last(), names) + copies_for(globals.last(), names)
    }
}

/// The first position in `repos` of a repository named `n`.
pub open spec fn is_first_repo(repos: Seq<Repository>, n: Seq<char>, i: int) -> bool {
    &&& 0 <= i < repos.len()
    &&& repos[i].name@ == n
    &&& forall|j: int| 0 <= j < i ==> repos[j].name@ != n
}

/// The variables of a chart, or none.
pub open spec fn vars_or_empty(v: Option<Variables>) -> Map<Seq<char>, Seq<char>> {
    match v {
        Some(x) => x@,
        None => Map::empty(),
    }
}

impl Chart {
    /// Merges the global variables into the chart's: where both set a name,
    /// the global value is kept.
    pub fn populate_variables(&mut self, global_variables: Option<Variables>)
        ensures
            global_variables is None ==> *final(self) == *old(self),
            global_variables matches Some(g) ==> {
                &&& final(self).variables matches Some(v) && v@ == vars_or_empty(
                    old(self).variables,
                ).union_prefer_right(g@)
                &&& *final(self) == (Chart { variables: final(self).variables, ..*old(self) })
            },
    {
        if let Some(global_vars) = global_variables {
            let merged = match self.variables.take() {
                Some(mut vars) => {
                    vars.extend(&global_vars);
                    vars
                },
                None => {
                    proof {
                        assert(global_vars@ =~= Map::<Seq<char>, Seq<char>>::empty().union_prefer_right(global_vars@));
                    }
                    global_vars
                },
            };
            self.variables = Some(merged);
        }
    }

    /// Finds the repository the chart refers to and keeps it.
    #[verifier::loop_isolation(false)]
    pub fn populate_repository(&mut self, repositories: Vec<Repository>) -> (r: Result<
        (),
        ConfigError,
    >)
        ensures
            r is Ok <==> exists|i: int|
                0 <= i < repositories@.len() && repositories@[i].name@ == old(self).repository@,
            r is Ok ==> exists|i: int|
                is_first_repo(repositories@, old(self).repository@, i) && *final(self) == (Chart {
                    repository_obj: Some(repositories@[i]),
                    ..*old(self)
                }),
            r is Err ==> *final(self) == *old(self) && r == Err::<(), ConfigError>(
                ConfigError::RepoNotFound(old(self).repository),
            ),
    {
        let mut repositories = repositories;
        let ghost repos = repositories@;
        let n = repositories.len();
        for i in 0..n
            invariant
                n == repositories@.len(),
                repositories@ == repos,
                *self == *old(self),
                forall|j: int| 0 <= j < i ==> repos[j].name@ != self.repository@,
        {
            if str_eq(repositories[i].name.as_str(), self.repository.as_str()) {
                let repo = repositories.remove(i);
                self.repository_obj = Some(repo);
                assert(is_first_repo(repos, old(self).repository@, i as int));
                return Ok(());
            }
        }
        Err(ConfigError::RepoNotFound(self.repository.clone()))
    }

    /// Keeps the global mirrors that the chart asks for, in the order of the
    /// global list; where the chart asks for none of them, nothing changes.
    pub fn populate_mirrors(&mut self, mirrors: Vec<Mirror>) -> (r: Result<(), ConfigError>)
        ensures
            r is Ok,
            selected_mirrors(mirrors@, old(self).mirrors@).len() == 0 ==> *final(self) == *old(
                self,
            ),
            selected_mirrors(mirrors@, old(self).mirrors@).len() > 0 ==> {
                &&& final(self).mirror_objs matches Some(m) && m@.map_values(|x: Mirror| x@)
                    == selected_mirrors(mirrors@, old(self).mirrors@)
                &&& *final(self) == (Chart { mirror_objs: final(self).mirror_objs, ..*old(self) })
            },
    {
        let mut mirror_objs: Vec<Mirror> = Vec::new();
        let ng = mirrors.len();
        let nn = self.mirrors.len();
        for i in 0..ng
            invariant
                ng == mirrors@.len(),
                nn == self.mirrors@.len(),
                *self == *old(self),
                mirror_objs@.map_values(|x: Mirror| x@) == selected_mirrors(
                    mirrors@.take(i as int),
                    self.mirrors@,
                ),
        {
            let ghost before = mirror_objs@.map_values(|x: Mirror| x@);
            for j in 0..nn
                invariant
                    ng == mirrors@.len(),
                    nn == self.mirrors@.len(),
                    i < ng,
                    *self == *old(self),
                    mirror_objs@.map_values(|x: Mirror| x@) == before + copies_for(
                        mirrors@[i as int],
                        self.mirrors@.take(j as int),
                    ),
            {
                let ghost inner = mirror_objs@.map_values(|x: Mirror| x@);
                if str_eq(self.mirrors[j].as_str(), mirrors[i].name.as_str()) {
                    mirror_objs.push(mirrors[i].duplicate());
                }
                proof {
                    let t = self.mirrors@.take(j + 1);
                    assert(t.drop_last() =~= self.mirrors@.take(j as int));
                    assert(t.last() == self.mirrors@[j as int]);
                    assert(mirror_objs@.map_values(|x: Mirror| x@) =~= inner + if t.last()@
                        == mirrors@[i as int].name@ {
                        seq![mirrors@[i as int]@]
                    } else {
                        Seq::empty()
                    });
                }
            }
            proof {
                assert(self.mirrors@.take(nn as int) =~= self.mirrors@);
                let t = mirrors@.take(i + 1);
                assert(t.drop_last() =~= mirrors@.take(i as int));
                assert(t.last() == mirrors@[i as int]);
            }
        }
        assert(mirrors@.take(ng as int) =~= mirrors@);
        if mirror_objs.len() > 0 {
            self.mirror_objs = Some(mirror_objs);
        }
        Ok(())
    }

    /// The URL of the chart's helm repository, or empty where the repository
    /// has not been looked up.
    pub fn get_helm_repository_url(&self) -> (r: String)
        requires
            self.repository_obj matches Some(repo) ==> repo.helm is Some,
        ensures
            r@ == match self.repository_obj {
                Some(repo) => repo.helm.unwrap().url@,
                None => Seq::empty(),
            },
    {
        match &self.repository_obj {
            Some(repo) => repo.helm.as_ref().unwrap().url.clone(),
            None => String::new(),
        }
    }

    /// The URL of the chart's git repository, or empty where the repository
    /// has not been looked up.
    pub fn get_git_repository_url(&self) -> (r: String)
        requires
            self.repository_obj matches Some(repo) ==> repo.git is Some,
        ensures
            r@ == match self.repository_obj {
                Some(repo) => repo.git.unwrap().url@,
                None => Seq::empty(),
            },
    {
        match &self.repository_obj {
            Some(repo) => repo.git.as_ref().unwrap().url.clone(),
            None => String::new(),
        }
    }

    /// The git reference of the chart's git repository, or empty where the
    /// repository has not been looked up.
    pub fn get_git_repository_ref(&self) -> (r: String)
        requires
            self.repository_obj matches Some(repo) ==> repo.git is Some,
        ensures
            r@ == match self.repository_obj {
                Some(repo) => repo.git.unwrap().git_ref@,
                None => Seq::empty(),
            },
    {
        match &self.repository_obj {
            Some(repo) => repo.git.as_ref().unwrap().git_ref.clone(),
            None => String::new(),
        }
    }

    /// The chart directory inside the chart's git repository, or empty where
    /// the repository has not been looked up.
    pub fn get_git_repository_path(&self) -> (r: String)
        requires
            self.repository_obj matches Some(repo) ==> repo.git is Some,
        ensures
            r@ == match self.repository_obj {
                Some(repo) => repo.git.unwrap().path@,
                None => Seq::empty(),
            },
    {
        match &self.repository_obj {
            Some(repo) => repo.git.as_ref().unwrap().path.clone(),
            None => String::new(),
        }
    }

    /// The kind of the chart's repository.
    pub fn get_repo_kind(&self) -> (r: Result<RepositoryKind, ConfigError>)
        ensures
            r == self.repo_kind_of_chart(),
    {
        match &self.repository_obj {
            Some(res) => {
                if res.helm.is_some() {
                    Ok(RepositoryKind::Helm)
                } else if res.git.is_some() {
                    Ok(RepositoryKind::Git)
                } else {
                    Err(ConfigError::UnknownRepositoryKind)
                }
            },
            None => Err(ConfigError::RepositoryNotFilled),
        }
    }

    /// The kind of the chart's repository: that of a helm repository where
    /// it is one (even where it also is a git repository), else that of a
    /// git repository.
    pub open spec fn repo_kind_of_chart(&self) -> Result<RepositoryKind, ConfigError> {
        match self.repository_obj {
            Some(repo) => if repo.helm is Some {
                Ok::<RepositoryKind, ConfigError>(RepositoryKind::Helm)
            } else if repo.git is Some {
                Ok(RepositoryKind::Git)
            } else {
                Err(ConfigError::UnknownRepositoryKind)
            },
            None => Err(ConfigError::RepositoryNotFilled),
        }
    }
}

/// Merging the same global variables into a chart twice gives what merging
/// them once gives.
pub proof fn lemma_populate_variables_idempotent(
    chart_vars: Map<Seq<char>, Seq<char>>,
    global_vars: Map<Seq<char>, Seq<char>>,
)
    ensures
        chart_vars.union_prefer_right(global_vars).union_prefer_right(global_vars)
            == chart_vars.union_prefer_right(global_vars),
{
    assert(chart_vars.union_prefer_right(global_vars).union_prefer_right(global_vars)
        =~= chart_vars.union_prefer_right(global_vars));
}

/// After merging, every global variable has its global value, and every
/// other variable of the chart keeps its own.
pub proof fn lemma_global_variables_win(
    chart_vars: Map<Seq<char>, Seq<char>>,
    global_vars: Map<Seq<char>, Seq<char>>,
    name: Seq<char>,
)
    ensures
        global_vars.dom().contains(name) ==> chart_vars.union_prefer_right(global_vars)[name]
            == global_vars[name],
        !global_vars.dom().contains(name) && chart_vars.dom().contains(name)
            ==> chart_vars.union_prefer_right(global_vars)[name] == chart_vars[name],
{
}

/// Every mirror that a chart gets from the global mirrors is one it asks
/// for by name.
pub proof fn lemma_selected_mirrors_are_requested(globals: Seq<Mirror>, names: Seq<String>)
    ensures
        forall|k: int|
            0 <= k < selected_mirrors(globals, names).len() ==> exists|j: int|
                0 <= j < names.len() && names[j]@ == #[trigger] selected_mirrors(
                    globals,
                    names,
                )[k].name@,
    decreases globals.len(),
{
    if globals.len() > 0 {
        lemma_selected_mirrors_are_requested(globals.drop_last(), names);
        lemma_copies_are_requested(globals.last(), names);
        let a = selected_mirrors(globals.drop_last(), names);
        let b = copies_for(globals.last(), names);
        assert forall|k: int| 0 <= k < (a + b).len() implies exists|j: int|
            0 <= j < names.len() && names[j]@ == #[trigger] (a + b)[k].name@ by {
            if k < a.len() {
                assert((a + b)[k] == a[k]);
            } else {
                assert((a + b)[k] == b[k - a.len()]);
            }
        }
    }
}

/// Every global mirror that a chart asks for by name is selected for it:
/// none is left out, the last of the global mirrors no more than any other.
pub proof fn lemma_requested_mirrors_are_selected(
    globals: Seq<Mirror>,
    names: Seq<String>,
    i: int,
    j: int,
)
    requires
        0 <= i < globals.len(),
        0 <= j < names.len(),
        names[j]@ == globals[i].name@,
    ensures
        selected_mirrors(globals, names).contains(globals[i]@),
    decreases globals.len(),
{
    let a = selected_mirrors(globals.drop_last(), names);
    let b = copies_for(globals.last(), names);
    assert(selected_mirrors(globals, names) == a + b);
    if i == globals.len() - 1 {
        lemma_copies_when_requested(globals.last(), names, j);
        lemma_copies_are_requested(globals.last(), names);
        assert((a + b)[a.len() as int] == b[0]);
    } else {
        assert(globals.drop_last()[i] == globals[i]);
        lemma_requested_mirrors_are_selected(globals.drop_last(), names, i, j);
        let k = choose|k: int| 0 <= k < a.len() && a[k] == globals[i]@;
        assert((a + b)[k] == a[k]);
    }
}

proof fn lemma_copies_when_requested(g: Mirror, names: Seq<String>, j: int)
    requires
        0 <= j < names.len(),
        names[j]@ == g.name@,
    ensures
        copies_for(g, names).len() > 0,
    decreases names.len(),
{
    if j < names.len() - 1 {
        assert(names.drop_last()[j] == names[j]);
        lemma_copies_when_requested(g, names.drop_last(), j);
    }
}

proof fn lemma_copies_are_requested(g: Mirror, names: Seq<String>)
    ensures
        forall|k: int|
            0 <= k < copies_for(g, names).len() ==> copies_for(g, names)[k] == g@,
        copies_for(g, names).len() > 0 ==> exists|j: int| 0 <= j < names.len() && names[j]@ == g.name@,
    decreases names.len(),
{
    if names.len() > 0 {
        lemma_copies_are_requested(g, names.drop_last());
        if copies_for(g, names.drop_last()).len() > 0 {
            let j = choose|j: int| 0 <= j < names.drop_last().len() && names.drop_last()[j]@ == g.name@;
            assert(names[j] == names.drop_last()[j]);
        } else if names.last()@ == g.name@ {
            assert(names[names.len() - 1]@ == g.name@);
        }
    }
}

} // verus!
