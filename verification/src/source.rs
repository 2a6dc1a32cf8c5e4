//! Where charts come from: helm repositories and git repositories, and the
//! steps that pull a chart from each.
use vstd::prelude::*;
use vstd::string::*;
use vstd::utf8::encode_utf8;
use base64::Engine;
use crate::config::{Chart, ConfigError, RepositoryKind};
use crate::step::{Step, StepView};
use crate::text::{concat2, concat3, concat4, join, join_path, str_eq};
use crate::vars::Variables;

verus! {

/// A chart that has been pulled into the working directory.
pub struct ChartLocal {
    pub name: String,
    pub version: String,
    pub path: String,
    pub repo_url: String,
    pub vars: Variables,
}

impl ChartLocal {
    /// A fixed marker string.
    pub fn test(&self) -> (r: String)
        ensures
            r@ == "test-me-if-you-can"@,
    {
        "test-me-if-you-can".to_owned()
    }
}

/// The character that the value `v` (below 64) stands for in the standard
/// base64 alphabet.
pub open spec fn b64_char(v: int) -> char {
    if v < 26 {
        ('A' as int + v) as char
    } else if v < 52 {
        ('a' as int + (v - 26)) as char
    } else if v < 62 {
        ('0' as int + (v - 52)) as char
    } else if v == 62 {
        '+'
    } else {
        '/'
    }
}

/// The standard base64 encoding of `b`, without padding.
pub open spec fn base64_no_pad(b: Seq<u8>) -> Seq<char>
    decreases b.len(),
{
    if b.len() == 0 {
        Seq::empty()
    } else if b.len() == 1 {
        seq![b64_char(b[0] as int / 4), b64_char((b[0] as int % 4) * 16)]
    } else if b.len() == 2 {
        seq![
            b64_char(b[0] as int / 4),
            b64_char((b[0] as int % 4) * 16 + b[1] as int / 16),
            b64_char((b[1] as int % 16) * 4),
        ]
    } else {
        seq![
            b64_char(b[0] as int / 4),
            b64_char((b[0] as int % 4) * 16 + b[1] as int / 16),
            b64_char((b[1] as int % 16) * 4 + b[2] as int / 64),
            b64_char(b[2] as int % 64),
        ] + base64_no_pad(b.skip(3))
    }
}

/// Calls `encode` of the `base64` crate's `STANDARD_NO_PAD` engine on the
/// UTF-8 bytes of `s`. Claimed: the result is the standard base64 encoding
/// of those bytes, without padding.
#[verifier::external_body]
fn encode_no_pad(s: &str) -> (r: String)
    ensures
        r@ == base64_no_pad(encode_utf8(s@)),
{
    base64::engine::general_purpose::STANDARD_NO_PAD.encode(s)
}

/// The name under which a repository is known locally: the base64 encoding
/// of its URL.
pub open spec fn local_name(url: Seq<char>) -> Seq<char> {
    base64_no_pad(encode_utf8(url))
}

/// The command whose output is the chart's metadata, holding its version.
pub open spec fn version_query_spec() -> Seq<char> {
    "helm show chart . | yq '.version'"@
}

/// The command, run from a chart's directory, whose output is the chart's
/// version.
pub fn version_query() -> (r: String)
    ensures
        r@ == version_query_spec(),
{
    "helm show chart . | yq '.version'".to_owned()
}

/// How a chart is pulled, given in the order the work happens: the
/// `prepare` steps; `show_chart`, whose output holds the chart's version;
/// moving `unpacked_dir` to `versioned_prefix` followed by that version; the
/// `cleanup` steps; and reading the version again from the new directory
/// with `version_query`.
pub struct PullPlan {
    pub prepare: Vec<Step>,
    pub show_chart: String,
    pub unpacked_dir: String,
    pub cleanup: Vec<Step>,
    pub chart: String,
    pub repo_url: String,
    pub versioned_prefix: String,
}

/// A pull plan, with its strings as character sequences.
pub struct PullPlanView {
    pub prepare: Seq<StepView>,
    pub show_chart: Seq<char>,
    pub unpacked_dir: Seq<char>,
    pub cleanup: Seq<StepView>,
    pub chart: Seq<char>,
    pub repo_url: Seq<char>,
    pub workdir: Seq<char>,
}

impl PullPlan {
    /// Whether this plan pulls into the working directory `workdir`.
    pub open spec fn pulls_into(&self, workdir: Seq<char>) -> bool {
        self.versioned_prefix@ == join_path(workdir, self.chart@) + "-"@
    }

    /// The directory the chart is moved to once its version is known.
    pub fn versioned_dir(&self, version: &str) -> (r: String)
        ensures
            forall|w: Seq<char>|
                self.pulls_into(w) ==> r@ == join_path(w, self.chart@) + "-"@ + version@,
    {
        concat2(self.versioned_prefix.as_str(), version)
    }

    /// The pulled chart, at `dir`, with the given version and variables.
    pub fn finish(&self, dir: String, version: String, vars: Variables) -> (r: ChartLocal)
        ensures
            r.name == self.chart,
            r.repo_url == self.repo_url,
            r.path == dir,
            r.version == version,
            r.vars == vars,
    {
        ChartLocal {
            name: self.chart.clone(),
            version,
            path: dir,
            repo_url: self.repo_url.clone(),
            vars,
        }
    }
}

/// Running `command` from the current directory.
pub open spec fn run_here(command: Seq<char>) -> StepView {
    StepView::Run { command, dir: None }
}

fn run_here_step(command: String) -> (s: Step)
    ensures
        s@ == run_here(command@),
{
    Step::Run { command, dir: None }
}

/// How a helm repository is reached.
#[derive(PartialEq, Eq, Structural, Clone, Copy, Debug)]
pub enum RepoKind {
    Default,
    Oci,
}

/// Why a chart cannot be pulled.
pub enum SourceError {
    /// The scheme of a helm repository URL is neither `oci`, `https` nor
    /// `http`.
    UnknownRepoKind(String),
}

impl SourceError {
    /// The message that describes the error.
    pub fn message(&self) -> (r: String)
        ensures
            r@ == match self {
                SourceError::UnknownRepoKind(p) => "repo kind is not defined by the prefix: "@ + p@,
            },
    {
        match self {
            SourceError::UnknownRepoKind(p) => concat2(
                "repo kind is not defined by the prefix: ",
                p.as_str(),
            ),
        }
    }
}

/// The characters of `s` before its first `:`, or all of them.
pub open spec fn url_scheme(s: Seq<char>) -> Seq<char>
    decreases s.len(),
{
    if s.len() == 0 || s[0] == ':' {
        Seq::empty()
    } else {
        seq![s[0]] + url_scheme(s.drop_first())
    }
}

proof fn lemma_url_scheme(s: Seq<char>, i: int)
    requires
        0 <= i <= s.len(),
        i == s.len() || s[i] == ':',
        forall|j: int| 0 <= j < i ==> s[j] != ':',
    ensures
        url_scheme(s) == s.take(i),
    decreases s.len(),
{
    if i > 0 {
        lemma_url_scheme(s.drop_first(), i - 1);
        assert(s.take(i) =~= seq![s[0]] + s.drop_first().take(i - 1));
    } else {
        assert(s.take(0) =~= Seq::<char>::empty());
    }
}

/// The kind of helm repository a URL with scheme `scheme` is, if any.
pub open spec fn repo_kind_of(scheme: Seq<char>) -> Option<RepoKind> {
    if scheme == "oci"@ {
        Some(RepoKind::Oci)
    } else if scheme == "https"@ || scheme == "http"@ {
        Some(RepoKind::Default)
    } else {
        None
    }
}

/// The version argument of `helm pull`: none for the latest version.
pub open spec fn version_args(version: Seq<char>) -> Seq<char> {
    if version == "latest"@ {
        Seq::empty()
    } else {
        "--version "@ + version
    }
}

/// A chart in a helm repository.
pub struct Helm {
    pub chart: String,
    pub repository_url: String,
    pub version: String,
}

/// A chart in a git repository, in the directory `path`.
pub struct Git {
    pub git_url: String,
    pub git_ref: String,
    pub path: String,
    pub chart: String,
}

/// The repository a chart is pulled from.
pub enum Repo {
    Helm(Helm),
    Git(Git),
}

/// The reference of the chart `chart` in the OCI registry `url`: the chart's
/// name appended to the URL, with a slash between them unless the URL ends
/// in one.
pub open spec fn oci_chart_ref(url: Seq<char>, chart: Seq<char>) -> Seq<char> {
    if url.len() > 0 && url.last() == '/' {
        url + chart
    } else {
        url + "/"@ + chart
    }
}

/// The plan that pulls the chart `h` from its OCI registry into `workdir`:
/// there is no repository to add or remove.
pub open spec fn helm_oci_pull_plan(h: Helm, workdir: Seq<char>) -> PullPlanView {
    PullPlanView {
        prepare: seq![
            run_here(
                "helm pull "@ + oci_chart_ref(h.repository_url@, h.chart@) + " "@ + version_args(
                    h.version@,
                ) + " --destination "@ + workdir + " --untar"@,
            ),
        ],
        show_chart: "helm show chart "@ + join_path(workdir, h.chart@),
        unpacked_dir: join_path(workdir, h.chart@),
        cleanup: Seq::empty(),
        chart: h.chart@,
        repo_url: h.repository_url@,
        workdir,
    }
}

/// The plan that pulls the chart `h` from its helm repository (reached
/// over http or https) into `workdir`.
pub open spec fn helm_pull_plan(h: Helm, workdir: Seq<char>) -> PullPlanView {
    let name = local_name(h.repository_url@);
    PullPlanView {
        prepare: seq![
            run_here("helm repo add "@ + name + " "@ + h.repository_url@),
            run_here("helm repo update"@),
            run_here(
                "helm pull "@ + name + "/"@ + h.chart@ + " "@ + version_args(h.version@)
                    + " --destination "@ + workdir + " --untar"@,
            ),
        ],
        show_chart: "helm show chart "@ + join_path(workdir, h.chart@),
        unpacked_dir: join_path(workdir, h.chart@),
        cleanup: seq![run_here("helm repo remove "@ + name)],
        chart: h.chart@,
        repo_url: h.repository_url@,
        workdir,
    }
}

/// The plan that pulls the chart `g` from its git repository into
/// `workdir`.
pub open spec fn git_pull_plan(g: Git, workdir: Seq<char>) -> PullPlanView {
    let clone_dir = join_path(workdir, local_name(g.git_url@));
    let unpacked = join_path(join_path(clone_dir, g.path@), g.chart@);
    PullPlanView {
        prepare: seq![
            run_here("git clone "@ + g.git_url@ + " "@ + clone_dir),
            run_here("git -C "@ + clone_dir + " checkout "@ + g.git_ref@),
        ],
        show_chart: "helm show chart "@ + unpacked,
        unpacked_dir: unpacked,
        cleanup: seq![StepView::RemoveDir { path: clone_dir }],
        chart: g.chart@,
        repo_url: g.git_url@,
        workdir,
    }
}

/// `r` is the outcome of pulling the chart `h` into `workdir`: the plan for
/// its kind of repository, or the error for an unknown scheme.
pub open spec fn helm_pull_outcome(
    h: Helm,
    workdir: Seq<char>,
    r: Result<PullPlan, SourceError>,
) -> bool {
    match repo_kind_of(url_scheme(h.repository_url@)) {
        None => r matches Err(SourceError::UnknownRepoKind(p)) && p@ == url_scheme(
            h.repository_url@,
        ),
        Some(RepoKind::Default) => r matches Ok(p) && plan_is(p, helm_pull_plan(h, workdir)),
        Some(RepoKind::Oci) => r matches Ok(p) && plan_is(p, helm_oci_pull_plan(h, workdir)),
    }
}

/// `p` is described by `v`.
pub open spec fn plan_is(p: PullPlan, v: PullPlanView) -> bool {
    &&& p.prepare@.map_values(|s: Step| s@) == v.prepare
    &&& p.show_chart@ == v.show_chart
    &&& p.unpacked_dir@ == v.unpacked_dir
    &&& p.cleanup@.map_values(|s: Step| s@) == v.cleanup
    &&& p.chart@ == v.chart
    &&& p.repo_url@ == v.repo_url
    &&& p.pulls_into(v.workdir)
}

impl Helm {
    /// The helm source of `value`, whose repository (where it has been
    /// looked up) is a helm repository; the version is `latest` unless the
    /// chart fixes one.
    pub fn from_chart(value: Chart) -> (r: Helm)
        requires
            value.repository_obj matches Some(repo) ==> repo.helm is Some,
        ensures
            r.chart == value.name,
            r.repository_url@ == match value.repository_obj {
                Some(repo) => repo.helm.unwrap().url@,
                None => Seq::empty(),
            },
            r.version@ == match value.version {
                Some(v) => v@,
                None => "latest"@,
            },
    {
        let repository_url = value.get_helm_repository_url();
        Helm {
            chart: value.name,
            repository_url,
            version: match value.version {
                Some(res) => res,
                None => "latest".to_owned(),
            },
        }
    }

    /// The kind of the repository, from the scheme of its URL.
    pub fn repo_kind_from_url(&self) -> (r: Result<RepoKind, SourceError>)
        ensures
            repo_kind_of(url_scheme(self.repository_url@)) matches Some(k) ==> r == Ok::<
                RepoKind,
                SourceError,
            >(k),
            repo_kind_of(url_scheme(self.repository_url@)) is None ==> (r matches Err(
                SourceError::UnknownRepoKind(p),
            ) && p@ == url_scheme(self.repository_url@)),
    {
        let url = self.repository_url.as_str();
        let n = url.unicode_len();
        let mut i: usize = 0;
        while i < n && url.get_char(i) != ':'
            invariant
                n == url@.len(),
                i <= n,
                forall|j: int| 0 <= j < i ==> url@[j] != ':',
            decreases n - i,
        {
            i = i + 1;
        }
        proof {
            lemma_url_scheme(url@, i as int);
        }
        let prefix = url.substring_char(0, i).to_owned();
        if str_eq(prefix.as_str(), "oci") {
            Ok(RepoKind::Oci)
        } else if str_eq(prefix.as_str(), "https") || str_eq(prefix.as_str(), "http") {
            Ok(RepoKind::Default)
        } else {
            Err(SourceError::UnknownRepoKind(prefix))
        }
    }

    /// The plan that pulls the chart from a repository reached over http or
    /// https into `workdir_path`.
    pub fn pull_default(&self, workdir_path: &str) -> (r: PullPlan)
        ensures
            plan_is(r, helm_pull_plan(*self, workdir_path@)),
            r.repo_url@ == self.repository_url@,
            r.chart@ == self.chart@,
    {
        let url = self.repository_url.as_str();
        let name = encode_no_pad(url);
        let mut prepare: Vec<Step> = Vec::new();
        let add = concat4("helm repo add ", name.as_str(), " ", url);
        prepare.push(run_here_step(add));
        prepare.push(run_here_step("helm repo update".to_owned()));
        let latest = "latest".to_owned();
        let args = if self.version == latest {
            String::new()
        } else {
            concat2("--version ", self.version.as_str())
        };
        let mut pull = concat4("helm pull ", name.as_str(), "/", self.chart.as_str());
        pull.append(" ");
        pull.append(args.as_str());
        pull.append(" --destination ");
        pull.append(workdir_path);
        pull.append(" --untar");
        prepare.push(run_here_step(pull));
        let unpacked = join(workdir_path, self.chart.as_str());
        let mut cleanup: Vec<Step> = Vec::new();
        cleanup.push(run_here_step(concat2("helm repo remove ", name.as_str())));
        let plan = PullPlan {
            prepare,
            show_chart: concat2("helm show chart ", unpacked.as_str()),
            unpacked_dir: unpacked.clone(),
            cleanup,
            chart: self.chart.clone(),
            repo_url: self.repository_url.clone(),
            versioned_prefix: concat2(unpacked.as_str(), "-"),
        };
        assert(plan.prepare@.map_values(|s: Step| s@) =~= helm_pull_plan(*self, workdir_path@).prepare);
        assert(plan.cleanup@.map_values(|s: Step| s@) =~= helm_pull_plan(*self, workdir_path@).cleanup);
        plan
    }

    /// The plan that pulls the chart from an OCI registry into
    /// `workdir_path`.
    pub fn pull_oci(&self, workdir_path: &str) -> (r: PullPlan)
        ensures
            plan_is(r, helm_oci_pull_plan(*self, workdir_path@)),
            r.repo_url@ == self.repository_url@,
            r.chart@ == self.chart@,
    {
        let url = self.repository_url.as_str();
        let n = url.unicode_len();
        let chart_ref = if n > 0 && url.get_char(n - 1) == '/' {
            concat2(url, self.chart.as_str())
        } else {
            concat3(url, "/", self.chart.as_str())
        };
        let latest = "latest".to_owned();
        let args = if self.version == latest {
            String::new()
        } else {
            concat2("--version ", self.version.as_str())
        };
        let mut pull = concat4("helm pull ", chart_ref.as_str(), " ", args.as_str());
        pull.append(" --destination ");
        pull.append(workdir_path);
        pull.append(" --untar");
        let mut prepare: Vec<Step> = Vec::new();
        prepare.push(run_here_step(pull));
        let unpacked = join(workdir_path, self.chart.as_str());
        let plan = PullPlan {
            prepare,
            show_chart: concat2("helm show chart ", unpacked.as_str()),
            unpacked_dir: unpacked.clone(),
            cleanup: Vec::new(),
            chart: self.chart.clone(),
            repo_url: self.repository_url.clone(),
            versioned_prefix: concat2(unpacked.as_str(), "-"),
        };
        assert(plan.prepare@.map_values(|s: Step| s@) =~= helm_oci_pull_plan(*self, workdir_path@).prepare);
        assert(plan.cleanup@.map_values(|s: Step| s@) =~= helm_oci_pull_plan(*self, workdir_path@).cleanup);
        plan
    }

    /// The plan that pulls the chart into `workdir_path`, by the kind of
    /// repository its URL names.
    pub fn pull(&self, workdir_path: &str) -> (r: Result<PullPlan, SourceError>)
        ensures
            helm_pull_outcome(*self, workdir_path@, r),
    {
        match self.repo_kind_from_url()? {
            RepoKind::Default => Ok(self.pull_default(workdir_path)),
            RepoKind::Oci => Ok(self.pull_oci(workdir_path)),
        }
    }
}

impl Git {
    /// The git source of `value`, whose repository (where it has been
    /// looked up) is a git repository.
    pub fn from_chart(value: Chart) -> (r: Git)
        requires
            value.repository_obj matches Some(repo) ==> repo.git is Some,
        ensures
            r.chart == value.name,
            r.git_url@ == match value.repository_obj {
                Some(repo) => repo.git.unwrap().url@,
                None => Seq::empty(),
            },
            r.git_ref@ == match value.repository_obj {
                Some(repo) => repo.git.unwrap().git_ref@,
                None => Seq::empty(),
            },
            r.path@ == match value.repository_obj {
                Some(repo) => repo.git.unwrap().path@,
                None => Seq::empty(),
            },
    {
        let git_url = value.get_git_repository_url();
        let git_ref = value.get_git_repository_ref();
        let path = value.get_git_repository_path();
        Git { git_url, git_ref, path, chart: value.name }
    }

    /// The plan that clones the repository into `workdir_path`, checks out
    /// the reference and pulls the chart out of it.
    pub fn pull(&self, workdir_path: &str) -> (r: PullPlan)
        ensures
            plan_is(r, git_pull_plan(*self, workdir_path@)),
            r.repo_url@ == self.git_url@,
            r.chart@ == self.chart@,
    {
        let url = self.git_url.as_str();
        let name = encode_no_pad(url);
        let clone_dir = join(workdir_path, name.as_str());
        let mut prepare: Vec<Step> = Vec::new();
        prepare.push(run_here_step(concat4("git clone ", url, " ", clone_dir.as_str())));
        prepare.push(
            run_here_step(concat4("git -C ", clone_dir.as_str(), " checkout ", self.git_ref.as_str())),
        );
        let in_repo = join(clone_dir.as_str(), self.path.as_str());
        let unpacked = join(in_repo.as_str(), self.chart.as_str());
        let chart_prefix = join(workdir_path, self.chart.as_str());
        let mut cleanup: Vec<Step> = Vec::new();
        cleanup.push(Step::RemoveDir { path: clone_dir });
        let plan = PullPlan {
            prepare,
            show_chart: concat2("helm show chart ", unpacked.as_str()),
            unpacked_dir: unpacked,
            cleanup,
            chart: self.chart.clone(),
            repo_url: self.git_url.clone(),
            versioned_prefix: concat2(chart_prefix.as_str(), "-"),
        };
        assert(plan.prepare@.map_values(|s: Step| s@) =~= git_pull_plan(*self, workdir_path@).prepare);
        assert(plan.cleanup@.map_values(|s: Step| s@) =~= git_pull_plan(*self, workdir_path@).cleanup);
        plan
    }
}

impl Repo {
    /// The plan that pulls the chart into `workdir_path`.
    pub fn pull(&self, workdir_path: &str) -> (r: Result<PullPlan, SourceError>)
        ensures
            *self matches Repo::Helm(h) ==> helm_pull_outcome(h, workdir_path@, r),
            *self matches Repo::Git(g) ==> (r matches Ok(p) && plan_is(
                p,
                git_pull_plan(g, workdir_path@),
            )),
    {
        match self {
            Repo::Helm(h) => h.pull(workdir_path),
            Repo::Git(g) => Ok(g.pull(workdir_path)),
        }
    }
}

/// The source of a chart whose repository has been looked up: its helm
/// repository, else its git repository.
pub fn repo_from_chart(chart: Chart) -> (r: Result<Repo, ConfigError>)
    ensures
        chart.repo_kind_of_chart() matches Ok(RepositoryKind::Helm) ==> r matches Ok(Repo::Helm(h))
            && h.chart == chart.name && h.repository_url@ == chart.repository_obj.unwrap().helm.unwrap().url@
            && h.version@ == match chart.version {
            Some(v) => v@,
            None => "latest"@,
        },
        chart.repo_kind_of_chart() matches Ok(RepositoryKind::Git) ==> r matches Ok(Repo::Git(g))
            && g.chart == chart.name && g.git_url@ == chart.repository_obj.unwrap().git.unwrap().url@
            && g.git_ref@ == chart.repository_obj.unwrap().git.unwrap().git_ref@
            && g.path@ == chart.repository_obj.unwrap().git.unwrap().path@,
        chart.repo_kind_of_chart() matches Err(e) ==> r == Err::<Repo, ConfigError>(e),
{
    match chart.get_repo_kind() {
        Ok(RepositoryKind::Helm) => Ok(Repo::Helm(Helm::from_chart(chart))),
        Ok(RepositoryKind::Git) => Ok(Repo::Git(Git::from_chart(chart))),
        Err(e) => Err(e),
    }
}

/// A pulled chart records the repository it came from, unchanged: the URL
/// of its git repository, or that of its helm repository or OCI registry.
/// That URL is what templates see as `repo_url`. A git repository is cloned
/// from that same URL.
pub proof fn lemma_pull_records_repository_url(g: Git, h: Helm, workdir: Seq<char>)
    ensures
        git_pull_plan(g, workdir).repo_url == g.git_url@,
        git_pull_plan(g, workdir).chart == g.chart@,
        git_pull_plan(g, workdir).prepare.len() >= 1,
        git_pull_plan(g, workdir).prepare[0] == (StepView::Run {
            command: "git clone "@ + g.git_url@ + " "@ + join_path(workdir, local_name(g.git_url@)),
            dir: None,
        }),
        helm_pull_plan(h, workdir).repo_url == h.repository_url@,
        helm_pull_plan(h, workdir).chart == h.chart@,
        helm_oci_pull_plan(h, workdir).repo_url == h.repository_url@,
        helm_oci_pull_plan(h, workdir).chart == h.chart@,
{
}

/// A pull cleans up what it set up: the helm repository added under a local
/// name is removed under that same name, after the chart is pulled from it;
/// the directory a git repository is cloned into is the one removed, and
/// the chart is taken from inside it.
pub proof fn lemma_pull_cleans_up_what_it_set_up(g: Git, h: Helm, workdir: Seq<char>)
    ensures
        ({
            let hp = helm_pull_plan(h, workdir);
            let name = local_name(h.repository_url@);
            &&& hp.prepare.len() == 3 && hp.cleanup.len() == 1
            &&& hp.prepare[0] == run_here("helm repo add "@ + name + " "@ + h.repository_url@)
            &&& hp.cleanup[0] == run_here("helm repo remove "@ + name)
        }),
        ({
            let gp = git_pull_plan(g, workdir);
            let clone_dir = workdir + "/"@ + local_name(g.git_url@);
            &&& gp.cleanup == seq![StepView::RemoveDir { path: clone_dir }]
            &&& gp.unpacked_dir == clone_dir + "/"@ + g.path@ + "/"@ + g.chart@
            &&& gp.prepare[1] == run_here("git -C "@ + clone_dir + " checkout "@ + g.git_ref@)
        }),
        helm_oci_pull_plan(h, workdir).cleanup.len() == 0,
{
}

} // verus!
