//! Mirrors: where a pulled chart is pushed to, and the steps that push it.
use vstd::prelude::*;
use crate::config::Mirror;
use crate::source::ChartLocal;
use crate::step::{run_in, steps_view, Plan, Step, StepView};
use crate::template::{rendered, render, template_data, Timestamp, TemplateError};
use crate::text::{concat2, concat3, join, join_path};

verus! {

/// A git repository that charts are pushed to; all strings but
/// `default_branch` are templates.
pub struct Git {
    pub git_dir: String,
    pub url: String,
    pub path: String,
    pub branch: String,
    pub commit: Option<String>,
    pub default_branch: Option<String>,
    pub rebase: bool,
}

/// Commands (templates) that package a chart and upload it.
pub struct CustomCommands {
    pub package: Vec<String>,
    pub upload: Vec<String>,
}

/// A mirror, ready to push to.
pub enum Target {
    Git(Git),
    CustomCommands(CustomCommands),
}

/// A mirror that is neither a git repository nor custom commands.
pub enum MirrorError {
    UnknownKind(String),
}

impl MirrorError {
    /// The message that describes the error.
    pub fn message(&self) -> (r: String)
        ensures
            r@ == match self {
                MirrorError::UnknownKind(n) => "a kind is unknown for the mirror "@ + n@,
            },
    {
        match self {
            MirrorError::UnknownKind(n) => concat2("a kind is unknown for the mirror ", n.as_str()),
        }
    }
}

/// The target of a configured mirror: its git part where it has one, else
/// its custom commands. A git mirror clones into a directory named after
/// the mirror unless it names one, copies into the repository's root unless
/// it names a path, and does not rebase unless asked to.
pub fn mirror_from_mirror_obj(mirror: Mirror) -> (r: Result<Target, MirrorError>)
    ensures
        mirror.git matches Some(g) ==> r matches Ok(Target::Git(t)) && t.git_dir == match g.git_dir {
            Some(d) => d,
            None => mirror.name,
        } && t.url == g.url && t.path@ == match g.path {
            Some(p) => p@,
            None => Seq::empty(),
        } && t.branch == g.branch && t.commit == g.commit && t.default_branch == g.default_branch
            && t.rebase == match g.rebase {
            Some(b) => b,
            None => false,
        },
        mirror.git is None ==> match mirror.custom_command {
            Some(c) => r matches Ok(Target::CustomCommands(t)) && t.package == c.package
                && t.upload == c.upload,
            None => r == Err::<Target, MirrorError>(MirrorError::UnknownKind(mirror.name)),
        },
{
    let Mirror { name, git, custom_command } = mirror;
    if let Some(git) = git {
        return Ok(
            Target::Git(
                Git {
                    git_dir: match git.git_dir {
                        Some(dir) => dir,
                        None => name,
                    },
                    url: git.url,
                    path: match git.path {
                        Some(path) => path,
                        None => String::new(),
                    },
                    branch: git.branch,
                    commit: git.commit,
                    default_branch: git.default_branch,
                    rebase: match git.rebase {
                        Some(r) => r,
                        None => false,
                    },
                },
            ),
        );
    } else if let Some(command) = custom_command {
        return Ok(
            Target::CustomCommands(
                CustomCommands { package: command.package, upload: command.upload },
            ),
        );
    }
    Err(MirrorError::UnknownKind(name))
}

/// The commit message template of a git mirror: its own, or
/// `helmuled {{ name }}-{{ version }}`.
pub open spec fn commit_template(g: Git) -> Seq<char> {
    match g.commit {
        Some(c) => c@,
        None => "helmuled {{ name }}-{{ version }}"@,
    }
}

/// The branch a git mirror rebases onto: its default branch, or `main`.
pub open spec fn rebase_onto(g: Git) -> Seq<char> {
    match g.default_branch {
        Some(d) => d@,
        None => "main"@,
    }
}

/// The extra argument of `git push`: `--force` after a rebase.
pub open spec fn push_args(g: Git) -> Seq<char> {
    if g.rebase {
        "--force"@
    } else {
        Seq::empty()
    }
}

/// The steps that push a chart (whose files are at `chart_path`) to the
/// git mirror `g`, with template data `data`, from the working directory
/// `workdir`; and whether a template failed to render, which ends the
/// steps where it happens.
pub open spec fn git_push_plan(
    g: Git,
    data: Seq<char>,
    workdir: Seq<char>,
    chart_path: Seq<char>,
    dry_run: bool,
) -> (Seq<StepView>, bool) {
    match rendered(g.url@, data) {
        None => (Seq::empty(), true),
        Some(url) => match rendered(g.git_dir@, data) {
            None => (Seq::empty(), true),
            Some(dir) => {
                let repo = join_path(workdir, dir);
                let clone = run_in("git clone "@ + url + " "@ + dir, workdir);
                match rendered(g.branch@, data) {
                    None => (seq![clone], true),
                    Some(branch) => {
                        let checkout = StepView::RunOr {
                            command: "git checkout "@ + branch,
                            fallback: "git checkout -b "@ + branch,
                            cwd: repo,
                        };
                        let head = if g.rebase {
                            seq![clone, checkout, run_in("git rebase "@ + rebase_onto(g), repo)]
                        } else {
                            seq![clone, checkout]
                        };
                        match rendered(g.path@, data) {
                            None => (head, true),
                            Some(path) => {
                                let full = join_path(repo, path);
                                let copy = StepView::CopyDir { from: chart_path, to: full };
                                match rendered(commit_template(g), data) {
                                    None => (head.push(copy), true),
                                    Some(msg) => {
                                        let commit = run_in(
                                            "git add . && git diff --staged --quiet || git commit -m '"@
                                                + msg + "'"@,
                                            full,
                                        );
                                        let done = head.push(copy).push(commit);
                                        if dry_run {
                                            (done, false)
                                        } else {
                                            (
                                                done.push(
                                                    run_in(
                                                        "git push --set-upstream origin "@ + branch
                                                            + " "@ + push_args(g),
                                                        full,
                                                    ),
                                                ),
                                                false,
                                            )
                                        }
                                    },
                                }
                            },
                        }
                    },
                }
            },
        },
    }
}

/// The commands rendered from `ts` with `data`, up to the first that fails
/// to render; and whether one failed.
pub open spec fn render_all(ts: Seq<String>, data: Seq<char>) -> (Seq<Seq<char>>, bool)
    decreases ts.len(),
{
    if ts.len() == 0 {
        (Seq::empty(), false)
    } else {
        let prev = render_all(ts.drop_last(), data);
        if prev.1 {
            prev
        } else {
            match rendered(ts.last()@, data) {
                Some(c) => (prev.0.push(c), false),
                None => (prev.0, true),
            }
        }
    }
}

/// Running each of `cmds` from `dir`.
pub open spec fn runs_in(cmds: Seq<Seq<char>>, dir: Seq<char>) -> Seq<StepView> {
    cmds.map_values(|c: Seq<char>| run_in(c, dir))
}

/// The steps that run the custom commands `c` from `workdir` with template
/// data `data`: the package commands, then, unless this is a dry run, the
/// upload commands; and whether a template failed to render, which ends the
/// steps where it happens.
pub open spec fn custom_push_plan(
    c: CustomCommands,
    data: Seq<char>,
    workdir: Seq<char>,
    dry_run: bool,
) -> (Seq<StepView>, bool) {
    let p = render_all(c.package@, data);
    if p.1 || dry_run {
        (runs_in(p.0, workdir), p.1)
    } else {
        let u = render_all(c.upload@, data);
        (runs_in(p.0, workdir) + runs_in(u.0, workdir), u.1)
    }
}

fn run_from(command: String, dir: &str) -> (s: Step)
    ensures
        s@ == run_in(command@, dir@),
{
    Step::Run { command, dir: Some(dir.to_owned()) }
}

fn stop(steps: Vec<Step>, e: TemplateError) -> (p: Plan)
    ensures
        p.steps@ == steps@,
        p.failure is Some,
{
    Plan { steps, failure: Some(e) }
}

/// Renders each of `templates` in turn and adds a step that runs it from
/// `workdir`, up to the first template that fails to render.
fn push_rendered(
    steps: &mut Vec<Step>,
    templates: &Vec<String>,
    chart_local: &ChartLocal,
    now: &Timestamp,
    workdir: &str,
) -> (r: Option<TemplateError>)
    ensures
        steps_view(final(steps)@) == steps_view(old(steps)@) + runs_in(
            render_all(templates@, template_data(*chart_local, *now)).0,
            workdir@,
        ),
        r is Some == render_all(templates@, template_data(*chart_local, *now)).1,
{
    let ghost data = template_data(*chart_local, *now);
    let ghost start = steps_view(steps@);
    let n = templates.len();
    for i in 0..n
        invariant
            n == templates@.len(),
            data == template_data(*chart_local, *now),
            start == steps_view(old(steps)@),
            render_all(templates@.take(i as int), data).1 == false,
            steps_view(steps@) == start + runs_in(render_all(templates@.take(i as int), data).0, workdir@),
    {
        let ghost t = templates@.take(i + 1);
        assert(t.drop_last() =~= templates@.take(i as int));
        assert(t.last() == templates@[i as int]);
        match render(templates[i].as_str(), chart_local, now) {
            Ok(cmd) => {
                let ghost before = steps_view(steps@);
                steps.push(run_from(cmd, workdir));
                assert(steps_view(steps@) =~= before.push(run_in(cmd@, workdir@)));
                assert(runs_in(render_all(t, data).0, workdir@) =~= runs_in(
                    render_all(templates@.take(i as int), data).0,
                    workdir@,
                ).push(run_in(cmd@, workdir@)));
            },
            Err(e) => {
                proof {
                    assert(rendered(templates@[i as int]@, data) is None);
                    assert(render_all(t, data) == (render_all(templates@.take(i as int), data).0, true));
                    lemma_render_all_stops(templates@, data, i as int + 1);
                    assert(templates@.take(n as int) =~= templates@);
                }
                return Some(e);
            },
        }
    }
    assert(templates@.take(n as int) =~= templates@);
    None
}

proof fn lemma_render_all_stops(ts: Seq<String>, data: Seq<char>, k: int)
    requires
        0 <= k <= ts.len(),
        render_all(ts.take(k), data).1,
    ensures
        render_all(ts, data) == render_all(ts.take(k), data),
    decreases ts.len() - k,
{
    if k < ts.len() {
        let t = ts.take(k + 1);
        assert(t.drop_last() =~= ts.take(k));
        lemma_render_all_stops(ts, data, k + 1);
    } else {
        assert(ts.take(k) =~= ts);
    }
}

impl CustomCommands {
    /// The steps that run the package commands and, unless this is a dry
    /// run, the upload commands, each rendered with the data of
    /// `chart_local` at time `now` and run from `workdir_path`.
    pub fn push(&self, workdir_path: &str, chart_local: &ChartLocal, now: &Timestamp, dry_run: bool) -> (p: Plan)
        ensures
            steps_view(p.steps@) == custom_push_plan(
                *self,
                template_data(*chart_local, *now),
                workdir_path@,
                dry_run,
            ).0,
            p.failure is Some == custom_push_plan(
                *self,
                template_data(*chart_local, *now),
                workdir_path@,
                dry_run,
            ).1,
    {
        let mut steps: Vec<Step> = Vec::new();
        assert(steps_view(steps@) =~= Seq::<StepView>::empty());
        let failure = push_rendered(&mut steps, &self.package, chart_local, now, workdir_path);
        if failure.is_some() || dry_run {
            return Plan { steps, failure };
        }
        let failure = push_rendered(&mut steps, &self.upload, chart_local, now, workdir_path);
        Plan { steps, failure }
    }
}

impl Git {
    /// The steps that clone the mirror repository into the working
    /// directory, check out (or create) the branch, rebase where asked,
    /// copy the chart in, commit it and, unless this is a dry run, push it;
    /// the templates are rendered with the data of `chart_local` at time
    /// `now`.
    pub fn push(&self, workdir_path: &str, chart_local: &ChartLocal, now: &Timestamp, dry_run: bool) -> (p: Plan)
        ensures
            steps_view(p.steps@) == git_push_plan(
                *self,
                template_data(*chart_local, *now),
                workdir_path@,
                chart_local.path@,
                dry_run,
            ).0,
            p.failure is Some == git_push_plan(
                *self,
                template_data(*chart_local, *now),
                workdir_path@,
                chart_local.path@,
                dry_run,
            ).1,
    {
        let mut steps: Vec<Step> = Vec::new();
        assert(steps_view(steps@) =~= Seq::<StepView>::empty());
        let url = match render(self.url.as_str(), chart_local, now) {
            Ok(u) => u,
            Err(e) => return stop(steps, e),
        };
        let git_dir = match render(self.git_dir.as_str(), chart_local, now) {
            Ok(d) => d,
            Err(e) => return stop(steps, e),
        };
        let mut clone = concat3("git clone ", url.as_str(), " ");
        clone.append(git_dir.as_str());
        steps.push(run_from(clone, workdir_path));
        let repo = join(workdir_path, git_dir.as_str());
        let branch = match render(self.branch.as_str(), chart_local, now) {
            Ok(b) => b,
            Err(e) => return stop(steps, e),
        };
        steps.push(
            Step::RunOr {
                command: concat2("git checkout ", branch.as_str()),
                fallback: concat2("git checkout -b ", branch.as_str()),
                cwd: repo.clone(),
            },
        );
        let mut git_args = String::new();
        if self.rebase {
            let onto = match &self.default_branch {
                Some(db) => db.clone(),
                None => "main".to_owned(),
            };
            steps.push(run_from(concat2("git rebase ", onto.as_str()), repo.as_str()));
            git_args = "--force".to_owned();
        }
        let path = match render(self.path.as_str(), chart_local, now) {
            Ok(p) => p,
            Err(e) => return stop(steps, e),
        };
        let full = join(repo.as_str(), path.as_str());
        steps.push(Step::CopyDir { from: chart_local.path.clone(), to: full.clone() });
        let commit_message = match &self.commit {
            Some(c) => c.clone(),
            None => "helmuled {{ name }}-{{ version }}".to_owned(),
        };
        let msg = match render(commit_message.as_str(), chart_local, now) {
            Ok(m) => m,
            Err(e) => return stop(steps, e),
        };
        steps.push(
            run_from(
                concat3(
                    "git add . && git diff --staged --quiet || git commit -m '",
                    msg.as_str(),
                    "'",
                ),
                full.as_str(),
            ),
        );
        if !dry_run {
            let mut cmd = concat3("git push --set-upstream origin ", branch.as_str(), " ");
            cmd.append(git_args.as_str());
            steps.push(run_from(cmd, full.as_str()));
        }
        Plan { steps, failure: None }
    }
}

/// A dry run of a git mirror carries out the same steps as a full run, but
/// for the final push: its steps are a prefix of the full run's, both fail
/// or succeed alike, and where they succeed the full run has exactly one
/// step more.
pub proof fn lemma_git_dry_run_is_prefix(
    g: Git,
    data: Seq<char>,
    workdir: Seq<char>,
    chart_path: Seq<char>,
)
    ensures
        ({
            let dry = git_push_plan(g, data, workdir, chart_path, true);
            let full_run = git_push_plan(g, data, workdir, chart_path, false);
            &&& dry.1 == full_run.1
            &&& dry.0.len() <= full_run.0.len()
            &&& full_run.0.take(dry.0.len() as int) == dry.0
            &&& dry.1 ==> full_run.0 == dry.0
            &&& !dry.1 ==> full_run.0.len() == dry.0.len() + 1
        }),
{
    let dry = git_push_plan(g, data, workdir, chart_path, true);
    let full_run = git_push_plan(g, data, workdir, chart_path, false);
    assert(full_run.0.take(dry.0.len() as int) =~= dry.0);
}

/// A dry run of custom commands runs the package commands only: its steps
/// are those of the package commands, and a prefix of the full run's.
pub proof fn lemma_custom_dry_run_is_prefix(c: CustomCommands, data: Seq<char>, workdir: Seq<char>)
    ensures
        ({
            let dry = custom_push_plan(c, data, workdir, true);
            let full_run = custom_push_plan(c, data, workdir, false);
            &&& dry.0 == runs_in(render_all(c.package@, data).0, workdir)
            &&& dry.0.len() <= full_run.0.len()
            &&& full_run.0.take(dry.0.len() as int) == dry.0
        }),
{
    let dry = custom_push_plan(c, data, workdir, true);
    let full_run = custom_push_plan(c, data, workdir, false);
    assert(full_run.0.take(dry.0.len() as int) =~= dry.0);
}

/// A git mirror clones the URL its `url` template renders to, never the
/// template text: where `url` renders to `u` and `git_dir` to `d`, the first
/// step runs `git clone u d` from the working directory. Where `url` does
/// not render, nothing is run. The push fails exactly when one of its
/// templates does not render.
pub proof fn lemma_git_clone_uses_rendered_url(
    g: Git,
    data: Seq<char>,
    workdir: Seq<char>,
    chart_path: Seq<char>,
    dry_run: bool,
)
    ensures
        ({
            let plan = git_push_plan(g, data, workdir, chart_path, dry_run);
            &&& rendered(g.url@, data) is None ==> plan.0.len() == 0 && plan.1
            &&& plan.1 <==> !(rendered(g.url@, data) is Some && rendered(g.git_dir@, data) is Some
                && rendered(g.branch@, data) is Some && rendered(g.path@, data) is Some && rendered(
                commit_template(g),
                data,
            ) is Some)
            &&& (rendered(g.url@, data) is Some && rendered(g.git_dir@, data) is Some) ==> plan.0.len()
                >= 1 && plan.0[0] == StepView::Run {
                command: "git clone "@ + rendered(g.url@, data).unwrap() + " "@ + rendered(
                    g.git_dir@,
                    data,
                ).unwrap(),
                dir: Some(workdir),
            }
        }),
{
}

/// Where every template of a git mirror renders (`url` to `u`, `git_dir` to
/// `d`, `branch` to `b`, `path` to `p`, the commit message to `m`), the push
/// clones `u` into `d`, checks out `b` (creating it where it does not
/// exist), rebases where asked, copies the chart to `d/p`, commits with
/// message `m` and, unless it is a dry run, pushes `b`; and it does not
/// fail.
pub proof fn lemma_git_push_steps_when_all_render(
    g: Git,
    data: Seq<char>,
    workdir: Seq<char>,
    chart_path: Seq<char>,
    dry_run: bool,
    u: Seq<char>,
    d: Seq<char>,
    b: Seq<char>,
    p: Seq<char>,
    m: Seq<char>,
)
    requires
        rendered(g.url@, data) == Some(u),
        rendered(g.git_dir@, data) == Some(d),
        rendered(g.branch@, data) == Some(b),
        rendered(g.path@, data) == Some(p),
        rendered(commit_template(g), data) == Some(m),
    ensures
        ({
            let plan = git_push_plan(g, data, workdir, chart_path, dry_run);
            let repo = workdir + "/"@ + d;
            let target = repo + "/"@ + p;
            let head = seq![
                StepView::Run { command: "git clone "@ + u + " "@ + d, dir: Some(workdir) },
                StepView::RunOr {
                    command: "git checkout "@ + b,
                    fallback: "git checkout -b "@ + b,
                    cwd: repo,
                },
            ];
            let prepared = if g.rebase {
                head.push(StepView::Run { command: "git rebase "@ + rebase_onto(g), dir: Some(repo) })
            } else {
                head
            };
            let committed = prepared.push(StepView::CopyDir { from: chart_path, to: target }).push(
                StepView::Run {
                    command: "git add . && git diff --staged --quiet || git commit -m '"@ + m
                        + "'"@,
                    dir: Some(target),
                },
            );
            &&& !plan.1
            &&& dry_run ==> plan.0 == committed
            &&& !dry_run ==> plan.0 == committed.push(
                StepView::Run {
                    command: "git push --set-upstream origin "@ + b + " "@ + push_args(g),
                    dir: Some(target),
                },
            )
        }),
{
    assert(seq![
        StepView::Run { command: "git clone "@ + u + " "@ + d, dir: Some(workdir) },
        StepView::RunOr {
            command: "git checkout "@ + b,
            fallback: "git checkout -b "@ + b,
            cwd: workdir + "/"@ + d,
        },
    ].push(StepView::Run { command: "git rebase "@ + rebase_onto(g), dir: Some(workdir + "/"@ + d) })
        =~= seq![
        StepView::Run { command: "git clone "@ + u + " "@ + d, dir: Some(workdir) },
        StepView::RunOr {
            command: "git checkout "@ + b,
            fallback: "git checkout -b "@ + b,
            cwd: workdir + "/"@ + d,
        },
        StepView::Run { command: "git rebase "@ + rebase_onto(g), dir: Some(workdir + "/"@ + d) },
    ]);
}

/// Rendering a list of command templates keeps their order: the `k`th
/// command is what the `k`th template renders to, for each template before
/// the first that fails; the rendering fails exactly when some template
/// does not render, and otherwise gives one command per template.
pub proof fn lemma_render_all_in_order(ts: Seq<String>, data: Seq<char>)
    ensures
        render_all(ts, data).1 <==> exists|i: int|
            0 <= i < ts.len() && #[trigger] rendered(ts[i]@, data) is None,
        !render_all(ts, data).1 ==> render_all(ts, data).0.len() == ts.len(),
        render_all(ts, data).0.len() <= ts.len(),
        forall|k: int|
            0 <= k < render_all(ts, data).0.len() ==> rendered(ts[k]@, data) == Some(
                #[trigger] render_all(ts, data).0[k],
            ),
    decreases ts.len(),
{
    if ts.len() > 0 {
        let init = ts.drop_last();
        lemma_render_all_in_order(init, data);
        assert forall|i: int| 0 <= i < init.len() implies init[i] == ts[i] by {}
        if render_all(init, data).1 {
            let i = choose|i: int| 0 <= i < init.len() && #[trigger] rendered(init[i]@, data) is None;
            assert(rendered(ts[i]@, data) is None);
        } else {
            if rendered(ts.last()@, data) is None {
                assert(rendered(ts[ts.len() - 1]@, data) is None);
            } else {
                assert forall|i: int| 0 <= i < ts.len() implies !(#[trigger] rendered(ts[i]@, data) is None) by {
                    if i < init.len() {
                        assert(init[i] == ts[i]);
                    }
                }
            }
        }
    }
}

/// Where every template of custom commands renders, a full run runs each
/// package command and then each upload command, in order, all from the
/// working directory, each rendered from its template; and does not fail.
pub proof fn lemma_custom_commands_all_render(c: CustomCommands, data: Seq<char>, workdir: Seq<char>)
    requires
        forall|i: int| 0 <= i < c.package@.len() ==> #[trigger] rendered(c.package@[i]@, data) is Some,
        forall|i: int| 0 <= i < c.upload@.len() ==> #[trigger] rendered(c.upload@[i]@, data) is Some,
    ensures
        ({
            let plan = custom_push_plan(c, data, workdir, false);
            let np = c.package@.len();
            &&& !plan.1
            &&& plan.0.len() == np + c.upload@.len()
            &&& forall|k: int|
                0 <= k < np ==> plan.0[k] == run_in(
                    #[trigger] rendered(c.package@[k]@, data).unwrap(),
                    workdir,
                )
            &&& forall|k: int|
                0 <= k < c.upload@.len() ==> plan.0[np + k] == run_in(
                    #[trigger] rendered(c.upload@[k]@, data).unwrap(),
                    workdir,
                )
        }),
{
    lemma_render_all_in_order(c.package@, data);
    lemma_render_all_in_order(c.upload@, data);
    let p = render_all(c.package@, data);
    let u = render_all(c.upload@, data);
    if p.1 {
        let i = choose|i: int| 0 <= i < c.package@.len() && #[trigger] rendered(c.package@[i]@, data) is None;
        assert(false);
    }
    if u.1 {
        let i = choose|i: int| 0 <= i < c.upload@.len() && #[trigger] rendered(c.upload@[i]@, data) is None;
        assert(false);
    }
    let np = c.package@.len();
    let a = runs_in(p.0, workdir);
    let b = runs_in(u.0, workdir);
    assert forall|k: int| 0 <= k < np implies (a + b)[k] == run_in(
        #[trigger] rendered(c.package@[k]@, data).unwrap(),
        workdir,
    ) by {
        assert(rendered(c.package@[k]@, data) == Some(p.0[k]));
    }
    assert forall|k: int| 0 <= k < c.upload@.len() implies (a + b)[np + k] == run_in(
        #[trigger] rendered(c.upload@[k]@, data).unwrap(),
        workdir,
    ) by {
        assert(rendered(c.upload@[k]@, data) == Some(u.0[k]));
        assert((a + b)[np + k] == b[k]);
    }
}

} // verus!
