//! Patches that are applied to a pulled chart: regular-expression rewrites,
//! git patches, yq edits and custom commands, and references to patches
//! defined once for the whole configuration.
use vstd::prelude::*;
use vstd::string::*;
use crate::step::{Step, StepView, steps_view};
use crate::text::{concat2, concat3, concat4, copy_opt, copy_strings, first_char_is, str_eq};

verus! {

/// A directory of regular-expression patch files.
pub struct RegexpPatch {
    pub path: String,
}

/// A patch file to apply with `git apply`.
pub struct GitPatch {
    pub path: String,
}

/// What a yq patch does with its key.
#[derive(PartialEq, Eq, Structural, Clone, Copy, Debug)]
pub enum YqOperations {
    Add,
    Delete,
    Replace,
}

/// An edit of one YAML file with yq.
pub struct YqPatch {
    pub file: String,
    pub op: YqOperations,
    pub key: String,
    pub value: Option<String>,
}

/// Commands run from the chart's directory.
pub struct CustomCommandPatch {
    pub commands: Vec<String>,
}

/// A patch as the configuration describes it. One that sets only its name
/// refers to a patch of the same name among the global patches.
pub struct Patch {
    pub name: Option<String>,
    pub regexp: Option<RegexpPatch>,
    pub git: Option<GitPatch>,
    pub custom_command: Option<CustomCommandPatch>,
    pub yq: Option<YqPatch>,
}

/// The work that applying a patch comes down to.
pub enum PatchAction {
    Regexp(RegexpPatch),
    Git(GitPatch),
    CustomCommand(CustomCommandPatch),
    Yq(YqPatch),
}

/// Why a patch cannot be applied.
pub enum PatchError {
    /// No global patch has the name of the referring patch.
    GlobalPatchNotFound(String),
    /// The patch refers to a global patch, but there are none.
    GlobalPatchesUndefined(String),
    /// A yq patch other than a deletion has no value.
    YqValueRequired,
    /// The patch sets none of the kinds.
    UnknownPatchType,
    /// The regular expression of a patch file does not compile.
    InvalidRegex(String),
}

impl PatchError {
    /// The message that describes the error.
    pub fn message(&self) -> (r: String)
        ensures
            r@ == self.message_spec(),
    {
        match self {
            PatchError::GlobalPatchNotFound(n) => concat2("global patch is not found: ", n.as_str()),
            PatchError::GlobalPatchesUndefined(n) => concat3(
                "patch ",
                n.as_str(),
                " is recognized as a reference, but global patches are not defined",
            ),
            PatchError::YqValueRequired => "yq patch of non kind 'delete' requires a value".to_owned(),
            PatchError::UnknownPatchType => "unknown patch type".to_owned(),
            PatchError::InvalidRegex(m) => m.clone(),
        }
    }

    pub open spec fn message_spec(&self) -> Seq<char> {
        match self {
            PatchError::GlobalPatchNotFound(n) => "global patch is not found: "@ + n@,
            PatchError::GlobalPatchesUndefined(n) => "patch "@ + n@
                + " is recognized as a reference, but global patches are not defined"@,
            PatchError::YqValueRequired => "yq patch of non kind 'delete' requires a value"@,
            PatchError::UnknownPatchType => "unknown patch type"@,
            PatchError::InvalidRegex(m) => m@,
        }
    }
}

/// Whether the patch `p` has the name `n`.
pub open spec fn named(p: Patch, n: Seq<char>) -> bool {
    p.name matches Some(m) && m@ == n
}

/// `i` is the first position in `ps` of a patch named `n`.
pub open spec fn is_first_named(ps: Seq<Patch>, n: Seq<char>, i: int) -> bool {
    &&& 0 <= i < ps.len()
    &&& named(ps[i], n)
    &&& forall|j: int| 0 <= j < i ==> !named(ps[j], n)
}

/// Every unnamed patch in `ps` comes after a patch named `n`: looking up `n`
/// never meets an unnamed patch.
pub open spec fn lookup_meets_no_unnamed(ps: Seq<Patch>, n: Seq<char>) -> bool {
    forall|j: int|
        0 <= j < ps.len() && ps[j].name is None ==> exists|i: int| 0 <= i < j && named(ps[i], n)
}

/// `out` is what `resolve` may give for `raw`, or `raw` itself where it
/// gives nothing.
pub open spec fn resolved_path<F: Fn(String) -> Option<String>>(
    resolve: F,
    raw: String,
    out: Seq<char>,
) -> bool {
    exists|res: Option<String>|
        resolve.ensures((raw,), res) && out == match res {
            Some(c) => c@,
            None => raw@,
        }
}

/// `out` is the path of the patch `p`: that of its regexp directory, else
/// that of its git patch file as `resolve` gives it, else empty.
pub open spec fn path_of<F: Fn(String) -> Option<String>>(
    p: Patch,
    resolve: F,
    out: Seq<char>,
) -> bool {
    match p.regexp {
        Some(r) => out == r.path@,
        None => match p.git {
            Some(g) => resolved_path(resolve, g.path, out),
            None => out == Seq::<char>::empty(),
        },
    }
}

/// `r` is the action defined by `p`: the first of its regexp, git, custom
/// command and yq parts that is set decides.
pub open spec fn action_for<F: Fn(String) -> Option<String>>(
    p: Patch,
    resolve: F,
    r: Result<PatchAction, PatchError>,
) -> bool {
    match p.regexp {
        Some(rg) => r == Ok::<PatchAction, PatchError>(PatchAction::Regexp(rg)),
        None => match p.git {
            Some(g) => r matches Ok(PatchAction::Git(a)) && resolved_path(resolve, g.path, a.path@),
            None => match p.custom_command {
                Some(c) => r matches Ok(PatchAction::CustomCommand(a)) && a.commands@
                    == c.commands@,
                None => match p.yq {
                    Some(y) => if y.op != YqOperations::Delete && y.value is None {
                        r == Err::<PatchAction, PatchError>(PatchError::YqValueRequired)
                    } else {
                        r == Ok::<PatchAction, PatchError>(PatchAction::Yq(y))
                    },
                    None => r == Err::<PatchAction, PatchError>(PatchError::UnknownPatchType),
                },
            },
        },
    }
}

/// The action that applying the patch `p` comes down to.
pub fn patch_action_from_definition<F: Fn(String) -> Option<String>>(
    patch: Patch,
    resolve: &F,
) -> (r: Result<PatchAction, PatchError>)
    requires
        forall|s: String| resolve.requires((s,)),
    ensures
        action_for(patch, *resolve, r),
{
    let Patch { name: _, regexp, git, custom_command, yq } = patch;
    if let Some(regexp) = regexp {
        Ok(PatchAction::Regexp(regexp))
    } else if let Some(git) = git {
        let raw = git.path;
        let path = match resolve(raw.clone()) {
            Some(c) => c,
            None => raw,
        };
        Ok(PatchAction::Git(GitPatch { path }))
    } else if let Some(custom_command) = custom_command {
        Ok(PatchAction::CustomCommand(custom_command))
    } else if let Some(yq) = yq {
        if yq.op != YqOperations::Delete && yq.value.is_none() {
            Err(PatchError::YqValueRequired)
        } else {
            Ok(PatchAction::Yq(yq))
        }
    } else {
        Err(PatchError::UnknownPatchType)
    }
}

impl RegexpPatch {
    fn duplicate(&self) -> (r: RegexpPatch)
        ensures
            r == *self,
    {
        RegexpPatch { path: self.path.clone() }
    }
}

impl GitPatch {
    fn duplicate(&self) -> (r: GitPatch)
        ensures
            r == *self,
    {
        GitPatch { path: self.path.clone() }
    }

    /// The command that applies the patch file to the chart at
    /// `chart_local_path`.
    pub fn apply_command(&self, chart_local_path: &str) -> (r: String)
        ensures
            r@ == "git -C "@ + chart_local_path@ + " apply "@ + self.path@,
    {
        concat4("git -C ", chart_local_path, " apply ", self.path.as_str())
    }
}

/// The git metadata directory of the chart at `chart_local_path`, removed
/// once a git patch has been applied.
pub fn git_metadata_dir(chart_local_path: &str) -> (r: String)
    ensures
        r@ == chart_local_path@ + "/.git"@,
{
    concat2(chart_local_path, "/.git")
}

/// `v` in double quotes.
pub open spec fn double_quoted(v: Seq<char>) -> Seq<char> {
    "\""@ + v + "\""@
}

/// The value of a yq addition: kept as it is where it starts with `{`, `[`,
/// `"` or `'`, quoted otherwise.
pub open spec fn yq_add_value(v: Seq<char>) -> Seq<char> {
    if v.len() > 0 && (v[0] == '{' || v[0] == '[' || v[0] == '"' || v[0] == '\'') {
        v
    } else {
        double_quoted(v)
    }
}

/// The value of a yq replacement: kept as it is where it starts with `{` or
/// `[`, quoted otherwise.
pub open spec fn yq_replace_value(v: Seq<char>) -> Seq<char> {
    if v.len() > 0 && (v[0] == '{' || v[0] == '[') {
        v
    } else {
        double_quoted(v)
    }
}

/// The yq command line for the patch `y`.
pub open spec fn yq_command(y: YqPatch) -> Seq<char> {
    match y.op {
        YqOperations::Add => "yq -i '"@ + y.key@ + " += "@ + yq_add_value(y.value.unwrap()@)
            + "' "@ + y.file@,
        YqOperations::Delete => "yq -i 'del("@ + y.key@ + ")' "@ + y.file@,
        YqOperations::Replace => "yq e -i '"@ + y.key@ + " = "@ + yq_replace_value(
            y.value.unwrap()@,
        ) + "' "@ + y.file@,
    }
}

fn quote_value(v: &str) -> (r: String)
    ensures
        r@ == double_quoted(v@),
{
    concat3("\"", v, "\"")
}

impl YqPatch {
    fn duplicate(&self) -> (r: YqPatch)
        ensures
            r == *self,
    {
        YqPatch {
            file: self.file.clone(),
            op: self.op,
            key: self.key.clone(),
            value: copy_opt(&self.value),
        }
    }

    /// The yq command that carries out this patch, run from the chart's
    /// directory.
    pub fn command(&self) -> (r: String)
        requires
            self.op == YqOperations::Delete || self.value is Some,
        ensures
            r@ == yq_command(*self),
    {
        match self.op {
            YqOperations::Add => {
                let v = self.value.as_ref().unwrap();
                let value = if first_char_is(v.as_str(), '{') || first_char_is(v.as_str(), '[')
                    || first_char_is(v.as_str(), '"') || first_char_is(v.as_str(), '\'') {
                    v.clone()
                } else {
                    quote_value(v.as_str())
                };
                let mut r = concat4("yq -i '", self.key.as_str(), " += ", value.as_str());
                r.append("' ");
                r.append(self.file.as_str());
                r
            },
            YqOperations::Delete => {
                let mut r = concat3("yq -i 'del(", self.key.as_str(), ")' ");
                r.append(self.file.as_str());
                r
            },
            YqOperations::Replace => {
                let v = self.value.as_ref().unwrap();
                let value = if first_char_is(v.as_str(), '{') || first_char_is(v.as_str(), '[') {
                    v.clone()
                } else {
                    quote_value(v.as_str())
                };
                let mut r = concat4("yq e -i '", self.key.as_str(), " = ", value.as_str());
                r.append("' ");
                r.append(self.file.as_str());
                r
            },
        }
    }
}

impl CustomCommandPatch {
    fn duplicate(&self) -> (r: CustomCommandPatch)
        ensures
            r.commands@ == self.commands@,
    {
        CustomCommandPatch { commands: copy_strings(&self.commands) }
    }
}

/// Whether the patch `p` only names a global patch.
pub open spec fn refers_to_global(p: Patch) -> bool {
    p.regexp is None && p.git is None && p.custom_command is None && p.yq is None
        && p.name is Some
}

/// `r` is the outcome of looking up and defining the global patch that `p`
/// refers to.
pub open spec fn global_action_for<F: Fn(String) -> Option<String>>(
    p: Patch,
    global_patches: Option<Vec<Patch>>,
    resolve: F,
    r: Result<PatchAction, PatchError>,
) -> bool {
    let n = p.name.unwrap();
    match global_patches {
        None => r == Err::<PatchAction, PatchError>(PatchError::GlobalPatchesUndefined(n)),
        Some(ps) => if exists|i: int| 0 <= i < ps@.len() && named(ps@[i], n@) {
            exists|i: int| is_first_named(ps@, n@, i) && action_for(ps@[i], resolve, r)
        } else {
            r == Err::<PatchAction, PatchError>(PatchError::GlobalPatchNotFound(n))
        },
    }
}

impl Patch {
    fn duplicate(&self) -> (r: Patch)
        ensures
            r.name == self.name,
            r.regexp == self.regexp,
            r.git == self.git,
            r.yq == self.yq,
            r.custom_command is Some <==> self.custom_command is Some,
            r.custom_command matches Some(c) ==> c.commands@
                == self.custom_command.unwrap().commands@,
    {
        Patch {
            name: copy_opt(&self.name),
            regexp: match &self.regexp {
                Some(x) => Some(x.duplicate()),
                None => None,
            },
            git: match &self.git {
                Some(x) => Some(x.duplicate()),
                None => None,
            },
            custom_command: match &self.custom_command {
                Some(x) => Some(x.duplicate()),
                None => None,
            },
            yq: match &self.yq {
                Some(x) => Some(x.duplicate()),
                None => None,
            },
        }
    }

    /// Resolves what applying this patch comes down to: the patch itself, or
    /// the global patch it refers to.
    pub fn apply<F: Fn(String) -> Option<String>>(
        &self,
        global_patches: Option<Vec<Patch>>,
        resolve: &F,
    ) -> (r: Result<PatchAction, PatchError>)
        requires
            forall|s: String| resolve.requires((s,)),
            refers_to_global(*self) ==> (global_patches matches Some(ps)
                ==> lookup_meets_no_unnamed(ps@, self.name.unwrap()@)),
        ensures
            !refers_to_global(*self) ==> action_for(*self, *resolve, r),
            refers_to_global(*self) ==> global_action_for(*self, global_patches, *resolve, r),
    {
        if self.is_ref() {
            let target = self.get_ref(global_patches)?;
            let r = patch_action_from_definition(target, resolve);
            r
        } else {
            let copy = self.duplicate();
            let r = patch_action_from_definition(copy, resolve);
            proof {
                if self.regexp is None && self.git is None {
                    if self.custom_command is Some {
                        assert(copy.custom_command.unwrap().commands@
                            == self.custom_command.unwrap().commands@);
                    }
                }
            }
            r
        }
    }

    /// The path of this patch: that of its regexp directory, that of its git
    /// patch file (as `resolve` gives it, where it gives one), or empty for
    /// the other kinds.
    pub fn get_path<F: Fn(String) -> Option<String>>(&self, resolve: &F) -> (r: String)
        requires
            forall|s: String| resolve.requires((s,)),
        ensures
            path_of(*self, *resolve, r@),
    {
        if let Some(regexp) = &self.regexp {
            regexp.path.clone()
        } else if let Some(git) = &self.git {
            let raw = git.path.clone();
            match resolve(raw) {
                Some(c) => c,
                None => git.path.clone(),
            }
        } else {
            String::new()
        }
    }

    /// Sets the path of the regexp part, or else of the git part; other
    /// patches are left as they are.
    pub fn set_path(&mut self, path: String)
        ensures
            old(self).regexp is Some ==> *final(self) == (Patch {
                regexp: Some(RegexpPatch { path }),
                ..*old(self)
            }),
            old(self).regexp is None && old(self).git is Some ==> *final(self) == (Patch {
                git: Some(GitPatch { path }),
                ..*old(self)
            }),
            old(self).regexp is None && old(self).git is None ==> *final(self) == *old(self),
    {
        if self.regexp.is_some() {
            self.regexp = Some(RegexpPatch { path });
        } else if self.git.is_some() {
            self.git = Some(GitPatch { path });
        }
    }

    /// Whether this patch only names a global patch.
    pub fn is_ref(&self) -> (r: bool)
        ensures
            r == refers_to_global(*self),
    {
        self.regexp.is_none() && self.git.is_none() && self.custom_command.is_none()
            && self.yq.is_none() && self.name.is_some()
    }

    /// The first global patch with this patch's name.
    #[verifier::loop_isolation(false)]
    pub fn get_ref(&self, global_patches: Option<Vec<Patch>>) -> (r: Result<Patch, PatchError>)
        requires
            self.name is Some,
            global_patches matches Some(ps) ==> lookup_meets_no_unnamed(
                ps@,
                self.name.unwrap()@,
            ),
        ensures
            global_patches is None ==> r == Err::<Patch, PatchError>(
                PatchError::GlobalPatchesUndefined(self.name.unwrap()),
            ),
            global_patches matches Some(ps) ==> {
                &&& r is Ok <==> exists|i: int|
                    0 <= i < ps@.len() && named(ps@[i], self.name.unwrap()@)
                &&& r matches Ok(p) ==> exists|i: int|
                    is_first_named(ps@, self.name.unwrap()@, i) && p == ps@[i]
                &&& r is Err ==> r == Err::<Patch, PatchError>(
                    PatchError::GlobalPatchNotFound(self.name.unwrap()),
                )
            },
    {
        let name = self.name.as_ref().unwrap();
        match global_patches {
            Some(mut patches) => {
                let ghost ps = patches@;
                let n = patches.len();
                for i in 0..n
                    invariant
                        n == patches@.len(),
                        patches@ == ps,
                        lookup_meets_no_unnamed(ps, name@),
                        forall|j: int| 0 <= j < i ==> !named(ps[j], name@),
                {
                    let found = match &patches[i].name {
                        Some(m) => str_eq(m.as_str(), name.as_str()),
                        None => false,
                    };
                    if found {
                        let p = patches.remove(i);
                        assert(is_first_named(ps, name@, i as int));
                        return Ok(p);
                    }
                }
                Err(PatchError::GlobalPatchNotFound(name.clone()))
            },
            None => Err(PatchError::GlobalPatchesUndefined(name.clone())),
        }
    }
}

/// Only one position is the first of a patch named `n`.
proof fn lemma_first_named_unique(ps: Seq<Patch>, n: Seq<char>, i: int, j: int)
    requires
        is_first_named(ps, n, i),
        is_first_named(ps, n, j),
    ensures
        i == j,
{
    if i < j {
        assert(!named(ps[i], n));
    } else if j < i {
        assert(!named(ps[j], n));
    }
}

/// A patch that only names a global patch comes down to what the global
/// patch that `get_ref` finds for it comes down to: where `q` is the first
/// global patch with the name of `p`, applying `p` gives exactly the
/// outcomes that defining `q` gives.
pub proof fn lemma_reference_acts_as_global_patch<F: Fn(String) -> Option<String>>(
    p: Patch,
    ps: Vec<Patch>,
    q: Patch,
    resolve: F,
    r: Result<PatchAction, PatchError>,
)
    requires
        refers_to_global(p),
        exists|i: int| is_first_named(ps@, p.name.unwrap()@, i) && q == ps@[i],
    ensures
        global_action_for(p, Some(ps), resolve, r) <==> action_for(q, resolve, r),
{
    let n = p.name.unwrap()@;
    let i = choose|i: int| is_first_named(ps@, n, i) && q == ps@[i];
    assert(0 <= i < ps@.len() && named(ps@[i], n));
    assert(exists|k: int| 0 <= k < ps@.len() && named(ps@[k], n));
    let g = Some(ps);
    assert(g matches Some(qs) && qs@ == ps@);
    assert(global_action_for(p, g, resolve, r) ==> exists|j: int|
        is_first_named(ps@, n, j) && action_for(ps@[j], resolve, r));
    assert((exists|j: int|
        is_first_named(ps@, n, j) && action_for(ps@[j], resolve, r)) ==> global_action_for(p, g, resolve, r));
    if global_action_for(p, Some(ps), resolve, r) {
        let j = choose|j: int| is_first_named(ps@, n, j) && action_for(ps@[j], resolve, r);
        lemma_first_named_unique(ps@, n, i, j);
    }
    if action_for(q, resolve, r) {
        assert(is_first_named(ps@, n, i) && action_for(ps@[i], resolve, r));
    }
}

/// Setting the path of a patch with a regexp part and then asking for its
/// path gives the path that was set.
pub proof fn lemma_get_path_after_set_path<F: Fn(String) -> Option<String>>(
    p: Patch,
    path: String,
    resolve: F,
)
    requires
        p.regexp is Some,
    ensures
        path_of(Patch { regexp: Some(RegexpPatch { path }), ..p }, resolve, path@),
{
}

/// Setting the path of a patch that has neither a regexp nor a git part
/// changes nothing, and its path stays empty.
pub proof fn lemma_set_path_without_path<F: Fn(String) -> Option<String>>(p: Patch, resolve: F)
    requires
        p.regexp is None,
        p.git is None,
    ensures
        path_of(p, resolve, Seq::empty()),
{
}

/// The path whose existence tells that the chart at `path` already is a
/// git work tree: `path` followed directly by `.git`.
pub open spec fn git_marker(path: Seq<char>) -> Seq<char> {
    path + ".git"@
}

/// Whether the chart at `path` already is a git work tree: what `probe`
/// answers for `path` followed directly by `.git`.
pub fn is_git_repo<F: Fn(String) -> bool>(path: String, probe: &F) -> (r: bool)
    requires
        forall|s: String| probe.requires((s,)),
    ensures
        exists|m: String| m@ == git_marker(path@) && probe.ensures((m,), r),
{
    let marker = concat2(path.as_str(), ".git");
    let ghost m = marker;
    let r = probe(marker);
    assert(m@ == git_marker(path@) && probe.ensures((m,), r));
    r
}

/// Whether the chart `chart_name` is one of those listed for preparing a
/// git patch. Such a chart is pulled, extended, patched and made a git work
/// tree, and is not mirrored.
#[verifier::loop_isolation(false)]
pub fn init_git_patch_requested(chart_name: &str, listed: &Option<Vec<String>>) -> (r: bool)
    ensures
        r == (listed matches Some(l) && exists|i: int|
            0 <= i < l@.len() && l@[i]@ == chart_name@),
{
    match listed {
        Some(l) => {
            let n = l.len();
            for i in 0..n
                invariant
                    n == l@.len(),
                    forall|j: int| 0 <= j < i ==> l@[j]@ != chart_name@,
            {
                if str_eq(l[i].as_str(), chart_name) {
                    assert(l@[i as int]@ == chart_name@);
                    return true;
                }
            }
            false
        },
        None => false,
    }
}

/// The commands, run in turn, that make the directory `path` a git work
/// tree with one commit of all its files.
pub fn init_git_repo(path: String) -> (r: Vec<String>)
    ensures
        r@.len() == 3,
        r@[0]@ == "git -C "@ + path@ + " init ."@,
        r@[1]@ == "git -C "@ + path@ + " add ."@,
        r@[2]@ == "git -C "@ + path@ + " commit -m 'Init commit'"@,
{
    let mut r: Vec<String> = Vec::new();
    r.push(concat3("git -C ", path.as_str(), " init ."));
    r.push(concat3("git -C ", path.as_str(), " add ."));
    r.push(concat3("git -C ", path.as_str(), " commit -m 'Init commit'"));
    r
}

/// Running `command` from the current directory.
pub open spec fn run_here(command: Seq<char>) -> StepView {
    StepView::Run { command, dir: None }
}

/// The steps that apply the git patch `g` to the chart at `chart`, where
/// `is_repo` tells whether the chart already is a git work tree: make it
/// one if it is not (init, add, commit), apply the patch file with
/// `git apply`, then remove the chart's `.git` directory.
pub open spec fn git_patch_steps(g: GitPatch, chart: Seq<char>, is_repo: bool) -> Seq<StepView> {
    let init = if is_repo {
        Seq::empty()
    } else {
        seq![
            run_here("git -C "@ + chart + " init ."@),
            run_here("git -C "@ + chart + " add ."@),
            run_here("git -C "@ + chart + " commit -m 'Init commit'"@),
        ]
    };
    init + seq![
        run_here("git -C "@ + chart + " apply "@ + g.path@),
        StepView::RemoveDir { path: chart + "/.git"@ },
    ]
}

impl GitPatch {
    /// The steps that apply this patch to the chart at `chart_local_path`,
    /// given whether the chart already is a git work tree.
    pub fn steps(&self, chart_local_path: &str, is_repo: bool) -> (r: Vec<Step>)
        ensures
            steps_view(r@) == git_patch_steps(*self, chart_local_path@, is_repo),
    {
        let mut r: Vec<Step> = Vec::new();
        if !is_repo {
            let init = init_git_repo(chart_local_path.to_owned());
            let n = init.len();
            for i in 0..n
                invariant
                    n == init@.len(),
                    forall|j: int| 0 <= j < r@.len() ==> #[trigger] r@[j]@ == run_here(init@[j]@),
                    r@.len() == i,
            {
                r.push(Step::Run { command: init[i].clone(), dir: None });
            }
        }
        let ghost before = r@;
        r.push(Step::Run { command: self.apply_command(chart_local_path), dir: None });
        r.push(Step::RemoveDir { path: git_metadata_dir(chart_local_path) });
        proof {
            let expected = git_patch_steps(*self, chart_local_path@, is_repo);
            assert(steps_view(r@).len() == expected.len());
            assert forall|j: int| 0 <= j < expected.len() implies steps_view(r@)[j] == expected[j] by {
                if j < before.len() {
                    assert(r@[j] == before[j]);
                }
            }
            assert(steps_view(r@) =~= expected);
        }
        r
    }

    /// The steps that apply this patch to the chart at `chart_local_path`:
    /// `probe` is asked whether the chart's git marker (see `git_marker`)
    /// exists, and the steps are those of `git_patch_steps` for its answer.
    pub fn apply<F: Fn(String) -> bool>(&self, chart_local_path: &str, probe: &F) -> (r: Vec<Step>)
        requires
            forall|s: String| probe.requires((s,)),
        ensures
            exists|m: String, b: bool|
                m@ == git_marker(chart_local_path@) && probe.ensures((m,), b)
                    && steps_view(r@) == git_patch_steps(*self, chart_local_path@, b),
    {
        let is_repo = is_git_repo(chart_local_path.to_owned(), probe);
        let r = self.steps(chart_local_path, is_repo);
        proof {
            let m = choose|m: String| m@ == git_marker(chart_local_path@) && probe.ensures((m,), is_repo);
            assert(m@ == git_marker(chart_local_path@) && probe.ensures((m,), is_repo)
                && steps_view(r@) == git_patch_steps(*self, chart_local_path@, is_repo));
        }
        r
    }
}

/// How a yq patch writes its value. A replacement keeps a value that starts
/// with `{` or `[` as it is, so yq reads a map or a list; an addition also
/// keeps one that starts with a quote; every other value is written in
/// double quotes, as a string. A deletion names only the key and the file.
pub proof fn lemma_yq_values_written(y: YqPatch)
    ensures
        ({
            let k = y.key@;
            let f = y.file@;
            &&& y.op == YqOperations::Delete ==> yq_command(y) == "yq -i 'del("@ + k + ")' "@ + f
            &&& (y.op == YqOperations::Replace && y.value is Some) ==> {
                let v = y.value.unwrap()@;
                &&& (v.len() > 0 && (v[0] == '{' || v[0] == '[')) ==> yq_command(y) == "yq e -i '"@
                    + k + " = "@ + v + "' "@ + f
                &&& !(v.len() > 0 && (v[0] == '{' || v[0] == '[')) ==> yq_command(y)
                    == "yq e -i '"@ + k + " = \""@ + v + "\"' "@ + f
            }
            &&& (y.op == YqOperations::Add && y.value is Some) ==> {
                let v = y.value.unwrap()@;
                let kept = v.len() > 0 && (v[0] == '{' || v[0] == '[' || v[0] == '"' || v[0]
                    == '\'');
                &&& kept ==> yq_command(y) == "yq -i '"@ + k + " += "@ + v + "' "@ + f
                &&& !kept ==> yq_command(y) == "yq -i '"@ + k + " += \""@ + v + "\"' "@ + f
            }
        }),
{
    reveal_strlit("\"");
    reveal_strlit(" = \"");
    reveal_strlit(" = ");
    reveal_strlit(" += \"");
    reveal_strlit(" += ");
    reveal_strlit("\"' ");
    reveal_strlit("' ");
    if y.value is Some {
        let v = y.value.unwrap()@;
        let k = y.key@;
        let f = y.file@;
        assert("yq e -i '"@ + k + " = "@ + double_quoted(v) + "' "@ + f =~= "yq e -i '"@ + k
            + " = \""@ + v + "\"' "@ + f);
        assert("yq -i '"@ + k + " += "@ + double_quoted(v) + "' "@ + f =~= "yq -i '"@ + k
            + " += \""@ + v + "\"' "@ + f);
    }
}

} // verus!
