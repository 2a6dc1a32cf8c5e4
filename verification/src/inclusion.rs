//! Configuration files that add charts, mirrors or repositories to the main
//! configuration, and the rewriting of relative paths in included charts.
use vstd::prelude::*;
use crate::config::{Chart, Config, Mirror, Repository};
use crate::extension::Extension;
use crate::patch::{path_of, Patch};
use crate::text::{concat2, first_char_is, has_dot_slash_prefix, join, join_path, starts_with_char,
    starts_with_dot_slash, suffix_from};

verus! {

/// What an included file holds.
#[derive(PartialEq, Eq, Structural, Clone, Copy, Debug)]
pub enum IncludeTypes {
    Charts,
    Mirrors,
    Repositories,
}

/// A file to include, and what it holds.
pub struct Include {
    pub kind: IncludeTypes,
    pub path: String,
}

/// The contents of an included file.
pub enum Included {
    Charts(Vec<Chart>),
    Mirrors(Vec<Mirror>),
    Repositories(Vec<Repository>),
}

/// The charts of all included files, in order.
pub open spec fn charts_in(inc: Seq<Included>) -> Seq<Chart>
    decreases inc.len(),
{
    if inc.len() == 0 {
        Seq::empty()
    } else {
        charts_in(inc.drop_last()) + match inc.last() {
            Included::Charts(v) => v@,
            _ => Seq::empty(),
        }
    }
}

/// The mirrors of all included files, in order.
pub open spec fn mirrors_in(inc: Seq<Included>) -> Seq<Mirror>
    decreases inc.len(),
{
    if inc.len() == 0 {
        Seq::empty()
    } else {
        mirrors_in(inc.drop_last()) + match inc.last() {
            Included::Mirrors(v) => v@,
            _ => Seq::empty(),
        }
    }
}

/// The repositories of all included files, in order.
pub open spec fn repositories_in(inc: Seq<Included>) -> Seq<Repository>
    decreases inc.len(),
{
    if inc.len() == 0 {
        Seq::empty()
    } else {
        repositories_in(inc.drop_last()) + match inc.last() {
            Included::Repositories(v) => v@,
            _ => Seq::empty(),
        }
    }
}

/// The elements of an optional list, or none.
pub open spec fn seq_or_empty<T>(v: Option<Vec<T>>) -> Seq<T> {
    match v {
        Some(x) => x@,
        None => Seq::empty(),
    }
}

/// `new` is `old` with `added` appended; it is set where `old` was set or
/// something of that kind was included.
pub open spec fn extended<T>(old: Option<Vec<T>>, new: Option<Vec<T>>, added: Seq<T>, any: bool) -> bool {
    &&& new is Some <==> (old is Some || any)
    &&& new matches Some(v) ==> v@ == seq_or_empty(old) + added
    &&& !any ==> added == Seq::<T>::empty()
}

/// Adds the contents of the included files, in order, after the charts,
/// mirrors and repositories of the configuration.
pub fn apply_includes(config: &mut Config, included: Vec<Included>)
    ensures
        extended(
            old(config).charts,
            final(config).charts,
            charts_in(included@),
            exists|i: int| 0 <= i < included@.len() && included@[i] is Charts,
        ),
        extended(
            old(config).mirrors,
            final(config).mirrors,
            mirrors_in(included@),
            exists|i: int| 0 <= i < included@.len() && included@[i] is Mirrors,
        ),
        extended(
            old(config).repositories,
            final(config).repositories,
            repositories_in(included@),
            exists|i: int| 0 <= i < included@.len() && included@[i] is Repositories,
        ),
        *final(config) == (Config {
            charts: final(config).charts,
            mirrors: final(config).mirrors,
            repositories: final(config).repositories,
            ..*old(config)
        }),
{
    let ghost all = included@;
    let total = included.len();
    assert(total == all.len());
    let mut rest = included;
    let mut k: usize = 0;
    while rest.len() > 0
        invariant
            k <= all.len(),
            k + rest@.len() == all.len(),
            all.len() <= usize::MAX,
            rest@ == all.skip(k as int),
            extended(
                old(config).charts,
                config.charts,
                charts_in(all.take(k as int)),
                exists|i: int| 0 <= i < k && all[i] is Charts,
            ),
            extended(
                old(config).mirrors,
                config.mirrors,
                mirrors_in(all.take(k as int)),
                exists|i: int| 0 <= i < k && all[i] is Mirrors,
            ),
            extended(
                old(config).repositories,
                config.repositories,
                repositories_in(all.take(k as int)),
                exists|i: int| 0 <= i < k && all[i] is Repositories,
            ),
            *config == (Config {
                charts: config.charts,
                mirrors: config.mirrors,
                repositories: config.repositories,
                ..*old(config)
            }),
        decreases rest.len(),
    {
        let item = rest.remove(0);
        let ghost it = item;
        let ghost before = *config;
        proof {
            assert(all[k as int] == item);
            let t = all.take(k + 1);
            assert(t.drop_last() =~= all.take(k as int));
            assert(t.last() == item);
            assert(charts_in(t) == charts_in(all.take(k as int)) + match it {
                Included::Charts(v) => v@,
                _ => Seq::empty(),
            });
            assert(mirrors_in(t) == mirrors_in(all.take(k as int)) + match it {
                Included::Mirrors(v) => v@,
                _ => Seq::empty(),
            });
            assert(repositories_in(t) == repositories_in(all.take(k as int)) + match it {
                Included::Repositories(v) => v@,
                _ => Seq::empty(),
            });
        }
        match item {
            Included::Charts(mut v) => {
                let merged = match config.charts.take() {
                    Some(mut e) => {
                        e.append(&mut v);
                        e
                    },
                    None => v,
                };
                config.charts = Some(merged);
            },
            Included::Mirrors(mut v) => {
                let merged = match config.mirrors.take() {
                    Some(mut e) => {
                        e.append(&mut v);
                        e
                    },
                    None => v,
                };
                config.mirrors = Some(merged);
            },
            Included::Repositories(mut v) => {
                let merged = match config.repositories.take() {
                    Some(mut e) => {
                        e.append(&mut v);
                        e
                    },
                    None => v,
                };
                config.repositories = Some(merged);
            },
        }
        proof {
            let k1 = (k + 1) as int;
            assert(all[k as int] == it);
            assert((exists|i: int| 0 <= i < k1 && all[i] is Charts) <==> ((exists|i: int|
                0 <= i < k && all[i] is Charts) || it is Charts));
            assert((exists|i: int| 0 <= i < k1 && all[i] is Mirrors) <==> ((exists|i: int|
                0 <= i < k && all[i] is Mirrors) || it is Mirrors));
            assert((exists|i: int| 0 <= i < k1 && all[i] is Repositories) <==> ((exists|i: int|
                0 <= i < k && all[i] is Repositories) || it is Repositories));
            let ac = match it {
                Included::Charts(v) => v@,
                _ => Seq::empty(),
            };
            let am = match it {
                Included::Mirrors(v) => v@,
                _ => Seq::empty(),
            };
            let ar = match it {
                Included::Repositories(v) => v@,
                _ => Seq::empty(),
            };
            lemma_extended_step(
                old(config).charts,
                before.charts,
                config.charts,
                charts_in(all.take(k as int)),
                ac,
                exists|i: int| 0 <= i < k && all[i] is Charts,
                it is Charts,
            );
            lemma_extended_step(
                old(config).mirrors,
                before.mirrors,
                config.mirrors,
                mirrors_in(all.take(k as int)),
                am,
                exists|i: int| 0 <= i < k && all[i] is Mirrors,
                it is Mirrors,
            );
            lemma_extended_step(
                old(config).repositories,
                before.repositories,
                config.repositories,
                repositories_in(all.take(k as int)),
                ar,
                exists|i: int| 0 <= i < k && all[i] is Repositories,
                it is Repositories,
            );
        }
        k = k + 1;
        proof {
            assert(rest@ =~= all.skip(k as int));
        }
    }
    assert(all.take(k as int) =~= all);
}

proof fn lemma_extended_step<T>(
    old: Option<Vec<T>>,
    before: Option<Vec<T>>,
    after: Option<Vec<T>>,
    prev: Seq<T>,
    now: Seq<T>,
    prev_any: bool,
    now_any: bool,
)
    requires
        extended(old, before, prev, prev_any),
        now_any ==> after is Some && seq_or_empty(after) == seq_or_empty(before) + now,
        !now_any ==> after == before && now == Seq::<T>::empty(),
    ensures
        extended(old, after, prev + now, prev_any || now_any),
{
    if now_any {
        assert(seq_or_empty(after) =~= seq_or_empty(old) + (prev + now));
    } else {
        assert(prev + now =~= prev);
    }
}

/// Why an included file cannot be read.
pub enum IncludeError {
    /// The path of the included file has no parent directory.
    ParentDirNotFound(String),
}

impl IncludeError {
    /// The message that describes the error.
    pub fn message(&self) -> (r: String)
        ensures
            r@ == match self {
                IncludeError::ParentDirNotFound(p) => "chart parrent dir not found for "@ + p@,
            },
    {
        match self {
            IncludeError::ParentDirNotFound(p) => concat2("chart parrent dir not found for ", p.as_str()),
        }
    }
}

/// The parent directory of `path`, as `std::path::Path::parent` gives it,
/// written as text.
pub uninterp spec fn path_parent(path: Seq<char>) -> Option<Seq<char>>;

/// Calls `std::path::Path::parent` on `path` and turns the result back into
/// a string. Claimed: the result is `path_parent(path)`, a function of the
/// text of `path` alone.
#[verifier::external_body]
fn parent_dir(path: &str) -> (r: Option<String>)
    ensures
        r is Some <==> path_parent(path@) is Some,
        r matches Some(d) ==> d@ == path_parent(path@).unwrap(),
{
    std::path::Path::new(path).parent().and_then(|d| d.to_str()).map(|d| d.to_string())
}

/// Whether `p` is a relative path: whether it does not start with `/`.
pub open spec fn is_relative(p: Seq<char>) -> bool {
    !starts_with_char(p, '/')
}

/// `p` without a leading `./`.
pub open spec fn cleaned(p: Seq<char>) -> Seq<char> {
    if starts_with_dot_slash(p) {
        p.skip(2)
    } else {
        p
    }
}

/// Whether a path of an included chart is taken relative to the included
/// file: it is relative, and still is without its leading `./`.
pub open spec fn needs_rebase(p: Seq<char>) -> bool {
    is_relative(p) && is_relative(cleaned(p))
}

/// The path `p` of an included chart, relative to the directory `dir` of
/// the included file. A file named without a directory part has the empty
/// directory; its paths stay relative, without their leading `./`.
pub open spec fn rebase(p: Seq<char>, dir: Seq<char>) -> Seq<char> {
    if dir.len() == 0 {
        cleaned(p)
    } else {
        join_path(dir, cleaned(p))
    }
}

/// A leading `./` makes no difference to where an included path is taken:
/// `./p` is rebased where `p` is, and onto the same path.
pub proof fn lemma_dot_slash_rebases_alike(p: Seq<char>, dir: Seq<char>)
    requires
        !starts_with_dot_slash(p),
    ensures
        needs_rebase(seq!['.', '/'] + p) == needs_rebase(p),
        rebase(seq!['.', '/'] + p, dir) == rebase(p, dir),
{
    let q = seq!['.', '/'] + p;
    assert(q.skip(2) =~= p);
    if p.len() > 0 {
        assert(q[2] == p[0]);
    }
}

/// A relative path of a chart included from a file named without a
/// directory part stays relative.
pub proof fn lemma_rebase_without_dir_stays_relative(p: Seq<char>)
    requires
        needs_rebase(p),
    ensures
        is_relative(rebase(p, Seq::empty())),
        rebase(p, Seq::empty()) == cleaned(p),
{
}

/// An absolute path is never rebased.
pub proof fn lemma_absolute_paths_kept(p: Seq<char>)
    requires
        !is_relative(p),
    ensures
        !needs_rebase(p),
{
}

/// Every relative path of an included chart is taken relative to the
/// directory `dir` of the included file, `../x` as much as `x`: a path that
/// does not start with `/`, and does not once a leading `./` is dropped,
/// becomes `dir`, a slash, and the path without its leading `./`. An
/// extension of such a chart gets its source directory so.
pub proof fn lemma_relative_paths_rebased(p: Seq<char>, dir: Seq<char>, old: Extension, new: Extension)
    requires
        !(p.len() > 0 && p[0] == '/'),
        !(p.len() > 2 && p[0] == '.' && p[1] == '/' && p[2] == '/'),
        dir.len() > 0,
    ensures
        needs_rebase(p),
        rebase(p, dir) == dir + "/"@ + (if p.len() >= 2 && p[0] == '.' && p[1] == '/' {
            p.skip(2)
        } else {
            p
        }),
        (extension_rebased(old, new, dir) && old.source_dir@ == p) ==> new.source_dir@ == dir
            + "/"@ + (if p.len() >= 2 && p[0] == '.' && p[1] == '/' {
            p.skip(2)
        } else {
            p
        }),
{
    if starts_with_dot_slash(p) && p.len() > 2 {
        assert(p.skip(2)[0] == p[2]);
    }
}

/// Whether `path` is relative: whether it does not start with `/`.
pub fn is_path_relative(path: String) -> (r: bool)
    ensures
        r == is_relative(path@),
{
    !first_char_is(path.as_str(), '/')
}

fn cleaned_path(p: &str) -> (r: String)
    ensures
        r@ == cleaned(p@),
{
    if has_dot_slash_prefix(p) {
        suffix_from(p, 2)
    } else {
        p.to_owned()
    }
}

fn path_needs_rebase(p: &str) -> (r: bool)
    ensures
        r == needs_rebase(p@),
{
    let clean = cleaned_path(p);
    !first_char_is(p, '/') && !first_char_is(clean.as_str(), '/')
}

fn rebased(p: &str, dir: &str) -> (r: String)
    ensures
        r@ == rebase(p@, dir@),
{
    let clean = cleaned_path(p);
    if dir.unicode_len() == 0 {
        clean
    } else {
        join(dir, clean.as_str())
    }
}

fn rebase_path(p: String, dir: &str) -> (r: String)
    ensures
        needs_rebase(p@) ==> r@ == rebase(p@, dir@),
        !needs_rebase(p@) ==> r == p,
{
    if path_needs_rebase(p.as_str()) {
        rebased(p.as_str(), dir)
    } else {
        p
    }
}

/// `new` is the extension `old` of a chart included from the directory
/// `dir`.
pub open spec fn extension_rebased(old: Extension, new: Extension, dir: Seq<char>) -> bool {
    &&& new.name == old.name
    &&& new.target_dir == old.target_dir
    &&& needs_rebase(old.source_dir@) ==> new.source_dir@ == rebase(old.source_dir@, dir)
    &&& !needs_rebase(old.source_dir@) ==> new.source_dir == old.source_dir
}

/// `new` is `old` with its path set to `p`, as `Patch::set_path` sets it.
pub open spec fn path_set(old: Patch, new: Patch, p: Seq<char>) -> bool {
    if old.regexp is Some {
        new.regexp matches Some(r) && r.path@ == p && new == (Patch { regexp: new.regexp, ..old })
    } else if old.git is Some {
        new.git matches Some(g) && g.path@ == p && new == (Patch { git: new.git, ..old })
    } else {
        new == old
    }
}

/// `new` is the patch `old` of a chart included from the directory `dir`:
/// where its path needs it, the path is taken relative to `dir`.
pub open spec fn patch_rebased<F: Fn(String) -> Option<String>>(
    old: Patch,
    new: Patch,
    dir: Seq<char>,
    resolve: F,
) -> bool {
    exists|gp: Seq<char>|
        path_of(old, resolve, gp) && if needs_rebase(gp) {
            path_set(old, new, rebase(gp, dir))
        } else {
            new == old
        }
}

/// `new` is the chart `old` included from the directory `dir`: its
/// extensions and patches are rebased, the rest is kept.
pub open spec fn chart_rebased<F: Fn(String) -> Option<String>>(
    old: Chart,
    new: Chart,
    dir: Seq<char>,
    resolve: F,
) -> bool {
    &&& new == (Chart { extensions: new.extensions, patches: new.patches, ..old })
    &&& old.extensions is None ==> new.extensions is None
    &&& old.extensions matches Some(oe) ==> new.extensions matches Some(ne) && ne@.len()
        == oe@.len() && forall|i: int|
        0 <= i < oe@.len() ==> extension_rebased(oe@[i], #[trigger] ne@[i], dir)
    &&& old.patches is None ==> new.patches is None
    &&& old.patches matches Some(op) ==> new.patches matches Some(np) && np@.len() == op@.len()
        && forall|i: int| 0 <= i < op@.len() ==> patch_rebased(op@[i], #[trigger] np@[i], dir, resolve)
}

fn rebase_extensions(v: Vec<Extension>, dir: &str) -> (r: Vec<Extension>)
    ensures
        r@.len() == v@.len(),
        forall|i: int| 0 <= i < v@.len() ==> extension_rebased(v@[i], #[trigger] r@[i], dir@),
{
    let ghost all = v@;
    let mut rest = v;
    let mut out: Vec<Extension> = Vec::new();
    while rest.len() > 0
        invariant
            out@.len() <= all.len(),
            rest@ == all.skip(out@.len() as int),
            forall|i: int| 0 <= i < out@.len() ==> extension_rebased(all[i], #[trigger] out@[i], dir@),
        decreases rest.len(),
    {
        let e = rest.remove(0);
        assert(e == all[out@.len() as int]);
        let Extension { name, target_dir, source_dir } = e;
        let source_dir = rebase_path(source_dir, dir);
        out.push(Extension { name, target_dir, source_dir });
        assert(rest@ =~= all.skip(out@.len() as int));
    }
    out
}

fn rebase_patches<F: Fn(String) -> Option<String>>(v: Vec<Patch>, dir: &str, resolve: &F) -> (r: Vec<Patch>)
    requires
        forall|s: String| resolve.requires((s,)),
    ensures
        r@.len() == v@.len(),
        forall|i: int| 0 <= i < v@.len() ==> patch_rebased(v@[i], #[trigger] r@[i], dir@, *resolve),
{
    let ghost all = v@;
    let mut rest = v;
    let mut out: Vec<Patch> = Vec::new();
    while rest.len() > 0
        invariant
            forall|s: String| resolve.requires((s,)),
            out@.len() <= all.len(),
            rest@ == all.skip(out@.len() as int),
            forall|i: int| 0 <= i < out@.len() ==> patch_rebased(all[i], #[trigger] out@[i], dir@, *resolve),
        decreases rest.len(),
    {
        let mut p = rest.remove(0);
        let ghost old_p = p;
        assert(p == all[out@.len() as int]);
        let gp = p.get_path(resolve);
        if path_needs_rebase(gp.as_str()) {
            p.set_path(rebased(gp.as_str(), dir));
        }
        assert(path_of(old_p, *resolve, gp@));
        out.push(p);
        assert(rest@ =~= all.skip(out@.len() as int));
    }
    out
}

fn rebase_chart<F: Fn(String) -> Option<String>>(c: Chart, dir: &str, resolve: &F) -> (r: Chart)
    requires
        forall|s: String| resolve.requires((s,)),
    ensures
        chart_rebased(c, r, dir@, *resolve),
{
    let Chart {
        name,
        repository,
        mirrors,
        version,
        extensions,
        patches,
        variables,
        repository_obj,
        mirror_objs,
    } = c;
    let extensions = match extensions {
        Some(e) => Some(rebase_extensions(e, dir)),
        None => None,
    };
    let patches = match patches {
        Some(p) => Some(rebase_patches(p, dir, resolve)),
        None => None,
    };
    Chart {
        name,
        repository,
        mirrors,
        version,
        extensions,
        patches,
        variables,
        repository_obj,
        mirror_objs,
    }
}

/// Takes the relative paths of extensions and patches of the charts read
/// from the file at `path` relative to the directory of that file.
/// `resolve` gives the canonical form of a git patch path that exists.
pub fn include_chart<F: Fn(String) -> Option<String>>(
    path: String,
    charts: Vec<Chart>,
    resolve: &F,
) -> (r: Result<Vec<Chart>, IncludeError>)
    requires
        forall|s: String| resolve.requires((s,)),
    ensures
        path_parent(path@) is None ==> r == Err::<Vec<Chart>, IncludeError>(
            IncludeError::ParentDirNotFound(path),
        ),
        path_parent(path@) matches Some(dir) ==> r matches Ok(out) && out@.len() == charts@.len()
            && forall|i: int|
            0 <= i < charts@.len() ==> chart_rebased(charts@[i], #[trigger] out@[i], dir, *resolve),
{
    let chart_dir = match parent_dir(path.as_str()) {
        Some(d) => d,
        None => return Err(IncludeError::ParentDirNotFound(path)),
    };
    let ghost all = charts@;
    let mut rest = charts;
    let mut out: Vec<Chart> = Vec::new();
    while rest.len() > 0
        invariant
            forall|s: String| resolve.requires((s,)),
            out@.len() <= all.len(),
            rest@ == all.skip(out@.len() as int),
            forall|i: int|
                0 <= i < out@.len() ==> chart_rebased(all[i], #[trigger] out@[i], chart_dir@, *resolve),
        decreases rest.len(),
    {
        let c = rest.remove(0);
        assert(c == all[out@.len() as int]);
        out.push(rebase_chart(c, chart_dir.as_str(), resolve));
        assert(rest@ =~= all.skip(out@.len() as int));
    }
    Ok(out)
}

/// Takes the relative paths of extensions and patches of the charts of the
/// configuration file at `config_path` relative to the directory of that
/// file, as for an included file; the rest of the configuration is kept.
pub fn rebase_config_charts<F: Fn(String) -> Option<String>>(
    config: &mut Config,
    config_path: String,
    resolve: &F,
) -> (r: Result<(), IncludeError>)
    requires
        forall|s: String| resolve.requires((s,)),
    ensures
        path_parent(config_path@) is None ==> r == Err::<(), IncludeError>(
            IncludeError::ParentDirNotFound(config_path),
        ) && *final(config) == *old(config),
        path_parent(config_path@) matches Some(dir) ==> {
            &&& r is Ok
            &&& *final(config) == (Config { charts: final(config).charts, ..*old(config) })
            &&& old(config).charts is None ==> final(config).charts is None
            &&& old(config).charts matches Some(cs) ==> (final(config).charts matches Some(ns)
                && ns@.len() == cs@.len() && forall|i: int|
                0 <= i < cs@.len() ==> chart_rebased(cs@[i], #[trigger] ns@[i], dir, *resolve))
        },
{
    if parent_dir(config_path.as_str()).is_none() {
        return Err(IncludeError::ParentDirNotFound(config_path));
    }
    if let Some(charts) = config.charts.take() {
        if let Ok(out) = include_chart(config_path, charts, resolve) {
            config.charts = Some(out);
        }
    }
    Ok(())
}

} // verus!
