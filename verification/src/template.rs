//! Rendering of the templated fields of the configuration (mirror URLs,
//! branches, commands, ...) with the data of a pulled chart.
//!
//! The data handed to the template engine is a JSON object with the fields
//! `name`, `version`, `path`, `repo_url`, `vars` (an object of the chart's
//! variables), `date` and `time`.
use vstd::prelude::*;
use vstd::string::*;
use crate::source::ChartLocal;
use crate::vars::Variables;

verus! {

/// The current date and time, as the `date` (`%Y-%m-%d`) and `time`
/// (`%H-%M-%S`) fields of template data.
pub struct Timestamp {
    pub date: String,
    pub time: String,
}

/// A template that could not be parsed or rendered.
pub struct TemplateError {
    pub message: String,
}

/// The message of a refused template.
pub open spec fn unsafe_template_message() -> Seq<char> {
    "template uses partials or decorators, or nests too deeply"@
}

/// The hexadecimal digit for `n`, lower case.
pub open spec fn hex_digit(n: int) -> char {
    seq!['0', '1', '2', '3', '4', '5', '6', '7', '8', '9', 'a', 'b', 'c', 'd', 'e', 'f'][n]
}

/// How one character is written inside a JSON string.
pub open spec fn json_escape_char(c: char) -> Seq<char> {
    if c == '"' {
        seq!['\\', '"']
    } else if c == '\\' {
        seq!['\\', '\\']
    } else if (c as u32) < 0x20 {
        seq!['\\', 'u', '0', '0', hex_digit(((c as u32) / 16) as int), hex_digit(((c as u32) % 16) as int)]
    } else {
        seq![c]
    }
}

/// The characters of `s` escaped for a JSON string.
pub open spec fn json_escape(s: Seq<char>) -> Seq<char>
    decreases s.len(),
{
    if s.len() == 0 {
        Seq::empty()
    } else {
        json_escape(s.drop_last()) + json_escape_char(s.last())
    }
}

/// `s` as a JSON string literal.
pub open spec fn json_quote(s: Seq<char>) -> Seq<char> {
    seq!['"'] + json_escape(s) + seq!['"']
}

/// One member of a JSON object.
pub open spec fn json_member(key: Seq<char>, value: Seq<char>) -> Seq<char> {
    json_quote(key) + seq![':'] + json_quote(value)
}

/// The members of a JSON object, separated by commas.
pub open spec fn json_members(p: Seq<(Seq<char>, Seq<char>)>) -> Seq<char>
    decreases p.len(),
{
    if p.len() == 0 {
        Seq::empty()
    } else if p.len() == 1 {
        json_member(p[0].0, p[0].1)
    } else {
        json_members(p.drop_last()) + seq![','] + json_member(p.last().0, p.last().1)
    }
}

/// The template data for a pulled chart at a given time, as JSON text.
pub open spec fn template_data(c: ChartLocal, now: Timestamp) -> Seq<char> {
    "{\"name\":"@ + json_quote(c.name@) + ",\"version\":"@ + json_quote(c.version@)
        + ",\"path\":"@ + json_quote(c.path@) + ",\"repo_url\":"@ + json_quote(c.repo_url@)
        + ",\"vars\":{"@ + json_members(c.vars.pairs()) + "},\"date\":"@ + json_quote(now.date@)
        + ",\"time\":"@ + json_quote(now.time@) + "}"@
}

/// What the handlebars engine (a fresh registry with its default HTML
/// escaping) renders from `template` with the JSON data `data`, or `None`
/// where the template does not parse or does not render.
pub uninterp spec fn handlebars_render(template: Seq<char>, data: Seq<char>) -> Option<Seq<char>>;

#[verifier::external_type_specification]
#[verifier::external_body]
pub struct ExRenderError(handlebars::RenderError);

/// The most block openings (`#`, `^`) and subexpressions (`(`) a template
/// may hold: a bound on how deeply its parts can nest.
pub const MAX_NESTING: usize = 32;

/// Whether `c` may stand between the `{{` that opens a tag and the
/// character that tells what kind of tag it is.
pub open spec fn is_tag_lead(c: char) -> bool {
    c == '{' || c == '~' || c == '#' || c == '^' || c == '&' || c == ' ' || c == '\t'
        || c == '\n' || c == '\r'
}

/// Whether, from position `j` on, `t` holds lead characters followed by `>`
/// or `*`: the tag whose `{{` ends just before `j` is a partial
/// (`{{> p}}`, `{{#> p}}`), an inline partial (`{{#*inline ..}}`) or
/// another decorator.
pub open spec fn partial_lead(t: Seq<char>, j: int) -> bool
    decreases t.len() - j,
{
    if j < 0 || j >= t.len() {
        false
    } else if t[j] == '>' || t[j] == '*' {
        true
    } else if is_tag_lead(t[j]) {
        partial_lead(t, j + 1)
    } else {
        false
    }
}

/// Whether `c` opens a part that nests: a block or a subexpression.
pub open spec fn is_nesting_char(c: char) -> bool {
    c == '#' || c == '^' || c == '('
}

/// The number of characters of `t` that open a part that nests.
pub open spec fn nesting_chars(t: Seq<char>) -> nat
    decreases t.len(),
{
    if t.len() == 0 {
        0
    } else {
        nesting_chars(t.drop_last()) + if is_nesting_char(t.last()) {
            1nat
        } else {
            0nat
        }
    }
}

/// Whether the template engine can be handed `t` without risk of endless
/// recursion: no tag of `t` is a partial or a decorator (a partial that
/// includes itself recurses without end), and at most `MAX_NESTING`
/// characters open a block or a subexpression.
pub open spec fn template_safe(t: Seq<char>) -> bool {
    &&& forall|i: int|
        0 <= i < t.len() - 1 && t[i] == '{' && t[i + 1] == '{' ==> !#[trigger] partial_lead(
            t,
            i + 2,
        )
    &&& nesting_chars(t) <= MAX_NESTING
}

/// What a template of the configuration renders to: nothing where the
/// template is refused (see `template_safe`), else what handlebars renders.
pub open spec fn rendered(template: Seq<char>, data: Seq<char>) -> Option<Seq<char>> {
    if template_safe(template) {
        handlebars_render(template, data)
    } else {
        None
    }
}

fn chars_of(s: &str) -> (v: Vec<char>)
    ensures
        v@ == s@,
{
    let n = s.unicode_len();
    let mut v: Vec<char> = Vec::new();
    for i in 0..n
        invariant
            n == s@.len(),
            v@ == s@.take(i as int),
    {
        v.push(s.get_char(i));
        assert(s@.take(i + 1) == s@.take(i as int).push(s@[i as int]));
    }
    assert(s@.take(n as int) == s@);
    v
}

fn exec_is_tag_lead(c: char) -> (r: bool)
    ensures
        r == is_tag_lead(c),
{
    c == '{' || c == '~' || c == '#' || c == '^' || c == '&' || c == ' ' || c == '\t' || c == '\n'
        || c == '\r'
}

proof fn lemma_partial_lead(t: Seq<char>, j: int, k: int)
    requires
        0 <= j <= k <= t.len(),
        forall|m: int| j <= m < k ==> is_tag_lead(t[m]),
        k == t.len() || !is_tag_lead(t[k]),
    ensures
        partial_lead(t, j) == (k < t.len() && (t[k] == '>' || t[k] == '*')),
    decreases k - j,
{
    if j < k {
        lemma_partial_lead(t, j + 1, k);
    }
}

fn partial_lead_at(t: &Vec<char>, j: usize) -> (r: bool)
    requires
        j <= t@.len(),
    ensures
        r == partial_lead(t@, j as int),
{
    let n = t.len();
    let mut k = j;
    while k < n && exec_is_tag_lead(t[k])
        invariant
            n == t@.len(),
            j <= k <= n,
            forall|m: int| j <= m < k ==> is_tag_lead(t@[m]),
        decreases n - k,
    {
        k = k + 1;
    }
    proof {
        lemma_partial_lead(t@, j as int, k as int);
    }
    k < n && (t[k] == '>' || t[k] == '*')
}

/// Whether `template` may be handed to the template engine; see
/// `template_safe`.
pub fn template_is_safe(template: &str) -> (r: bool)
    ensures
        r == template_safe(template@),
{
    let t = chars_of(template);
    let n = t.len();
    let mut nesting: usize = 0;
    let mut i: usize = 0;
    while i < n
        invariant
            n == t@.len(),
            t@ == template@,
            i <= n,
            nesting == nesting_chars(t@.take(i as int)),
            nesting <= MAX_NESTING,
            forall|m: int|
                0 <= m < i && m < n - 1 && t@[m] == '{' && t@[m + 1] == '{' ==> !#[trigger] partial_lead(
                    t@,
                    m + 2,
                ),
        decreases n - i,
    {
        proof {
            assert(t@.take(i + 1).drop_last() =~= t@.take(i as int));
            assert(t@.take(i + 1).last() == t@[i as int]);
        }
        if t[i] == '#' || t[i] == '^' || t[i] == '(' {
            if nesting == MAX_NESTING {
                proof {
                    lemma_nesting_grows(t@, i as int + 1);
                }
                return false;
            }
            nesting = nesting + 1;
        }
        if i + 1 < n && t[i] == '{' && t[i + 1] == '{' {
            if partial_lead_at(&t, i + 2) {
                return false;
            }
        }
        i = i + 1;
    }
    assert(t@.take(n as int) =~= t@);
    true
}

proof fn lemma_nesting_grows(t: Seq<char>, k: int)
    requires
        0 <= k <= t.len(),
    ensures
        nesting_chars(t.take(k)) <= nesting_chars(t),
    decreases t.len() - k,
{
    if k < t.len() {
        lemma_nesting_grows(t, k + 1);
        assert(t.take(k + 1).drop_last() =~= t.take(k));
    } else {
        assert(t.take(k) =~= t);
    }
}

/// Calls `handlebars::Handlebars::render_template` on a fresh registry, with
/// the data given as JSON text (read by `serde_json::from_str`). Claimed: the
/// call returns, and succeeds exactly when `handlebars_render` is `Some`, and
/// then returns its text; the outcome depends on the template and the data
/// alone. Templates with partials or deep nesting, on which the engine can
/// recurse without end, are left out.
#[verifier::external_body]
fn render_json(template: &str, data: &str) -> (r: Result<String, handlebars::RenderError>)
    requires
        template_safe(template@),
    ensures
        r is Ok <==> handlebars_render(template@, data@) is Some,
        r matches Ok(s) ==> s@ == handlebars_render(template@, data@).unwrap(),
{
    let value: handlebars::JsonValue = serde_json::from_str(data)?;
    handlebars::Handlebars::new().render_template(template, &value)
}

/// Appends the JSON escape of `s` to `out`.
fn push_escaped(out: &mut String, s: &str)
    ensures
        final(out)@ == old(out)@ + json_escape(s@),
{
    let digits = "0123456789abcdef";
    proof {
        reveal_strlit("0123456789abcdef");
    }
    let n = s.unicode_len();
    for i in 0..n
        invariant
            n == s@.len(),
            digits@ == seq!['0', '1', '2', '3', '4', '5', '6', '7', '8', '9', 'a', 'b', 'c', 'd', 'e', 'f'],
            out@ == old(out)@ + json_escape(s@.take(i as int)),
    {
        let c = s.get_char(i);
        let ghost before = out@;
        proof {
            reveal_strlit("\\\"");
            reveal_strlit("\\\\");
            reveal_strlit("\\u00");
        }
        if c == '"' {
            out.append("\\\"");
        } else if c == '\\' {
            out.append("\\\\");
        } else if (c as u32) < 0x20 {
            let code = c as u32;
            let hi = (code / 16) as usize;
            let lo = (code % 16) as usize;
            out.append("\\u00");
            let h = digits.substring_char(hi, hi + 1);
            let l = digits.substring_char(lo, lo + 1);
            assert(h@ =~= seq![hex_digit(((c as u32) / 16) as int)]);
            assert(l@ =~= seq![hex_digit(((c as u32) % 16) as int)]);
            out.append(h);
            out.append(l);
        } else {
            out.append(s.substring_char(i, i + 1));
        }
        proof {
            let t = s@.take(i + 1);
            assert(t.drop_last() =~= s@.take(i as int));
            assert(t.last() == c);
            assert(out@ =~= before + json_escape_char(c));
        }
    }
    assert(s@.take(n as int) =~= s@);
}

/// Appends `s` as a JSON string literal to `out`.
fn push_quoted(out: &mut String, s: &str)
    ensures
        final(out)@ == old(out)@ + json_quote(s@),
{
    proof {
        reveal_strlit("\"");
    }
    out.append("\"");
    push_escaped(out, s);
    out.append("\"");
}

/// Appends the members of a JSON object holding `vars` to `out`.
fn push_members(out: &mut String, vars: &Variables)
    ensures
        final(out)@ == old(out)@ + json_members(vars.pairs()),
{
    let n = vars.len();
    for i in 0..n
        invariant
            n == vars.pairs().len(),
            out@ == old(out)@ + json_members(vars.pairs().take(i as int)),
    {
        proof {
            reveal_strlit(":");
            reveal_strlit(",");
        }
        let (k, v) = vars.entry(i);
        if i > 0 {
            out.append(",");
        }
        push_quoted(out, k.as_str());
        out.append(":");
        push_quoted(out, v.as_str());
        proof {
            let t = vars.pairs().take(i + 1);
            assert(t.drop_last() =~= vars.pairs().take(i as int));
            assert(t.last() == vars.pairs()[i as int]);
            assert(t[0] == vars.pairs()[0]);
            if i == 0 {
                assert(t.len() == 1);
            }
        }
    }
    assert(vars.pairs().take(n as int) =~= vars.pairs());
}

/// The template data of `chart_local` at time `now`, as JSON text.
pub fn data_json(chart_local: &ChartLocal, now: &Timestamp) -> (r: String)
    ensures
        r@ == template_data(*chart_local, *now),
{
    let mut out = String::from_str("{\"name\":");
    push_quoted(&mut out, chart_local.name.as_str());
    out.append(",\"version\":");
    push_quoted(&mut out, chart_local.version.as_str());
    out.append(",\"path\":");
    push_quoted(&mut out, chart_local.path.as_str());
    out.append(",\"repo_url\":");
    push_quoted(&mut out, chart_local.repo_url.as_str());
    out.append(",\"vars\":{");
    push_members(&mut out, &chart_local.vars);
    out.append("},\"date\":");
    push_quoted(&mut out, now.date.as_str());
    out.append(",\"time\":");
    push_quoted(&mut out, now.time.as_str());
    out.append("}");
    out
}

/// Renders `template` with the data of `chart_local` at time `now`. A
/// template with partials, decorators or too deep nesting is refused.
pub fn render(template: &str, chart_local: &ChartLocal, now: &Timestamp) -> (r: Result<
    String,
    TemplateError,
>)
    ensures
        r is Ok <==> rendered(template@, template_data(*chart_local, *now)) is Some,
        r matches Ok(s) ==> s@ == rendered(template@, template_data(*chart_local, *now)).unwrap(),
        !template_safe(template@) ==> (r matches Err(e) && e.message@ == unsafe_template_message()),
{
    if !template_is_safe(template) {
        return Err(
            TemplateError {
                message: "template uses partials or decorators, or nests too deeply".to_owned(),
            },
        );
    }
    let data = data_json(chart_local, now);
    match render_json(template, data.as_str()) {
        Ok(s) => Ok(s),
        Err(e) => Err(TemplateError { message: e.to_string() }),
    }
}

} // verus!
