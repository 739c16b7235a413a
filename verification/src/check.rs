//! Backend readiness from `mountos check --json`: whether any backend is
//! usable, and one issue for each backend that is not.
use vstd::prelude::*;

use crate::json::{bool_at, flag_at, jarray, jget, jobject, jstr, lookup, str_at, Json, JsonView};
use crate::profile::opt_view;
use crate::text::{
    ascii_lower, ascii_lowercase, chars_of, decimal, decimal_string, join, join_strings,
    lossy_text, push_char, text, trim, trim_str, utf8_lossy, views,
};

verus! {

/// One readiness problem shown to the user.
pub struct CheckIssue {
    pub id: String,
    pub severity: String,
    pub title: String,
    pub detail: Option<String>,
    pub fix_command: Option<String>,
}

pub struct IssueView {
    pub id: Seq<char>,
    pub severity: Seq<char>,
    pub title: Seq<char>,
    pub detail: Option<Seq<char>>,
    pub fix_command: Option<Seq<char>>,
}

impl View for CheckIssue {
    type V = IssueView;

    open spec fn view(&self) -> IssueView {
        IssueView {
            id: self.id@,
            severity: self.severity@,
            title: self.title@,
            detail: opt_view(self.detail),
            fix_command: opt_view(self.fix_command),
        }
    }
}

pub open spec fn issue_views(v: Seq<CheckIssue>) -> Seq<IssueView> {
    v.map_values(|i: CheckIssue| i@)
}

pub open spec fn or_default(o: Option<Seq<char>>, d: Seq<char>) -> Seq<char> {
    match o {
        Some(s) => s,
        None => d,
    }
}

/// The backend records: the array's items, or the one value that is not an array.
pub open spec fn records(v: JsonView) -> Seq<JsonView> {
    match v {
        JsonView::Array(items) => items,
        _ => seq![v],
    }
}

pub open spec fn supported(item: JsonView) -> bool {
    flag_at(item, "supported"@)
}

pub open spec fn any_supported(rs: Seq<JsonView>) -> bool {
    exists|i: int| 0 <= i < rs.len() && supported(#[trigger] rs[i])
}

/// Why a check failed: its `error` (when the key is present), else its
/// `required`, else "not ready".
pub open spec fn check_reason(check: JsonView) -> Seq<char> {
    match jget(check, "error"@) {
        Some(e) => or_default(jstr(Some(e)), "not ready"@),
        None => or_default(str_at(check, "required"@), "not ready"@),
    }
}

pub open spec fn check_line(check: JsonView) -> Seq<char> {
    or_default(str_at(check, "name"@), "Check"@) + ": "@ + check_reason(check)
}

/// One line for each check that is not ok.
pub open spec fn check_lines(cs: Seq<JsonView>) -> Seq<Seq<char>>
    decreases cs.len(),
{
    if cs.len() == 0 {
        Seq::empty()
    } else {
        check_lines(cs.drop_last()) + if flag_at(cs.last(), "ok"@) {
            Seq::empty()
        } else {
            seq![check_line(cs.last())]
        }
    }
}

/// The failed checks' lines, then the hint when there is a non-empty one.
pub open spec fn detail_lines(item: JsonView) -> Seq<Seq<char>> {
    let checks = match jarray(jget(item, "checks"@)) {
        Some(cs) => check_lines(cs),
        None => Seq::empty(),
    };
    match str_at(item, "hint"@) {
        Some(h) => if h.len() > 0 {
            checks.push(h)
        } else {
            checks
        },
        None => checks,
    }
}

pub open spec fn str_member(d: Seq<(Seq<char>, JsonView)>, key: Seq<char>) -> Option<Seq<char>> {
    jstr(lookup(d, key))
}

/// The first of the diagnostics' fix commands that is present.
pub open spec fn fix_command(item: JsonView) -> Option<Seq<char>> {
    match jobject(jget(item, "diagnostics"@)) {
        Some(d) => if str_member(d, "openHostApp"@) is Some {
            str_member(d, "openHostApp"@)
        } else if str_member(d, "pluginKitAdd"@) is Some {
            str_member(d, "pluginKitAdd"@)
        } else {
            str_member(d, "pluginKitReset"@)
        },
        None => None,
    }
}

pub open spec fn dashed(s: Seq<char>) -> Seq<char> {
    Seq::new(s.len(), |i: int| if s[i] == ' ' { '-' } else { s[i] })
}

pub open spec fn feature_of(item: JsonView) -> Seq<char> {
    or_default(str_at(item, "feature"@), "Backend"@)
}

/// The issue for the record at `index` that is not supported.
pub open spec fn issue_for(item: JsonView, index: nat, any: bool) -> IssueView {
    let feature = feature_of(item);
    let lines = detail_lines(item);
    IssueView {
        id: "backend-"@ + dashed(ascii_lower(feature)) + "-"@ + decimal(index),
        severity: if any {
            "warning"@
        } else {
            "error"@
        },
        title: if flag_at(item, "capable"@) {
            feature + " requires setup"@
        } else {
            feature + " unavailable"@
        },
        detail: if lines.len() > 0 {
            Some(join(lines, "\n"@))
        } else {
            None
        },
        fix_command: fix_command(item),
    }
}

/// The issues of the first `n` records.
pub open spec fn issues_upto(rs: Seq<JsonView>, any: bool, n: int) -> Seq<IssueView>
    decreases n,
{
    if n <= 0 {
        Seq::empty()
    } else {
        issues_upto(rs, any, n - 1) + if supported(rs[n - 1]) {
            Seq::empty()
        } else {
            seq![issue_for(rs[n - 1], (n - 1) as nat, any)]
        }
    }
}

pub open spec fn empty_issue() -> IssueView {
    IssueView {
        id: "check-empty"@,
        severity: "error"@,
        title: "mountos check returned no backend records"@,
        detail: None,
        fix_command: None,
    }
}

/// The readiness verdict and issues for a parsed check document.
pub open spec fn check_report(v: JsonView) -> (bool, Seq<IssueView>) {
    let rs = records(v);
    let any = any_supported(rs);
    (
        any,
        issues_upto(rs, any, rs.len() as int) + if rs.len() == 0 {
            seq![empty_issue()]
        } else {
            Seq::empty()
        },
    )
}

proof fn lemma_backend_issues(rs: Seq<JsonView>, any: bool, n: int)
    requires
        0 <= n <= rs.len(),
    ensures
        forall|k: int|
            0 <= k < issues_upto(rs, any, n).len() ==> {
                &&& (#[trigger] issues_upto(rs, any, n)[k]).severity == (if any {
                    "warning"@
                } else {
                    "error"@
                })
                &&& "backend-"@.is_prefix_of(issues_upto(rs, any, n)[k].id)
            },
    decreases n,
{
    if n > 0 {
        lemma_backend_issues(rs, any, n - 1);
        let prev = issues_upto(rs, any, n - 1);
        let whole = issues_upto(rs, any, n);
        assert forall|k: int| 0 <= k < whole.len() implies {
            &&& (#[trigger] whole[k]).severity == (if any {
                "warning"@
            } else {
                "error"@
            })
            &&& "backend-"@.is_prefix_of(whole[k].id)
        } by {
            if k < prev.len() {
                assert(whole[k] == prev[k]);
            } else {
                let item = rs[n - 1];
                let id = issue_for(item, (n - 1) as nat, any).id;
                assert(whole[k] == issue_for(item, (n - 1) as nat, any));
                assert(id.subrange(0, "backend-"@.len() as int) =~= "backend-"@);
            }
        }
    }
}

/// A backend's readiness issue is a warning exactly when the verdict is
/// ready, that is when some backend record is supported, and an error when
/// none is: a missing backend never blocks while another one works, and
/// never passes for a warning when none does. The only other issue, the one
/// for a document without records, is an error.
pub proof fn backend_issue_severity_follows_verdict(v: JsonView, k: int)
    requires
        0 <= k < check_report(v).1.len(),
    ensures
        "backend-"@.is_prefix_of(check_report(v).1[k].id) ==> (check_report(v).1[k].severity
            == "warning"@ <==> check_report(v).0),
        "backend-"@.is_prefix_of(check_report(v).1[k].id) ==> (check_report(v).1[k].severity
            == "error"@ <==> !check_report(v).0),
        !"backend-"@.is_prefix_of(check_report(v).1[k].id) ==> check_report(v).1[k].severity
            == "error"@,
        check_report(v).0 <==> exists|i: int|
            0 <= i < records(v).len() && bool_at(#[trigger] records(v)[i], "supported"@)
                == Some(true),
{
    reveal_strlit("warning");
    reveal_strlit("error");
    reveal_strlit("backend-");
    reveal_strlit("check-empty");
    assert("warning"@ != "error"@) by {
        assert("warning"@.len() != "error"@.len());
    }
    let rs = records(v);
    let any = any_supported(rs);
    let is = issues_upto(rs, any, rs.len() as int);
    lemma_backend_issues(rs, any, rs.len() as int);
    if k >= is.len() {
        assert(check_report(v).1[k] == empty_issue());
        assert(!"backend-"@.is_prefix_of("check-empty"@)) by {
            assert("backend-"@[0] != "check-empty"@[0]);
        }
    } else {
        assert(check_report(v).1[k] == is[k]);
    }
    if any {
        let i = choose|i: int| 0 <= i < rs.len() && supported(#[trigger] rs[i]);
        assert(bool_at(rs[i], "supported"@) == Some(true));
    }
}

/// The one issue reported when the document is not JSON: the trimmed
/// stderr, or the parser's message when stderr is blank.
pub open spec fn invalid_json_issue(error: Seq<char>, stderr: Seq<u8>) -> IssueView {
    let s = trim(utf8_lossy(stderr));
    IssueView {
        id: "check-invalid-json"@,
        severity: "error"@,
        title: "mountos check returned invalid JSON"@,
        detail: Some(
            if s.len() == 0 {
                error
            } else {
                s
            },
        ),
        fix_command: None,
    }
}

fn issue(id: String, severity: &str, title: String, detail: Option<String>, fix_command: Option<String>) -> (r: CheckIssue)
    ensures
        r@ == (IssueView {
            id: id@,
            severity: severity@,
            title: title@,
            detail: opt_view(detail),
            fix_command: opt_view(fix_command),
        }),
{
    CheckIssue { id, severity: text(severity), title, detail, fix_command }
}

fn or_text(o: Option<&str>, d: &str) -> (r: String)
    ensures
        r@ == or_default(crate::json::opt_str(o), d@),
{
    match o {
        Some(s) => text(s),
        None => text(d),
    }
}

fn reason_of(check: &Json) -> (r: String)
    ensures
        r@ == check_reason(check@),
{
    match check.get("error") {
        Some(e) => or_text(e.as_str(), "not ready"),
        None => or_text(check.str_at("required"), "not ready"),
    }
}

fn line_of(check: &Json) -> (r: String)
    ensures
        r@ == check_line(check@),
{
    let mut line = or_text(check.str_at("name"), "Check");
    line.append(": ");
    line.append(reason_of(check).as_str());
    line
}

fn detail_of(item: &Json) -> (r: Vec<String>)
    ensures
        views(r@) == detail_lines(item@),
{
    let mut lines: Vec<String> = Vec::new();
    match item.get("checks") {
        Some(c) => match c.as_array() {
            Some(cs) => {
                let ghost csv = jarray(jget(item@, "checks"@)).unwrap();
                let mut i: usize = 0;
                while i < cs.len()
                    invariant
                        csv == Seq::new(cs@.len(), |k: int| cs@[k]@),
                        i <= cs@.len(),
                        views(lines@) == check_lines(csv.take(i as int)),
                    decreases cs@.len() - i,
                {
                    assert(csv.take(i + 1).drop_last() =~= csv.take(i as int));
                    assert(csv.take(i + 1).last() == cs@[i as int]@);
                    if !cs[i].flag_at("ok") {
                        let l = line_of(&cs[i]);
                        proof {
                            crate::argv::lemma_views_push(lines@, l);
                        }
                        lines.push(l);
                    }
                    i += 1;
                }
                assert(csv.take(cs@.len() as int) =~= csv);
            },
            None => {
                assert(views(lines@) =~= Seq::<Seq<char>>::empty());
            },
        },
        None => {
            assert(views(lines@) =~= Seq::<Seq<char>>::empty());
        },
    }
    match item.str_at("hint") {
        Some(h) => {
            if !h.is_empty() {
                let t = text(h);
                proof {
                    crate::argv::lemma_views_push(lines@, t);
                }
                lines.push(t);
            }
        },
        None => {},
    }
    lines
}

fn member_str(d: &Vec<(String, Json)>, key: &str) -> (r: Option<String>)
    ensures
        opt_view(r) == str_member(Seq::new(d@.len(), |i: int| (d@[i].0@, d@[i].1@)), key@),
{
    let j = Json::Object(Vec::new());
    let ghost dv = Seq::new(d@.len(), |i: int| (d@[i].0@, d@[i].1@));
    let mut i: usize = 0;
    assert(dv.subrange(0, dv.len() as int) =~= dv);
    while i < d.len()
        invariant
            dv == Seq::new(d@.len(), |i: int| (d@[i].0@, d@[i].1@)),
            i <= d@.len(),
            lookup(dv, key@) == lookup(dv.subrange(i as int, dv.len() as int), key@),
        decreases d@.len() - i,
    {
        assert(dv.subrange(i as int, dv.len() as int)[0] == dv[i as int]);
        assert(dv.subrange(i as int, dv.len() as int).drop_first() =~= dv.subrange(
            i + 1,
            dv.len() as int,
        ));
        if crate::text::same_text(d[i].0.as_str(), key) {
            return match d[i].1.as_str() {
                Some(s) => Some(text(s)),
                None => None,
            };
        }
        i += 1;
    }
    None
}

fn fix_of(item: &Json) -> (r: Option<String>)
    ensures
        opt_view(r) == fix_command(item@),
{
    match item.get("diagnostics") {
        Some(dj) => match dj.as_object() {
            Some(d) => {
                let a = member_str(d, "openHostApp");
                if a.is_some() {
                    return a;
                }
                let b = member_str(d, "pluginKitAdd");
                if b.is_some() {
                    return b;
                }
                member_str(d, "pluginKitReset")
            },
            None => None,
        },
        None => None,
    }
}

fn dash_spaces(s: &str) -> (r: String)
    ensures
        r@ == dashed(s@),
{
    let v = chars_of(s);
    let mut r = String::new();
    let mut i: usize = 0;
    while i < v.len()
        invariant
            v@ == s@,
            i <= v@.len(),
            r@ == dashed(s@).take(i as int),
        decreases v@.len() - i,
    {
        push_char(&mut r, if v[i] == ' ' { '-' } else { v[i] });
        i += 1;
        assert(r@ =~= dashed(s@).take(i as int));
    }
    assert(dashed(s@).take(v@.len() as int) =~= dashed(s@));
    r
}

fn issue_of(item: &Json, index: usize, any: bool) -> (r: CheckIssue)
    ensures
        r@ == issue_for(item@, index as nat, any),
{
    let feature = or_text(item.str_at("feature"), "Backend");
    let lines = detail_of(item);
    let mut id = text("backend-");
    id.append(dash_spaces(ascii_lowercase(feature.as_str()).as_str()).as_str());
    id.append("-");
    id.append(decimal_string(index as u64).as_str());
    let mut title = feature.clone();
    if item.flag_at("capable") {
        title.append(" requires setup");
    } else {
        title.append(" unavailable");
    }
    let detail = if lines.len() > 0 {
        Some(join_strings(&lines, "\n"))
    } else {
        None
    };
    issue(id, if any { "warning" } else { "error" }, title, detail, fix_of(item))
}

/// Backend readiness from `mountos check --json`. `parsed_stdout` is the
/// check's stdout parsed as JSON, or the parser's message when it is not
/// JSON; `stderr` is the check's raw stderr. Gives whether any backend is
/// supported, and an issue for each record that is not (or for an empty or
/// unreadable document).
pub fn parse_check_bytes(parsed_stdout: Result<Json, String>, stderr: &[u8]) -> (r: (
    bool,
    Vec<CheckIssue>,
))
    ensures
        match parsed_stdout {
            Ok(v) => r.0 == check_report(v@).0 && issue_views(r.1@) == check_report(v@).1,
            Err(e) => !r.0 && issue_views(r.1@) == seq![invalid_json_issue(e@, stderr@)],
        },
{
    let value = match parsed_stdout {
        Ok(v) => v,
        Err(error) => {
            let s = trim_str(lossy_text(stderr).as_str());
            let detail = if s.as_str().is_empty() {
                error
            } else {
                s
            };
            let only = issue(
                text("check-invalid-json"),
                "error",
                text("mountos check returned invalid JSON"),
                Some(detail),
                None,
            );
            let v = vec![only];
            assert(issue_views(v@) =~= seq![invalid_json_issue(error@, stderr@)]);
            return (false, v);
        },
    };
    let ghost vv = value@;
    let recs: Vec<Json> = match value {
        Json::Array(items) => items,
        other => vec![other],
    };
    let ghost rs = records(vv);
    assert(rs =~= Seq::new(recs@.len(), |k: int| recs@[k]@));
    let mut any = false;
    let mut i: usize = 0;
    while i < recs.len()
        invariant
            rs == Seq::new(recs@.len(), |k: int| recs@[k]@),
            i <= recs@.len(),
            any <==> exists|k: int| 0 <= k < i && supported(#[trigger] rs[k]),
        decreases recs@.len() - i,
    {
        assert(rs[i as int] == recs@[i as int]@);
        if recs[i].flag_at("supported") {
            assert(supported(rs[i as int]));
            any = true;
        }
        i += 1;
    }
    let mut issues: Vec<CheckIssue> = Vec::new();
    let mut i: usize = 0;
    while i < recs.len()
        invariant
            rs == Seq::new(recs@.len(), |k: int| recs@[k]@),
            any == any_supported(rs),
            i <= recs@.len(),
            issue_views(issues@) == issues_upto(rs, any, i as int),
        decreases recs@.len() - i,
    {
        if !recs[i].flag_at("supported") {
            let it = issue_of(&recs[i], i, any);
            issues.push(it);
            assert(issue_views(issues@) =~= issues_upto(rs, any, i + 1));
        } else {
            assert(issue_views(issues@) =~= issues_upto(rs, any, i + 1));
        }
        i += 1;
    }
    assert(any == any_supported(rs));
    let ghost before = issue_views(issues@);
    assert(before == check_report(vv).1.take(before.len() as int)) by {
        assert(check_report(vv).1.take(before.len() as int) =~= before);
    }
    if recs.len() == 0 {
        let e = issue(
            text("check-empty"),
            "error",
            text("mountos check returned no backend records"),
            None,
            None,
        );
        assert(e@ == empty_issue());
        issues.push(e);
        assert(issue_views(issues@) =~= before.push(empty_issue()));
        assert(check_report(vv).1 =~= before.push(empty_issue()));
    } else {
        assert(check_report(vv).1 =~= before);
    }
    assert(issue_views(issues@) =~= check_report(vv).1);
    (any, issues)
}

} // verus!
