//! Human and structured diagnostic reports (detailed evidence omitted by default).

use vstd::prelude::*;

use crate::model::diagnostics::{
    findings_view, texts, CheckView, Finding, FindingView, HealthStatus, SuggestedCheck,
};
use crate::text::{clone_strings, concat_all, decimal, decimal_string, replace_all, replace_str};

verus! {

/// The line as printed: unchanged unless redaction is asked for and the home
/// directory is known and non-empty, in which case each occurrence of it becomes `$HOME`.
pub open spec fn redacted(line: Seq<char>, redact: bool, home: Option<Seq<char>>) -> Seq<char> {
    if !redact {
        line
    } else {
        match home {
            Some(h) => if h.len() > 0 {
                replace_all(line, h, "$HOME"@)
            } else {
                line
            },
            None => line,
        }
    }
}

pub open spec fn opt_str(o: Option<&str>) -> Option<Seq<char>> {
    match o {
        Some(s) => Some(s@),
        None => None,
    }
}

/// Soft redaction of the home directory path.
pub fn redact_line(line: &str, redact: bool, home: Option<&str>) -> (r: String)
    ensures
        r@ == redacted(line@, redact, opt_str(home)),
{
    if !redact {
        return String::from_str(line);
    }
    match home {
        Some(h) => {
            if !h.is_empty() {
                replace_str(line, h, "$HOME")
            } else {
                String::from_str(line)
            }
        },
        None => String::from_str(line),
    }
}

/// The lines a finding's suggested check adds to a sensitive report.
pub open spec fn check_lines(c: Option<CheckView>) -> Seq<char> {
    match c {
        Some(sc) => "  check: "@ + sc.description + "\n"@ + match sc.command_hint {
            Some(cmd) => "  hint: "@ + cmd + "\n"@,
            None => seq![],
        },
        None => seq![],
    }
}

/// The first lines of a finding's block: severity, title, confidence, category, summary, id.
pub open spec fn finding_head(f: FindingView) -> Seq<char> {
    "\n["@ + f.severity.label_text() + "] "@ + f.title + " ("@ + f.confidence.label_text() + "/"@
        + f.category.label_text() + ")\n  "@ + f.summary + "\n"@ + "  id: "@ + f.id + "\n"@
}

/// The evidence lines of a finding's block.
pub open spec fn finding_tail(f: FindingView, include_sensitive: bool, home: Option<Seq<char>>) -> Seq<char> {
    if include_sensitive {
        concat_all(f.evidence.details.map_values(|d: Seq<char>| "  evidence: "@ + d + "\n"@))
            + check_lines(f.suggested_check)
    } else {
        "  evidence: "@ + redacted(f.evidence.summary, true, home) + "\n"@
    }
}

/// One finding's block in the text report.
pub open spec fn finding_block(f: FindingView, include_sensitive: bool, home: Option<Seq<char>>) -> Seq<char> {
    finding_head(f) + finding_tail(f, include_sensitive, home)
}

/// The whole text report: header, degraded probes, then each finding in order.
pub open spec fn text_report(
    health: HealthStatus,
    fs: Seq<FindingView>,
    include_sensitive: bool,
    probes: Seq<Seq<char>>,
    home: Option<Seq<char>>,
) -> Seq<char> {
    let head = "server-tui doctor — health: "@ + health.label_text() + "\n"@;
    let degraded = if probes.len() == 0 {
        seq![]
    } else {
        "degraded probes:\n"@ + concat_all(probes.map_values(|p: Seq<char>| "  - "@ + p + "\n"@))
    };
    if fs.len() == 0 {
        head + degraded + "No findings.\n"@
    } else {
        head + degraded + "findings: "@ + decimal(fs.len()) + "\n"@ + concat_all(
            fs.map_values(|f: FindingView| finding_block(f, include_sensitive, home)),
        )
    }
}

proof fn lemma_concat_step(parts: Seq<Seq<char>>, i: int)
    requires
        0 <= i < parts.len(),
    ensures
        concat_all(parts.take(i + 1)) == concat_all(parts.take(i)) + parts[i],
{
    assert(parts.take(i + 1).drop_last() =~= parts.take(i));
}

/// Appends one "  evidence: …" line per detail.
fn push_detail_lines(out: &mut String, details: &Vec<String>)
    ensures
        final(out)@ == old(out)@ + concat_all(
            texts(details@).map_values(|d: Seq<char>| "  evidence: "@ + d + "\n"@),
        ),
{
    let ghost lines = texts(details@).map_values(|d: Seq<char>| "  evidence: "@ + d + "\n"@);
    let ghost start = out@;
    let mut i: usize = 0;
    assert(lines.take(0) =~= seq![]);
    while i < details.len()
        invariant
            lines == texts(details@).map_values(|d: Seq<char>| "  evidence: "@ + d + "\n"@),
            i <= details.len(),
            out@ == start + concat_all(lines.take(i as int)),
        decreases details.len() - i,
    {
        proof {
            lemma_concat_step(lines, i as int);
        }
        out.append("  evidence: ");
        out.append(details[i].as_str());
        out.append("\n");
        assert(out@ =~= start + concat_all(lines.take(i + 1)));
        i += 1;
    }
    assert(lines.take(details.len() as int) =~= lines);
}

fn push_finding_head(out: &mut String, f: &Finding)
    ensures
        final(out)@ == old(out)@ + finding_head(f@),
{
    let ghost start = out@;
    out.append("\n[");
    out.append(f.severity.label());
    out.append("] ");
    out.append(f.title.as_str());
    out.append(" (");
    out.append(f.confidence.label());
    out.append("/");
    out.append(f.category.label());
    out.append(")\n  ");
    out.append(f.summary.as_str());
    out.append("\n");
    out.append("  id: ");
    out.append(f.id.as_str());
    out.append("\n");
    assert(out@ =~= start + finding_head(f@));
}

fn push_check_lines(out: &mut String, check: &Option<SuggestedCheck>)
    ensures
        final(out)@ == old(out)@ + check_lines(match *check {
            Some(c) => Some(c@),
            None => None,
        }),
{
    let ghost start = out@;
    match check {
        Some(sc) => {
            out.append("  check: ");
            out.append(sc.description.as_str());
            out.append("\n");
            match &sc.command_hint {
                Some(cmd) => {
                    out.append("  hint: ");
                    out.append(cmd.as_str());
                    out.append("\n");
                },
                None => {},
            }
        },
        None => {},
    }
    assert(out@ =~= start + check_lines(match *check {
        Some(c) => Some(c@),
        None => None,
    }));
}

fn push_finding_tail(out: &mut String, f: &Finding, include_sensitive: bool, home: Option<&str>)
    ensures
        final(out)@ == old(out)@ + finding_tail(f@, include_sensitive, opt_str(home)),
{
    let ghost start = out@;
    if include_sensitive {
        push_detail_lines(out, &f.evidence.details);
        push_check_lines(out, &f.suggested_check);
    } else {
        out.append("  evidence: ");
        let r = redact_line(f.evidence.summary.as_str(), true, home);
        out.append(r.as_str());
        out.append("\n");
    }
    assert(out@ =~= start + finding_tail(f@, include_sensitive, opt_str(home)));
}

fn push_finding_block(out: &mut String, f: &Finding, include_sensitive: bool, home: Option<&str>)
    ensures
        final(out)@ == old(out)@ + finding_block(f@, include_sensitive, opt_str(home)),
{
    let ghost start = out@;
    push_finding_head(out, f);
    push_finding_tail(out, f, include_sensitive, home);
    assert(out@ =~= start + finding_block(f@, include_sensitive, opt_str(home)));
}

/// Text report: header with the health label, degraded probes, then either
/// "No findings." or the count and one block per finding. Evidence details and
/// suggested checks appear only with `include_sensitive`; otherwise the
/// evidence summary is printed with the home directory redacted.
pub fn format_text_report(
    health: HealthStatus,
    findings: &[Finding],
    include_sensitive: bool,
    probes_degraded: &[String],
    home: Option<&str>,
) -> (r: String)
    ensures
        r@ == text_report(
            health,
            findings_view(findings@),
            include_sensitive,
            texts(probes_degraded@),
            opt_str(home),
        ),
{
    let mut out = String::from_str("server-tui doctor — health: ");
    out.append(health.label());
    out.append("\n");
    let ghost head = out@;
    if probes_degraded.len() > 0 {
        out.append("degraded probes:\n");
        let ghost lines = texts(probes_degraded@).map_values(|p: Seq<char>| "  - "@ + p + "\n"@);
        let ghost start = out@;
        let mut i: usize = 0;
        assert(lines.take(0) =~= seq![]);
        while i < probes_degraded.len()
            invariant
                lines == texts(probes_degraded@).map_values(|p: Seq<char>| "  - "@ + p + "\n"@),
                i <= probes_degraded.len(),
                out@ == start + concat_all(lines.take(i as int)),
            decreases probes_degraded.len() - i,
        {
            proof {
                lemma_concat_step(lines, i as int);
            }
            out.append("  - ");
            out.append(probes_degraded[i].as_str());
            out.append("\n");
            assert(out@ =~= start + concat_all(lines.take(i + 1)));
            i += 1;
        }
        assert(lines.take(probes_degraded.len() as int) =~= lines);
    }
    let ghost degraded = out@.skip(head.len() as int);
    assert(out@ =~= head + degraded);
    if findings.len() == 0 {
        out.append("No findings.\n");
        assert(out@ =~= text_report(
            health,
            findings_view(findings@),
            include_sensitive,
            texts(probes_degraded@),
            opt_str(home),
        ));
        return out;
    }
    out.append("findings: ");
    out.append(decimal_string(findings.len() as u64).as_str());
    out.append("\n");
    let ghost fs = findings_view(findings@);
    let ghost blocks = fs.map_values(
        |f: FindingView| finding_block(f, include_sensitive, opt_str(home)),
    );
    let ghost start = out@;
    let mut i: usize = 0;
    assert(blocks.take(0) =~= seq![]);
    while i < findings.len()
        invariant
            fs == findings_view(findings@),
            blocks == fs.map_values(
                |f: FindingView| finding_block(f, include_sensitive, opt_str(home)),
            ),
            i <= findings.len(),
            out@ == start + concat_all(blocks.take(i as int)),
        decreases findings.len() - i,
    {
        proof {
            lemma_concat_step(blocks, i as int);
        }
        push_finding_block(&mut out, &findings[i], include_sensitive, home);
        assert(out@ =~= start + concat_all(blocks.take(i + 1)));
        i += 1;
    }
    assert(blocks.take(findings.len() as int) =~= blocks);
    out
}

/// One finding as the JSON report lists it.
#[derive(Debug, Clone)]
pub struct JsonFinding {
    pub id: String,
    pub title: String,
    pub summary: String,
    pub severity: String,
    pub confidence: String,
    pub category: String,
    pub evidence_summary: String,
    /// Present only in sensitive reports.
    pub evidence_details: Option<Vec<String>>,
    pub suggested_check: Option<String>,
}

/// The JSON report document: health label, degraded probes and findings.
#[derive(Debug, Clone)]
pub struct JsonReport {
    pub health: String,
    pub probes_degraded: Vec<String>,
    pub findings: Vec<JsonFinding>,
}

/// `j` lists `f`: labels as text, the evidence summary redacted unless the
/// report is sensitive, details only in sensitive reports, and the check's description.
pub open spec fn json_finding_of(j: JsonFinding, f: FindingView, include_sensitive: bool, home: Option<Seq<char>>) -> bool {
    &&& j.id@ == f.id
    &&& j.title@ == f.title
    &&& j.summary@ == f.summary
    &&& j.severity@ == f.severity.label_text()
    &&& j.confidence@ == f.confidence.label_text()
    &&& j.category@ == f.category.label_text()
    &&& j.evidence_summary@ == redacted(f.evidence.summary, !include_sensitive, home)
    &&& match j.evidence_details {
        Some(d) => include_sensitive && texts(d@) == f.evidence.details,
        None => !include_sensitive,
    }
    &&& match j.suggested_check {
        Some(c) => f.suggested_check is Some && c@ == f.suggested_check->0.description,
        None => f.suggested_check is None,
    }
}

fn json_finding(f: &Finding, include_sensitive: bool, home: Option<&str>) -> (j: JsonFinding)
    ensures
        json_finding_of(j, f@, include_sensitive, opt_str(home)),
{
    JsonFinding {
        id: f.id.clone(),
        title: f.title.clone(),
        summary: f.summary.clone(),
        severity: String::from_str(f.severity.label()),
        confidence: String::from_str(f.confidence.label()),
        category: String::from_str(f.category.label()),
        evidence_summary: redact_line(f.evidence.summary.as_str(), !include_sensitive, home),
        evidence_details: if include_sensitive {
            Some(clone_strings(&f.evidence.details))
        } else {
            None
        },
        suggested_check: match &f.suggested_check {
            Some(c) => Some(c.description.clone()),
            None => None,
        },
    }
}

/// The structured report that the JSON output serialises: one entry per
/// finding, in order, as `json_finding_of` describes it.
pub fn json_report(
    health: HealthStatus,
    findings: &[Finding],
    include_sensitive: bool,
    probes_degraded: &[String],
    home: Option<&str>,
) -> (r: JsonReport)
    ensures
        r.health@ == health.label_text(),
        r.probes_degraded@ == probes_degraded@,
        r.findings@.len() == findings@.len(),
        forall|i: int|
            0 <= i < findings@.len() ==> json_finding_of(
                #[trigger] r.findings@[i],
                findings@[i]@,
                include_sensitive,
                opt_str(home),
            ),
{
    let mut out: Vec<JsonFinding> = Vec::new();
    let mut i: usize = 0;
    while i < findings.len()
        invariant
            i <= findings.len(),
            out@.len() == i,
            forall|k: int|
                0 <= k < i ==> json_finding_of(
                    #[trigger] out@[k],
                    findings@[k]@,
                    include_sensitive,
                    opt_str(home),
                ),
        decreases findings.len() - i,
    {
        out.push(json_finding(&findings[i], include_sensitive, home));
        i += 1;
    }
    let mut probes: Vec<String> = Vec::new();
    let mut k: usize = 0;
    while k < probes_degraded.len()
        invariant
            k <= probes_degraded.len(),
            probes@ == probes_degraded@.take(k as int),
        decreases probes_degraded.len() - k,
    {
        probes.push(probes_degraded[k].clone());
        assert(probes_degraded@.take(k as int).push(probes_degraded@[k as int])
            =~= probes_degraded@.take(k + 1));
        k += 1;
    }
    assert(probes_degraded@.take(probes_degraded.len() as int) =~= probes_degraded@);
    JsonReport { health: String::from_str(health.label()), probes_degraded: probes, findings: out }
}

} // verus!
