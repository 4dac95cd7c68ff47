//! The report writers: what the findings of each analyser look like as
//! Markdown and as an HTML page.

use vstd::prelude::*;
use vstd::string::*;
use crate::installer::ToolKind;
use crate::serialize::{
    detector_models, issue_models, mythril_findings, slither_findings, FindingModel, FindingSet,
    FindingSetModel, MythrilAnalysis, MythrilAnalysisModel, MythrilIssue, MythrilIssueModel,
    SlitherAnalysisModel, SlitherDetector, SlitherDetectorModel, SlitherResults,
    SlitherResultsModel,
};
use crate::text::{
    chars_of, clean_head, clean_tail, lemma_calm, lemma_clean_head, lemma_clean_tail,
    lemma_clean_tail_of_concat, lemma_no_occurrence, lemma_occurrences_concat,
    lemma_occurrences_framed, lowercase, lowercase_of, matches_at, occurrences, occurs_at,
    occurs_in, starts_unlike,
};

verus! {

/// The section of one detector in a Markdown report.
pub open spec fn slither_section(d: SlitherDetectorModel) -> Seq<char> {
    "## 🚨 "@ + d.check + "\n\n- **Impact:** "@ + d.impact + "\n- **Confidence:** "@ + d.confidence
        + "\n\n### Description\n"@ + d.description + "\n\n---\n\n"@
}

/// The sections of `detectors`, one after the other.
pub open spec fn slither_sections(detectors: Seq<SlitherDetectorModel>) -> Seq<char>
    decreases detectors.len(),
{
    if detectors.len() == 0 {
        Seq::empty()
    } else {
        slither_sections(detectors.drop_last()) + slither_section(detectors.last())
    }
}

/// The Markdown report of the static analyser: one fixed line where there is
/// no detector, else a title and one section for each detector, in order.
pub open spec fn slither_markdown(results: SlitherResultsModel) -> Seq<char> {
    if results.detectors.len() == 0 {
        "✅ No vulnerabilities detected by Slither.\n"@
    } else {
        "# Slither Security Analysis Report\n\n"@ + slither_sections(results.detectors)
    }
}

/// Appends the section of the detector `d` to `report`.
pub fn push_slither_section(report: &mut String, d: &SlitherDetector)
    ensures
        final(report)@ == old(report)@ + slither_section(d@),
{
    report.append("## 🚨 ");
    report.append(d.check.as_str());
    report.append("\n\n- **Impact:** ");
    report.append(d.impact.as_str());
    report.append("\n- **Confidence:** ");
    report.append(d.confidence.as_str());
    report.append("\n\n### Description\n");
    report.append(d.description.as_str());
    report.append("\n\n---\n\n");
    assert(report@ =~= old(report)@ + slither_section(d@));
}

/// Appends the sections of `detectors` to `report`, in order.
pub fn push_slither_sections(report: &mut String, detectors: &Vec<SlitherDetector>)
    ensures
        final(report)@ == old(report)@ + slither_sections(detector_models(detectors@)),
{
    let ghost all = detector_models(detectors@);
    let mut i: usize = 0;
    assert(all.take(0) =~= Seq::<SlitherDetectorModel>::empty());
    assert(report@ =~= old(report)@ + slither_sections(all.take(0)));
    while i < detectors.len()
        invariant
            i <= detectors.len(),
            all == detector_models(detectors@),
            report@ == old(report)@ + slither_sections(all.take(i as int)),
        decreases detectors.len() - i,
    {
        assert(all.take(i + 1).drop_last() =~= all.take(i as int));
        assert(all.take(i + 1).last() == detectors@[i as int]@);
        push_slither_section(report, &detectors[i]);
        assert(report@ =~= old(report)@ + slither_sections(all.take(i + 1)));
        i += 1;
    }
    assert(all.take(i as int) =~= all);
}

/// Writes the Markdown report of the static analyser.
pub fn generate_slither_report_md(results: &SlitherResults) -> (report: String)
    ensures
        report@ == slither_markdown(results@),
{
    if results.detectors.len() == 0 {
        return String::from_str("✅ No vulnerabilities detected by Slither.\n");
    }
    let mut report = String::from_str("# Slither Security Analysis Report\n\n");
    push_slither_sections(&mut report, &results.detectors);
    report
}

/// The section of one issue in a Markdown report.
pub open spec fn mythril_section(issue: MythrilIssueModel) -> Seq<char> {
    "## 🔥 "@ + issue.title + "\n\n- **Severity:** "@ + issue.severity + "\n\n### Description\n"@
        + issue.description + "\n\n---\n\n"@
}

/// The sections of `issues`, one after the other.
pub open spec fn mythril_sections(issues: Seq<MythrilIssueModel>) -> Seq<char>
    decreases issues.len(),
{
    if issues.len() == 0 {
        Seq::empty()
    } else {
        mythril_sections(issues.drop_last()) + mythril_section(issues.last())
    }
}

/// The Markdown report of the symbolic analyser: one fixed line where there
/// is no issue, else a title and one section for each issue, in order. Every
/// issue has its section, whether or not the analyser called its run a success.
pub open spec fn mythril_markdown(analysis: MythrilAnalysisModel) -> Seq<char> {
    if analysis.issues.len() == 0 {
        "✅ No vulnerabilities detected by Mythril.\n"@
    } else {
        "# Mythril Security Analysis Report\n\n"@ + mythril_sections(analysis.issues)
    }
}

/// Appends the section of `issue` to `report`.
pub fn push_mythril_section(report: &mut String, issue: &MythrilIssue)
    ensures
        final(report)@ == old(report)@ + mythril_section(issue@),
{
    report.append("## 🔥 ");
    report.append(issue.title.as_str());
    report.append("\n\n- **Severity:** ");
    report.append(issue.severity.as_str());
    report.append("\n\n### Description\n");
    report.append(issue.description.as_str());
    report.append("\n\n---\n\n");
    assert(report@ =~= old(report)@ + mythril_section(issue@));
}

/// Writes the Markdown report of the symbolic analyser.
pub fn generate_mythril_report_md(analysis: &MythrilAnalysis) -> (report: String)
    ensures
        report@ == mythril_markdown(analysis@),
{
    if analysis.issues.len() == 0 {
        return String::from_str("✅ No vulnerabilities detected by Mythril.\n");
    }
    let ghost all = issue_models(analysis.issues@);
    let mut report = String::from_str("# Mythril Security Analysis Report\n\n");
    let ghost title = report@;
    let mut i: usize = 0;
    assert(all.take(0) =~= Seq::<MythrilIssueModel>::empty());
    assert(report@ =~= title + mythril_sections(all.take(0)));
    while i < analysis.issues.len()
        invariant
            i <= analysis.issues.len(),
            all == issue_models(analysis.issues@),
            report@ == title + mythril_sections(all.take(i as int)),
        decreases analysis.issues.len() - i,
    {
        assert(all.take(i + 1).drop_last() =~= all.take(i as int));
        assert(all.take(i + 1).last() == analysis.issues@[i as int]@);
        push_mythril_section(&mut report, &analysis.issues[i]);
        assert(report@ =~= title + mythril_sections(all.take(i + 1)));
        i += 1;
    }
    assert(all.take(i as int) =~= all);
    report
}

/// What an HTML page holds before its title.
pub const PAGE_OPENING: &'static str = r#"
<!DOCTYPE html>
<html lang="en">
<head>
    <meta charset="UTF-8">
    <meta name="viewport" content="width=device-width, initial-scale=1.0">
    <title>"#;

/// What an HTML page holds between its title and its heading.
pub const PAGE_STYLE: &'static str = r#"</title>
    <style>
        body { font-family: -apple-system, BlinkMacSystemFont, "Segoe UI", Roboto, Helvetica, Arial, sans-serif; line-height: 1.6; color: #333; max-width: 800px; margin: 2rem auto; padding: 0 1rem; background-color: #f9fafb; }
        h1 { color: #111827; border-bottom: 2px solid #e5e7eb; padding-bottom: 0.5rem; }
        h2 { color: #1f2937; }
        .issue { background-color: #fff; border: 1px solid #e5e7eb; border-radius: 8px; margin-bottom: 1.5rem; padding: 1.5rem; box-shadow: 0 1px 3px rgba(0,0,0,0.05); }
        .issue.high, .issue.critical { border-left: 5px solid #ef4444; }
        .issue.medium { border-left: 5px solid #f97316; }
        .issue.low, .issue.informational { border-left: 5px solid #3b82f6; }
        .details { margin-bottom: 1rem; }
        .tag { display: inline-block; background-color: #e5e7eb; color: #4b5563; padding: 0.25rem 0.75rem; border-radius: 9999px; font-size: 0.875rem; font-weight: 500; margin-right: 0.5rem; }
        .description { background-color: #f9fafb; border: 1px solid #e5e7eb; border-radius: 4px; padding: 0.5rem 1rem; }
        .description h3 { margin-top: 0; color: #374151; }
        .no-issues { font-size: 1.2rem; color: #16a34a; text-align: center; padding: 2rem; }
        code { background-color: #e5e7eb; padding: 0.2rem 0.4rem; border-radius: 4px; font-family: "SF Mono", "Fira Code", monospace; }
    </style>
</head>
<body>
    <h1>"#;

/// What an HTML page holds between its heading and its body.
pub const PAGE_HEADING_END: &'static str = "</h1>\n    ";

/// What an HTML page holds after its body.
pub const PAGE_CLOSING: &'static str = "\n</body>\n</html>\n";

/// The HTML page with the title `title`, the same text as its heading, and
/// the body `body`.
pub open spec fn html_page(title: Seq<char>, body: Seq<char>) -> Seq<char> {
    PAGE_OPENING@ + title + PAGE_STYLE@ + title + PAGE_HEADING_END@ + body + PAGE_CLOSING@
}

/// Writes the HTML page with the title `title` and the body `body`.
pub fn generate_html_scaffold(title: &str, body: &str) -> (page: String)
    ensures
        page@ == html_page(title@, body@),
{
    let mut page = String::from_str(PAGE_OPENING);
    page.append(title);
    page.append(PAGE_STYLE);
    page.append(title);
    page.append(PAGE_HEADING_END);
    page.append(body);
    page.append(PAGE_CLOSING);
    page
}

/// The HTML that `markdown::to_html` makes of a Markdown text.
pub uninterp spec fn markdown_html(text: Seq<char>) -> Seq<char>;

/// `markdown::to_html`: the result is the HTML of `text` under CommonMark, a
/// function of the text alone.
#[verifier::external_body]
fn markdown_to_html(text: &str) -> (html: String)
    ensures
        html@ == markdown_html(text@),
{
    markdown::to_html(text)
}

/// The block of one detector in an HTML report, given the style class of the
/// block and the HTML of the detector's description.
pub open spec fn slither_block(
    d: SlitherDetectorModel,
    class: Seq<char>,
    description_html: Seq<char>,
) -> Seq<char> {
    "<div class='issue "@ + class + "'><h2>"@ + d.check
        + "</h2><div class='details'><span class='tag'>Impact: "@ + d.impact
        + "</span><span class='tag'>Confidence: "@ + d.confidence
        + "</span></div><div class='description'><h3>Description</h3>"@ + description_html
        + "</div></div>"@
}

/// The block of one detector: its class is the impact in lower case, and its
/// description is rendered from Markdown.
pub open spec fn slither_block_of(d: SlitherDetectorModel) -> Seq<char> {
    slither_block(d, lowercase_of(d.impact), markdown_html(d.description))
}

/// The blocks of `detectors`, one after the other.
pub open spec fn slither_blocks(detectors: Seq<SlitherDetectorModel>) -> Seq<char>
    decreases detectors.len(),
{
    if detectors.len() == 0 {
        Seq::empty()
    } else {
        slither_blocks(detectors.drop_last()) + slither_block_of(detectors.last())
    }
}

/// The body of the HTML report of the static analyser.
pub open spec fn slither_html_body(results: SlitherResultsModel) -> Seq<char> {
    if results.detectors.len() == 0 {
        "<p class='no-issues'>✅ No vulnerabilities detected by Slither.</p>"@
    } else {
        slither_blocks(results.detectors)
    }
}

/// The HTML report of the static analyser.
pub open spec fn slither_html(results: SlitherResultsModel) -> Seq<char> {
    html_page("Slither Analysis Report"@, slither_html_body(results))
}

/// Appends the block of the detector `d` to `body`, with the style class
/// `class` and the rendered description `description_html`.
pub fn push_slither_block(
    body: &mut String,
    d: &SlitherDetector,
    class: &str,
    description_html: &str,
)
    ensures
        final(body)@ == old(body)@ + slither_block(d@, class@, description_html@),
{
    body.append("<div class='issue ");
    body.append(class);
    body.append("'><h2>");
    body.append(d.check.as_str());
    body.append("</h2><div class='details'><span class='tag'>Impact: ");
    body.append(d.impact.as_str());
    body.append("</span><span class='tag'>Confidence: ");
    body.append(d.confidence.as_str());
    body.append("</span></div><div class='description'><h3>Description</h3>");
    body.append(description_html);
    body.append("</div></div>");
    assert(body@ =~= old(body)@ + slither_block(d@, class@, description_html@));
}

/// Writes the HTML report of the static analyser.
pub fn generate_slither_report_html(results: &SlitherResults) -> (page: String)
    ensures
        page@ == slither_html(results@),
{
    let mut body = String::new();
    if results.detectors.len() == 0 {
        body.append("<p class='no-issues'>✅ No vulnerabilities detected by Slither.</p>");
        assert(body@ =~= slither_html_body(results@));
    } else {
        let ghost all = detector_models(results.detectors@);
        let mut i: usize = 0;
        assert(all.take(0) =~= Seq::<SlitherDetectorModel>::empty());
        assert(body@ =~= slither_blocks(all.take(0)));
        while i < results.detectors.len()
            invariant
                i <= results.detectors.len(),
                all == detector_models(results.detectors@),
                body@ == slither_blocks(all.take(i as int)),
            decreases results.detectors.len() - i,
        {
            assert(all.take(i + 1).drop_last() =~= all.take(i as int));
            assert(all.take(i + 1).last() == results.detectors@[i as int]@);
            let d = &results.detectors[i];
            let class = lowercase(d.impact.as_str());
            let description_html = markdown_to_html(d.description.as_str());
            push_slither_block(&mut body, d, class.as_str(), description_html.as_str());
            i += 1;
        }
        assert(all.take(i as int) =~= all);
    }
    generate_html_scaffold("Slither Analysis Report", body.as_str())
}

/// The block of one issue in an HTML report, given the style class of the block.
pub open spec fn mythril_block(issue: MythrilIssueModel, class: Seq<char>) -> Seq<char> {
    "<div class='issue "@ + class + "'><h2>"@ + issue.title
        + "</h2><div class='details'><span class='tag'>Severity: "@ + issue.severity
        + "</span></div><div class='description'><h3>Description</h3><p>"@ + issue.description
        + "</p></div></div>"@
}

/// The block of one issue: its class is the severity in lower case.
pub open spec fn mythril_block_of(issue: MythrilIssueModel) -> Seq<char> {
    mythril_block(issue, lowercase_of(issue.severity))
}

/// The blocks of `issues`, one after the other.
pub open spec fn mythril_blocks(issues: Seq<MythrilIssueModel>) -> Seq<char>
    decreases issues.len(),
{
    if issues.len() == 0 {
        Seq::empty()
    } else {
        mythril_blocks(issues.drop_last()) + mythril_block_of(issues.last())
    }
}

/// Whether the HTML report of the symbolic analyser shows issues: the run
/// succeeded and reported at least one.
pub open spec fn mythril_has_findings(analysis: MythrilAnalysisModel) -> bool {
    analysis.success && analysis.issues.len() > 0
}

/// The body of the HTML report of the symbolic analyser: one block for each
/// issue of a run that succeeded, else one fixed paragraph.
pub open spec fn mythril_html_body(analysis: MythrilAnalysisModel) -> Seq<char> {
    if !mythril_has_findings(analysis) {
        "<p class='no-issues'>✅ No vulnerabilities detected by Mythril.</p>"@
    } else {
        mythril_blocks(analysis.issues)
    }
}

/// The HTML report of the symbolic analyser.
pub open spec fn mythril_html(analysis: MythrilAnalysisModel) -> Seq<char> {
    html_page("Mythril Analysis Report"@, mythril_html_body(analysis))
}

/// Appends the block of `issue` to `body`, with the style class `class`.
pub fn push_mythril_block(body: &mut String, issue: &MythrilIssue, class: &str)
    ensures
        final(body)@ == old(body)@ + mythril_block(issue@, class@),
{
    body.append("<div class='issue ");
    body.append(class);
    body.append("'><h2>");
    body.append(issue.title.as_str());
    body.append("</h2><div class='details'><span class='tag'>Severity: ");
    body.append(issue.severity.as_str());
    body.append("</span></div><div class='description'><h3>Description</h3><p>");
    body.append(issue.description.as_str());
    body.append("</p></div></div>");
    assert(body@ =~= old(body)@ + mythril_block(issue@, class@));
}

/// Writes the HTML report of the symbolic analyser.
pub fn generate_mythril_report_html(analysis: &MythrilAnalysis) -> (page: String)
    ensures
        page@ == mythril_html(analysis@),
{
    let mut body = String::new();
    if !analysis.success || analysis.issues.len() == 0 {
        body.append("<p class='no-issues'>✅ No vulnerabilities detected by Mythril.</p>");
        assert(body@ =~= mythril_html_body(analysis@));
    } else {
        let ghost all = issue_models(analysis.issues@);
        let mut i: usize = 0;
        assert(all.take(0) =~= Seq::<MythrilIssueModel>::empty());
        assert(body@ =~= mythril_blocks(all.take(0)));
        while i < analysis.issues.len()
            invariant
                i <= analysis.issues.len(),
                all == issue_models(analysis.issues@),
                body@ == mythril_blocks(all.take(i as int)),
            decreases analysis.issues.len() - i,
        {
            assert(all.take(i + 1).drop_last() =~= all.take(i as int));
            assert(all.take(i + 1).last() == analysis.issues@[i as int]@);
            let issue = &analysis.issues[i];
            let class = lowercase(issue.severity.as_str());
            push_mythril_block(&mut body, issue, class.as_str());
            i += 1;
        }
        assert(all.take(i as int) =~= all);
    }
    generate_html_scaffold("Mythril Analysis Report", body.as_str())
}

/// The detector that a finding is shown as: its title is the check and its
/// severity the impact. A finding without a confidence has an empty one.
pub open spec fn detector_of_finding(f: FindingModel) -> SlitherDetectorModel {
    SlitherDetectorModel {
        check: f.title,
        impact: f.severity,
        confidence: match f.confidence {
            Some(c) => c,
            None => Seq::empty(),
        },
        description: f.description,
    }
}

/// The issue that a finding is shown as. It has no address.
pub open spec fn issue_of_finding(f: FindingModel) -> MythrilIssueModel {
    MythrilIssueModel {
        title: f.title,
        description: f.description,
        severity: f.severity,
        address: None,
    }
}

/// The findings of a set as detectors, in order.
pub open spec fn results_of(set: FindingSetModel) -> SlitherResultsModel {
    SlitherResultsModel {
        detectors: Seq::new(set.findings.len(), |i: int| detector_of_finding(set.findings[i])),
    }
}

/// The findings of a set as issues, in order.
pub open spec fn analysis_of(set: FindingSetModel) -> MythrilAnalysisModel {
    MythrilAnalysisModel {
        success: set.success,
        issues: Seq::new(set.findings.len(), |i: int| issue_of_finding(set.findings[i])),
    }
}

/// The Markdown report of a set of findings of the engine `kind`.
pub open spec fn findings_markdown(set: FindingSetModel, kind: ToolKind) -> Seq<char> {
    match kind {
        ToolKind::Slither => slither_markdown(results_of(set)),
        ToolKind::Mythril => mythril_markdown(analysis_of(set)),
    }
}

/// The HTML report of a set of findings of the engine `kind`.
pub open spec fn findings_html(set: FindingSetModel, kind: ToolKind) -> Seq<char> {
    match kind {
        ToolKind::Slither => slither_html(results_of(set)),
        ToolKind::Mythril => mythril_html(analysis_of(set)),
    }
}

/// The findings of `set` as detectors.
pub fn slither_results_from(set: &FindingSet) -> (results: SlitherResults)
    ensures
        results@ == results_of(set@),
{
    let mut detectors: Vec<SlitherDetector> = Vec::new();
    let mut i: usize = 0;
    while i < set.findings.len()
        invariant
            i <= set.findings.len(),
            detectors@.len() == i,
            forall|k: int|
                0 <= k < i ==> (#[trigger] detectors@[k])@ == detector_of_finding(
                    set.findings@[k]@,
                ),
        decreases set.findings.len() - i,
    {
        let f = &set.findings[i];
        let confidence = match &f.confidence {
            Some(c) => c.clone(),
            None => String::new(),
        };
        detectors.push(
            SlitherDetector {
                check: f.title.clone(),
                impact: f.severity.clone(),
                confidence,
                description: f.description.clone(),
            },
        );
        i += 1;
    }
    let results = SlitherResults { detectors };
    assert(results@.detectors =~= results_of(set@).detectors);
    results
}

/// The findings of `set` as issues.
pub fn mythril_analysis_from(set: &FindingSet) -> (analysis: MythrilAnalysis)
    ensures
        analysis@ == analysis_of(set@),
{
    let mut issues: Vec<MythrilIssue> = Vec::new();
    let mut i: usize = 0;
    while i < set.findings.len()
        invariant
            i <= set.findings.len(),
            issues@.len() == i,
            forall|k: int|
                0 <= k < i ==> (#[trigger] issues@[k])@ == issue_of_finding(set.findings@[k]@),
        decreases set.findings.len() - i,
    {
        let f = &set.findings[i];
        issues.push(
            MythrilIssue {
                title: f.title.clone(),
                description: f.description.clone(),
                severity: f.severity.clone(),
                address: None,
            },
        );
        i += 1;
    }
    let analysis = MythrilAnalysis { success: set.success, issues };
    assert(analysis@.issues =~= analysis_of(set@).issues);
    analysis
}

/// Writes the Markdown report of a set of findings of the engine `kind`.
pub fn generate_report_md(set: &FindingSet, kind: ToolKind) -> (report: String)
    ensures
        report@ == findings_markdown(set@, kind),
{
    match kind {
        ToolKind::Slither => generate_slither_report_md(&slither_results_from(set)),
        ToolKind::Mythril => generate_mythril_report_md(&mythril_analysis_from(set)),
    }
}

/// Writes the HTML report of a set of findings of the engine `kind`.
pub fn generate_report_html(set: &FindingSet, kind: ToolKind) -> (page: String)
    ensures
        page@ == findings_html(set@, kind),
{
    match kind {
        ToolKind::Slither => generate_slither_report_html(&slither_results_from(set)),
        ToolKind::Mythril => generate_mythril_report_html(&mythril_analysis_from(set)),
    }
}

/// The text that opens the heading of each section in the Markdown report of
/// an analyser.
pub open spec fn section_opener(kind: ToolKind) -> Seq<char> {
    match kind {
        ToolKind::Slither => "## 🚨 "@,
        ToolKind::Mythril => "## 🔥 "@,
    }
}

/// The text that opens the heading of a section.
pub fn opener_of(kind: ToolKind) -> (r: &'static str)
    ensures
        r@ == section_opener(kind),
{
    match kind {
        ToolKind::Slither => "## 🚨 ",
        ToolKind::Mythril => "## 🔥 ",
    }
}

/// Counts the sections of a Markdown report of the engine `kind` by scanning
/// for the text that opens each section's heading.
pub fn count_sections(report: &str, kind: ToolKind) -> (n: usize)
    ensures
        n == occurrences(section_opener(kind), report@),
{
    let v = chars_of(report);
    let opener = chars_of(opener_of(kind));
    let m = opener.len();
    let mut n: usize = 0;
    let mut i: usize = 0;
    assert(v@.take(0) =~= Seq::<char>::empty());
    while i < v.len()
        invariant
            i <= v.len(),
            n <= i,
            m == opener.len(),
            n == occurrences(opener@, v@.take(i as int)),
        decreases v.len() - i,
    {
        let ghost t = v@.take(i + 1);
        assert(t.drop_last() =~= v@.take(i as int));
        if i + 1 >= m {
            let at: usize = i + 1 - m;
            assert(t.subrange(at as int, at + m) =~= v@.subrange(at as int, at + m));
            if matches_at(&v, &opener, at) {
                n += 1;
            }
        }
        i += 1;
    }
    assert(v@.take(i as int) =~= v@);
    n
}

/// Whether no field of the detector holds `opener`.
pub open spec fn detector_lacks(d: SlitherDetectorModel, opener: Seq<char>) -> bool {
    &&& !occurs_in(opener, d.check)
    &&& !occurs_in(opener, d.impact)
    &&& !occurs_in(opener, d.confidence)
    &&& !occurs_in(opener, d.description)
}

/// Whether no field of the issue holds `opener`.
pub open spec fn issue_lacks(issue: MythrilIssueModel, opener: Seq<char>) -> bool {
    &&& !occurs_in(opener, issue.title)
    &&& !occurs_in(opener, issue.severity)
    &&& !occurs_in(opener, issue.description)
}

/// Whether no field of the finding holds `opener`.
pub open spec fn finding_lacks(f: FindingModel, opener: Seq<char>) -> bool {
    &&& !occurs_in(opener, f.title)
    &&& !occurs_in(opener, f.severity)
    &&& !occurs_in(opener, f.description)
    &&& f.confidence matches Some(c) ==> !occurs_in(opener, c)
}

/// A fixed text of a report that no occurrence of `opener` can reach into
/// from either side, and that holds none.
spec fn is_frame(frame: Seq<char>, opener: Seq<char>) -> bool {
    &&& clean_head(frame, opener)
    &&& clean_tail(frame, opener)
    &&& frame.len() + 1 >= opener.len()
    &&& occurrences(opener, frame) == 0
}

/// The opener stands once in itself, and nothing that begins in it goes on
/// behind it.
proof fn lemma_opener_itself(opener: Seq<char>)
    requires
        opener.len() == 5,
        opener[0] == '#',
        opener[1] == '#',
        opener[2] == ' ',
        opener[3] != '#',
        opener[4] == ' ',
    ensures
        occurrences(opener, opener) == 1,
        clean_tail(opener, opener),
{
    assert(opener.subrange(0, 5) =~= opener);
    assert(occurs_at(opener, opener, 0));
    assert(occurrences(opener, opener.drop_last()) == 0);
    assert forall|i: int| 0 <= i < 5 && 5 < i + 5 implies #[trigger] starts_unlike(
        opener,
        opener,
        i,
    ) by {
        if i == 1 {
            assert(opener[2] != opener[1]);
        }
    }
    lemma_clean_tail(opener, opener);
}

/// What the fixed texts of the static analyser's report are to its opener:
/// the opener stands once in itself, the texts between the fields are frames,
/// and the title and the fixed line hold no opener.
proof fn lemma_slither_frames()
    ensures
        section_opener(ToolKind::Slither).len() == 5,
        occurrences(section_opener(ToolKind::Slither), section_opener(ToolKind::Slither)) == 1,
        clean_tail(section_opener(ToolKind::Slither), section_opener(ToolKind::Slither)),
        is_frame("\n\n- **Impact:** "@, section_opener(ToolKind::Slither)),
        is_frame("\n- **Confidence:** "@, section_opener(ToolKind::Slither)),
        is_frame("\n\n### Description\n"@, section_opener(ToolKind::Slither)),
        is_frame("\n\n---\n\n"@, section_opener(ToolKind::Slither)),
        occurrences(
            section_opener(ToolKind::Slither),
            "# Slither Security Analysis Report\n\n"@,
        ) == 0,
        clean_tail("# Slither Security Analysis Report\n\n"@, section_opener(ToolKind::Slither)),
        occurrences(
            section_opener(ToolKind::Slither),
            "✅ No vulnerabilities detected by Slither.\n"@,
        ) == 0,
{
    let opener = "## 🚨 "@;
    reveal_strlit("## 🚨 ");
    reveal_strlit("\n\n- **Impact:** ");
    reveal_strlit("\n- **Confidence:** ");
    reveal_strlit("\n\n### Description\n");
    reveal_strlit("\n\n---\n\n");
    reveal_strlit("# Slither Security Analysis Report\n\n");
    reveal_strlit("✅ No vulnerabilities detected by Slither.\n");
    lemma_opener_itself(opener);
    lemma_calm("\n\n- **Impact:** "@, opener, 3);
    lemma_clean_head("\n\n- **Impact:** "@, opener);
    lemma_calm("\n- **Confidence:** "@, opener, 3);
    lemma_clean_head("\n- **Confidence:** "@, opener);
    lemma_calm("\n\n### Description\n"@, opener, 3);
    lemma_clean_head("\n\n### Description\n"@, opener);
    lemma_calm("\n\n---\n\n"@, opener, 3);
    lemma_clean_head("\n\n---\n\n"@, opener);
    lemma_calm("# Slither Security Analysis Report\n\n"@, opener, 3);
    lemma_calm("✅ No vulnerabilities detected by Slither.\n"@, opener, 3);
}

/// The section of a detector holds the opener once for its heading, and once
/// more for each time that a field of the detector holds it.
pub proof fn lemma_slither_section_openers(d: SlitherDetectorModel)
    ensures
        occurrences(section_opener(ToolKind::Slither), slither_section(d)) == 1 + occurrences(
            section_opener(ToolKind::Slither),
            d.check,
        ) + occurrences(section_opener(ToolKind::Slither), d.impact) + occurrences(
            section_opener(ToolKind::Slither),
            d.confidence,
        ) + occurrences(section_opener(ToolKind::Slither), d.description),
        clean_tail(slither_section(d), section_opener(ToolKind::Slither)),
        slither_section(d).len() >= 4,
{
    lemma_slither_frames();
    let opener = section_opener(ToolKind::Slither);
    let part1 = opener + d.check;
    let part3 = part1 + "\n\n- **Impact:** "@ + d.impact;
    let part5 = part3 + "\n- **Confidence:** "@ + d.confidence;
    let part7 = part5 + "\n\n### Description\n"@ + d.description;
    lemma_occurrences_concat(opener, opener, d.check);
    lemma_occurrences_framed(opener, part1, "\n\n- **Impact:** "@, d.impact);
    lemma_occurrences_framed(opener, part3, "\n- **Confidence:** "@, d.confidence);
    lemma_occurrences_framed(opener, part5, "\n\n### Description\n"@, d.description);
    lemma_occurrences_concat(opener, part7, "\n\n---\n\n"@);
    lemma_clean_tail_of_concat(part7, "\n\n---\n\n"@, opener);
}

/// The sections of detectors whose fields do not hold the opener hold it as
/// often as there are detectors.
pub proof fn lemma_slither_sections_openers(detectors: Seq<SlitherDetectorModel>)
    requires
        forall|i: int|
            0 <= i < detectors.len() ==> detector_lacks(
                #[trigger] detectors[i],
                section_opener(ToolKind::Slither),
            ),
    ensures
        occurrences(section_opener(ToolKind::Slither), slither_sections(detectors))
            == detectors.len(),
        clean_tail(slither_sections(detectors), section_opener(ToolKind::Slither)),
    decreases detectors.len(),
{
    let opener = section_opener(ToolKind::Slither);
    if detectors.len() > 0 {
        let before = detectors.drop_last();
        let d = detectors.last();
        assert forall|i: int| 0 <= i < before.len() implies detector_lacks(
            #[trigger] before[i],
            opener,
        ) by {
            assert(before[i] == detectors[i]);
        }
        lemma_slither_sections_openers(before);
        lemma_slither_section_openers(d);
        assert(detector_lacks(d, opener));
        lemma_no_occurrence(opener, d.check);
        lemma_no_occurrence(opener, d.impact);
        lemma_no_occurrence(opener, d.confidence);
        lemma_no_occurrence(opener, d.description);
        lemma_occurrences_concat(opener, slither_sections(before), slither_section(d));
        lemma_slither_frames();
        lemma_clean_tail_of_concat(slither_sections(before), slither_section(d), opener);
    }
}

/// Round trip of the static analyser's report: scanning the Markdown report
/// for section headings finds as many as there are detectors, where no field
/// of a detector holds the text that opens a heading.
pub proof fn lemma_slither_round_trip(results: SlitherResultsModel)
    requires
        forall|i: int|
            0 <= i < results.detectors.len() ==> detector_lacks(
                #[trigger] results.detectors[i],
                section_opener(ToolKind::Slither),
            ),
    ensures
        occurrences(section_opener(ToolKind::Slither), slither_markdown(results))
            == results.detectors.len(),
{
    lemma_slither_frames();
    if results.detectors.len() > 0 {
        lemma_slither_sections_openers(results.detectors);
        lemma_occurrences_concat(
            section_opener(ToolKind::Slither),
            "# Slither Security Analysis Report\n\n"@,
            slither_sections(results.detectors),
        );
    }
}

/// What the fixed texts of the symbolic analyser's report are to its opener:
/// the opener stands once in itself, the texts between the fields are frames,
/// and the title and the fixed line hold no opener.
proof fn lemma_mythril_frames()
    ensures
        section_opener(ToolKind::Mythril).len() == 5,
        occurrences(section_opener(ToolKind::Mythril), section_opener(ToolKind::Mythril)) == 1,
        clean_tail(section_opener(ToolKind::Mythril), section_opener(ToolKind::Mythril)),
        is_frame("\n\n- **Severity:** "@, section_opener(ToolKind::Mythril)),
        is_frame("\n\n### Description\n"@, section_opener(ToolKind::Mythril)),
        is_frame("\n\n---\n\n"@, section_opener(ToolKind::Mythril)),
        occurrences(
            section_opener(ToolKind::Mythril),
            "# Mythril Security Analysis Report\n\n"@,
        ) == 0,
        clean_tail("# Mythril Security Analysis Report\n\n"@, section_opener(ToolKind::Mythril)),
        occurrences(
            section_opener(ToolKind::Mythril),
            "✅ No vulnerabilities detected by Mythril.\n"@,
        ) == 0,
{
    let opener = "## 🔥 "@;
    reveal_strlit("## 🔥 ");
    reveal_strlit("\n\n- **Severity:** ");
    reveal_strlit("\n\n### Description\n");
    reveal_strlit("\n\n---\n\n");
    reveal_strlit("# Mythril Security Analysis Report\n\n");
    reveal_strlit("✅ No vulnerabilities detected by Mythril.\n");
    lemma_opener_itself(opener);
    lemma_calm("\n\n- **Severity:** "@, opener, 3);
    lemma_clean_head("\n\n- **Severity:** "@, opener);
    lemma_calm("\n\n### Description\n"@, opener, 3);
    lemma_clean_head("\n\n### Description\n"@, opener);
    lemma_calm("\n\n---\n\n"@, opener, 3);
    lemma_clean_head("\n\n---\n\n"@, opener);
    lemma_calm("# Mythril Security Analysis Report\n\n"@, opener, 3);
    lemma_calm("✅ No vulnerabilities detected by Mythril.\n"@, opener, 3);
}

/// The section of an issue holds the opener once for its heading, and once
/// more for each time that a field of the issue holds it.
pub proof fn lemma_mythril_section_openers(issue: MythrilIssueModel)
    ensures
        occurrences(section_opener(ToolKind::Mythril), mythril_section(issue)) == 1 + occurrences(
            section_opener(ToolKind::Mythril),
            issue.title,
        ) + occurrences(section_opener(ToolKind::Mythril), issue.severity) + occurrences(
            section_opener(ToolKind::Mythril),
            issue.description,
        ),
        clean_tail(mythril_section(issue), section_opener(ToolKind::Mythril)),
        mythril_section(issue).len() >= 4,
{
    lemma_mythril_frames();
    let opener = section_opener(ToolKind::Mythril);
    let part1 = opener + issue.title;
    let part3 = part1 + "\n\n- **Severity:** "@ + issue.severity;
    let part5 = part3 + "\n\n### Description\n"@ + issue.description;
    lemma_occurrences_concat(opener, opener, issue.title);
    lemma_occurrences_framed(opener, part1, "\n\n- **Severity:** "@, issue.severity);
    lemma_occurrences_framed(opener, part3, "\n\n### Description\n"@, issue.description);
    lemma_occurrences_concat(opener, part5, "\n\n---\n\n"@);
    lemma_clean_tail_of_concat(part5, "\n\n---\n\n"@, opener);
}

/// The sections of issues whose fields do not hold the opener hold it as
/// often as there are issues.
pub proof fn lemma_mythril_sections_openers(issues: Seq<MythrilIssueModel>)
    requires
        forall|i: int|
            0 <= i < issues.len() ==> issue_lacks(
                #[trigger] issues[i],
                section_opener(ToolKind::Mythril),
            ),
    ensures
        occurrences(section_opener(ToolKind::Mythril), mythril_sections(issues)) == issues.len(),
        clean_tail(mythril_sections(issues), section_opener(ToolKind::Mythril)),
    decreases issues.len(),
{
    let opener = section_opener(ToolKind::Mythril);
    if issues.len() > 0 {
        let before = issues.drop_last();
        let issue = issues.last();
        assert forall|i: int| 0 <= i < before.len() implies issue_lacks(
            #[trigger] before[i],
            opener,
        ) by {
            assert(before[i] == issues[i]);
        }
        lemma_mythril_sections_openers(before);
        lemma_mythril_section_openers(issue);
        assert(issue_lacks(issue, opener));
        lemma_no_occurrence(opener, issue.title);
        lemma_no_occurrence(opener, issue.severity);
        lemma_no_occurrence(opener, issue.description);
        lemma_occurrences_concat(opener, mythril_sections(before), mythril_section(issue));
        lemma_mythril_frames();
        lemma_clean_tail_of_concat(mythril_sections(before), mythril_section(issue), opener);
    }
}

/// Round trip of the symbolic analyser's report: scanning the Markdown report
/// for section headings finds as many as there are issues, where no field of
/// an issue holds the text that opens a heading. Whether the analyser called
/// its run a success makes no difference.
pub proof fn lemma_mythril_round_trip(analysis: MythrilAnalysisModel)
    requires
        forall|i: int|
            0 <= i < analysis.issues.len() ==> issue_lacks(
                #[trigger] analysis.issues[i],
                section_opener(ToolKind::Mythril),
            ),
    ensures
        occurrences(section_opener(ToolKind::Mythril), mythril_markdown(analysis))
            == analysis.issues.len(),
{
    lemma_mythril_frames();
    if analysis.issues.len() > 0 {
        lemma_mythril_sections_openers(analysis.issues);
        lemma_occurrences_concat(
            section_opener(ToolKind::Mythril),
            "# Mythril Security Analysis Report\n\n"@,
            mythril_sections(analysis.issues),
        );
    }
}

/// Round trip: a set of `n` findings, written as Markdown and scanned for
/// section headings, counts `n` sections, where no field of a finding holds
/// the text that opens a heading.
pub proof fn lemma_findings_round_trip(set: FindingSetModel, kind: ToolKind)
    requires
        forall|i: int|
            0 <= i < set.findings.len() ==> finding_lacks(
                #[trigger] set.findings[i],
                section_opener(kind),
            ),
    ensures
        occurrences(section_opener(kind), findings_markdown(set, kind)) == set.findings.len(),
{
    match kind {
        ToolKind::Slither => {
            lemma_slither_frames();
            let results = results_of(set);
            assert forall|i: int| 0 <= i < results.detectors.len() implies detector_lacks(
                #[trigger] results.detectors[i],
                section_opener(ToolKind::Slither),
            ) by {
                assert(finding_lacks(set.findings[i], section_opener(kind)));
                assert forall|at: int| !occurs_at(
                    section_opener(ToolKind::Slither),
                    Seq::<char>::empty(),
                    at,
                ) by {}
            }
            lemma_slither_round_trip(results);
        },
        ToolKind::Mythril => {
            let analysis = analysis_of(set);
            assert forall|i: int| 0 <= i < analysis.issues.len() implies issue_lacks(
                #[trigger] analysis.issues[i],
                section_opener(ToolKind::Mythril),
            ) by {
                assert(finding_lacks(set.findings[i], section_opener(kind)));
            }
            lemma_mythril_round_trip(analysis);
        },
    }
}

/// The character that marks the heading of each section in the Markdown
/// report of an analyser.
pub open spec fn section_marker(kind: ToolKind) -> char {
    match kind {
        ToolKind::Slither => '🚨',
        ToolKind::Mythril => '🔥',
    }
}

/// How often `marker` stands in `text`.
pub open spec fn count_of(text: Seq<char>, marker: char) -> nat
    decreases text.len(),
{
    if text.len() == 0 {
        0
    } else {
        count_of(text.drop_last(), marker) + if text.last() == marker {
            1nat
        } else {
            0nat
        }
    }
}

/// The character that marks the heading of a section.
pub fn marker_of(kind: ToolKind) -> (c: char)
    ensures
        c == section_marker(kind),
{
    match kind {
        ToolKind::Slither => '🚨',
        ToolKind::Mythril => '🔥',
    }
}

/// Counts how often the marker of the engine `kind` stands in a text.
pub fn count_markers(report: &str, kind: ToolKind) -> (n: usize)
    ensures
        n == count_of(report@, section_marker(kind)),
{
    let v = chars_of(report);
    let marker = marker_of(kind);
    let mut n: usize = 0;
    let mut i: usize = 0;
    assert(v@.take(0) =~= Seq::<char>::empty());
    while i < v.len()
        invariant
            i <= v.len(),
            n <= i,
            n == count_of(v@.take(i as int), marker),
        decreases v.len() - i,
    {
        assert(v@.take(i + 1).drop_last() =~= v@.take(i as int));
        if v[i] == marker {
            n += 1;
        }
        i += 1;
    }
    assert(v@.take(i as int) =~= v@);
    n
}

/// The count of a text in two parts is the sum of the counts of the parts.
pub proof fn lemma_count_concat(a: Seq<char>, b: Seq<char>, marker: char)
    ensures
        count_of(a + b, marker) == count_of(a, marker) + count_of(b, marker),
    decreases b.len(),
{
    if b.len() == 0 {
        assert(a + b =~= a);
    } else {
        assert((a + b).drop_last() =~= a + b.drop_last());
        lemma_count_concat(a, b.drop_last(), marker);
    }
}

/// A text that holds no marker counts zero.
pub proof fn lemma_count_none(text: Seq<char>, marker: char)
    requires
        forall|i: int| 0 <= i < text.len() ==> text[i] != marker,
    ensures
        count_of(text, marker) == 0,
    decreases text.len(),
{
    if text.len() > 0 {
        lemma_count_none(text.drop_last(), marker);
    }
}

/// Whether no field of the detector holds `marker`.
pub open spec fn detector_free_of(d: SlitherDetectorModel, marker: char) -> bool {
    &&& count_of(d.check, marker) == 0
    &&& count_of(d.impact, marker) == 0
    &&& count_of(d.confidence, marker) == 0
    &&& count_of(d.description, marker) == 0
}

/// Whether no field of the issue holds `marker`.
pub open spec fn issue_free_of(issue: MythrilIssueModel, marker: char) -> bool {
    &&& count_of(issue.title, marker) == 0
    &&& count_of(issue.severity, marker) == 0
    &&& count_of(issue.description, marker) == 0
}

/// Whether no field of the finding holds `marker`.
pub open spec fn finding_free_of(f: FindingModel, marker: char) -> bool {
    &&& count_of(f.title, marker) == 0
    &&& count_of(f.severity, marker) == 0
    &&& count_of(f.description, marker) == 0
    &&& f.confidence matches Some(c) ==> count_of(c, marker) == 0
}

/// How often the marker stands in each fixed text of the static analyser's
/// report: once in the opener of a heading, and nowhere else.
proof fn lemma_slither_marker_literals()
    ensures
        count_of("## 🚨 "@, '🚨') == 1,
        count_of("\n\n- **Impact:** "@, '🚨') == 0,
        count_of("\n- **Confidence:** "@, '🚨') == 0,
        count_of("\n\n### Description\n"@, '🚨') == 0,
        count_of("\n\n---\n\n"@, '🚨') == 0,
        count_of("# Slither Security Analysis Report\n\n"@, '🚨') == 0,
        count_of("✅ No vulnerabilities detected by Slither.\n"@, '🚨') == 0,
{
    reveal_strlit("## 🚨 ");
    reveal_strlit("\n\n- **Impact:** ");
    reveal_strlit("\n- **Confidence:** ");
    reveal_strlit("\n\n### Description\n");
    reveal_strlit("\n\n---\n\n");
    reveal_strlit("# Slither Security Analysis Report\n\n");
    reveal_strlit("✅ No vulnerabilities detected by Slither.\n");
    lemma_count_none("\n\n- **Impact:** "@, '🚨');
    lemma_count_none("\n- **Confidence:** "@, '🚨');
    lemma_count_none("\n\n### Description\n"@, '🚨');
    lemma_count_none("\n\n---\n\n"@, '🚨');
    lemma_count_none("# Slither Security Analysis Report\n\n"@, '🚨');
    lemma_count_none("✅ No vulnerabilities detected by Slither.\n"@, '🚨');
    let head = seq!['#', '#', ' '];
    let mark = seq!['🚨'];
    let tail = seq![' '];
    assert("## 🚨 "@ =~= (head + mark) + tail);
    lemma_count_none(head, '🚨');
    lemma_count_none(tail, '🚨');
    assert(mark.drop_last() =~= Seq::<char>::empty());
    assert(count_of(mark.drop_last(), '🚨') == 0);
    assert(mark.last() == '🚨');
    assert(count_of(mark, '🚨') == 1);
    lemma_count_concat(head, mark, '🚨');
    lemma_count_concat(head + mark, tail, '🚨');
}

/// The section of a detector holds the marker once for its heading, and once
/// more for each marker in the detector's fields.
pub proof fn lemma_slither_section_markers(d: SlitherDetectorModel)
    ensures
        count_of(slither_section(d), '🚨') == 1 + count_of(d.check, '🚨') + count_of(
            d.impact,
            '🚨',
        ) + count_of(d.confidence, '🚨') + count_of(d.description, '🚨'),
{
    lemma_slither_marker_literals();
    let m = '🚨';
    let part1 = "## 🚨 "@ + d.check;
    let part2 = part1 + "\n\n- **Impact:** "@;
    let part3 = part2 + d.impact;
    let part4 = part3 + "\n- **Confidence:** "@;
    let part5 = part4 + d.confidence;
    let part6 = part5 + "\n\n### Description\n"@;
    let part7 = part6 + d.description;
    lemma_count_concat("## 🚨 "@, d.check, m);
    lemma_count_concat(part1, "\n\n- **Impact:** "@, m);
    lemma_count_concat(part2, d.impact, m);
    lemma_count_concat(part3, "\n- **Confidence:** "@, m);
    lemma_count_concat(part4, d.confidence, m);
    lemma_count_concat(part5, "\n\n### Description\n"@, m);
    lemma_count_concat(part6, d.description, m);
    lemma_count_concat(part7, "\n\n---\n\n"@, m);
}

/// Sections of detectors whose fields hold no marker count as many markers as
/// there are detectors.
pub proof fn lemma_slither_sections_markers(detectors: Seq<SlitherDetectorModel>)
    requires
        forall|i: int| 0 <= i < detectors.len() ==> detector_free_of(#[trigger] detectors[i], '🚨'),
    ensures
        count_of(slither_sections(detectors), '🚨') == detectors.len(),
    decreases detectors.len(),
{
    if detectors.len() > 0 {
        let before = detectors.drop_last();
        assert forall|i: int| 0 <= i < before.len() implies detector_free_of(
            #[trigger] before[i],
            '🚨',
        ) by {
            assert(before[i] == detectors[i]);
        }
        lemma_slither_sections_markers(before);
        lemma_slither_section_markers(detectors.last());
        lemma_count_concat(slither_sections(before), slither_section(detectors.last()), '🚨');
    }
}

/// The Markdown report of the static analyser holds the marker as often as
/// there are detectors, where no field of a detector holds it.
pub proof fn lemma_slither_markers(results: SlitherResultsModel)
    requires
        forall|i: int|
            0 <= i < results.detectors.len() ==> detector_free_of(
                #[trigger] results.detectors[i],
                section_marker(ToolKind::Slither),
            ),
    ensures
        count_of(slither_markdown(results), section_marker(ToolKind::Slither))
            == results.detectors.len(),
{
    lemma_slither_marker_literals();
    if results.detectors.len() > 0 {
        lemma_slither_sections_markers(results.detectors);
        lemma_count_concat(
            "# Slither Security Analysis Report\n\n"@,
            slither_sections(results.detectors),
            '🚨',
        );
    }
}

/// How often the marker stands in each fixed text of the symbolic analyser's
/// report: once in the opener of a heading, and nowhere else.
proof fn lemma_mythril_marker_literals()
    ensures
        count_of("## 🔥 "@, '🔥') == 1,
        count_of("\n\n- **Severity:** "@, '🔥') == 0,
        count_of("\n\n### Description\n"@, '🔥') == 0,
        count_of("\n\n---\n\n"@, '🔥') == 0,
        count_of("# Mythril Security Analysis Report\n\n"@, '🔥') == 0,
        count_of("✅ No vulnerabilities detected by Mythril.\n"@, '🔥') == 0,
{
    reveal_strlit("## 🔥 ");
    reveal_strlit("\n\n- **Severity:** ");
    reveal_strlit("\n\n### Description\n");
    reveal_strlit("\n\n---\n\n");
    reveal_strlit("# Mythril Security Analysis Report\n\n");
    reveal_strlit("✅ No vulnerabilities detected by Mythril.\n");
    lemma_count_none("\n\n- **Severity:** "@, '🔥');
    lemma_count_none("\n\n### Description\n"@, '🔥');
    lemma_count_none("\n\n---\n\n"@, '🔥');
    lemma_count_none("# Mythril Security Analysis Report\n\n"@, '🔥');
    lemma_count_none("✅ No vulnerabilities detected by Mythril.\n"@, '🔥');
    let head = seq!['#', '#', ' '];
    let mark = seq!['🔥'];
    let tail = seq![' '];
    assert("## 🔥 "@ =~= (head + mark) + tail);
    lemma_count_none(head, '🔥');
    lemma_count_none(tail, '🔥');
    assert(mark.drop_last() =~= Seq::<char>::empty());
    assert(count_of(mark.drop_last(), '🔥') == 0);
    assert(mark.last() == '🔥');
    assert(count_of(mark, '🔥') == 1);
    lemma_count_concat(head, mark, '🔥');
    lemma_count_concat(head + mark, tail, '🔥');
}

/// The section of an issue holds the marker once for its heading, and once
/// more for each marker in the issue's fields.
pub proof fn lemma_mythril_section_markers(issue: MythrilIssueModel)
    ensures
        count_of(mythril_section(issue), '🔥') == 1 + count_of(issue.title, '🔥') + count_of(
            issue.severity,
            '🔥',
        ) + count_of(issue.description, '🔥'),
{
    lemma_mythril_marker_literals();
    let m = '🔥';
    let part1 = "## 🔥 "@ + issue.title;
    let part2 = part1 + "\n\n- **Severity:** "@;
    let part3 = part2 + issue.severity;
    let part4 = part3 + "\n\n### Description\n"@;
    let part5 = part4 + issue.description;
    lemma_count_concat("## 🔥 "@, issue.title, m);
    lemma_count_concat(part1, "\n\n- **Severity:** "@, m);
    lemma_count_concat(part2, issue.severity, m);
    lemma_count_concat(part3, "\n\n### Description\n"@, m);
    lemma_count_concat(part4, issue.description, m);
    lemma_count_concat(part5, "\n\n---\n\n"@, m);
}

/// Sections of issues whose fields hold no marker count as many markers as
/// there are issues.
pub proof fn lemma_mythril_sections_markers(issues: Seq<MythrilIssueModel>)
    requires
        forall|i: int| 0 <= i < issues.len() ==> issue_free_of(#[trigger] issues[i], '🔥'),
    ensures
        count_of(mythril_sections(issues), '🔥') == issues.len(),
    decreases issues.len(),
{
    if issues.len() > 0 {
        let before = issues.drop_last();
        assert forall|i: int| 0 <= i < before.len() implies issue_free_of(
            #[trigger] before[i],
            '🔥',
        ) by {
            assert(before[i] == issues[i]);
        }
        lemma_mythril_sections_markers(before);
        lemma_mythril_section_markers(issues.last());
        lemma_count_concat(mythril_sections(before), mythril_section(issues.last()), '🔥');
    }
}

/// The Markdown report of the symbolic analyser holds the marker as often as
/// there are issues, where no field of an issue holds it.
pub proof fn lemma_mythril_markers(analysis: MythrilAnalysisModel)
    requires
        forall|i: int|
            0 <= i < analysis.issues.len() ==> issue_free_of(
                #[trigger] analysis.issues[i],
                section_marker(ToolKind::Mythril),
            ),
    ensures
        count_of(mythril_markdown(analysis), section_marker(ToolKind::Mythril))
            == analysis.issues.len(),
{
    lemma_mythril_marker_literals();
    if analysis.issues.len() > 0 {
        lemma_mythril_sections_markers(analysis.issues);
        lemma_count_concat(
            "# Mythril Security Analysis Report\n\n"@,
            mythril_sections(analysis.issues),
            '🔥',
        );
    }
}

/// The Markdown report of a set of findings holds the marker as often as
/// there are findings, where no field of a finding holds it.
pub proof fn lemma_findings_markers(set: FindingSetModel, kind: ToolKind)
    requires
        forall|i: int|
            0 <= i < set.findings.len() ==> finding_free_of(
                #[trigger] set.findings[i],
                section_marker(kind),
            ),
    ensures
        count_of(findings_markdown(set, kind), section_marker(kind)) == set.findings.len(),
{
    match kind {
        ToolKind::Slither => {
            let results = results_of(set);
            assert forall|i: int| 0 <= i < results.detectors.len() implies detector_free_of(
                #[trigger] results.detectors[i],
                section_marker(ToolKind::Slither),
            ) by {
                assert(finding_free_of(set.findings[i], section_marker(kind)));
                assert(count_of(Seq::<char>::empty(), '🚨') == 0);
            }
            lemma_slither_markers(results);
        },
        ToolKind::Mythril => {
            let analysis = analysis_of(set);
            assert forall|i: int| 0 <= i < analysis.issues.len() implies issue_free_of(
                #[trigger] analysis.issues[i],
                section_marker(ToolKind::Mythril),
            ) by {
                assert(finding_free_of(set.findings[i], section_marker(kind)));
            }
            lemma_mythril_markers(analysis);
        },
    }
}

/// Sections are written from title, severity and description alone: issues
/// that agree in these have the same sections.
proof fn lemma_mythril_sections_agree(a: Seq<MythrilIssueModel>, b: Seq<MythrilIssueModel>)
    requires
        a.len() == b.len(),
        forall|i: int| 0 <= i < a.len() ==> mythril_section(a[i]) == mythril_section(b[i]),
    ensures
        mythril_sections(a) == mythril_sections(b),
    decreases a.len(),
{
    if a.len() > 0 {
        assert forall|i: int| 0 <= i < a.drop_last().len() implies mythril_section(
            a.drop_last()[i],
        ) == mythril_section(b.drop_last()[i]) by {
            assert(a.drop_last()[i] == a[i]);
            assert(b.drop_last()[i] == b[i]);
        }
        lemma_mythril_sections_agree(a.drop_last(), b.drop_last());
        assert(mythril_section(a.last()) == mythril_section(b.last()));
    }
}

/// Normalising loses nothing that a Markdown report shows: the report of the
/// findings of an analysis is the report of the analysis.
pub proof fn lemma_normalised_markdown_is_the_same(
    slither: SlitherAnalysisModel,
    mythril: MythrilAnalysisModel,
)
    ensures
        findings_markdown(slither_findings(slither), ToolKind::Slither) == slither_markdown(
            slither.results,
        ),
        findings_markdown(mythril_findings(mythril), ToolKind::Mythril) == mythril_markdown(
            mythril,
        ),
{
    assert(results_of(slither_findings(slither)).detectors =~= slither.results.detectors);
    let back = analysis_of(mythril_findings(mythril));
    assert(back.issues.len() == mythril.issues.len());
    lemma_mythril_sections_agree(back.issues, mythril.issues);
}

} // verus!
