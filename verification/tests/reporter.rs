use sudoaudit::generator::generate_markdown_report;
use sudoaudit::installer::ToolKind;
use sudoaudit::reporter::{
    count_markers, count_sections, opener_of, generate_html_scaffold, generate_mythril_report_html,
    generate_mythril_report_md, generate_report_html, generate_report_md,
    generate_slither_report_html, generate_slither_report_md, marker_of, mythril_analysis_from,
    push_mythril_block, push_slither_block, slither_results_from,
};
use sudoaudit::serialize::{
    Finding, FindingSet, MythrilAnalysis, MythrilIssue, SlitherAnalysis, SlitherDetector,
    SlitherResults,
};

fn detector(check: &str, impact: &str, confidence: &str, description: &str) -> SlitherDetector {
    SlitherDetector {
        check: check.to_string(),
        impact: impact.to_string(),
        confidence: confidence.to_string(),
        description: description.to_string(),
    }
}

fn issue(title: &str, severity: &str, description: &str) -> MythrilIssue {
    MythrilIssue {
        title: title.to_string(),
        description: description.to_string(),
        severity: severity.to_string(),
        address: None,
    }
}

fn scaffold(title: &str, body: &str) -> String {
    format!(r#"
<!DOCTYPE html>
<html lang="en">
<head>
    <meta charset="UTF-8">
    <meta name="viewport" content="width=device-width, initial-scale=1.0">
    <title>{}</title>
    <style>
        body {{ font-family: -apple-system, BlinkMacSystemFont, "Segoe UI", Roboto, Helvetica, Arial, sans-serif; line-height: 1.6; color: #333; max-width: 800px; margin: 2rem auto; padding: 0 1rem; background-color: #f9fafb; }}
        h1 {{ color: #111827; border-bottom: 2px solid #e5e7eb; padding-bottom: 0.5rem; }}
        h2 {{ color: #1f2937; }}
        .issue {{ background-color: #fff; border: 1px solid #e5e7eb; border-radius: 8px; margin-bottom: 1.5rem; padding: 1.5rem; box-shadow: 0 1px 3px rgba(0,0,0,0.05); }}
        .issue.high, .issue.critical {{ border-left: 5px solid #ef4444; }}
        .issue.medium {{ border-left: 5px solid #f97316; }}
        .issue.low, .issue.informational {{ border-left: 5px solid #3b82f6; }}
        .details {{ margin-bottom: 1rem; }}
        .tag {{ display: inline-block; background-color: #e5e7eb; color: #4b5563; padding: 0.25rem 0.75rem; border-radius: 9999px; font-size: 0.875rem; font-weight: 500; margin-right: 0.5rem; }}
        .description {{ background-color: #f9fafb; border: 1px solid #e5e7eb; border-radius: 4px; padding: 0.5rem 1rem; }}
        .description h3 {{ margin-top: 0; color: #374151; }}
        .no-issues {{ font-size: 1.2rem; color: #16a34a; text-align: center; padding: 2rem; }}
        code {{ background-color: #e5e7eb; padding: 0.2rem 0.4rem; border-radius: 4px; font-family: "SF Mono", "Fira Code", monospace; }}
    </style>
</head>
<body>
    <h1>{}</h1>
    {}
</body>
</html>
"#, title, title, body)
}

#[test]
fn slither_markdown_without_detectors_is_one_line() {
    let results = SlitherResults { detectors: vec![] };
    assert_eq!(generate_slither_report_md(&results), "✅ No vulnerabilities detected by Slither.\n");
}

#[test]
fn slither_markdown_has_one_section_for_each_detector() {
    let results = SlitherResults {
        detectors: vec![
            detector("reentrancy-eth", "High", "Medium", "Reentrancy in `withdraw()`"),
            detector("solc-version", "Informational", "High", "line 1\nline 2"),
        ],
    };
    assert_eq!(
        generate_slither_report_md(&results),
        "# Slither Security Analysis Report\n\n\
## 🚨 reentrancy-eth\n\n- **Impact:** High\n- **Confidence:** Medium\n\n### Description\nReentrancy in `withdraw()`\n\n---\n\n\
## 🚨 solc-version\n\n- **Impact:** Informational\n- **Confidence:** High\n\n### Description\nline 1\nline 2\n\n---\n\n"
    );
}

#[test]
fn combined_report_has_its_own_title() {
    let empty = SlitherAnalysis { success: true, results: SlitherResults { detectors: vec![] } };
    assert_eq!(
        generate_markdown_report(&empty),
        "# Smart Contract Security Analysis Report\n\n✅ No vulnerabilities detected.\n"
    );
    let one = SlitherAnalysis {
        success: false,
        results: SlitherResults { detectors: vec![detector("c", "i", "x", "d")] },
    };
    assert_eq!(
        generate_markdown_report(&one),
        "# Smart Contract Security Analysis Report\n\n## 🚨 c\n\n- **Impact:** i\n- **Confidence:** x\n\n### Description\nd\n\n---\n\n"
    );
}

#[test]
fn mythril_markdown_shows_issues_of_a_successful_run() {
    let analysis = MythrilAnalysis {
        success: true,
        issues: vec![issue("Integer Overflow", "High", "The arithmetic can overflow."), issue("t2", "Low", "d2")],
    };
    assert_eq!(
        generate_mythril_report_md(&analysis),
        "# Mythril Security Analysis Report\n\n\
## 🔥 Integer Overflow\n\n- **Severity:** High\n\n### Description\nThe arithmetic can overflow.\n\n---\n\n\
## 🔥 t2\n\n- **Severity:** Low\n\n### Description\nd2\n\n---\n\n"
    );
}

#[test]
fn mythril_markdown_shows_every_issue_of_a_failed_run() {
    let failed = MythrilAnalysis { success: false, issues: vec![issue("t", "High", "d")] };
    assert_eq!(
        generate_mythril_report_md(&failed),
        "# Mythril Security Analysis Report\n\n## 🔥 t\n\n- **Severity:** High\n\n### Description\nd\n\n---\n\n"
    );
    assert_eq!(count_sections(&generate_mythril_report_md(&failed), ToolKind::Mythril), 1);
}

#[test]
fn mythril_markdown_without_issues_is_one_line() {
    for success in [true, false] {
        let clean = MythrilAnalysis { success, issues: vec![] };
        assert_eq!(generate_mythril_report_md(&clean), "✅ No vulnerabilities detected by Mythril.\n");
    }
}

#[test]
fn scaffold_repeats_the_title_as_heading() {
    assert_eq!(generate_html_scaffold("T", "<p>b</p>"), scaffold("T", "<p>b</p>"));
    assert_eq!(generate_html_scaffold("", ""), scaffold("", ""));
}

#[test]
fn slither_html_renders_descriptions_from_markdown() {
    let results = SlitherResults {
        detectors: vec![
            detector("reentrancy", "High", "Medium", "# Hi\n\nuse `call`"),
            detector("naming", "INFORMATIONAL", "High", "plain"),
        ],
    };
    let body = "<div class='issue high'><h2>reentrancy</h2><div class='details'><span class='tag'>Impact: High</span><span class='tag'>Confidence: Medium</span></div><div class='description'><h3>Description</h3><h1>Hi</h1>\n<p>use <code>call</code></p></div></div>\
<div class='issue informational'><h2>naming</h2><div class='details'><span class='tag'>Impact: INFORMATIONAL</span><span class='tag'>Confidence: High</span></div><div class='description'><h3>Description</h3><p>plain</p></div></div>";
    assert_eq!(generate_slither_report_html(&results), scaffold("Slither Analysis Report", body));
}

#[test]
fn slither_html_without_detectors_says_so() {
    let results = SlitherResults { detectors: vec![] };
    assert_eq!(
        generate_slither_report_html(&results),
        scaffold(
            "Slither Analysis Report",
            "<p class='no-issues'>✅ No vulnerabilities detected by Slither.</p>"
        )
    );
}

#[test]
fn mythril_html_keeps_descriptions_as_they_are() {
    let analysis = MythrilAnalysis {
        success: true,
        issues: vec![issue("Overflow", "Medium", "# not a heading"), issue("ÄB", "ÄHIGH", "d")],
    };
    let body = "<div class='issue medium'><h2>Overflow</h2><div class='details'><span class='tag'>Severity: Medium</span></div><div class='description'><h3>Description</h3><p># not a heading</p></div></div>\
<div class='issue ähigh'><h2>ÄB</h2><div class='details'><span class='tag'>Severity: ÄHIGH</span></div><div class='description'><h3>Description</h3><p>d</p></div></div>";
    assert_eq!(generate_mythril_report_html(&analysis), scaffold("Mythril Analysis Report", body));
}

#[test]
fn mythril_html_shows_nothing_without_success_or_issues() {
    let nothing = scaffold(
        "Mythril Analysis Report",
        "<p class='no-issues'>✅ No vulnerabilities detected by Mythril.</p>",
    );
    let failed = MythrilAnalysis { success: false, issues: vec![issue("t", "High", "d")] };
    assert_eq!(generate_mythril_report_html(&failed), nothing);
    let clean = MythrilAnalysis { success: true, issues: vec![] };
    assert_eq!(generate_mythril_report_html(&clean), nothing);
}

#[test]
fn blocks_take_class_and_rendered_description_as_given() {
    let mut body = String::from(">");
    push_slither_block(&mut body, &detector("c", "I", "x", "ignored"), "cls", "<em>d</em>");
    assert_eq!(
        body,
        "><div class='issue cls'><h2>c</h2><div class='details'><span class='tag'>Impact: I</span><span class='tag'>Confidence: x</span></div><div class='description'><h3>Description</h3><em>d</em></div></div>"
    );
    let mut body = String::new();
    push_mythril_block(&mut body, &issue("t", "S", "d"), "cls");
    assert_eq!(
        body,
        "<div class='issue cls'><h2>t</h2><div class='details'><span class='tag'>Severity: S</span></div><div class='description'><h3>Description</h3><p>d</p></div></div>"
    );
}

#[test]
fn section_count_of_a_report_is_the_number_of_findings() {
    for n in [0usize, 1, 2, 7] {
        let detectors: Vec<SlitherDetector> = (0..n)
            .map(|i| detector(&format!("check-{}", i), "High", "Low", "## heading 🚨\n---\n##"))
            .collect();
        let results = SlitherResults { detectors };
        assert_eq!(count_sections(&generate_slither_report_md(&results), ToolKind::Slither), n);
        let analysis = SlitherAnalysis { success: true, results };
        assert_eq!(count_sections(&generate_markdown_report(&analysis), ToolKind::Slither), n);
        for success in [true, false] {
            let issues: Vec<MythrilIssue> =
                (0..n).map(|i| issue(&format!("t{}", i), "Low", "## 🚨 and 🔥")).collect();
            let analysis = MythrilAnalysis { success, issues };
            assert_eq!(count_sections(&generate_mythril_report_md(&analysis), ToolKind::Mythril), n);
            let set = analysis.findings();
            assert_eq!(set.findings.len(), n);
            assert_eq!(count_sections(&generate_report_md(&set, ToolKind::Mythril), ToolKind::Mythril), n);
        }
    }
}

#[test]
fn section_count_scans_for_heading_openers() {
    assert_eq!(opener_of(ToolKind::Slither), "## 🚨 ");
    assert_eq!(opener_of(ToolKind::Mythril), "## 🔥 ");
    assert_eq!(count_sections("", ToolKind::Slither), 0);
    assert_eq!(count_sections("## 🚨", ToolKind::Slither), 0);
    assert_eq!(count_sections("## 🚨 ", ToolKind::Slither), 1);
    assert_eq!(count_sections("x## 🚨 ## 🚨 y", ToolKind::Slither), 2);
    assert_eq!(count_sections("### 🔥 ## 🚨 ", ToolKind::Mythril), 1);
    let results = SlitherResults { detectors: vec![detector("c", "i", "x", "see 🚨 above")] };
    assert_eq!(count_sections(&generate_slither_report_md(&results), ToolKind::Slither), 1);
    let nested = SlitherResults { detectors: vec![detector("c", "i", "x", "## 🚨 inner")] };
    assert_eq!(count_sections(&generate_slither_report_md(&nested), ToolKind::Slither), 2);
    for text in ["", "## 🚨 ", "a## 🚨 b## 🚨 ", "## 🚨## 🚨 ", "#### 🚨  ## 🚨 "] {
        assert_eq!(count_sections(text, ToolKind::Slither), text.matches("## 🚨 ").count());
    }
}

#[test]
fn marker_count_sees_markers_wherever_they_stand() {
    let results = SlitherResults { detectors: vec![detector("c", "i", "x", "see 🚨 above")] };
    assert_eq!(count_markers(&generate_slither_report_md(&results), ToolKind::Slither), 2);
    assert_eq!(count_markers("", ToolKind::Slither), 0);
    assert_eq!(count_markers("🔥🔥🚨", ToolKind::Mythril), 2);
    assert_eq!(marker_of(ToolKind::Slither), '🚨');
    assert_eq!(marker_of(ToolKind::Mythril), '🔥');
}

#[test]
fn finding_sets_are_written_like_the_reports_they_came_from() {
    let results = SlitherResults {
        detectors: vec![detector("reentrancy", "High", "Medium", "..."), detector("b", "Low", "High", "*x*")],
    };
    let analysis = SlitherAnalysis { success: true, results: results.clone() };
    let set = analysis.findings();
    assert_eq!(slither_results_from(&set), results);
    assert_eq!(generate_report_md(&set, ToolKind::Slither), generate_slither_report_md(&results));
    assert_eq!(generate_report_html(&set, ToolKind::Slither), generate_slither_report_html(&results));
    assert_eq!(count_sections(&generate_report_md(&set, ToolKind::Slither), ToolKind::Slither), 2);

    let mut with_address = issue("t", "High", "d");
    with_address.address = Some(66);
    let analysis = MythrilAnalysis { success: true, issues: vec![with_address, issue("u", "Low", "e")] };
    let set = analysis.findings();
    assert_eq!(
        mythril_analysis_from(&set),
        MythrilAnalysis { success: true, issues: vec![issue("t", "High", "d"), issue("u", "Low", "e")] }
    );
    assert_eq!(generate_report_md(&set, ToolKind::Mythril), generate_mythril_report_md(&analysis));
    assert_eq!(generate_report_html(&set, ToolKind::Mythril), generate_mythril_report_html(&analysis));
    assert_eq!(count_sections(&generate_report_md(&set, ToolKind::Mythril), ToolKind::Mythril), 2);

    let empty = FindingSet { success: true, findings: vec![] };
    assert_eq!(generate_report_md(&empty, ToolKind::Slither), "✅ No vulnerabilities detected by Slither.\n");
    assert_eq!(generate_report_md(&empty, ToolKind::Mythril), "✅ No vulnerabilities detected by Mythril.\n");
    let bare = FindingSet {
        success: false,
        findings: vec![Finding {
            severity: "High".to_string(),
            confidence: None,
            title: "t".to_string(),
            description: "d".to_string(),
        }],
    };
    assert_eq!(
        generate_report_md(&bare, ToolKind::Slither),
        "# Slither Security Analysis Report\n\n## 🚨 t\n\n- **Impact:** High\n- **Confidence:** \n\n### Description\nd\n\n---\n\n"
    );
    assert_eq!(
        generate_report_md(&bare, ToolKind::Mythril),
        "# Mythril Security Analysis Report\n\n## 🔥 t\n\n- **Severity:** High\n\n### Description\nd\n\n---\n\n"
    );
}
