//! The combined report: the findings of the static analyser under one title,
//! with a fixed line where there is none.

use vstd::prelude::*;
use vstd::string::*;
use crate::installer::ToolKind;
use crate::reporter::{
    count_of, detector_free_of, detector_lacks, lemma_count_concat, lemma_count_none,
    lemma_slither_sections_markers, lemma_slither_sections_openers, push_slither_sections,
    section_opener, slither_sections,
};
use crate::text::{lemma_calm, lemma_occurrences_concat, occurrences};
use crate::serialize::{SlitherAnalysis, SlitherAnalysisModel};

verus! {

/// The report of an analysis: a title, and below it either one fixed line or
/// one section for each detector, in order.
pub open spec fn markdown_report(analysis: SlitherAnalysisModel) -> Seq<char> {
    if analysis.results.detectors.len() == 0 {
        "# Smart Contract Security Analysis Report\n\n"@ + "✅ No vulnerabilities detected.\n"@
    } else {
        "# Smart Contract Security Analysis Report\n\n"@ + slither_sections(
            analysis.results.detectors,
        )
    }
}

/// Writes the report of an analysis.
pub fn generate_markdown_report(analysis: &SlitherAnalysis) -> (report: String)
    ensures
        report@ == markdown_report(analysis@),
{
    let mut report = String::new();
    report.append("# Smart Contract Security Analysis Report\n\n");
    assert(report@ =~= "# Smart Contract Security Analysis Report\n\n"@);
    if analysis.results.detectors.len() == 0 {
        report.append("✅ No vulnerabilities detected.\n");
        return report;
    }
    push_slither_sections(&mut report, &analysis.results.detectors);
    report
}

/// The report holds the marker as often as there are detectors, where no
/// field of a detector holds it.
pub proof fn lemma_report_markers(analysis: SlitherAnalysisModel)
    requires
        forall|i: int|
            0 <= i < analysis.results.detectors.len() ==> detector_free_of(
                #[trigger] analysis.results.detectors[i],
                '🚨',
            ),
    ensures
        count_of(markdown_report(analysis), '🚨') == analysis.results.detectors.len(),
{
    let title = "# Smart Contract Security Analysis Report\n\n"@;
    let nothing = "✅ No vulnerabilities detected.\n"@;
    reveal_strlit("# Smart Contract Security Analysis Report\n\n");
    reveal_strlit("✅ No vulnerabilities detected.\n");
    lemma_count_none(title, '🚨');
    lemma_count_none(nothing, '🚨');
    if analysis.results.detectors.len() == 0 {
        lemma_count_concat(title, nothing, '🚨');
    } else {
        lemma_slither_sections_markers(analysis.results.detectors);
        lemma_count_concat(title, slither_sections(analysis.results.detectors), '🚨');
    }
}

/// Round trip: scanning the report for section headings finds as many as
/// there are detectors, where no field of a detector holds the text that
/// opens a heading.
pub proof fn lemma_report_round_trip(analysis: SlitherAnalysisModel)
    requires
        forall|i: int|
            0 <= i < analysis.results.detectors.len() ==> detector_lacks(
                #[trigger] analysis.results.detectors[i],
                section_opener(ToolKind::Slither),
            ),
    ensures
        occurrences(section_opener(ToolKind::Slither), markdown_report(analysis))
            == analysis.results.detectors.len(),
{
    let opener = section_opener(ToolKind::Slither);
    let title = "# Smart Contract Security Analysis Report\n\n"@;
    let nothing = "✅ No vulnerabilities detected.\n"@;
    reveal_strlit("## 🚨 ");
    reveal_strlit("# Smart Contract Security Analysis Report\n\n");
    reveal_strlit("✅ No vulnerabilities detected.\n");
    lemma_calm(title, opener, 3);
    lemma_calm(nothing, opener, 3);
    if analysis.results.detectors.len() == 0 {
        lemma_occurrences_concat(opener, title, nothing);
    } else {
        lemma_slither_sections_openers(analysis.results.detectors);
        lemma_occurrences_concat(opener, title, slither_sections(analysis.results.detectors));
    }
}

} // verus!
