use tidier::config::{custom_tags_ordinal, line_ending_ordinal, step_succeeded, AUTO_STATE};
use tidier::{config_plan, ConfigStep, CustomTags, FormatOptions, LineEnding, OptionId};
use tidier::ConfigStep as S;
use tidier::OptionId as O;

fn golden(xml: bool) -> Vec<ConfigStep> {
    vec![
        S::ResetAll,
        S::SetBool(O::ShowFilename, false),
        S::SetBool(O::ShowInfo, false),
        S::SetBool(O::ShowMetaChange, false),
        S::SetBool(O::CoerceEndTags, false),
        S::SetBool(O::DropEmptyParas, true),
        S::SetBool(O::LowerLiterals, true),
        S::SetBool(O::Mark, false),
        S::SetBool(O::MetaCharset, false),
        S::SetBool(O::Quiet, true),
        S::SetBool(O::XmlTags, xml),
        S::SetBool(O::XmlOut, xml),
        S::SetBool(O::XmlDecl, xml),
        S::SetInt(O::BodyOnly, 2),
        S::SetUtf8Encoding,
        S::SetInt(O::Newline, 0),
        S::SetInt(O::WrapLen, 80),
        S::SetInt(O::UseCustomTags, 1),
        S::SetInt(O::IndentSpaces, 4),
        S::SetInt(O::MergeDivs, 0),
        S::SetInt(O::MergeSpans, 0),
        S::SetInt(O::IndentContent, 1),
        S::SetBool(O::IndentAttributes, false),
        S::SetBool(O::IndentCdata, false),
        S::SetBool(O::PPrintTabs, false),
        S::SetBool(O::JoinStyles, true),
        S::SetBool(O::HideComments, false),
        S::SetBool(O::JoinClasses, false),
        S::SetBool(O::MakeBare, false),
        S::SetBool(O::BreakBeforeBR, false),
    ]
}

#[test]
fn default_plan_matches_golden_table() {
    assert_eq!(config_plan(&FormatOptions::new(), false), golden(false));
    assert_eq!(config_plan(&FormatOptions::new(), true), golden(true));
}

#[test]
fn plan_carries_every_option() {
    let o = FormatOptions::new()
        .eol(LineEnding::Cr)
        .wrap(40)
        .custom_tags(CustomTags::Inline)
        .indent(3)
        .merge_divs(true)
        .tabs(true)
        .strip_comments(true)
        .ascii_symbols(true)
        .br_newline(true);
    let plan = config_plan(&o, false);
    assert_eq!(plan.len(), 30);
    assert!(plan.contains(&ConfigStep::SetInt(OptionId::Newline, 2)));
    assert!(plan.contains(&ConfigStep::SetInt(OptionId::WrapLen, 40)));
    assert!(plan.contains(&ConfigStep::SetInt(OptionId::UseCustomTags, 3)));
    assert!(plan.contains(&ConfigStep::SetInt(OptionId::IndentSpaces, 3)));
    assert!(plan.contains(&ConfigStep::SetInt(OptionId::MergeDivs, 1)));
    assert!(plan.contains(&ConfigStep::SetInt(OptionId::MergeSpans, 0)));
    assert!(plan.contains(&ConfigStep::SetBool(OptionId::PPrintTabs, true)));
    assert!(plan.contains(&ConfigStep::SetBool(OptionId::HideComments, true)));
    assert!(plan.contains(&ConfigStep::SetBool(OptionId::MakeBare, true)));
    assert!(plan.contains(&ConfigStep::SetBool(OptionId::BreakBeforeBR, true)));
}

#[test]
fn zero_width_sets_no_wrapping_for_any_indent() {
    for size in [0u16, 1, 4, 8] {
        for tabs in [false, true] {
            let o = FormatOptions::new().wrap(0).indent(size).tabs(tabs);
            let plan = config_plan(&o, false);
            assert_eq!(plan[16], ConfigStep::SetInt(OptionId::WrapLen, 0));
            let wraps: Vec<&ConfigStep> = plan
                .iter()
                .filter(|s| matches!(s, ConfigStep::SetInt(OptionId::WrapLen, _)))
                .collect();
            assert_eq!(wraps, vec![&ConfigStep::SetInt(OptionId::WrapLen, 0)]);
        }
    }
}

#[test]
fn zero_indent_changes_only_indentation() {
    let base = FormatOptions::new().eol(LineEnding::CrLf).wrap(33);
    let off = config_plan(&base.indent(0), false);
    let on = config_plan(&base.indent(6), false);
    assert_eq!(off.len(), on.len());
    assert_eq!(off[18], ConfigStep::SetInt(OptionId::IndentSpaces, 0));
    assert_eq!(off[21], ConfigStep::SetInt(OptionId::IndentContent, 0));
    assert_eq!(on[18], ConfigStep::SetInt(OptionId::IndentSpaces, 6));
    assert_eq!(on[21], ConfigStep::SetInt(OptionId::IndentContent, 1));
    for i in 0..off.len() {
        if i != 18 && i != 21 {
            assert_eq!(off[i], on[i]);
        }
    }
    assert_eq!(off[15], ConfigStep::SetInt(OptionId::Newline, 1));
    assert_eq!(off[16], ConfigStep::SetInt(OptionId::WrapLen, 33));
}

#[test]
fn engine_ordinals() {
    assert_eq!(line_ending_ordinal(LineEnding::Lf), 0);
    assert_eq!(line_ending_ordinal(LineEnding::CrLf), 1);
    assert_eq!(line_ending_ordinal(LineEnding::Cr), 2);
    assert_eq!(custom_tags_ordinal(CustomTags::No), 0);
    assert_eq!(custom_tags_ordinal(CustomTags::Blocklevel), 1);
    assert_eq!(custom_tags_ordinal(CustomTags::Empty), 2);
    assert_eq!(custom_tags_ordinal(CustomTags::Inline), 3);
    assert_eq!(custom_tags_ordinal(CustomTags::Pre), 4);
    assert_eq!(AUTO_STATE, 2);
}

#[test]
fn step_status_checks() {
    assert!(step_succeeded(&ConfigStep::ResetAll, 1));
    assert!(!step_succeeded(&ConfigStep::ResetAll, 0));
    assert!(step_succeeded(&ConfigStep::SetBool(OptionId::Quiet, true), 1));
    assert!(!step_succeeded(&ConfigStep::SetInt(OptionId::WrapLen, 3), 0));
    assert!(step_succeeded(&ConfigStep::SetUtf8Encoding, 0));
    assert!(!step_succeeded(&ConfigStep::SetUtf8Encoding, 22));
}
