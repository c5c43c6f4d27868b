//! Translation of formatting options into the ordered list of primitive
//! settings that programs the engine's configuration before each render.
use vstd::prelude::*;
use crate::options::{CustomTags, FormatOptions, Indent, LineEnding};

verus! {

/// The engine options that the translator sets.
#[derive(Debug, Hash, Copy, Clone, PartialEq, Eq, Structural)]
pub enum OptionId {
    ShowFilename,
    ShowInfo,
    ShowMetaChange,
    CoerceEndTags,
    DropEmptyParas,
    LowerLiterals,
    Mark,
    MetaCharset,
    Quiet,
    XmlTags,
    XmlOut,
    XmlDecl,
    BodyOnly,
    Newline,
    WrapLen,
    UseCustomTags,
    IndentSpaces,
    MergeDivs,
    MergeSpans,
    IndentContent,
    IndentAttributes,
    IndentCdata,
    PPrintTabs,
    JoinStyles,
    HideComments,
    JoinClasses,
    MakeBare,
    BreakBeforeBR,
}

/// One primitive call against the engine's configuration.
#[derive(Debug, Hash, Copy, Clone, PartialEq, Eq, Structural)]
pub enum ConfigStep {
    /// Reset every option to the engine's own defaults.
    ResetAll,
    /// Set a boolean option.
    SetBool(OptionId, bool),
    /// Set an integer option.
    SetInt(OptionId, u32),
    /// Set the input and output character encoding to UTF-8.
    SetUtf8Encoding,
}

/// The engine's ordinal of its tri-state "auto" value.
pub const AUTO_STATE: u32 = 2;

/// The engine's ordinal of a line ending.
pub open spec fn line_ending_value(e: LineEnding) -> u32 {
    match e {
        LineEnding::Lf => 0,
        LineEnding::CrLf => 1,
        LineEnding::Cr => 2,
    }
}

/// The engine's ordinal of a custom-tag policy.
pub open spec fn custom_tags_value(c: CustomTags) -> u32 {
    match c {
        CustomTags::No => 0,
        CustomTags::Blocklevel => 1,
        CustomTags::Empty => 2,
        CustomTags::Inline => 3,
        CustomTags::Pre => 4,
    }
}

/// A boolean as the engine's yes/no ordinal.
pub open spec fn flag_value(b: bool) -> u32 {
    if b { 1 } else { 0 }
}

/// The full list of settings for options `o` in mode `xml`, in the order in
/// which they are applied: reset, fixed baseline, mode, encoding, then the
/// caller's options.
pub open spec fn config_plan_spec(o: FormatOptions, xml: bool) -> Seq<ConfigStep> {
    seq![
        ConfigStep::ResetAll,
        ConfigStep::SetBool(OptionId::ShowFilename, false),
        ConfigStep::SetBool(OptionId::ShowInfo, false),
        ConfigStep::SetBool(OptionId::ShowMetaChange, false),
        ConfigStep::SetBool(OptionId::CoerceEndTags, false),
        ConfigStep::SetBool(OptionId::DropEmptyParas, true),
        ConfigStep::SetBool(OptionId::LowerLiterals, true),
        ConfigStep::SetBool(OptionId::Mark, false),
        ConfigStep::SetBool(OptionId::MetaCharset, false),
        ConfigStep::SetBool(OptionId::Quiet, true),
        ConfigStep::SetBool(OptionId::XmlTags, xml),
        ConfigStep::SetBool(OptionId::XmlOut, xml),
        ConfigStep::SetBool(OptionId::XmlDecl, xml),
        ConfigStep::SetInt(OptionId::BodyOnly, AUTO_STATE),
        ConfigStep::SetUtf8Encoding,
        ConfigStep::SetInt(OptionId::Newline, line_ending_value(o.eol)),
        ConfigStep::SetInt(OptionId::WrapLen, o.wrap),
        ConfigStep::SetInt(OptionId::UseCustomTags, custom_tags_value(o.custom_tags)),
        ConfigStep::SetInt(OptionId::IndentSpaces, o.indent.size as u32),
        ConfigStep::SetInt(OptionId::MergeDivs, flag_value(o.merge_divs)),
        ConfigStep::SetInt(OptionId::MergeSpans, flag_value(o.merge_spans)),
        ConfigStep::SetInt(OptionId::IndentContent, flag_value(o.indent.size > 0)),
        ConfigStep::SetBool(OptionId::IndentAttributes, o.indent.attributes),
        ConfigStep::SetBool(OptionId::IndentCdata, o.indent.cdata),
        ConfigStep::SetBool(OptionId::PPrintTabs, o.indent.tabs),
        ConfigStep::SetBool(OptionId::JoinStyles, o.join_styles),
        ConfigStep::SetBool(OptionId::HideComments, o.strip_comments),
        ConfigStep::SetBool(OptionId::JoinClasses, o.join_classes),
        ConfigStep::SetBool(OptionId::MakeBare, o.ascii_symbols),
        ConfigStep::SetBool(OptionId::BreakBeforeBR, o.br_newline),
    ]
}

/// The engine's ordinal of a line ending.
pub fn line_ending_ordinal(e: LineEnding) -> (r: u32)
    ensures
        r == line_ending_value(e),
{
    match e {
        LineEnding::Lf => 0,
        LineEnding::CrLf => 1,
        LineEnding::Cr => 2,
    }
}

/// The engine's ordinal of a custom-tag policy.
pub fn custom_tags_ordinal(c: CustomTags) -> (r: u32)
    ensures
        r == custom_tags_value(c),
{
    match c {
        CustomTags::No => 0,
        CustomTags::Blocklevel => 1,
        CustomTags::Empty => 2,
        CustomTags::Inline => 3,
        CustomTags::Pre => 4,
    }
}

fn flag(b: bool) -> (r: u32)
    ensures
        r == flag_value(b),
{
    if b { 1 } else { 0 }
}

/// Appends one boolean setting for each entry of `table`, in order.
fn push_bool_settings(plan: &mut Vec<ConfigStep>, table: &Vec<(OptionId, bool)>)
    ensures
        final(plan)@ == old(plan)@ + table@.map_values(|e: (OptionId, bool)| ConfigStep::SetBool(e.0, e.1)),
{
    let ghost start = plan@;
    let mut i: usize = 0;
    while i < table.len()
        invariant
            i <= table@.len(),
            plan@ == start + table@.take(i as int).map_values(
                |e: (OptionId, bool)| ConfigStep::SetBool(e.0, e.1),
            ),
        decreases table@.len() - i,
    {
        let (id, value) = table[i];
        plan.push(ConfigStep::SetBool(id, value));
        proof {
            assert(table@.take(i + 1) =~= table@.take(i as int).push(table@[i as int]));
        }
        i = i + 1;
        proof {
            assert(plan@ =~= start + table@.take(i as int).map_values(
                |e: (OptionId, bool)| ConfigStep::SetBool(e.0, e.1),
            ));
        }
    }
    assert(table@.take(i as int) =~= table@);
}

/// Appends one integer setting for each entry of `table`, in order.
fn push_int_settings(plan: &mut Vec<ConfigStep>, table: &Vec<(OptionId, u32)>)
    ensures
        final(plan)@ == old(plan)@ + table@.map_values(|e: (OptionId, u32)| ConfigStep::SetInt(e.0, e.1)),
{
    let ghost start = plan@;
    let mut i: usize = 0;
    while i < table.len()
        invariant
            i <= table@.len(),
            plan@ == start + table@.take(i as int).map_values(
                |e: (OptionId, u32)| ConfigStep::SetInt(e.0, e.1),
            ),
        decreases table@.len() - i,
    {
        let (id, value) = table[i];
        plan.push(ConfigStep::SetInt(id, value));
        proof {
            assert(table@.take(i + 1) =~= table@.take(i as int).push(table@[i as int]));
        }
        i = i + 1;
        proof {
            assert(plan@ =~= start + table@.take(i as int).map_values(
                |e: (OptionId, u32)| ConfigStep::SetInt(e.0, e.1),
            ));
        }
    }
    assert(table@.take(i as int) =~= table@);
}

/// The fixed settings that keep the diagnostic stream and the output shape
/// independent of the engine's own defaults.
pub fn baseline_settings() -> (r: Vec<(OptionId, bool)>)
    ensures
        r@ == seq![
            (OptionId::ShowFilename, false),
            (OptionId::ShowInfo, false),
            (OptionId::ShowMetaChange, false),
            (OptionId::CoerceEndTags, false),
            (OptionId::DropEmptyParas, true),
            (OptionId::LowerLiterals, true),
            (OptionId::Mark, false),
            (OptionId::MetaCharset, false),
            (OptionId::Quiet, true),
        ],
{
    vec![
        (OptionId::ShowFilename, false),
        (OptionId::ShowInfo, false),
        (OptionId::ShowMetaChange, false),
        (OptionId::CoerceEndTags, false),
        (OptionId::DropEmptyParas, true),
        (OptionId::LowerLiterals, true),
        (OptionId::Mark, false),
        (OptionId::MetaCharset, false),
        (OptionId::Quiet, true),
    ]
}

/// The settings that select XML or HTML output.
pub fn mode_settings(xml: bool) -> (r: Vec<(OptionId, bool)>)
    ensures
        r@ == seq![(OptionId::XmlTags, xml), (OptionId::XmlOut, xml), (OptionId::XmlDecl, xml)],
{
    vec![(OptionId::XmlTags, xml), (OptionId::XmlOut, xml), (OptionId::XmlDecl, xml)]
}

/// The caller's integer-valued options, as engine settings.
pub fn int_settings(o: &FormatOptions) -> (r: Vec<(OptionId, u32)>)
    ensures
        r@ == seq![
            (OptionId::Newline, line_ending_value(o.eol)),
            (OptionId::WrapLen, o.wrap),
            (OptionId::UseCustomTags, custom_tags_value(o.custom_tags)),
            (OptionId::IndentSpaces, o.indent.size as u32),
            (OptionId::MergeDivs, flag_value(o.merge_divs)),
            (OptionId::MergeSpans, flag_value(o.merge_spans)),
            (OptionId::IndentContent, flag_value(o.indent.size > 0)),
        ],
{
    vec![
        (OptionId::Newline, line_ending_ordinal(o.eol)),
        (OptionId::WrapLen, o.wrap),
        (OptionId::UseCustomTags, custom_tags_ordinal(o.custom_tags)),
        (OptionId::IndentSpaces, o.indent.size as u32),
        (OptionId::MergeDivs, flag(o.merge_divs)),
        (OptionId::MergeSpans, flag(o.merge_spans)),
        (OptionId::IndentContent, flag(o.indent.size > 0)),
    ]
}

/// The caller's boolean options, as engine settings.
pub fn bool_settings(o: &FormatOptions) -> (r: Vec<(OptionId, bool)>)
    ensures
        r@ == seq![
            (OptionId::IndentAttributes, o.indent.attributes),
            (OptionId::IndentCdata, o.indent.cdata),
            (OptionId::PPrintTabs, o.indent.tabs),
            (OptionId::JoinStyles, o.join_styles),
            (OptionId::HideComments, o.strip_comments),
            (OptionId::JoinClasses, o.join_classes),
            (OptionId::MakeBare, o.ascii_symbols),
            (OptionId::BreakBeforeBR, o.br_newline),
        ],
{
    vec![
        (OptionId::IndentAttributes, o.indent.attributes),
        (OptionId::IndentCdata, o.indent.cdata),
        (OptionId::PPrintTabs, o.indent.tabs),
        (OptionId::JoinStyles, o.join_styles),
        (OptionId::HideComments, o.strip_comments),
        (OptionId::JoinClasses, o.join_classes),
        (OptionId::MakeBare, o.ascii_symbols),
        (OptionId::BreakBeforeBR, o.br_newline),
    ]
}

/// The settings to apply before rendering a document in mode `xml` with
/// options `o`, in order.
pub fn config_plan(o: &FormatOptions, xml: bool) -> (r: Vec<ConfigStep>)
    ensures
        r@ == config_plan_spec(*o, xml),
{
    let ghost full = config_plan_spec(*o, xml);
    let mut plan: Vec<ConfigStep> = Vec::new();
    plan.push(ConfigStep::ResetAll);
    let baseline = baseline_settings();
    push_bool_settings(&mut plan, &baseline);
    assert(plan@ =~= full.take(10));
    let mode = mode_settings(xml);
    push_bool_settings(&mut plan, &mode);
    assert(plan@ =~= full.take(13));
    plan.push(ConfigStep::SetInt(OptionId::BodyOnly, AUTO_STATE));
    plan.push(ConfigStep::SetUtf8Encoding);
    assert(plan@ =~= full.take(15));
    let ints = int_settings(o);
    push_int_settings(&mut plan, &ints);
    assert(plan@ =~= full.take(22));
    let bools = bool_settings(o);
    push_bool_settings(&mut plan, &bools);
    assert(plan@ =~= full);
    plan
}

/// The status by which the engine reports that `step` succeeded: its
/// setters answer with a true boolean (`1`), its encoding call with `0`.
pub open spec fn success_status(step: ConfigStep) -> i32 {
    match step {
        ConfigStep::SetUtf8Encoding => 0,
        _ => 1,
    }
}

/// Whether the engine's answer `status` to `step` reports success.
pub fn step_succeeded(step: &ConfigStep, status: i32) -> (r: bool)
    ensures
        r == (status == success_status(*step)),
{
    match step {
        ConfigStep::SetUtf8Encoding => status == 0,
        _ => status == 1,
    }
}

/// Whether `step` sets the engine option `id`.
pub open spec fn sets_option(step: ConfigStep, id: OptionId) -> bool {
    match step {
        ConfigStep::SetBool(i, _) => i == id,
        ConfigStep::SetInt(i, _) => i == id,
        _ => false,
    }
}

/// A line width of zero disables wrapping whatever the indentation and the
/// other options: the plan sets the engine's wrap length to zero, and never to
/// another value.
pub proof fn lemma_zero_width_disables_wrapping(o: FormatOptions, xml: bool)
    requires
        o.wrap == 0,
    ensures
        config_plan_spec(o, xml).contains(ConfigStep::SetInt(OptionId::WrapLen, 0)),
        forall|i: int|
            0 <= i < config_plan_spec(o, xml).len() && sets_option(
                #[trigger] config_plan_spec(o, xml)[i],
                OptionId::WrapLen,
            ) ==> config_plan_spec(o, xml)[i] == ConfigStep::SetInt(OptionId::WrapLen, 0),
{
    let p = config_plan_spec(o, xml);
    assert(p[16] == ConfigStep::SetInt(OptionId::WrapLen, 0));
}

/// An indentation width of zero turns indentation off and changes nothing
/// else: the plan sets the indent width and content indentation to zero, and
/// every other setting, the line ending and the wrap length among them, is
/// the one that the same options with any other width give.
pub proof fn lemma_zero_indent_only_disables_indentation(o: FormatOptions, xml: bool, size: u16)
    requires
        o.indent.size == 0,
    ensures
        config_plan_spec(o, xml).contains(ConfigStep::SetInt(OptionId::IndentSpaces, 0)),
        config_plan_spec(o, xml).contains(ConfigStep::SetInt(OptionId::IndentContent, 0)),
        config_plan_spec(o, xml).len() == config_plan_spec(
            (FormatOptions { indent: (Indent { size, ..o.indent }), ..o }),
            xml,
        ).len(),
        forall|i: int|
            0 <= i < config_plan_spec(o, xml).len() && !sets_option(
                #[trigger] config_plan_spec(o, xml)[i],
                OptionId::IndentSpaces,
            ) && !sets_option(config_plan_spec(o, xml)[i], OptionId::IndentContent)
                ==> config_plan_spec(o, xml)[i] == config_plan_spec(
                (FormatOptions { indent: (Indent { size, ..o.indent }), ..o }),
                xml,
            )[i],
{
    let p = config_plan_spec(o, xml);
    let q = config_plan_spec((FormatOptions { indent: (Indent { size, ..o.indent }), ..o }), xml);
    assert(p[18] == ConfigStep::SetInt(OptionId::IndentSpaces, 0));
    assert(p[21] == ConfigStep::SetInt(OptionId::IndentContent, 0));
    assert(p =~= q.update(18, p[18]).update(21, p[21]));
    assert forall|i: int|
        0 <= i < p.len() && !sets_option(#[trigger] p[i], OptionId::IndentSpaces) && !sets_option(
            p[i],
            OptionId::IndentContent,
        ) implies p[i] == q[i] by {
        assert(i != 18 && i != 21);
        assert(p[i] == q.update(18, p[18]).update(21, p[21])[i]);
    }
}

} // verus!
