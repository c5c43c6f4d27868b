use tidier::{CustomTags, FormatOptions, Indent, LineEnding};

#[test]
fn defaults_are_documented_values() {
    let o = FormatOptions::new();
    assert_eq!(o.indent.size, 4);
    assert!(!o.indent.tabs);
    assert!(!o.indent.attributes);
    assert!(!o.indent.cdata);
    assert_eq!(o.eol, LineEnding::Lf);
    assert_eq!(o.wrap, 80);
    assert_eq!(o.custom_tags, CustomTags::Blocklevel);
    assert!(!o.ascii_symbols);
    assert!(!o.strip_comments);
    assert!(!o.join_classes);
    assert!(o.join_styles);
    assert!(!o.br_newline);
    assert!(!o.merge_divs);
    assert!(!o.merge_spans);
    assert_eq!(o, FormatOptions::default());
    assert_eq!(Indent::new(), Indent::default());
    assert_eq!(o.indent, Indent::new());
}

#[test]
fn setters_return_a_changed_copy() {
    let base = FormatOptions::new();
    let changed = base
        .eol(LineEnding::CrLf)
        .wrap(0)
        .custom_tags(CustomTags::Pre)
        .ascii_symbols(true)
        .strip_comments(true)
        .join_classes(true)
        .join_styles(false)
        .br_newline(true)
        .merge_divs(true)
        .merge_spans(true)
        .indent(2)
        .tabs(true)
        .indent_attributes(true)
        .indent_cdata(true);
    assert_eq!(base, FormatOptions::new());
    assert_eq!(changed.eol, LineEnding::CrLf);
    assert_eq!(changed.wrap, 0);
    assert_eq!(changed.custom_tags, CustomTags::Pre);
    assert!(changed.ascii_symbols);
    assert!(changed.strip_comments);
    assert!(changed.join_classes);
    assert!(!changed.join_styles);
    assert!(changed.br_newline);
    assert!(changed.merge_divs);
    assert!(changed.merge_spans);
    assert_eq!(
        changed.indent,
        Indent { size: 2, tabs: true, attributes: true, cdata: true }
    );
}

#[test]
fn setter_changes_only_its_field() {
    let base = FormatOptions::new();
    let o = base.wrap(120);
    assert_eq!(FormatOptions { wrap: 80, ..o }, base);
    let o = base.indent(0);
    assert_eq!(o.indent.size, 0);
    assert_eq!(FormatOptions { indent: Indent::new(), ..o }, base);
}
