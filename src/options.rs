//! The user-facing formatting options: plain, immutable values with
//! documented defaults and "with-change" operations that return a new value.
use vstd::prelude::*;

verus! {

/// The line ending to use while formatting.
#[derive(Debug, Hash, Copy, Clone, PartialEq, Eq, Structural, PartialOrd, Ord)]
pub enum LineEnding {
    /// Line feed (`\n`).
    Lf,
    /// Carriage return (`\r`).
    Cr,
    /// Carriage return followed by line feed (`\r\n`).
    CrLf,
}

/// What to do with autonomous custom tags (tag names that contain a dash).
#[derive(Debug, Hash, Copy, Clone, PartialEq, Eq, Structural)]
pub enum CustomTags {
    /// Custom tags are not allowed: an unknown tag is an error.
    No,
    /// Custom tags are treated as block-level elements.
    Blocklevel,
    /// Custom tags are treated as empty elements.
    Empty,
    /// Custom tags are treated as inline elements.
    Inline,
    /// Custom tags are treated as preformatted elements.
    Pre,
}

/// Indentation options for formatting.
#[derive(Debug, Hash, Copy, Clone, PartialEq, Eq, Structural, PartialOrd, Ord)]
pub struct Indent {
    /// Width of one level of indentation; `0` turns indentation off.
    /// The default is `4`.
    pub size: u16,
    /// Use hard tabs (`\t`) for indentation. The default is `false`.
    pub tabs: bool,
    /// Add a newline and indent before each attribute. The default is `false`.
    pub attributes: bool,
    /// Indent the contents of `<![CDATA[...]]>` sections. The default is `false`.
    pub cdata: bool,
}

/// Formatting options.
#[derive(Debug, Hash, Copy, Clone, PartialEq, Eq, Structural)]
pub struct FormatOptions {
    /// Options that control line indentation.
    pub indent: Indent,
    /// The line ending to use. The default is [`LineEnding::Lf`].
    pub eol: LineEnding,
    /// The maximum line width; `0` disables line wrapping. The default is `80`.
    pub wrap: u32,
    /// What to do with autonomous custom tags.
    /// The default is [`CustomTags::Blocklevel`].
    pub custom_tags: CustomTags,
    /// Replace smart quotes, em dashes and the like with ASCII equivalents.
    /// The default is `false`.
    pub ascii_symbols: bool,
    /// Remove all comments from the document. The default is `false`.
    pub strip_comments: bool,
    /// Join multiple class attributes into one. The default is `false`.
    pub join_classes: bool,
    /// Join multiple style attributes into one. The default is `true`.
    pub join_styles: bool,
    /// Add a newline after a hard line break (`<br>`). The default is `false`.
    pub br_newline: bool,
    /// Merge nested `<div>` elements. The default is `false`.
    pub merge_divs: bool,
    /// Merge nested `<span>` elements. The default is `false`.
    pub merge_spans: bool,
}

/// The default indentation: four columns, spaces, nothing else indented.
pub open spec fn default_indent() -> Indent {
    Indent { size: 4, tabs: false, attributes: false, cdata: false }
}

/// The default options.
pub open spec fn default_options() -> FormatOptions {
    FormatOptions {
        indent: default_indent(),
        eol: LineEnding::Lf,
        wrap: 80,
        custom_tags: CustomTags::Blocklevel,
        ascii_symbols: false,
        strip_comments: false,
        join_classes: false,
        join_styles: true,
        br_newline: false,
        merge_divs: false,
        merge_spans: false,
    }
}

impl Indent {
    /// The default indentation.
    pub fn new() -> (r: Self)
        ensures
            r == default_indent(),
    {
        Indent { size: 4, tabs: false, attributes: false, cdata: false }
    }
}

impl Default for Indent {
    fn default() -> (r: Self)
        ensures
            r == default_indent(),
    {
        Self::new()
    }
}

impl FormatOptions {
    /// The default options.
    pub fn new() -> (r: Self)
        ensures
            r == default_options(),
    {
        FormatOptions {
            indent: Indent::new(),
            eol: LineEnding::Lf,
            wrap: 80,
            custom_tags: CustomTags::Blocklevel,
            ascii_symbols: false,
            strip_comments: false,
            join_classes: false,
            join_styles: true,
            br_newline: false,
            merge_divs: false,
            merge_spans: false,
        }
    }
}

impl Default for FormatOptions {
    fn default() -> (r: Self)
        ensures
            r == default_options(),
    {
        Self::new()
    }
}

impl FormatOptions {
    /// Returns these options with the line ending set to `eol`; `self` is left as it is.
    pub fn eol(self, eol: LineEnding) -> (r: Self)
        ensures
            r == (FormatOptions { eol: eol, ..self }),
    {
        FormatOptions { eol: eol, ..self }
    }

    /// Returns these options with the maximum line width (`0` disables wrapping) set to `wrap`; `self` is left as it is.
    pub fn wrap(self, wrap: u32) -> (r: Self)
        ensures
            r == (FormatOptions { wrap: wrap, ..self }),
    {
        FormatOptions { wrap: wrap, ..self }
    }

    /// Returns these options with the handling of autonomous custom tags set to `behavior`; `self` is left as it is.
    pub fn custom_tags(self, behavior: CustomTags) -> (r: Self)
        ensures
            r == (FormatOptions { custom_tags: behavior, ..self }),
    {
        FormatOptions { custom_tags: behavior, ..self }
    }

    /// Returns these options with whether typographic symbols become ASCII set to `convert`; `self` is left as it is.
    pub fn ascii_symbols(self, convert: bool) -> (r: Self)
        ensures
            r == (FormatOptions { ascii_symbols: convert, ..self }),
    {
        FormatOptions { ascii_symbols: convert, ..self }
    }

    /// Returns these options with whether comments are removed set to `yes`; `self` is left as it is.
    pub fn strip_comments(self, yes: bool) -> (r: Self)
        ensures
            r == (FormatOptions { strip_comments: yes, ..self }),
    {
        FormatOptions { strip_comments: yes, ..self }
    }

    /// Returns these options with whether class attributes are joined set to `yes`; `self` is left as it is.
    pub fn join_classes(self, yes: bool) -> (r: Self)
        ensures
            r == (FormatOptions { join_classes: yes, ..self }),
    {
        FormatOptions { join_classes: yes, ..self }
    }

    /// Returns these options with whether style attributes are joined set to `yes`; `self` is left as it is.
    pub fn join_styles(self, yes: bool) -> (r: Self)
        ensures
            r == (FormatOptions { join_styles: yes, ..self }),
    {
        FormatOptions { join_styles: yes, ..self }
    }

    /// Returns these options with whether a newline follows `<br>` set to `yes`; `self` is left as it is.
    pub fn br_newline(self, yes: bool) -> (r: Self)
        ensures
            r == (FormatOptions { br_newline: yes, ..self }),
    {
        FormatOptions { br_newline: yes, ..self }
    }

    /// Returns these options with whether nested `<div>` elements are merged set to `yes`; `self` is left as it is.
    pub fn merge_divs(self, yes: bool) -> (r: Self)
        ensures
            r == (FormatOptions { merge_divs: yes, ..self }),
    {
        FormatOptions { merge_divs: yes, ..self }
    }

    /// Returns these options with whether nested `<span>` elements are merged set to `yes`; `self` is left as it is.
    pub fn merge_spans(self, yes: bool) -> (r: Self)
        ensures
            r == (FormatOptions { merge_spans: yes, ..self }),
    {
        FormatOptions { merge_spans: yes, ..self }
    }

    /// Returns these options with the indentation width (`0` disables indentation) set to `size`; `self` is left as it is.
    pub fn indent(self, size: u16) -> (r: Self)
        ensures
            r == (FormatOptions { indent: Indent { size: size, ..self.indent }, ..self }),
    {
        FormatOptions { indent: Indent { size: size, ..self.indent }, ..self }
    }

    /// Returns these options with whether indentation uses hard tabs set to `use_tabs`; `self` is left as it is.
    pub fn tabs(self, use_tabs: bool) -> (r: Self)
        ensures
            r == (FormatOptions { indent: Indent { tabs: use_tabs, ..self.indent }, ..self }),
    {
        FormatOptions { indent: Indent { tabs: use_tabs, ..self.indent }, ..self }
    }

    /// Returns these options with whether each attribute goes on a line of its own set to `yes`; `self` is left as it is.
    pub fn indent_attributes(self, yes: bool) -> (r: Self)
        ensures
            r == (FormatOptions { indent: Indent { attributes: yes, ..self.indent }, ..self }),
    {
        FormatOptions { indent: Indent { attributes: yes, ..self.indent }, ..self }
    }

    /// Returns these options with whether CDATA sections are indented set to `yes`; `self` is left as it is.
    pub fn indent_cdata(self, yes: bool) -> (r: Self)
        ensures
            r == (FormatOptions { indent: Indent { cdata: yes, ..self.indent }, ..self }),
    {
        FormatOptions { indent: Indent { cdata: yes, ..self.indent }, ..self }
    }
}

} // verus!
