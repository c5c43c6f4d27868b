//! The state of one parsed document apart from the engine handle: its mode,
//! fixed when it is parsed, and its diagnostics log. The caller performs each
//! engine call and hands its results here; this decides what they mean.
use vstd::prelude::*;
use crate::config::{config_plan, config_plan_spec, ConfigStep};
use crate::diagnostics::{is_line_break, lemma_text_has_a_line, lines_of, Diagnostics};
use crate::options::FormatOptions;
use crate::output::{FormatError, Rendered};

verus! {

/// Whether a parse status leaves a document to format: only a severe
/// failure (a negative status) does not; errors and warnings are reported
/// through the diagnostics and by the render.
pub open spec fn parse_ok(status: i32) -> bool {
    status >= 0
}

/// The mode and diagnostics of one document.
pub struct DocState {
    xml: bool,
    diagnostics: Diagnostics,
}

impl DocState {
    /// Whether the document is handled as XML rather than HTML.
    pub closed spec fn mode(&self) -> bool {
        self.xml
    }

    /// Every diagnostic line recorded for the document, in order.
    pub closed spec fn log(&self) -> Seq<Seq<u8>> {
        self.diagnostics@
    }

    /// The state of a document about to be parsed in mode `xml`.
    pub fn new(xml: bool) -> (r: Self)
        ensures
            r.mode() == xml,
            r.log() == Seq::<Seq<u8>>::empty(),
    {
        DocState { xml, diagnostics: Diagnostics::new() }
    }

    /// Whether the document is handled as XML rather than HTML.
    pub fn is_xml(&self) -> (r: bool)
        ensures
            r == self.mode(),
    {
        self.xml
    }

    /// The engine settings to apply before rendering with options `o`.
    pub fn settings(&self, o: &FormatOptions) -> (r: Vec<ConfigStep>)
        ensures
            r@ == config_plan_spec(*o, self.mode()),
    {
        config_plan(o, self.xml)
    }

    /// Takes in the outcome of the parse: its status and the diagnostic text
    /// that it wrote. The document is usable exactly when the status is not
    /// a severe failure.
    pub fn after_parse(&mut self, status: i32, emitted: &Vec<u8>) -> (r: Result<(), FormatError>)
        ensures
            final(self).mode() == old(self).mode(),
            final(self).log() == old(self).log() + lines_of(emitted@),
            r is Ok <==> parse_ok(status),
            r is Err ==> r->Err_0 == FormatError::Engine(status),
    {
        self.diagnostics.record(emitted);
        if status >= 0 {
            Ok(())
        } else {
            Err(FormatError::Engine(status))
        }
    }

    /// Decides what follows the engine's repair pass that ended with status
    /// `repair`: `None` when the document is to be saved, or the status of the
    /// whole render when a severe failure (a negative status) leaves nothing
    /// to save.
    pub fn after_repair(&self, repair: i32) -> (r: Option<i32>)
        ensures
            r is None <==> repair >= 0,
            r is Some ==> r->Some_0 == repair,
    {
        if repair >= 0 {
            None
        } else {
            Some(repair)
        }
    }

    /// Takes in the outcome of a render: its status, the buffer it wrote and
    /// the diagnostic text it wrote. Every output surface is then read from
    /// the one result returned.
    pub fn after_render(&mut self, status: i32, bytes: Vec<u8>, emitted: &Vec<u8>) -> (r: Rendered)
        ensures
            final(self).mode() == old(self).mode(),
            final(self).log() == old(self).log() + lines_of(emitted@),
            r.status == status,
            r.bytes@ == bytes@,
    {
        self.diagnostics.record(emitted);
        Rendered { status, bytes }
    }

    /// Whether any diagnostic has been recorded for the document.
    pub fn has_issues(&self) -> (r: bool)
        ensures
            r == (self.log().len() > 0),
    {
        self.diagnostics.has_issues()
    }

    /// The diagnostics log.
    pub fn diagnostics(&self) -> (r: &Diagnostics)
        ensures
            r@ == self.log(),
    {
        &self.diagnostics
    }
}

/// A diagnostic is never lost: when the text that the engine writes during a
/// parse or a render holds any byte other than a line break, the log after
/// that call is non-empty, so the document has issues, whatever the status
/// and whether the call succeeded or failed.
pub proof fn lemma_written_diagnostic_means_issues(log: Seq<Seq<u8>>, emitted: Seq<u8>, i: int)
    requires
        0 <= i < emitted.len(),
        !is_line_break(emitted[i]),
    ensures
        (log + lines_of(emitted)).len() > 0,
{
    lemma_text_has_a_line(emitted, i);
}

} // verus!
