//! Collection of the engine's diagnostics: the free-form text that the engine
//! writes while parsing and rendering becomes an ordered log of lines.
use vstd::prelude::*;

verus! {

/// Whether byte `b` ends a line (line feed or carriage return).
pub open spec fn is_line_break(b: u8) -> bool {
    b == 10 || b == 13
}

/// Splitting `s` from the left: the lines completed so far and the bytes of
/// the line still open. A line break that closes no byte makes no line, so
/// `\r\n` ends one line and blank lines are dropped.
pub open spec fn split_state(s: Seq<u8>) -> (Seq<Seq<u8>>, Seq<u8>)
    decreases s.len(),
{
    if s.len() == 0 {
        (seq![], seq![])
    } else {
        let prev = split_state(s.drop_last());
        if is_line_break(s.last()) {
            if prev.1.len() > 0 {
                (prev.0.push(prev.1), seq![])
            } else {
                (prev.0, seq![])
            }
        } else {
            (prev.0, prev.1.push(s.last()))
        }
    }
}

/// The non-empty lines of `s`, in order, without their line breaks; a last
/// line without a break counts too.
pub open spec fn lines_of(s: Seq<u8>) -> Seq<Seq<u8>> {
    let st = split_state(s);
    if st.1.len() > 0 {
        st.0.push(st.1)
    } else {
        st.0
    }
}

/// The contents of a list of byte vectors.
pub open spec fn views_of(v: Seq<Vec<u8>>) -> Seq<Seq<u8>> {
    v.map_values(|l: Vec<u8>| l@)
}

/// Splitting never loses text: once the bytes hold anything but line breaks,
/// the open line or the completed lines are non-empty.
proof fn lemma_split_state_nonempty(s: Seq<u8>, i: int)
    requires
        0 <= i < s.len(),
        !is_line_break(s[i]),
    ensures
        split_state(s).0.len() > 0 || split_state(s).1.len() > 0,
    decreases s.len(),
{
    if !is_line_break(s.last()) {
    } else {
        assert(i < s.len() - 1);
        assert(s.drop_last()[i] == s[i]);
        lemma_split_state_nonempty(s.drop_last(), i);
    }
}

/// Text holding any byte other than a line break has at least one line.
pub proof fn lemma_text_has_a_line(s: Seq<u8>, i: int)
    requires
        0 <= i < s.len(),
        !is_line_break(s[i]),
    ensures
        lines_of(s).len() > 0,
{
    lemma_split_state_nonempty(s, i);
}

/// Splits the engine's diagnostic text into its non-empty lines, in order.
pub fn split_lines(text: &Vec<u8>) -> (r: Vec<Vec<u8>>)
    ensures
        views_of(r@) == lines_of(text@),
{
    let mut lines: Vec<Vec<u8>> = Vec::new();
    let mut cur: Vec<u8> = Vec::new();
    let mut i: usize = 0;
    while i < text.len()
        invariant
            i <= text@.len(),
            views_of(lines@) == split_state(text@.take(i as int)).0,
            cur@ == split_state(text@.take(i as int)).1,
        decreases text@.len() - i,
    {
        let b = text[i];
        proof {
            assert(text@.take(i + 1).drop_last() =~= text@.take(i as int));
            assert(text@.take(i + 1).last() == b);
        }
        if b == 10 || b == 13 {
            if cur.len() > 0 {
                let ghost before = lines@;
                lines.push(cur);
                cur = Vec::new();
                proof {
                    assert(views_of(lines@) =~= views_of(before).push(
                        split_state(text@.take(i as int)).1,
                    ));
                }
            }
        } else {
            cur.push(b);
        }
        i = i + 1;
    }
    assert(text@.take(i as int) =~= text@);
    if cur.len() > 0 {
        let ghost before = lines@;
        lines.push(cur);
        assert(views_of(lines@) =~= views_of(before).push(split_state(text@).1));
    }
    lines
}

/// The ordered log of diagnostic lines of one document. Lines are kept
/// verbatim, duplicates included, and never removed.
pub struct Diagnostics {
    lines: Vec<Vec<u8>>,
}

impl View for Diagnostics {
    type V = Seq<Seq<u8>>;

    closed spec fn view(&self) -> Seq<Seq<u8>> {
        views_of(self.lines@)
    }
}

impl Diagnostics {
    /// An empty log.
    pub fn new() -> (r: Self)
        ensures
            r@ == Seq::<Seq<u8>>::empty(),
    {
        let r = Diagnostics { lines: Vec::new() };
        assert(r@ =~= Seq::<Seq<u8>>::empty());
        r
    }

    /// Appends the lines of the engine's diagnostic text `emitted`, in the
    /// order in which they were written.
    pub fn record(&mut self, emitted: &Vec<u8>)
        ensures
            final(self)@ == old(self)@ + lines_of(emitted@),
    {
        let mut new_lines = split_lines(emitted);
        let ghost before = self.lines@;
        let ghost added = new_lines@;
        self.lines.append(&mut new_lines);
        assert(views_of(self.lines@) =~= views_of(before) + views_of(added));
    }

    /// Whether any diagnostic has been recorded.
    pub fn has_issues(&self) -> (r: bool)
        ensures
            r == (self@.len() > 0),
    {
        self.lines.len() > 0
    }

    /// The number of recorded lines.
    pub fn len(&self) -> (r: usize)
        ensures
            r == self@.len(),
    {
        self.lines.len()
    }

    /// The recorded lines, in order.
    pub fn lines(&self) -> (r: &Vec<Vec<u8>>)
        ensures
            views_of(r@) == self@,
    {
        &self.lines
    }
}

} // verus!
