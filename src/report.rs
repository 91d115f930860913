//! Display lines: what each line of a report says, and in which tone its value is
//! shown. Painting the tones on a terminal is left to the caller.
use vstd::prelude::*;

verus! {

/// The tone a value is shown in.
#[derive(Debug, Clone, Copy, PartialEq, Eq, Structural)]
pub enum Tone {
    Plain,
    White,
    Green,
    Red,
    Magenta,
    Blue,
    Yellow,
    Rgb(u8, u8, u8),
}

/// One report line: indentation level, a label shown in bold, and a value in a tone.
pub struct Line {
    pub indent: u8,
    pub label: String,
    pub value: String,
    pub tone: Tone,
}

/// The view of one report line: indentation level, label, value and tone.
pub type LineView = (nat, Seq<char>, Seq<char>, Tone);

impl View for Line {
    type V = LineView;

    open spec fn view(&self) -> LineView {
        (self.indent as nat, self.label@, self.value@, self.tone)
    }
}

/// The views of a sequence of lines.
pub open spec fn lines_view(v: Seq<Line>) -> Seq<LineView> {
    v.map_values(|l: Line| l@)
}

/// Green for a set flag, red for a cleared one.
pub open spec fn flag_tone(b: bool) -> Tone {
    if b {
        Tone::Green
    } else {
        Tone::Red
    }
}

pub fn tone_of_flag(b: bool) -> (r: Tone)
    ensures
        r == flag_tone(b),
{
    if b {
        Tone::Green
    } else {
        Tone::Red
    }
}

pub fn line(indent: u8, label: &str, value: String, tone: Tone) -> (r: Line)
    ensures
        r@ == (indent as nat, label@, value@, tone),
{
    Line { indent, label: label.to_string(), value, tone }
}

proof fn lemma_lines_view_push(v: Seq<Line>, l: Line)
    ensures
        lines_view(v.push(l)) == lines_view(v).push(l@),
{
    assert(lines_view(v.push(l)) =~= lines_view(v).push(l@));
}

proof fn lemma_lines_view_add(a: Seq<Line>, b: Seq<Line>)
    ensures
        lines_view(a + b) == lines_view(a) + lines_view(b),
{
    assert(lines_view(a + b) =~= lines_view(a) + lines_view(b));
}

/// Appends a line to a report.
pub fn push_line(v: &mut Vec<Line>, l: Line)
    ensures
        lines_view(final(v)@) == lines_view(old(v)@).push(l@),
{
    proof {
        lemma_lines_view_push(old(v)@, l);
    }
    v.push(l);
}

/// Appends the lines of another report.
pub fn append_lines(v: &mut Vec<Line>, mut more: Vec<Line>)
    ensures
        lines_view(final(v)@) == lines_view(old(v)@) + lines_view(more@),
{
    proof {
        lemma_lines_view_add(old(v)@, more@);
    }
    v.append(&mut more);
}

} // verus!
