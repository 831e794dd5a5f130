//! The render function: a pure description of the frame that displays the
//! state, as plain styled text, for any drawing area including a degenerate
//! one of zero size.

use vstd::prelude::*;

use crate::state::App;

verus! {

/// How one span of text is to be styled when drawn.
#[derive(Clone, Copy, Debug, PartialEq, Eq, Structural)]
pub enum SpanStyle {
    /// Unstyled text.
    Plain,
    /// Emphasized text: the panel title.
    Emphasis,
    /// An emphasized key hint in the instruction line.
    KeyEmphasis,
    /// The highlighted numeric value in the panel body.
    ValueHighlight,
}

/// One run of characters drawn in a single style.
#[derive(Debug, PartialEq, Eq)]
pub struct TextSpan {
    pub content: String,
    pub style: SpanStyle,
}

/// The drawing area offered to the render function, in character cells.
#[derive(Clone, Copy, Debug, PartialEq, Eq, Structural)]
pub struct ScreenArea {
    pub width: u16,
    pub height: u16,
}

/// Everything the terminal needs to draw one frame: a bordered panel filling
/// the area, a centered title on the top border, a centered instruction line
/// on the bottom border, and one centered body line showing the counter.
#[derive(Debug, PartialEq, Eq)]
pub struct FrameSpec {
    /// The area the panel fills.
    pub area: ScreenArea,
    /// The border uses the heavyweight line-drawing character set.
    pub thick_border: bool,
    /// Title, body and instruction line are centered in the panel.
    pub centered: bool,
    /// The spans of the title on the top border.
    pub title: Vec<TextSpan>,
    /// The spans of the instruction line on the bottom border.
    pub instructions: Vec<TextSpan>,
    /// The spans of the single body line.
    pub body: Vec<TextSpan>,
}

/// The character for one decimal digit.
pub open spec fn spec_digit_char(d: int) -> char {
    if d == 0 {
        '0'
    } else if d == 1 {
        '1'
    } else if d == 2 {
        '2'
    } else if d == 3 {
        '3'
    } else if d == 4 {
        '4'
    } else if d == 5 {
        '5'
    } else if d == 6 {
        '6'
    } else if d == 7 {
        '7'
    } else if d == 8 {
        '8'
    } else {
        '9'
    }
}

/// The decimal string form of a counter value, without leading zeros.
pub open spec fn spec_u8_decimal(n: int) -> Seq<char> {
    if n < 10 {
        seq![spec_digit_char(n)]
    } else if n < 100 {
        seq![spec_digit_char(n / 10), spec_digit_char(n % 10)]
    } else {
        seq![spec_digit_char(n / 100), spec_digit_char((n / 10) % 10), spec_digit_char(n % 10)]
    }
}

/// One decimal digit as a string slice.
fn digit_str(d: u8) -> (s: &'static str)
    requires
        d < 10,
    ensures
        s@ == seq![spec_digit_char(d as int)],
{
    let s: &'static str = match d {
        0 => "0",
        1 => "1",
        2 => "2",
        3 => "3",
        4 => "4",
        5 => "5",
        6 => "6",
        7 => "7",
        8 => "8",
        _ => "9",
    };
    proof {
        reveal_strlit("0");
        reveal_strlit("1");
        reveal_strlit("2");
        reveal_strlit("3");
        reveal_strlit("4");
        reveal_strlit("5");
        reveal_strlit("6");
        reveal_strlit("7");
        reveal_strlit("8");
        reveal_strlit("9");
        assert(s@ =~= seq![spec_digit_char(d as int)]);
    }
    s
}

/// The decimal string form of a counter value.
pub fn u8_to_decimal(n: u8) -> (s: String)
    ensures
        s@ == spec_u8_decimal(n as int),
{
    if n < 10 {
        let s = String::from_str(digit_str(n));
        proof {
            assert(s@ =~= spec_u8_decimal(n as int));
        }
        s
    } else if n < 100 {
        let s = String::from_str(digit_str(n / 10));
        let s = s.concat(digit_str(n % 10));
        proof {
            assert(s@ =~= spec_u8_decimal(n as int));
        }
        s
    } else {
        let s = String::from_str(digit_str(n / 100));
        let s = s.concat(digit_str((n / 10) % 10));
        let s = s.concat(digit_str(n % 10));
        proof {
            assert(s@ =~= spec_u8_decimal(n as int));
        }
        s
    }
}

/// The full render contract: `f` is exactly the frame that displays state `s`
/// in area `area`.
pub open spec fn frame_matches(s: App, area: ScreenArea, f: FrameSpec) -> bool {
    &&& f.area == area
    &&& f.thick_border
    &&& f.centered
    &&& f.title@.len() == 1
    &&& f.title@[0].content@ == " Test "@
    &&& f.title@[0].style == SpanStyle::Emphasis
    &&& f.instructions@.len() == 6
    &&& f.instructions@[0].content@ == " Decrement "@
    &&& f.instructions@[0].style == SpanStyle::Plain
    &&& f.instructions@[1].content@ == "<Left>"@
    &&& f.instructions@[1].style == SpanStyle::KeyEmphasis
    &&& f.instructions@[2].content@ == " Increment "@
    &&& f.instructions@[2].style == SpanStyle::Plain
    &&& f.instructions@[3].content@ == "<Right>"@
    &&& f.instructions@[3].style == SpanStyle::KeyEmphasis
    &&& f.instructions@[4].content@ == " Quit "@
    &&& f.instructions@[4].style == SpanStyle::Plain
    &&& f.instructions@[5].content@ == "<Q> "@
    &&& f.instructions@[5].style == SpanStyle::KeyEmphasis
    &&& f.body@.len() == 2
    &&& f.body@[0].content@ == "Value: "@
    &&& f.body@[0].style == SpanStyle::Plain
    &&& f.body@[1].content@ == spec_u8_decimal(s.counter as int)
    &&& f.body@[1].style == SpanStyle::ValueHighlight
}

/// What one span draws: its characters and its style.
pub open spec fn span_view(t: TextSpan) -> (Seq<char>, SpanStyle) {
    (t.content@, t.style)
}

/// What a line of spans draws, span by span.
pub open spec fn spans_view(v: Seq<TextSpan>) -> Seq<(Seq<char>, SpanStyle)> {
    v.map(|i: int, t: TextSpan| span_view(t))
}

/// Everything a frame description draws: area, border, alignment, and the
/// three lines of styled text.
pub open spec fn frame_view(f: FrameSpec) -> (
    ScreenArea,
    bool,
    bool,
    Seq<(Seq<char>, SpanStyle)>,
    Seq<(Seq<char>, SpanStyle)>,
    Seq<(Seq<char>, SpanStyle)>,
) {
    (
        f.area,
        f.thick_border,
        f.centered,
        spans_view(f.title@),
        spans_view(f.instructions@),
        spans_view(f.body@),
    )
}

/// Rendering is deterministic: two frames that both satisfy the render
/// contract for the same state and area draw exactly the same thing.
pub proof fn lemma_render_deterministic(s: App, area: ScreenArea, f1: FrameSpec, f2: FrameSpec)
    requires
        frame_matches(s, area, f1),
        frame_matches(s, area, f2),
    ensures
        frame_view(f1) == frame_view(f2),
{
    assert(spans_view(f1.title@) =~= spans_view(f2.title@));
    assert(spans_view(f1.instructions@) =~= spans_view(f2.instructions@));
    assert(spans_view(f1.body@) =~= spans_view(f2.body@));
}

impl App {
    /// Describe the frame for this state in the given area. Total over every
    /// area, a zero-size one included: the description itself never fails.
    pub fn render(&self, area: ScreenArea) -> (f: FrameSpec)
        ensures
            frame_matches(*self, area, f),
    {
        let mut title: Vec<TextSpan> = Vec::new();
        title.push(TextSpan { content: String::from_str(" Test "), style: SpanStyle::Emphasis });

        let mut instructions: Vec<TextSpan> = Vec::new();
        instructions.push(
            TextSpan { content: String::from_str(" Decrement "), style: SpanStyle::Plain },
        );
        instructions.push(
            TextSpan { content: String::from_str("<Left>"), style: SpanStyle::KeyEmphasis },
        );
        instructions.push(
            TextSpan { content: String::from_str(" Increment "), style: SpanStyle::Plain },
        );
        instructions.push(
            TextSpan { content: String::from_str("<Right>"), style: SpanStyle::KeyEmphasis },
        );
        instructions.push(
            TextSpan { content: String::from_str(" Quit "), style: SpanStyle::Plain },
        );
        instructions.push(
            TextSpan { content: String::from_str("<Q> "), style: SpanStyle::KeyEmphasis },
        );

        let mut body: Vec<TextSpan> = Vec::new();
        body.push(TextSpan { content: String::from_str("Value: "), style: SpanStyle::Plain });
        body.push(
            TextSpan { content: u8_to_decimal(self.counter), style: SpanStyle::ValueHighlight },
        );

        FrameSpec { area, thick_border: true, centered: true, title, instructions, body }
    }
}

} // verus!
