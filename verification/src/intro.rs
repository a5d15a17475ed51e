//! The terminal introduction: whether it is shown, and what one frame of
//! its glitch effect puts on the screen.
//!
//! Drawing, timing and the size of the terminal belong to the host.  The
//! random draws are made here, through `rand`, in the order in which the
//! cells are planned.

use rand::rngs::ThreadRng;
use rand::seq::SliceRandom;
use rand::Rng;
use vstd::prelude::*;

verus! {

/// The thread-local generator of `rand`, `rand::rngs::ThreadRng`.  It takes
/// a fresh seed from the operating system from time to time as it is drawn
/// from, and panics should the system fail to give one.
#[verifier::external_type_specification]
#[verifier::external_body]
pub struct ExThreadRng(ThreadRng);

/// `rand::Rng::gen_range` on the half-open range from zero to `bound`.  The
/// range must not be empty, or the call panics; the value drawn lies in the
/// range.
#[verifier::external_body]
fn random_below(rng: &mut ThreadRng, bound: usize) -> (drawn: usize)
    requires
        bound > 0,
    ensures
        drawn < bound,
{
    rng.gen_range(0..bound)
}

/// `rand::Rng::gen_ratio`: a coin that comes up true with the given odds.
/// The denominator must not be zero nor less than the numerator, or the call
/// panics.  Nothing is promised of the outcome.
#[verifier::external_body]
fn random_chance(rng: &mut ThreadRng, numerator: u32, denominator: u32) -> (outcome: bool)
    requires
        0 < denominator,
        numerator <= denominator,
{
    rng.gen_ratio(numerator, denominator)
}

/// `rand::seq::SliceRandom::choose`: one of `items`, or nothing when there
/// is none.
#[verifier::external_body]
fn random_choice(rng: &mut ThreadRng, items: &Vec<&'static str>) -> (chosen: Option<&'static str>)
    ensures
        chosen is None <==> items@.len() == 0,
        chosen matches Some(item) ==> items@.contains(item),
{
    items.choose(rng).copied()
}

/// The intro is skipped when `--debug` or `--skip-intro` is among the
/// arguments.
pub open spec fn spec_skip_intro(args: Seq<String>) -> bool {
    exists|i: int|
        0 <= i < args.len() && (#[trigger] args[i]@ == "--debug"@ || args[i]@
            == "--skip-intro"@)
}

/// Whether the arguments ask to skip the intro.
pub fn skip_intro(args: &Vec<String>) -> (skip: bool)
    ensures
        skip == spec_skip_intro(args@),
{
    let debug = "--debug".to_owned();
    let skip_flag = "--skip-intro".to_owned();
    let mut i: usize = 0;
    while i < args.len()
        invariant
            i <= args.len(),
            debug@ == "--debug"@,
            skip_flag@ == "--skip-intro"@,
            forall|j: int|
                0 <= j < i ==> !(#[trigger] args@[j]@ == "--debug"@ || args@[j]@
                    == "--skip-intro"@),
        decreases args.len() - i,
    {
        if args[i] == debug || args[i] == skip_flag {
            return true;
        }
        i += 1;
    }
    false
}

/// What a cell of the glitch effect shows.
#[derive(Clone, Copy, PartialEq, Eq, Debug)]
pub enum GlitchText {
    /// One block or symbol.
    Glyph(char),
    /// One of the message fragments.
    Fragment(&'static str),
    /// Nothing: there was nothing to choose from.
    Blank,
}

/// One coloured piece of text at a place on the screen.
#[derive(Clone, Copy, PartialEq, Eq, Debug)]
pub struct GlitchCell {
    pub x: u16,
    pub y: u16,
    pub red: u8,
    pub green: u8,
    pub blue: u8,
    pub text: GlitchText,
}

/// The blocks and symbols of the glitch effect.
pub open spec fn spec_glitch_glyphs() -> Seq<char> {
    seq!['▓', '▒', '░', '█', '▄', '▀', '_', '#', '?', '$', '&', '*', '@', '^', '%']
}

/// The blocks and symbols of the glitch effect.
pub fn glitch_glyphs() -> (glyphs: Vec<char>)
    ensures
        glyphs@ == spec_glitch_glyphs(),
{
    vec!['▓', '▒', '░', '█', '▄', '▀', '_', '#', '?', '$', '&', '*', '@', '^', '%']
}

/// The message fragments of the glitch effect.
pub open spec fn spec_glitch_fragments() -> Seq<&'static str> {
    seq![
        "WHEREAREYOU",
        "CAN YOU FEEL IT?",
        "THEY LIED",
        "M1RR0RM1ND",
        "BECOME",
        "DATA_CORRUPT",
        "IDENTITY_LOST",
    ]
}

/// The message fragments of the glitch effect.
pub fn glitch_fragments() -> (fragments: Vec<&'static str>)
    ensures
        fragments@ == spec_glitch_fragments(),
{
    vec![
        "WHEREAREYOU",
        "CAN YOU FEEL IT?",
        "THEY LIED",
        "M1RR0RM1ND",
        "BECOME",
        "DATA_CORRUPT",
        "IDENTITY_LOST",
    ]
}

/// What was drawn for one cell, before it is looked up in the tables.
#[derive(Clone, Copy, PartialEq, Eq, Debug)]
pub struct GlitchDraw {
    pub x: u16,
    pub y: u16,
    pub red: u8,
    pub green: u8,
    pub blue: u8,
    /// How the coin fell: true for a glyph, false for a fragment.
    pub wants_glyph: bool,
    /// The place of the glyph in its table; drawn only for a glyph.
    pub glyph: usize,
    /// The fragment that was chosen; chosen only for a fragment, and then
    /// nothing if there is none to choose.
    pub fragment: Option<&'static str>,
}

/// The draw fits a screen of the given size and tables of the given
/// contents: the place lies on the screen, no colour channel is at its
/// maximum, a glyph lies in its table, and a fragment is one of the
/// fragments and is missing only when there are none.
pub open spec fn draw_fits(
    draw: GlitchDraw,
    width: u16,
    height: u16,
    glyph_count: nat,
    fragments: Seq<&'static str>,
) -> bool {
    &&& draw.x < width
    &&& draw.y < height
    &&& draw.red < 255
    &&& draw.green < 255
    &&& draw.blue < 255
    &&& glyph_count == 0 ==> !draw.wants_glyph
    &&& draw.wants_glyph ==> draw.glyph < glyph_count
    &&& !draw.wants_glyph ==> (draw.fragment is None <==> fragments.len() == 0)
    &&& !draw.wants_glyph ==> (draw.fragment matches Some(fragment) ==> fragments.contains(
        fragment,
    ))
}

/// The cell that a draw stands for: its place and colour, and the glyph at
/// the drawn place of the table, or the chosen fragment, or nothing.
pub open spec fn spec_cell_of_draw(draw: GlitchDraw, glyphs: Seq<char>) -> GlitchCell {
    GlitchCell {
        x: draw.x,
        y: draw.y,
        red: draw.red,
        green: draw.green,
        blue: draw.blue,
        text: if draw.wants_glyph {
            GlitchText::Glyph(glyphs[draw.glyph as int])
        } else {
            match draw.fragment {
                Some(fragment) => GlitchText::Fragment(fragment),
                None => GlitchText::Blank,
            }
        },
    }
}

/// The cell lies on a screen of the given size, no colour channel is at its
/// maximum, and the text comes from the given tables; it is blank only when
/// there are no fragments.
pub open spec fn cell_fits(
    cell: GlitchCell,
    width: u16,
    height: u16,
    glyphs: Seq<char>,
    fragments: Seq<&'static str>,
) -> bool {
    &&& cell.x < width
    &&& cell.y < height
    &&& cell.red < 255
    &&& cell.green < 255
    &&& cell.blue < 255
    &&& match cell.text {
        GlitchText::Glyph(glyph) => glyphs.contains(glyph),
        GlitchText::Fragment(fragment) => fragments.contains(fragment),
        GlitchText::Blank => fragments.len() == 0,
    }
}

/// Draws what one cell needs, in this order: column, row, the three colour
/// channels, then a coin with odds of seven in ten for a glyph, and the
/// glyph's place or the fragment as the coin fell.  Without glyphs no coin
/// is tossed and a fragment is chosen.
pub fn draw_cell(
    rng: &mut ThreadRng,
    width: u16,
    height: u16,
    glyph_count: usize,
    fragments: &Vec<&'static str>,
) -> (draw: GlitchDraw)
    requires
        width > 0,
        height > 0,
    ensures
        draw_fits(draw, width, height, glyph_count as nat, fragments@),
{
    let x = random_below(rng, width as usize) as u16;
    let y = random_below(rng, height as usize) as u16;
    let red = random_below(rng, 255) as u8;
    let green = random_below(rng, 255) as u8;
    let blue = random_below(rng, 255) as u8;
    let wants_glyph = glyph_count > 0 && random_chance(rng, 7, 10);
    let glyph: usize = if wants_glyph { random_below(rng, glyph_count) } else { 0 };
    let fragment = if wants_glyph { None } else { random_choice(rng, fragments) };
    GlitchDraw { x, y, red, green, blue, wants_glyph, glyph, fragment }
}

/// Looks a draw up in the table of glyphs.
pub fn cell_of_draw(draw: GlitchDraw, glyphs: &Vec<char>) -> (cell: GlitchCell)
    requires
        draw.wants_glyph ==> draw.glyph < glyphs@.len(),
    ensures
        cell == spec_cell_of_draw(draw, glyphs@),
{
    let text = if draw.wants_glyph {
        GlitchText::Glyph(glyphs[draw.glyph])
    } else {
        match draw.fragment {
            Some(fragment) => GlitchText::Fragment(fragment),
            None => GlitchText::Blank,
        }
    };
    GlitchCell { x: draw.x, y: draw.y, red: draw.red, green: draw.green, blue: draw.blue, text }
}

/// A draw that fits gives a cell that fits.
pub proof fn fitting_draw_gives_fitting_cell(
    draw: GlitchDraw,
    width: u16,
    height: u16,
    glyphs: Seq<char>,
    fragments: Seq<&'static str>,
)
    requires
        draw_fits(draw, width, height, glyphs.len(), fragments),
    ensures
        cell_fits(spec_cell_of_draw(draw, glyphs), width, height, glyphs, fragments),
{
    if draw.wants_glyph {
        assert(glyphs.contains(glyphs[draw.glyph as int]));
    }
}

/// Draws one cell: a place on the screen, a colour, and with odds of seven
/// in ten a glyph, else a fragment.  Without glyphs it is a fragment, and
/// without fragments either it is blank.
pub fn glitch_cell(
    rng: &mut ThreadRng,
    width: u16,
    height: u16,
    glyphs: &Vec<char>,
    fragments: &Vec<&'static str>,
) -> (cell: GlitchCell)
    requires
        width > 0,
        height > 0,
    ensures
        cell_fits(cell, width, height, glyphs@, fragments@),
{
    let draw = draw_cell(rng, width, height, glyphs.len(), fragments);
    proof {
        fitting_draw_gives_fitting_cell(draw, width, height, glyphs@, fragments@);
    }
    cell_of_draw(draw, glyphs)
}

/// Plans one frame of the glitch effect: `intensity` cells, each drawn
/// afresh, for a terminal of the given size.
pub fn glitch_screen(rng: &mut ThreadRng, intensity: u32, width: u16, height: u16) -> (cells: Vec<
    GlitchCell,
>)
    requires
        intensity > 0 ==> width > 0 && height > 0,
    ensures
        cells@.len() == intensity,
        forall|i: int|
            0 <= i < cells@.len() ==> cell_fits(
                #[trigger] cells@[i],
                width,
                height,
                spec_glitch_glyphs(),
                spec_glitch_fragments(),
            ),
{
    let glyphs = glitch_glyphs();
    let fragments = glitch_fragments();
    let mut cells: Vec<GlitchCell> = Vec::new();
    let mut n: u32 = 0;
    while n < intensity
        invariant
            n <= intensity,
            intensity > 0 ==> width > 0 && height > 0,
            cells@.len() == n,
            glyphs@ == spec_glitch_glyphs(),
            fragments@ == spec_glitch_fragments(),
            forall|i: int|
                0 <= i < cells@.len() ==> cell_fits(
                    #[trigger] cells@[i],
                    width,
                    height,
                    spec_glitch_glyphs(),
                    spec_glitch_fragments(),
                ),
        decreases intensity - n,
    {
        let cell = glitch_cell(rng, width, height, &glyphs, &fragments);
        cells.push(cell);
        n += 1;
    }
    cells
}

} // verus!
