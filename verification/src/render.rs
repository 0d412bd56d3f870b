use vstd::prelude::*;

use crate::point::Point;

verus! {

/// The colors the game draws with. The terminal backend maps each to its
/// own palette; the game only ever tells them apart.
#[derive(Clone, Copy, Debug, PartialEq, Eq, Structural)]
pub enum Color {
    DarkBlue,
    Magenta,
    White,
}

/// One drawing instruction for the terminal backend. The renderer records
/// the exact sequence of instructions the game issues; the backend replays
/// them in order against the real screen.
#[derive(Debug, PartialEq, Eq)]
pub enum RenderOp {
    /// Acquire the drawing surface: raw input mode on, resize to the given
    /// width and height, hide the cursor.
    Init(u16, u16),
    /// Release the drawing surface: raw input mode off.
    Exit,
    /// Clear the whole screen to the given background color.
    ClearAll(Color),
    /// Clear one row to the given background color.
    ClearLine(u16, Color),
    /// Print one character at a cell, in the given foreground color.
    Glyph(Point, char, Color),
    /// Print a run of characters starting at a cell, in the given color.
    Text(Vec<char>, Point, Color),
}

/// The mathematical shape of one drawing instruction: the same thing as
/// `RenderOp`, with the printed text as a sequence of characters. Contracts
/// speak of these.
pub enum ScreenOp {
    Init(u16, u16),
    Exit,
    ClearAll(Color),
    ClearLine(u16, Color),
    Glyph(Point, char, Color),
    Text(Seq<char>, Point, Color),
}

/// What one recorded instruction means.
pub open spec fn op_view(op: RenderOp) -> ScreenOp {
    match op {
        RenderOp::Init(w, h) => ScreenOp::Init(w, h),
        RenderOp::Exit => ScreenOp::Exit,
        RenderOp::ClearAll(c) => ScreenOp::ClearAll(c),
        RenderOp::ClearLine(y, c) => ScreenOp::ClearLine(y, c),
        RenderOp::Glyph(p, ch, c) => ScreenOp::Glyph(p, ch, c),
        RenderOp::Text(t, p, c) => ScreenOp::Text(t@, p, c),
    }
}

/// What a whole record of instructions means, in order.
pub open spec fn ops_view(ops: Seq<RenderOp>) -> Seq<ScreenOp> {
    ops.map_values(|op: RenderOp| op_view(op))
}

/// The instructions that draw every cell of `points`, in order, with one
/// character and color.
pub open spec fn glyph_run(points: Seq<Point>, character: char, color: Color) -> Seq<ScreenOp> {
    points.map_values(|p: Point| ScreenOp::Glyph(p, character, color))
}

/// The instructions of the first `n` steps of the horizontal pass of a
/// frame: for each column offset, one glyph on the top edge and one on the
/// bottom edge.
pub open spec fn frame_row_ops(
    left: int,
    top: int,
    bottom: int,
    n: int,
    character: char,
    color: Color,
) -> Seq<ScreenOp>
    decreases n,
{
    if n <= 0 {
        Seq::empty()
    } else {
        frame_row_ops(left, top, bottom, n - 1, character, color)
            + seq![
            ScreenOp::Glyph(Point { x: (left + n - 1) as u16, y: top as u16 }, character, color),
            ScreenOp::Glyph(
                Point { x: (left + n - 1) as u16, y: bottom as u16 },
                character,
                color,
            ),
        ]
    }
}

/// The instructions of the first `n` steps of the vertical pass of a frame:
/// for each row offset, one glyph on the left edge and one on the right
/// edge.
pub open spec fn frame_column_ops(
    left: int,
    right: int,
    top: int,
    n: int,
    character: char,
    color: Color,
) -> Seq<ScreenOp>
    decreases n,
{
    if n <= 0 {
        Seq::empty()
    } else {
        frame_column_ops(left, right, top, n - 1, character, color)
            + seq![
            ScreenOp::Glyph(Point { x: left as u16, y: (top + n - 1) as u16 }, character, color),
            ScreenOp::Glyph(Point { x: right as u16, y: (top + n - 1) as u16 }, character, color),
        ]
    }
}

/// All the instructions that draw a rectangular frame with its corner at
/// `from` and the given size: the horizontal pass over every column of the
/// top and bottom edges, both corners included, then the vertical pass over
/// the rows strictly between them on the left and right edges — together a
/// complete one-cell ring.
pub open spec fn frame_ops(from: Point, size: (u16, u16), character: char, color: Color) -> Seq<
    ScreenOp,
> {
    frame_row_ops(from.x as int, from.y as int, from.y + size.1, size.0 + 1, character, color)
        + frame_column_ops(
        from.x as int,
        from.x + size.0,
        from.y as int,
        size.1 as int,
        character,
        color,
    )
}

/// The abstract drawing surface the game draws on. It owns the screen
/// geometry and the two game colors, and records every drawing instruction
/// in order; the terminal backend replays them. Drawing is only allowed
/// between `init` and `exit`.
pub struct Renderer {
    dimensions: (u16, u16),
    background_color: Color,
    foreground_color: Color,
    initialized: bool,
    ops: Vec<RenderOp>,
}

impl View for Renderer {
    type V = Seq<ScreenOp>;

    closed spec fn view(&self) -> Seq<ScreenOp> {
        ops_view(self.ops@)
    }
}

impl Renderer {
    /// Whether the drawing surface is currently acquired.
    pub closed spec fn spec_initialized(&self) -> bool {
        self.initialized
    }

    /// The width and height the surface was created with.
    pub closed spec fn spec_dimensions(&self) -> (u16, u16) {
        self.dimensions
    }

    pub closed spec fn spec_background(&self) -> Color {
        self.background_color
    }

    pub closed spec fn spec_foreground(&self) -> Color {
        self.foreground_color
    }

    /// The configuration (geometry and colors) is fixed at construction;
    /// drawing never changes it.
    pub open spec fn same_config(&self, other: &Renderer) -> bool {
        &&& self.spec_dimensions() == other.spec_dimensions()
        &&& self.spec_background() == other.spec_background()
        &&& self.spec_foreground() == other.spec_foreground()
    }

    pub fn new(dimensions: (u16, u16), background_color: Color, foreground_color: Color) -> (r:
        Self)
        ensures
            r.spec_dimensions() == dimensions,
            r.spec_background() == background_color,
            r.spec_foreground() == foreground_color,
            !r.spec_initialized(),
            r@ == Seq::<ScreenOp>::empty(),
    {
        let r = Self {
            dimensions,
            background_color,
            foreground_color,
            initialized: false,
            ops: Vec::new(),
        };
        proof {
            assert(r@ =~= Seq::<ScreenOp>::empty());
        }
        r
    }

    /// Acquires the drawing surface. Acquiring it twice is a programmer
    /// error, so a second `init` without an `exit` in between is ruled out.
    pub fn init(&mut self)
        requires
            !old(self).spec_initialized(),
        ensures
            final(self).spec_initialized(),
            final(self).same_config(old(self)),
            final(self)@ == old(self)@.push(
                ScreenOp::Init(old(self).spec_dimensions().0, old(self).spec_dimensions().1),
            ),
    {
        self.push_op(RenderOp::Init(self.dimensions.0, self.dimensions.1));
        self.initialized = true;
    }

    /// Releases the drawing surface; no drawing is allowed afterwards.
    pub fn exit(&mut self)
        requires
            old(self).spec_initialized(),
        ensures
            !final(self).spec_initialized(),
            final(self).same_config(old(self)),
            final(self)@ == old(self)@.push(ScreenOp::Exit),
    {
        self.push_op(RenderOp::Exit);
        self.initialized = false;
    }

    /// Clears the whole screen to the background color.
    pub fn clear(&mut self)
        requires
            old(self).spec_initialized(),
        ensures
            final(self).spec_initialized(),
            final(self).same_config(old(self)),
            final(self)@ == old(self)@.push(ScreenOp::ClearAll(old(self).spec_background())),
    {
        let c = self.background_color;
        self.push_op(RenderOp::ClearAll(c));
    }

    /// Clears one row to the background color.
    pub fn clear_line(&mut self, y: u16)
        requires
            old(self).spec_initialized(),
        ensures
            final(self).spec_initialized(),
            final(self).same_config(old(self)),
            final(self)@ == old(self)@.push(ScreenOp::ClearLine(y, old(self).spec_background())),
    {
        let c = self.background_color;
        self.push_op(RenderOp::ClearLine(y, c));
    }

    /// Erases every cell of `points` by drawing a blank over it.
    pub fn clear_points(&mut self, points: &Vec<Point>)
        requires
            old(self).spec_initialized(),
        ensures
            final(self).spec_initialized(),
            final(self).same_config(old(self)),
            final(self)@ == old(self)@ + glyph_run(points@, ' ', old(self).spec_foreground()),
    {
        self.draw_points(points, ' ');
    }

    /// Draws a rectangular frame as a complete ring: first the top and
    /// bottom edges column by column, both corner columns included, then
    /// the left and right edges row by row.
    pub fn draw_rect_frame(&mut self, from: &Point, size: (u16, u16), character: char)
        requires
            old(self).spec_initialized(),
            from.x + size.0 <= u16::MAX,
            from.y + size.1 <= u16::MAX,
        ensures
            final(self).spec_initialized(),
            final(self).same_config(old(self)),
            final(self)@ == old(self)@ + frame_ops(
                *from,
                size,
                character,
                old(self).spec_foreground(),
            ),
    {
        let ghost pre = *self;
        let top = from.y;
        let left = from.x;
        let right = from.x + size.0;
        let bottom = from.y + size.1;

        let mut x = left;
        while x < right
            invariant
                left <= x <= right,
                right == left + size.0,
                bottom == top + size.1,
                self.spec_initialized(),
                self.same_config(&pre),
                self@ == pre@ + frame_row_ops(
                    left as int,
                    top as int,
                    bottom as int,
                    x - left,
                    character,
                    pre.spec_foreground(),
                ),
            decreases right - x,
        {
            self.draw_character_at(Point { x, y: top }, character);
            self.draw_character_at(Point { x, y: bottom }, character);
            proof {
                assert(pre@ + frame_row_ops(
                    left as int,
                    top as int,
                    bottom as int,
                    x - left + 1,
                    character,
                    pre.spec_foreground(),
                ) =~= self@);
            }
            x = x + 1;
        }
        self.draw_character_at(Point { x: right, y: top }, character);
        self.draw_character_at(Point { x: right, y: bottom }, character);
        proof {
            assert(pre@ + frame_row_ops(
                left as int,
                top as int,
                bottom as int,
                size.0 + 1,
                character,
                pre.spec_foreground(),
            ) =~= self@);
        }

        let mut y = top;
        while y < bottom
            invariant
                top <= y <= bottom,
                right == left + size.0,
                bottom == top + size.1,
                self.spec_initialized(),
                self.same_config(&pre),
                self@ == pre@ + frame_row_ops(
                    left as int,
                    top as int,
                    bottom as int,
                    size.0 + 1,
                    character,
                    pre.spec_foreground(),
                ) + frame_column_ops(
                    left as int,
                    right as int,
                    top as int,
                    y - top,
                    character,
                    pre.spec_foreground(),
                ),
            decreases bottom - y,
        {
            self.draw_character_at(Point { x: left, y }, character);
            self.draw_character_at(Point { x: right, y }, character);
            proof {
                assert(pre@ + frame_row_ops(
                    left as int,
                    top as int,
                    bottom as int,
                    size.0 + 1,
                    character,
                    pre.spec_foreground(),
                ) + frame_column_ops(
                    left as int,
                    right as int,
                    top as int,
                    y - top + 1,
                    character,
                    pre.spec_foreground(),
                ) =~= self@);
            }
            y = y + 1;
        }
        proof {
            assert(self@ =~= pre@ + frame_ops(*from, size, character, pre.spec_foreground()));
        }
    }

    /// Draws every cell of `points` with one character.
    pub fn draw_points(&mut self, points: &Vec<Point>, character: char)
        requires
            old(self).spec_initialized(),
        ensures
            final(self).spec_initialized(),
            final(self).same_config(old(self)),
            final(self)@ == old(self)@ + glyph_run(
                points@,
                character,
                old(self).spec_foreground(),
            ),
    {
        let ghost pre = *self;
        let mut i: usize = 0;
        while i < points.len()
            invariant
                i <= points@.len(),
                self.spec_initialized(),
                self.same_config(&pre),
                self@ == pre@ + glyph_run(points@.take(i as int), character, pre.spec_foreground()),
            decreases points@.len() - i,
        {
            self.draw_character_at(points[i], character);
            proof {
                assert(pre@ + glyph_run(points@.take(i + 1), character, pre.spec_foreground())
                    =~= self@);
            }
            i = i + 1;
        }
        proof {
            assert(points@.take(points@.len() as int) =~= points@);
        }
    }

    /// Draws one character at one cell, in the foreground color.
    pub fn draw_point(&mut self, point: &Point, character: char)
        requires
            old(self).spec_initialized(),
        ensures
            final(self).spec_initialized(),
            final(self).same_config(old(self)),
            final(self)@ == old(self)@.push(
                ScreenOp::Glyph(*point, character, old(self).spec_foreground()),
            ),
    {
        self.draw_character_at(*point, character);
    }

    /// Prints a run of characters starting at `at`, in white.
    pub fn draw_text(&mut self, text: &Vec<char>, at: &Point)
        requires
            old(self).spec_initialized(),
        ensures
            final(self).spec_initialized(),
            final(self).same_config(old(self)),
            final(self)@ == old(self)@.push(ScreenOp::Text(text@, *at, Color::White)),
    {
        let mut run: Vec<char> = Vec::new();
        let mut i: usize = 0;
        while i < text.len()
            invariant
                i <= text@.len(),
                run@ == text@.take(i as int),
            decreases text@.len() - i,
        {
            run.push(text[i]);
            proof {
                assert(run@ =~= text@.take(i + 1));
            }
            i = i + 1;
        }
        proof {
            assert(run@ =~= text@);
        }
        self.push_op(RenderOp::Text(run, *at, Color::White));
    }

    /// Hands the recorded instructions to the backend and starts a fresh
    /// record.
    pub fn take_ops(&mut self) -> (r: Vec<RenderOp>)
        ensures
            ops_view(r@) == old(self)@,
            final(self)@ == Seq::<ScreenOp>::empty(),
            final(self).same_config(old(self)),
            final(self).spec_initialized() == old(self).spec_initialized(),
    {
        let mut out: Vec<RenderOp> = Vec::new();
        core::mem::swap(&mut self.ops, &mut out);
        proof {
            assert(self@ =~= Seq::<ScreenOp>::empty());
        }
        out
    }

    fn draw_character_at(&mut self, point: Point, character: char)
        requires
            old(self).spec_initialized(),
        ensures
            final(self).spec_initialized(),
            final(self).same_config(old(self)),
            final(self)@ == old(self)@.push(
                ScreenOp::Glyph(point, character, old(self).spec_foreground()),
            ),
    {
        let c = self.foreground_color;
        self.push_op(RenderOp::Glyph(point, character, c));
    }

    fn push_op(&mut self, op: RenderOp)
        ensures
            final(self)@ == old(self)@.push(op_view(op)),
            final(self).same_config(old(self)),
            final(self).spec_initialized() == old(self).spec_initialized(),
    {
        let ghost pre_ops = self.ops@;
        self.ops.push(op);
        proof {
            assert(ops_view(pre_ops.push(op)) =~= ops_view(pre_ops).push(op_view(op)));
        }
    }
}

} // verus!
