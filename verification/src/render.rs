use vstd::prelude::*;
use crate::geometry::{Rect, COORD_LIMIT};

verus! {

/// An RGBA color, one byte per channel.
#[derive(Clone, Copy, PartialEq, Eq, Structural, Debug)]
pub struct Color {
    pub r: u8,
    pub g: u8,
    pub b: u8,
    pub a: u8,
}

impl Color {
    /// A fully opaque color from its red, green and blue channels.
    #[allow(non_snake_case)]
    pub fn RGB(r: u8, g: u8, b: u8) -> (c: Color)
        ensures
            c == (Color { r, g, b, a: 255u8 }),
    {
        Color { r, g, b, a: 255 }
    }
}

/// The style a string is rasterized in. Styles combine freely, so each is
/// an independent flag; all flags off is the regular style.
#[derive(Clone, Copy, PartialEq, Eq, Structural, Debug, Hash)]
pub struct FontStyle {
    pub bold: bool,
    pub italic: bool,
    pub underline: bool,
    pub strikethrough: bool,
}

impl FontStyle {
    /// The regular style: no flag set.
    pub fn normal() -> (s: FontStyle)
        ensures
            s == (FontStyle { bold: false, italic: false, underline: false, strikethrough: false }),
    {
        FontStyle { bold: false, italic: false, underline: false, strikethrough: false }
    }
}

/// One drawing operation of a frame. A frame render produces an ordered
/// list of these; whoever owns the real surface replays them in order.
#[derive(PartialEq, Debug)]
pub enum DrawCommand {
    /// Select the color that `Clear` and `FillRect` paint with.
    SetDrawColor(Color),
    /// Fill the whole surface with the draw color.
    Clear,
    /// Fill one rectangle, in viewport-relative coordinates, with the draw
    /// color.
    FillRect(Rect),
    /// Narrow drawing to the given region and make its top-left corner the
    /// origin for subsequent commands; `None` restores the whole surface.
    SetViewport(Option<Rect>),
    /// Rasterize `text` at the given size, style and color and blit the
    /// result into `dest`, in viewport-relative coordinates.
    CopyText { text: String, font_size: u16, style: FontStyle, color: Color, dest: Rect },
    /// Show the finished frame.
    Present,
}

/// One string a frame needs rasterized, with its font parameters: what the
/// font engine is asked for ahead of the render pass.
pub struct TextRequest {
    pub text: String,
    pub font_size: u16,
    pub style: FontStyle,
}

/// One rasterization the font engine was asked for: the string, the font
/// parameters, and either the measured surface dimensions or the error the
/// rasterizer reported.
pub struct RasterEntry {
    pub text: String,
    pub font_size: u16,
    pub style: FontStyle,
    pub result: Result<(u32, u32), String>,
}

impl RasterEntry {
    /// A successful rasterization's dimensions stay within the coordinate
    /// bound, so layout arithmetic over them cannot overflow.
    pub open spec fn wf(self) -> bool {
        self.result matches Ok(d) ==> d.0 <= COORD_LIMIT && d.1 <= COORD_LIMIT
    }

    /// Whether this entry answers a request for `text` at `font_size` in
    /// `style`.
    pub open spec fn spec_matches(self, text: Seq<char>, font_size: u16, style: FontStyle) -> bool {
        self.text@ == text && self.font_size == font_size && self.style == style
    }
}

/// What a rasterization request comes to, as spec data: the measured
/// dimensions, or the view of the reported error.
pub open spec fn raster_result_view(r: Result<(u32, u32), String>) -> Result<(u32, u32), Seq<char>> {
    match r {
        Ok(d) => Ok(d),
        Err(e) => Err(e@),
    }
}

/// The answer the table gives for a request: the first recorded entry for
/// the same string and font parameters, or nothing when none was recorded.
pub open spec fn spec_lookup(
    entries: Seq<RasterEntry>,
    text: Seq<char>,
    font_size: u16,
    style: FontStyle,
) -> Option<Result<(u32, u32), Seq<char>>>
    decreases entries.len(),
{
    if entries.len() == 0 {
        None
    } else if entries[0].spec_matches(text, font_size, style) {
        Some(raster_result_view(entries[0].result))
    } else {
        spec_lookup(entries.drop_first(), text, font_size, style)
    }
}

/// The font engine's answers for one frame, gathered ahead of the render
/// pass: for each string to be drawn, the dimensions of its rasterized
/// surface, or the error the rasterizer reported for it.
pub struct Rasterizer {
    entries: Vec<RasterEntry>,
}

impl View for Rasterizer {
    type V = Seq<RasterEntry>;

    closed spec fn view(&self) -> Seq<RasterEntry> {
        self.entries@
    }
}

impl Rasterizer {
    /// Every recorded success stays within the coordinate bound.
    pub open spec fn wf(self) -> bool {
        forall|i: int| 0 <= i < self@.len() ==> (#[trigger] self@[i]).wf()
    }

    /// An empty table: every lookup misses.
    pub fn new() -> (r: Rasterizer)
        ensures
            r@ == Seq::<RasterEntry>::empty(),
            r.wf(),
    {
        Rasterizer { entries: Vec::new() }
    }

    /// Record the font engine's answer for one request.
    pub fn record(&mut self, text: String, font_size: u16, style: FontStyle, result: Result<
        (u32, u32),
        String,
    >)
        requires
            result matches Ok(d) ==> d.0 <= COORD_LIMIT && d.1 <= COORD_LIMIT,
        ensures
            final(self)@ == old(self)@.push(
                RasterEntry { text, font_size, style, result },
            ),
            old(self).wf() ==> final(self).wf(),
    {
        self.entries.push(RasterEntry { text, font_size, style, result });
        proof {
            if old(self).wf() {
                assert forall|i: int| 0 <= i < self@.len() implies (#[trigger] self@[i]).wf() by {
                    if i < old(self)@.len() {
                        assert(self@[i] == old(self)@[i]);
                    }
                }
            }
        }
    }

    /// Look a request up: the first recorded entry for the same string and
    /// font parameters, or `None` when none was recorded.
    pub fn lookup(&self, text: &String, font_size: u16, style: FontStyle) -> (r: Option<
        Result<(u32, u32), String>,
    >)
        ensures
            match r {
                None => spec_lookup(self@, text@, font_size, style) is None,
                Some(res) => spec_lookup(self@, text@, font_size, style) == Some(
                    raster_result_view(res),
                ),
            },
    {
        let n = self.entries.len();
        let mut i: usize = 0;
        proof {
            assert(self@.skip(0) =~= self@);
        }
        while i < n
            invariant
                n == self@.len(),
                i <= n,
                spec_lookup(self@, text@, font_size, style) == spec_lookup(
                    self@.skip(i as int),
                    text@,
                    font_size,
                    style,
                ),
            decreases n - i,
        {
            let entry = &self.entries[i];
            if entry.text == *text && entry.font_size == font_size && entry.style == style {
                assert(self@.skip(i as int)[0] == self@[i as int]);
                let res = match &entry.result {
                    Ok(d) => Ok(*d),
                    Err(e) => Err(e.clone()),
                };
                return Some(res);
            }
            proof {
                assert(self@.skip(i as int)[0] == self@[i as int]);
                assert(self@.skip(i as int).drop_first() =~= self@.skip(i + 1 as int));
            }
            i = i + 1;
        }
        proof {
            assert(self@.skip(n as int).len() == 0);
        }
        None
    }
}

/// Whatever a lookup answers out of a table of well-formed entries stays
/// within the coordinate bound.
pub proof fn lemma_lookup_dims_bounded(
    entries: Seq<RasterEntry>,
    text: Seq<char>,
    font_size: u16,
    style: FontStyle,
)
    requires
        forall|i: int| 0 <= i < entries.len() ==> (#[trigger] entries[i]).wf(),
    ensures
        spec_lookup(entries, text, font_size, style) matches Some(Ok(d)) ==> d.0 <= COORD_LIMIT
            && d.1 <= COORD_LIMIT,
    decreases entries.len(),
{
    if entries.len() > 0 && !entries[0].spec_matches(text, font_size, style) {
        assert forall|i: int| 0 <= i < entries.drop_first().len() implies (#[trigger] entries.drop_first()[i]).wf() by {
            assert(entries.drop_first()[i] == entries[i + 1]);
        }
        lemma_lookup_dims_bounded(entries.drop_first(), text, font_size, style);
    }
}

/// The short-lived bundle a render pass works against: the frame's output
/// size, the pointer position sampled once for the frame, the clip region
/// currently narrowing the surface, and the drawing commands issued so far.
/// It is built fresh for every frame and never stored.
pub struct RenderingContext {
    pub output_width: u32,
    pub output_height: u32,
    pub mouse_pos: (i32, i32),
    pub clip: Option<Rect>,
    pub commands: Vec<DrawCommand>,
}

/// The two contexts describe the same frame: only the clip region and the
/// command list may differ.
pub open spec fn same_frame(a: RenderingContext, b: RenderingContext) -> bool {
    &&& a.output_width == b.output_width
    &&& a.output_height == b.output_height
    &&& a.mouse_pos == b.mouse_pos
}

impl RenderingContext {
    /// The output size and any clip region stay within the coordinate
    /// bound.
    pub open spec fn wf(self) -> bool {
        &&& self.output_width <= COORD_LIMIT
        &&& self.output_height <= COORD_LIMIT
        &&& self.clip matches Some(r) ==> r.wf()
    }

    /// The region drawing is currently restricted to: the clip region if
    /// one is set, the whole output otherwise.
    pub open spec fn spec_viewport(self) -> Rect {
        match self.clip {
            Some(r) => r,
            None => Rect { x: 0, y: 0, width: self.output_width, height: self.output_height },
        }
    }

    /// A fresh context for one frame: no clip region, no commands yet.
    pub fn new(output_width: u32, output_height: u32, mouse_pos: (i32, i32)) -> (ctx:
        RenderingContext)
        requires
            output_width <= COORD_LIMIT,
            output_height <= COORD_LIMIT,
        ensures
            ctx == (RenderingContext {
                output_width,
                output_height,
                mouse_pos,
                clip: None::<Rect>,
                commands: ctx.commands,
            }),
            ctx.commands@ == Seq::<DrawCommand>::empty(),
            ctx.wf(),
    {
        RenderingContext { output_width, output_height, mouse_pos, clip: None, commands: Vec::new() }
    }

    /// The current viewport rectangle.
    pub fn viewport(&self) -> (r: Rect)
        ensures
            r == self.spec_viewport(),
    {
        match self.clip {
            Some(r) => r,
            None => Rect::new(0, 0, self.output_width, self.output_height),
        }
    }

    /// Select the draw color for subsequent clear and fill commands.
    pub fn set_draw_color(&mut self, color: Color)
        ensures
            final(self).commands@ == old(self).commands@.push(DrawCommand::SetDrawColor(color)),
            final(self).clip == old(self).clip,
            same_frame(*final(self), *old(self)),
            old(self).wf() ==> final(self).wf(),
    {
        self.commands.push(DrawCommand::SetDrawColor(color));
    }

    /// Fill the whole surface with the draw color.
    pub fn clear(&mut self)
        ensures
            final(self).commands@ == old(self).commands@.push(DrawCommand::Clear),
            final(self).clip == old(self).clip,
            same_frame(*final(self), *old(self)),
            old(self).wf() ==> final(self).wf(),
    {
        self.commands.push(DrawCommand::Clear);
    }

    /// Fill one rectangle with the draw color.
    pub fn fill_rect(&mut self, rect: Rect)
        ensures
            final(self).commands@ == old(self).commands@.push(DrawCommand::FillRect(rect)),
            final(self).clip == old(self).clip,
            same_frame(*final(self), *old(self)),
            old(self).wf() ==> final(self).wf(),
    {
        self.commands.push(DrawCommand::FillRect(rect));
    }

    /// Narrow drawing to `clip`, or restore the whole surface with `None`.
    pub fn set_viewport(&mut self, clip: Option<Rect>)
        requires
            clip matches Some(r) ==> r.wf(),
        ensures
            final(self).commands@ == old(self).commands@.push(DrawCommand::SetViewport(clip)),
            final(self).clip == clip,
            same_frame(*final(self), *old(self)),
            old(self).wf() ==> final(self).wf(),
    {
        self.clip = clip;
        self.commands.push(DrawCommand::SetViewport(clip));
    }

    /// Blit the rasterization of `text` into `dest`.
    pub fn copy_text(&mut self, text: String, font_size: u16, style: FontStyle, color: Color, dest:
        Rect)
        ensures
            final(self).commands@ == old(self).commands@.push(
                DrawCommand::CopyText { text, font_size, style, color, dest },
            ),
            final(self).clip == old(self).clip,
            same_frame(*final(self), *old(self)),
            old(self).wf() ==> final(self).wf(),
    {
        self.commands.push(DrawCommand::CopyText { text, font_size, style, color, dest });
    }

    /// Show the finished frame.
    pub fn present(&mut self)
        ensures
            final(self).commands@ == old(self).commands@.push(DrawCommand::Present),
            final(self).clip == old(self).clip,
            same_frame(*final(self), *old(self)),
            old(self).wf() ==> final(self).wf(),
    {
        self.commands.push(DrawCommand::Present);
    }
}

} // verus!
