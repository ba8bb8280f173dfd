use vstd::prelude::*;
use vstd::pervasive::cloned;
use crate::geometry::{
    Rect, COORD_LIMIT, constrain_rect, spec_constrained_dims, lemma_shrink_to_fit, centered_coord,
    end_aligned_coord, spec_centered_coord, spec_end_coord,
};
use crate::render::{
    Color, FontStyle, DrawCommand, Rasterizer, RasterEntry, RenderingContext, spec_lookup,
    same_frame, lemma_lookup_dims_bounded,
};
use crate::state::{Runtime, State};
use crate::engine::ClickHandler;
use crate::decimal::{spec_udecimal, spec_decimal, u64_to_decimal, i64_to_decimal};
use crate::{Size, size_to_width_height, spec_size_dims};

verus! {

/// Horizontal placement of a text rectangle within the clip region.
#[derive(Clone, Copy, PartialEq, Eq, Structural, Debug)]
pub enum TextAlignment {
    Left,
    Center,
    Right,
}

/// Vertical placement of a text rectangle within the clip region.
#[derive(Clone, Copy, PartialEq, Eq, Structural, Debug)]
pub enum VerticalAlignment {
    Top,
    Middle,
    Bottom,
}

/// What a text component draws: a fixed string, or a string re-read from a
/// state cell on every render, so the pass always observes the cell's
/// latest value.
pub enum TextPayload {
    Fixed(String),
    FromState(State<String>),
}

/// A leaf component that renders one string inside the current clip region,
/// with alignment and optional shrink-to-fit scaling.
pub struct Text {
    pub text: TextPayload,
    pub x: i32,
    pub y: i32,
    pub color: Color,
    pub font_size: u16,
    pub alignment: TextAlignment,
    pub vertical_alignment: VerticalAlignment,
    pub font_style: FontStyle,
    pub shrink_to_fit: bool,
}

/// The component defaults shared by every text constructor: the origin,
/// white, font size 32, regular style, left and top alignment, and
/// shrink-to-fit on.
pub open spec fn spec_text_with_defaults(payload: TextPayload) -> Text {
    Text {
        text: payload,
        x: 0,
        y: 0,
        color: Color { r: 255, g: 255, b: 255, a: 255 },
        font_size: 32,
        alignment: TextAlignment::Left,
        vertical_alignment: VerticalAlignment::Top,
        font_style: FontStyle { bold: false, italic: false, underline: false, strikethrough: false },
        shrink_to_fit: true,
    }
}

impl Text {
    /// The component's coordinates stay within the layout bound.
    pub open spec fn wf(self) -> bool {
        &&& -(COORD_LIMIT as int) <= self.x <= COORD_LIMIT as int
        &&& -(COORD_LIMIT as int) <= self.y <= COORD_LIMIT as int
    }

    /// A reactive payload points at an existing cell of a store with `n`
    /// cells.
    pub open spec fn states_valid(self, n: nat) -> bool {
        self.text matches TextPayload::FromState(s) ==> s.id < n
    }

    /// The string this component draws, given the state store's cells.
    pub open spec fn spec_resolved(self, cells: Seq<String>) -> String {
        match self.text {
            TextPayload::Fixed(s) => s,
            TextPayload::FromState(st) => st.read_from(cells),
        }
    }

    /// A text component drawing the given string, with the defaults.
    pub fn new(text: &str) -> (t: Text)
        ensures
            t.text matches TextPayload::Fixed(s) && s@ == text@,
            t == (Text { text: t.text, ..spec_text_with_defaults(t.text) }),
    {
        Text {
            text: TextPayload::Fixed(text.to_owned()),
            x: 0,
            y: 0,
            color: Color::RGB(255, 255, 255),
            font_size: 32,
            alignment: TextAlignment::Left,
            vertical_alignment: VerticalAlignment::Top,
            font_style: FontStyle::normal(),
            shrink_to_fit: true,
        }
    }

    /// A text component that re-reads the given state cell every render,
    /// with the defaults.
    pub fn from_state(state: State<String>) -> (t: Text)
        ensures
            t == spec_text_with_defaults(TextPayload::FromState(state)),
    {
        Text {
            text: TextPayload::FromState(state),
            x: 0,
            y: 0,
            color: Color::RGB(255, 255, 255),
            font_size: 32,
            alignment: TextAlignment::Left,
            vertical_alignment: VerticalAlignment::Top,
            font_style: FontStyle::normal(),
            shrink_to_fit: true,
        }
    }

    pub fn color(self, color: Color) -> (t: Text)
        ensures
            t == (Text { color, ..self }),
    {
        Text { color, ..self }
    }

    pub fn position(self, x: i32, y: i32) -> (t: Text)
        ensures
            t == (Text { x, y, ..self }),
    {
        Text { x, y, ..self }
    }

    pub fn font_size(self, size: u16) -> (t: Text)
        ensures
            t == (Text { font_size: size, ..self }),
    {
        Text { font_size: size, ..self }
    }

    pub fn align_left(self) -> (t: Text)
        ensures
            t == (Text { alignment: TextAlignment::Left, ..self }),
    {
        Text { alignment: TextAlignment::Left, ..self }
    }

    pub fn align_center(self) -> (t: Text)
        ensures
            t == (Text { alignment: TextAlignment::Center, ..self }),
    {
        Text { alignment: TextAlignment::Center, ..self }
    }

    pub fn align_right(self) -> (t: Text)
        ensures
            t == (Text { alignment: TextAlignment::Right, ..self }),
    {
        Text { alignment: TextAlignment::Right, ..self }
    }

    pub fn vertical_align_top(self) -> (t: Text)
        ensures
            t == (Text { vertical_alignment: VerticalAlignment::Top, ..self }),
    {
        Text { vertical_alignment: VerticalAlignment::Top, ..self }
    }

    pub fn vertical_align_middle(self) -> (t: Text)
        ensures
            t == (Text { vertical_alignment: VerticalAlignment::Middle, ..self }),
    {
        Text { vertical_alignment: VerticalAlignment::Middle, ..self }
    }

    pub fn vertical_align_bottom(self) -> (t: Text)
        ensures
            t == (Text { vertical_alignment: VerticalAlignment::Bottom, ..self }),
    {
        Text { vertical_alignment: VerticalAlignment::Bottom, ..self }
    }

    pub fn font_style(self, style: FontStyle) -> (t: Text)
        ensures
            t == (Text { font_style: style, ..self }),
    {
        Text { font_style: style, ..self }
    }

    /// The component boxed, for handing to a container.
    pub fn as_box<H>(self) -> (r: Box<Component<H>>)
        ensures
            *r == Component::<H>::Text(self),
    {
        Box::new(Component::Text(self))
    }
}

/// A filled rectangle that may clip and render one child component inside
/// itself and owns the click regions registered on it.
pub struct Button<H> {
    pub child: Option<Box<Component<H>>>,
    pub x: i32,
    pub y: i32,
    pub width: u32,
    pub height: u32,
    pub color: Color,
    pub click_handlers: Vec<ClickHandler<H>>,
}

/// A tree node: either a text leaf or a button that may own one child.
/// A parent owns its child exclusively, so the tree has no sharing and no
/// cycles.
pub enum Component<H> {
    Text(Text),
    Button(Button<H>),
}

impl<H> Button<H> {
    /// The button's own rectangle in absolute coordinates.
    pub open spec fn spec_rect(self) -> Rect {
        Rect { x: self.x, y: self.y, width: self.width, height: self.height }
    }

    /// A button with the default medium size, at the origin, white, with no
    /// child and no click handlers.
    pub fn new() -> (b: Button<H>)
        ensures
            b.child is None,
            b.x == 0 && b.y == 0,
            b.width == 80 && b.height == 40,
            b.color == (Color { r: 255, g: 255, b: 255, a: 255 }),
            b.click_handlers@ == Seq::<ClickHandler<H>>::empty(),
    {
        let (width, height) = size_to_width_height(Size::Medium);
        Button {
            child: None,
            x: 0,
            y: 0,
            width,
            height,
            color: Color::RGB(255, 255, 255),
            click_handlers: Vec::new(),
        }
    }

    /// Give the button a child component, converted into a tree node.
    pub fn child<C: IntoComponent<H>>(self, child: C) -> (r: Button<H>)
        ensures
            r.child matches Some(c) && child.is_component_of(*c),
            r.x == self.x && r.y == self.y && r.width == self.width && r.height == self.height,
            r.color == self.color,
            r.click_handlers@ == self.click_handlers@,
    {
        let converted = child.into_component();
        Button { child: Some(Box::new(converted)), ..self }
    }

    pub fn position(self, x: i32, y: i32) -> (r: Button<H>)
        ensures
            r == (Button { x, y, ..self }),
    {
        Button { x, y, ..self }
    }

    /// Set the button's size from a preset or explicit dimensions.
    pub fn size(self, size: Size) -> (r: Button<H>)
        ensures
            (r.width, r.height) == spec_size_dims(size),
            r == (Button { width: r.width, height: r.height, ..self }),
    {
        let (width, height) = size_to_width_height(size);
        Button { width, height, ..self }
    }

    pub fn color(self, color: Color) -> (r: Button<H>)
        ensures
            r == (Button { color, ..self }),
    {
        Button { color, ..self }
    }

    pub fn as_box(self) -> (r: Box<Button<H>>)
        ensures
            *r == self,
    {
        Box::new(self)
    }

    /// Register a click handler whose region is the button's rectangle as
    /// configured at this moment; later repositioning does not move the
    /// region.
    pub fn on_click(self, handler: H) -> (r: Button<H>)
        ensures
            r.click_handlers@ == self.click_handlers@.push(
                ClickHandler { region: self.spec_rect(), handler },
            ),
            r.child == self.child,
            r.x == self.x && r.y == self.y && r.width == self.width && r.height == self.height,
            r.color == self.color,
    {
        let Button { child, x, y, width, height, color, mut click_handlers } = self;
        click_handlers.push(ClickHandler { region: Rect::new(x, y, width, height), handler });
        Button { child, x, y, width, height, color, click_handlers }
    }
}

impl<H> Component<H> {
    /// Nesting depth of the tree, used as the recursion measure.
    pub open spec fn height(self) -> nat
        decreases self,
    {
        match self {
            Component::Text(_) => 0,
            Component::Button(b) => match b.child {
                Some(c) => 1 + (*c).height(),
                None => 0,
            },
        }
    }

    /// Every coordinate and dimension in the tree stays within the layout
    /// bound.
    pub open spec fn wf(self) -> bool
        decreases self,
    {
        match self {
            Component::Text(t) => t.wf(),
            Component::Button(b) => b.spec_rect().wf() && match b.child {
                Some(c) => (*c).wf(),
                None => true,
            },
        }
    }

    /// Every reactive text in the tree points at an existing cell of a
    /// store with `n` cells.
    pub open spec fn states_valid(self, n: nat) -> bool
        decreases self,
    {
        match self {
            Component::Text(t) => t.states_valid(n),
            Component::Button(b) => match b.child {
                Some(c) => (*c).states_valid(n),
                None => true,
            },
        }
    }

    /// The click handlers the component exposes: none for a text, the
    /// registered list for a button. A child's handlers are not included;
    /// only buttons handed to the engine directly receive clicks.
    pub open spec fn spec_click_handlers(self) -> Seq<ClickHandler<H>> {
        match self {
            Component::Text(_) => Seq::empty(),
            Component::Button(b) => b.click_handlers@,
        }
    }
}

/// A store that only grows keeps every reactive text in a tree valid.
pub proof fn lemma_states_valid_monotone<H>(c: Component<H>, n1: nat, n2: nat)
    requires
        c.states_valid(n1),
        n1 <= n2,
    ensures
        c.states_valid(n2),
    decreases c,
{
    match c {
        Component::Text(_) => {
        }
        Component::Button(b) => {
            match b.child {
                Some(ch) => {
                    lemma_states_valid_monotone(*ch, n1, n2);
                }
                None => {
                }
            }
        }
    }
}

/// Anything that can be turned into a component tree node: components
/// themselves, and plain values that become a default text showing them.
pub trait IntoComponent<H>: Sized {
    /// Whether `c` is the tree node this value stands for.
    spec fn is_component_of(self, c: Component<H>) -> bool;

    /// Convert this value into the tree node it stands for.
    fn into_component(self) -> (c: Component<H>)
        ensures
            self.is_component_of(c),
    ;
}

impl<H> IntoComponent<H> for Text {
    open spec fn is_component_of(self, c: Component<H>) -> bool {
        c == Component::<H>::Text(self)
    }

    fn into_component(self) -> Component<H> {
        Component::Text(self)
    }
}

impl<H> IntoComponent<H> for Button<H> {
    open spec fn is_component_of(self, c: Component<H>) -> bool {
        c == Component::<H>::Button(self)
    }

    fn into_component(self) -> Component<H> {
        Component::Button(self)
    }
}

/// Whether `c` is a default text component showing exactly the characters
/// `text`.
pub open spec fn is_default_text_showing<H>(c: Component<H>, text: Seq<char>) -> bool {
    c matches Component::Text(t) && t.text matches TextPayload::Fixed(s) && s@ == text && t == (
    spec_text_with_defaults(t.text))
}

impl<H> IntoComponent<H> for String {
    open spec fn is_component_of(self, c: Component<H>) -> bool {
        c == Component::<H>::Text(spec_text_with_defaults(TextPayload::Fixed(self)))
    }

    fn into_component(self) -> Component<H> {
        Component::Text(Text {
            text: TextPayload::Fixed(self),
            x: 0,
            y: 0,
            color: Color::RGB(255, 255, 255),
            font_size: 32,
            alignment: TextAlignment::Left,
            vertical_alignment: VerticalAlignment::Top,
            font_style: FontStyle::normal(),
            shrink_to_fit: true,
        })
    }
}

impl<H> IntoComponent<H> for &str {
    open spec fn is_component_of(self, c: Component<H>) -> bool {
        is_default_text_showing(c, self@)
    }

    fn into_component(self) -> Component<H> {
        Component::Text(Text::new(self))
    }
}

impl<H> IntoComponent<H> for u32 {
    open spec fn is_component_of(self, c: Component<H>) -> bool {
        is_default_text_showing(c, spec_udecimal(self as nat))
    }

    fn into_component(self) -> Component<H> {
        <String as IntoComponent<H>>::into_component(u64_to_decimal(self as u64))
    }
}

impl<H> IntoComponent<H> for u64 {
    open spec fn is_component_of(self, c: Component<H>) -> bool {
        is_default_text_showing(c, spec_udecimal(self as nat))
    }

    fn into_component(self) -> Component<H> {
        <String as IntoComponent<H>>::into_component(u64_to_decimal(self))
    }
}

impl<H> IntoComponent<H> for i32 {
    open spec fn is_component_of(self, c: Component<H>) -> bool {
        is_default_text_showing(c, spec_decimal(self as int))
    }

    fn into_component(self) -> Component<H> {
        <String as IntoComponent<H>>::into_component(i64_to_decimal(self as i64))
    }
}

impl<H> IntoComponent<H> for i64 {
    open spec fn is_component_of(self, c: Component<H>) -> bool {
        is_default_text_showing(c, spec_decimal(self as int))
    }

    fn into_component(self) -> Component<H> {
        <String as IntoComponent<H>>::into_component(i64_to_decimal(self))
    }
}

impl<H> IntoComponent<H> for bool {
    open spec fn is_component_of(self, c: Component<H>) -> bool {
        is_default_text_showing(c, if self { "true"@ } else { "false"@ })
    }

    fn into_component(self) -> Component<H> {
        if self {
            Component::Text(Text::new("true"))
        } else {
            Component::Text(Text::new("false"))
        }
    }
}

/// The region a clip leaves for drawing: the clip itself, or the whole
/// output when none is set.
pub open spec fn spec_viewport_of(clip: Option<Rect>, ow: u32, oh: u32) -> Rect {
    match clip {
        Some(r) => r,
        None => Rect { x: 0, y: 0, width: ow, height: oh },
    }
}

/// The error reported when no rasterization was recorded for a string the
/// render pass needs.
pub open spec fn spec_missing_raster_msg() -> Seq<char> {
    "no rasterization recorded for text"@
}

/// What a render call reports, as spec data: success, or the view of the
/// error string.
pub open spec fn render_result_view(r: Result<(), String>) -> Result<(), Seq<char>> {
    match r {
        Ok(u) => Ok(u),
        Err(e) => Err(e@),
    }
}

/// The rectangle a text surface measured `sw` by `sh` is blitted into:
/// shrink-to-fit scales it into the viewport first, then horizontal and
/// vertical alignment place it; left and top alignment keep the scaled
/// rectangle where it is.
pub open spec fn spec_text_dest(t: Text, sw: u32, sh: u32, vp: Rect) -> Rect {
    let base = if t.shrink_to_fit {
        let dims = spec_constrained_dims(sw as nat, sh as nat, vp.width as nat, vp.height as nat);
        Rect { x: 0, y: 0, width: dims.0 as u32, height: dims.1 as u32 }
    } else {
        Rect { x: t.x, y: t.y, width: sw, height: sh }
    };
    let x1 = match t.alignment {
        TextAlignment::Left => base.x as int,
        TextAlignment::Center => spec_centered_coord(t.x as int, vp.width as int, base.width as int),
        TextAlignment::Right => spec_end_coord(t.x as int, vp.width as int, base.width as int),
    };
    let y1 = match t.vertical_alignment {
        VerticalAlignment::Top => base.y as int,
        VerticalAlignment::Middle => spec_centered_coord(
            t.y as int,
            vp.height as int,
            base.height as int,
        ),
        VerticalAlignment::Bottom => spec_end_coord(t.y as int, vp.height as int, base.height as int),
    };
    Rect { x: x1 as i32, y: y1 as i32, width: base.width, height: base.height }
}

/// The drawing commands a text render issues and how it ends: the draw
/// color is always selected first; then either the rasterization of the
/// resolved string is blitted into its destination rectangle, or the pass
/// fails with the rasterizer's error, or with the missing-rasterization
/// error when nothing was recorded for the string.
pub open spec fn spec_render_text(
    t: Text,
    cells: Seq<String>,
    rast: Seq<RasterEntry>,
    clip: Option<Rect>,
    ow: u32,
    oh: u32,
) -> (Seq<DrawCommand>, Result<(), Seq<char>>) {
    let text = t.spec_resolved(cells);
    let head = seq![DrawCommand::SetDrawColor(t.color)];
    match spec_lookup(rast, text@, t.font_size, t.font_style) {
        None => (head, Err(spec_missing_raster_msg())),
        Some(Err(e)) => (head, Err(e)),
        Some(Ok(dims)) => (
            head.push(
                DrawCommand::CopyText {
                    text,
                    font_size: t.font_size,
                    style: t.font_style,
                    color: t.color,
                    dest: spec_text_dest(t, dims.0, dims.1, spec_viewport_of(clip, ow, oh)),
                },
            ),
            Ok(()),
        ),
    }
}

/// The drawing commands a component render issues and how it ends. A text
/// renders as above. A button selects its color and fills its rectangle;
/// with a child it then narrows the viewport to that rectangle, renders the
/// child inside it, and restores the previous clip region whether or not
/// the child succeeded.
pub open spec fn spec_render_component<H>(
    c: Component<H>,
    cells: Seq<String>,
    rast: Seq<RasterEntry>,
    clip: Option<Rect>,
    ow: u32,
    oh: u32,
) -> (Seq<DrawCommand>, Result<(), Seq<char>>)
    decreases c,
{
    match c {
        Component::Text(t) => spec_render_text(t, cells, rast, clip, ow, oh),
        Component::Button(b) => {
            let head = seq![
                DrawCommand::SetDrawColor(b.color),
                DrawCommand::FillRect(b.spec_rect()),
            ];
            match b.child {
                None => (head, Ok(())),
                Some(child) => {
                    let sub = spec_render_component(*child, cells, rast, Some(b.spec_rect()), ow, oh);
                    (
                        head.push(DrawCommand::SetViewport(Some(b.spec_rect()))) + sub.0 + seq![
                            DrawCommand::SetViewport(clip),
                        ],
                        sub.1,
                    )
                },
            }
        },
    }
}

impl Text {
    /// Render the text: select its color, resolve the payload, and blit the
    /// recorded rasterization into the rectangle that shrink-to-fit and
    /// alignment give within the current viewport. Fails with the
    /// rasterizer's error for this string, or with the missing-rasterization
    /// error when none was recorded; the color command is issued either way,
    /// and the clip region is never touched.
    pub fn render(&self, rt: &Runtime<String>, rast: &Rasterizer, ctx: &mut RenderingContext) -> (r:
        Result<(), String>)
        requires
            self.wf(),
            self.states_valid(rt@.len()),
            rast.wf(),
            old(ctx).wf(),
        ensures
            same_frame(*final(ctx), *old(ctx)),
            final(ctx).clip == old(ctx).clip,
            final(ctx).wf(),
            ({
                let m = spec_render_text(
                    *self,
                    rt@,
                    rast@,
                    old(ctx).clip,
                    old(ctx).output_width,
                    old(ctx).output_height,
                );
                final(ctx).commands@ == old(ctx).commands@ + m.0 && render_result_view(r) == m.1
            }),
    {
        ctx.set_draw_color(self.color);
        let text: String = match &self.text {
            TextPayload::Fixed(s) => s.clone(),
            TextPayload::FromState(st) => st.get(rt),
        };
        assert(text == self.spec_resolved(rt@));
        let m = rast.lookup(&text, self.font_size, self.font_style);
        match m {
            None => {
                proof {
                    assert(old(ctx).commands@.push(DrawCommand::SetDrawColor(self.color))
                        =~= old(ctx).commands@ + seq![DrawCommand::SetDrawColor(self.color)]);
                }
                Err("no rasterization recorded for text".to_owned())
            },
            Some(Err(e)) => {
                proof {
                    assert(old(ctx).commands@.push(DrawCommand::SetDrawColor(self.color))
                        =~= old(ctx).commands@ + seq![DrawCommand::SetDrawColor(self.color)]);
                }
                Err(e)
            },
            Some(Ok(dims)) => {
                let sw = dims.0;
                let sh = dims.1;
                proof {
                    lemma_lookup_dims_bounded(rast@, text@, self.font_size, self.font_style);
                }
                let vp = ctx.viewport();
                let base = if self.shrink_to_fit {
                    constrain_rect(sw, sh, vp.width, vp.height)
                } else {
                    Rect::new(self.x, self.y, sw, sh)
                };
                proof {
                    if self.shrink_to_fit && vp.width > 0 && vp.height > 0 {
                        lemma_shrink_to_fit(sw as nat, sh as nat, vp.width as nat, vp.height as nat);
                    }
                }
                let x1 = match self.alignment {
                    TextAlignment::Left => base.x,
                    TextAlignment::Center => centered_coord(self.x, vp.width, base.width),
                    TextAlignment::Right => end_aligned_coord(self.x, vp.width, base.width),
                };
                let y1 = match self.vertical_alignment {
                    VerticalAlignment::Top => base.y,
                    VerticalAlignment::Middle => centered_coord(self.y, vp.height, base.height),
                    VerticalAlignment::Bottom => end_aligned_coord(self.y, vp.height, base.height),
                };
                let dest = Rect::new(x1, y1, base.width, base.height);
                assert(dest == spec_text_dest(*self, sw, sh, vp));
                ctx.copy_text(text, self.font_size, self.font_style, self.color, dest);
                proof {
                    let m0 = spec_render_text(
                        *self,
                        rt@,
                        rast@,
                        old(ctx).clip,
                        old(ctx).output_width,
                        old(ctx).output_height,
                    ).0;
                    assert(ctx.commands@ =~= old(ctx).commands@ + m0);
                }
                Ok(())
            },
        }
    }
}

impl<H> Button<H> {
    /// Render the button: select its color and fill its rectangle; with a
    /// child, narrow the clip region to the rectangle so the child's
    /// alignment resolves relative to the button, render the child, and
    /// restore the previous clip region on success and on failure alike.
    pub fn render(&self, rt: &Runtime<String>, rast: &Rasterizer, ctx: &mut RenderingContext) -> (r:
        Result<(), String>)
        requires
            Component::Button(*self).wf(),
            Component::Button(*self).states_valid(rt@.len()),
            rast.wf(),
            old(ctx).wf(),
        ensures
            same_frame(*final(ctx), *old(ctx)),
            final(ctx).clip == old(ctx).clip,
            final(ctx).wf(),
            ({
                let m = spec_render_component(
                    Component::Button(*self),
                    rt@,
                    rast@,
                    old(ctx).clip,
                    old(ctx).output_width,
                    old(ctx).output_height,
                );
                final(ctx).commands@ == old(ctx).commands@ + m.0 && render_result_view(r) == m.1
            }),
        decreases Component::Button(*self).height(), 0int,
    {
        ctx.set_draw_color(self.color);
        let rect = Rect::new(self.x, self.y, self.width, self.height);
        ctx.fill_rect(rect);
        match &self.child {
            None => {
                proof {
                    let m0 = spec_render_component(
                        Component::Button(*self),
                        rt@,
                        rast@,
                        old(ctx).clip,
                        old(ctx).output_width,
                        old(ctx).output_height,
                    ).0;
                    assert(ctx.commands@ =~= old(ctx).commands@ + m0);
                }
                Ok(())
            },
            Some(child) => {
                let prev = ctx.clip;
                ctx.set_viewport(Some(rect));
                let res = (&**child).render(rt, rast, ctx);
                ctx.set_viewport(prev);
                proof {
                    let m0 = spec_render_component(
                        Component::Button(*self),
                        rt@,
                        rast@,
                        old(ctx).clip,
                        old(ctx).output_width,
                        old(ctx).output_height,
                    ).0;
                    assert(ctx.commands@ =~= old(ctx).commands@ + m0);
                }
                res
            },
        }
    }
}

impl<H> Component<H> {
    /// Render the tree node into the context; see the button and text
    /// renders for what each issues. The clip region is always left as it
    /// was found.
    pub fn render(&self, rt: &Runtime<String>, rast: &Rasterizer, ctx: &mut RenderingContext) -> (r:
        Result<(), String>)
        requires
            self.wf(),
            self.states_valid(rt@.len()),
            rast.wf(),
            old(ctx).wf(),
        ensures
            same_frame(*final(ctx), *old(ctx)),
            final(ctx).clip == old(ctx).clip,
            final(ctx).wf(),
            ({
                let m = spec_render_component(
                    *self,
                    rt@,
                    rast@,
                    old(ctx).clip,
                    old(ctx).output_width,
                    old(ctx).output_height,
                );
                final(ctx).commands@ == old(ctx).commands@ + m.0 && render_result_view(r) == m.1
            }),
        decreases self.height(), 1int,
    {
        match self {
            Component::Text(t) => t.render(rt, rast, ctx),
            Component::Button(b) => b.render(rt, rast, ctx),
        }
    }

    /// The click handlers this component exposes, cloned for the caller.
    pub fn click_handlers(&self) -> (r: Vec<ClickHandler<H>>)
        where H: Clone,
        ensures
            r@.len() == self.spec_click_handlers().len(),
            forall|i: int|
                0 <= i < r@.len() ==> (#[trigger] r@[i]).region == self.spec_click_handlers()[i].region
                    && cloned(self.spec_click_handlers()[i].handler, r@[i].handler),
    {
        match self {
            Component::Text(_) => Vec::new(),
            Component::Button(b) => {
                let n = b.click_handlers.len();
                let mut out: Vec<ClickHandler<H>> = Vec::new();
                let mut i: usize = 0;
                while i < n
                    invariant
                        n == b.click_handlers@.len(),
                        i <= n,
                        out@.len() == i,
                        forall|j: int|
                            0 <= j < i ==> (#[trigger] out@[j]).region == b.click_handlers@[j].region
                                && cloned(b.click_handlers@[j].handler, out@[j].handler),
                    decreases n - i,
                {
                    out.push(b.click_handlers[i].clone());
                    i = i + 1;
                }
                out
            },
        }
    }

    /// Whether the tree is within the layout bound and every reactive text
    /// points at an existing cell of `rt`: the precondition of rendering,
    /// checked at run time for callers outside the proof.
    pub fn check_render_ready(&self, rt: &Runtime<String>) -> (b: bool)
        ensures
            b == (self.wf() && self.states_valid(rt@.len())),
        decreases self.height(),
    {
        match self {
            Component::Text(t) => {
                let coords_ok = t.x as i64 >= -(COORD_LIMIT as i64) && t.x as i64 <= COORD_LIMIT as i64
                    && t.y as i64 >= -(COORD_LIMIT as i64) && t.y as i64 <= COORD_LIMIT as i64;
                let states_ok = match &t.text {
                    TextPayload::Fixed(_) => true,
                    TextPayload::FromState(st) => st.id < rt.len(),
                };
                coords_ok && states_ok
            },
            Component::Button(b) => {
                let rect_ok = b.x as i64 >= -(COORD_LIMIT as i64) && b.x as i64 <= COORD_LIMIT as i64
                    && b.y as i64 >= -(COORD_LIMIT as i64) && b.y as i64 <= COORD_LIMIT as i64
                    && b.width <= COORD_LIMIT && b.height <= COORD_LIMIT;
                match &b.child {
                    Some(child) => rect_ok && (&**child).check_render_ready(rt),
                    None => rect_ok,
                }
            },
        }
    }
}


} // verus!
