use vstd::prelude::*;
use vstd::pervasive::cloned;
use crate::geometry::{Rect, COORD_LIMIT};
use crate::render::{
    Color, DrawCommand, Rasterizer, RasterEntry, RenderingContext, TextRequest,
};
use crate::component::{
    Component, IntoComponent, TextPayload, spec_render_component,
};
use crate::state::Runtime;

verus! {

/// A click region paired with the handler to run when a click lands in it.
/// The region is captured when the handler is registered on its component
/// and does not track later repositioning, so a component must be fully
/// configured before it is added to the engine. The handler value itself is
/// whatever the application uses to represent a callback; the engine only
/// stores it, reports which ones fired, and never looks inside it.
pub struct ClickHandler<H> {
    pub region: Rect,
    pub handler: H,
}

impl<H: Clone> Clone for ClickHandler<H> {
    fn clone(&self) -> (r: Self)
        ensures
            r.region == self.region,
            cloned(self.handler, r.handler),
    {
        ClickHandler { region: self.region, handler: self.handler.clone() }
    }
}

/// One input event, as the event source hands them over.
#[derive(Clone, Copy, PartialEq, Eq, Structural, Debug)]
pub enum Event {
    Quit,
    MouseButtonDown { x: i32, y: i32 },
    MouseButtonUp { x: i32, y: i32 },
    Other,
}

/// What the engine decides for one event: stop the loop, or carry on after
/// running the handlers whose indices are listed, in that order.
#[derive(PartialEq, Eq, Debug)]
pub enum EventOutcome {
    Terminate,
    Proceed { fired: Vec<usize> },
}

/// A button-up at `(x, y)` counts as a click when a button-down position is
/// recorded and the displacement on each axis is below three units;
/// anything farther is a drag and fires nothing.
pub open spec fn spec_is_click(down: Option<(i32, i32)>, x: int, y: int) -> bool {
    match down {
        Some(d) => -2 <= x - d.0 <= 2 && -2 <= y - d.1 <= 2,
        None => false,
    }
}

/// The indices of the handlers whose region contains `(x, y)`, in
/// registration order; overlapping regions all fire, with no topmost-wins
/// short circuit.
pub open spec fn spec_fired_indices<H>(handlers: Seq<ClickHandler<H>>, x: int, y: int) -> Seq<usize>
    decreases handlers.len(),
{
    if handlers.len() == 0 {
        Seq::empty()
    } else {
        let prefix = spec_fired_indices(handlers.drop_last(), x, y);
        if handlers.last().region.spec_contains(x, y) {
            prefix.push((handlers.len() - 1) as usize)
        } else {
            prefix
        }
    }
}

/// Click dispatch is exact: every listed handler's region contains the
/// point, the list is strictly increasing, so handlers fire in registration
/// order and at most once, and every handler whose region contains the
/// point is listed.
pub proof fn lemma_click_dispatch<H>(handlers: Seq<ClickHandler<H>>, x: int, y: int)
    requires
        handlers.len() <= usize::MAX,
    ensures
        ({
            let fired = spec_fired_indices(handlers, x, y);
            &&& forall|k: int|
                0 <= k < fired.len() ==> (#[trigger] fired[k]) < handlers.len() && handlers[
                    fired[k] as int
                ].region.spec_contains(x, y)
            &&& forall|k1: int, k2: int|
                0 <= k1 < k2 < fired.len() ==> fired[k1] < fired[k2]
            &&& forall|i: int|
                0 <= i < handlers.len() && (#[trigger] handlers[i]).region.spec_contains(x, y)
                    ==> fired.contains(i as usize)
        }),
    decreases handlers.len(),
{
    if handlers.len() > 0 {
        let prefix_handlers = handlers.drop_last();
        lemma_click_dispatch(prefix_handlers, x, y);
        let prefix = spec_fired_indices(prefix_handlers, x, y);
        let fired = spec_fired_indices(handlers, x, y);
        if handlers.last().region.spec_contains(x, y) {
            assert(fired == prefix.push((handlers.len() - 1) as usize));
        } else {
            assert(fired == prefix);
        }
        assert(handlers.last() == handlers[handlers.len() - 1]);
        assert forall|j: int| 0 <= j < prefix_handlers.len() implies prefix_handlers[j]
            == handlers[j] by {}
        assert forall|k: int| 0 <= k < prefix.len() implies fired[k] == prefix[k] by {}
        assert forall|k: int|
            0 <= k < fired.len() implies (#[trigger] fired[k]) < handlers.len() && handlers[
            fired[k] as int].region.spec_contains(x, y) by {
            if k < prefix.len() {
                assert(fired[k] == prefix[k]);
                assert(prefix[k] < prefix_handlers.len() && prefix_handlers[
                prefix[k] as int].region.spec_contains(x, y));
                assert(prefix_handlers[prefix[k] as int] == handlers[prefix[k] as int]);
                assert(handlers[fired[k] as int].region.spec_contains(x, y));
            } else {
                assert(handlers.last().region.spec_contains(x, y));
                assert(fired[k] == (handlers.len() - 1) as usize);
                assert(handlers[fired[k] as int] == handlers.last());
                assert(handlers[fired[k] as int].region.spec_contains(x, y));
            }
        }
        assert forall|i: int|
            0 <= i < handlers.len() && (#[trigger] handlers[i]).region.spec_contains(x, y) implies fired.contains(
            i as usize,
        ) by {
            if i < handlers.len() - 1 {
                assert(prefix_handlers[i] == handlers[i]);
                assert(prefix.contains(i as usize));
                let w = choose|w: int| 0 <= w < prefix.len() && prefix[w] == i as usize;
                assert(fired[w] == i as usize);
                assert(fired.contains(i as usize));
            } else {
                assert(fired.last() == i as usize);
                assert(fired[fired.len() - 1] == i as usize);
                assert(fired.contains(i as usize));
            }
        }
    }
}

/// The color every frame is cleared to before the components paint.
pub open spec fn spec_background_color() -> Color {
    Color { r: 140, g: 64, b: 150, a: 255 }
}

/// The strings a tree needs rasterized for one frame, in render order, with
/// reactive payloads resolved against the state store's cells.
pub open spec fn spec_text_requests<H>(c: Component<H>, cells: Seq<String>) -> Seq<TextRequest>
    decreases c,
{
    match c {
        Component::Text(t) => seq![
            TextRequest { text: t.spec_resolved(cells), font_size: t.font_size, style: t.font_style },
        ],
        Component::Button(b) => match b.child {
            Some(child) => spec_text_requests(*child, cells),
            None => Seq::empty(),
        },
    }
}

/// The requests of a whole component list, in render order.
pub open spec fn spec_frame_text_requests<H>(cs: Seq<Component<H>>, cells: Seq<String>) -> Seq<
    TextRequest,
>
    decreases cs.len(),
{
    if cs.len() == 0 {
        Seq::empty()
    } else {
        spec_frame_text_requests(cs.drop_last(), cells) + spec_text_requests(cs.last(), cells)
    }
}

/// The commands of a frame's component pass: each component in registration
/// order, stopping at the first error, which aborts the frame.
pub open spec fn spec_render_list<H>(
    cs: Seq<Component<H>>,
    cells: Seq<String>,
    rast: Seq<RasterEntry>,
    ow: u32,
    oh: u32,
) -> (Seq<DrawCommand>, Result<(), Seq<char>>)
    decreases cs.len(),
{
    if cs.len() == 0 {
        (Seq::empty(), Ok(()))
    } else {
        let front = spec_render_list(cs.drop_last(), cells, rast, ow, oh);
        if front.1 is Err {
            front
        } else {
            let last = spec_render_component(cs.last(), cells, rast, None, ow, oh);
            (front.0 + last.0, last.1)
        }
    }
}

/// The commands of a whole frame: select the background color and clear,
/// paint every component in registration order, and present; an error
/// aborts the frame before the present.
pub open spec fn spec_render_frame<H>(
    cs: Seq<Component<H>>,
    cells: Seq<String>,
    rast: Seq<RasterEntry>,
    ow: u32,
    oh: u32,
) -> (Seq<DrawCommand>, Result<(), Seq<char>>) {
    let head = seq![
        DrawCommand::SetDrawColor(spec_background_color()),
        DrawCommand::Clear,
    ];
    let body = spec_render_list(cs, cells, rast, ow, oh);
    if body.1 is Err {
        (head + body.0, body.1)
    } else {
        (head + body.0 + seq![DrawCommand::Present], Ok(()))
    }
}

/// Once the component pass has failed over some prefix, the rest of the
/// list changes nothing: the frame is aborted there.
proof fn lemma_render_list_error_stable<H>(
    cs: Seq<Component<H>>,
    cells: Seq<String>,
    rast: Seq<RasterEntry>,
    ow: u32,
    oh: u32,
    k: int,
)
    requires
        0 <= k <= cs.len(),
        spec_render_list(cs.take(k), cells, rast, ow, oh).1 is Err,
    ensures
        spec_render_list(cs, cells, rast, ow, oh) == spec_render_list(cs.take(k), cells, rast, ow, oh),
    decreases cs.len() - k,
{
    if k < cs.len() {
        assert(cs.take(k + 1).drop_last() =~= cs.take(k));
        lemma_render_list_error_stable(cs, cells, rast, ow, oh, k + 1);
    } else {
        assert(cs.take(k) =~= cs);
    }
}

/// The engine: the ordered list of top-level components (registration
/// order is paint order), the click-handler list flattened out of them once
/// at registration time, and the recorded button-down position that
/// click-versus-drag disambiguation works from. The outside world drives
/// it: events are handed to `handle_event`, whose outcome says which
/// handlers to run, and each frame is rendered to a command list that the
/// owner of the real surface replays.
pub struct Engine<H> {
    pub components: Vec<Component<H>>,
    pub click_handlers: Vec<ClickHandler<H>>,
    pub last_mouse_down_pos: Option<(i32, i32)>,
}

impl<H> Engine<H> {
    /// An engine with no components, no click handlers, and no recorded
    /// button-down position.
    pub fn init() -> (e: Engine<H>)
        ensures
            e.components@ == Seq::<Component<H>>::empty(),
            e.click_handlers@ == Seq::<ClickHandler<H>>::empty(),
            e.last_mouse_down_pos is None,
    {
        Engine { components: Vec::new(), click_handlers: Vec::new(), last_mouse_down_pos: None }
    }

    /// Register a component: its click handlers are flattened into the
    /// engine's list once, now, and the component joins the end of the
    /// paint order.
    pub fn add_component<C: IntoComponent<H>>(&mut self, component: C) where H: Clone
        ensures
            final(self).components@.len() == old(self).components@.len() + 1,
            final(self).components@.subrange(0, old(self).components@.len() as int) == old(
                self,
            ).components@,
            component.is_component_of(final(self).components@.last()),
            final(self).last_mouse_down_pos == old(self).last_mouse_down_pos,
            ({
                let added = final(self).components@.last().spec_click_handlers();
                let n0 = old(self).click_handlers@.len() as int;
                &&& final(self).click_handlers@.len() == n0 + added.len()
                &&& final(self).click_handlers@.subrange(0, n0) == old(self).click_handlers@
                &&& forall|j: int|
                    0 <= j < added.len() ==> (#[trigger] final(self).click_handlers@[n0 + j]).region
                        == added[j].region && cloned(added[j].handler, final(self).click_handlers@[n0 + j].handler)
            }),
    {
        let component = component.into_component();
        let mut handlers = component.click_handlers();
        self.click_handlers.append(&mut handlers);
        self.components.push(component);
        proof {
            assert(final(self).components@.subrange(0, old(self).components@.len() as int) =~= old(
                self,
            ).components@);
            assert(final(self).click_handlers@.subrange(0, old(self).click_handlers@.len() as int)
                =~= old(self).click_handlers@);
        }
    }

    /// The indices of the registered handlers whose region contains the
    /// point, in registration order.
    pub fn handlers_at_point(&self, x: i32, y: i32) -> (r: Vec<usize>)
        ensures
            r@ == spec_fired_indices(self.click_handlers@, x as int, y as int),
    {
        let n = self.click_handlers.len();
        let mut fired: Vec<usize> = Vec::new();
        let mut i: usize = 0;
        proof {
            assert(self.click_handlers@.take(0) =~= Seq::<ClickHandler<H>>::empty());
        }
        while i < n
            invariant
                n == self.click_handlers@.len(),
                i <= n,
                fired@ == spec_fired_indices(self.click_handlers@.take(i as int), x as int, y as int),
            decreases n - i,
        {
            proof {
                assert(self.click_handlers@.take(i + 1 as int).drop_last() =~= self.click_handlers@.take(
                    i as int,
                ));
                assert(self.click_handlers@.take(i + 1 as int).last() == self.click_handlers@[i as int]);
            }
            if self.click_handlers[i].region.contains_point(x, y) {
                fired.push(i);
            }
            i = i + 1;
        }
        proof {
            assert(self.click_handlers@.take(n as int) =~= self.click_handlers@);
        }
        fired
    }

    /// Decide one event. Quit terminates the loop. A button-down records
    /// the press position. A button-up within three units of the recorded
    /// press on both axes is a click and fires every handler whose region
    /// contains the up-point, in registration order; a farther button-up is
    /// a drag and fires none; either way the recorded press is cleared.
    pub fn handle_event(&mut self, event: Event) -> (r: EventOutcome)
        ensures
            final(self).components@ == old(self).components@,
            final(self).click_handlers@ == old(self).click_handlers@,
            match event {
                Event::Quit => r is Terminate && final(self).last_mouse_down_pos == old(
                    self,
                ).last_mouse_down_pos,
                Event::MouseButtonDown { x, y } => final(self).last_mouse_down_pos == Some((x, y))
                    && (r matches EventOutcome::Proceed { fired } && fired@ == Seq::<usize>::empty()),
                Event::MouseButtonUp { x, y } => final(self).last_mouse_down_pos is None && (
                r matches EventOutcome::Proceed { fired } && fired@ == (
                if spec_is_click(old(self).last_mouse_down_pos, x as int, y as int) {
                    spec_fired_indices(old(self).click_handlers@, x as int, y as int)
                } else {
                    Seq::<usize>::empty()
                })),
                Event::Other => r matches EventOutcome::Proceed { fired } && fired@ == Seq::<
                    usize,
                >::empty() && final(self).last_mouse_down_pos == old(self).last_mouse_down_pos,
            },
    {
        match event {
            Event::Quit => EventOutcome::Terminate,
            Event::MouseButtonDown { x, y } => {
                self.last_mouse_down_pos = Some((x, y));
                EventOutcome::Proceed { fired: Vec::new() }
            },
            Event::MouseButtonUp { x, y } => {
                let mut fired: Vec<usize> = Vec::new();
                if let Some(down) = self.last_mouse_down_pos {
                    let dx = x as i64 - down.0 as i64;
                    let dy = y as i64 - down.1 as i64;
                    if -2 <= dx && dx <= 2 && -2 <= dy && dy <= 2 {
                        fired = self.handlers_at_point(x, y);
                    }
                }
                self.last_mouse_down_pos = None;
                EventOutcome::Proceed { fired }
            },
            Event::Other => EventOutcome::Proceed { fired: Vec::new() },
        }
    }

    /// The strings this frame needs rasterized, in render order, with
    /// reactive payloads resolved against the store now.
    pub fn collect_texts(&self, rt: &Runtime<String>) -> (r: Vec<TextRequest>)
        requires
            forall|i: int|
                0 <= i < self.components@.len() ==> (#[trigger] self.components@[i]).states_valid(
                    rt@.len(),
                ),
        ensures
            r@ == spec_frame_text_requests(self.components@, rt@),
    {
        let n = self.components.len();
        let mut out: Vec<TextRequest> = Vec::new();
        let mut i: usize = 0;
        proof {
            assert(self.components@.take(0) =~= Seq::<Component<H>>::empty());
        }
        while i < n
            invariant
                n == self.components@.len(),
                i <= n,
                forall|k: int|
                    0 <= k < self.components@.len() ==> (#[trigger] self.components@[k]).states_valid(
                        rt@.len(),
                    ),
                out@ == spec_frame_text_requests(self.components@.take(i as int), rt@),
            decreases n - i,
        {
            proof {
                assert(self.components@.take(i + 1 as int).drop_last() =~= self.components@.take(
                    i as int,
                ));
                assert(self.components@.take(i + 1 as int).last() == self.components@[i as int]);
            }
            collect_component_texts(&self.components[i], rt, &mut out);
            i = i + 1;
        }
        proof {
            assert(self.components@.take(n as int) =~= self.components@);
        }
        out
    }

    /// Render one frame to its command list: select the background and
    /// clear, paint every component in registration order into a fresh
    /// context, and present. The first component error aborts the frame and
    /// is returned instead; nothing is presented then.
    pub fn render_frame(
        &self,
        rt: &Runtime<String>,
        rast: &Rasterizer,
        output_width: u32,
        output_height: u32,
        mouse_pos: (i32, i32),
    ) -> (r: Result<Vec<DrawCommand>, String>)
        requires
            output_width <= COORD_LIMIT,
            output_height <= COORD_LIMIT,
            rast.wf(),
            forall|i: int|
                0 <= i < self.components@.len() ==> (#[trigger] self.components@[i]).wf()
                    && self.components@[i].states_valid(rt@.len()),
        ensures
            ({
                let m = spec_render_frame(self.components@, rt@, rast@, output_width, output_height);
                match r {
                    Ok(cmds) => m.1 is Ok && cmds@ == m.0,
                    Err(e) => m.1 matches Err(ev) && e@ == ev,
                }
            }),
    {
        let ghost head = seq![
            DrawCommand::SetDrawColor(spec_background_color()),
            DrawCommand::Clear,
        ];
        let mut ctx = RenderingContext::new(output_width, output_height, mouse_pos);
        ctx.set_draw_color(Color::RGB(140, 64, 150));
        ctx.clear();
        proof {
            assert(ctx.commands@ =~= head);
            assert(self.components@.take(0) =~= Seq::<Component<H>>::empty());
        }
        let n = self.components.len();
        let mut i: usize = 0;
        while i < n
            invariant
                n == self.components@.len(),
                i <= n,
                rast.wf(),
                forall|k: int|
                    0 <= k < self.components@.len() ==> (#[trigger] self.components@[k]).wf()
                        && self.components@[k].states_valid(rt@.len()),
                ctx.wf(),
                ctx.clip is None,
                ctx.output_width == output_width,
                ctx.output_height == output_height,
                spec_render_list(self.components@.take(i as int), rt@, rast@, output_width,
                    output_height).1 is Ok,
                ctx.commands@ == head + spec_render_list(self.components@.take(i as int), rt@, rast@,
                    output_width, output_height).0,
            decreases n - i,
        {
            proof {
                assert(self.components@.take(i + 1 as int).drop_last() =~= self.components@.take(
                    i as int,
                ));
                assert(self.components@.take(i + 1 as int).last() == self.components@[i as int]);
            }
            let res = self.components[i].render(rt, rast, &mut ctx);
            match res {
                Ok(u) => {
                },
                Err(e) => {
                    proof {
                        lemma_render_list_error_stable(
                            self.components@,
                            rt@,
                            rast@,
                            output_width,
                            output_height,
                            i + 1 as int,
                        );
                    }
                    return Err(e);
                },
            }
            i = i + 1;
        }
        proof {
            assert(self.components@.take(n as int) =~= self.components@);
        }
        ctx.present();
        proof {
            let m = spec_render_frame(self.components@, rt@, rast@, output_width, output_height);
            assert(ctx.commands@ =~= m.0);
        }
        Ok(ctx.commands)
    }
}

/// Gather the rasterization requests of one tree, in render order,
/// appending to `out`.
fn collect_component_texts<H>(c: &Component<H>, rt: &Runtime<String>, out: &mut Vec<TextRequest>)
    requires
        c.states_valid(rt@.len()),
    ensures
        final(out)@ == old(out)@ + spec_text_requests(*c, rt@),
    decreases c.height(),
{
    match c {
        Component::Text(t) => {
            let text: String = match &t.text {
                TextPayload::Fixed(s) => s.clone(),
                TextPayload::FromState(st) => st.get(rt),
            };
            out.push(TextRequest { text, font_size: t.font_size, style: t.font_style });
            proof {
                assert(final(out)@ =~= old(out)@ + spec_text_requests(*c, rt@));
            }
        },
        Component::Button(b) => {
            match &b.child {
                Some(child) => {
                    collect_component_texts(&**child, rt, out);
                },
                None => {
                    proof {
                        assert(final(out)@ =~= old(out)@ + spec_text_requests(*c, rt@));
                    }
                },
            }
        },
    }
}

} // verus!
