use zeal::component::{Button, Component, IntoComponent, Text, TextPayload};
use zeal::engine::Engine;
use zeal::geometry::Rect;
use zeal::render::{Color, DrawCommand, FontStyle, Rasterizer, RenderingContext};
use zeal::state::Runtime;
use zeal::Size;

fn background() -> Color {
    Color::RGB(140, 64, 150)
}

fn white() -> Color {
    Color::RGB(255, 255, 255)
}

#[test]
fn text_frame_commands() {
    let rt: Runtime<String> = Runtime::new();
    let mut rast = Rasterizer::new();
    rast.record("hi".to_string(), 32, FontStyle::normal(), Ok((40, 20)));
    let mut engine: Engine<usize> = Engine::init();
    engine.add_component(Text::new("hi"));
    let cmds = engine.render_frame(&rt, &rast, 800, 600, (0, 0)).unwrap();
    assert_eq!(
        cmds,
        vec![
            DrawCommand::SetDrawColor(background()),
            DrawCommand::Clear,
            DrawCommand::SetDrawColor(white()),
            DrawCommand::CopyText {
                text: "hi".to_string(),
                font_size: 32,
                style: FontStyle::normal(),
                color: white(),
                dest: Rect::new(0, 0, 40, 20),
            },
            DrawCommand::Present,
        ]
    );
}

#[test]
fn oversized_text_is_shrunk_to_fit() {
    let rt: Runtime<String> = Runtime::new();
    let mut rast = Rasterizer::new();
    rast.record("big".to_string(), 32, FontStyle::normal(), Ok((1600, 300)));
    let mut engine: Engine<usize> = Engine::init();
    engine.add_component(Text::new("big"));
    let cmds = engine.render_frame(&rt, &rast, 800, 600, (0, 0)).unwrap();
    match &cmds[3] {
        DrawCommand::CopyText { dest, .. } => {
            assert_eq!(*dest, Rect::new(0, 0, 800, 150));
        }
        other => panic!("expected a text blit, got {:?}", other),
    }
}

#[test]
fn centered_text_is_offset_by_half_the_slack() {
    let rt: Runtime<String> = Runtime::new();
    let mut rast = Rasterizer::new();
    rast.record("c".to_string(), 32, FontStyle::normal(), Ok((20, 10)));
    let mut engine: Engine<usize> = Engine::init();
    engine.add_component(Text::new("c").align_center().vertical_align_middle());
    let cmds = engine.render_frame(&rt, &rast, 100, 50, (0, 0)).unwrap();
    match &cmds[3] {
        DrawCommand::CopyText { dest, .. } => {
            assert_eq!(*dest, Rect::new(40, 20, 20, 10));
        }
        other => panic!("expected a text blit, got {:?}", other),
    }
}

#[test]
fn right_aligned_text_touches_the_trailing_edge() {
    let rt: Runtime<String> = Runtime::new();
    let mut rast = Rasterizer::new();
    rast.record("r".to_string(), 32, FontStyle::normal(), Ok((20, 10)));
    let mut engine: Engine<usize> = Engine::init();
    engine.add_component(Text::new("r").align_right().vertical_align_bottom());
    let cmds = engine.render_frame(&rt, &rast, 100, 50, (0, 0)).unwrap();
    match &cmds[3] {
        DrawCommand::CopyText { dest, .. } => {
            assert_eq!(*dest, Rect::new(80, 40, 20, 10));
        }
        other => panic!("expected a text blit, got {:?}", other),
    }
}

#[test]
fn button_narrows_and_restores_the_viewport() {
    let rt: Runtime<String> = Runtime::new();
    let mut rast = Rasterizer::new();
    rast.record("hi".to_string(), 32, FontStyle::normal(), Ok((40, 20)));
    let grey = Color::RGB(35, 35, 35);
    let mut engine: Engine<usize> = Engine::init();
    engine.add_component(
        Button::new()
            .child(Text::new("hi"))
            .position(10, 10)
            .color(grey)
            .size(Size::Custom(100, 50))
            .on_click(0usize),
    );
    let cmds = engine.render_frame(&rt, &rast, 800, 600, (0, 0)).unwrap();
    let rect = Rect::new(10, 10, 100, 50);
    assert_eq!(
        cmds,
        vec![
            DrawCommand::SetDrawColor(background()),
            DrawCommand::Clear,
            DrawCommand::SetDrawColor(grey),
            DrawCommand::FillRect(rect),
            DrawCommand::SetViewport(Some(rect)),
            DrawCommand::SetDrawColor(white()),
            DrawCommand::CopyText {
                text: "hi".to_string(),
                font_size: 32,
                style: FontStyle::normal(),
                color: white(),
                dest: Rect::new(0, 0, 40, 20),
            },
            DrawCommand::SetViewport(None),
            DrawCommand::Present,
        ]
    );
}

#[test]
fn missing_rasterization_aborts_the_frame() {
    let rt: Runtime<String> = Runtime::new();
    let rast = Rasterizer::new();
    let mut engine: Engine<usize> = Engine::init();
    engine.add_component(Text::new("hi"));
    let err = engine.render_frame(&rt, &rast, 800, 600, (0, 0)).unwrap_err();
    assert_eq!(err, "no rasterization recorded for text");
}

#[test]
fn rasterizer_error_is_propagated() {
    let rt: Runtime<String> = Runtime::new();
    let mut rast = Rasterizer::new();
    rast.record(
        "hi".to_string(),
        32,
        FontStyle::normal(),
        Err("font failure".to_string()),
    );
    let mut engine: Engine<usize> = Engine::init();
    engine.add_component(Text::new("hi"));
    let err = engine.render_frame(&rt, &rast, 800, 600, (0, 0)).unwrap_err();
    assert_eq!(err, "font failure");
}

#[test]
fn clip_region_is_restored_when_the_child_fails() {
    let rt: Runtime<String> = Runtime::new();
    let rast = Rasterizer::new();
    let button: Component<usize> =
        Button::new().child(Text::new("hi")).position(5, 5).size(Size::Small).into_component();
    let mut ctx = RenderingContext::new(800, 600, (0, 0));
    let outer = Rect::new(1, 1, 400, 400);
    ctx.set_viewport(Some(outer));
    assert!(button.render(&rt, &rast, &mut ctx).is_err());
    assert_eq!(ctx.clip, Some(outer));
}

#[test]
fn clip_region_is_restored_after_success() {
    let rt: Runtime<String> = Runtime::new();
    let mut rast = Rasterizer::new();
    rast.record("hi".to_string(), 32, FontStyle::normal(), Ok((4, 2)));
    let button: Component<usize> =
        Button::new().child(Text::new("hi")).position(5, 5).size(Size::Small).into_component();
    let mut ctx = RenderingContext::new(800, 600, (0, 0));
    assert!(button.render(&rt, &rast, &mut ctx).is_ok());
    assert_eq!(ctx.clip, None);
}

#[test]
fn error_aborts_before_later_components_and_present() {
    let rt: Runtime<String> = Runtime::new();
    let mut rast = Rasterizer::new();
    rast.record("ok".to_string(), 32, FontStyle::normal(), Ok((10, 10)));
    let mut engine: Engine<usize> = Engine::init();
    engine.add_component(Text::new("ok"));
    engine.add_component(Text::new("broken"));
    engine.add_component(Text::new("ok"));
    let err = engine.render_frame(&rt, &rast, 800, 600, (0, 0)).unwrap_err();
    assert_eq!(err, "no rasterization recorded for text");
}

#[test]
fn reactive_text_reads_the_latest_value() {
    let mut rt: Runtime<String> = Runtime::new();
    let cell = rt.create_state("0".to_string());
    let mut rast = Rasterizer::new();
    rast.record("0".to_string(), 32, FontStyle::normal(), Ok((10, 10)));
    rast.record("1".to_string(), 32, FontStyle::normal(), Ok((10, 10)));
    let mut engine: Engine<usize> = Engine::init();
    engine.add_component(Text::from_state(cell));
    let cmds = engine.render_frame(&rt, &rast, 800, 600, (0, 0)).unwrap();
    match &cmds[3] {
        DrawCommand::CopyText { text, .. } => assert_eq!(text, "0"),
        other => panic!("expected a text blit, got {:?}", other),
    }
    cell.set(&mut rt, "1".to_string());
    let cmds = engine.render_frame(&rt, &rast, 800, 600, (0, 0)).unwrap();
    match &cmds[3] {
        DrawCommand::CopyText { text, .. } => assert_eq!(text, "1"),
        other => panic!("expected a text blit, got {:?}", other),
    }
}

#[test]
fn collect_texts_lists_requests_in_render_order() {
    let mut rt: Runtime<String> = Runtime::new();
    let cell = rt.create_state("42".to_string());
    let mut engine: Engine<usize> = Engine::init();
    engine.add_component(
        Button::new().child(Text::new("first").font_size(16)).on_click(0usize),
    );
    engine.add_component(Text::from_state(cell));
    let requests = engine.collect_texts(&rt);
    assert_eq!(requests.len(), 2);
    assert_eq!(requests[0].text, "first");
    assert_eq!(requests[0].font_size, 16);
    assert_eq!(requests[1].text, "42");
}

#[test]
fn plain_values_become_default_texts() {
    let as_text = |c: Component<usize>| -> String {
        match c {
            Component::Text(t) => match t.text {
                TextPayload::Fixed(s) => s,
                TextPayload::FromState(_) => panic!("expected a fixed payload"),
            },
            Component::Button(_) => panic!("expected a text component"),
        }
    };
    assert_eq!(as_text(IntoComponent::into_component("str".to_string())), "str");
    assert_eq!(as_text(IntoComponent::into_component("str")), "str");
    assert_eq!(as_text(IntoComponent::into_component(42u32)), "42");
    assert_eq!(as_text(IntoComponent::into_component(42u64)), "42");
    assert_eq!(as_text(IntoComponent::into_component(-42i32)), "-42");
    assert_eq!(as_text(IntoComponent::into_component(-42i64)), "-42");
    assert_eq!(as_text(IntoComponent::into_component(true)), "true");
    assert_eq!(as_text(IntoComponent::into_component(false)), "false");
}

#[test]
fn text_builders_set_their_fields() {
    let t = Text::new("x")
        .position(3, 4)
        .color(Color::RGB(1, 2, 3))
        .font_size(16)
        .align_right()
        .vertical_align_bottom()
        .font_style(FontStyle { bold: true, italic: false, underline: false, strikethrough: false });
    assert_eq!((t.x, t.y), (3, 4));
    assert_eq!(t.color, Color::RGB(1, 2, 3));
    assert_eq!(t.font_size, 16);
    assert!(t.font_style.bold);
    assert!(t.shrink_to_fit);
}

#[test]
fn check_render_ready_guards_the_render() {
    let mut rt: Runtime<String> = Runtime::new();
    let good: Component<usize> = Text::new("hi").into_component();
    assert!(good.check_render_ready(&rt));
    let oversized: Component<usize> = Text::new("hi").position(i32::MAX, 0).into_component();
    assert!(!oversized.check_render_ready(&rt));
    let cell = rt.create_state("v".to_string());
    let reactive: Component<usize> = Text::from_state(cell).into_component();
    assert!(reactive.check_render_ready(&rt));
}

#[test]
fn raster_entries_are_keyed_by_style_and_size() {
    let rt: Runtime<String> = Runtime::new();
    let bold = FontStyle { bold: true, italic: false, underline: false, strikethrough: false };
    let mut rast = Rasterizer::new();
    rast.record("hi".to_string(), 32, FontStyle::normal(), Ok((40, 20)));
    rast.record("hi".to_string(), 32, bold, Ok((50, 25)));
    let mut engine: Engine<usize> = Engine::init();
    engine.add_component(Text::new("hi").font_style(bold));
    let cmds = engine.render_frame(&rt, &rast, 800, 600, (0, 0)).unwrap();
    match &cmds[3] {
        DrawCommand::CopyText { dest, style, .. } => {
            assert_eq!(*style, bold);
            assert_eq!(*dest, Rect::new(0, 0, 50, 25));
        }
        other => panic!("expected a text blit, got {:?}", other),
    }
}

#[test]
fn first_recorded_entry_wins() {
    let rt: Runtime<String> = Runtime::new();
    let mut rast = Rasterizer::new();
    rast.record("hi".to_string(), 32, FontStyle::normal(), Ok((40, 20)));
    rast.record("hi".to_string(), 32, FontStyle::normal(), Ok((99, 99)));
    let mut engine: Engine<usize> = Engine::init();
    engine.add_component(Text::new("hi"));
    let cmds = engine.render_frame(&rt, &rast, 800, 600, (0, 0)).unwrap();
    match &cmds[3] {
        DrawCommand::CopyText { dest, .. } => assert_eq!(*dest, Rect::new(0, 0, 40, 20)),
        other => panic!("expected a text blit, got {:?}", other),
    }
}

#[test]
fn boxed_constructors_keep_their_value() {
    let boxed = Text::new("x").as_box::<usize>();
    match *boxed {
        Component::Text(t) => assert_eq!(t.font_size, 32),
        Component::Button(_) => panic!("expected a text component"),
    }
    let boxed: Box<Button<usize>> = Button::new().as_box();
    assert_eq!((boxed.width, boxed.height), (80, 40));
}
