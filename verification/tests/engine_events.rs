use std::cell::RefCell;
use std::rc::Rc;
use zeal::component::{Button, Text};
use zeal::engine::{Engine, Event, EventOutcome};
use zeal::state::Runtime;
use zeal::{Color, Size};

fn fired_of(outcome: EventOutcome) -> Vec<usize> {
    match outcome {
        EventOutcome::Terminate => panic!("expected the loop to proceed"),
        EventOutcome::Proceed { fired } => fired,
    }
}

#[test]
fn quit_terminates() {
    let mut engine: Engine<usize> = Engine::init();
    assert_eq!(engine.handle_event(Event::Quit), EventOutcome::Terminate);
}

#[test]
fn other_events_do_nothing() {
    let mut engine: Engine<usize> = Engine::init();
    let fired = fired_of(engine.handle_event(Event::Other));
    assert!(fired.is_empty());
}

#[test]
fn up_without_down_fires_nothing() {
    let mut engine: Engine<usize> = Engine::init();
    engine.add_component(Button::new().size(Size::Large).on_click(0usize));
    let fired = fired_of(engine.handle_event(Event::MouseButtonUp { x: 10, y: 10 }));
    assert!(fired.is_empty());
}

#[test]
fn click_within_threshold_fires_containing_handlers() {
    let mut engine: Engine<usize> = Engine::init();
    engine.add_component(
        Button::new().position(200, 300).size(Size::Large).on_click(0usize),
    );
    let fired = fired_of(engine.handle_event(Event::MouseButtonDown { x: 210, y: 310 }));
    assert!(fired.is_empty());
    let fired = fired_of(engine.handle_event(Event::MouseButtonUp { x: 211, y: 311 }));
    assert_eq!(fired, vec![0]);
}

#[test]
fn click_at_exact_threshold_boundary() {
    let mut engine: Engine<usize> = Engine::init();
    engine.add_component(Button::new().position(0, 0).size(Size::Large).on_click(0usize));
    // |dx| == 2 is still a click
    fired_of(engine.handle_event(Event::MouseButtonDown { x: 10, y: 10 }));
    let fired = fired_of(engine.handle_event(Event::MouseButtonUp { x: 12, y: 8 }));
    assert_eq!(fired, vec![0]);
    // |dx| == 3 is a drag and fires nothing
    fired_of(engine.handle_event(Event::MouseButtonDown { x: 10, y: 10 }));
    let fired = fired_of(engine.handle_event(Event::MouseButtonUp { x: 13, y: 10 }));
    assert!(fired.is_empty());
    // |dy| == 3 is a drag too
    fired_of(engine.handle_event(Event::MouseButtonDown { x: 10, y: 10 }));
    let fired = fired_of(engine.handle_event(Event::MouseButtonUp { x: 10, y: 13 }));
    assert!(fired.is_empty());
}

#[test]
fn click_outside_region_fires_nothing() {
    let mut engine: Engine<usize> = Engine::init();
    engine.add_component(
        Button::new().position(200, 300).size(Size::Large).on_click(0usize),
    );
    fired_of(engine.handle_event(Event::MouseButtonDown { x: 500, y: 500 }));
    let fired = fired_of(engine.handle_event(Event::MouseButtonUp { x: 500, y: 500 }));
    assert!(fired.is_empty());
}

#[test]
fn down_position_is_cleared_after_up() {
    let mut engine: Engine<usize> = Engine::init();
    engine.add_component(Button::new().position(0, 0).size(Size::Large).on_click(0usize));
    fired_of(engine.handle_event(Event::MouseButtonDown { x: 10, y: 10 }));
    let fired = fired_of(engine.handle_event(Event::MouseButtonUp { x: 10, y: 10 }));
    assert_eq!(fired, vec![0]);
    // a second up with no new down is not a click
    let fired = fired_of(engine.handle_event(Event::MouseButtonUp { x: 10, y: 10 }));
    assert!(fired.is_empty());
}

#[test]
fn overlapping_regions_fire_in_registration_order() {
    let mut engine: Engine<usize> = Engine::init();
    engine.add_component(
        Button::new().position(0, 0).size(Size::Custom(100, 100)).on_click(0usize),
    );
    engine.add_component(
        Button::new().position(50, 0).size(Size::Custom(100, 100)).on_click(1usize),
    );
    fired_of(engine.handle_event(Event::MouseButtonDown { x: 60, y: 10 }));
    let fired = fired_of(engine.handle_event(Event::MouseButtonUp { x: 60, y: 10 }));
    assert_eq!(fired, vec![0, 1]);
    let handlers: Vec<usize> =
        fired.iter().map(|&i| engine.click_handlers[i].handler).collect();
    assert_eq!(handlers, vec![0, 1]);
}

#[test]
fn click_region_is_captured_at_registration() {
    let mut engine: Engine<usize> = Engine::init();
    // on_click before position: the region keeps the pre-move rectangle
    engine.add_component(
        Button::new().size(Size::Large).on_click(0usize).position(200, 300),
    );
    assert_eq!(engine.click_handlers.len(), 1);
    let region = engine.click_handlers[0].region;
    assert_eq!((region.x, region.y, region.width, region.height), (0, 0, 120, 40));
    fired_of(engine.handle_event(Event::MouseButtonDown { x: 210, y: 310 }));
    let fired = fired_of(engine.handle_event(Event::MouseButtonUp { x: 210, y: 310 }));
    assert!(fired.is_empty());
}

#[test]
fn multiple_handlers_on_one_button() {
    let mut engine: Engine<usize> = Engine::init();
    engine.add_component(
        Button::new().position(0, 0).size(Size::Small).on_click(5usize).on_click(6usize),
    );
    assert_eq!(engine.click_handlers.len(), 2);
    fired_of(engine.handle_event(Event::MouseButtonDown { x: 10, y: 10 }));
    let fired = fired_of(engine.handle_event(Event::MouseButtonUp { x: 10, y: 10 }));
    assert_eq!(fired, vec![0, 1]);
}

#[test]
fn size_presets() {
    let mut engine: Engine<usize> = Engine::init();
    engine.add_component(Button::new().size(Size::Small).on_click(0usize));
    engine.add_component(Button::new().size(Size::Medium).on_click(1usize));
    engine.add_component(Button::new().size(Size::Large).on_click(2usize));
    engine.add_component(Button::new().size(Size::from((12, 34))).on_click(3usize));
    let dims: Vec<(u32, u32)> = engine
        .click_handlers
        .iter()
        .map(|h| (h.region.width, h.region.height))
        .collect();
    assert_eq!(dims, vec![(40, 40), (80, 40), (120, 40), (12, 34)]);
}

#[test]
fn end_to_end_click_increments_counter() {
    // a Large (120x40) button at (200, 300) whose click handler increments
    // a counter cell that starts at zero
    let runtime = Rc::new(RefCell::new(Runtime::<i64>::new()));
    let counter = runtime.borrow_mut().create_state(0);
    let mut engine: Engine<Rc<dyn Fn()>> = Engine::init();
    let handler_runtime = Rc::clone(&runtime);
    engine.add_component(
        Button::new()
            .child(Text::new("Increment").font_size(16))
            .position(200, 300)
            .color(Color::RGB(35, 35, 35))
            .size(Size::Large)
            .on_click(Rc::new(move || {
                let mut rt = handler_runtime.borrow_mut();
                let prev = counter.get(&rt);
                counter.set(&mut rt, prev + 1);
            }) as Rc<dyn Fn()>),
    );
    fired_of(engine.handle_event(Event::MouseButtonDown { x: 210, y: 310 }));
    let fired = fired_of(engine.handle_event(Event::MouseButtonUp { x: 211, y: 311 }));
    assert_eq!(fired.len(), 1);
    for i in fired {
        (engine.click_handlers[i].handler)();
    }
    assert_eq!(counter.get(&runtime.borrow()), 1);
}
