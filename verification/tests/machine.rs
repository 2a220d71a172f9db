use simplot::canvas::{DrawTarget, Image, Point};
use simplot::events::EventSource;
use simplot::image::RawImage;
use simplot::plot_machine::{Control, PlotMachine};

const START_PIXELS: [u8; 4] = [90, 60, 30, 255];

fn fresh_machine() -> PlotMachine {
    let current = RawImage::from_pixels(START_PIXELS.to_vec(), 1, 1);
    let original = RawImage::from_pixels(START_PIXELS.to_vec(), 1, 1);
    let image = Image::new(current, original, Point { x: 0, y: 0 });
    PlotMachine::new(image, EventSource::new())
}

fn buffer_of(machine: &PlotMachine) -> Vec<u8> {
    match machine {
        PlotMachine::Ready(s) => s.plot.image.raw_pixels.clone(),
        PlotMachine::Simulating(s) => s.plot.image.raw_pixels.clone(),
        PlotMachine::End(s) => s.plot.image.raw_pixels.clone(),
    }
}

fn simulating_machine() -> PlotMachine {
    let mut machine = fresh_machine();
    machine.press(Control::Start);
    machine.update()
}

#[test]
fn event_source_press_is_consumed_by_one_poll() {
    let mut source = EventSource::new();
    source.press();
    assert!(source.poll());
    assert!(!source.poll());
}

#[test]
fn event_source_queues_presses() {
    let mut source = EventSource::new();
    source.press();
    source.press();
    assert!(source.poll());
    assert!(source.poll());
    assert!(!source.poll());
}

#[test]
fn ready_without_events_stays_ready() {
    let mut machine = fresh_machine();
    for _ in 0..5 {
        machine = machine.update();
        assert!(matches!(machine, PlotMachine::Ready(_)));
        assert_eq!(buffer_of(&machine), START_PIXELS.to_vec());
        assert_eq!(machine.draw(), DrawTarget::SourceImage);
    }
}

#[test]
fn start_press_transitions_once_and_is_consumed() {
    let mut machine = fresh_machine();
    machine.press(Control::Start);
    machine = machine.update();
    assert!(matches!(machine, PlotMachine::Simulating(_)));
    // The press is gone: the new state's own sources are empty, so pausing
    // has to come from a new press, not a leftover one.
    match &machine {
        PlotMachine::Simulating(s) => {
            assert_eq!(s.state.pause_event.pending, 0);
            assert_eq!(s.state.finish_event.pending, 0);
        }
        _ => unreachable!(),
    }
}

#[test]
fn simulating_applies_cumulative_steps() {
    let mut machine = simulating_machine();
    assert_eq!(buffer_of(&machine), START_PIXELS.to_vec());

    machine = machine.update();
    assert_eq!(buffer_of(&machine), vec![66, 66, 66, 255]);

    machine = machine.update();
    assert_eq!(buffer_of(&machine), vec![88, 88, 88, 255]);

    machine = machine.update();
    assert!(matches!(machine, PlotMachine::Simulating(_)));
    assert_eq!(buffer_of(&machine), vec![96, 96, 96, 255]);
}

#[test]
fn simulating_draws_the_buffer() {
    let machine = simulating_machine();
    assert_eq!(machine.draw(), DrawTarget::Buffer);
}

#[test]
fn pause_returns_to_ready_keeping_edits() {
    let mut machine = simulating_machine();
    machine = machine.update();
    let edited = buffer_of(&machine);
    machine.press(Control::Pause);
    machine = machine.update();
    match &machine {
        PlotMachine::Ready(s) => {
            assert!(s.state.image_drawn);
            assert_eq!(s.plot.image.raw_pixels, edited);
        }
        _ => panic!("expected Ready after pause"),
    }
    // A Ready state reached by pausing draws the edited buffer, not the
    // pristine source image.
    assert_eq!(machine.draw(), DrawTarget::Buffer);
}

#[test]
fn pause_outranks_finish_in_the_same_tick() {
    let mut machine = simulating_machine();
    machine.press(Control::Pause);
    machine.press(Control::Finish);
    machine = machine.update();
    assert!(matches!(machine, PlotMachine::Ready(_)));
}

#[test]
fn finish_moves_to_end_with_buffer_unchanged() {
    let mut machine = simulating_machine();
    machine = machine.update();
    let edited = buffer_of(&machine);
    machine.press(Control::Finish);
    machine = machine.update();
    assert!(matches!(machine, PlotMachine::End(_)));
    assert_eq!(buffer_of(&machine), edited);
    assert_eq!(machine.draw(), DrawTarget::Buffer);
}

#[test]
fn refresh_restores_the_pristine_buffer() {
    let mut machine = simulating_machine();
    machine = machine.update();
    machine = machine.update();
    assert_ne!(buffer_of(&machine), START_PIXELS.to_vec());
    machine.press(Control::Finish);
    machine = machine.update();
    machine.press(Control::Refresh);
    machine = machine.update();
    match &machine {
        PlotMachine::Ready(s) => {
            assert_eq!(s.plot.image.raw_pixels, START_PIXELS.to_vec());
            assert_eq!(s.plot.original.raw_pixels, START_PIXELS.to_vec());
            assert!(!s.state.image_drawn);
        }
        _ => panic!("expected Ready after refresh"),
    }
    assert_eq!(machine.draw(), DrawTarget::SourceImage);
}

#[test]
fn save_is_a_no_op_that_stays_in_end() {
    let mut machine = simulating_machine();
    machine = machine.update();
    machine.press(Control::Finish);
    machine = machine.update();
    let before = buffer_of(&machine);
    machine.press(Control::Save);
    machine = machine.update();
    assert!(matches!(machine, PlotMachine::End(_)));
    assert_eq!(buffer_of(&machine), before);
}

#[test]
fn refresh_outranks_save_in_the_same_tick() {
    let mut machine = simulating_machine();
    machine = machine.update();
    machine.press(Control::Finish);
    machine = machine.update();
    machine.press(Control::Refresh);
    machine.press(Control::Save);
    machine = machine.update();
    assert!(matches!(machine, PlotMachine::Ready(_)));
    assert_eq!(buffer_of(&machine), START_PIXELS.to_vec());
}

#[test]
fn end_without_events_stays_end() {
    let mut machine = simulating_machine();
    machine.press(Control::Finish);
    machine = machine.update();
    let before = buffer_of(&machine);
    for _ in 0..3 {
        machine = machine.update();
        assert!(matches!(machine, PlotMachine::End(_)));
        assert_eq!(buffer_of(&machine), before);
    }
}

#[test]
fn press_for_an_absent_control_is_dropped() {
    let mut machine = fresh_machine();
    machine.press(Control::Pause);
    machine.press(Control::Save);
    machine = machine.update();
    assert!(matches!(machine, PlotMachine::Ready(_)));
    match &machine {
        PlotMachine::Ready(s) => assert_eq!(s.state.start_event.pending, 0),
        _ => unreachable!(),
    }
}
