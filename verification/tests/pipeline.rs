use obs_wlroots::capture::{FrameAction, FrameEvent, WlrBuffer, WlrFrame};
use obs_wlroots::channel::{Offer, PendingSlot};
use obs_wlroots::frame::FrameData;
use obs_wlroots::metadata::FrameMetadata;
use obs_wlroots::output::{OutputEvent, OutputRegistry, WlrOutput};
use obs_wlroots::properties::{Properties, PropertyList};
use obs_wlroots::shm::ShmFd;
use obs_wlroots::order::{rank, Rank};
use obs_wlroots::source::{
    DisplayTarget, GlobalEvent, LinkError, Settings, Source, VideoSource, WlrSource,
};
use obs_wlroots::update::{Command, Lifecycle, Signal, UpdateCoordinator};
use obs_wlroots::video::{LoopStep, VideoThread};

fn frame_of(width: u32, height: u32, fill: u8) -> FrameData {
    let meta = FrameMetadata::new(1, width, height, width * 4);
    let bytes = vec![fill; meta.size()];
    FrameData::new(&bytes, &meta, 0).unwrap()
}

fn ready() -> FrameEvent {
    FrameEvent::Ready { tv_sec_hi: 0, tv_sec_lo: 3, tv_nsec: 0 }
}

fn buffer_for(meta: FrameMetadata, fd: i32) -> WlrBuffer {
    let mut shm = ShmFd::open(String::from("/obs_wlroots"), fd).unwrap();
    shm.unlink(0).unwrap();
    WlrBuffer::new(shm, meta).unwrap()
}

fn settings_for(output: &str) -> Settings {
    Settings { display: None, output: Some(String::from(output)) }
}

fn announce(source: &mut WlrSource, id: u32, name: &str) {
    source.output_added(id);
    source.output_event(id, OutputEvent::Name(String::from(name)));
    source.output_event(id, OutputEvent::Done);
}

/// Carries out what the coordinator owes until nothing is owed, and returns
/// the commands in the order they were carried out.
fn settle(source: &mut WlrSource) -> Vec<Command> {
    let mut done = Vec::new();
    loop {
        match source.owed() {
            Command::Nothing => return done,
            Command::Spawn(id) => {
                done.push(Command::Spawn(id));
                source.thread_started();
            }
            Command::Stop(id) => {
                done.push(Command::Stop(id));
                source.thread_joined();
            }
        }
    }
}

/// One capture cycle of the thread against `frame`; returns whether a buffer
/// had to be created.
fn capture(source: &mut WlrSource, frame: &mut WlrFrame, meta: FrameMetadata, fd: i32) -> bool {
    assert_eq!(source.capture_step(frame), LoopStep::Capture);
    let action = frame.handle_frame_event(FrameEvent::Buffer {
        format: meta.format,
        width: meta.width,
        height: meta.height,
        stride: meta.stride,
    });
    let created = match action {
        FrameAction::Allocate { size } => {
            assert_eq!(size, meta.size());
            assert!(frame.install_buffer(buffer_for(meta, fd)).is_ok());
            true
        }
        FrameAction::Submit => false,
        other => panic!("unexpected action {:?}", other),
    };
    assert_eq!(source.capture_step(frame), LoopStep::Dispatch);
    assert_eq!(frame.handle_frame_event(ready()), FrameAction::ReadOut { size: meta.size() });
    let mapped = vec![0x7fu8; meta.size()];
    let data = frame.complete(Some(&mapped), source.capture_running()).unwrap();
    assert!(matches!(source.publish(data), Offer::Accepted));
    created
}

#[test]
fn slot_holds_one_frame() {
    let mut slot = PendingSlot::new();
    assert!(!slot.is_full());
    assert!(slot.take().is_none());
    assert!(matches!(slot.offer(frame_of(2, 2, 1)), Offer::Accepted));
    assert!(slot.is_full());
    match slot.offer(frame_of(3, 3, 2)) {
        Offer::Full(back) => assert_eq!(back.meta().width, 3),
        other => panic!("unexpected outcome {:?}", other),
    }
    let first = slot.take().unwrap();
    assert_eq!(first.meta().width, 2);
    assert_eq!(first.data(), &[1u8; 16][..]);
    assert!(!slot.is_full());
    assert!(matches!(slot.offer(frame_of(3, 3, 2)), Offer::Accepted));
    assert_eq!(slot.take().unwrap().meta().width, 3);
    assert!(slot.take().is_none());
}

#[test]
fn closed_slot_turns_offers_away() {
    let mut slot = PendingSlot::new();
    assert!(matches!(slot.offer(frame_of(2, 2, 1)), Offer::Accepted));
    assert!(!slot.is_closed());
    assert_eq!(slot.close().unwrap().meta().width, 2);
    assert!(slot.is_closed());
    assert!(!slot.is_full());
    match slot.offer(frame_of(4, 4, 2)) {
        Offer::Closed(back) => assert_eq!(back.meta().width, 4),
        other => panic!("unexpected outcome {:?}", other),
    }
    assert!(slot.take().is_none());
    assert!(slot.close().is_none());
}

#[test]
fn coordinator_walks_through_its_phases() {
    let mut coordinator = UpdateCoordinator::new();
    assert_eq!(coordinator.phase(), Lifecycle::Idle);
    assert_eq!(coordinator.select(None), Command::Nothing);
    assert_eq!(coordinator.select(Some(3)), Command::Spawn(3));
    assert_eq!(coordinator.phase(), Lifecycle::Starting(3));
    assert_eq!(coordinator.owed(), Command::Spawn(3));
    assert_eq!(coordinator.active(), None);
    assert_eq!(coordinator.started(), Command::Nothing);
    assert_eq!(coordinator.phase(), Lifecycle::Running(3));
    assert_eq!(coordinator.active(), Some(3));
    assert_eq!(coordinator.owed(), Command::Nothing);
    assert_eq!(coordinator.select(Some(4)), Command::Stop(3));
    assert_eq!(coordinator.phase(), Lifecycle::Stopping(3));
    assert_eq!(coordinator.owed(), Command::Stop(3));
    assert_eq!(coordinator.joined(), Command::Spawn(4));
    assert_eq!(coordinator.phase(), Lifecycle::Starting(4));
    assert_eq!(coordinator.started(), Command::Nothing);
    assert_eq!(coordinator.select(None), Command::Stop(4));
    assert_eq!(coordinator.joined(), Command::Nothing);
    assert_eq!(coordinator.phase(), Lifecycle::Idle);
    assert_eq!(coordinator.target(), None);
}

#[test]
fn selecting_the_active_output_again_does_nothing() {
    let mut coordinator = UpdateCoordinator::new();
    assert_eq!(coordinator.select(Some(3)), Command::Spawn(3));
    assert_eq!(coordinator.select(Some(3)), Command::Nothing);
    assert_eq!(coordinator.started(), Command::Nothing);
    for _ in 0..3 {
        assert_eq!(coordinator.select(Some(3)), Command::Nothing);
        assert_eq!(coordinator.phase(), Lifecycle::Running(3));
    }
}

#[test]
fn selection_changes_while_a_start_or_stop_is_under_way() {
    let mut coordinator = UpdateCoordinator::new();
    assert_eq!(coordinator.select(Some(1)), Command::Spawn(1));
    assert_eq!(coordinator.select(Some(2)), Command::Nothing);
    assert_eq!(coordinator.started(), Command::Stop(1));
    assert_eq!(coordinator.select(Some(3)), Command::Nothing);
    assert_eq!(coordinator.started(), Command::Nothing);
    assert_eq!(coordinator.joined(), Command::Spawn(3));
    assert_eq!(coordinator.joined(), Command::Nothing);
    assert_eq!(coordinator.started(), Command::Nothing);
    assert_eq!(coordinator.phase(), Lifecycle::Running(3));
}

#[test]
fn removal_of_the_target_stops_capture() {
    let mut coordinator = UpdateCoordinator::new();
    coordinator.select(Some(5));
    coordinator.started();
    assert_eq!(coordinator.output_removed(6), Command::Nothing);
    assert_eq!(coordinator.phase(), Lifecycle::Running(5));
    assert_eq!(coordinator.output_removed(5), Command::Stop(5));
    assert_eq!(coordinator.target(), None);
    assert_eq!(coordinator.joined(), Command::Nothing);
    assert_eq!(coordinator.phase(), Lifecycle::Idle);
}

#[test]
fn shutdown_is_final() {
    let mut coordinator = UpdateCoordinator::new();
    coordinator.select(Some(5));
    assert_eq!(coordinator.shutdown(), Command::Nothing);
    assert_eq!(coordinator.started(), Command::Stop(5));
    assert_eq!(coordinator.select(Some(6)), Command::Nothing);
    assert_eq!(coordinator.joined(), Command::Nothing);
    assert_eq!(coordinator.phase(), Lifecycle::Idle);
    assert_eq!(coordinator.select(Some(6)), Command::Nothing);
    assert_eq!(coordinator.phase(), Lifecycle::Idle);
}

#[test]
fn any_signal_sequence_keeps_at_most_one_thread() {
    let signals = [
        Signal::Select(Some(1)),
        Signal::Joined,
        Signal::Select(Some(2)),
        Signal::Started,
        Signal::Started,
        Signal::Removed(2),
        Signal::Select(Some(3)),
        Signal::Joined,
        Signal::Started,
        Signal::Removed(3),
        Signal::Joined,
        Signal::Select(None),
        Signal::Select(Some(4)),
        Signal::Shutdown,
        Signal::Started,
        Signal::Joined,
        Signal::Select(Some(5)),
    ];
    let mut coordinator = UpdateCoordinator::new();
    let mut threads = 0i32;
    for signal in signals {
        let stopping = matches!(coordinator.phase(), Lifecycle::Stopping(_));
        let command = coordinator.handle(signal);
        if signal == Signal::Joined && stopping {
            threads -= 1;
        }
        assert!(threads >= 0);
        if let Command::Spawn(_) = command {
            assert_eq!(threads, 0);
            threads += 1;
        }
        assert!(threads <= 1);
        assert_eq!(threads == 0, coordinator.phase() == Lifecycle::Idle);
    }
    assert_eq!(threads, 0);
}

#[test]
fn output_is_named_unknown_until_told() {
    let mut output = WlrOutput::new(42);
    assert_eq!(output.id(), 42);
    assert_eq!(output.name(), "<unknown>");
    assert!(!output.handle_event(OutputEvent::Other));
    assert!(!output.handle_event(OutputEvent::Name(String::from("DP-1"))));
    assert_eq!(output.name(), "DP-1");
    assert!(output.handle_event(OutputEvent::Done));
    assert_eq!(output.name(), "DP-1");
    assert_eq!(output.id(), 42);
}

#[test]
fn output_is_listed_once_resolved() {
    let mut registry = OutputRegistry::new();
    assert!(registry.snapshot().is_empty());
    registry.on_output_added(10);
    assert_eq!(registry.lookup("HDMI-A-1"), None);
    registry.on_name(10, String::from("HDMI-A-1"));
    assert_eq!(registry.lookup("HDMI-A-1"), None);
    assert!(registry.snapshot().is_empty());
    assert!(registry.on_done(10));
    assert_eq!(registry.lookup("HDMI-A-1"), Some(10));
    assert_eq!(registry.name_of(10), Some("HDMI-A-1"));
    assert_eq!(registry.snapshot(), vec![(String::from("HDMI-A-1"), 10)]);
    assert!(registry.knows(10));
    assert!(!registry.knows(11));
    assert!(!registry.on_done(10));
    assert!(!registry.on_done(11));
}

#[test]
fn output_without_a_name_is_listed_as_unknown() {
    let mut registry = OutputRegistry::new();
    registry.on_output_added(7);
    assert!(registry.on_output_event(7, OutputEvent::Done));
    assert_eq!(registry.lookup("<unknown>"), Some(7));
    registry.on_output_added(8);
    assert!(!registry.on_output_event(8, OutputEvent::Other));
    assert!(registry.on_output_event(8, OutputEvent::Done));
    assert_eq!(registry.lookup("<unknown>"), Some(8));
    assert_eq!(registry.name_of(7), None);
    assert_eq!(registry.snapshot().len(), 1);
}

#[test]
fn removed_output_disappears() {
    let mut registry = OutputRegistry::new();
    for (id, name) in [(1, "A"), (2, "B"), (3, "C")] {
        registry.on_output_added(id);
        assert!(!registry.on_output_event(id, OutputEvent::Name(String::from(name))));
        assert!(registry.on_output_event(id, OutputEvent::Done));
    }
    assert!(registry.on_output_removed(2));
    assert_eq!(registry.lookup("B"), None);
    assert_eq!(registry.lookup("A"), Some(1));
    assert_eq!(registry.lookup("C"), Some(3));
    assert!(!registry.on_output_removed(2));
    assert_eq!(
        registry.snapshot(),
        vec![(String::from("A"), 1), (String::from("C"), 3)]
    );
}

#[test]
fn output_removed_while_resolving_is_never_listed() {
    let mut registry = OutputRegistry::new();
    registry.on_output_added(4);
    registry.on_name(4, String::from("eDP-1"));
    assert!(!registry.on_output_removed(4));
    assert!(!registry.on_done(4));
    assert_eq!(registry.lookup("eDP-1"), None);
    assert!(registry.snapshot().is_empty());
}

#[test]
fn known_output_is_not_added_twice() {
    let mut registry = OutputRegistry::new();
    registry.on_output_added(4);
    registry.on_name(4, String::from("eDP-1"));
    registry.on_output_added(4);
    assert!(registry.on_done(4));
    assert_eq!(registry.lookup("eDP-1"), Some(4));
    registry.on_output_added(4);
    assert!(!registry.on_done(4));
    registry.on_name(4, String::from("other"));
    assert_eq!(registry.lookup("other"), None);
    assert_eq!(registry.name_of(4), Some("eDP-1"));
}

#[test]
fn thread_parks_without_demand_and_leaves_when_stopped() {
    let mut thread = VideoThread::new(9);
    let mut frame = WlrFrame::new();
    assert_eq!(thread.output(), 9);
    assert!(thread.is_running());
    assert!(!thread.has_demand());
    assert_eq!(thread.next_step(&mut frame), LoopStep::Park);
    assert!(thread.request_frame());
    assert_eq!(thread.next_step(&mut frame), LoopStep::Capture);
    assert!(frame.waiting());
    assert!(!thread.has_demand());
    assert_eq!(thread.next_step(&mut frame), LoopStep::Dispatch);
    thread.stop();
    assert_eq!(thread.next_step(&mut frame), LoopStep::Dispatch);
    assert_eq!(frame.handle_frame_event(FrameEvent::Failed), FrameAction::Destroy);
    assert_eq!(thread.next_step(&mut frame), LoopStep::Exit);
    assert!(!thread.request_frame());
    assert_eq!(thread.next_step(&mut frame), LoopStep::Exit);
    assert!(!frame.waiting());
}

#[test]
fn closed_slot_stops_the_thread() {
    let mut thread = VideoThread::new(9);
    let mut slot = PendingSlot::new();
    assert!(matches!(thread.publish(&mut slot, frame_of(1, 1, 0)), Offer::Accepted));
    assert!(matches!(thread.publish(&mut slot, frame_of(1, 1, 0)), Offer::Full(_)));
    assert!(thread.is_running());
    slot.close();
    assert!(matches!(thread.publish(&mut slot, frame_of(1, 1, 0)), Offer::Closed(_)));
    assert!(!thread.is_running());
}

#[test]
fn display_comes_from_settings_or_environment() {
    let none = Settings { display: None, output: None };
    assert!(matches!(none.display_target(), DisplayTarget::Environment));
    assert_eq!(none.output_name(), "");
    let empty = Settings { display: Some(String::new()), output: Some(String::from("DP-2")) };
    assert!(matches!(empty.display_target(), DisplayTarget::Environment));
    assert_eq!(empty.output_name(), "DP-2");
    let named = Settings { display: Some(String::from("wayland-1")), output: None };
    match named.display_target() {
        DisplayTarget::Named(name) => assert_eq!(name, "wayland-1"),
        DisplayTarget::Environment => panic!("the stored name was ignored"),
    }
}

#[test]
fn failed_link_gives_no_source() {
    let settings = settings_for("DP-1");
    let refused = WlrSource::create(&settings, Err(LinkError::Connection(String::from("no socket"))));
    assert_eq!(refused.unwrap_err(), "Error connecting to wayland display: no socket");
    let lacking = WlrSource::create(
        &settings,
        Err(LinkError::Negotiation(String::from("zwlr_screencopy_manager_v1"))),
    );
    assert_eq!(lacking.unwrap_err(), "Error instantiating zwlr_screencopy_manager_v1");
    let source = WlrSource::create(&settings, Ok(())).unwrap();
    assert_eq!(source.owed(), Command::Nothing);
    assert!(!source.should_render());
    assert_eq!((source.width(), source.height()), (0, 0));
}

#[test]
fn selection_made_before_the_output_appears_takes_effect_later() {
    let mut source = WlrSource::create(&settings_for("DP-1"), Ok(())).unwrap();
    assert_eq!(source.owed(), Command::Nothing);
    announce(&mut source, 3, "DP-2");
    assert_eq!(source.owed(), Command::Nothing);
    announce(&mut source, 4, "DP-1");
    assert_eq!(source.owed(), Command::Spawn(4));
    assert_eq!(settle(&mut source), vec![Command::Spawn(4)]);
    assert!(source.should_render());
}

fn offered(source: &mut WlrSource) -> Vec<(String, String)> {
    let properties = source.get_properties();
    assert_eq!(properties.lists().len(), 1);
    let list = &properties.lists()[0];
    assert_eq!(list.name(), "output");
    assert_eq!(list.description(), "Output");
    list.items().clone()
}

#[test]
fn properties_list_each_output_by_name() {
    let mut source = WlrSource::new();
    assert!(offered(&mut source).is_empty());
    announce(&mut source, 1, "DP-1");
    source.output_added(2);
    announce(&mut source, 3, "HDMI-A-1");
    assert_eq!(
        offered(&mut source),
        vec![
            (String::from("DP-1"), String::from("DP-1")),
            (String::from("HDMI-A-1"), String::from("HDMI-A-1")),
        ]
    );
}

#[test]
fn outputs_are_listed_in_the_order_of_their_names() {
    let mut source = WlrSource::new();
    for (id, name) in [(5, "eDP-1"), (2, "HDMI-A-2"), (9, "DP-10"), (3, "DP-1"), (7, "HDMI-A-1")] {
        announce(&mut source, id, name);
    }
    let names: Vec<String> = offered(&mut source).into_iter().map(|(name, _)| name).collect();
    assert_eq!(names, vec!["DP-1", "DP-10", "HDMI-A-1", "HDMI-A-2", "eDP-1"]);
    source.output_removed(9);
    let names: Vec<String> = offered(&mut source).into_iter().map(|(name, _)| name).collect();
    assert_eq!(names, vec!["DP-1", "HDMI-A-1", "HDMI-A-2", "eDP-1"]);
}

#[test]
fn names_are_ranked_by_their_bytes() {
    assert_eq!(rank("DP-1", "DP-1"), Rank::Same);
    assert_eq!(rank("DP-1", "DP-10"), Rank::Before);
    assert_eq!(rank("DP-10", "DP-1"), Rank::After);
    assert_eq!(rank("DP-2", "DP-10"), Rank::After);
    assert_eq!(rank("", "a"), Rank::Before);
    assert_eq!(rank("", ""), Rank::Same);
    assert_eq!(rank("Z", "a"), Rank::Before);
    assert_eq!(rank("z", "\u{e9}"), Rank::Before);
    assert_eq!(rank("\u{10000}", "\u{ffff}"), Rank::After);
}

#[test]
fn only_output_globals_enter_the_table() {
    let mut source = WlrSource::new();
    let seat = GlobalEvent::New { id: 1, interface: String::from("wl_seat"), version: 7 };
    assert_eq!(source.handle_global(seat), None);
    let output = GlobalEvent::New { id: 2, interface: String::from("wl_output"), version: 3 };
    assert_eq!(source.handle_global(output.clone()), Some((2, 3)));
    assert_eq!(source.handle_global(output), None);
    source.output_event(2, OutputEvent::Name(String::from("DP-1")));
    source.output_event(2, OutputEvent::Done);
    source.update(&settings_for("DP-1"));
    assert_eq!(settle(&mut source), vec![Command::Spawn(2)]);
    let other = GlobalEvent::Removed { id: 2, interface: String::from("wl_seat") };
    assert_eq!(source.handle_global(other), None);
    assert_eq!(source.owed(), Command::Nothing);
    let gone = GlobalEvent::Removed { id: 2, interface: String::from("wl_output") };
    assert_eq!(source.handle_global(gone), None);
    assert_eq!(source.owed(), Command::Stop(2));
    assert!(offered(&mut source).is_empty());
}

#[test]
fn property_lists_are_filled_in_order() {
    let mut properties = Properties::new();
    assert!(properties.lists().is_empty());
    let list = properties.add_string_list("output", "Output");
    assert_eq!(list.add_item("first", "1"), 0);
    assert_eq!(list.add_item("second", "2"), 1);
    let other = properties.add_string_list("display", "Display");
    assert_eq!(other.add_item("only", "x"), 0);
    other.clear();
    assert_eq!(other.add_item("again", "y"), 0);
    assert_eq!(properties.lists().len(), 2);
    assert_eq!(properties.lists()[0].name(), "output");
    assert_eq!(properties.lists()[0].description(), "Output");
    assert_eq!(
        properties.lists()[0].items(),
        &vec![(String::from("first"), String::from("1")), (String::from("second"), String::from("2"))]
    );
    assert_eq!(properties.lists()[1].name(), "display");
    assert_eq!(properties.lists()[1].items(), &vec![(String::from("again"), String::from("y"))]);
}

#[test]
fn render_without_a_thread_does_nothing() {
    let mut source = WlrSource::new();
    assert!(matches!(source.publish(frame_of(8, 8, 0)), Offer::Accepted));
    source.render();
    assert_eq!((source.width(), source.height()), (0, 0));
    assert!(source.current_frame().is_none());
    assert!(matches!(source.publish(frame_of(8, 8, 0)), Offer::Full(_)));
}

#[test]
fn update_twice_restarts_nothing() {
    let mut source = WlrSource::new();
    announce(&mut source, 1, "DP-1");
    announce(&mut source, 2, "DP-2");
    source.update(&settings_for("DP-1"));
    assert_eq!(settle(&mut source), vec![Command::Spawn(1)]);
    source.update(&settings_for("DP-1"));
    assert_eq!(source.owed(), Command::Nothing);
    assert!(source.capture_running());
    source.update(&settings_for("DP-2"));
    assert!(!source.capture_running());
    assert_eq!(settle(&mut source), vec![Command::Stop(1), Command::Spawn(2)]);
    source.update(&settings_for("DP-2"));
    assert_eq!(source.owed(), Command::Nothing);
    source.update(&settings_for("gone"));
    assert_eq!(settle(&mut source), vec![Command::Stop(2)]);
    assert!(!source.should_render());
}

#[test]
fn three_renders_of_one_output_share_one_buffer() {
    let meta = FrameMetadata::new(1, 800, 600, 3200);
    let mut source = WlrSource::new();
    announce(&mut source, 1, "A");
    source.update(&settings_for("A"));
    assert_eq!(settle(&mut source), vec![Command::Spawn(1)]);
    let mut frame = WlrFrame::new();
    assert_eq!((source.width(), source.height()), (0, 0));

    // The first render only raises the demand: no frame can be there yet.
    source.render();
    assert_eq!((source.width(), source.height()), (0, 0));
    assert!(capture(&mut source, &mut frame, meta, 30));
    assert_eq!(frame.buffer().as_ref().unwrap().size(), 600 * 3200);
    assert_eq!(source.capture_step(&mut frame), LoopStep::Park);

    source.render();
    assert_eq!((source.width(), source.height()), (800, 600));
    assert!(!capture(&mut source, &mut frame, meta, 31));
    assert_eq!(frame.buffer().as_ref().unwrap().fd().as_raw(), 30);

    source.render();
    assert_eq!((source.width(), source.height()), (800, 600));
    assert!(!capture(&mut source, &mut frame, meta, 32));
    assert_eq!(frame.buffer().as_ref().unwrap().fd().as_raw(), 30);
    assert_eq!(source.current_frame().as_ref().unwrap().meta(), meta);
    assert_eq!(source.current_frame().as_ref().unwrap().source_frame().timestamp, 3_000_000_000);
}

#[test]
fn render_repeats_the_last_dimensions_without_a_new_frame() {
    let meta = FrameMetadata::new(1, 320, 200, 1280);
    let mut source = WlrSource::new();
    announce(&mut source, 1, "A");
    source.update(&settings_for("A"));
    settle(&mut source);
    let mut frame = WlrFrame::new();
    source.render();
    capture(&mut source, &mut frame, meta, 30);
    source.render();
    assert_eq!((source.width(), source.height()), (320, 200));
    assert_eq!(source.capture_step(&mut frame), LoopStep::Capture);
    assert_eq!(frame.handle_frame_event(FrameEvent::Failed), FrameAction::Destroy);
    source.render();
    assert_eq!((source.width(), source.height()), (320, 200));
    assert!(source.current_frame().is_some());
}

#[test]
fn output_removed_during_a_cycle_yields_no_frame() {
    let meta = FrameMetadata::new(1, 800, 600, 3200);
    let mut source = WlrSource::new();
    announce(&mut source, 1, "A");
    source.update(&settings_for("A"));
    settle(&mut source);
    let mut frame = WlrFrame::new();
    source.render();
    assert_eq!(source.capture_step(&mut frame), LoopStep::Capture);
    assert_eq!(
        frame.handle_frame_event(FrameEvent::Buffer { format: 1, width: 800, height: 600, stride: 3200 }),
        FrameAction::Allocate { size: 1_920_000 }
    );
    assert!(frame.install_buffer(buffer_for(meta, 30)).is_ok());

    source.output_removed(1);
    assert_eq!(source.owed(), Command::Stop(1));
    assert!(!source.capture_running());
    assert!(!source.should_render());

    // The cycle in flight is waited for and ends without a frame.
    assert_eq!(source.capture_step(&mut frame), LoopStep::Dispatch);
    assert_eq!(frame.handle_frame_event(ready()), FrameAction::ReadOut { size: 1_920_000 });
    let mapped = vec![0u8; 1_920_000];
    assert!(frame.complete(Some(&mapped), source.capture_running()).is_none());
    assert_eq!(source.capture_step(&mut frame), LoopStep::Exit);

    assert_eq!(settle(&mut source), vec![Command::Stop(1)]);
    assert_eq!(source.owed(), Command::Nothing);
    source.render();
    assert_eq!((source.width(), source.height()), (0, 0));
    assert!(source.current_frame().is_none());
    assert_eq!(source.capture_step(&mut frame), LoopStep::Exit);
    assert!(offered(&mut source).is_empty());
}

#[test]
fn failing_cycle_of_a_removed_output_ends_quietly() {
    let mut source = WlrSource::new();
    announce(&mut source, 1, "A");
    source.update(&settings_for("A"));
    settle(&mut source);
    let mut frame = WlrFrame::new();
    source.render();
    assert_eq!(source.capture_step(&mut frame), LoopStep::Capture);
    source.output_removed(1);
    assert_eq!(source.capture_step(&mut frame), LoopStep::Dispatch);
    assert_eq!(frame.handle_frame_event(FrameEvent::Failed), FrameAction::Destroy);
    assert_eq!(source.capture_step(&mut frame), LoopStep::Exit);
    assert_eq!(settle(&mut source), vec![Command::Stop(1)]);
    assert!(frame.release().is_none());
}

#[test]
fn shutdown_stops_the_thread_and_closes_the_slot() {
    let meta = FrameMetadata::new(1, 16, 16, 64);
    let mut source = WlrSource::new();
    announce(&mut source, 1, "A");
    source.update(&settings_for("A"));
    settle(&mut source);
    let mut frame = WlrFrame::new();
    source.render();
    capture(&mut source, &mut frame, meta, 30);
    source.shutdown();
    assert_eq!(source.owed(), Command::Stop(1));
    assert_eq!(source.capture_step(&mut frame), LoopStep::Exit);
    assert!(matches!(source.publish(frame_of(1, 1, 0)), Offer::Closed(_)));
    assert_eq!(settle(&mut source), vec![Command::Stop(1)]);
    source.update(&settings_for("A"));
    assert_eq!(source.owed(), Command::Nothing);
    let plan = frame.release().unwrap().into_fd().release();
    assert_eq!(plan.fd, 30);
    assert!(plan.unlink.is_none());
}

#[test]
fn shutdown_during_a_start_stops_the_thread_once_it_exists() {
    let mut source = WlrSource::new();
    announce(&mut source, 1, "A");
    source.update(&settings_for("A"));
    assert_eq!(source.owed(), Command::Spawn(1));
    source.shutdown();
    assert_eq!(settle(&mut source), vec![Command::Spawn(1), Command::Stop(1)]);
    assert!(!source.capture_running());
}
