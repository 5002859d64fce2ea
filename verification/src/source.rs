use vstd::prelude::*;
use vstd::string::StringExecFns;
use crate::channel::{Offer, PendingSlot, SlotView};
use crate::capture::WlrFrame;
use crate::frame::FrameData;
use crate::keyed::{as_map, has_key};
use crate::order::{ascending, name_precedes};
use crate::output::{listing, OutputEvent, OutputRegistry, RegistryView};
use crate::properties::{ListView, Properties, PropertyList};
use crate::update::{Command, CoordinatorView, Lifecycle, UpdateCoordinator};
use crate::video::{LoopStep, ThreadView, VideoThread};

verus! {

/// What the host has stored for a source: the display to connect to and the
/// name of the output to capture, each of which may be missing.
#[derive(Clone, Debug)]
pub struct Settings {
    pub display: Option<String>,
    pub output: Option<String>,
}

/// Where the display to capture from is found.
#[derive(Clone, Debug)]
pub enum DisplayTarget {
    /// The display that the process environment names.
    Environment,
    /// The display of this name.
    Named(String),
}

/// What the display's registry reports about its globals.
#[derive(Clone, Debug)]
pub enum GlobalEvent {
    /// A global appeared: its number, the interface it offers and the highest
    /// version of it.
    New { id: u32, interface: String, version: u32 },
    /// A global is gone.
    Removed { id: u32, interface: String },
}

/// The version of the interface that resolves the names of outputs.
pub const OUTPUT_MANAGER_VERSION: u32 = 2;

/// The version of the interface that captures outputs.
pub const SCREENCOPY_MANAGER_VERSION: u32 = 1;

/// The version of the shared-memory interface.
pub const SHM_VERSION: u32 = 1;

/// Whether `interface` is the interface of an output.
pub open spec fn is_output_interface(interface: Seq<char>) -> bool {
    interface == "wl_output"@
}

/// Trusted: hands out the constant `NAME` that `wayland_client` gives the
/// interface of `wayland_client::protocol::wl_output::WlOutput`, which is the
/// interface's name in the protocol, `wl_output`.
#[verifier::external_body]
fn output_interface_name() -> (name: String)
    ensures
        name@ == "wl_output"@,
{
    String::from(<wayland_client::protocol::wl_output::WlOutput as wayland_client::Interface>::NAME)
}

/// Why a source could not be set up.
#[derive(Clone, Debug)]
pub enum LinkError {
    /// The display could not be reached; the text says why.
    Connection(String),
    /// The display lacks the named interface.
    Negotiation(String),
}

impl Settings {
    pub open spec fn spec_display_target(&self) -> Option<Seq<char>> {
        match self.display {
            Some(name) => if name@.len() == 0 {
                None
            } else {
                Some(name@)
            },
            None => None,
        }
    }

    /// The name of the output to capture; the empty name if none is stored.
    pub open spec fn spec_output_name(&self) -> Seq<char> {
        match self.output {
            Some(name) => name@,
            None => Seq::empty(),
        }
    }

    /// A stored display name is used unless it is empty; otherwise the
    /// environment decides.
    pub fn display_target(&self) -> (target: DisplayTarget)
        ensures
            self.spec_display_target() is None ==> target is Environment,
            self.spec_display_target() matches Some(name) ==> target matches DisplayTarget::Named(n)
                && n@ == name,
    {
        match &self.display {
            Some(name) => {
                if name.as_str().is_empty() {
                    DisplayTarget::Environment
                } else {
                    DisplayTarget::Named(name.clone())
                }
            },
            None => DisplayTarget::Environment,
        }
    }

    pub fn output_name(&self) -> (name: String)
        ensures
            name@ == self.spec_output_name(),
    {
        match &self.output {
            Some(name) => name.clone(),
            None => String::new(),
        }
    }
}

/// What every source offers to the host.
pub trait Source: Sized {
    /// What has to hold of a source between calls.
    spec fn wf(&self) -> bool;

    /// The host has new settings for the source. Unless a source says
    /// otherwise it ignores them.
    fn update(&mut self, settings: &Settings)
        requires
            old(self).wf(),
        ensures
            final(self).wf(),
        default_ensures
            *final(self) == *old(self),
    {
    }

    /// What the host may offer the user to change. Unless a source says
    /// otherwise there is nothing to change, and asking leaves the source as
    /// it is.
    fn get_properties(&mut self) -> (properties: Properties)
        requires
            old(self).wf(),
        ensures
            final(self).wf(),
        default_ensures
            properties@ == Seq::<ListView>::empty(),
            *final(self) == *old(self),
    {
        Properties::new()
    }
}

/// A source that is drawn by the host whenever the host renders.
pub trait VideoSource: Source {
    fn width(&self) -> u32;

    fn height(&self) -> u32;

    fn render(&mut self)
        requires
            old(self).wf(),
        ensures
            final(self).wf(),
    ;
}

/// A source that pushes its frames to the host at its own pace.
pub trait AsyncVideoSource: Source {

}

/// The items offer exactly the given names in ascending order, each once,
/// with the name itself as the value to store.
pub open spec fn offers(items: Seq<(Seq<char>, Seq<char>)>, names: Map<Seq<char>, u32>) -> bool {
    &&& ascending(items)
    &&& forall|i: int| 0 <= i < items.len() ==> (#[trigger] items[i]).0 == items[i].1
    &&& forall|name: Seq<char>| has_key(items, name) <==> names.contains_key(name)
}

/// The source as contracts speak of it.
pub struct SourceView {
    pub outputs: RegistryView,
    pub coordinator: CoordinatorView,
    /// The name of the output that the host selected last.
    pub selection: Option<Seq<char>>,
    /// The control block of the capture thread, if one exists.
    pub thread: Option<ThreadView>,
    pub channel: SlotView,
    /// The frame that is presented.
    pub current: Option<FrameData>,
    pub width: u32,
    pub height: u32,
}

impl SourceView {
    /// The coordinator's count of threads is the number of control blocks,
    /// the control block belongs to the output the coordinator names, and a
    /// thread that is being stopped has been told so. The dimensions are
    /// those of the presented frame, or zero before any frame.
    pub open spec fn wf(self) -> bool {
        &&& self.outputs.wf()
        &&& self.coordinator.wf()
        &&& self.channel.wf()
        &&& match self.coordinator.phase {
            Lifecycle::Idle => self.thread is None,
            Lifecycle::Starting(id) => self.thread matches Some(t) && t.output == id,
            Lifecycle::Running(id) => self.thread matches Some(t) && t.output == id,
            Lifecycle::Stopping(id) => self.thread matches Some(t) && t.output == id && !t.running,
        }
        &&& match self.current {
            Some(f) => self.width == f.spec_source_frame().width && self.height
                == f.spec_source_frame().height,
            None => self.width == 0 && self.height == 0,
        }
    }

    /// The number of capture threads that exist for this source.
    pub open spec fn threads(self) -> nat {
        if self.thread is Some {
            1
        } else {
            0
        }
    }

    /// Carries a command of the coordinator over to the control block: a new
    /// block for a thread to start, the order to stop for one to end.
    pub open spec fn obey(self, command: Command) -> SourceView {
        match command {
            Command::Spawn(id) => SourceView {
                thread: Some(ThreadView { output: id, running: true, demand: false }),
                ..self
            },
            Command::Stop(_) => SourceView {
                thread: match self.thread {
                    Some(t) => Some(ThreadView { running: false, demand: false, ..t }),
                    None => None,
                },
                ..self
            },
            Command::Nothing => self,
        }
    }

    /// Looks the selected name up among the listed outputs and makes the
    /// result the coordinator's target. Without a selection nothing happens.
    pub open spec fn reselect(self) -> SourceView {
        match self.selection {
            Some(name) => {
                let (coordinator, command) = self.coordinator.select(self.outputs.lookup(name));
                (SourceView { coordinator, ..self }).obey(command)
            },
            None => self,
        }
    }

    pub open spec fn update(self, name: Seq<char>) -> SourceView {
        (SourceView { selection: Some(name), ..self }).reselect()
    }

    pub open spec fn output_added(self, id: u32) -> SourceView {
        SourceView { outputs: self.outputs.added(id), ..self }
    }

    pub open spec fn output_event(self, id: u32, event: OutputEvent) -> SourceView {
        let listed = SourceView { outputs: self.outputs.event(id, event), ..self };
        if event is Done && self.outputs.pending.contains_key(id) {
            listed.reselect()
        } else {
            listed
        }
    }

    pub open spec fn output_removed(self, id: u32) -> SourceView {
        let unlisted = SourceView { outputs: self.outputs.removed(id), ..self };
        if self.outputs.lists(id) {
            unlisted.reselect()
        } else {
            unlisted
        }
    }

    /// A global that offers the output interface is an output: it is taken
    /// into the table when it appears and out of it when it goes. Other
    /// globals change nothing.
    pub open spec fn global(self, event: GlobalEvent) -> SourceView {
        match event {
            GlobalEvent::New { id, interface, version } => if is_output_interface(interface@) {
                self.output_added(id)
            } else {
                self
            },
            GlobalEvent::Removed { id, interface } => if is_output_interface(interface@) {
                self.output_removed(id)
            } else {
                self
            },
        }
    }

    /// The output that has to be bound and asked for its name after the
    /// event: the number and version of a new global that is an output and
    /// was not known before.
    pub open spec fn binds(self, event: GlobalEvent) -> Option<(u32, u32)> {
        match event {
            GlobalEvent::New { id, interface, version } => if is_output_interface(interface@)
                && !self.outputs.knows(id) {
                Some((id, version))
            } else {
                None
            },
            GlobalEvent::Removed { .. } => None,
        }
    }

    pub open spec fn thread_started(self) -> SourceView {
        let (coordinator, command) = self.coordinator.started();
        (SourceView { coordinator, ..self }).obey(command)
    }

    pub open spec fn thread_joined(self) -> SourceView {
        if self.coordinator.phase is Stopping {
            let (coordinator, command) = self.coordinator.joined();
            (SourceView { coordinator, thread: None, ..self }).obey(command)
        } else {
            self
        }
    }

    /// Whether the host's render call has anything to do.
    pub open spec fn should_render(self) -> bool {
        self.coordinator.active() is Some
    }

    /// With a thread up and running, a frame is demanded and the waiting
    /// frame, if there is one, becomes the presented one. Otherwise nothing
    /// changes.
    pub open spec fn render(self) -> SourceView {
        if self.should_render() {
            let thread = match self.thread {
                Some(t) => Some(ThreadView { demand: t.running, ..t }),
                None => None,
            };
            match self.channel.pending {
                Some(f) => SourceView {
                    thread,
                    channel: self.channel.take().0,
                    current: Some(f),
                    width: f.spec_source_frame().width,
                    height: f.spec_source_frame().height,
                    ..self
                },
                None => SourceView { thread, ..self },
            }
        } else {
            self
        }
    }

    pub open spec fn shutdown(self) -> SourceView {
        let (coordinator, command) = self.coordinator.shutdown();
        (SourceView { coordinator, channel: self.channel.close().0, ..self }).obey(command)
    }

    /// The source after the host has selected each of `names` in turn.
    pub open spec fn updates(self, names: Seq<Seq<char>>) -> SourceView
        decreases names.len(),
    {
        if names.len() == 0 {
            self
        } else {
            self.updates(names.drop_last()).update(names.last())
        }
    }
}

/// The source that the host sees. It ties the table of outputs, the
/// coordinator, the capture thread's control block and the delivery slot
/// together and shows their effects to the host's calls.
#[derive(Debug)]
pub struct WlrSource {
    outputs: OutputRegistry,
    coordinator: UpdateCoordinator,
    selection: Option<String>,
    video_thread: Option<VideoThread>,
    channel: PendingSlot,
    current: Option<FrameData>,
    last_width: u32,
    last_height: u32,
}

impl View for WlrSource {
    type V = SourceView;

    closed spec fn view(&self) -> SourceView {
        SourceView {
            outputs: self.outputs@,
            coordinator: self.coordinator@,
            selection: match self.selection {
                Some(name) => Some(name@),
                None => None,
            },
            thread: match self.video_thread {
                Some(t) => Some(t@),
                None => None,
            },
            channel: self.channel@,
            current: self.current,
            width: self.last_width,
            height: self.last_height,
        }
    }
}

impl WlrSource {
    pub closed spec fn inv(&self) -> bool {
        self.outputs.wf() && self@.wf()
    }

    /// What holds of a source between calls holds of its view: the parts are
    /// well formed, the control block is the one the coordinator counts, and
    /// the dimensions are those of the presented frame.
    pub proof fn lemma_inv(&self)
        requires
            self.inv(),
        ensures
            self@.wf(),
    {
    }

    /// A source at rest: no output is known, nothing is selected, no thread
    /// exists and no frame has arrived.
    pub fn new() -> (source: WlrSource)
        ensures
            source.inv(),
            source@ == (SourceView {
                outputs: RegistryView::empty(),
                coordinator: CoordinatorView::initial(),
                selection: None,
                thread: None,
                channel: SlotView::empty(),
                current: None,
                width: 0,
                height: 0,
            }),
    {
        let source = WlrSource {
            outputs: OutputRegistry::new(),
            coordinator: UpdateCoordinator::new(),
            selection: None,
            video_thread: None,
            channel: PendingSlot::new(),
            current: None,
            last_width: 0,
            last_height: 0,
        };
        proof {
            source.outputs.lemma_view_wf();
        }
        source
    }

    /// Sets the source up once the display has been reached, or says why it
    /// cannot be: no source comes out of a failed connection.
    pub fn create(settings: &Settings, link: Result<(), LinkError>) -> (made: Result<
        WlrSource,
        String,
    >)
        ensures
            link is Ok ==> made is Ok && made->Ok_0.inv() && made->Ok_0@ == (SourceView {
                outputs: RegistryView::empty(),
                coordinator: CoordinatorView::initial(),
                selection: Some(settings.spec_output_name()),
                thread: None,
                channel: SlotView::empty(),
                current: None,
                width: 0,
                height: 0,
            }),
            link matches Err(LinkError::Connection(why)) ==> made is Err && made->Err_0@
                == "Error connecting to wayland display: "@ + why@,
            link matches Err(LinkError::Negotiation(what)) ==> made is Err && made->Err_0@
                == "Error instantiating "@ + what@,
    {
        match link {
            Ok(()) => {
                let mut source = WlrSource::new();
                source.select_output(settings.output_name());
                assert(source@.outputs.resolved =~= RegistryView::empty().resolved);
                Ok(source)
            },
            Err(LinkError::Connection(why)) => {
                Err(String::from_str("Error connecting to wayland display: ").concat(why.as_str()))
            },
            Err(LinkError::Negotiation(what)) => {
                Err(String::from_str("Error instantiating ").concat(what.as_str()))
            },
        }
    }

    fn obey(&mut self, command: Command)
        requires
            old(self).outputs.wf(),
            old(self)@.outputs.wf(),
            old(self)@.coordinator.wf(),
            old(self)@.channel.wf(),
        ensures
            final(self)@ == old(self)@.obey(command),
            final(self).outputs.wf(),
    {
        match command {
            Command::Spawn(id) => {
                self.video_thread = Some(VideoThread::new(id));
            },
            Command::Stop(_) => {
                match &mut self.video_thread {
                    Some(t) => {
                        t.stop();
                    },
                    None => {},
                }
            },
            Command::Nothing => {},
        }
    }

    fn reselect(&mut self)
        requires
            old(self).inv(),
        ensures
            final(self).inv(),
            final(self)@ == old(self)@.reselect(),
    {
        let target = match &self.selection {
            Some(name) => Some(self.outputs.lookup(name.as_str())),
            None => None,
        };
        match target {
            Some(target) => {
                let command = self.coordinator.select(target);
                self.obey(command);
            },
            None => {},
        }
    }

    /// The host selected the output of this name.
    pub fn select_output(&mut self, name: String)
        requires
            old(self).inv(),
        ensures
            final(self).inv(),
            final(self)@ == old(self)@.update(name@),
    {
        self.selection = Some(name);
        self.reselect();
    }

    /// Takes a report of the display's registry, and says which output has
    /// to be bound and asked for its name now, if any.
    pub fn handle_global(&mut self, event: GlobalEvent) -> (bind: Option<(u32, u32)>)
        requires
            old(self).inv(),
        ensures
            final(self).inv(),
            final(self)@ == old(self)@.global(event),
            bind == old(self)@.binds(event),
    {
        let output = output_interface_name();
        match event {
            GlobalEvent::New { id, interface, version } => {
                if interface == output && !self.outputs.knows(id) {
                    self.output_added(id);
                    Some((id, version))
                } else {
                    None
                }
            },
            GlobalEvent::Removed { id, interface } => {
                if interface == output {
                    self.output_removed(id);
                }
                None
            },
        }
    }

    /// Whether the output is listed or being resolved.
    pub fn knows_output(&self, id: u32) -> (known: bool)
        requires
            self.inv(),
        ensures
            known == self@.outputs.knows(id),
    {
        self.outputs.knows(id)
    }

    /// The display announced an output.
    pub fn output_added(&mut self, id: u32)
        requires
            old(self).inv(),
        ensures
            final(self).inv(),
            final(self)@ == old(self)@.output_added(id),
    {
        self.outputs.on_output_added(id);
        proof {
            self.outputs.lemma_view_wf();
        }
    }

    /// The display reported on an output whose name is being resolved. Once
    /// the output is listed the selection is looked up again.
    pub fn output_event(&mut self, id: u32, event: OutputEvent)
        requires
            old(self).inv(),
        ensures
            final(self).inv(),
            final(self)@ == old(self)@.output_event(id, event),
    {
        let changed = self.outputs.on_output_event(id, event);
        proof {
            self.outputs.lemma_view_wf();
        }
        if changed {
            self.reselect();
        }
    }

    /// The display removed an output. If it was listed the selection is
    /// looked up again, which ends a capture of that output.
    pub fn output_removed(&mut self, id: u32)
        requires
            old(self).inv(),
        ensures
            final(self).inv(),
            final(self)@ == old(self)@.output_removed(id),
    {
        let changed = self.outputs.on_output_removed(id);
        proof {
            self.outputs.lemma_view_wf();
        }
        if changed {
            self.reselect();
        }
    }

    /// What has to be done with the capture thread now: start one, stop and
    /// join the one that exists, or nothing.
    pub fn owed(&self) -> (command: Command)
        ensures
            command == self@.coordinator.owed(),
    {
        self.coordinator.owed()
    }

    /// Whether teardown has begun and no thread is left, so that nothing
    /// remains to be done for this source.
    pub fn finished(&self) -> (finished: bool)
        ensures
            finished == (!self@.coordinator.accepting && self@.coordinator.census() == 0),
    {
        !self.coordinator.accepting() && self.coordinator.phase() == Lifecycle::Idle
    }

    /// The thread that was asked for exists.
    pub fn thread_started(&mut self)
        requires
            old(self).inv(),
        ensures
            final(self).inv(),
            final(self)@ == old(self)@.thread_started(),
    {
        let command = self.coordinator.started();
        self.obey(command);
    }

    /// The thread that was told to stop has been joined.
    pub fn thread_joined(&mut self)
        requires
            old(self).inv(),
        ensures
            final(self).inv(),
            final(self)@ == old(self)@.thread_joined(),
    {
        match self.coordinator.phase() {
            Lifecycle::Stopping(_) => {
                let command = self.coordinator.joined();
                self.video_thread = None;
                self.obey(command);
            },
            _ => {},
        }
    }

    /// One turn of the capture thread's loop. Without a control block the
    /// thread has nothing left to do.
    pub fn capture_step(&mut self, frame: &mut WlrFrame) -> (step: LoopStep)
        requires
            old(self).inv(),
            old(frame).wf(),
        ensures
            final(self).inv(),
            final(frame).wf(),
            old(self)@.thread is None ==> step is Exit && final(self)@ == old(self)@
                && final(frame)@ == old(frame)@,
            old(self)@.thread matches Some(t) ==> step == t.decide(old(frame)@.waiting())
                && final(self)@ == (SourceView {
                thread: Some(t.after(old(frame)@.waiting())),
                ..old(self)@
            }) && final(frame)@ == (if step is Capture {
                old(frame)@.begin(true)
            } else {
                old(frame)@
            }),
    {
        match &mut self.video_thread {
            Some(t) => t.next_step(frame),
            None => LoopStep::Exit,
        }
    }

    /// Whether the capture thread should go on; false without one.
    pub fn capture_running(&self) -> (running: bool)
        ensures
            running == (self@.thread matches Some(t) && t.running),
    {
        match &self.video_thread {
            Some(t) => t.is_running(),
            None => false,
        }
    }

    /// The capture thread offers a finished frame. If the consumer is gone
    /// the thread is told to stop.
    pub fn publish(&mut self, frame: FrameData) -> (outcome: Offer)
        requires
            old(self).inv(),
        ensures
            final(self).inv(),
            outcome == old(self)@.channel.offer(frame).1,
            final(self)@ == (SourceView {
                channel: old(self)@.channel.offer(frame).0,
                thread: match old(self)@.thread {
                    Some(t) => if outcome is Closed {
                        Some(ThreadView { running: false, demand: false, ..t })
                    } else {
                        Some(t)
                    },
                    None => None,
                },
                ..old(self)@
            }),
    {
        match &mut self.video_thread {
            Some(t) => t.publish(&mut self.channel, frame),
            None => self.channel.offer(frame),
        }
    }

    /// Whether the host's render call has anything to do.
    pub fn should_render(&self) -> (active: bool)
        ensures
            active == self@.should_render(),
    {
        self.coordinator.active().is_some()
    }

    /// The frame that is presented, if any has arrived.
    pub fn current_frame(&self) -> (frame: &Option<FrameData>)
        ensures
            *frame == self@.current,
    {
        &self.current
    }

    /// Begins the teardown of the source: the consumer's end of the delivery
    /// slot closes, nothing is wanted any more, and a thread that exists is
    /// told to stop. What remains is to carry out what is owed.
    pub fn shutdown(&mut self)
        requires
            old(self).inv(),
        ensures
            final(self).inv(),
            final(self)@ == old(self)@.shutdown(),
    {
        let command = self.coordinator.shutdown();
        let _ = self.channel.close();
        self.obey(command);
    }
}

impl Source for WlrSource {
    open spec fn wf(&self) -> bool {
        self.inv()
    }

    /// The host's settings name the output to capture.
    fn update(&mut self, settings: &Settings)
        ensures
            final(self)@ == old(self)@.update(settings.spec_output_name()),
    {
        self.select_output(settings.output_name());
    }

    /// One list, stored under the key `output`, of the names of the listed
    /// outputs; each name is both what the user sees and what is stored.
    #[verifier::loop_isolation(false)]
    fn get_properties(&mut self) -> (properties: Properties)
        ensures
            final(self)@ == old(self)@,
            properties@.len() == 1,
            properties@[0].name == "output"@,
            properties@[0].description == "Output"@,
            offers(properties@[0].items, old(self)@.outputs.resolved),
    {
        let names = self.outputs.snapshot();
        let mut properties = Properties::new();
        let output_list = properties.add_string_list("output", "Output");
        let mut i: usize = 0;
        while i < names.len()
            invariant
                i <= names@.len(),
                output_list@.name == "output"@,
                output_list@.description == "Output"@,
                output_list@.items.len() == i,
                forall|j: int|
                    0 <= j < i ==> (#[trigger] output_list@.items[j]) == (
                        names@[j].0@,
                        names@[j].0@,
                    ),
            decreases names@.len() - i,
        {
            let name = names[i].0.as_str();
            let _ = output_list.add_item(name, name);
            i += 1;
        }
        proof {
            let items = output_list@.items;
            let listed = listing(names@);
            assert forall|a: int, b: int| 0 <= a < b < items.len() implies name_precedes(
                items[a].0,
                items[b].0,
            ) by {
                assert(name_precedes(listed[a].0, listed[b].0));
            }
            assert forall|name: Seq<char>| has_key(items, name) <==> as_map(listed).contains_key(
                name,
            ) by {
                if has_key(items, name) {
                    let k = crate::keyed::index_of(items, name);
                    assert(listed[k].0 == name);
                }
                if has_key(listed, name) {
                    let k = crate::keyed::index_of(listed, name);
                    assert(items[k].0 == name);
                }
            }
            assert(offers(items, self@.outputs.resolved));
        }
        properties
    }
}

impl VideoSource for WlrSource {
    /// The width of the presented frame; zero before any frame.
    fn width(&self) -> (width: u32)
        ensures
            width == self@.width,
    {
        self.last_width
    }

    /// The height of the presented frame; zero before any frame.
    fn height(&self) -> (height: u32)
        ensures
            height == self@.height,
    {
        self.last_height
    }

    fn render(&mut self)
        ensures
            final(self)@ == old(self)@.render(),
    {
        if self.coordinator.active().is_some() {
            match &mut self.video_thread {
                Some(t) => {
                    let _ = t.request_frame();
                },
                None => {},
            }
            match self.channel.take() {
                Some(frame) => {
                    self.last_width = frame.source_frame().width;
                    self.last_height = frame.source_frame().height;
                    self.current = Some(frame);
                },
                None => {},
            }
        }
    }
}

/// Whatever the host selects, and however often, a source never has two
/// capture threads: after every call there is one control block or none, as
/// many as the coordinator counts.
pub proof fn lemma_updates_keep_one_thread(start: SourceView, names: Seq<Seq<char>>)
    requires
        start.wf(),
    ensures
        start.updates(names).wf(),
        start.updates(names).threads() == start.updates(names).coordinator.census(),
        start.updates(names).threads() <= 1,
    decreases names.len(),
{
    if names.len() > 0 {
        lemma_updates_keep_one_thread(start, names.drop_last());
    }
}

/// Selecting the same output twice in a row is the same as selecting it once:
/// the second call neither stops nor starts a thread and changes nothing.
pub proof fn lemma_update_twice(source: SourceView, name: Seq<char>)
    ensures
        source.update(name).update(name) == source.update(name),
        source.update(name).coordinator.select(source.update(name).outputs.lookup(name)).1
            == Command::Nothing,
{
}

/// Teardown leaves no thread behind: once the start or stop that is under way
/// has been reported, no control block is left, the slot is closed, and
/// nothing the host selects afterwards brings a thread back.
pub proof fn lemma_shutdown_joins(source: SourceView, name: Seq<char>)
    requires
        source.wf(),
    ensures
        source.shutdown().wf(),
        source.shutdown().channel.closed,
        source.shutdown().thread matches Some(t) ==> !t.running || source.coordinator.phase
            is Starting,
        source.shutdown().thread_started().thread_joined().wf(),
        source.shutdown().thread_started().thread_joined().thread is None,
        source.shutdown().thread_started().thread_joined().update(name).thread is None,
{
}

/// When the output that is being captured leaves the display, its thread is
/// told to stop at once, so that no cycle of it yields a frame any more, and
/// the source comes to rest once the thread is joined.
pub proof fn lemma_removal_stops_capture(source: SourceView, id: u32, name: Seq<char>)
    requires
        source.wf(),
        source.coordinator.phase == Lifecycle::Running(id),
        source.selection == Some(name),
        source.outputs.lookup(name) == Some(id),
    ensures
        source.output_removed(id).wf(),
        source.output_removed(id).coordinator.phase == Lifecycle::Stopping(id),
        source.output_removed(id).thread matches Some(t) && !t.running,
        !source.output_removed(id).should_render(),
        source.output_removed(id).thread_joined().coordinator.phase is Idle,
        source.output_removed(id).thread_joined().thread is None,
{
    assert(source.outputs.resolved.contains_key(name) && source.outputs.resolved[name] == id);
    assert(source.outputs.lists(id));
    assert(source.outputs.removed(id).lookup(name) is None);
}

} // verus!
