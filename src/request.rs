use vstd::prelude::*;

use crate::device_id::{decode_device_id, device_id_of};
use crate::mode::{mode_of, parse_mode, WallpaperMode};

verus! {

/// Where a wallpaper request stands: the platform call it waits on.
#[derive(Clone, Copy, Debug, PartialEq, Eq, Structural)]
pub enum Phase {
    /// Waits on the cursor position.
    Cursor,
    /// Waits on the monitor under the cursor and its device name.
    Monitor,
    /// Waits on the display device's interface identifier.
    Device,
    /// Waits on the component subsystem's initialisation.
    Init,
    /// Waits on the creation of the desktop-wallpaper service.
    Service,
    /// Waits on the wallpaper call for every monitor.
    SetAll,
    /// Waits on the number of monitor device paths.
    Count,
    /// Waits on the monitor device path at the current index.
    Path,
    /// Waits on the wallpaper call for the one matching monitor.
    SetOne,
    /// The request has finished.
    Done,
}

/// The next platform call that a request asks for, or its outcome.
#[derive(Debug, PartialEq, Eq)]
pub enum Action {
    /// Query the cursor position.
    QueryCursor,
    /// Find the monitor nearest the cursor and query its device name.
    QueryMonitor,
    /// Enumerate that display device, asking for its interface identifier.
    QueryDevice,
    /// Initialise the component subsystem.
    InitComponents,
    /// Create the desktop-wallpaper service object.
    CreateService,
    /// Set the image on every monitor.
    SetOnAll,
    /// Ask the service how many monitor device paths it knows.
    CountPaths,
    /// Read the monitor device path at this index.
    ReadPath(u32),
    /// Set the image on the monitor whose path was read at this index.
    SetOnPath(u32),
    /// The request is over, with this result.
    Finish(Result<String, String>),
}

/// What a platform call reported back.
#[derive(Debug)]
pub enum Event {
    /// Whether the cursor position could be read.
    CursorQueried(bool),
    /// Whether the monitor's information could be read.
    MonitorQueried(bool),
    /// The device's identifier buffer, if the enumeration succeeded.
    DeviceQueried(Option<Vec<u16>>),
    /// The result of initialising the component subsystem.
    ComponentsInitialized(Result<(), String>),
    /// The result of creating the wallpaper service.
    ServiceCreated(Result<(), String>),
    /// The result of a set-wallpaper call.
    WallpaperSet(Result<(), String>),
    /// The number of monitor device paths, or why it could not be had.
    PathsCounted(Result<u32, String>),
    /// The monitor device path that was read, or why it could not be.
    PathRead(Result<String, String>),
}

/// An `Action` as the contracts see it.
pub enum ActionView {
    QueryCursor,
    QueryMonitor,
    QueryDevice,
    InitComponents,
    CreateService,
    SetOnAll,
    CountPaths,
    ReadPath(nat),
    SetOnPath(nat),
    Finish(Result<Seq<char>, Seq<char>>),
}

/// An `Event` as the contracts see it.
pub enum EventView {
    CursorQueried(bool),
    MonitorQueried(bool),
    DeviceQueried(Option<Seq<u16>>),
    ComponentsInitialized(Result<(), Seq<char>>),
    ServiceCreated(Result<(), Seq<char>>),
    WallpaperSet(Result<(), Seq<char>>),
    PathsCounted(Result<nat, Seq<char>>),
    PathRead(Result<Seq<char>, Seq<char>>),
}

/// A text result as the contracts see it.
pub open spec fn text_result_view(r: Result<String, String>) -> Result<Seq<char>, Seq<char>> {
    match r {
        Ok(s) => Ok(s@),
        Err(e) => Err(e@),
    }
}

/// A result without a value as the contracts see it.
pub open spec fn unit_result_view(r: Result<(), String>) -> Result<(), Seq<char>> {
    match r {
        Ok(_) => Ok(()),
        Err(e) => Err(e@),
    }
}

impl View for Action {
    type V = ActionView;

    open spec fn view(&self) -> ActionView {
        match self {
            Action::QueryCursor => ActionView::QueryCursor,
            Action::QueryMonitor => ActionView::QueryMonitor,
            Action::QueryDevice => ActionView::QueryDevice,
            Action::InitComponents => ActionView::InitComponents,
            Action::CreateService => ActionView::CreateService,
            Action::SetOnAll => ActionView::SetOnAll,
            Action::CountPaths => ActionView::CountPaths,
            Action::ReadPath(i) => ActionView::ReadPath(*i as nat),
            Action::SetOnPath(i) => ActionView::SetOnPath(*i as nat),
            Action::Finish(r) => ActionView::Finish(text_result_view(*r)),
        }
    }
}

impl View for Event {
    type V = EventView;

    open spec fn view(&self) -> EventView {
        match self {
            Event::CursorQueried(ok) => EventView::CursorQueried(*ok),
            Event::MonitorQueried(ok) => EventView::MonitorQueried(*ok),
            Event::DeviceQueried(d) => EventView::DeviceQueried(
                match d {
                    Some(buf) => Some(buf@),
                    None => None,
                },
            ),
            Event::ComponentsInitialized(r) => EventView::ComponentsInitialized(unit_result_view(*r)),
            Event::ServiceCreated(r) => EventView::ServiceCreated(unit_result_view(*r)),
            Event::WallpaperSet(r) => EventView::WallpaperSet(unit_result_view(*r)),
            Event::PathsCounted(r) => EventView::PathsCounted(
                match r {
                    Ok(n) => Ok(*n as nat),
                    Err(e) => Err(e@),
                },
            ),
            Event::PathRead(r) => EventView::PathRead(text_result_view(*r)),
        }
    }
}

/// A request as the contracts see it. `global_sets` and `monitor_sets` count
/// the set-wallpaper calls for every monitor and for one monitor that the
/// request has asked for so far.
pub struct RequestView {
    pub mode: Option<WallpaperMode>,
    pub target: Option<Seq<char>>,
    pub phase: Phase,
    pub count: nat,
    pub index: nat,
    pub global_sets: nat,
    pub monitor_sets: nat,
    pub outcome: Option<Result<Seq<char>, Seq<char>>>,
}

/// The text that a successful request returns.
pub open spec fn confirmation() -> Seq<char> {
    "ok"@
}

/// A request just made from its mode text, and the call it asks for first:
/// only a request for the monitor under the cursor resolves that monitor,
/// before anything else.
pub open spec fn begin_spec(text: Seq<char>) -> (RequestView, ActionView) {
    let mode = mode_of(text);
    let v = RequestView {
        mode,
        target: None,
        phase: if mode == Some(WallpaperMode::Current) { Phase::Cursor } else { Phase::Init },
        count: 0,
        index: 0,
        global_sets: 0,
        monitor_sets: 0,
        outcome: None,
    };
    if mode == Some(WallpaperMode::Current) {
        (v, ActionView::QueryCursor)
    } else {
        (v, ActionView::InitComponents)
    }
}

/// Whether an event answers the call that a request waits on.
pub open spec fn accepts(v: RequestView, e: EventView) -> bool {
    match e {
        EventView::CursorQueried(_) => v.phase == Phase::Cursor,
        EventView::MonitorQueried(_) => v.phase == Phase::Monitor,
        EventView::DeviceQueried(_) => v.phase == Phase::Device,
        EventView::ComponentsInitialized(_) => v.phase == Phase::Init,
        EventView::ServiceCreated(_) => v.phase == Phase::Service,
        EventView::WallpaperSet(_) => v.phase == Phase::SetAll || v.phase == Phase::SetOne,
        EventView::PathsCounted(_) => v.phase == Phase::Count,
        EventView::PathRead(_) => v.phase == Phase::Path,
    }
}

/// The request finishes with this result.
pub open spec fn finish(v: RequestView, r: Result<Seq<char>, Seq<char>>) -> (RequestView, ActionView) {
    (RequestView { phase: Phase::Done, outcome: Some(r), ..v }, ActionView::Finish(r))
}

/// What a request does once it holds the wallpaper service: one call for
/// every monitor; a search of the monitor paths when it has a target
/// monitor; otherwise nothing, with success.
pub open spec fn dispatch(v: RequestView) -> (RequestView, ActionView) {
    if v.mode == Some(WallpaperMode::Every) {
        (
            RequestView { phase: Phase::SetAll, global_sets: v.global_sets + 1, ..v },
            ActionView::SetOnAll,
        )
    } else if v.mode == Some(WallpaperMode::Current) && v.target is Some {
        (RequestView { phase: Phase::Count, ..v }, ActionView::CountPaths)
    } else {
        finish(v, Ok(confirmation()))
    }
}

/// The monitor path at the current index was read: on a match, the image is
/// set there and the search stops; otherwise the next index is read, or the
/// request ends with success after the last.
pub open spec fn path_read(v: RequestView, path: Seq<char>) -> (RequestView, ActionView) {
    if v.target == Some(path) {
        (
            RequestView { phase: Phase::SetOne, monitor_sets: v.monitor_sets + 1, ..v },
            ActionView::SetOnPath(v.index),
        )
    } else if v.index + 1 >= v.count {
        finish(v, Ok(confirmation()))
    } else {
        (RequestView { index: v.index + 1, ..v }, ActionView::ReadPath((v.index + 1) as nat))
    }
}

/// How a request moves on an event: its next state and the call it asks for.
/// Any failure of the cursor resolution leaves the request without a target;
/// any failure of a service call ends it with that failure's text.
pub open spec fn step_spec(v: RequestView, e: EventView) -> (RequestView, ActionView) {
    match e {
        EventView::CursorQueried(ok) => if ok {
            (RequestView { phase: Phase::Monitor, ..v }, ActionView::QueryMonitor)
        } else {
            (RequestView { phase: Phase::Init, ..v }, ActionView::InitComponents)
        },
        EventView::MonitorQueried(ok) => if ok {
            (RequestView { phase: Phase::Device, ..v }, ActionView::QueryDevice)
        } else {
            (RequestView { phase: Phase::Init, ..v }, ActionView::InitComponents)
        },
        EventView::DeviceQueried(d) => match d {
            Some(buf) => (
                RequestView { phase: Phase::Init, target: Some(device_id_of(buf)), ..v },
                ActionView::InitComponents,
            ),
            None => (RequestView { phase: Phase::Init, ..v }, ActionView::InitComponents),
        },
        EventView::ComponentsInitialized(r) => match r {
            Ok(_) => (RequestView { phase: Phase::Service, ..v }, ActionView::CreateService),
            Err(m) => finish(v, Err(m)),
        },
        EventView::ServiceCreated(r) => match r {
            Ok(_) => dispatch(v),
            Err(m) => finish(v, Err(m)),
        },
        EventView::WallpaperSet(r) => match r {
            Ok(_) => finish(v, Ok(confirmation())),
            Err(m) => finish(v, Err(m)),
        },
        EventView::PathsCounted(r) => match r {
            Ok(n) => if n == 0 {
                finish(v, Ok(confirmation()))
            } else {
                (
                    RequestView { phase: Phase::Path, count: n, index: 0, ..v },
                    ActionView::ReadPath(0),
                )
            },
            Err(m) => finish(v, Err(m)),
        },
        EventView::PathRead(r) => match r {
            Ok(p) => path_read(v, p),
            Err(m) => finish(v, Err(m)),
        },
    }
}

impl RequestView {
    /// What holds of a request in every state it passes through.
    pub open spec fn well_formed(self) -> bool {
        &&& self.global_sets <= 1
        &&& self.monitor_sets <= 1
        &&& self.mode != Some(WallpaperMode::Every) ==> self.global_sets == 0
        &&& self.monitor_sets > 0 ==> self.mode == Some(WallpaperMode::Current) && self.target is Some
        &&& (self.phase == Phase::Done <==> self.outcome is Some)
        &&& match self.phase {
            Phase::Cursor | Phase::Monitor | Phase::Device => {
                &&& self.mode == Some(WallpaperMode::Current)
                &&& self.target is None
                &&& self.global_sets == 0
                &&& self.monitor_sets == 0
            },
            Phase::Init | Phase::Service => self.global_sets == 0 && self.monitor_sets == 0,
            Phase::SetAll => self.global_sets == 1 && self.monitor_sets == 0,
            Phase::Count => {
                &&& self.mode == Some(WallpaperMode::Current)
                &&& self.target is Some
                &&& self.monitor_sets == 0
            },
            Phase::Path => {
                &&& self.mode == Some(WallpaperMode::Current)
                &&& self.target is Some
                &&& self.monitor_sets == 0
                &&& self.index < self.count
            },
            Phase::SetOne => self.monitor_sets == 1 && self.global_sets == 0,
            Phase::Done => {
                (self.outcome == Some(Ok::<Seq<char>, Seq<char>>(confirmation())) && self.mode
                    == Some(WallpaperMode::Every)) ==> self.global_sets == 1
            },
        }
    }
}

/// A request to set the wallpaper, driven one platform call at a time.
pub struct WallpaperRequest {
    mode: Option<WallpaperMode>,
    target: Option<String>,
    phase: Phase,
    count: u32,
    index: u32,
    global_sets: Ghost<nat>,
    monitor_sets: Ghost<nat>,
    outcome: Ghost<Option<Result<Seq<char>, Seq<char>>>>,
}

impl View for WallpaperRequest {
    type V = RequestView;

    closed spec fn view(&self) -> RequestView {
        RequestView {
            mode: self.mode,
            target: match self.target {
                Some(t) => Some(t@),
                None => None,
            },
            phase: self.phase,
            count: self.count as nat,
            index: self.index as nat,
            global_sets: self.global_sets@,
            monitor_sets: self.monitor_sets@,
            outcome: self.outcome@,
        }
    }
}

/// Every event that a well-formed request accepts leaves it well formed.
pub proof fn lemma_step_keeps_well_formed(v: RequestView, e: EventView)
    requires
        v.well_formed(),
        accepts(v, e),
    ensures
        step_spec(v, e).0.well_formed(),
{
}

impl WallpaperRequest {
    /// A request made from its mode text, and the first call it asks for.
    pub fn begin(mode_text: &str) -> (r: (WallpaperRequest, Action))
        ensures
            r.0@ == begin_spec(mode_text@).0,
            r.1@ == begin_spec(mode_text@).1,
            r.0@.well_formed(),
    {
        let mode = parse_mode(mode_text);
        let current = match mode {
            Some(WallpaperMode::Current) => true,
            _ => false,
        };
        let req = WallpaperRequest {
            mode,
            target: None,
            phase: if current { Phase::Cursor } else { Phase::Init },
            count: 0,
            index: 0,
            global_sets: Ghost(0),
            monitor_sets: Ghost(0),
            outcome: Ghost(None),
        };
        if current {
            (req, Action::QueryCursor)
        } else {
            (req, Action::InitComponents)
        }
    }

    /// Whether the request has finished.
    pub fn is_finished(&self) -> (r: bool)
        ensures
            r == (self@.phase == Phase::Done),
    {
        match self.phase {
            Phase::Done => true,
            _ => false,
        }
    }

    /// Whether an event answers the call that the request waits on.
    pub fn accepts(&self, event: &Event) -> (r: bool)
        ensures
            r == accepts(self@, event@),
    {
        match event {
            Event::CursorQueried(_) => self.phase == Phase::Cursor,
            Event::MonitorQueried(_) => self.phase == Phase::Monitor,
            Event::DeviceQueried(_) => self.phase == Phase::Device,
            Event::ComponentsInitialized(_) => self.phase == Phase::Init,
            Event::ServiceCreated(_) => self.phase == Phase::Service,
            Event::WallpaperSet(_) => self.phase == Phase::SetAll || self.phase == Phase::SetOne,
            Event::PathsCounted(_) => self.phase == Phase::Count,
            Event::PathRead(_) => self.phase == Phase::Path,
        }
    }

    fn finish(&mut self, r: Result<String, String>) -> (a: Action)
        ensures
            (final(self)@, a@) == finish(old(self)@, text_result_view(r)),
    {
        self.phase = Phase::Done;
        self.outcome = Ghost(Some(text_result_view(r)));
        Action::Finish(r)
    }

    fn succeed(&mut self) -> (a: Action)
        ensures
            (final(self)@, a@) == finish(old(self)@, Ok(confirmation())),
    {
        let ok = String::from_str("ok");
        self.finish(Ok(ok))
    }

    /// Moves the request on the answer to the call it waited on, and returns
    /// the next call it asks for.
    pub fn step(&mut self, event: Event) -> (a: Action)
        requires
            old(self)@.well_formed(),
            accepts(old(self)@, event@),
        ensures
            (final(self)@, a@) == step_spec(old(self)@, event@),
            final(self)@.well_formed(),
    {
        proof {
            lemma_step_keeps_well_formed(self@, event@);
        }
        match event {
            Event::CursorQueried(ok) => {
                if ok {
                    self.phase = Phase::Monitor;
                    Action::QueryMonitor
                } else {
                    self.phase = Phase::Init;
                    Action::InitComponents
                }
            },
            Event::MonitorQueried(ok) => {
                if ok {
                    self.phase = Phase::Device;
                    Action::QueryDevice
                } else {
                    self.phase = Phase::Init;
                    Action::InitComponents
                }
            },
            Event::DeviceQueried(d) => {
                match d {
                    Some(buf) => {
                        self.target = Some(decode_device_id(buf.as_slice()));
                    },
                    None => {},
                }
                self.phase = Phase::Init;
                Action::InitComponents
            },
            Event::ComponentsInitialized(r) => match r {
                Ok(_) => {
                    self.phase = Phase::Service;
                    Action::CreateService
                },
                Err(m) => self.finish(Err(m)),
            },
            Event::ServiceCreated(r) => match r {
                Ok(_) => self.dispatch(),
                Err(m) => self.finish(Err(m)),
            },
            Event::WallpaperSet(r) => match r {
                Ok(_) => self.succeed(),
                Err(m) => self.finish(Err(m)),
            },
            Event::PathsCounted(r) => match r {
                Ok(n) => {
                    if n == 0 {
                        self.succeed()
                    } else {
                        self.phase = Phase::Path;
                        self.count = n;
                        self.index = 0;
                        Action::ReadPath(0)
                    }
                },
                Err(m) => self.finish(Err(m)),
            },
            Event::PathRead(r) => match r {
                Ok(p) => self.path_read(p),
                Err(m) => self.finish(Err(m)),
            },
        }
    }

    fn dispatch(&mut self) -> (a: Action)
        ensures
            (final(self)@, a@) == dispatch(old(self)@),
    {
        match self.mode {
            Some(WallpaperMode::Every) => {
                self.phase = Phase::SetAll;
                self.global_sets = Ghost(self.global_sets@ + 1);
                Action::SetOnAll
            },
            Some(WallpaperMode::Current) => {
                if self.target.is_some() {
                    self.phase = Phase::Count;
                    Action::CountPaths
                } else {
                    self.succeed()
                }
            },
            None => self.succeed(),
        }
    }

    fn path_read(&mut self, path: String) -> (a: Action)
        requires
            old(self)@.phase == Phase::Path,
            old(self)@.index < old(self)@.count,
        ensures
            (final(self)@, a@) == path_read(old(self)@, path@),
    {
        let matched = match &self.target {
            Some(t) => path == *t,
            None => false,
        };
        if matched {
            self.phase = Phase::SetOne;
            self.monitor_sets = Ghost(self.monitor_sets@ + 1);
            Action::SetOnPath(self.index)
        } else if self.index + 1 >= self.count {
            self.succeed()
        } else {
            self.index = self.index + 1;
            Action::ReadPath(self.index)
        }
    }
}

} // verus!
