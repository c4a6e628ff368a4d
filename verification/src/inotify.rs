//! The inotify plugin: it watches paths and reports every event on them as
//! a measurement.
use vstd::prelude::*;

use crate::measurement::Measurement;
use crate::measurement::MeasurementValue;

verus! {

/// The configuration of the inotify plugin.
pub struct InotifyConfig {
    /// Target to send notifications to
    pub target: String,
    /// Whether to error in the plugin, when inotify returns an error
    ///
    /// If the plugin itself errors, these will always be returned
    /// Defaults to true
    pub fail_on_err: bool,
    /// Pathes to watch, each with the kinds of events to watch for
    pub pathes: Vec<(String, Vec<Watchmode>)>,
}

/// Whether inotify errors fail the plugin when the configuration does not
/// say: they do.
pub fn fail_on_err_default() -> (b: bool)
    ensures
        b,
{
    true
}

/// A kind of events to watch for.
#[allow(non_camel_case_types)]
#[derive(Debug, Clone, Copy, PartialEq, Eq, Structural)]
pub enum Watchmode {
    ACCESS,
    ATTRIB,
    CLOSE_WRITE,
    CLOSE_NOWRITE,
    CREATE,
    DELETE,
    DELETE_SELF,
    MODIFY,
    MOVE_SELF,
    MOVED_FROM,
    MOVED_TO,
    OPEN,
    ALL_EVENTS,
    MOVE,
    CLOSE,
    DONT_FOLLOW,
    EXCL_UNLINK,
    MASK_ADD,
    ONESHOT,
    ONLYDIR,
}

/// A kind of event that inotify reports.
#[allow(non_camel_case_types)]
#[derive(Debug, Clone, Copy, PartialEq, Eq, Structural)]
pub enum InotifyEvent {
    ACCESS,
    ATTRIB,
    CLOSE_WRITE,
    CLOSE_NOWRITE,
    CREATE,
    DELETE,
    DELETE_SELF,
    MODIFY,
    MOVE_SELF,
    MOVED_FROM,
    MOVED_TO,
    OPEN,
    IGNORED,
    ISDIR,
    Q_OVERFLOW,
    UNMOUNT,
    Unknown,
}

pub open spec fn event_name(e: InotifyEvent) -> Seq<char> {
    match e {
        InotifyEvent::ACCESS => "ACCESS"@,
        InotifyEvent::ATTRIB => "ATTRIB"@,
        InotifyEvent::CLOSE_WRITE => "CLOSE_WRITE"@,
        InotifyEvent::CLOSE_NOWRITE => "CLOSE_NOWRITE"@,
        InotifyEvent::CREATE => "CREATE"@,
        InotifyEvent::DELETE => "DELETE"@,
        InotifyEvent::DELETE_SELF => "DELETE_SELF"@,
        InotifyEvent::MODIFY => "MODIFY"@,
        InotifyEvent::MOVE_SELF => "MOVE_SELF"@,
        InotifyEvent::MOVED_FROM => "MOVED_FROM"@,
        InotifyEvent::MOVED_TO => "MOVED_TO"@,
        InotifyEvent::OPEN => "OPEN"@,
        InotifyEvent::IGNORED => "IGNORED"@,
        InotifyEvent::ISDIR => "ISDIR"@,
        InotifyEvent::Q_OVERFLOW => "Q_OVERFLOW"@,
        InotifyEvent::UNMOUNT => "UNMOUNT"@,
        InotifyEvent::Unknown => "unknown"@,
    }
}

/// The name under which an event is reported.
pub fn mask_to_string(e: InotifyEvent) -> (s: &'static str)
    ensures
        s@ == event_name(e),
{
    match e {
        InotifyEvent::ACCESS => "ACCESS",
        InotifyEvent::ATTRIB => "ATTRIB",
        InotifyEvent::CLOSE_WRITE => "CLOSE_WRITE",
        InotifyEvent::CLOSE_NOWRITE => "CLOSE_NOWRITE",
        InotifyEvent::CREATE => "CREATE",
        InotifyEvent::DELETE => "DELETE",
        InotifyEvent::DELETE_SELF => "DELETE_SELF",
        InotifyEvent::MODIFY => "MODIFY",
        InotifyEvent::MOVE_SELF => "MOVE_SELF",
        InotifyEvent::MOVED_FROM => "MOVED_FROM",
        InotifyEvent::MOVED_TO => "MOVED_TO",
        InotifyEvent::OPEN => "OPEN",
        InotifyEvent::IGNORED => "IGNORED",
        InotifyEvent::ISDIR => "ISDIR",
        InotifyEvent::Q_OVERFLOW => "Q_OVERFLOW",
        InotifyEvent::UNMOUNT => "UNMOUNT",
        InotifyEvent::Unknown => "unknown",
    }
}

/// The measurement reported for an event on a watched path: named after the
/// event, with the path as its text.
pub fn event_measurement(path: &String, e: InotifyEvent) -> (m: Measurement)
    ensures
        m.name@ == event_name(e),
        m.value == MeasurementValue::Text(*path),
{
    Measurement::new(mask_to_string(e).to_string(), MeasurementValue::Text(path.clone()))
}

/// The size in bytes of the buffer that inotify events are read into.
pub const EVENT_BUFFER_SIZE: usize = 1024;

/// What the inotify event stream gives the main loop.
#[derive(Debug)]
pub enum WatchEvent {
    /// An event, with the watched path it concerns if the watch is known.
    Event { path: Option<String>, event: InotifyEvent },
    /// Reading the next event failed.
    Failed,
    /// The stream has nothing more.
    Ended,
    /// The plugin is shutting down.
    Cancelled,
}

/// What the main loop does next.
#[derive(Debug)]
pub enum WatchAction {
    /// Send the measurement to the target plugin.
    Send(Measurement),
    /// Wait for the next event.
    Continue,
    /// Leave the loop with an error.
    Fail,
    /// Leave the loop.
    Stop,
}

/// One turn of the main loop: an event on a watched path is reported, one on
/// an unknown watch is passed over; a failed read ends the loop with an error
/// if the configuration says so and is passed over otherwise; the end of the
/// stream and shutting down end the loop.
pub fn watch_step(fail_on_err: bool, e: WatchEvent) -> (a: WatchAction)
    ensures
        match e {
            WatchEvent::Event { path: Some(p), event } => a matches WatchAction::Send(m) && m.name@
                == event_name(event) && m.value == MeasurementValue::Text(p),
            WatchEvent::Event { path: None, .. } => a is Continue,
            WatchEvent::Failed => if fail_on_err {
                a is Fail
            } else {
                a is Continue
            },
            WatchEvent::Ended => a is Stop,
            WatchEvent::Cancelled => a is Stop,
        },
{
    match e {
        WatchEvent::Event { path: Some(p), event } => WatchAction::Send(event_measurement(&p, event)),
        WatchEvent::Event { path: None, .. } => WatchAction::Continue,
        WatchEvent::Failed => if fail_on_err {
            WatchAction::Fail
        } else {
            WatchAction::Continue
        },
        WatchEvent::Ended => WatchAction::Stop,
        WatchEvent::Cancelled => WatchAction::Stop,
    }
}

/// The inotify plugin: where it sends its measurements, and what it watches.
pub struct InotifyPlugin {
    pub addr: String,
    pub config: InotifyConfig,
}

impl InotifyPlugin {
    pub fn new(addr: String, config: InotifyConfig) -> (p: Self)
        ensures
            p.addr == addr,
            p.config == config,
    {
        InotifyPlugin { addr, config }
    }
}

pub struct InotifyPluginBuilder;

impl InotifyPluginBuilder {
    pub fn kind_name() -> (s: &'static str)
        ensures
            s@ == "inotify"@,
    {
        "inotify"
    }

    /// Builds the plugin that a configuration describes; measurements go to
    /// the configured target.
    pub fn instantiate(config: InotifyConfig) -> (p: InotifyPlugin)
        ensures
            p.addr == config.target,
            p.config == config,
    {
        let addr = config.target.clone();
        InotifyPlugin::new(addr, config)
    }
}

/// Each event is reported under its own inotify name ("unknown" for one
/// that is no single kind), and distinct events get distinct names.
pub proof fn lemma_event_names(a: InotifyEvent, b: InotifyEvent)
    ensures
        event_name(InotifyEvent::ACCESS) == "ACCESS"@,
        event_name(InotifyEvent::ATTRIB) == "ATTRIB"@,
        event_name(InotifyEvent::CLOSE_WRITE) == "CLOSE_WRITE"@,
        event_name(InotifyEvent::CLOSE_NOWRITE) == "CLOSE_NOWRITE"@,
        event_name(InotifyEvent::CREATE) == "CREATE"@,
        event_name(InotifyEvent::DELETE) == "DELETE"@,
        event_name(InotifyEvent::DELETE_SELF) == "DELETE_SELF"@,
        event_name(InotifyEvent::MODIFY) == "MODIFY"@,
        event_name(InotifyEvent::MOVE_SELF) == "MOVE_SELF"@,
        event_name(InotifyEvent::MOVED_FROM) == "MOVED_FROM"@,
        event_name(InotifyEvent::MOVED_TO) == "MOVED_TO"@,
        event_name(InotifyEvent::OPEN) == "OPEN"@,
        event_name(InotifyEvent::IGNORED) == "IGNORED"@,
        event_name(InotifyEvent::ISDIR) == "ISDIR"@,
        event_name(InotifyEvent::Q_OVERFLOW) == "Q_OVERFLOW"@,
        event_name(InotifyEvent::UNMOUNT) == "UNMOUNT"@,
        event_name(InotifyEvent::Unknown) == "unknown"@,
        event_name(a) == event_name(b) ==> a == b,
{
    reveal_strlit("ACCESS");
    reveal_strlit("ATTRIB");
    reveal_strlit("CLOSE_WRITE");
    reveal_strlit("CLOSE_NOWRITE");
    reveal_strlit("CREATE");
    reveal_strlit("DELETE");
    reveal_strlit("DELETE_SELF");
    reveal_strlit("MODIFY");
    reveal_strlit("MOVE_SELF");
    reveal_strlit("MOVED_FROM");
    reveal_strlit("MOVED_TO");
    reveal_strlit("OPEN");
    reveal_strlit("IGNORED");
    reveal_strlit("ISDIR");
    reveal_strlit("Q_OVERFLOW");
    reveal_strlit("UNMOUNT");
    reveal_strlit("unknown");
    if event_name(a) == event_name(b) {
        assert(event_name(a).len() == event_name(b).len());
        assert(event_name(a)[0] == event_name(b)[0]);
        assert(event_name(a)[1] == event_name(b)[1]);
        assert(event_name(a)[3] == event_name(b)[3]);
        assert(event_name(a)[event_name(a).len() - 1] == event_name(b)[event_name(b).len() - 1]);
    }
}

} // verus!
