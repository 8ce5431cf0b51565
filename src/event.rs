use vstd::prelude::*;

use crate::color::ClientId;
use crate::input::{Key, Mouse};
use crate::mode::ModeInfo;
use crate::text::str_eq;

verus! {

/// Where copied text is sent.
#[derive(Clone, Copy, Debug, PartialEq, Eq, Structural, Hash)]
pub enum CopyDestination {
    Command,
    Primary,
    System,
}

/// What a plugin is told about one tab.
#[derive(Clone, Debug, PartialEq, Eq, Hash)]
pub struct TabInfo {
    pub position: usize,
    pub name: String,
    pub active: bool,
    pub panes_to_hide: usize,
    pub is_fullscreen_active: bool,
    pub is_sync_panes_active: bool,
    pub are_floating_panes_visible: bool,
    pub other_focused_clients: Vec<ClientId>,
}

impl Default for TabInfo {
    fn default() -> (r: TabInfo)
        ensures
            r.position == 0,
            r.name@.len() == 0,
            !r.active,
            r.panes_to_hide == 0,
            !r.is_fullscreen_active,
            !r.is_sync_panes_active,
            !r.are_floating_panes_visible,
            r.other_focused_clients@.len() == 0,
    {
        TabInfo {
            position: 0,
            name: String::new(),
            active: false,
            panes_to_hide: 0,
            is_fullscreen_active: false,
            is_sync_panes_active: false,
            are_floating_panes_visible: false,
            other_focused_clients: Vec::new(),
        }
    }
}

/// Identifies a running plugin instance.
#[derive(Clone, Copy, Debug, PartialEq, Eq, Structural, Hash)]
pub struct PluginIds {
    pub plugin_id: u32,
    pub zellij_pid: u32,
}

/// Tag used to identify the plugin in layout and config files.
#[derive(Clone, Debug, PartialEq, Eq, Hash)]
pub struct PluginTag(String);

impl Default for PluginTag {
    fn default() -> (r: PluginTag)
        ensures
            r@.len() == 0,
    {
        PluginTag(String::new())
    }
}

impl View for PluginTag {
    type V = Seq<char>;

    closed spec fn view(&self) -> Seq<char> {
        self.0@
    }
}

impl PluginTag {
    pub fn new(url: &str) -> (r: PluginTag)
        ensures
            r@ == url@,
    {
        PluginTag(url.to_owned())
    }

    /// The tag's text.
    pub fn as_str(&self) -> (r: &str)
        ensures
            r@ == self@,
    {
        self.0.as_str()
    }

    /// The tag's text, taking the tag apart.
    pub fn into_string(self) -> (r: String)
        ensures
            r@ == self@,
    {
        self.0
    }

    /// The tag's text, as an owned string.
    pub fn to_string(&self) -> (r: String)
        ensures
            r@ == self@,
    {
        self.0.clone()
    }
}

impl From<PluginTag> for String {
    fn from(tag: PluginTag) -> (r: String) {
        tag.0
    }
}

impl vstd::std_specs::convert::FromSpecImpl<PluginTag> for String {
    open spec fn obeys_from_spec() -> bool {
        true
    }

    closed spec fn from_spec(tag: PluginTag) -> String {
        tag.0
    }
}

/// A notification delivered to plugins. New variants may be added: code that
/// matches on it needs a catch-all arm.
#[derive(Clone, Debug, PartialEq)]
#[non_exhaustive]
pub enum Event {
    ModeUpdate(ModeInfo),
    TabUpdate(Vec<TabInfo>),
    Key(Key),
    Mouse(Mouse),
    /// Seconds elapsed, as the bit pattern of an IEEE 754 double
    /// (`f64::to_bits`).
    Timer(u64),
    CopyToClipboard(CopyDestination),
    SystemClipboardFailure,
    InputReceived,
    Visible(bool),
}

/// The kind of an event, without its payload; plugins subscribe by kind.
#[derive(Clone, Copy, Debug, PartialEq, Eq, Structural, Hash)]
pub enum EventType {
    ModeUpdate,
    TabUpdate,
    Key,
    Mouse,
    Timer,
    CopyToClipboard,
    SystemClipboardFailure,
    InputReceived,
    Visible,
}

/// The kind of an event.
pub open spec fn event_kind(e: Event) -> EventType {
    match e {
        Event::ModeUpdate(_) => EventType::ModeUpdate,
        Event::TabUpdate(_) => EventType::TabUpdate,
        Event::Key(_) => EventType::Key,
        Event::Mouse(_) => EventType::Mouse,
        Event::Timer(_) => EventType::Timer,
        Event::CopyToClipboard(_) => EventType::CopyToClipboard,
        Event::SystemClipboardFailure => EventType::SystemClipboardFailure,
        Event::InputReceived => EventType::InputReceived,
        Event::Visible(_) => EventType::Visible,
    }
}

/// The canonical name of an event kind: its variant's name.
pub open spec fn event_type_name(t: EventType) -> Seq<char> {
    match t {
        EventType::ModeUpdate => "ModeUpdate"@,
        EventType::TabUpdate => "TabUpdate"@,
        EventType::Key => "Key"@,
        EventType::Mouse => "Mouse"@,
        EventType::Timer => "Timer"@,
        EventType::CopyToClipboard => "CopyToClipboard"@,
        EventType::SystemClipboardFailure => "SystemClipboardFailure"@,
        EventType::InputReceived => "InputReceived"@,
        EventType::Visible => "Visible"@,
    }
}

/// The event kind whose canonical name is `s`, if there is one.
pub open spec fn event_type_of_name(s: Seq<char>) -> Option<EventType> {
    if exists|t: EventType| event_type_name(t) == s {
        Some(choose|t: EventType| event_type_name(t) == s)
    } else {
        None
    }
}

/// No two event kinds share a name.
pub proof fn lemma_event_type_name_injective(a: EventType, b: EventType)
    ensures
        event_type_name(a) == event_type_name(b) ==> a == b,
{
    reveal_strlit("ModeUpdate");
    reveal_strlit("TabUpdate");
    reveal_strlit("Key");
    reveal_strlit("Mouse");
    reveal_strlit("Timer");
    reveal_strlit("CopyToClipboard");
    reveal_strlit("SystemClipboardFailure");
    reveal_strlit("InputReceived");
    reveal_strlit("Visible");
    if event_type_name(a) == event_type_name(b) {
        assert(event_type_name(a).len() == event_type_name(b).len());
        assert(event_type_name(a)[0] == event_type_name(b)[0]);
    }
}

/// Parsing an event kind's name gives back that kind.
pub proof fn law_event_type_name_round_trip(t: EventType)
    ensures
        event_type_of_name(event_type_name(t)) == Some(t),
{
    let c = choose|x: EventType| event_type_name(x) == event_type_name(t);
    lemma_event_type_name_injective(c, t);
}

/// A string that names no event kind.
#[derive(Clone, Debug, PartialEq, Eq, Hash)]
pub struct UnknownEventType {
    /// The string as it was given.
    pub input: String,
}

impl EventType {
    /// The canonical name of this kind.
    pub fn name(&self) -> (r: &'static str)
        ensures
            r@ == event_type_name(*self),
    {
        match self {
            EventType::ModeUpdate => "ModeUpdate",
            EventType::TabUpdate => "TabUpdate",
            EventType::Key => "Key",
            EventType::Mouse => "Mouse",
            EventType::Timer => "Timer",
            EventType::CopyToClipboard => "CopyToClipboard",
            EventType::SystemClipboardFailure => "SystemClipboardFailure",
            EventType::InputReceived => "InputReceived",
            EventType::Visible => "Visible",
        }
    }

    /// The canonical name of this kind, as an owned string.
    pub fn to_string(&self) -> (r: String)
        ensures
            r@ == event_type_name(*self),
    {
        self.name().to_owned()
    }

    /// Parses the exact, case-sensitive name of an event kind.
    pub fn from_str(s: &str) -> (r: Result<EventType, UnknownEventType>)
        ensures
            match r {
                Ok(t) => event_type_of_name(s@) == Some(t) && event_type_name(t) == s@,
                Err(e) => event_type_of_name(s@).is_none() && e.input@ == s@,
            },
    {
        let kinds = [
            EventType::ModeUpdate,
            EventType::TabUpdate,
            EventType::Key,
            EventType::Mouse,
            EventType::Timer,
            EventType::CopyToClipboard,
            EventType::SystemClipboardFailure,
            EventType::InputReceived,
            EventType::Visible,
        ];
        let mut i: usize = 0;
        while i < 9
            invariant
                i <= 9,
                forall|j: int| 0 <= j < i ==> event_type_name(#[trigger] kinds@[j]) != s@,
            decreases 9 - i,
        {
            let t = kinds[i];
            if str_eq(t.name(), s) {
                proof {
                    law_event_type_name_round_trip(t);
                }
                return Ok(t);
            }
            i += 1;
        }
        proof {
            assert forall|t: EventType| event_type_name(t) != s@ by {
                match t {
                    EventType::ModeUpdate => assert(kinds@[0] == t),
                    EventType::TabUpdate => assert(kinds@[1] == t),
                    EventType::Key => assert(kinds@[2] == t),
                    EventType::Mouse => assert(kinds@[3] == t),
                    EventType::Timer => assert(kinds@[4] == t),
                    EventType::CopyToClipboard => assert(kinds@[5] == t),
                    EventType::SystemClipboardFailure => assert(kinds@[6] == t),
                    EventType::InputReceived => assert(kinds@[7] == t),
                    EventType::Visible => assert(kinds@[8] == t),
                }
            }
        }
        Err(UnknownEventType { input: s.to_owned() })
    }
}

impl std::str::FromStr for EventType {
    type Err = UnknownEventType;

    fn from_str(s: &str) -> Result<EventType, UnknownEventType> {
        EventType::from_str(s)
    }
}

impl Event {
    /// The kind of this event.
    pub fn event_type(&self) -> (r: EventType)
        ensures
            r == event_kind(*self),
    {
        match self {
            Event::ModeUpdate(_) => EventType::ModeUpdate,
            Event::TabUpdate(_) => EventType::TabUpdate,
            Event::Key(_) => EventType::Key,
            Event::Mouse(_) => EventType::Mouse,
            Event::Timer(_) => EventType::Timer,
            Event::CopyToClipboard(_) => EventType::CopyToClipboard,
            Event::SystemClipboardFailure => EventType::SystemClipboardFailure,
            Event::InputReceived => EventType::InputReceived,
            Event::Visible(_) => EventType::Visible,
        }
    }

    /// The name of this event's variant.
    pub fn to_string(&self) -> (r: String)
        ensures
            r@ == event_type_name(event_kind(*self)),
    {
        self.event_type().to_string()
    }
}

/// The name of an event's kind parses back to that kind.
pub proof fn law_event_kind_name_round_trip(e: Event)
    ensures
        event_type_of_name(event_type_name(event_kind(e))) == Some(event_kind(e)),
{
    law_event_type_name_round_trip(event_kind(e));
}

} // verus!
