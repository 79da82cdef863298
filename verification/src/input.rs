//! Input backend rules: joystick slots and options, fan-out of joystick
//! connection events to every live window queue, the capture of GLFW errors
//! during a gamepad-mapping update, and the classification of GLFW errors.
use vstd::prelude::*;
use vstd::utf8::is_ascii_chars;
use crate::error::{invalid_state, is_invalid_state, VMNLError, VMNLErrorKind, VMNLResult};
use crate::text::{append_signed_decimal, signed_decimal};

verus! {

/// One of the sixteen joystick slots.
#[derive(Debug, Clone, Copy, PartialEq, Eq, Structural, Hash)]
pub enum JoystickId {
    /// Slot 1.
    Slot1,
    /// Slot 2.
    Slot2,
    /// Slot 3.
    Slot3,
    /// Slot 4.
    Slot4,
    /// Slot 5.
    Slot5,
    /// Slot 6.
    Slot6,
    /// Slot 7.
    Slot7,
    /// Slot 8.
    Slot8,
    /// Slot 9.
    Slot9,
    /// Slot 10.
    Slot10,
    /// Slot 11.
    Slot11,
    /// Slot 12.
    Slot12,
    /// Slot 13.
    Slot13,
    /// Slot 14.
    Slot14,
    /// Slot 15.
    Slot15,
    /// Slot 16.
    Slot16,
}

/// Zero-based position of a slot.
pub open spec fn slot_index(id: JoystickId) -> nat {
    match id {
        JoystickId::Slot1 => 0,
        JoystickId::Slot2 => 1,
        JoystickId::Slot3 => 2,
        JoystickId::Slot4 => 3,
        JoystickId::Slot5 => 4,
        JoystickId::Slot6 => 5,
        JoystickId::Slot7 => 6,
        JoystickId::Slot8 => 7,
        JoystickId::Slot9 => 8,
        JoystickId::Slot10 => 9,
        JoystickId::Slot11 => 10,
        JoystickId::Slot12 => 11,
        JoystickId::Slot13 => 12,
        JoystickId::Slot14 => 13,
        JoystickId::Slot15 => 14,
        JoystickId::Slot16 => 15,
    }
}

impl JoystickId {
    /// The slot at a zero-based position, as the backend numbers joysticks.
    pub fn from_index(index: usize) -> (id: JoystickId)
        requires
            index < 16,
        ensures
            slot_index(id) == index,
    {
        match index {
            0 => JoystickId::Slot1,
            1 => JoystickId::Slot2,
            2 => JoystickId::Slot3,
            3 => JoystickId::Slot4,
            4 => JoystickId::Slot5,
            5 => JoystickId::Slot6,
            6 => JoystickId::Slot7,
            7 => JoystickId::Slot8,
            8 => JoystickId::Slot9,
            9 => JoystickId::Slot10,
            10 => JoystickId::Slot11,
            11 => JoystickId::Slot12,
            12 => JoystickId::Slot13,
            13 => JoystickId::Slot14,
            14 => JoystickId::Slot15,
            _ => JoystickId::Slot16,
        }
    }
}

/// Options fixed when the joystick backend starts.
#[derive(Debug, Clone, Copy, PartialEq, Eq, Structural, Hash)]
pub struct JoystickOptions {
    /// Whether hats are also reported as buttons.
    pub hat_buttons: bool,
}

impl Default for JoystickOptions {
    /// Hats are reported as buttons.
    fn default() -> (o: Self)
        ensures
            o.hat_buttons,
    {
        JoystickOptions { hat_buttons: true }
    }
}

/// A second user of the running joystick backend must ask for the same
/// options as the first.
pub fn ensure_options(active: JoystickOptions, requested: JoystickOptions) -> (r: VMNLResult<()>)
    ensures
        r is Ok <==> active == requested,
        active != requested ==> is_invalid_state(
            r,
            "joystick initialization options differ from the active GLFW session"@,
        ),
{
    if active != requested {
        return Err(invalid_state(
            String::from_str("joystick initialization options differ from the active GLFW session"),
        ));
    }
    Ok(())
}

/// A joystick connection event: the slot and whether it was connected.
pub type ConnectionEvent = (JoystickId, bool);

/// One registered event queue.
pub struct Subscriber {
    id: u64,
    live: bool,
    events: Vec<ConnectionEvent>,
}

/// Registry that fans joystick connection events out to every live queue.
///
/// Each window subscribes once and owns its queue; a queue that has been
/// released stops receiving events and its registration is dropped at the
/// next publication.
pub struct Connections {
    subscribers: Vec<Subscriber>,
    next_id: u64,
}

/// What a registry holds: for each registration, its id, whether its queue is
/// still owned, and the events queued so far.
pub struct SubscriberView {
    /// Registration id.
    pub id: u64,
    /// Whether the queue is still owned.
    pub live: bool,
    /// Queued events, oldest first.
    pub events: Seq<ConnectionEvent>,
}

/// The registrations after publishing `event`: the live ones in their order,
/// each with `event` appended.
pub open spec fn after_publish(subs: Seq<SubscriberView>, event: ConnectionEvent) -> Seq<SubscriberView>
    decreases subs.len(),
{
    if subs.len() == 0 {
        Seq::empty()
    } else {
        let last = subs.last();
        let prefix = after_publish(subs.drop_last(), event);
        if last.live {
            prefix.push(SubscriberView { id: last.id, live: true, events: last.events.push(event) })
        } else {
            prefix
        }
    }
}

impl Connections {
    /// The registrations, oldest first.
    pub closed spec fn view_subscribers(&self) -> Seq<SubscriberView> {
        Seq::new(
            self.subscribers@.len(),
            |i: int|
                SubscriberView {
                    id: self.subscribers@[i].id,
                    live: self.subscribers@[i].live,
                    events: self.subscribers@[i].events@,
                },
        )
    }

    /// The id the next subscription receives.
    pub closed spec fn spec_next_id(&self) -> u64 {
        self.next_id
    }

    /// Registration ids are increasing and all below the next id.
    pub closed spec fn well_formed(&self) -> bool {
        &&& forall|i: int, j: int|
            0 <= i < j < self.subscribers@.len() ==> self.subscribers@[i].id
                < self.subscribers@[j].id
        &&& forall|i: int| 0 <= i < self.subscribers@.len() ==> self.subscribers@[i].id < self.next_id
    }

    /// An empty registry.
    pub fn new() -> (c: Self)
        ensures
            c.well_formed(),
            c.view_subscribers().len() == 0,
            c.spec_next_id() == 0,
    {
        Connections { subscribers: Vec::new(), next_id: 0 }
    }

    /// Register a new, empty queue and return its id; `None`, with nothing
    /// changed, once every id has been given out.
    pub fn subscribe(&mut self) -> (id: Option<u64>)
        requires
            old(self).well_formed(),
        ensures
            final(self).well_formed(),
            old(self).spec_next_id() == u64::MAX ==> id is None && *final(self) == *old(self),
            old(self).spec_next_id() < u64::MAX ==> {
                &&& id == Some(old(self).spec_next_id())
                &&& final(self).view_subscribers() == old(self).view_subscribers().push(
                    SubscriberView { id: old(self).spec_next_id(), live: true, events: Seq::empty() },
                )
                &&& final(self).spec_next_id() == old(self).spec_next_id() + 1
            },
    {
        let id = self.next_id;
        if id == u64::MAX {
            return None;
        }
        self.subscribers.push(Subscriber { id, live: true, events: Vec::new() });
        self.next_id = id + 1;
        assert(self.view_subscribers() =~= old(self).view_subscribers().push(
            SubscriberView { id, live: true, events: Seq::empty() },
        ));
        Some(id)
    }

    pub fn unsubscribe(&mut self, id: u64)
        requires
            old(self).well_formed(),
        ensures
            final(self).well_formed(),
            final(self).spec_next_id() == old(self).spec_next_id(),
            final(self).view_subscribers().len() == old(self).view_subscribers().len(),
            forall|i: int|
                0 <= i < old(self).view_subscribers().len() ==> {
                    let o = #[trigger] old(self).view_subscribers()[i];
                    final(self).view_subscribers()[i] == (SubscriberView {
                        id: o.id,
                        live: o.live && o.id != id,
                        events: o.events,
                    })
                },
    {
        let n = self.subscribers.len();
        let mut i: usize = 0;
        while i < n
            invariant
                n == self.subscribers@.len(),
                n == old(self).subscribers@.len(),
                i <= n,
                self.next_id == old(self).next_id,
                forall|k: int|
                    0 <= k < n ==> (#[trigger] self.subscribers@[k]).id == old(self).subscribers@[k].id
                        && self.subscribers@[k].events@ == old(self).subscribers@[k].events@,
                forall|k: int|
                    0 <= k < i ==> (#[trigger] self.subscribers@[k]).live == (old(
                        self,
                    ).subscribers@[k].live && old(self).subscribers@[k].id != id),
                forall|k: int|
                    i <= k < n ==> (#[trigger] self.subscribers@[k]).live == old(
                        self,
                    ).subscribers@[k].live,
            decreases n - i,
        {
            if self.subscribers[i].id == id {
                let mut s = self.subscribers.remove(i);
                s.live = false;
                self.subscribers.insert(i, s);
            }
            i += 1;
        }
    }

    /// The events queued for `id`, oldest first; empty for an unknown id.
    pub fn events(&self, id: u64) -> (e: Vec<ConnectionEvent>)
        requires
            self.well_formed(),
        ensures
            forall|i: int|
                0 <= i < self.view_subscribers().len() && (#[trigger] self.view_subscribers()[i]).id
                    == id ==> e@ == self.view_subscribers()[i].events,
            (forall|i: int|
                0 <= i < self.view_subscribers().len() ==> (#[trigger] self.view_subscribers()[i]).id
                    != id) ==> e@.len() == 0,
    {
        let mut i: usize = 0;
        while i < self.subscribers.len()
            invariant
                i <= self.subscribers@.len(),
                self.well_formed(),
                forall|k: int| 0 <= k < i ==> (#[trigger] self.subscribers@[k]).id != id,
            decreases self.subscribers@.len() - i,
        {
            if self.subscribers[i].id == id {
                let queued = &self.subscribers[i].events;
                let mut out: Vec<ConnectionEvent> = Vec::new();
                let mut k: usize = 0;
                while k < queued.len()
                    invariant
                        k <= queued@.len(),
                        out@ == queued@.subrange(0, k as int),
                    decreases queued@.len() - k,
                {
                    out.push(queued[k]);
                    k += 1;
                    assert(out@ =~= queued@.subrange(0, k as int));
                }
                assert(queued@.subrange(0, queued@.len() as int) =~= queued@);
                assert(self.view_subscribers()[i as int].events == queued@);
                return out;
            }
            i += 1;
        }
        Vec::new()
    }

    /// Empty the queue of `id`.
    pub fn clear(&mut self, id: u64)
        requires
            old(self).well_formed(),
        ensures
            final(self).well_formed(),
            final(self).spec_next_id() == old(self).spec_next_id(),
            final(self).view_subscribers().len() == old(self).view_subscribers().len(),
            forall|i: int|
                0 <= i < old(self).view_subscribers().len() ==> {
                    let o = #[trigger] old(self).view_subscribers()[i];
                    final(self).view_subscribers()[i] == (SubscriberView {
                        id: o.id,
                        live: o.live,
                        events: if o.id == id { Seq::empty() } else { o.events },
                    })
                },
    {
        let n = self.subscribers.len();
        let mut i: usize = 0;
        while i < n
            invariant
                n == self.subscribers@.len(),
                n == old(self).subscribers@.len(),
                i <= n,
                self.next_id == old(self).next_id,
                forall|k: int|
                    0 <= k < n ==> (#[trigger] self.subscribers@[k]).id == old(self).subscribers@[k].id
                        && self.subscribers@[k].live == old(self).subscribers@[k].live,
                forall|k: int|
                    0 <= k < i ==> (#[trigger] self.subscribers@[k]).events@ == (if old(
                        self,
                    ).subscribers@[k].id == id {
                        Seq::empty()
                    } else {
                        old(self).subscribers@[k].events@
                    }),
                forall|k: int|
                    i <= k < n ==> (#[trigger] self.subscribers@[k]).events@ == old(
                        self,
                    ).subscribers@[k].events@,
            decreases n - i,
        {
            if self.subscribers[i].id == id {
                let mut s = self.subscribers.remove(i);
                s.events = Vec::new();
                self.subscribers.insert(i, s);
            }
            i += 1;
        }
        assert(self.view_subscribers() =~= Seq::new(
            old(self).view_subscribers().len(),
            |i: int|
                {
                    let o = old(self).view_subscribers()[i];
                    SubscriberView {
                        id: o.id,
                        live: o.live,
                        events: if o.id == id { Seq::empty() } else { o.events },
                    }
                },
        ));
    }

    /// Append `event` to every live queue and drop the released registrations,
    /// keeping the order of the others.
    pub fn publish(&mut self, event: ConnectionEvent)
        requires
            old(self).well_formed(),
        ensures
            final(self).well_formed(),
            final(self).spec_next_id() == old(self).spec_next_id(),
            final(self).view_subscribers() == after_publish(old(self).view_subscribers(), event),
    {
        let mut rest: Vec<Subscriber> = Vec::new();
        std::mem::swap(&mut rest, &mut self.subscribers);
        let ghost initial = rest@;
        let ghost initial_view = old(self).view_subscribers();
        let n = rest.len();
        let mut i: usize = 0;
        while i < n
            invariant
                n == initial.len(),
                i <= n,
                rest@ == initial.subrange(i as int, n as int),
                initial_view.len() == n,
                forall|k: int|
                    0 <= k < n ==> (#[trigger] initial_view[k]) == (SubscriberView {
                        id: initial[k].id,
                        live: initial[k].live,
                        events: initial[k].events@,
                    }),
                forall|a: int, b: int| 0 <= a < b < n ==> initial[a].id < initial[b].id,
                forall|a: int| 0 <= a < n ==> initial[a].id < self.next_id,
                self.next_id == old(self).next_id,
                self.view_subscribers() == after_publish(initial_view.subrange(0, i as int), event),
                forall|a: int|
                    0 <= a < self.subscribers@.len() ==> exists|b: int|
                        0 <= b < i && initial[b].id == (#[trigger] self.subscribers@[a]).id,
                forall|a: int, b: int|
                    0 <= a < b < self.subscribers@.len() ==> self.subscribers@[a].id
                        < self.subscribers@[b].id,
            decreases n - i,
        {
            let mut sub = rest.remove(0);
            assert(sub == initial[i as int]);
            let ghost before = self.view_subscribers();
            if sub.live {
                sub.events.push(event);
                self.subscribers.push(sub);
            }
            proof {
                let prefix = initial_view.subrange(0, i as int + 1);
                assert(prefix.drop_last() =~= initial_view.subrange(0, i as int));
                assert(prefix.last() == initial_view[i as int]);
                assert(self.view_subscribers() =~= after_publish(prefix, event));
            }
            i += 1;
            assert(rest@ =~= initial.subrange(i as int, n as int));
        }
        assert(initial_view.subrange(0, n as int) =~= initial_view);
    }

    /// Number of registrations, released ones not yet dropped included.
    pub fn subscriber_count(&self) -> (n: usize)
        ensures
            n == self.view_subscribers().len(),
    {
        self.subscribers.len()
    }
}

/// Records the first GLFW error reported while a gamepad-mapping update is in
/// progress, as the raw GLFW error code and its description.
#[derive(Debug, Clone)]
pub struct MappingErrorCapture {
    /// Whether an update is in progress.
    pub active: bool,
    /// The first error reported during the update, if any.
    pub error: Option<(i32, String)>,
}

impl MappingErrorCapture {
    /// An idle capture with no error.
    pub fn new() -> (c: Self)
        ensures
            !c.active,
            c.error is None,
    {
        MappingErrorCapture { active: false, error: None }
    }

    /// Record an error; kept only while an update is in progress and no error
    /// has been kept yet.
    pub fn record(&mut self, code: i32, description: String)
        ensures
            final(self).active == old(self).active,
            final(self).error == (if old(self).active && old(self).error is None {
                Some((code, description))
            } else {
                old(self).error
            }),
    {
        if self.active && self.error.is_none() {
            self.error = Some((code, description));
        }
    }

    /// Start an update: forget any earlier error and start recording.
    pub fn begin(&mut self)
        ensures
            final(self).active,
            final(self).error is None,
    {
        self.error = None;
        self.active = true;
    }

    /// End an update: stop recording and hand out the kept error, if any.
    pub fn finish(&mut self) -> (e: Option<(i32, String)>)
        ensures
            !final(self).active,
            final(self).error is None,
            e == old(self).error,
    {
        self.active = false;
        let e = self.error.take();
        e
    }
}

/// Mapping text GLFW can take: ASCII without NUL characters.
pub open spec fn acceptable_mapping_text(text: Seq<char>) -> bool {
    is_ascii_chars(text) && !text.contains('\0')
}

/// Check that mapping text is ASCII and holds no NUL character.
pub fn validate_mapping_text(mappings: &str) -> (r: VMNLResult<()>)
    ensures
        r is Ok <==> acceptable_mapping_text(mappings@),
        !acceptable_mapping_text(mappings@) ==> is_invalid_state(
            r,
            "gamepad mappings must contain ASCII text without NUL bytes"@,
        ),
{
    if !mappings.is_ascii() {
        return Err(invalid_state(
            String::from_str("gamepad mappings must contain ASCII text without NUL bytes"),
        ));
    }
    let bytes = mappings.as_bytes();
    proof {
        vstd::string::is_ascii_spec_bytes(mappings);
        vstd::utf8::is_ascii_chars_nat_bound(mappings@);
    }
    assert(bytes@.len() == mappings@.len());
    let mut i: usize = 0;
    while i < bytes.len()
        invariant
            i <= bytes@.len(),
            bytes@.len() == mappings@.len(),
            is_ascii_chars(mappings@),
            forall|k: int| 0 <= k < mappings@.len() ==> (#[trigger] bytes@[k]) == mappings@[k] as u8,
            forall|k: int| 0 <= k < mappings@.len() ==> (mappings@[k] as nat) < 128,
            forall|k: int| 0 <= k < i ==> (#[trigger] mappings@[k]) != '\0',
        decreases bytes@.len() - i,
    {
        if bytes[i] == 0 {
            assert(mappings@[i as int] == '\0') by {
                let c = mappings@[i as int];
                assert((c as nat) < 128);
                assert(c as u8 == 0);
            }
            return Err(invalid_state(
                String::from_str("gamepad mappings must contain ASCII text without NUL bytes"),
            ));
        }
        assert(mappings@[i as int] != '\0');
        i += 1;
    }
    Ok(())
}

/// Start a gamepad-mapping update: the text must be acceptable and no update
/// may already be in progress; the capture then starts recording.
pub fn begin_mapping_update(mappings: &str, capture: &mut MappingErrorCapture) -> (r: VMNLResult<()>)
    ensures
        r is Ok <==> acceptable_mapping_text(mappings@) && !old(capture).active,
        !acceptable_mapping_text(mappings@) ==> is_invalid_state(
            r,
            "gamepad mappings must contain ASCII text without NUL bytes"@,
        ),
        acceptable_mapping_text(mappings@) && old(capture).active ==> is_invalid_state(
            r,
            "gamepad mapping updates cannot be nested inside an error callback"@,
        ),
        r is Ok ==> final(capture).active && final(capture).error is None,
        r is Err ==> *final(capture) == *old(capture),
{
    match validate_mapping_text(mappings) {
        Err(e) => Err(e),
        Ok(()) => {
            if capture.active {
                return Err(invalid_state(
                    String::from_str("gamepad mapping updates cannot be nested inside an error callback"),
                ));
            }
            capture.begin();
            Ok(())
        },
    }
}

/// Text of the error for mappings GLFW rejected through its error callback.
pub open spec fn rejected_with_error_message(code: int, description: Seq<char>) -> Seq<char> {
    "GLFW rejected gamepad mappings ("@ + signed_decimal(code) + "): "@ + description
}

/// End a gamepad-mapping update given whether GLFW accepted the mappings: an
/// error recorded during the update wins over acceptance; then a refusal is
/// reported; the capture stops recording either way.
pub fn finish_mapping_update(capture: &mut MappingErrorCapture, accepted: bool) -> (r: VMNLResult<()>)
    ensures
        !final(capture).active,
        final(capture).error is None,
        r is Ok <==> old(capture).error is None && accepted,
        old(capture).error matches Some(e) ==> is_invalid_state(
            r,
            rejected_with_error_message(e.0 as int, e.1@),
        ),
        old(capture).error is None && !accepted ==> is_invalid_state(
            r,
            "GLFW rejected gamepad mappings"@,
        ),
{
    match capture.finish() {
        Some((code, description)) => {
            let mut m = String::from_str("GLFW rejected gamepad mappings (");
            append_signed_decimal(&mut m, code as i64);
            m.append("): ");
            m.append(description.as_str());
            Err(invalid_state(m))
        },
        None => {
            if !accepted {
                return Err(invalid_state(String::from_str("GLFW rejected gamepad mappings")));
            }
            Ok(())
        },
    }
}

/// The errors GLFW reports.
#[derive(Debug, Clone, Copy, PartialEq, Eq, Structural, Hash)]
pub enum GlfwError {
    /// No error.
    NoError,
    /// GLFW is not initialized.
    NotInitialized,
    /// No context is current.
    NoCurrentContext,
    /// An enum argument was invalid.
    InvalidEnum,
    /// A value argument was invalid.
    InvalidValue,
    /// A memory allocation failed.
    OutOfMemory,
    /// The requested API is unavailable.
    ApiUnavailable,
    /// The requested API version is unavailable.
    VersionUnavailable,
    /// A platform-specific error occurred.
    PlatformError,
    /// The requested format is unavailable.
    FormatUnavailable,
    /// The window has no context.
    NoWindowContext,
    /// The cursor is unavailable.
    CursorUnavailable,
    /// The feature is unavailable.
    FeatureUnavailable,
    /// The feature is not implemented.
    FeatureUnimplemented,
    /// The platform is unavailable.
    PlatformUnavailable,
    /// A code unknown to the bindings.
    Unknown(i32),
}

/// Library category of a GLFW error.
pub open spec fn glfw_error_category(error: GlfwError) -> VMNLErrorKind {
    match error {
        GlfwError::ApiUnavailable | GlfwError::CursorUnavailable | GlfwError::FeatureUnavailable
        | GlfwError::FeatureUnimplemented | GlfwError::PlatformUnavailable =>
            VMNLErrorKind::GlfwUnsupportedPlatform,
        GlfwError::VersionUnavailable => VMNLErrorKind::GlfwVersionMismatch,
        GlfwError::PlatformError => VMNLErrorKind::GlfwPlatformError,
        GlfwError::NotInitialized => VMNLErrorKind::GlfwInitFailed,
        GlfwError::NoCurrentContext | GlfwError::NoWindowContext =>
            VMNLErrorKind::GlfwContextCreationFailed,
        _ => VMNLErrorKind::GlfwUnknownError,
    }
}

/// Classify a GLFW error; invalid values, allocation and format failures,
/// `NoError` and unknown codes all fall in the unknown category.
pub fn map_error(error: GlfwError) -> (k: VMNLErrorKind)
    ensures
        k == glfw_error_category(error),
{
    match error {
        GlfwError::ApiUnavailable | GlfwError::CursorUnavailable | GlfwError::FeatureUnavailable
        | GlfwError::FeatureUnimplemented | GlfwError::PlatformUnavailable =>
            VMNLErrorKind::GlfwUnsupportedPlatform,
        GlfwError::VersionUnavailable => VMNLErrorKind::GlfwVersionMismatch,
        GlfwError::PlatformError => VMNLErrorKind::GlfwPlatformError,
        GlfwError::NotInitialized => VMNLErrorKind::GlfwInitFailed,
        GlfwError::NoCurrentContext | GlfwError::NoWindowContext =>
            VMNLErrorKind::GlfwContextCreationFailed,
        _ => VMNLErrorKind::GlfwUnknownError,
    }
}

/// Message passed on to the application's error callback: unknown codes are
/// prefixed with the raw code, other descriptions pass through unchanged.
pub fn callback_message(error: GlfwError, description: String) -> (m: String)
    ensures
        m@ == (match error {
            GlfwError::Unknown(code) => "GLFW unknown error "@ + signed_decimal(code as int) + ": "@
                + description@,
            _ => description@,
        }),
{
    match error {
        GlfwError::Unknown(code) => {
            let mut m = String::from_str("GLFW unknown error ");
            append_signed_decimal(&mut m, code as i64);
            m.append(": ");
            m.append(description.as_str());
            m
        },
        _ => description,
    }
}

/// Window-system backends GLFW can run on.
#[derive(Debug, Clone, Copy, PartialEq, Eq, Structural, Hash)]
pub enum Platform {
    /// Any available platform.
    Any,
    /// The headless null platform.
    Null,
    /// Wayland.
    Wayland,
    /// X11.
    X11,
    /// Win32.
    Win32,
    /// macOS Cocoa.
    MacOS,
}

/// Short name of a backend, as reported in diagnostics.
pub fn backend_name(platform: Platform) -> (name: &'static str)
    ensures
        name@ == (match platform {
            Platform::Any => "any"@,
            Platform::Null => "null"@,
            Platform::Wayland => "wayland"@,
            Platform::X11 => "x11"@,
            Platform::Win32 => "win32"@,
            Platform::MacOS => "cocoa"@,
        }),
{
    match platform {
        Platform::Any => "any",
        Platform::Null => "null",
        Platform::Wayland => "wayland",
        Platform::X11 => "x11",
        Platform::Win32 => "win32",
        Platform::MacOS => "cocoa",
    }
}

} // verus!
