//! Input events and their pipeline: key and button classification, the
//! insertion-ordered event queue with canvas resize detection, and the
//! held-key tracker.

use vstd::prelude::*;

verus! {

/// The closed classification of keyboard keys: named modifier keys, printable
/// characters, and a catch-all for anything unrecognized. Unrecognized input
/// never fails; it falls into `Unidentified`.
#[derive(Clone, Copy, PartialEq, Eq, Structural, Hash, Debug)]
pub enum KeyboardKey {
    Character(char),
    Alt,
    AltGr,
    CapsLock,
    Control,
    Fn,
    FnLock,
    Hyper,
    Meta,
    NumLock,
    ScrollLock,
    Shift,
    Super,
    Symbol,
    SymbolLock,
    Dead,
    Unidentified,
}

/// The key that a raw host key identifier denotes. A single-character
/// identifier is a printable key; anything unrecognized is `Unidentified`.
/// `NumLock` deliberately maps to `Meta` and `SymbolLock` to `Symbol`,
/// matching the behaviour this classification has always had.
pub open spec fn keyboard_key_of(s: Seq<char>) -> KeyboardKey {
    if s == "Alt"@ {
        KeyboardKey::Alt
    } else if s == "AltGraph"@ {
        KeyboardKey::AltGr
    } else if s == "CapsLock"@ {
        KeyboardKey::CapsLock
    } else if s == "Control"@ {
        KeyboardKey::Control
    } else if s == "Fn"@ {
        KeyboardKey::Fn
    } else if s == "FnLock"@ {
        KeyboardKey::FnLock
    } else if s == "Hyper"@ {
        KeyboardKey::Hyper
    } else if s == "Meta"@ {
        KeyboardKey::Meta
    } else if s == "NumLock"@ {
        KeyboardKey::Meta
    } else if s == "ScrollLock"@ {
        KeyboardKey::ScrollLock
    } else if s == "Shift"@ {
        KeyboardKey::Shift
    } else if s == "Super"@ {
        KeyboardKey::Super
    } else if s == "Symbol"@ {
        KeyboardKey::Symbol
    } else if s == "SymbolLock"@ {
        KeyboardKey::Symbol
    } else if s == "Dead"@ {
        KeyboardKey::Dead
    } else if s.len() == 1 {
        KeyboardKey::Character(s[0])
    } else {
        KeyboardKey::Unidentified
    }
}

/// Character-by-character string equality, proved against the string views.
fn str_eq_str(a: &str, b: &str) -> (r: bool)
    ensures
        r == (a@ == b@),
{
    let la = a.unicode_len();
    let lb = b.unicode_len();
    if la != lb {
        return false;
    }
    let mut i: usize = 0;
    while i < la
        invariant
            0 <= i <= la,
            la == a@.len(),
            la == b@.len(),
            forall|j: int| 0 <= j < i ==> a@[j] == b@[j],
        decreases la - i,
    {
        if a.get_char(i) != b.get_char(i) {
            return false;
        }
        i = i + 1;
    }
    proof {
        assert(a@ =~= b@);
    }
    true
}

impl KeyboardKey {
    /// Classifies a raw host key identifier.
    pub fn extract(key: &str) -> (k: Self)
        ensures
            k == keyboard_key_of(key@),
    {
        if str_eq_str(key, "Alt") {
            KeyboardKey::Alt
        } else if str_eq_str(key, "AltGraph") {
            KeyboardKey::AltGr
        } else if str_eq_str(key, "CapsLock") {
            KeyboardKey::CapsLock
        } else if str_eq_str(key, "Control") {
            KeyboardKey::Control
        } else if str_eq_str(key, "Fn") {
            KeyboardKey::Fn
        } else if str_eq_str(key, "FnLock") {
            KeyboardKey::FnLock
        } else if str_eq_str(key, "Hyper") {
            KeyboardKey::Hyper
        } else if str_eq_str(key, "Meta") {
            KeyboardKey::Meta
        } else if str_eq_str(key, "NumLock") {
            KeyboardKey::Meta
        } else if str_eq_str(key, "ScrollLock") {
            KeyboardKey::ScrollLock
        } else if str_eq_str(key, "Shift") {
            KeyboardKey::Shift
        } else if str_eq_str(key, "Super") {
            KeyboardKey::Super
        } else if str_eq_str(key, "Symbol") {
            KeyboardKey::Symbol
        } else if str_eq_str(key, "SymbolLock") {
            KeyboardKey::Symbol
        } else if str_eq_str(key, "Dead") {
            KeyboardKey::Dead
        } else if key.unicode_len() == 1 {
            KeyboardKey::Character(key.get_char(0))
        } else {
            KeyboardKey::Unidentified
        }
    }
}

/// A keyboard event: the key and the modifier flags that were held.
#[derive(Clone, Copy, PartialEq, Eq, Structural, Debug)]
pub struct KeyboardEventData {
    pub alt_key: bool,
    pub ctrl_key: bool,
    pub shift_key: bool,
    pub meta_key: bool,
    pub key: KeyboardKey,
}

impl KeyboardEventData {
    /// Builds the event data from the plain values a raw host keyboard
    /// notification carries; the raw key identifier is classified.
    pub fn extract(
        alt_key: bool,
        ctrl_key: bool,
        shift_key: bool,
        meta_key: bool,
        key: &str,
    ) -> (d: Self)
        ensures
            d == (KeyboardEventData {
                alt_key,
                ctrl_key,
                shift_key,
                meta_key,
                key: keyboard_key_of(key@),
            }),
    {
        KeyboardEventData {
            alt_key,
            ctrl_key,
            shift_key,
            meta_key,
            key: KeyboardKey::extract(key),
        }
    }
}

/// The classification of mouse buttons, with a catch-all for other buttons.
#[derive(Clone, Copy, PartialEq, Eq, Structural, Debug)]
pub enum MouseButton {
    Left,
    Middle,
    Right,
    OtherButton(u8),
}

/// The button that a raw host button number denotes.
pub open spec fn mouse_button_of(button: u8) -> MouseButton {
    if button == 0 {
        MouseButton::Left
    } else if button == 1 {
        MouseButton::Middle
    } else if button == 2 {
        MouseButton::Right
    } else {
        MouseButton::OtherButton(button)
    }
}

impl MouseButton {
    /// Classifies a raw host button number.
    pub fn extract(button: u8) -> (b: Self)
        ensures
            b == mouse_button_of(button),
    {
        if button == 0 {
            MouseButton::Left
        } else if button == 1 {
            MouseButton::Middle
        } else if button == 2 {
            MouseButton::Right
        } else {
            MouseButton::OtherButton(button)
        }
    }
}

/// A mouse event: the button, pointer position, motion delta, and modifiers.
#[derive(Clone, Copy, PartialEq, Eq, Structural, Debug)]
pub struct MouseEventData {
    pub alt_key: bool,
    pub ctrl_key: bool,
    pub shift_key: bool,
    pub meta_key: bool,
    pub button: MouseButton,
    pub movement_x: i32,
    pub movement_y: i32,
    pub x: i32,
    pub y: i32,
}

impl MouseEventData {
    /// Builds the event data from the plain values a raw host mouse
    /// notification carries; the raw button number is classified.
    pub fn extract(
        alt_key: bool,
        ctrl_key: bool,
        shift_key: bool,
        meta_key: bool,
        button: u8,
        movement_x: i32,
        movement_y: i32,
        x: i32,
        y: i32,
    ) -> (d: Self)
        ensures
            d == (MouseEventData {
                alt_key,
                ctrl_key,
                shift_key,
                meta_key,
                button: mouse_button_of(button),
                movement_x,
                movement_y,
                x,
                y,
            }),
    {
        MouseEventData {
            alt_key,
            ctrl_key,
            shift_key,
            meta_key,
            button: MouseButton::extract(button),
            movement_x,
            movement_y,
            x,
            y,
        }
    }
}

/// A canvas resize: the size before the change and the size applied.
#[derive(Clone, Copy, PartialEq, Eq, Structural, Debug)]
pub struct CanvasResizeData {
    pub old_width: u32,
    pub old_height: u32,
    pub new_width: u32,
    pub new_height: u32,
}

/// An input event as the runtime consumes it.
#[derive(Clone, Copy, PartialEq, Eq, Structural, Debug)]
pub enum Event {
    KeyDown(KeyboardEventData),
    KeyUp(KeyboardEventData),
    MouseDown(MouseEventData),
    MouseUp(MouseEventData),
    MouseMove(MouseEventData),
    CanvasResize(CanvasResizeData),
}

/// The smallest canvas dimension the host is taken to report; smaller client
/// sizes are raised to this floor.
pub const MIN_CANVAS_DIM: i32 = 150;

/// The canvas size expected from the host-reported client dimensions.
pub open spec fn expected_size_spec(client_width: i32, client_height: i32) -> (u32, u32) {
    (
        (if client_width < MIN_CANVAS_DIM { MIN_CANVAS_DIM } else { client_width }) as u32,
        (if client_height < MIN_CANVAS_DIM { MIN_CANVAS_DIM } else { client_height }) as u32,
    )
}

/// The canvas size that the host-reported client dimensions call for, raised
/// to the minimum dimension.
pub fn get_expected_size(client_width: i32, client_height: i32) -> (size: (u32, u32))
    ensures
        size == expected_size_spec(client_width, client_height),
{
    let width = if client_width < MIN_CANVAS_DIM { MIN_CANVAS_DIM } else { client_width };
    let height = if client_height < MIN_CANVAS_DIM { MIN_CANVAS_DIM } else { client_height };
    (width as u32, height as u32)
}

/// The insertion-ordered queue of input events, together with the last-known
/// canvas size against which resize detection compares. Producers only
/// append; the runtime drains front to back.
pub struct EventQueue {
    pub events: Vec<Event>,
    pub canvas_width: u32,
    pub canvas_height: u32,
}

/// Whether a detection pass over these reported client dimensions changes the
/// stored canvas size.
pub open spec fn resize_needed(q: EventQueue, client_width: i32, client_height: i32) -> bool {
    expected_size_spec(client_width, client_height) != (q.canvas_width, q.canvas_height)
}

/// The resize event that a detection pass on `q` emits for these reported
/// dimensions: the stored size before the change as old, the applied size as
/// new.
pub open spec fn resize_event_of(q: EventQueue, client_width: i32, client_height: i32) -> Event {
    Event::CanvasResize(
        CanvasResizeData {
            old_width: q.canvas_width,
            old_height: q.canvas_height,
            new_width: expected_size_spec(client_width, client_height).0,
            new_height: expected_size_spec(client_width, client_height).1,
        },
    )
}

/// The queue contents after a detection pass: unchanged when the expected
/// size matches the stored size, otherwise with exactly one resize event
/// appended.
pub open spec fn after_detect(q: EventQueue, client_width: i32, client_height: i32) -> Seq<Event> {
    if resize_needed(q, client_width, client_height) {
        q.events@.push(resize_event_of(q, client_width, client_height))
    } else {
        q.events@
    }
}

impl EventQueue {
    /// An empty queue for a canvas of the given size.
    pub fn new(canvas_width: u32, canvas_height: u32) -> (q: Self)
        ensures
            q.events@.len() == 0,
            q.canvas_width == canvas_width,
            q.canvas_height == canvas_height,
    {
        EventQueue { events: Vec::new(), canvas_width, canvas_height }
    }

    /// Compares the expected canvas size against the stored one; on a
    /// mismatch, applies the new size and appends exactly one resize event
    /// whose old size is the stored size from before the change. On a match,
    /// nothing is appended.
    pub fn detect_resize(&mut self, client_width: i32, client_height: i32)
        ensures
            final(self).events@ == after_detect(*old(self), client_width, client_height),
            (final(self).canvas_width, final(self).canvas_height) == expected_size_spec(
                client_width,
                client_height,
            ),
    {
        let (new_width, new_height) = get_expected_size(client_width, client_height);
        if new_width != self.canvas_width || new_height != self.canvas_height {
            let data = CanvasResizeData {
                old_width: self.canvas_width,
                old_height: self.canvas_height,
                new_width,
                new_height,
            };
            self.canvas_width = new_width;
            self.canvas_height = new_height;
            self.enqueue_inner(Event::CanvasResize(data));
        }
    }

    /// Runs resize detection, then appends the event. The event lands after
    /// any resize event the detection pass emitted.
    pub fn enqueue(&mut self, event: Event, client_width: i32, client_height: i32)
        ensures
            final(self).events@ == after_detect(*old(self), client_width, client_height).push(event),
            (final(self).canvas_width, final(self).canvas_height) == expected_size_spec(
                client_width,
                client_height,
            ),
    {
        self.detect_resize(client_width, client_height);
        self.enqueue_inner(event);
    }

    fn enqueue_inner(&mut self, event: Event)
        ensures
            final(self).events@ == old(self).events@.push(event),
            final(self).canvas_width == old(self).canvas_width,
            final(self).canvas_height == old(self).canvas_height,
    {
        self.events.push(event);
    }

    /// Removes and returns the front event; `None` on an empty queue.
    pub fn pop(&mut self) -> (ev: Option<Event>)
        ensures
            final(self).canvas_width == old(self).canvas_width,
            final(self).canvas_height == old(self).canvas_height,
            old(self).events@.len() == 0 ==> ev is None && final(self).events@ == old(self).events@,
            old(self).events@.len() > 0 ==> ev == Some(old(self).events@[0]) && final(self).events@
                == old(self).events@.drop_first(),
    {
        if self.events.len() == 0 {
            None
        } else {
            let ev = self.events.remove(0);
            proof {
                assert(final(self).events@ =~= old(self).events@.drop_first());
            }
            Some(ev)
        }
    }

    /// Whether the queue holds no events.
    pub fn empty(&mut self) -> (r: bool)
        ensures
            r == (old(self).events@.len() == 0),
            *final(self) == *old(self),
    {
        self.events.is_empty()
    }
}

/// Events keep their insertion order: appending one event and then another
/// leaves them adjacent, the first before the second, with everything already
/// queued in front of both.
pub proof fn lemma_fifo_order(s: Seq<Event>, e1: Event, e2: Event)
    ensures
        s.push(e1).push(e2).len() == s.len() + 2,
        s.push(e1).push(e2)[s.len() as int] == e1,
        s.push(e1).push(e2)[s.len() as int + 1] == e2,
        forall|j: int| 0 <= j < s.len() ==> s.push(e1).push(e2)[j] == s[j],
{
}

/// The mapping from keys to their held state. Observations append; the most
/// recent observation of a key wins, and a key never observed is not held.
pub struct KeyTracker {
    keys: Vec<(KeyboardKey, bool)>,
}

/// The held state that a sequence of observations gives a key: the latest
/// entry for the key, or not held when there is none.
pub open spec fn held_state(s: Seq<(KeyboardKey, bool)>, key: KeyboardKey) -> bool
    decreases s.len(),
{
    if s.len() == 0 {
        false
    } else if s.last().0 == key {
        s.last().1
    } else {
        held_state(s.drop_last(), key)
    }
}

proof fn lemma_held_state_prefix(s: Seq<(KeyboardKey, bool)>, key: KeyboardKey, i: int)
    requires
        0 <= i <= s.len(),
        forall|j: int| i <= j < s.len() ==> (#[trigger] s[j]).0 != key,
    ensures
        held_state(s.subrange(0, i), key) == held_state(s, key),
    decreases s.len() - i,
{
    if i < s.len() {
        assert(s.subrange(0, s.len() as int) =~= s);
        assert(s.subrange(0, i + 1).drop_last() =~= s.subrange(0, i));
        lemma_held_state_prefix(s, key, i + 1);
        if i + 1 == s.len() {
            assert(s.subrange(0, i + 1) =~= s);
        } else {
            assert(held_state(s.subrange(0, i + 1), key) == held_state(s.subrange(0, i), key));
        }
    } else {
        assert(s.subrange(0, i) =~= s);
    }
}

impl KeyTracker {
    /// The state of a key under this tracker's observations.
    pub closed spec fn key_state(&self, key: KeyboardKey) -> bool {
        held_state(self.keys@, key)
    }

    /// A tracker with no observations: every key reads as not held.
    pub fn new() -> (t: Self)
        ensures
            forall|k: KeyboardKey| !(#[trigger] t.key_state(k)),
    {
        KeyTracker { keys: Vec::new() }
    }

    /// Records that the key is now held.
    pub fn set_key_down(&mut self, key: KeyboardKey)
        ensures
            final(self).key_state(key),
            forall|k: KeyboardKey| k != key ==> #[trigger] final(self).key_state(k) == old(
                self,
            ).key_state(k),
    {
        self.keys.push((key, true));
        proof {
            assert(final(self).keys@.drop_last() =~= old(self).keys@);
        }
    }

    /// Records that the key is no longer held.
    pub fn set_key_up(&mut self, key: KeyboardKey)
        ensures
            !final(self).key_state(key),
            forall|k: KeyboardKey| k != key ==> #[trigger] final(self).key_state(k) == old(
                self,
            ).key_state(k),
    {
        self.keys.push((key, false));
        proof {
            assert(final(self).keys@.drop_last() =~= old(self).keys@);
        }
    }

    /// Whether the key is held; a key never observed is not.
    pub fn is_key_down(&self, key: KeyboardKey) -> (r: bool)
        ensures
            r == self.key_state(key),
    {
        let mut i: usize = self.keys.len();
        while i > 0
            invariant
                0 <= i <= self.keys@.len(),
                forall|j: int| i <= j < self.keys@.len() ==> (#[trigger] self.keys@[j]).0 != key,
            decreases i,
        {
            i = i - 1;
            let (k, held) = self.keys[i];
            if k == key {
                proof {
                    lemma_held_state_prefix(self.keys@, key, i as int + 1);
                    assert(self.keys@.subrange(0, i as int + 1).last() == self.keys@[i as int]);
                }
                return held;
            }
        }
        proof {
            lemma_held_state_prefix(self.keys@, key, 0);
            assert(self.keys@.subrange(0, 0) =~= Seq::<(KeyboardKey, bool)>::empty());
        }
        false
    }
}

} // verus!
