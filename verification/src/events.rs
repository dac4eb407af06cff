//! Cursor event flags and event handlers.
//!
//! Events are delivered to entities as flag components; an entity reacts
//! by attaching [`Handlers`], which forward the event's payload to one-shot
//! systems, signals, or named global keys.

use vstd::prelude::*;

use crate::signals::{
    ks_set_spec, pool_send_spec, KeyStorage, Object, Sender, SignalMapper, SignalPool, SignalSlot,
};
use crate::vec2::Vec2;

verus! {

/// Bit flags for cursor events.
///
/// Each named constant is one bit; an event component carries exactly one
/// of them, a listener may combine several with [`EventFlags::const_or`].
#[derive(Clone, Copy, Debug, PartialEq, Eq, Structural)]
pub struct EventFlags(pub u32);

impl EventFlags {
    pub const IDLE: u32 = 0x1;

    pub const HOVER: u32 = 0x2;

    pub const LEFT_DRAG: u32 = 0x4;

    pub const LEFT_DOWN: u32 = 0x8;

    pub const LEFT_PRESSED: u32 = 0x10;

    pub const LEFT_CLICK: u32 = 0x20;

    pub const DOUBLE_CLICK: u32 = 0x40;

    pub const MID_DOWN: u32 = 0x80;

    pub const MID_PRESSED: u32 = 0x100;

    pub const MID_CLICK: u32 = 0x200;

    pub const MID_DRAG: u32 = 0x400;

    pub const RIGHT_DOWN: u32 = 0x800;

    pub const RIGHT_PRESSED: u32 = 0x1000;

    pub const RIGHT_CLICK: u32 = 0x2000;

    pub const RIGHT_DRAG: u32 = 0x4000;

    pub const DROP: u32 = 0x8000;

    pub const DRAG_END: u32 = 0x10000;

    pub const CLICK_OUTSIDE: u32 = 0x20000;

    pub const MOUSE_WHEEL: u32 = 0x40000;

    /// A flag set from raw bits.
    pub fn from_bits(bits: u32) -> (r: EventFlags)
        ensures
            r.0 == bits,
    {
        EventFlags(bits)
    }

    /// The union of two flag sets.
    pub fn const_or(self, other: EventFlags) -> (r: EventFlags)
        ensures
            r.0 == self.0 | other.0,
    {
        EventFlags(self.0 | other.0)
    }

    /// Whether every bit of `other` is set in `self`.
    pub fn contains(self, other: EventFlags) -> (r: bool)
        ensures
            r == (self.0 & other.0 == other.0),
    {
        self.0 & other.0 == other.0
    }

    /// Whether any bit is shared with `other`.
    pub fn intersects(self, other: EventFlags) -> (r: bool)
        ensures
            r == (self.0 & other.0 != 0),
    {
        self.0 & other.0 > 0
    }
}

/// Represents hovering, clicking or dragging this frame.
#[derive(Clone, Copy, Debug, PartialEq, Eq, Structural)]
pub struct CursorFocus(pub EventFlags);

impl CursorFocus {
    pub fn new(flags: EventFlags) -> (r: CursorFocus)
        ensures
            r.0 == flags,
    {
        CursorFocus(flags)
    }

    /// The flag carried by this event.
    pub fn flags(&self) -> (r: EventFlags)
        ensures
            r == self.0,
    {
        self.0
    }

    /// Whether the event is exactly `flag`.
    pub fn is(&self, flag: EventFlags) -> (r: bool)
        ensures
            r == (self.0 == flag),
    {
        self.0.0 == flag.0
    }

    /// Whether the event shares a bit with `flag`.
    pub fn intersects(&self, flag: EventFlags) -> (r: bool)
        ensures
            r == (self.0.0 & flag.0 != 0),
    {
        self.0.0 & flag.0 > 0
    }
}

/// Represents a one-frame cursor action such as a click.
#[derive(Clone, Copy, Debug, PartialEq, Eq, Structural)]
pub struct CursorAction(pub EventFlags);

impl CursorAction {
    pub fn new(flags: EventFlags) -> (r: CursorAction)
        ensures
            r.0 == flags,
    {
        CursorAction(flags)
    }

    /// The flag carried by this event.
    pub fn flags(&self) -> (r: EventFlags)
        ensures
            r == self.0,
    {
        self.0
    }

    /// Whether the event is exactly `flag`.
    pub fn is(&self, flag: EventFlags) -> (r: bool)
        ensures
            r == (self.0 == flag),
    {
        self.0.0 == flag.0
    }

    /// Whether the event shares a bit with `flag`.
    pub fn intersects(&self, flag: EventFlags) -> (r: bool)
        ensures
            r == (self.0.0 & flag.0 != 0),
    {
        self.0.0 & flag.0 > 0
    }
}

/// Represents the cursor clicking outside the entity's hitbox.
#[derive(Clone, Copy, Debug, PartialEq, Eq, Structural)]
pub struct CursorClickOutside;

/// A mouse wheel movement routed to an entity.
#[derive(Clone, Copy, Debug, PartialEq, Eq, Structural)]
pub struct MouseWheelAction(pub Vec2);

impl MouseWheelAction {
    /// The wheel delta.
    pub fn get(&self) -> (r: Vec2)
        ensures
            r == self.0,
    {
        self.0
    }
}

/// An event sent while a widget is being dragged.
#[derive(Debug)]
pub struct EvMouseDrag;

/// An event sent when a widget loses focus.
#[derive(Debug)]
pub struct EvLoseFocus;

/// An event sent when a widget obtains focus.
#[derive(Debug)]
pub struct EvObtainFocus;

/// An event carrying the payload value of a button-family widget.
#[derive(Debug)]
pub struct EvButtonClick;

/// An event carrying the boolean value of a toggle.
#[derive(Debug)]
pub struct EvToggleChange;

/// An event carrying the content of a text input on change.
#[derive(Debug)]
pub struct EvTextChange;

/// An event carrying the content of a text input on submit.
#[derive(Debug)]
pub struct EvTextSubmit;

/// An event carrying a 0 to 1 position factor of a scrolled or dragged
/// widget.
#[derive(Debug)]
pub struct EvPositionFactor;

/// Marks a handler family whose payload type is dynamic.
#[derive(Debug, Clone, Copy, PartialEq, Eq, Structural)]
pub struct DynamicData;

/// A handleable event: the marker type names the occasion, the context is
/// per-entity handler state.
pub trait EventHandling {
    type Context;

    /// The initial per-entity context, as a spec value.
    spec fn initial_context() -> Self::Context;

    /// The initial per-entity context.
    fn new_context() -> (r: Self::Context)
        ensures
            r == Self::initial_context(),
    ;
}

impl EventHandling for EvMouseDrag {
    type Context = ();

    open spec fn initial_context() -> () {
        ()
    }

    fn new_context() -> Self::Context {
    }
}

impl EventHandling for EvLoseFocus {
    type Context = ();

    open spec fn initial_context() -> () {
        ()
    }

    fn new_context() -> Self::Context {
    }
}

impl EventHandling for EvObtainFocus {
    type Context = bool;

    open spec fn initial_context() -> bool {
        false
    }

    fn new_context() -> (r: Self::Context) {
        false
    }
}

impl EventHandling for EvButtonClick {
    type Context = ();

    open spec fn initial_context() -> () {
        ()
    }

    fn new_context() -> Self::Context {
    }
}

impl EventHandling for EvToggleChange {
    type Context = ();

    open spec fn initial_context() -> () {
        ()
    }

    fn new_context() -> Self::Context {
    }
}

impl EventHandling for EvTextChange {
    type Context = ();

    open spec fn initial_context() -> () {
        ()
    }

    fn new_context() -> Self::Context {
    }
}

impl EventHandling for EvTextSubmit {
    type Context = ();

    open spec fn initial_context() -> () {
        ()
    }

    fn new_context() -> Self::Context {
    }
}

impl EventHandling for EvPositionFactor {
    type Context = ();

    open spec fn initial_context() -> () {
        ()
    }

    fn new_context() -> Self::Context {
    }
}

/// One way of reacting to an event.
#[derive(Debug)]
pub enum Handler {
    /// Ask the host to run a registered one-shot system.
    OneShotSystem(u64),
    /// Send the payload into a signal.
    Signal(Sender<()>),
    /// Bind the payload to a named global key, through a mapper.
    GlobalKey(String, SignalMapper),
}

/// The state handlers act on: the signal slots, the key bindings, and the
/// one-shot systems asked for so far.
pub open spec fn handler_step_spec(
    h: Handler,
    slots: Seq<SignalSlot>,
    keys: Seq<(String, Object)>,
    systems: Seq<u64>,
    data: Object,
) -> (Seq<SignalSlot>, Seq<(String, Object)>, Seq<u64>) {
    match h {
        Handler::OneShotSystem(id) => (slots, keys, systems.push(id)),
        Handler::Signal(s) => (
            pool_send_spec(slots, s.signal.slot as int, s.map.apply_spec(data)),
            keys,
            systems,
        ),
        Handler::GlobalKey(name, mapper) => (
            slots,
            ks_set_spec(keys, name, mapper.apply_spec(data), 0),
            systems,
        ),
    }
}

/// The state after the first `i` handlers ran, in order.
pub open spec fn handlers_fold_spec(
    handlers: Seq<Handler>,
    slots: Seq<SignalSlot>,
    keys: Seq<(String, Object)>,
    systems: Seq<u64>,
    data: Object,
    i: int,
) -> (Seq<SignalSlot>, Seq<(String, Object)>, Seq<u64>)
    decreases i,
{
    if i <= 0 {
        (slots, keys, systems)
    } else {
        let prev = handlers_fold_spec(handlers, slots, keys, systems, data, i - 1);
        handler_step_spec(handlers[i - 1], prev.0, prev.1, prev.2, data)
    }
}

/// The handlers attached to one entity for one event occasion.
#[derive(Debug)]
pub struct Handlers<T: EventHandling> {
    /// Per-entity handler state (focus tracking and the like).
    pub context: T::Context,
    /// The reactions, run in order.
    pub handlers: Vec<Handler>,
}

impl<T: EventHandling> Handlers<T> {
    /// No reactions, with the event's initial context.
    pub fn new_empty() -> (r: Self)
        ensures
            r.handlers@.len() == 0,
            r.context == T::initial_context(),
    {
        Handlers { context: T::new_context(), handlers: Vec::new() }
    }

    /// One reaction, with the event's initial context.
    pub fn new(handler: Handler) -> (r: Self)
        ensures
            r.handlers@.len() == 1,
            r.handlers@[0] == handler,
            r.context == T::initial_context(),
    {
        let mut handlers: Vec<Handler> = Vec::new();
        handlers.push(handler);
        Handlers { context: T::new_context(), handlers }
    }

    /// This set with one more reaction.
    pub fn with(self, handler: Handler) -> (r: Self)
        ensures
            r.handlers@ == self.handlers@.push(handler),
            r.context == self.context,
    {
        let mut this = self;
        this.handlers.push(handler);
        this
    }

    /// Whether no reaction is attached.
    pub fn is_empty(&self) -> (r: bool)
        ensures
            r == (self.handlers@.len() == 0),
    {
        self.handlers.len() == 0
    }

    /// React to an event carrying `data`: every handler runs in order,
    /// sending into signals, binding global keys, and collecting the
    /// one-shot systems the host must run.
    #[verifier::loop_isolation(false)]
    pub fn handle(
        &self,
        pool: &mut SignalPool,
        keys: &mut KeyStorage,
        systems: &mut Vec<u64>,
        data: Object,
    )
        ensures
            (final(pool).slots@, final(keys).entries@, final(systems)@) == handlers_fold_spec(
                self.handlers@,
                old(pool).slots@,
                old(keys).entries@,
                old(systems)@,
                data,
                self.handlers@.len() as int,
            ),
    {
        let n = self.handlers.len();
        let mut i: usize = 0;
        while i < n
            invariant
                0 <= i <= n,
                (pool.slots@, keys.entries@, systems@) == handlers_fold_spec(
                    self.handlers@,
                    old(pool).slots@,
                    old(keys).entries@,
                    old(systems)@,
                    data,
                    i as int,
                ),
            decreases n - i,
        {
            match &self.handlers[i] {
                Handler::OneShotSystem(id) => {
                    systems.push(*id);
                },
                Handler::Signal(s) => {
                    s.send(pool, data.dup());
                },
                Handler::GlobalKey(name, mapper) => {
                    keys.set_dyn(name.clone(), mapper.apply(data.dup()));
                },
            }
            i = i + 1;
        }
    }

    /// React to a type-erased payload; identical to [`Handlers::handle`],
    /// kept as the dynamic entry point.
    pub fn handle_dyn(
        &self,
        pool: &mut SignalPool,
        keys: &mut KeyStorage,
        systems: &mut Vec<u64>,
        data: Object,
    )
        ensures
            (final(pool).slots@, final(keys).entries@, final(systems)@) == handlers_fold_spec(
                self.handlers@,
                old(pool).slots@,
                old(keys).entries@,
                old(systems)@,
                data,
                self.handlers@.len() as int,
            ),
    {
        self.handle(pool, keys, systems, data)
    }
}

impl Handlers<EvObtainFocus> {
    /// Focus edge detection for an entity that currently has cursor
    /// focus: fire once when focus is first obtained, then stay quiet
    /// until [`Handlers::focus_lost`] resets the context.
    pub fn focus_obtained(
        &mut self,
        pool: &mut SignalPool,
        keys: &mut KeyStorage,
        systems: &mut Vec<u64>,
    )
        ensures
            final(self).handlers@ == old(self).handlers@,
            final(self).context == true,
            old(self).context ==> *final(pool) == *old(pool) && *final(keys) == *old(keys)
                && final(systems)@ == old(systems)@,
            !old(self).context ==> (
                final(pool).slots@,
                final(keys).entries@,
                final(systems)@,
            ) == handlers_fold_spec(
                old(self).handlers@,
                old(pool).slots@,
                old(keys).entries@,
                old(systems)@,
                Object::Unit,
                old(self).handlers@.len() as int,
            ),
    {
        if self.context {
            return ;
        }
        self.context = true;
        self.handle(pool, keys, systems, Object::unit());
    }

    /// Reset the focus edge when the entity no longer has cursor focus.
    pub fn focus_lost(&mut self)
        ensures
            *final(self) == (Handlers { context: false, ..*old(self) }),
    {
        self.context = false;
    }
}

} // verus!
