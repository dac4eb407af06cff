//! Frame-scoped reactive signals.
//!
//! A signal is a single slot holding at most one tagged value per frame.
//! Slots live in a [`SignalPool`], an explicit registry passed by
//! reference; [`Sender`] and [`Receiver`] are marker-typed views onto one
//! slot. Values are written early in a frame, read until the pool-wide
//! cleanup late in the frame, and cleared after one frame if they were
//! read, after two if not. Reading at the wrong payload type is never an
//! error, only a miss.

use vstd::prelude::*;

use core::marker::PhantomData;
use crate::fixed::{fx_add, fx_add_s, fx_mul, fx_mul_s};
use crate::vec2::Vec2;

verus! {

/// A four-channel fixed-point color, one of the payload kinds signals
/// carry and a value the animation driver can ease.
#[derive(Clone, Copy, Debug, PartialEq, Eq, Structural)]
pub struct Rgba {
    pub red: i64,
    pub green: i64,
    pub blue: i64,
    pub alpha: i64,
}

impl Rgba {
    pub fn new(red: i64, green: i64, blue: i64, alpha: i64) -> (r: Rgba)
        ensures
            r == (Rgba { red, green, blue, alpha }),
    {
        Rgba { red, green, blue, alpha }
    }
}

/// A tagged, frame-scoped payload: the closed set of value kinds signals
/// can carry.
#[derive(Debug, Clone, PartialEq)]
pub enum Object {
    /// No value.
    Empty,
    /// A bare notification.
    Unit,
    Bool(bool),
    /// A fixed-point scalar.
    Num(i64),
    Str(String),
    /// A fixed-point 2D value.
    Pos(Vec2),
    /// A fixed-point color.
    Color(Rgba),
}

impl Object {
    /// A bare notification value.
    pub fn unit() -> (r: Object)
        ensures
            r is Unit,
    {
        Object::Unit
    }

    /// Whether the slot value is absent.
    pub fn is_empty(&self) -> (r: bool)
        ensures
            r == (*self is Empty),
    {
        matches!(self, Object::Empty)
    }

    /// An exact copy of the value.
    pub fn dup(&self) -> (r: Object)
        ensures
            r == *self,
    {
        match self {
            Object::Empty => Object::Empty,
            Object::Unit => Object::Unit,
            Object::Bool(b) => Object::Bool(*b),
            Object::Num(v) => Object::Num(*v),
            Object::Str(s) => Object::Str(s.clone()),
            Object::Pos(v) => Object::Pos(*v),
            Object::Color(c) => Object::Color(*c),
        }
    }
}

/// A payload kind that can be extracted from an [`Object`]; extraction at
/// the wrong kind is a miss, never an error.
pub trait DataTransfer: Sized {
    /// What extraction returns for every stored value.
    spec fn extract_spec(obj: Object) -> Option<Self>;

    /// Extract the typed value, or miss.
    fn extract(obj: &Object) -> (r: Option<Self>)
        ensures
            r == Self::extract_spec(*obj),
    ;
}

impl DataTransfer for bool {
    open spec fn extract_spec(obj: Object) -> Option<bool> {
        match obj {
            Object::Bool(b) => Some(b),
            _ => None,
        }
    }

    fn extract(obj: &Object) -> (r: Option<bool>) {
        match obj {
            Object::Bool(b) => Some(*b),
            _ => None,
        }
    }
}

impl DataTransfer for i64 {
    open spec fn extract_spec(obj: Object) -> Option<i64> {
        match obj {
            Object::Num(v) => Some(v),
            _ => None,
        }
    }

    fn extract(obj: &Object) -> (r: Option<i64>) {
        match obj {
            Object::Num(v) => Some(*v),
            _ => None,
        }
    }
}

impl DataTransfer for String {
    open spec fn extract_spec(obj: Object) -> Option<String> {
        match obj {
            Object::Str(s) => Some(s),
            _ => None,
        }
    }

    fn extract(obj: &Object) -> (r: Option<String>) {
        match obj {
            Object::Str(s) => Some(s.clone()),
            _ => None,
        }
    }
}

impl DataTransfer for Vec2 {
    open spec fn extract_spec(obj: Object) -> Option<Vec2> {
        match obj {
            Object::Pos(v) => Some(v),
            _ => None,
        }
    }

    fn extract(obj: &Object) -> (r: Option<Vec2>) {
        match obj {
            Object::Pos(v) => Some(*v),
            _ => None,
        }
    }
}

impl DataTransfer for Rgba {
    open spec fn extract_spec(obj: Object) -> Option<Rgba> {
        match obj {
            Object::Color(c) => Some(c),
            _ => None,
        }
    }

    fn extract(obj: &Object) -> (r: Option<Rgba>) {
        match obj {
            Object::Color(c) => Some(*c),
            _ => None,
        }
    }
}

impl DataTransfer for () {
    open spec fn extract_spec(obj: Object) -> Option<()> {
        match obj {
            Object::Unit => Some(()),
            _ => None,
        }
    }

    fn extract(obj: &Object) -> (r: Option<()>) {
        match obj {
            Object::Unit => Some(()),
            _ => None,
        }
    }
}

/// A per-handle transformation of the payload, drawn from a closed set; a
/// value of the wrong kind passes through untouched.
#[derive(Clone, Copy, Debug, PartialEq, Eq, Structural)]
pub enum SignalMapper {
    /// No transformation.
    Identity,
    /// A boolean chooses between two scalars.
    BoolToNum { on: i64, off: i64 },
    /// An affine rescale of a scalar.
    NumScale { factor: i64, bias: i64 },
    /// Any present value collapses to a bare notification.
    ToUnit,
}

impl SignalMapper {
    /// The image of a stored value under this mapper.
    pub open spec fn apply_spec(self, obj: Object) -> Object {
        match self {
            SignalMapper::Identity => obj,
            SignalMapper::BoolToNum { on, off } => match obj {
                Object::Bool(b) => Object::Num(
                    if b {
                        on
                    } else {
                        off
                    },
                ),
                _ => obj,
            },
            SignalMapper::NumScale { factor, bias } => match obj {
                Object::Num(v) => Object::Num(
                    fx_add_s(fx_mul_s(v as int, factor as int), bias as int) as i64,
                ),
                _ => obj,
            },
            SignalMapper::ToUnit => match obj {
                Object::Empty => Object::Empty,
                _ => Object::Unit,
            },
        }
    }

    /// Apply the mapper.
    pub fn apply(&self, obj: Object) -> (r: Object)
        ensures
            r == self.apply_spec(obj),
    {
        match self {
            SignalMapper::Identity => obj,
            SignalMapper::BoolToNum { on, off } => match obj {
                Object::Bool(b) => Object::Num(
                    if b {
                        *on
                    } else {
                        *off
                    },
                ),
                _ => obj,
            },
            SignalMapper::NumScale { factor, bias } => match obj {
                Object::Num(v) => Object::Num(fx_add(fx_mul(v, *factor), *bias)),
                _ => obj,
            },
            SignalMapper::ToUnit => match obj {
                Object::Empty => Object::Empty,
                _ => Object::Unit,
            },
        }
    }
}

/// One signal slot: its value and the bookkeeping the cleanup policy
/// needs.
#[derive(Debug, Clone, PartialEq)]
pub struct SignalSlot {
    /// The stored payload.
    pub value: Object,
    /// Whether the value was read since it was written.
    pub read: bool,
    /// Whether the value already survived one cleanup.
    pub kept: bool,
    /// Whether the pool-wide cleanup manages this slot; slots made by
    /// [`channel`] are unmanaged and persist.
    pub managed: bool,
}

/// The process-wide registry of signal slots, passed by reference instead
/// of living in ambient global state.
#[derive(Debug, Clone, PartialEq)]
pub struct SignalPool {
    pub slots: Vec<SignalSlot>,
}

/// The slot states after a value was written into one slot.
pub open spec fn pool_send_spec(slots: Seq<SignalSlot>, slot: int, value: Object) -> Seq<
    SignalSlot,
> {
    if 0 <= slot < slots.len() {
        slots.update(slot, SignalSlot { value, read: false, kept: false, ..slots[slot] })
    } else {
        slots
    }
}

impl SignalPool {
    /// An empty registry.
    pub fn new() -> (r: SignalPool)
        ensures
            r.slots@.len() == 0,
    {
        SignalPool { slots: Vec::new() }
    }

    /// Allocate a fresh empty slot.
    pub fn allocate(&mut self, managed: bool) -> (slot: usize)
        ensures
            slot == old(self).slots@.len(),
            final(self).slots@ == old(self).slots@.push(
                SignalSlot { value: Object::Empty, read: false, kept: false, managed },
            ),
    {
        let slot = self.slots.len();
        self.slots.push(SignalSlot { value: Object::Empty, read: false, kept: false, managed });
        slot
    }
}

/// What one cleanup step leaves of a slot.
pub open spec fn slot_cleaned_spec(s: SignalSlot) -> SignalSlot {
    if !s.managed || s.value is Empty {
        s
    } else if s.read || s.kept {
        SignalSlot { value: Object::Empty, read: false, kept: false, managed: s.managed }
    } else {
        SignalSlot { kept: true, ..s }
    }
}

/// The end-of-frame cleanup: every managed slot holding a value is
/// cleared one frame after it was written if it has been read, two frames
/// after otherwise. Unmanaged slots persist.
pub fn signal_cleanup(pool: &mut SignalPool)
    ensures
        final(pool).slots@.len() == old(pool).slots@.len(),
        forall|j: int|
            0 <= j < old(pool).slots@.len() ==> final(pool).slots@[j] == slot_cleaned_spec(
                old(pool).slots@[j],
            ),
{
    let n = pool.slots.len();
    let mut i: usize = 0;
    while i < n
        invariant
            0 <= i <= n,
            n == old(pool).slots@.len(),
            pool.slots@.len() == n,
            forall|j: int|
                0 <= j < i ==> pool.slots@[j] == slot_cleaned_spec(old(pool).slots@[j]),
            forall|j: int| i <= j < n ==> pool.slots@[j] == old(pool).slots@[j],
        decreases n - i,
    {
        let slot = &mut pool.slots[i];
        if slot.managed && !slot.value.is_empty() {
            if slot.read || slot.kept {
                slot.value = Object::Empty;
                slot.read = false;
                slot.kept = false;
            } else {
                slot.kept = true;
            }
        }
        i = i + 1;
    }
}

/// A handle on one slot of the pool.
#[derive(Clone, Copy, Debug, PartialEq, Eq, Structural)]
pub struct Signal {
    pub slot: usize,
}

impl Signal {
    /// Allocate a fresh managed slot and a handle on it.
    pub fn new(pool: &mut SignalPool) -> (r: Signal)
        ensures
            r.slot == old(pool).slots@.len(),
            final(pool).slots@ == old(pool).slots@.push(
                SignalSlot { value: Object::Empty, read: false, kept: false, managed: true },
            ),
    {
        let slot = pool.allocate(true);
        Signal { slot }
    }

    /// Whether the slot currently holds no value (a handle on a slot that
    /// no longer exists is empty too).
    pub fn is_empty(&self, pool: &SignalPool) -> (r: bool)
        ensures
            r == if self.slot < pool.slots@.len() {
                pool.slots@[self.slot as int].value is Empty
            } else {
                true
            },
    {
        if self.slot < pool.slots.len() {
            pool.slots[self.slot].value.is_empty()
        } else {
            true
        }
    }

    /// Clear the slot.
    pub fn clean(&self, pool: &mut SignalPool)
        ensures
            final(pool).slots@.len() == old(pool).slots@.len(),
            self.slot < old(pool).slots@.len() ==> final(pool).slots@ == old(pool).slots@.update(
                self.slot as int,
                SignalSlot {
                    value: Object::Empty,
                    read: false,
                    kept: false,
                    ..old(pool).slots@[self.slot as int]
                },
            ),
            self.slot >= old(pool).slots@.len() ==> *final(pool) == *old(pool),
    {
        if self.slot < pool.slots.len() {
            let slot = &mut pool.slots[self.slot];
            slot.value = Object::Empty;
            slot.read = false;
            slot.kept = false;
        }
    }
}

/// Tags a channel so that several senders or receivers can live on one
/// entity.
pub trait SignalMarker {

}

impl SignalMarker for () {

}

/// A writing handle on a signal.
#[derive(Debug)]
pub struct Sender<M> {
    pub signal: Signal,
    pub map: SignalMapper,
    pub marker: PhantomData<M>,
}

/// A reading handle on a signal.
#[derive(Debug)]
pub struct Receiver<M> {
    pub signal: Signal,
    pub map: SignalMapper,
    pub marker: PhantomData<M>,
}

impl<M: SignalMarker> Sender<M> {
    /// Rebrand the handle with another marker type.
    pub fn mark<M2: SignalMarker>(self) -> (r: Sender<M2>)
        ensures
            r.signal == self.signal,
            r.map == self.map,
    {
        Sender { signal: self.signal, map: self.map, marker: PhantomData }
    }

    /// This handle with a payload mapper, applied to everything it sends.
    pub fn map(self, map: SignalMapper) -> (r: Sender<M>)
        ensures
            r.signal == self.signal,
            r.map == map,
    {
        Sender { signal: self.signal, map, marker: PhantomData }
    }

    /// Write a value into the slot, through the mapper, unconditionally
    /// overwriting what a frame wrote before (last writer wins).
    pub fn send(&self, pool: &mut SignalPool, item: Object)
        ensures
            final(pool).slots@ == pool_send_spec(
                old(pool).slots@,
                self.signal.slot as int,
                self.map.apply_spec(item),
            ),
    {
        if self.signal.slot < pool.slots.len() {
            let value = self.map.apply(item);
            let slot = &mut pool.slots[self.signal.slot];
            slot.value = value;
            slot.read = false;
            slot.kept = false;
            assert(final(pool).slots@ =~= pool_send_spec(
                old(pool).slots@,
                self.signal.slot as int,
                self.map.apply_spec(item),
            ));
        }
    }

    /// Send a bare notification.
    pub fn send_empty(&self, pool: &mut SignalPool)
        ensures
            final(pool).slots@ == pool_send_spec(
                old(pool).slots@,
                self.signal.slot as int,
                self.map.apply_spec(Object::Unit),
            ),
    {
        self.send(pool, Object::unit())
    }
}

impl<M: SignalMarker> Receiver<M> {
    /// Rebrand the handle with another marker type.
    pub fn mark<M2: SignalMarker>(self) -> (r: Receiver<M2>)
        ensures
            r.signal == self.signal,
            r.map == self.map,
    {
        Receiver { signal: self.signal, map: self.map, marker: PhantomData }
    }

    /// This handle with a payload mapper, applied at read time, so one
    /// slot can feed differently-typed consumers.
    pub fn map(self, map: SignalMapper) -> (r: Receiver<M>)
        ensures
            r.signal == self.signal,
            r.map == map,
    {
        Receiver { signal: self.signal, map, marker: PhantomData }
    }

    /// A copy of this handle without its mapper.
    pub fn fork(&self) -> (r: Receiver<M>)
        ensures
            r.signal == self.signal,
            r.map is Identity,
    {
        Receiver { signal: self.signal, map: SignalMapper::Identity, marker: PhantomData }
    }

    /// Read the slot at a payload type: `Some` exactly when the mapped
    /// stored value has that type, `None` on a miss or an empty slot. A
    /// non-empty slot is marked read for the cleanup policy; the value
    /// itself stays for other consumers.
    pub fn poll<T: DataTransfer>(&self, pool: &mut SignalPool) -> (r: Option<T>)
        ensures
            r == if self.signal.slot < old(pool).slots@.len() {
                T::extract_spec(
                    self.map.apply_spec(old(pool).slots@[self.signal.slot as int].value),
                )
            } else {
                None::<T>
            },
            final(pool).slots@.len() == old(pool).slots@.len(),
            self.signal.slot < old(pool).slots@.len() ==> final(pool).slots@ == old(
                pool,
            ).slots@.update(
                self.signal.slot as int,
                SignalSlot {
                    read: old(pool).slots@[self.signal.slot as int].read || !(old(
                        pool,
                    ).slots@[self.signal.slot as int].value is Empty),
                    ..old(pool).slots@[self.signal.slot as int]
                },
            ),
            self.signal.slot >= old(pool).slots@.len() ==> *final(pool) == *old(pool),
    {
        if self.signal.slot < pool.slots.len() {
            let slot = &mut pool.slots[self.signal.slot];
            if !slot.value.is_empty() {
                slot.read = true;
            }
            let mapped = self.map.apply(slot.value.dup());
            let r = T::extract(&mapped);
            assert(final(pool).slots@ =~= old(pool).slots@.update(
                self.signal.slot as int,
                SignalSlot {
                    read: old(pool).slots@[self.signal.slot as int].read || !(old(
                        pool,
                    ).slots@[self.signal.slot as int].value is Empty),
                    ..old(pool).slots@[self.signal.slot as int]
                },
            ));
            r
        } else {
            None
        }
    }

    /// Whether the slot holds anything at all, regardless of type.
    pub fn poll_any(&self, pool: &SignalPool) -> (r: bool)
        ensures
            r == (self.signal.slot < pool.slots@.len() && !(
            pool.slots@[self.signal.slot as int].value is Empty)),
    {
        if self.signal.slot < pool.slots.len() {
            !pool.slots[self.signal.slot].value.is_empty()
        } else {
            false
        }
    }
}

/// A family of handle tuples that can be created on one fresh slot.
pub trait SignalCreate: Sized {
    /// Whether every handle of this tuple sits on `slot` with no mapper.
    spec fn fresh_on(self, slot: int) -> bool;

    /// Build the handles, all sharing one newly allocated managed slot.
    fn new(pool: &mut SignalPool) -> (r: Self)
        ensures
            r.fresh_on(old(pool).slots@.len() as int),
            final(pool).slots@ == old(pool).slots@.push(
                SignalSlot { value: Object::Empty, read: false, kept: false, managed: true },
            ),
    ;
}

impl SignalCreate for (Sender<()>, Receiver<()>) {
    open spec fn fresh_on(self, slot: int) -> bool {
        &&& self.0.signal.slot == slot
        &&& self.0.map is Identity
        &&& self.1.signal.slot == slot
        &&& self.1.map is Identity
    }

    fn new(pool: &mut SignalPool) -> Self {
        let signal = Signal::new(pool);
        (
            Sender { signal, map: SignalMapper::Identity, marker: PhantomData },
            Receiver { signal, map: SignalMapper::Identity, marker: PhantomData },
        )
    }
}

impl SignalCreate for (Sender<()>, Receiver<()>, Receiver<()>) {
    open spec fn fresh_on(self, slot: int) -> bool {
        &&& self.0.signal.slot == slot
        &&& self.0.map is Identity
        &&& self.1.signal.slot == slot
        &&& self.1.map is Identity
        &&& self.2.signal.slot == slot
        &&& self.2.map is Identity
    }

    fn new(pool: &mut SignalPool) -> Self {
        let signal = Signal::new(pool);
        (
            Sender { signal, map: SignalMapper::Identity, marker: PhantomData },
            Receiver { signal, map: SignalMapper::Identity, marker: PhantomData },
            Receiver { signal, map: SignalMapper::Identity, marker: PhantomData },
        )
    }
}

impl SignalCreate for (Sender<()>, Receiver<()>, Receiver<()>, Receiver<()>) {
    open spec fn fresh_on(self, slot: int) -> bool {
        &&& self.0.signal.slot == slot
        &&& self.0.map is Identity
        &&& self.1.signal.slot == slot
        &&& self.1.map is Identity
        &&& self.2.signal.slot == slot
        &&& self.2.map is Identity
        &&& self.3.signal.slot == slot
        &&& self.3.map is Identity
    }

    fn new(pool: &mut SignalPool) -> Self {
        let signal = Signal::new(pool);
        (
            Sender { signal, map: SignalMapper::Identity, marker: PhantomData },
            Receiver { signal, map: SignalMapper::Identity, marker: PhantomData },
            Receiver { signal, map: SignalMapper::Identity, marker: PhantomData },
            Receiver { signal, map: SignalMapper::Identity, marker: PhantomData },
        )
    }
}

/// Create a managed signal as a tuple of one sender and some receivers
/// (arity chosen by the requested tuple type), all sharing one freshly
/// allocated empty slot, each without a mapper — so a value sent through
/// the sender is observable through every returned receiver until the
/// cleanup clears the slot. More receivers can also be split off with
/// [`Receiver::fork`].
pub fn signal<S: SignalCreate>(pool: &mut SignalPool) -> (r: S)
    ensures
        r.fresh_on(old(pool).slots@.len() as int),
        final(pool).slots@ == old(pool).slots@.push(
            SignalSlot { value: Object::Empty, read: false, kept: false, managed: true },
        ),
{
    S::new(pool)
}

/// Create a persistent (unmanaged) channel: one sender and one receiver
/// on a fresh slot that the pool-wide cleanup leaves alone.
pub fn channel(pool: &mut SignalPool) -> (r: (Sender<()>, Receiver<()>))
    ensures
        r.0.signal.slot == old(pool).slots@.len(),
        r.1.signal.slot == old(pool).slots@.len(),
        r.0.map is Identity,
        r.1.map is Identity,
        final(pool).slots@ == old(pool).slots@.push(
            SignalSlot { value: Object::Empty, read: false, kept: false, managed: false },
        ),
{
    let slot = pool.allocate(false);
    let signal = Signal { slot };
    (
        Sender { signal, map: SignalMapper::Identity, marker: PhantomData },
        Receiver { signal, map: SignalMapper::Identity, marker: PhantomData },
    )
}

/// Named global values: an explicit registry of key/value pairs written
/// by event handlers.
#[derive(Debug, Clone)]
pub struct KeyStorage {
    pub entries: Vec<(String, Object)>,
}

/// The entries after `name` was bound to `value`: the first entry whose
/// key reads `name` is replaced, or a new entry is appended.
pub open spec fn ks_set_spec(
    entries: Seq<(String, Object)>,
    name: String,
    value: Object,
    i: int,
) -> Seq<(String, Object)>
    decreases entries.len() - i,
{
    if i < 0 || i >= entries.len() {
        entries.push((name, value))
    } else if entries[i].0@ == name@ {
        entries.update(i, (entries[i].0, value))
    } else {
        ks_set_spec(entries, name, value, i + 1)
    }
}

/// The value bound to `name`, scanning from entry `i`.
pub open spec fn ks_get_spec(entries: Seq<(String, Object)>, name: Seq<char>, i: int) -> Option<
    Object,
>
    decreases entries.len() - i,
{
    if i < 0 || i >= entries.len() {
        None
    } else if entries[i].0@ == name {
        Some(entries[i].1)
    } else {
        ks_get_spec(entries, name, i + 1)
    }
}

impl KeyStorage {
    /// An empty registry.
    pub fn new() -> (r: KeyStorage)
        ensures
            r.entries@.len() == 0,
    {
        KeyStorage { entries: Vec::new() }
    }

    /// Bind `name` to `value`, replacing any earlier binding.
    #[verifier::loop_isolation(false)]
    pub fn set_dyn(&mut self, name: String, value: Object)
        ensures
            final(self).entries@ == ks_set_spec(old(self).entries@, name, value, 0),
    {
        let n = self.entries.len();
        let mut i: usize = 0;
        while i < n
            invariant
                0 <= i <= n,
                n == self.entries@.len(),
                *self == *old(self),
                ks_set_spec(self.entries@, name, value, 0) == ks_set_spec(
                    self.entries@,
                    name,
                    value,
                    i as int,
                ),
            decreases n - i,
        {
            if self.entries[i].0 == name {
                let slot = &mut self.entries[i];
                slot.1 = value;
                return ;
            }
            i = i + 1;
        }
        self.entries.push((name, value));
    }

    /// Look up the value bound to `name`.
    #[verifier::loop_isolation(false)]
    pub fn get_dyn(&self, name: &String) -> (r: Option<Object>)
        ensures
            r == ks_get_spec(self.entries@, name@, 0),
    {
        let n = self.entries.len();
        let mut i: usize = 0;
        while i < n
            invariant
                0 <= i <= n,
                n == self.entries@.len(),
                ks_get_spec(self.entries@, name@, 0) == ks_get_spec(self.entries@, name@, i as int),
            decreases n - i,
        {
            if self.entries[i].0 == *name {
                return Some(self.entries[i].1.dup());
            }
            i = i + 1;
        }
        None
    }
}

} // verus!
