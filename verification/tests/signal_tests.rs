//! Signal scenarios: typed misses, cleanup retention, mapping, handlers.

use aoui::events::{EvObtainFocus, EvToggleChange, Handler, Handlers};
use aoui::fixed::FX_SCALE;
use aoui::signals::{
    channel, signal, signal_cleanup, KeyStorage, Object, Receiver, Rgba, Sender, Signal,
    SignalMapper, SignalPool,
};
use aoui::vec2::Vec2;

#[test]
fn type_mismatch_is_a_miss_not_an_error() {
    // Sending a string then polling as a number returns None.
    let mut pool = SignalPool::new();
    let (tx, rx) = channel(&mut pool);
    tx.send(&mut pool, Object::Str(String::from("hello")));
    let as_num: Option<i64> = rx.poll(&mut pool);
    assert_eq!(as_num, None);
    let as_str: Option<String> = rx.poll(&mut pool);
    assert_eq!(as_str, Some(String::from("hello")));
}

#[test]
fn last_writer_wins_within_a_frame() {
    let mut pool = SignalPool::new();
    let (tx, rx) = channel(&mut pool);
    tx.send(&mut pool, Object::Num(1 * FX_SCALE));
    tx.send(&mut pool, Object::Num(2 * FX_SCALE));
    assert_eq!(rx.poll::<i64>(&mut pool), Some(2 * FX_SCALE));
}

#[test]
fn read_signals_live_one_frame() {
    let mut pool = SignalPool::new();
    let (tx, rx): (Sender<()>, Receiver<()>) = signal(&mut pool);
    tx.send(&mut pool, Object::Bool(true));
    assert_eq!(rx.poll::<bool>(&mut pool), Some(true));
    signal_cleanup(&mut pool);
    assert_eq!(rx.poll::<bool>(&mut pool), None);
}

#[test]
fn unread_signals_live_two_frames() {
    let mut pool = SignalPool::new();
    let (tx, rx): (Sender<()>, Receiver<()>) = signal(&mut pool);
    tx.send(&mut pool, Object::Bool(true));
    signal_cleanup(&mut pool);
    // Still readable one frame later, tolerating system ordering.
    assert_eq!(rx.poll::<bool>(&mut pool), Some(true));
    signal_cleanup(&mut pool);
    assert_eq!(rx.poll::<bool>(&mut pool), None);
}

#[test]
fn channels_persist_across_cleanup() {
    let mut pool = SignalPool::new();
    let (tx, rx) = channel(&mut pool);
    tx.send(&mut pool, Object::Num(7));
    signal_cleanup(&mut pool);
    signal_cleanup(&mut pool);
    assert_eq!(rx.poll::<i64>(&mut pool), Some(7));
}

#[test]
fn receiver_map_transforms_at_read_time() {
    let mut pool = SignalPool::new();
    let (tx, rx) = channel(&mut pool);
    let mapped = rx.fork().map(SignalMapper::BoolToNum { on: 3 * FX_SCALE, off: 0 });
    tx.send(&mut pool, Object::Bool(true));
    // The same slot feeds differently typed consumers.
    assert_eq!(mapped.poll::<i64>(&mut pool), Some(3 * FX_SCALE));
    let plain: Receiver<()> = mapped.fork();
    assert_eq!(plain.poll::<bool>(&mut pool), Some(true));
}

#[test]
fn sender_map_transforms_on_send() {
    let mut pool = SignalPool::new();
    let (tx, rx) = channel(&mut pool);
    let tx = tx.map(SignalMapper::NumScale { factor: 2 * FX_SCALE, bias: FX_SCALE });
    tx.send(&mut pool, Object::Num(3 * FX_SCALE));
    assert_eq!(rx.poll::<i64>(&mut pool), Some(7 * FX_SCALE));
}

#[test]
fn signal_tuples_share_one_slot() {
    let mut pool = SignalPool::new();
    let (tx, rx1, rx2): (Sender<()>, Receiver<()>, Receiver<()>) = signal(&mut pool);
    tx.send(&mut pool, Object::Pos(Vec2::new(1, 2)));
    assert_eq!(rx1.poll::<Vec2>(&mut pool), Some(Vec2::new(1, 2)));
    assert_eq!(rx2.poll::<Vec2>(&mut pool), Some(Vec2::new(1, 2)));
}

#[test]
fn poll_any_sees_every_kind() {
    let mut pool = SignalPool::new();
    let (tx, rx) = channel(&mut pool);
    assert!(!rx.poll_any(&pool));
    tx.send(&mut pool, Object::Unit);
    assert!(rx.poll_any(&pool));
}

#[test]
fn signal_handle_clean_empties_slot() {
    let mut pool = SignalPool::new();
    let fresh = Signal::new(&mut pool);
    assert!(fresh.is_empty(&pool));
    let (tx, rx) = channel(&mut pool);
    let sig = Signal { slot: tx.signal.slot };
    tx.send(&mut pool, Object::Num(1));
    assert!(!sig.is_empty(&pool));
    sig.clean(&mut pool);
    assert!(sig.is_empty(&pool));
    assert_eq!(rx.poll::<i64>(&mut pool), None);
}

#[test]
fn key_storage_binds_and_replaces() {
    let mut keys = KeyStorage::new();
    assert_eq!(keys.get_dyn(&String::from("volume")), None);
    keys.set_dyn(String::from("volume"), Object::Num(5));
    keys.set_dyn(String::from("muted"), Object::Bool(false));
    keys.set_dyn(String::from("volume"), Object::Num(9));
    assert_eq!(keys.get_dyn(&String::from("volume")), Some(Object::Num(9)));
    assert_eq!(keys.get_dyn(&String::from("muted")), Some(Object::Bool(false)));
}

#[test]
fn handlers_fan_out_to_every_reaction() {
    let mut pool = SignalPool::new();
    let mut keys = KeyStorage::new();
    let mut systems: Vec<u64> = Vec::new();
    let (tx, rx) = channel(&mut pool);
    let handlers: Handlers<EvToggleChange> = Handlers::new(Handler::OneShotSystem(42))
        .with(Handler::Signal(tx))
        .with(Handler::GlobalKey(String::from("toggle"), SignalMapper::Identity));
    assert!(!handlers.is_empty());
    handlers.handle(&mut pool, &mut keys, &mut systems, Object::Bool(true));
    assert_eq!(systems, vec![42]);
    assert_eq!(rx.poll::<bool>(&mut pool), Some(true));
    assert_eq!(keys.get_dyn(&String::from("toggle")), Some(Object::Bool(true)));
}

#[test]
fn empty_handlers_do_nothing() {
    let mut pool = SignalPool::new();
    let mut keys = KeyStorage::new();
    let mut systems: Vec<u64> = Vec::new();
    let handlers: Handlers<EvToggleChange> = Handlers::new_empty();
    assert!(handlers.is_empty());
    handlers.handle_dyn(&mut pool, &mut keys, &mut systems, Object::Unit);
    assert!(systems.is_empty());
}

#[test]
fn focus_edge_fires_once() {
    let mut pool = SignalPool::new();
    let mut keys = KeyStorage::new();
    let mut systems: Vec<u64> = Vec::new();
    let mut handlers: Handlers<EvObtainFocus> = Handlers::new(Handler::OneShotSystem(7));
    handlers.focus_obtained(&mut pool, &mut keys, &mut systems);
    handlers.focus_obtained(&mut pool, &mut keys, &mut systems);
    assert_eq!(systems, vec![7]);
    handlers.focus_lost();
    handlers.focus_obtained(&mut pool, &mut keys, &mut systems);
    assert_eq!(systems, vec![7, 7]);
}

#[test]
fn colors_travel_through_signals() {
    let mut pool = SignalPool::new();
    let (tx, rx) = channel(&mut pool);
    let c = Rgba::new(FX_SCALE, 0, FX_SCALE / 2, FX_SCALE);
    tx.send(&mut pool, Object::Color(c));
    assert_eq!(rx.poll::<Rgba>(&mut pool), Some(c));
    assert_eq!(rx.poll::<i64>(&mut pool), None);
}
