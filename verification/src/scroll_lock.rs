//! Keeping the session awake: a double tap of Scroll Lock every interval.
//!
//! A tap is a key-down and a key-up of Scroll Lock, as a physical keyboard
//! would send them. Two taps in a row leave the Scroll Lock indicator as it
//! was, while still resetting the system's idle timer.

use vstd::prelude::*;

verus! {

/// The interval actually waited: the set interval, but at least one second.
pub open spec fn effective_interval(interval_secs: u64) -> u64 {
    if interval_secs < 1 {
        1
    } else {
        interval_secs
    }
}

/// The seconds to wait between two rounds, for the set interval.
pub fn effective_interval_secs(interval_secs: u64) -> (res: u64)
    ensures
        res == effective_interval(interval_secs),
{
    if interval_secs < 1 {
        1
    } else {
        interval_secs
    }
}

/// Each round waits exactly the set interval, except that a zero interval
/// waits one second: no interval is raised or shortened otherwise.
pub proof fn lemma_round_waits_set_interval(interval_secs: u64)
    ensures
        interval_secs >= 1 ==> effective_interval(interval_secs) == interval_secs,
        interval_secs == 0 ==> effective_interval(interval_secs) == 1,
        effective_interval(interval_secs) >= 1,
{
}

/// Virtual-key code of the Scroll Lock key.
pub const VK_SCROLL: u16 = 0x91;

/// Flag that marks a keyboard event as the release of the key.
pub const KEYEVENTF_KEYUP: u32 = 0x0002;

/// Pause between the two taps of a round, in milliseconds.
pub const TAP_GAP_MILLIS: u64 = 100;

/// One synthetic keyboard event: which key, and its event flags.
#[derive(Clone, Copy, Debug, PartialEq, Eq, Structural)]
pub struct KeyboardInput {
    pub virtual_key: u16,
    pub flags: u32,
}

/// Pressing the key `vk`.
pub open spec fn key_down(vk: u16) -> KeyboardInput {
    KeyboardInput { virtual_key: vk, flags: 0 }
}

/// Releasing the key `vk`.
pub open spec fn key_up(vk: u16) -> KeyboardInput {
    KeyboardInput { virtual_key: vk, flags: KEYEVENTF_KEYUP }
}

/// The events of one tap of Scroll Lock: press, then release.
pub open spec fn tap_events() -> Seq<KeyboardInput> {
    seq![key_down(VK_SCROLL), key_up(VK_SCROLL)]
}

/// The event presses Scroll Lock.
pub open spec fn presses_scroll_lock(e: KeyboardInput) -> bool {
    e.virtual_key == VK_SCROLL && e.flags & KEYEVENTF_KEYUP == 0
}

/// The event releases Scroll Lock.
pub open spec fn releases_scroll_lock(e: KeyboardInput) -> bool {
    e.virtual_key == VK_SCROLL && e.flags & KEYEVENTF_KEYUP != 0
}

/// The Scroll Lock indicator after `events`, starting from `on`: each press
/// of Scroll Lock toggles it.
pub open spec fn indicator_after(on: bool, events: Seq<KeyboardInput>) -> bool
    decreases events.len(),
{
    if events.len() == 0 {
        on
    } else if presses_scroll_lock(events.last()) {
        !indicator_after(on, events.drop_last())
    } else {
        indicator_after(on, events.drop_last())
    }
}

/// Scroll Lock is held down after `events`, starting from `held`.
pub open spec fn held_after(held: bool, events: Seq<KeyboardInput>) -> bool
    decreases events.len(),
{
    if events.len() == 0 {
        held
    } else if presses_scroll_lock(events.last()) {
        true
    } else if releases_scroll_lock(events.last()) {
        false
    } else {
        held_after(held, events.drop_last())
    }
}

proof fn lemma_tap_event_kinds()
    ensures
        presses_scroll_lock(key_down(VK_SCROLL)),
        !releases_scroll_lock(key_down(VK_SCROLL)),
        releases_scroll_lock(key_up(VK_SCROLL)),
        !presses_scroll_lock(key_up(VK_SCROLL)),
{
    assert(0u32 & 2u32 == 0u32) by (bit_vector);
    assert(2u32 & 2u32 != 0u32) by (bit_vector);
}

proof fn lemma_indicator_concat(on: bool, a: Seq<KeyboardInput>, b: Seq<KeyboardInput>)
    ensures
        indicator_after(on, a + b) == indicator_after(indicator_after(on, a), b),
    decreases b.len(),
{
    if b.len() == 0 {
        assert(a + b =~= a);
    } else {
        lemma_indicator_concat(on, a, b.drop_last());
        assert((a + b).drop_last() =~= a + b.drop_last());
    }
}

proof fn lemma_held_concat(held: bool, a: Seq<KeyboardInput>, b: Seq<KeyboardInput>)
    ensures
        held_after(held, a + b) == held_after(held_after(held, a), b),
    decreases b.len(),
{
    if b.len() == 0 {
        assert(a + b =~= a);
    } else {
        lemma_held_concat(held, a, b.drop_last());
        assert((a + b).drop_last() =~= a + b.drop_last());
    }
}

/// One tap toggles the Scroll Lock indicator and leaves the key released.
pub proof fn lemma_tap_toggles(on: bool, held: bool)
    ensures
        indicator_after(on, tap_events()) == !on,
        !held_after(held, tap_events()),
{
    lemma_tap_event_kinds();
    let t = tap_events();
    assert(t.drop_last() =~= seq![key_down(VK_SCROLL)]);
    assert(t.drop_last().drop_last() =~= Seq::<KeyboardInput>::empty());
    assert(indicator_after(on, t.drop_last().drop_last()) == on);
    assert(indicator_after(on, t.drop_last()) == !on);
    assert(held_after(held, t.drop_last()));
}

/// A double tap leaves the Scroll Lock indicator as it found it, and the key
/// released: the round changes nothing the user can see.
pub proof fn lemma_double_tap_keeps_indicator(steps: Seq<KeeperStep>, on: bool, held: bool)
    requires
        is_double_tap(steps),
    ensures
        steps_events(steps) == tap_events() + tap_events(),
        indicator_after(on, steps_events(steps)) == on,
        !held_after(held, steps_events(steps)),
{
    let t = tap_events();
    let s1 = steps.drop_last().drop_last();
    assert(s1.drop_last() =~= Seq::<KeeperStep>::empty());
    assert(s1.last() == steps[0]);
    assert(steps_events(s1.drop_last()) =~= Seq::<KeyboardInput>::empty());
    assert(steps_events(s1) =~= t);
    assert(steps_events(steps.drop_last()) =~= t);
    assert(steps_events(steps) =~= t + t);
    lemma_tap_toggles(on, held);
    lemma_tap_toggles(!on, held_after(held, t));
    lemma_indicator_concat(on, t, t);
    lemma_held_concat(held, t, t);
}

/// The events of one key-down and key-up cycle of Scroll Lock. A single tap
/// toggles whatever the indicator currently shows.
pub fn tap_scroll_lock() -> (res: Vec<KeyboardInput>)
    ensures
        res@ == tap_events(),
{
    let down = KeyboardInput { virtual_key: VK_SCROLL, flags: 0 };
    let up = KeyboardInput { virtual_key: VK_SCROLL, flags: KEYEVENTF_KEYUP };
    let mut res: Vec<KeyboardInput> = Vec::new();
    res.push(down);
    res.push(up);
    assert(res@ =~= tap_events());
    res
}

/// One step of a keep-awake round.
#[derive(Debug)]
pub enum KeeperStep {
    /// Wait this many seconds.
    WaitSecs(u64),
    /// Wait this many milliseconds.
    WaitMillis(u64),
    /// Inject these keyboard events, in order.
    Send(Vec<KeyboardInput>),
}

/// The keyboard events that the steps inject, in order.
pub open spec fn steps_events(steps: Seq<KeeperStep>) -> Seq<KeyboardInput>
    decreases steps.len(),
{
    if steps.len() == 0 {
        Seq::empty()
    } else {
        let rest = steps_events(steps.drop_last());
        match steps.last() {
            KeeperStep::Send(v) => rest + v@,
            _ => rest,
        }
    }
}

/// Two taps of Scroll Lock with a short pause between them.
pub open spec fn is_double_tap(steps: Seq<KeeperStep>) -> bool {
    &&& steps.len() == 3
    &&& steps[0] matches KeeperStep::Send(v) && v@ == tap_events()
    &&& steps[1] == KeeperStep::WaitMillis(TAP_GAP_MILLIS)
    &&& steps[2] matches KeeperStep::Send(v) && v@ == tap_events()
}

/// Taps Scroll Lock twice in a row: net zero change to the indicator,
/// which is still enough to reset the system's idle timer.
pub fn double_tap_scroll_lock() -> (res: Vec<KeeperStep>)
    ensures
        is_double_tap(res@),
{
    let mut res: Vec<KeeperStep> = Vec::new();
    res.push(KeeperStep::Send(tap_scroll_lock()));
    res.push(KeeperStep::WaitMillis(TAP_GAP_MILLIS));
    res.push(KeeperStep::Send(tap_scroll_lock()));
    res
}

/// One round of the keep-awake loop for the set interval: wait the interval
/// (at least a second), then tap twice. A changed interval takes effect at
/// the next round.
pub fn keeper_round(interval_secs: u64) -> (res: Vec<KeeperStep>)
    ensures
        res@.len() == 4,
        res@[0] == KeeperStep::WaitSecs(effective_interval(interval_secs)),
        is_double_tap(res@.skip(1)),
{
    let mut res: Vec<KeeperStep> = Vec::new();
    res.push(KeeperStep::WaitSecs(effective_interval_secs(interval_secs)));
    let mut taps = double_tap_scroll_lock();
    let ghost t = taps@;
    res.append(&mut taps);
    assert(res@.skip(1) =~= t);
    res
}

} // verus!
