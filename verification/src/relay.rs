use vstd::prelude::*;

use crate::preferences::PreferenceSnapshot;

verus! {

#[verifier::external_type_specification]
#[verifier::external_body]
#[verifier::reject_recursive_types(T)]
pub struct ExCrossbeamSender<T>(crossbeam_channel::Sender<T>);

#[verifier::external_type_specification]
#[verifier::external_body]
#[verifier::reject_recursive_types(T)]
pub struct ExCrossbeamReceiver<T>(crossbeam_channel::Receiver<T>);

/// The sending half of the handoff channel, held by the background relay.
pub struct PreferenceSender {
    inner: crossbeam_channel::Sender<PreferenceSnapshot>,
}

/// The receiving half of the handoff channel, drained once per tick by the
/// poll step.
pub struct PreferenceReceiver {
    inner: crossbeam_channel::Receiver<PreferenceSnapshot>,
}

/// The error of a poll whose channel reports permanent closure: the background
/// relay has stopped for good and the snapshot would never update again.
#[derive(Debug, Clone, Copy, PartialEq, Eq, Structural)]
pub struct ChannelClosed;

/// One non-blocking probe of the handoff channel.
enum ChannelProbe {
    Item(PreferenceSnapshot),
    Empty,
    Closed,
}

/// Relies on crossbeam_channel::unbounded: creates a connected channel pair of
/// unlimited capacity whose messages arrive in send order.
#[verifier::external_body]
fn unbounded_snapshot_channel() -> (pair: (
    crossbeam_channel::Sender<PreferenceSnapshot>,
    crossbeam_channel::Receiver<PreferenceSnapshot>,
))
{
    crossbeam_channel::unbounded()
}

/// Relies on crossbeam_channel::Sender::send: on a channel of unlimited
/// capacity it never blocks, and it fails exactly when the receiving half has
/// been dropped.
#[verifier::external_body]
fn send_snapshot(
    sender: &crossbeam_channel::Sender<PreferenceSnapshot>,
    snapshot: PreferenceSnapshot,
) -> (delivered: bool)
{
    sender.send(snapshot).is_ok()
}

/// Relies on crossbeam_channel::Receiver::try_recv: never blocks; returns the
/// oldest queued message, or reports an empty channel, or reports
/// disconnection once the channel is empty and every sender has been dropped.
#[verifier::external_body]
fn try_recv_snapshot(receiver: &crossbeam_channel::Receiver<PreferenceSnapshot>) -> (r: ChannelProbe)
{
    match receiver.try_recv() {
        Ok(snapshot) => ChannelProbe::Item(snapshot),
        Err(crossbeam_channel::TryRecvError::Empty) => ChannelProbe::Empty,
        Err(crossbeam_channel::TryRecvError::Disconnected) => ChannelProbe::Closed,
    }
}

/// Creates the handoff channel that connects the background relay to the
/// per-tick poll step.
pub fn preference_channel() -> (pair: (PreferenceSender, PreferenceReceiver)) {
    let (sender, receiver) = unbounded_snapshot_channel();
    (PreferenceSender { inner: sender }, PreferenceReceiver { inner: receiver })
}

/// One step of the background relay: converts a raw platform snapshot and
/// hands the result to the channel without blocking. Returns whether the
/// receiving half still exists; on `false` the relay is expected to stop,
/// which is its normal shutdown path.
pub fn relay_preferences(sender: &PreferenceSender, raw: mundy::Preferences) -> (delivered: bool) {
    send_snapshot(&sender.inner, PreferenceSnapshot::from_raw(raw))
}

/// The snapshot published by a tick that drained `items` from the channel
/// while holding `current`: the last item drained wins, and a tick that
/// drained nothing keeps `current`.
pub open spec fn last_write(
    current: PreferenceSnapshot,
    items: Seq<PreferenceSnapshot>,
) -> PreferenceSnapshot {
    if items.len() == 0 {
        current
    } else {
        items.last()
    }
}

/// Picks the snapshot a tick publishes from the items it drained.
pub fn publish_latest(current: PreferenceSnapshot, items: &Vec<PreferenceSnapshot>) -> (r:
    PreferenceSnapshot)
    ensures
        r == last_write(current, items@),
{
    if items.len() == 0 {
        current
    } else {
        items[items.len() - 1]
    }
}

/// The whole per-tick decision, as a function of what the tick observed: from
/// the snapshot held before the tick, the items drained this tick and whether
/// the channel reported permanent closure, it yields the snapshot to publish
/// and the tick's result — the drained count on success, and the closure
/// error exactly when the channel reported closure.
pub fn apply_tick(
    current: PreferenceSnapshot,
    items: &Vec<PreferenceSnapshot>,
    closed: bool,
) -> (out: (PreferenceSnapshot, Result<usize, ChannelClosed>))
    ensures
        out.0 == last_write(current, items@),
        out.1 is Err <==> closed,
        out.1 matches Ok(drained) ==> drained == items@.len(),
{
    let next = publish_latest(current, items);
    if closed {
        (next, Err(ChannelClosed))
    } else {
        (next, Ok(items.len()))
    }
}

/// The most probes a single tick makes of the channel. The bound keeps every
/// tick's work finite even while the relay keeps sending; anything queued
/// beyond it is drained on the following ticks.
pub const MAX_PROBES_PER_TICK: usize = 65536;

/// Drains the channel without blocking until it reports that nothing is
/// queued (or the probe bound is spent), keeping the items in arrival order,
/// and notes whether the channel reported permanent closure.
fn drain_pending(receiver: &PreferenceReceiver) -> (out: (Vec<PreferenceSnapshot>, bool)) {
    let mut items: Vec<PreferenceSnapshot> = Vec::new();
    let mut closed = false;
    let mut probes_left: usize = MAX_PROBES_PER_TICK;
    while probes_left > 0
        decreases probes_left,
    {
        probes_left = probes_left - 1;
        match try_recv_snapshot(&receiver.inner) {
            ChannelProbe::Item(snapshot) => items.push(snapshot),
            ChannelProbe::Empty => { break; },
            ChannelProbe::Closed => {
                closed = true;
                break;
            },
        }
    }
    (items, closed)
}

/// The per-tick poll step. Drains the channel without blocking and applies
/// the tick decision of [`apply_tick`]: the shared snapshot is replaced, as
/// one whole-value write, with the last item drained, and a tick that drained
/// nothing leaves it untouched. Returns how many items were drained, or
/// `ChannelClosed` once the channel reports permanent closure (after
/// publishing whatever was still queued).
pub fn poll_system_preferences(
    receiver: &PreferenceReceiver,
    preferences: &mut PreferenceSnapshot,
) -> (r: Result<usize, ChannelClosed>)
    ensures
        r matches Ok(drained) && drained == 0 ==> *final(preferences) == *old(preferences),
{
    let (items, closed) = drain_pending(receiver);
    let (next, result) = apply_tick(*preferences, &items, closed);
    *preferences = next;
    result
}

/// Law: when at least one snapshot arrived in a tick, the published snapshot
/// is the last one drained; every earlier one is discarded unapplied.
pub proof fn lemma_last_write_wins(current: PreferenceSnapshot, items: Seq<PreferenceSnapshot>)
    requires
        items.len() > 0,
    ensures
        last_write(current, items) == items.last(),
{
}

/// Law: a tick that drained nothing publishes nothing — the snapshot it leaves
/// behind equals the one it started with.
pub proof fn lemma_no_update_without_data(current: PreferenceSnapshot)
    ensures
        last_write(current, Seq::empty()) == current,
{
}

/// Law: snapshots polled on separate ticks are applied in emission order: a
/// tick that drains only `first` publishes `first`, and the following tick,
/// which drains only `second`, publishes `second` — an earlier emission never
/// overwrites a later one.
pub proof fn lemma_order_preserved_across_ticks(
    start: PreferenceSnapshot,
    first: PreferenceSnapshot,
    second: PreferenceSnapshot,
)
    ensures
        last_write(start, seq![first]) == first,
        last_write(last_write(start, seq![first]), seq![second]) == second,
{
}

} // verus!
