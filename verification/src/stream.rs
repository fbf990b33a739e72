//! The bridge between the update subscription of a task and one browser
//! connection.
//!
//! The bridge hands every update on as it came and in the order it came. It
//! lets go of the subscription as soon as the browser is gone, the
//! subscription ends, or the subscription fails, and never asks it for
//! anything again.
//!
//! The caller waits for the next thing to happen, reports it as a
//! [`StreamSignal`] and does what [`StreamBridge::relay`] answers.

use vstd::prelude::*;

verus! {

/// What happened on either side of the bridge. `T` is the type of an update,
/// of which the bridge knows nothing.
#[derive(Debug, PartialEq, Eq)]
pub enum StreamSignal<T> {
    /// The subscription delivered an update.
    Update(T),
    /// The subscription came to its end.
    UpstreamEnded,
    /// The subscription failed.
    UpstreamFailed,
    /// The browser closed the connection.
    ClientClosed,
}

/// What the caller of the bridge has to do.
#[derive(Debug, PartialEq, Eq)]
pub enum BridgeStep<T> {
    /// Send the update to the browser, then wait for the next signal.
    Forward(T),
    /// Drop the subscription and end the stream.
    Release,
}

/// How a bridge goes on after a signal: whether it is open then, and what it
/// asks for. Only an open bridge forwards, and only an update keeps it open.
pub open spec fn step<T>(open: bool, signal: StreamSignal<T>) -> (bool, BridgeStep<T>) {
    match signal {
        StreamSignal::Update(update) => if open {
            (true, BridgeStep::Forward(update))
        } else {
            (false, BridgeStep::Release)
        },
        _ => (false, BridgeStep::Release),
    }
}

/// The bridge of one connection. It starts open and, once closed, stays
/// closed.
#[derive(Debug, PartialEq, Eq)]
pub struct StreamBridge {
    open: bool,
}

impl View for StreamBridge {
    type V = bool;

    /// Whether the bridge is open.
    closed spec fn view(&self) -> bool {
        self.open
    }
}

impl StreamBridge {
    /// The bridge of a connection that was just made.
    pub fn new() -> (bridge: StreamBridge)
        ensures
            bridge@,
    {
        StreamBridge { open: true }
    }

    /// Whether the bridge still holds its subscription. The caller asks the
    /// subscription for the next update only while this is so.
    pub fn is_open(&self) -> (open: bool)
        ensures
            open == self@,
    {
        self.open
    }

    /// Takes a signal and says what to do about it.
    pub fn relay<T>(&mut self, signal: StreamSignal<T>) -> (next: BridgeStep<T>)
        ensures
            final(self)@ == step(old(self)@, signal).0,
            next == step(old(self)@, signal).1,
    {
        match signal {
            StreamSignal::Update(update) => {
                if self.open {
                    BridgeStep::Forward(update)
                } else {
                    BridgeStep::Release
                }
            },
            _ => {
                self.open = false;
                BridgeStep::Release
            },
        }
    }
}

/// The updates that a bridge forwards when `signals` reach it one after the
/// other, in the order in which it forwards them.
pub open spec fn forwarded<T>(open: bool, signals: Seq<StreamSignal<T>>) -> Seq<T>
    decreases signals.len(),
{
    if signals.len() == 0 {
        Seq::empty()
    } else {
        let (still_open, next) = step(open, signals[0]);
        let later = forwarded(still_open, signals.drop_first());
        match next {
            BridgeStep::Forward(update) => seq![update] + later,
            BridgeStep::Release => later,
        }
    }
}

/// Whether a bridge is open after `signals` reached it.
pub open spec fn open_after<T>(open: bool, signals: Seq<StreamSignal<T>>) -> bool
    decreases signals.len(),
{
    if signals.len() == 0 {
        open
    } else {
        open_after(step(open, signals[0]).0, signals.drop_first())
    }
}

/// How many of `signals` a bridge asks for. The caller asks for the next
/// signal only while the bridge is open, so a closed bridge asks for none.
pub open spec fn asked<T>(open: bool, signals: Seq<StreamSignal<T>>) -> nat
    decreases signals.len(),
{
    if !open || signals.len() == 0 {
        0
    } else {
        1 + asked(step(open, signals[0]).0, signals.drop_first())
    }
}

/// Any signal but an update closes the bridge and releases the subscription.
pub proof fn lemma_ending_signal_releases<T>(open: bool, signal: StreamSignal<T>)
    requires
        !(signal is Update),
    ensures
        step(open, signal) == (false, BridgeStep::<T>::Release),
{
}

/// An open bridge hands an update on as it is and stays open.
pub proof fn lemma_update_is_forwarded_unchanged<T>(update: T)
    ensures
        step(true, StreamSignal::Update(update)) == (true, BridgeStep::Forward(update)),
{
}

/// A closed bridge is released for good: whatever reaches it later, it
/// forwards nothing, asks for nothing but the release, and stays closed.
pub proof fn lemma_closed_stays_released<T>(signals: Seq<StreamSignal<T>>)
    ensures
        forwarded(false, signals) == Seq::<T>::empty(),
        !open_after(false, signals),
        forall|i: int|
            0 <= i < signals.len() ==> step(false, #[trigger] signals[i]).1 == BridgeStep::<
                T,
            >::Release,
    decreases signals.len(),
{
    if signals.len() > 0 {
        lemma_closed_stays_released(signals.drop_first());
    }
}

/// After the browser has closed the connection nothing more is forwarded,
/// whatever the subscription still delivers.
pub proof fn lemma_nothing_after_client_closed<T>(
    before: Seq<StreamSignal<T>>,
    after: Seq<StreamSignal<T>>,
)
    ensures
        forwarded(true, before + seq![StreamSignal::ClientClosed] + after) == forwarded(
            true,
            before,
        ),
        !open_after(true, before + seq![StreamSignal::ClientClosed] + after),
{
    lemma_nothing_after_close(true, before, StreamSignal::ClientClosed, after);
}

/// After a signal that closes the bridge nothing more is forwarded.
pub proof fn lemma_nothing_after_close<T>(
    open: bool,
    before: Seq<StreamSignal<T>>,
    ending: StreamSignal<T>,
    after: Seq<StreamSignal<T>>,
)
    requires
        !(ending is Update),
    ensures
        forwarded(open, before + seq![ending] + after) == forwarded(open, before),
        !open_after(open, before + seq![ending] + after),
    decreases before.len(),
{
    let all = before + seq![ending] + after;
    if before.len() == 0 {
        assert(all[0] == ending);
        assert(all.drop_first() =~= after);
        lemma_closed_stays_released(after);
    } else {
        assert(all[0] == before[0]);
        assert(all.drop_first() =~= before.drop_first() + seq![ending] + after);
        lemma_nothing_after_close(step(open, before[0]).0, before.drop_first(), ending, after);
    }
}

/// Once a signal has closed the bridge, the subscription is asked for
/// nothing more: of all that could still come, not one signal is taken.
pub proof fn lemma_nothing_asked_after_close<T>(
    open: bool,
    before: Seq<StreamSignal<T>>,
    ending: StreamSignal<T>,
    after: Seq<StreamSignal<T>>,
)
    requires
        !(ending is Update),
    ensures
        asked(open, before + seq![ending] + after) == asked(open, before + seq![ending]),
        asked(open, before + seq![ending] + after) <= before.len() + 1,
    decreases before.len(),
{
    let short = before + seq![ending];
    let all = short + after;
    if open {
        if before.len() == 0 {
            assert(all[0] == ending);
            assert(short[0] == ending);
            assert(asked(false, all.drop_first()) == 0);
            assert(asked(false, short.drop_first()) == 0);
        } else {
            let still_open = step(open, before[0]).0;
            assert(all[0] == before[0]);
            assert(short[0] == before[0]);
            assert(all.drop_first() =~= before.drop_first() + seq![ending] + after);
            assert(short.drop_first() =~= before.drop_first() + seq![ending]);
            lemma_nothing_asked_after_close(still_open, before.drop_first(), ending, after);
            assert(asked(open, all) == 1 + asked(still_open, all.drop_first()));
            assert(asked(open, short) == 1 + asked(still_open, short.drop_first()));
        }
    }
}

/// The bridge is a pure relay. What it forwards is the run of updates at the
/// head of the signals, each update as it came and in the order it came:
/// nothing is left out, repeated, reordered or changed, and the first signal
/// that is not an update ends the forwarding.
pub proof fn lemma_relay_is_faithful<T>(signals: Seq<StreamSignal<T>>)
    ensures
        forwarded(true, signals).len() <= signals.len(),
        forall|i: int|
            0 <= i < forwarded(true, signals).len() ==> #[trigger] signals[i]
                == StreamSignal::Update(forwarded(true, signals)[i]),
        forwarded(true, signals).len() < signals.len() ==> !(signals[forwarded(
            true,
            signals,
        ).len() as int] is Update),
        open_after(true, signals) <==> forwarded(true, signals).len() == signals.len(),
    decreases signals.len(),
{
    if signals.len() > 0 {
        let rest = signals.drop_first();
        match signals[0] {
            StreamSignal::Update(update) => {
                lemma_relay_is_faithful(rest);
                let sent = forwarded(true, signals);
                assert(sent =~= seq![update] + forwarded(true, rest));
                assert forall|i: int| 0 <= i < sent.len() implies #[trigger] signals[i]
                    == StreamSignal::Update(sent[i]) by {
                    if i > 0 {
                        assert(rest[i - 1] == signals[i]);
                    }
                }
                if sent.len() < signals.len() {
                    assert(rest[sent.len() - 1] == signals[sent.len() as int]);
                }
            },
            _ => {
                lemma_closed_stays_released(rest);
            },
        }
    }
}

} // verus!
