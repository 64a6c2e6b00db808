//! The relay step: what is forwarded, and what is logged.
//!
//! The relay copies every fetched event, unmodified and in order, to the
//! synthetic device. Classification decides only which diagnostic line the
//! shell prints; it never alters forwarding. Synchronization markers are
//! relayed like every other event but get no diagnostic line.

use vstd::prelude::*;

use crate::event::EventClass;
use crate::event::InputEventRec;
use crate::event::MouseButton;
use crate::event::classify_spec;
use crate::event::decode_button_spec;
use crate::event::is_sync;

verus! {

/// What the relay emits for one fetched batch: the batch itself, verbatim.
/// The relay is a pure identity on the event stream.
pub open spec fn relay_output(batch: Seq<InputEventRec>) -> Seq<InputEventRec> {
    batch
}

/// The number of synchronization markers in a sequence of events.
pub open spec fn sync_count(s: Seq<InputEventRec>) -> nat
    decreases s.len(),
{
    if s.len() == 0 {
        0
    } else {
        (if is_sync(s[0]) {
            1nat
        } else {
            0nat
        }) + sync_count(s.drop_first())
    }
}

/// The diagnostic line the shell prints for a forwarded event: the fields
/// worth showing for its class. Observability only.
#[derive(Clone, Copy, PartialEq, Eq, Structural, Debug)]
pub enum Diagnostic {
    /// A button event: the symbolic button when the code is a known mouse
    /// button, the raw code either way, and the press value.
    Button(Option<MouseButton>, u16, i32),
    /// A relative-axis event: raw axis code and delta, since no symbolic
    /// mapping is guaranteed available.
    RelativeMotion(u16, i32),
    /// Any other event type: the raw fields.
    Generic(u16, u16, i32),
}

/// The diagnostic for an event, if any: synchronization markers are too
/// frequent to log, every other class gets one line.
pub open spec fn diagnostic_spec(ev: InputEventRec) -> Option<Diagnostic> {
    match classify_spec(ev) {
        EventClass::Button => Some(Diagnostic::Button(decode_button_spec(ev.code), ev.code, ev.value)),
        EventClass::RelativeMotion => Some(Diagnostic::RelativeMotion(ev.code, ev.value)),
        EventClass::Synchronization => None,
        EventClass::Other => Some(Diagnostic::Generic(ev.event_type, ev.code, ev.value)),
    }
}

/// Plans the forwarding of one event: which diagnostic the shell prints,
/// and the events to hand the synthetic device — exactly the incoming
/// event, never altered, dropped or duplicated.
pub fn forward_plan(ev: &InputEventRec) -> (r: (Option<Diagnostic>, Vec<InputEventRec>))
    ensures
        r.0 == diagnostic_spec(*ev),
        r.1@ == seq![*ev],
{
    let diagnostic: Option<Diagnostic> = match ev.classify() {
        EventClass::Button => Some(
            Diagnostic::Button(crate::event::decode_button(ev.code), ev.code, ev.value),
        ),
        EventClass::RelativeMotion => Some(Diagnostic::RelativeMotion(ev.code, ev.value)),
        EventClass::Synchronization => None,
        EventClass::Other => Some(Diagnostic::Generic(ev.event_type, ev.code, ev.value)),
    };
    let mut out: Vec<InputEventRec> = Vec::new();
    out.push(*ev);
    assert(out@ =~= seq![*ev]);
    (diagnostic, out)
}

/// Relays one fetched batch: returns the events to emit to the synthetic
/// device, which are the batch exactly — order-preserving and
/// content-preserving, with no duplication and no drops.
pub fn relay_batch(batch: &Vec<InputEventRec>) -> (out: Vec<InputEventRec>)
    ensures
        out@ == relay_output(batch@),
{
    let mut out: Vec<InputEventRec> = Vec::new();
    let mut i: usize = 0;
    while i < batch.len()
        invariant
            i <= batch.len(),
            out@ == batch@.take(i as int),
        decreases batch.len() - i,
    {
        let (_diagnostic, emitted) = forward_plan(&batch[i]);
        let mut j: usize = 0;
        while j < emitted.len()
            invariant
                j <= emitted.len(),
                emitted@ == seq![batch@[i as int]],
                i < batch.len(),
                out@ == batch@.take(i as int) + emitted@.take(j as int),
            decreases emitted.len() - j,
        {
            out.push(emitted[j]);
            assert(out@ =~= batch@.take(i as int) + emitted@.take(j + 1));
            j += 1;
        }
        assert(out@ =~= batch@.take(i + 1));
        i += 1;
    }
    assert(out@ =~= batch@);
    out
}

/// The relay identity law: for every sequence of input events fetched from
/// the physical device, the sequence the relay emits to the synthetic
/// device equals it exactly — order-preserving, content-preserving, no
/// duplication, no drops.
pub proof fn lemma_relay_identity(batch: Seq<InputEventRec>)
    ensures
        relay_output(batch) == batch,
{
}

/// Synchronization markers are never individually logged but are still
/// relayed: no marker gets a diagnostic, and the relay's output holds as
/// many markers as its input, so the count received from the source is at
/// most the count emitted even before the sink inserts markers of its own.
pub proof fn lemma_sync_relayed_not_logged(batch: Seq<InputEventRec>)
    ensures
        sync_count(batch) <= sync_count(relay_output(batch)),
        forall|i: int|
            0 <= i < batch.len() && is_sync(batch[i]) ==> #[trigger] diagnostic_spec(batch[i]) is None,
{
}

} // verus!
