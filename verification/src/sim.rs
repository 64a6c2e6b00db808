//! Simulated devices, and the relay loop proved over them.
//!
//! The simulated physical device delivers a scripted sequence of batches
//! and then fails as an unplugged device would; the simulated synthetic
//! device records what is emitted to it and enforces its capability set.
//! `run_relay` drives the verified relay over the pair, and its contract
//! states the pipeline's central law: the sequence emitted to the sink is
//! exactly the sequence the source delivered.

use vstd::prelude::*;

use crate::capability::CapabilitySet;
use crate::controller::Controller;
use crate::controller::Outcome;
use crate::controller::Phase;
use crate::controller::step_spec;
use crate::error::RelayError;
use crate::event::InputEventRec;
use crate::identity::InputIdentity;
use crate::relay::relay_batch;

verus! {

/// The batches a scripted device still has to deliver, flattened into one
/// event sequence, starting at batch `from`.
pub open spec fn flatten_batches(batches: Seq<Seq<InputEventRec>>, from: int) -> Seq<InputEventRec>
    decreases batches.len() - from,
{
    if from < 0 || from >= batches.len() {
        Seq::empty()
    } else {
        batches[from] + flatten_batches(batches, from + 1)
    }
}

/// The event sequences behind a vector of batches.
pub open spec fn batches_view(batches: Seq<Vec<InputEventRec>>) -> Seq<Seq<InputEventRec>> {
    batches.map_values(|b: Vec<InputEventRec>| b@)
}

/// A stand-in for the physical mouse: delivers a scripted list of batches
/// in order, then fails every further fetch as a disconnected device
/// would. Exclusive capture is a single exclusive lock: only one holder.
pub struct SimulatedPhysicalDevice {
    /// The identity the device reports, for mirroring.
    pub identity: InputIdentity,
    /// The batches the device will deliver, in order.
    pub batches: Vec<Vec<InputEventRec>>,
    /// How many batches have been fetched already.
    pub fetched: usize,
    /// Whether a consumer holds the exclusive capture.
    pub grabbed: bool,
}

impl SimulatedPhysicalDevice {
    /// A fetch position never beyond the script.
    pub open spec fn wf(self) -> bool {
        self.fetched <= self.batches@.len()
    }

    /// The events the device has yet to deliver.
    pub open spec fn pending(self) -> Seq<InputEventRec> {
        flatten_batches(batches_view(self.batches@), self.fetched as int)
    }

    /// Builds a device with the given identity that will deliver
    /// `batches`, not yet grabbed.
    pub fn new(identity: InputIdentity, batches: Vec<Vec<InputEventRec>>) -> (d:
        SimulatedPhysicalDevice)
        ensures
            d.identity == identity,
            d.batches == batches,
            d.fetched == 0,
            !d.grabbed,
            d.wf(),
    {
        SimulatedPhysicalDevice { identity, batches, fetched: 0, grabbed: false }
    }

    /// The identity tuple, for mirroring onto the synthetic device.
    pub fn identity(&self) -> (id: InputIdentity)
        ensures
            id == self.identity,
    {
        self.identity
    }

    /// Requests exclusive capture. A device already grabbed stays exactly
    /// as it was and the caller gets `AlreadyGrabbed`; otherwise the
    /// caller becomes the exclusive holder.
    pub fn grab(&mut self) -> (r: Result<(), RelayError>)
        ensures
            old(self).grabbed ==> r == Err::<(), RelayError>(RelayError::AlreadyGrabbed)
                && *final(self) == *old(self),
            !old(self).grabbed ==> r == Ok::<(), RelayError>(())
                && *final(self) == (SimulatedPhysicalDevice { grabbed: true, ..*old(self) }),
    {
        if self.grabbed {
            Err(RelayError::AlreadyGrabbed)
        } else {
            self.grabbed = true;
            Ok(())
        }
    }

    /// Releases the exclusive capture, returning the device to normal
    /// operation for other consumers.
    pub fn ungrab(&mut self)
        ensures
            *final(self) == (SimulatedPhysicalDevice { grabbed: false, ..*old(self) }),
    {
        self.grabbed = false;
    }

    /// Fetches the next batch the script holds, in delivery order; once
    /// the script is exhausted the device behaves as unplugged and every
    /// fetch fails with `IoError`, leaving the device unchanged.
    pub fn fetch_events(&mut self) -> (r: Result<Vec<InputEventRec>, RelayError>)
        requires
            old(self).wf(),
        ensures
            final(self).wf(),
            old(self).fetched < old(self).batches@.len() ==> {
                &&& r is Ok
                &&& r->Ok_0@ == batches_view(old(self).batches@)[old(self).fetched as int]
                &&& final(self).fetched == old(self).fetched + 1
                &&& final(self).batches == old(self).batches
                &&& final(self).grabbed == old(self).grabbed
                &&& final(self).identity == old(self).identity
            },
            old(self).fetched >= old(self).batches@.len() ==> {
                &&& r == Err::<Vec<InputEventRec>, RelayError>(RelayError::IoError)
                &&& *final(self) == *old(self)
            },
    {
        if self.fetched < self.batches.len() {
            let batch = self.batches[self.fetched].clone();
            self.fetched = self.fetched + 1;
            proof {
                let scripted = old(self).batches@[old(self).fetched as int]@;
                assert forall|i: int| 0 <= i < batch@.len() implies batch@[i] == scripted[i] by {
                    assert(vstd::pervasive::cloned(scripted[i], batch@[i]));
                }
                assert(batch@ =~= scripted);
            }
            Ok(batch)
        } else {
            Err(RelayError::IoError)
        }
    }
}

/// A stand-in for the synthetic device node: records every event emitted
/// to it, and sorts each into accepted or rejected according to the
/// capability set it was built with. A rejected event is surfaced here
/// rather than silently lost, so a caller can warn about it.
pub struct SimulatedSyntheticDevice {
    /// The identity the device advertises, copied from the physical one.
    pub identity: InputIdentity,
    /// The capability set the device was built with; immutable afterwards.
    pub capabilities: CapabilitySet,
    /// Every event emitted to the device, in order.
    pub emitted: Vec<InputEventRec>,
    /// The emitted events the capability set admits, in order.
    pub accepted: Vec<InputEventRec>,
    /// The emitted events whose code was not declared, in order.
    pub rejected: Vec<InputEventRec>,
}

impl SimulatedSyntheticDevice {
    /// The predicate the capability set imposes on emitted events.
    pub open spec fn admits(self) -> spec_fn(InputEventRec) -> bool {
        |ev: InputEventRec| self.capabilities.accepts_spec(ev)
    }

    /// The sorting invariant: accepted and rejected are exactly the
    /// admitted and refused parts of the emitted stream, in order.
    /// Opaque so that callers carry it as a fact; `reveal` opens it where
    /// its content is needed.
    #[verifier::opaque]
    pub open spec fn wf(self) -> bool {
        &&& self.accepted@ == self.emitted@.filter(self.admits())
        &&& self.rejected@ == self.emitted@.filter(|ev: InputEventRec| !(self.admits())(ev))
    }

    /// Builds a synthetic device with the given capability set and
    /// identity, and an empty history.
    pub fn new(capabilities: CapabilitySet, identity: InputIdentity) -> (d:
        SimulatedSyntheticDevice)
        ensures
            d.capabilities == capabilities,
            d.identity == identity,
            d.emitted@ == Seq::<InputEventRec>::empty(),
            d.accepted@ == Seq::<InputEventRec>::empty(),
            d.rejected@ == Seq::<InputEventRec>::empty(),
            d.wf(),
    {
        let d = SimulatedSyntheticDevice {
            identity,
            capabilities,
            emitted: Vec::new(),
            accepted: Vec::new(),
            rejected: Vec::new(),
        };
        proof {
            reveal(SimulatedSyntheticDevice::wf);
            reveal(Seq::filter);
        }
        d
    }

    /// Emits one event to the device. The event always enters the emitted
    /// history; it lands in accepted exactly when its code is declared for
    /// its type, and in rejected otherwise — the boundary behaviour of a
    /// capability set missing a code the physical device emits.
    pub fn emit(&mut self, ev: &InputEventRec)
        requires
            old(self).wf(),
        ensures
            final(self).capabilities == old(self).capabilities,
            final(self).identity == old(self).identity,
            final(self).emitted@ == old(self).emitted@.push(*ev),
            old(self).capabilities.accepts_spec(*ev) ==> {
                &&& final(self).accepted@ == old(self).accepted@.push(*ev)
                &&& final(self).rejected@ == old(self).rejected@
            },
            !old(self).capabilities.accepts_spec(*ev) ==> {
                &&& final(self).accepted@ == old(self).accepted@
                &&& final(self).rejected@ == old(self).rejected@.push(*ev)
            },
            final(self).wf(),
    {
        self.emitted.push(*ev);
        let admitted = self.capabilities.accepts(ev);
        if admitted {
            self.accepted.push(*ev);
        } else {
            self.rejected.push(*ev);
        }
        proof {
            reveal(SimulatedSyntheticDevice::wf);
            reveal(Seq::filter);
            let s = old(self).emitted@;
            assert(s.push(*ev).drop_last() =~= s);
            assert(s.push(*ev).last() == *ev);
        }
    }
}

/// Runs the relay loop over the simulated pair: repeatedly fetches a batch
/// from the grabbed source and emits each event, verbatim and in order, to
/// the sink, until the source fails; the failure is fatal and returned.
/// The sequence emitted to the sink is exactly the sequence of events the
/// source delivered — no drop, no duplication, no reordering.
pub fn run_relay(
    source: &mut SimulatedPhysicalDevice,
    sink: &mut SimulatedSyntheticDevice,
) -> (r: RelayError)
    requires
        old(source).wf(),
        old(source).grabbed,
        old(sink).wf(),
    ensures
        r == RelayError::IoError,
        final(source).batches == old(source).batches,
        final(source).grabbed,
        final(source).pending() == Seq::<InputEventRec>::empty(),
        final(sink).capabilities == old(sink).capabilities,
        final(sink).identity == old(sink).identity,
        final(sink).emitted@ == old(sink).emitted@ + old(source).pending(),
        final(sink).wf(),
{
    loop
        invariant
            source.wf(),
            source.grabbed,
            sink.wf(),
            source.batches == old(source).batches,
            sink.capabilities == old(sink).capabilities,
            sink.identity == old(sink).identity,
            sink.emitted@ + source.pending() == old(sink).emitted@ + old(source).pending(),
        decreases source.batches@.len() - source.fetched,
    {
        let ghost pending_before = source.pending();
        let fetched = source.fetch_events();
        match fetched {
            Ok(batch) => {
                let ghost rest = source.pending();
                proof {
                    let bv = batches_view(source.batches@);
                    let idx = source.fetched as int - 1;
                    assert(0 <= idx < bv.len());
                    assert(batch@ == bv[idx]);
                    assert(rest == flatten_batches(bv, idx + 1));
                    assert(pending_before == flatten_batches(bv, idx));
                }
                assert(pending_before == batch@ + rest);
                let out = relay_batch(&batch);
                let mut i: usize = 0;
                while i < out.len()
                    invariant
                        i <= out.len(),
                        out@ == batch@,
                        sink.wf(),
                        sink.capabilities == old(sink).capabilities,
                        sink.identity == old(sink).identity,
                        sink.emitted@ + batch@.skip(i as int) + rest
                            == old(sink).emitted@ + old(source).pending(),
                    decreases out.len() - i,
                {
                    assert(batch@.skip(i as int) =~= seq![batch@[i as int]] + batch@.skip(i + 1));
                    sink.emit(&out[i]);
                    assert(sink.emitted@ + batch@.skip(i + 1) + rest
                        =~= old(sink).emitted@ + old(source).pending());
                    i += 1;
                }
                assert(sink.emitted@ + source.pending() =~= old(sink).emitted@
                    + old(source).pending());
            },
            Err(e) => {
                assert(source.pending() =~= Seq::<InputEventRec>::empty());
                assert(sink.emitted@ =~= sink.emitted@ + source.pending());
                return e;
            },
        }
    }
}

/// Filtering by a predicate that holds of every element keeps the whole
/// sequence.
proof fn lemma_filter_total(s: Seq<InputEventRec>, p: spec_fn(InputEventRec) -> bool)
    requires
        forall|i: int| 0 <= i < s.len() ==> p(#[trigger] s[i]),
    ensures
        s.filter(p) == s,
    decreases s.len(),
{
    reveal(Seq::filter);
    if s.len() > 0 {
        lemma_filter_total(s.drop_last(), p);
        assert(s.drop_last().push(s.last()) =~= s);
    }
}

/// Filtering by a predicate that holds of no element keeps nothing.
proof fn lemma_filter_none(s: Seq<InputEventRec>, p: spec_fn(InputEventRec) -> bool)
    requires
        forall|i: int| 0 <= i < s.len() ==> !p(#[trigger] s[i]),
    ensures
        s.filter(p) == Seq::<InputEventRec>::empty(),
    decreases s.len(),
{
    reveal(Seq::filter);
    if s.len() > 0 {
        lemma_filter_none(s.drop_last(), p);
    }
}

/// When the declared capability set covers every event emitted to the
/// sink, the sink is transparent: it accepts the emitted stream whole, in
/// order, and rejects nothing. Declaring a superset of what the physical
/// device can emit therefore loses no event at the synthetic device.
pub proof fn lemma_covered_stream_fully_accepted(sink: SimulatedSyntheticDevice)
    requires
        sink.wf(),
        forall|i: int|
            0 <= i < sink.emitted@.len() ==> sink.capabilities.accepts_spec(
                #[trigger] sink.emitted@[i],
            ),
    ensures
        sink.accepted@ == sink.emitted@,
        sink.rejected@ == Seq::<InputEventRec>::empty(),
{
    reveal(SimulatedSyntheticDevice::wf);
    assert forall|i: int| 0 <= i < sink.emitted@.len() implies (sink.admits())(
        #[trigger] sink.emitted@[i],
    ) by {}
    lemma_filter_total(sink.emitted@, sink.admits());
    lemma_filter_none(sink.emitted@, |ev: InputEventRec| !(sink.admits())(ev));
}

/// The whole pipeline on simulated devices, driven by the controller the
/// way the shell drives it on real ones: privilege check, open, grab,
/// build, settle, relay until the source fails, release the grab, exit.
/// Without privilege it fails before any device is touched; a contended
/// grab fails without disturbing the holder; otherwise every event the
/// source delivers reaches the sink verbatim and in order, and the grab
/// is released before the non-zero exit that the dead source forces.
pub fn run_pipeline(
    is_root: bool,
    source: &mut SimulatedPhysicalDevice,
    capabilities: CapabilitySet,
) -> (r: (i32, Option<SimulatedSyntheticDevice>))
    requires
        old(source).wf(),
    ensures
        r.0 == 1i32,
        !is_root ==> r.1 is None && *final(source) == *old(source),
        is_root && old(source).grabbed ==> r.1 is None && *final(source) == *old(source),
        is_root && !old(source).grabbed ==> {
            &&& (match r.1 {
                Some(sink) => {
                    &&& sink.capabilities == capabilities
                    &&& sink.identity == old(source).identity
                    &&& sink.emitted@ == old(source).pending()
                    &&& sink.wf()
                },
                None => false,
            })
            &&& !final(source).grabbed
            &&& final(source).pending() == Seq::<InputEventRec>::empty()
            &&& final(source).batches == old(source).batches
        },
{
    let mut ctl = Controller::initial();
    ctl.step(Outcome::PrivilegeIs(is_root));
    if ctl.is_terminated() {
        assert(!is_root && ctl.failure == Some(RelayError::PermissionDenied)) by {
            reveal(step_spec);
        }
        return (ctl.exit_code(), None);
    }
    assert(is_root && ctl == (Controller {
        phase: Phase::Opening,
        grab_held: false,
        synthetic_built: false,
        failure: None,
    })) by {
        reveal(step_spec);
    }
    ctl.step(Outcome::OpenFinished(Ok(())));
    assert(ctl == (Controller {
        phase: Phase::Grabbing,
        grab_held: false,
        synthetic_built: false,
        failure: None,
    })) by {
        reveal(step_spec);
    }
    let grabbed = source.grab();
    match grabbed {
        Ok(()) => {
            ctl.step(Outcome::GrabFinished(Ok(())));
            assert(ctl == (Controller {
                phase: Phase::Building,
                grab_held: true,
                synthetic_built: false,
                failure: None,
            })) by {
                reveal(step_spec);
            }
        },
        Err(e) => {
            assert(e == RelayError::AlreadyGrabbed);
            ctl.step(Outcome::GrabFinished(Err(e)));
            assert(ctl.phase == Phase::Terminated && ctl.failure is Some) by {
                reveal(step_spec);
            }
            return (ctl.exit_code(), None);
        },
    }
    let mirrored = source.identity();
    let mut sink = SimulatedSyntheticDevice::new(capabilities, mirrored);
    ctl.step(Outcome::BuildFinished(Ok(())));
    assert(ctl == (Controller {
        phase: Phase::Settling,
        grab_held: true,
        synthetic_built: true,
        failure: None,
    })) by {
        reveal(step_spec);
    }
    ctl.step(Outcome::SettleFinished);
    assert(ctl == (Controller {
        phase: Phase::Relaying,
        grab_held: true,
        synthetic_built: true,
        failure: None,
    })) by {
        reveal(step_spec);
    }
    let fatal = run_relay(source, &mut sink);
    ctl.step(Outcome::FetchFailed(fatal));
    assert(ctl == (Controller {
        phase: Phase::ReleasingGrab,
        grab_held: true,
        synthetic_built: true,
        failure: Some(RelayError::IoError),
    })) by {
        reveal(step_spec);
    }
    source.ungrab();
    ctl.step(Outcome::GrabReleased);
    assert(ctl.phase == Phase::Terminated && ctl.failure == Some(RelayError::IoError)) by {
        reveal(step_spec);
    }
    let code = ctl.exit_code();
    proof {
        assert(Seq::<InputEventRec>::empty() + old(source).pending() =~= old(source).pending());
    }
    (code, Some(sink))
}

} // verus!
