//! The discovery service's stream adapter: turns the update sequence that a
//! protocol-specific discovery capability produces into the items of one
//! `Discover` response stream. Each accepted call gets its own producer and
//! its own channel, so calls never affect one another.

use vstd::prelude::*;

verus! {

/// A discovered device. Its contents are defined by the protocol plugin and
/// are opaque to this core, which only passes devices through.
pub struct Device {
    pub id: String,
}

/// A `Discover` call: an opaque, protocol-specific configuration blob that
/// only the plugin's own deserialization interprets.
pub struct DiscoverRequest {
    pub discovery_details: String,
}

/// One full snapshot of the currently discovered devices, not a delta.
pub struct DiscoverResponse {
    pub devices: Vec<Device>,
}

/// A call-scoped failure: it terminates the offending stream and never the
/// server.
pub enum DiscoveryFault {
    /// The discovery details failed the plugin's deserialization; surfaced
    /// to that caller as an invalid-argument status.
    DetailFormat { detail: String },
    /// The discovery capability reported an error mid-stream; surfaced as a
    /// status that terminates that call.
    Capability { detail: String },
}

/// One event from a discovery capability's update sequence.
pub enum CapabilityEvent {
    /// A new full snapshot of devices.
    Update { devices: Vec<Device> },
    /// The capability faulted.
    Fault { detail: String },
    /// The update sequence ended.
    End,
}

/// What the per-call producer task does with one capability event, given
/// whether the consumer still holds its end of the channel.
pub enum ProducerStep {
    /// Send the snapshot on the call's channel and continue.
    Send { response: DiscoverResponse },
    /// Send the fault and stop: the stream ends with an error status.
    SendFaultAndStop { fault: DiscoveryFault },
    /// Stop silently: the sequence ended, or the consumer went away —
    /// a closed channel is the only cancellation signal a producer observes.
    Stop,
}

/// Decides one step of the per-call producer task.
pub fn producer_step(event: CapabilityEvent, receiver_open: bool) -> (r: ProducerStep)
    ensures
        !receiver_open ==> r matches ProducerStep::Stop,
        receiver_open ==> (event matches CapabilityEvent::Update { devices } ==> (r matches
            ProducerStep::Send { response } && response.devices == devices)),
        receiver_open ==> (event matches CapabilityEvent::Fault { detail } ==> (r matches
            ProducerStep::SendFaultAndStop { fault } && fault matches DiscoveryFault::Capability {
                detail: forwarded,
            } && forwarded == detail)),
        receiver_open ==> (event matches CapabilityEvent::End ==> r matches ProducerStep::Stop),
{
    if !receiver_open {
        return ProducerStep::Stop;
    }
    match event {
        CapabilityEvent::Update { devices } => ProducerStep::Send {
            response: DiscoverResponse { devices },
        },
        CapabilityEvent::Fault { detail } => ProducerStep::SendFaultAndStop {
            fault: DiscoveryFault::Capability { detail },
        },
        CapabilityEvent::End => ProducerStep::Stop,
    }
}

/// The items one `Discover` stream carries for a given capability event
/// sequence: every snapshot in order, up to and including the first fault
/// (which ends the stream as an error) or the end of the sequence.
pub open spec fn stream_items_spec(events: Seq<CapabilityEvent>) -> Seq<
    Result<DiscoverResponse, DiscoveryFault>,
>
    decreases events.len(),
{
    if events.len() == 0 {
        Seq::empty()
    } else {
        match events[0] {
            CapabilityEvent::Update { devices } => seq![Ok(DiscoverResponse { devices })]
                + stream_items_spec(events.drop_first()),
            CapabilityEvent::Fault { detail } => seq![Err(DiscoveryFault::Capability { detail })],
            CapabilityEvent::End => Seq::empty(),
        }
    }
}

/// Adapts a capability's update sequence into the items of the response
/// stream: each snapshot is forwarded in the order it was produced; a fault
/// ends the stream with an error; the end of the sequence ends it silently.
pub fn pump_capability_events(events: Vec<CapabilityEvent>) -> (r: Vec<
    Result<DiscoverResponse, DiscoveryFault>,
>)
    ensures
        r@ == stream_items_spec(events@),
{
    let ghost all = events@;
    let mut rest = events;
    let mut out: Vec<Result<DiscoverResponse, DiscoveryFault>> = Vec::new();
    #[verifier::loop_isolation(false)]
    loop
        invariant
            stream_items_spec(all) == out@ + stream_items_spec(rest@),
        decreases rest@.len(),
    {
        if rest.len() == 0 {
            proof {
                assert(stream_items_spec(rest@) =~= Seq::<
                    Result<DiscoverResponse, DiscoveryFault>,
                >::empty());
                assert(out@ + stream_items_spec(rest@) =~= out@);
            }
            return out;
        }
        let ghost prev = rest@;
        let event = rest.remove(0);
        proof {
            assert(prev.remove(0) =~= prev.drop_first());
        }
        match event {
            CapabilityEvent::Update { devices } => {
                let item = Ok(DiscoverResponse { devices });
                proof {
                    assert(stream_items_spec(prev) == seq![item] + stream_items_spec(rest@));
                    assert(out@ + (seq![item] + stream_items_spec(rest@)) =~= out@.push(item)
                        + stream_items_spec(rest@));
                }
                out.push(item);
            },
            CapabilityEvent::Fault { detail } => {
                let item = Err(DiscoveryFault::Capability { detail });
                proof {
                    assert(stream_items_spec(prev) =~= seq![item]);
                    assert(out@ + seq![item] =~= out@.push(item));
                }
                out.push(item);
                return out;
            },
            CapabilityEvent::End => {
                proof {
                    assert(stream_items_spec(prev) =~= Seq::<
                        Result<DiscoverResponse, DiscoveryFault>,
                    >::empty());
                    assert(out@ + stream_items_spec(prev) =~= out@);
                }
                return out;
            },
        }
    }
}

} // verus!
