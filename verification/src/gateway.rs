//! The gateway: what other processes may ask of the bus, the device
//! registry and the goal.

use vstd::prelude::*;
use vstd::string::StrSliceExecFns;
use vstd::utf8::encode_utf8;
use crate::bus::{Bus, BusView, Recv, RecvView, Subscription, publish_spec, recv_spec};
use crate::envelope::{Envelope, EnvelopeView, text_eq, ANNOUNCE_TOPIC, GOAL_TOPIC};
use crate::registry::{DeviceDescriptor, DeviceDescriptorView, DeviceRegistry, filed_by_id};

verus! {

/// The gateway's own state: the registry and the current goal.
pub struct Gateway {
    registry: DeviceRegistry,
    goal: Option<String>,
}

/// The mathematical value of a gateway.
pub struct GatewayView {
    /// The descriptor on file for each device id.
    pub devices: Map<Seq<char>, DeviceDescriptorView>,
    /// The goal set last, if one was ever set.
    pub goal: Option<Seq<char>>,
}

impl View for Gateway {
    type V = GatewayView;

    closed spec fn view(&self) -> GatewayView {
        GatewayView {
            devices: self.registry@,
            goal: match self.goal {
                Some(text) => Some(text@),
                None => None,
            },
        }
    }
}

/// The envelope that a publish request puts on the bus.
pub open spec fn request_envelope(topic: Seq<char>, data: Seq<u8>) -> EnvelopeView {
    EnvelopeView { topic, data }
}

/// What a publish request does to the gateway: a descriptor that came on
/// the announcement topic is filed under its id, and nothing else changes.
pub open spec fn publish_request_spec(
    g: GatewayView,
    topic: Seq<char>,
    announced: Option<DeviceDescriptorView>,
) -> GatewayView {
    if topic == ANNOUNCE_TOPIC@ && announced is Some {
        GatewayView { devices: g.devices.insert(announced->0.id, announced->0), goal: g.goal }
    } else {
        g
    }
}

/// The envelope by which a new goal is made known on the bus.
pub open spec fn goal_envelope(text: Seq<char>) -> EnvelopeView {
    EnvelopeView { topic: GOAL_TOPIC@, data: encode_utf8(text) }
}

/// What setting a goal does to the gateway: the goal is replaced as a whole.
pub open spec fn set_goal_spec(g: GatewayView, text: Seq<char>) -> GatewayView {
    GatewayView { devices: g.devices, goal: Some(text) }
}

/// What asking for the goal gives: the goal set last, or the empty text if
/// none was ever set.
pub open spec fn get_goal_spec(g: GatewayView) -> Seq<char> {
    match g.goal {
        Some(text) => text,
        None => Seq::empty(),
    }
}

/// What a subscriber's stream gives next, and where its cursor stands
/// afterwards. A gap is passed over in silence: the stream goes on with the
/// oldest envelope that is still retained.
pub open spec fn stream_spec(b: BusView, cursor: nat) -> (Option<EnvelopeView>, nat) {
    let at = if cursor < b.head { b.head } else { cursor };
    if at < b.log.len() {
        (Some(b.log[at as int]), at + 1)
    } else {
        (None, at)
    }
}

impl Gateway {
    /// The invariant of a gateway.
    pub open spec fn wf(&self) -> bool {
        filed_by_id(self@.devices)
    }

    /// A gateway that knows no device and has no goal.
    pub fn new() -> (g: Gateway)
        ensures
            g.wf(),
            g@.devices == Map::<Seq<char>, DeviceDescriptorView>::empty(),
            g@.goal is None,
    {
        Gateway { registry: DeviceRegistry::new(), goal: None }
    }

    /// Whether a request on this topic announces a device, so that its
    /// payload is to be decoded as a descriptor.
    pub fn is_announcement(topic: &str) -> (yes: bool)
        ensures
            yes == (topic@ == ANNOUNCE_TOPIC@),
    {
        text_eq(topic, ANNOUNCE_TOPIC)
    }

    /// A publish request. The envelope always goes onto the bus. Where the
    /// topic is the announcement topic and the payload was decoded as a
    /// descriptor (`announced`), the descriptor is filed in the registry
    /// too. The answer is always `true`.
    pub fn publish(
        &mut self,
        bus: &mut Bus,
        topic: String,
        data: Vec<u8>,
        announced: Option<DeviceDescriptor>,
    ) -> (ok: bool)
        requires
            old(self).wf(),
            old(bus).wf(),
            old(bus)@.log.len() < u64::MAX,
        ensures
            ok,
            final(self).wf(),
            final(bus).wf(),
            final(bus)@ == publish_spec(old(bus)@, request_envelope(topic@, data@)),
            final(self)@ == publish_request_spec(
                old(self)@,
                topic@,
                match announced {
                    Some(d) => Some(d@),
                    None => None,
                },
            ),
    {
        if text_eq(topic.as_str(), ANNOUNCE_TOPIC) {
            match announced {
                Some(desc) => {
                    let _ = self.registry.announce(desc);
                },
                None => {},
            }
        }
        bus.publish(Envelope { topic, data });
        true
    }

    /// Opens a stream on the bus: a cursor that starts at "now".
    pub fn subscribe(&self, bus: &Bus) -> (sub: Subscription)
        requires
            bus.wf(),
        ensures
            sub.cursor() == bus@.log.len(),
    {
        bus.subscribe()
    }

    /// The next envelope of a subscriber's stream, if the bus has one for
    /// it. Where the subscriber fell behind the window, the stream shows a
    /// gap and no failure.
    pub fn next_envelope(&self, bus: &Bus, sub: &mut Subscription) -> (next: Option<Envelope>)
        requires
            bus.wf(),
            old(sub).cursor() <= bus@.log.len(),
        ensures
            final(sub).cursor() <= bus@.log.len(),
            (
                match next {
                    Some(e) => Some(e@),
                    None => None,
                },
                final(sub).cursor(),
            ) == stream_spec(bus@, old(sub).cursor()),
    {
        proof {
            bus.lemma_wf_bounds();
        }
        match bus.try_recv(sub) {
            Recv::Envelope(e) => Some(e),
            Recv::Lagged(_) => {
                match bus.try_recv(sub) {
                    Recv::Envelope(e) => Some(e),
                    _ => None,
                }
            },
            _ => None,
        }
    }

    /// The descriptors on file at this moment, one for each device id, in
    /// no promised order.
    pub fn get_devices(&self) -> (list: Vec<DeviceDescriptor>)
        requires
            self.wf(),
        ensures
            forall|id: Seq<char>| #[trigger]
                self@.devices.contains_key(id) ==> exists|i: int|
                    0 <= i < list@.len() && (#[trigger] list@[i]).id@ == id,
            forall|i: int|
                0 <= i < list@.len() ==> self@.devices.contains_key((#[trigger] list@[i]).id@)
                    && self@.devices[list@[i].id@] == list@[i]@,
            forall|i: int, j: int|
                0 <= i < j < list@.len() ==> (#[trigger] list@[i]).id@ != (#[trigger] list@[j]).id@,
    {
        self.registry.snapshot()
    }

    /// Replaces the goal, and makes the new goal known on the bus. The
    /// answer is always `true`.
    pub fn set_goal(&mut self, bus: &mut Bus, text: String) -> (ok: bool)
        requires
            old(self).wf(),
            old(bus).wf(),
            old(bus)@.log.len() < u64::MAX,
        ensures
            ok,
            final(self).wf(),
            final(bus).wf(),
            final(self)@ == set_goal_spec(old(self)@, text@),
            final(bus)@ == publish_spec(old(bus)@, goal_envelope(text@)),
    {
        let data = text.as_str().as_bytes_vec();
        self.goal = Some(text);
        bus.publish(Envelope { topic: GOAL_TOPIC.to_owned(), data });
        true
    }

    /// The current goal, or the empty text if none was ever set.
    pub fn get_goal(&self) -> (text: String)
        ensures
            text@ == get_goal_spec(self@),
    {
        match &self.goal {
            Some(t) => t.clone(),
            None => String::new(),
        }
    }
}

/// Goal read-after-write. Once a goal has been set, asking for the goal
/// gives exactly that text, and so does the envelope that was put on the
/// bus for it: on an open bus it is the newest envelope, it is on the goal
/// topic, and its payload is the text's UTF-8 encoding.
pub proof fn lemma_goal_read_after_write(g: GatewayView, b: BusView, text: Seq<char>)
    requires
        b.wf(),
        !b.closed,
    ensures
        get_goal_spec(set_goal_spec(g, text)) == text,
        publish_spec(b, goal_envelope(text)).log.last() == goal_envelope(text),
        recv_spec(publish_spec(b, goal_envelope(text)), b.log.len()).0 == RecvView::Envelope(
            goal_envelope(text),
        ),
        vstd::utf8::decode_utf8(goal_envelope(text).data) == text,
{
    vstd::utf8::encode_utf8_decode_utf8(text);
}

} // verus!
