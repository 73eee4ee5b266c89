//! The morphology publisher: it keeps the set of devices that have
//! announced themselves, and a description of the robot that is derived
//! from that set and published again whenever the set grows.

use vstd::prelude::*;
use vstd::string::{StrSliceExecFns, StringExecFns};
use vstd::utf8::encode_utf8;
use crate::envelope::{text_eq, Envelope, EnvelopeView, ANNOUNCE_TOPIC};
use crate::reflex::envelope_view;
use crate::registry::{DeviceDescriptor, DeviceDescriptorView};

verus! {

/// The topic on which the description is published.
pub const URDF_TOPIC: &'static str = "/description/urdf";

/// The id of the core module, which every robot has.
pub const CORE_DEVICE: &'static str = "head";

/// How every description begins: the robot, its head, and the joint that
/// fixes the head to the world.
pub const URDF_OPENING: &'static str =
    "<robot name=\"frog\">\n  <link name=\"head\">\n    <visual>\n      <geometry>\n        <mesh filename=\"pkg://frog_description/meshes/head.obj\"/>\n      </geometry>\n    </visual>\n  </link>\n  <joint name=\"head_fixed\" type=\"fixed\">\n    <parent link=\"world\"/>\n    <child link=\"head\"/>\n  </joint>\n";

/// How every description ends.
pub const URDF_CLOSING: &'static str = "</robot>\n";

/// What stands before the id in a device's link.
pub const LINK_OPEN: &'static str = "  <link name=\"";

/// What stands after the id in a device's link.
pub const LINK_CLOSE: &'static str = "\"/>\n";

/// What stands before the id in the name of a device's joint.
pub const JOINT_OPEN: &'static str = "  <joint name=\"joint_";

/// What stands after the joint's name: its type, and the head as its parent.
pub const JOINT_PARENT: &'static str = "\" type=\"fixed\">\n    <parent link=\"head\"/>\n";

/// What stands before the id in the joint's child.
pub const CHILD_OPEN: &'static str = "    <child link=\"";

/// What stands after the id in the joint's child, and closes the joint.
pub const JOINT_CLOSE: &'static str = "\"/>\n  </joint>\n";

/// What the description says of one device: a link of its own, and a
/// fixed joint that hangs it on the head.
pub open spec fn urdf_device(id: Seq<char>) -> Seq<char> {
    LINK_OPEN@ + id + LINK_CLOSE@ + JOINT_OPEN@ + id + JOINT_PARENT@ + CHILD_OPEN@ + id
        + JOINT_CLOSE@
}

/// What the description says of a list of devices: of each but the head
/// what `urdf_device` says, in the list's order.
pub open spec fn urdf_devices(ids: Seq<Seq<char>>) -> Seq<char>
    decreases ids.len(),
{
    if ids.len() == 0 {
        Seq::empty()
    } else if ids.last() == CORE_DEVICE@ {
        urdf_devices(ids.drop_last())
    } else {
        urdf_devices(ids.drop_last()) + urdf_device(ids.last())
    }
}

/// The description of a robot that has these devices.
pub open spec fn urdf_spec(ids: Seq<Seq<char>>) -> Seq<char> {
    URDF_OPENING@ + urdf_devices(ids) + URDF_CLOSING@
}

/// The description of a robot that has these devices: the head, and
/// hanging on it every other device.
pub fn build_urdf(devices: &Vec<String>) -> (xml: String)
    ensures
        xml@ == urdf_spec(devices.deep_view()),
{
    let mut xml = String::new();
    xml.append(URDF_OPENING);
    let ghost ids = devices.deep_view();
    let mut i: usize = 0;
    while i < devices.len()
        invariant
            i <= devices@.len(),
            ids == devices.deep_view(),
            ids.len() == devices@.len(),
            xml@ == URDF_OPENING@ + urdf_devices(ids.take(i as int)),
        decreases devices@.len() - i,
    {
        let id = devices[i].as_str();
        assert(id@ == ids[i as int]);
        assert(ids.take(i + 1).drop_last() =~= ids.take(i as int));
        assert(ids.take(i + 1).last() == ids[i as int]);
        if !text_eq(id, CORE_DEVICE) {
            xml.append(LINK_OPEN);
            xml.append(id);
            xml.append(LINK_CLOSE);
            xml.append(JOINT_OPEN);
            xml.append(id);
            xml.append(JOINT_PARENT);
            xml.append(CHILD_OPEN);
            xml.append(id);
            xml.append(JOINT_CLOSE);
            assert(xml@ =~= URDF_OPENING@ + (urdf_devices(ids.take(i as int)) + urdf_device(id@)));
        }
        i = i + 1;
    }
    assert(ids.take(i as int) =~= ids);
    xml.append(URDF_CLOSING);
    xml
}

/// The envelope that carries the description of these devices.
pub open spec fn description_envelope(ids: Seq<Seq<char>>) -> EnvelopeView {
    EnvelopeView { topic: URDF_TOPIC@, data: encode_utf8(urdf_spec(ids)) }
}

/// What an announcement does: the id of a device that is new joins the
/// devices, and the description is made anew; one that is known changes
/// nothing, and nothing is published.
pub open spec fn announce_spec(ids: Seq<Seq<char>>, id: Seq<char>) -> (
    Seq<Seq<char>>,
    Option<EnvelopeView>,
) {
    if ids.contains(id) {
        (ids, None)
    } else {
        (ids.push(id), Some(description_envelope(ids.push(id))))
    }
}

/// What an envelope from the bus does. Only an envelope on the
/// announcement topic whose payload could be decoded as a descriptor
/// (`decoded`) is an announcement; everything else is passed over.
pub open spec fn absorb_spec(
    ids: Seq<Seq<char>>,
    topic: Seq<char>,
    decoded: Option<DeviceDescriptorView>,
) -> (Seq<Seq<char>>, Option<EnvelopeView>) {
    if topic == ANNOUNCE_TOPIC@ && decoded is Some {
        announce_spec(ids, decoded->0.id)
    } else {
        (ids, None)
    }
}

/// The devices that have announced themselves, in the order in which they
/// came, the head first.
pub struct Morphology {
    devices: Vec<String>,
}

impl View for Morphology {
    type V = Seq<Seq<char>>;

    closed spec fn view(&self) -> Seq<Seq<char>> {
        self.devices.deep_view()
    }
}

fn description(devices: &Vec<String>) -> (env: Envelope)
    ensures
        env@ == description_envelope(devices.deep_view()),
{
    let xml = build_urdf(devices);
    Envelope { topic: URDF_TOPIC.to_owned(), data: xml.as_str().as_bytes_vec() }
}

impl Morphology {
    /// The invariant: the head is there, and no id occurs twice.
    pub open spec fn wf(&self) -> bool {
        &&& self@.len() >= 1
        &&& self@[0] == CORE_DEVICE@
        &&& self@.no_duplicates()
    }

    /// The publisher at start-up: it knows the head alone, and hands back
    /// the first description, which is to be published at once.
    pub fn new() -> (start: (Morphology, Envelope))
        ensures
            start.0.wf(),
            start.0@ == seq![CORE_DEVICE@],
            start.1@ == description_envelope(seq![CORE_DEVICE@]),
    {
        let mut devices: Vec<String> = Vec::new();
        devices.push(CORE_DEVICE.to_owned());
        assert(devices.deep_view() =~= seq![CORE_DEVICE@]);
        let env = description(&devices);
        (Morphology { devices }, env)
    }

    /// Whether a device of that id has announced itself.
    pub fn knows(&self, id: &str) -> (yes: bool)
        ensures
            yes == self@.contains(id@),
    {
        let mut i: usize = 0;
        while i < self.devices.len()
            invariant
                i <= self.devices@.len(),
                self@.len() == self.devices@.len(),
                forall|k: int| 0 <= k < i ==> self@[k] != id@,
            decreases self.devices@.len() - i,
        {
            assert(self@[i as int] == self.devices@[i as int]@);
            if text_eq(self.devices[i].as_str(), id) {
                return true;
            }
            i = i + 1;
        }
        false
    }

    /// A device announces itself. The description comes back, to be
    /// published, if and only if the device is new.
    pub fn announce(&mut self, id: String) -> (published: Option<Envelope>)
        requires
            old(self).wf(),
        ensures
            final(self).wf(),
            (final(self)@, envelope_view(published)) == announce_spec(old(self)@, id@),
    {
        if self.knows(id.as_str()) {
            None
        } else {
            self.devices.push(id);
            assert(self@ =~= old(self)@.push(id@));
            Some(description(&self.devices))
        }
    }

    /// Takes in an envelope from the bus; `decoded` is its payload as a
    /// descriptor, where it could be decoded as one.
    pub fn absorb(&mut self, env: &Envelope, decoded: Option<DeviceDescriptor>) -> (published:
        Option<Envelope>)
        requires
            old(self).wf(),
        ensures
            final(self).wf(),
            (final(self)@, envelope_view(published)) == absorb_spec(
                old(self)@,
                env@.topic,
                match decoded {
                    Some(d) => Some(d@),
                    None => None,
                },
            ),
    {
        if text_eq(env.topic.as_str(), ANNOUNCE_TOPIC) {
            match decoded {
                Some(desc) => self.announce(desc.id),
                None => None,
            }
        } else {
            None
        }
    }

    /// The ids of the devices, in the order in which they came.
    pub fn devices(&self) -> (ids: &Vec<String>)
        ensures
            ids.deep_view() == self@,
    {
        &self.devices
    }
}

/// Registry idempotence. A device that announces itself twice leads to
/// one new description, not two: the second announcement changes nothing
/// and publishes nothing, whatever was announced in between.
pub proof fn lemma_announce_idempotent(ids: Seq<Seq<char>>, id: Seq<char>, between: Seq<Seq<char>>)
    ensures
        announce_all(announce_spec(ids, id).0, between).contains(id),
        announce_spec(announce_all(announce_spec(ids, id).0, between), id) == (
            announce_all(announce_spec(ids, id).0, between),
            None::<EnvelopeView>,
        ),
{
    let first = announce_spec(ids, id).0;
    assert(first.contains(id)) by {
        if !ids.contains(id) {
            assert(first[ids.len() as int] == id);
        }
    }
    lemma_announce_all_keeps(first, between, id);
}

/// The devices after each of `more` has announced itself, in order.
pub open spec fn announce_all(ids: Seq<Seq<char>>, more: Seq<Seq<char>>) -> Seq<Seq<char>>
    decreases more.len(),
{
    if more.len() == 0 {
        ids
    } else {
        announce_spec(announce_all(ids, more.drop_last()), more.last()).0
    }
}

/// Announcements never remove a device.
pub proof fn lemma_announce_all_keeps(ids: Seq<Seq<char>>, more: Seq<Seq<char>>, id: Seq<char>)
    requires
        ids.contains(id),
    ensures
        announce_all(ids, more).contains(id),
    decreases more.len(),
{
    if more.len() > 0 {
        lemma_announce_all_keeps(ids, more.drop_last(), id);
        let prev = announce_all(ids, more.drop_last());
        let k = choose|k: int| 0 <= k < prev.len() && prev[k] == id;
        if !prev.contains(more.last()) {
            assert(prev.push(more.last())[k] == id);
        }
    }
}

} // verus!
