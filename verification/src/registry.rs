//! The device registry: every device that has announced itself, by id.

use vstd::prelude::*;

verus! {

/// What a device is to the robot.
#[derive(Clone, Copy, Debug, PartialEq, Eq, Structural)]
pub enum DeviceKind {
    Sensor,
    Actuator,
    Other,
}

impl DeviceKind {
    /// The kind that a number on the wire stands for: 0 a sensor, 1 an
    /// actuator, and every other number something else.
    pub open spec fn of_code(code: i32) -> DeviceKind {
        if code == 0 {
            DeviceKind::Sensor
        } else if code == 1 {
            DeviceKind::Actuator
        } else {
            DeviceKind::Other
        }
    }

    /// The number that stands for the kind on the wire.
    pub open spec fn code_spec(self) -> i32 {
        match self {
            DeviceKind::Sensor => 0,
            DeviceKind::Actuator => 1,
            DeviceKind::Other => 2,
        }
    }

    /// The kind that a number on the wire stands for.
    pub fn from_code(code: i32) -> (kind: DeviceKind)
        ensures
            kind == DeviceKind::of_code(code),
    {
        if code == 0 {
            DeviceKind::Sensor
        } else if code == 1 {
            DeviceKind::Actuator
        } else {
            DeviceKind::Other
        }
    }

    /// The number that stands for the kind on the wire.
    pub fn code(self) -> (code: i32)
        ensures
            code == self.code_spec(),
            DeviceKind::of_code(code) == self,
    {
        match self {
            DeviceKind::Sensor => 0,
            DeviceKind::Actuator => 1,
            DeviceKind::Other => 2,
        }
    }
}

/// What a device says of itself when it announces itself.
#[derive(Clone, Debug)]
pub struct DeviceDescriptor {
    pub id: String,
    pub kind: DeviceKind,
    pub data_type: String,
    pub tags: Vec<String>,
}

/// The mathematical value of a descriptor.
pub struct DeviceDescriptorView {
    pub id: Seq<char>,
    pub kind: DeviceKind,
    pub data_type: Seq<char>,
    pub tags: Seq<Seq<char>>,
}

impl View for DeviceDescriptor {
    type V = DeviceDescriptorView;

    open spec fn view(&self) -> DeviceDescriptorView {
        DeviceDescriptorView {
            id: self.id@,
            kind: self.kind,
            data_type: self.data_type@,
            tags: self.tags.deep_view(),
        }
    }
}

/// `dashmap::DashMap`, a hash map that many tasks may share. Nothing of
/// its inside is known here; what it holds goes by `descriptors_of`.
#[verifier::external_type_specification]
#[verifier::external_body]
#[verifier::reject_recursive_types(K)]
#[verifier::reject_recursive_types(V)]
#[verifier::reject_recursive_types(S)]
pub struct ExDashMap<K, V, S>(dashmap::DashMap<K, V, S>);

/// What a map of descriptors holds: for each key, the value of its descriptor.
pub uninterp spec fn descriptors_of(table: dashmap::DashMap<String, DeviceDescriptor>) -> Map<
    Seq<char>,
    DeviceDescriptorView,
>;

/// `DashMap::new`: a map that holds nothing.
#[verifier::external_body]
fn table_new() -> (table: dashmap::DashMap<String, DeviceDescriptor>)
    ensures
        descriptors_of(table) =~= Map::empty(),
{
    dashmap::DashMap::new()
}

/// `DashMap::insert`: afterwards the key maps to the new value and every
/// other key is as it was; the value that the key had before, if it had
/// one, is handed back.
#[verifier::external_body]
fn table_insert(
    table: &mut dashmap::DashMap<String, DeviceDescriptor>,
    key: String,
    desc: DeviceDescriptor,
) -> (prev: Option<DeviceDescriptor>)
    ensures
        descriptors_of(*final(table)) == descriptors_of(*old(table)).insert(key@, desc@),
        prev is Some == descriptors_of(*old(table)).contains_key(key@),
        prev is Some ==> prev->0@ == descriptors_of(*old(table))[key@],
{
    table.insert(key, desc)
}

/// `DashMap::iter`, each entry cloned: one pair of key and descriptor for
/// each key of the map, in no promised order.
#[verifier::external_body]
fn table_entries(table: &dashmap::DashMap<String, DeviceDescriptor>) -> (pairs: Vec<
    (String, DeviceDescriptor),
>)
    ensures
        forall|id: Seq<char>| #[trigger]
            descriptors_of(*table).contains_key(id) ==> exists|i: int|
                0 <= i < pairs@.len() && (#[trigger] pairs@[i]).0@ == id,
        forall|i: int|
            0 <= i < pairs@.len() ==> descriptors_of(*table).contains_key((#[trigger] pairs@[i]).0@)
                && descriptors_of(*table)[pairs@[i].0@] == pairs@[i].1@,
        (forall|i: int, j: int|
            0 <= i < j < pairs@.len() ==> (#[trigger] pairs@[i]).0@ != (#[trigger] pairs@[j]).0@),
{
    table.iter().map(|kv| (kv.key().clone(), kv.value().clone())).collect()
}

/// The registry. A device id maps to at most one descriptor, the one that
/// was announced last under that id.
pub struct DeviceRegistry {
    table: dashmap::DashMap<String, DeviceDescriptor>,
}

impl View for DeviceRegistry {
    type V = Map<Seq<char>, DeviceDescriptorView>;

    closed spec fn view(&self) -> Map<Seq<char>, DeviceDescriptorView> {
        descriptors_of(self.table)
    }
}

/// Every descriptor is filed under its own id.
pub open spec fn filed_by_id(devices: Map<Seq<char>, DeviceDescriptorView>) -> bool {
    forall|id: Seq<char>| #[trigger] devices.contains_key(id) ==> devices[id].id == id
}

impl DeviceRegistry {
    /// The invariant of a registry.
    pub open spec fn wf(&self) -> bool {
        filed_by_id(self@)
    }

    /// A registry without devices.
    pub fn new() -> (reg: DeviceRegistry)
        ensures
            reg.wf(),
            reg@ == Map::<Seq<char>, DeviceDescriptorView>::empty(),
    {
        DeviceRegistry { table: table_new() }
    }

    /// Files a descriptor under its id; one that was filed under the same id
    /// before is replaced. Says whether the id is new to the registry.
    pub fn announce(&mut self, desc: DeviceDescriptor) -> (fresh: bool)
        requires
            old(self).wf(),
        ensures
            final(self).wf(),
            final(self)@ == old(self)@.insert(desc@.id, desc@),
            fresh == !old(self)@.contains_key(desc@.id),
    {
        let key = desc.id.clone();
        let prev = table_insert(&mut self.table, key, desc);
        prev.is_none()
    }

    /// The descriptors that the registry holds now, one for each id, in no
    /// promised order.
    pub fn snapshot(&self) -> (list: Vec<DeviceDescriptor>)
        requires
            self.wf(),
        ensures
            forall|id: Seq<char>| #[trigger]
                self@.contains_key(id) ==> exists|i: int|
                    0 <= i < list@.len() && (#[trigger] list@[i]).id@ == id,
            forall|i: int|
                0 <= i < list@.len() ==> self@.contains_key((#[trigger] list@[i]).id@) && self@[list@[i].id@]
                    == list@[i]@,
            forall|i: int, j: int|
                0 <= i < j < list@.len() ==> (#[trigger] list@[i]).id@ != (#[trigger] list@[j]).id@,
    {
        let mut pairs = table_entries(&self.table);
        let ghost all = pairs@;
        let mut list: Vec<DeviceDescriptor> = Vec::new();
        while pairs.len() > 0
            invariant
                pairs@.len() + list@.len() == all.len(),
                forall|k: int| 0 <= k < pairs@.len() ==> pairs@[k] == all[k],
                forall|k: int| 0 <= k < list@.len() ==> list@[k] == all[all.len() - 1 - k].1,
            decreases pairs@.len(),
        {
            match pairs.pop() {
                Some(pair) => {
                    list.push(pair.1);
                },
                None => {},
            }
        }
        proof {
            let n = all.len() as int;
            assert forall|k: int| 0 <= k < n implies (#[trigger] list@[k]).id@ == all[n - 1 - k].0@
                && self@.contains_key(list@[k].id@) && self@[list@[k].id@] == list@[k]@ by {
                let pair = all[n - 1 - k];
                assert(self@.contains_key(pair.0@));
            }
            assert forall|id: Seq<char>| #[trigger] self@.contains_key(id) implies exists|i: int|
                0 <= i < list@.len() && (#[trigger] list@[i]).id@ == id by {
                let j = choose|j: int| 0 <= j < all.len() && (#[trigger] all[j]).0@ == id;
                assert(list@[n - 1 - j].id@ == id);
            }
            assert forall|i: int, j: int| 0 <= i < j < list@.len() implies (
            #[trigger] list@[i]).id@ != (#[trigger] list@[j]).id@ by {
                assert(all[n - 1 - j].0@ != all[n - 1 - i].0@);
            }
        }
        list
    }
}

} // verus!
