use vstd::prelude::*;

verus! {

/// The 32-byte identity of a user or a program on the network.
#[derive(Clone, Copy, Debug, Eq)]
pub struct ActorId {
    pub bytes: [u8; 32],
}

/// The 32-byte identity of a message sent on the network.
#[derive(Clone, Copy, Debug, Eq)]
pub struct MessageId {
    pub bytes: [u8; 32],
}

/// All 32 bytes are zero.
pub open spec fn all_zero(b: [u8; 32]) -> bool {
    forall|i: int| 0 <= i < 32 ==> #[trigger] b@[i] == 0u8
}

fn bytes_equal(a: &[u8; 32], b: &[u8; 32]) -> (r: bool)
    ensures
        r == (*a == *b),
{
    let mut i: usize = 0;
    while i < 32
        invariant
            i <= 32,
            forall|j: int| 0 <= j < i ==> a@[j] == b@[j],
        decreases 32 - i,
    {
        if a[i] != b[i] {
            return false;
        }
        i = i + 1;
    }
    proof {
        broadcast use vstd::array::axiom_array_ext_equal;
        assert(*a =~= *b);
    }
    true
}

fn bytes_zero(a: &[u8; 32]) -> (r: bool)
    ensures
        r == all_zero(*a),
{
    let mut i: usize = 0;
    while i < 32
        invariant
            i <= 32,
            forall|j: int| 0 <= j < i ==> a@[j] == 0u8,
        decreases 32 - i,
    {
        if a[i] != 0 {
            return false;
        }
        i = i + 1;
    }
    true
}

impl PartialEq for ActorId {
    fn eq(&self, other: &ActorId) -> (r: bool) {
        bytes_equal(&self.bytes, &other.bytes)
    }
}

impl vstd::std_specs::cmp::PartialEqSpecImpl for ActorId {
    open spec fn obeys_eq_spec() -> bool {
        true
    }

    open spec fn eq_spec(&self, other: &ActorId) -> bool {
        self.bytes == other.bytes
    }
}

impl PartialEq for MessageId {
    fn eq(&self, other: &MessageId) -> (r: bool) {
        bytes_equal(&self.bytes, &other.bytes)
    }
}

impl vstd::std_specs::cmp::PartialEqSpecImpl for MessageId {
    open spec fn obeys_eq_spec() -> bool {
        true
    }

    open spec fn eq_spec(&self, other: &MessageId) -> bool {
        self.bytes == other.bytes
    }
}

impl ActorId {
    pub fn new(bytes: [u8; 32]) -> (r: Self)
        ensures
            r.bytes == bytes,
    {
        ActorId { bytes }
    }

    /// The all-zero identity, used as "not set".
    pub fn zero() -> (r: Self)
        ensures
            all_zero(r.bytes),
    {
        ActorId { bytes: [0u8; 32] }
    }

    pub fn is_zero(&self) -> (r: bool)
        ensures
            r == all_zero(self.bytes),
    {
        bytes_zero(&self.bytes)
    }

    /// Identity comparison.
    pub fn same(&self, other: &ActorId) -> (r: bool)
        ensures
            r == (*self == *other),
    {
        bytes_equal(&self.bytes, &other.bytes)
    }
}

impl MessageId {
    pub fn new(bytes: [u8; 32]) -> (r: Self)
        ensures
            r.bytes == bytes,
    {
        MessageId { bytes }
    }

    /// Identity comparison.
    pub fn same(&self, other: &MessageId) -> (r: bool)
        ensures
            r == (*self == *other),
    {
        bytes_equal(&self.bytes, &other.bytes)
    }
}

} // verus!
