//! Mesh addresses and the bounded set in which the node keeps a snapshot of
//! the addresses that the mesh has assigned to it.

use vstd::prelude::*;

verus! {

/// How many addresses one snapshot holds.
pub const MAX_ADDRESSES: usize = 4;

/// An address of the node in the mesh, with the length of its prefix in bits.
#[derive(Clone, Copy, Debug, PartialEq, Eq)]
pub struct MeshAddress {
    pub address: [u8; 16],
    pub prefix_len: u8,
}

impl MeshAddress {
    /// The first 16 bits of the address, as one number.
    pub open spec fn spec_first_segment(self) -> int {
        self.address@[0] as int * 256 + self.address@[1] as int
    }

    /// Whether the address lies in `fe80::/10`, the link-local unicast range.
    pub open spec fn spec_is_link_local(self) -> bool {
        0xfe80 <= self.spec_first_segment() <= 0xfebf
    }

    pub fn new(address: [u8; 16], prefix_len: u8) -> (made: MeshAddress)
        ensures
            made.address == address,
            made.prefix_len == prefix_len,
    {
        MeshAddress { address, prefix_len }
    }

    /// The first 16 bits of the address, as one number.
    pub fn first_segment(&self) -> (segment: u16)
        ensures
            segment == self.spec_first_segment(),
    {
        let high: u16 = self.address[0] as u16;
        let low: u16 = self.address[1] as u16;
        high * 256 + low
    }

    /// Whether the address is link-local: usable towards direct neighbours only.
    pub fn is_link_local(&self) -> (yes: bool)
        ensures
            yes == self.spec_is_link_local(),
    {
        let segment = self.first_segment();
        0xfe80 <= segment && segment <= 0xfebf
    }
}

/// `heapless::Vec`, the fixed-capacity vector that holds a snapshot.
#[verifier::external_type_specification]
#[verifier::external_body]
#[verifier::reject_recursive_types(T)]
pub struct ExHeaplessVec<T, const N: usize>(heapless::Vec<T, N>);

/// The items of a snapshot buffer, oldest first.
pub uninterp spec fn stored_addresses(buffer: heapless::Vec<([u8; 16], u8), 4>) -> Seq<
    ([u8; 16], u8),
>;

/// `heapless::Vec::new`: a buffer without items.
#[verifier::external_body]
fn buffer_new() -> (buffer: heapless::Vec<([u8; 16], u8), 4>)
    ensures
        stored_addresses(buffer) == Seq::<([u8; 16], u8)>::empty(),
{
    heapless::Vec::new()
}

/// `heapless::Vec::len`, reached through the slice that the vector derefs to:
/// the number of stored items, which never exceeds the capacity of 4.
#[verifier::external_body]
fn buffer_len(buffer: &heapless::Vec<([u8; 16], u8), 4>) -> (n: usize)
    ensures
        n == stored_addresses(*buffer).len(),
        n <= 4,
{
    buffer.len()
}

/// `heapless::Vec::push`: below capacity the item is appended at the back;
/// a full buffer stays as it is and the item comes back as the error.
#[verifier::external_body]
fn buffer_push(buffer: &mut heapless::Vec<([u8; 16], u8), 4>, item: ([u8; 16], u8)) -> (pushed:
    Result<(), ([u8; 16], u8)>)
    ensures
        pushed == if stored_addresses(*old(buffer)).len() < 4 {
            Ok::<(), ([u8; 16], u8)>(())
        } else {
            Err::<(), ([u8; 16], u8)>(item)
        },
        stored_addresses(*final(buffer)) == if stored_addresses(*old(buffer)).len() < 4 {
            stored_addresses(*old(buffer)).push(item)
        } else {
            stored_addresses(*old(buffer))
        },
{
    buffer.push(item)
}

/// Indexing of `heapless::Vec` through its slice: the item at position `at`.
#[verifier::external_body]
fn buffer_get(buffer: &heapless::Vec<([u8; 16], u8), 4>, at: usize) -> (item: ([u8; 16], u8))
    requires
        at < stored_addresses(*buffer).len(),
    ensures
        item == stored_addresses(*buffer)[at as int],
{
    buffer[at]
}

/// `PartialEq` of `heapless::Vec`, which compares the two slices item by item.
#[verifier::external_body]
fn buffer_eq(a: &heapless::Vec<([u8; 16], u8), 4>, b: &heapless::Vec<([u8; 16], u8), 4>) -> (same:
    bool)
    ensures
        same == (stored_addresses(*a) =~= stored_addresses(*b)),
{
    a == b
}

/// The mesh address that a stored pair stands for.
pub open spec fn mesh_address_of(pair: ([u8; 16], u8)) -> MeshAddress {
    MeshAddress { address: pair.0, prefix_len: pair.1 }
}

/// A snapshot of the node's mesh addresses, in the order in which the mesh
/// reported them. It holds at most [`MAX_ADDRESSES`] of them.
pub struct AddressSet {
    buffer: heapless::Vec<([u8; 16], u8), 4>,
}

impl View for AddressSet {
    type V = Seq<MeshAddress>;

    closed spec fn view(&self) -> Seq<MeshAddress> {
        stored_addresses(self.buffer).map_values(|pair: ([u8; 16], u8)| mesh_address_of(pair))
    }
}

impl AddressSet {
    /// A snapshot without addresses.
    pub fn new() -> (set: AddressSet)
        ensures
            set@ == Seq::<MeshAddress>::empty(),
    {
        let set = AddressSet { buffer: buffer_new() };
        assert(set@ =~= Seq::<MeshAddress>::empty());
        set
    }

    /// The number of addresses in the snapshot.
    pub fn len(&self) -> (n: usize)
        ensures
            n == self@.len(),
            n <= MAX_ADDRESSES,
    {
        buffer_len(&self.buffer)
    }

    pub fn is_empty(&self) -> (empty: bool)
        ensures
            empty == (self@.len() == 0),
    {
        buffer_len(&self.buffer) == 0
    }

    /// The address at position `at`.
    pub fn get(&self, at: usize) -> (found: Option<MeshAddress>)
        ensures
            found == if at < self@.len() {
                Some(self@[at as int])
            } else {
                None
            },
    {
        if at < buffer_len(&self.buffer) {
            let pair = buffer_get(&self.buffer, at);
            Some(MeshAddress { address: pair.0, prefix_len: pair.1 })
        } else {
            None
        }
    }

    /// Takes in one report of the mesh. An address is appended while there is
    /// room; a report without an address, or one that arrives when the
    /// snapshot is full, leaves the snapshot as it is.
    pub fn record(&mut self, reported: Option<MeshAddress>)
        ensures
            final(self)@ == match reported {
                Some(address) => if old(self)@.len() < MAX_ADDRESSES {
                    old(self)@.push(address)
                } else {
                    old(self)@
                },
                None => old(self)@,
            },
    {
        if let Some(address) = reported {
            let ghost before = stored_addresses(self.buffer);
            let _ = buffer_push(&mut self.buffer, (address.address, address.prefix_len));
            proof {
                if before.len() < 4 {
                    assert(self@ =~= old(self)@.push(address));
                }
            }
        }
    }

    /// Whether two snapshots hold the same addresses in the same order.
    pub fn same_as(&self, other: &AddressSet) -> (same: bool)
        ensures
            same == (self@ == other@),
    {
        let same = buffer_eq(&self.buffer, &other.buffer);
        proof {
            let a = stored_addresses(self.buffer);
            let b = stored_addresses(other.buffer);
            if self@ == other@ {
                assert(a.len() == self@.len());
                assert(b.len() == other@.len());
                assert forall|i: int| 0 <= i < a.len() implies a[i] == b[i] by {
                    assert(mesh_address_of(a[i]) == self@[i]);
                    assert(mesh_address_of(b[i]) == other@[i]);
                }
                assert(a =~= b);
            }
            if a =~= b {
                assert(self@ =~= other@);
            }
        }
        same
    }
}

} // verus!
