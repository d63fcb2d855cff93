//! Updating a file's leading bytes through a writable memory map.
use vstd::prelude::*;
use memmap2::MmapMut;

verus! {

#[verifier::external_type_specification]
#[verifier::external_body]
pub struct ExMmapMut(MmapMut);

/// The bytes that a writable map currently shows.
pub uninterp spec fn mapped_bytes(m: MmapMut) -> Seq<u8>;

/// Relies on `<MmapMut as Deref>::deref`: the map reads as a byte slice, whose
/// length is that of the mapped region.
#[verifier::external_body]
fn mapped_len(m: &MmapMut) -> (r: usize)
    ensures
        r == mapped_bytes(*m).len(),
{
    let bytes: &[u8] = m;
    bytes.len()
}

/// Relies on `<MmapMut as DerefMut>::deref_mut`: writing one byte of the
/// mutable slice changes that byte of the map and no other.
#[verifier::external_body]
fn set_mapped_byte(m: &mut MmapMut, i: usize, b: u8)
    requires
        i < mapped_bytes(*old(m)).len(),
    ensures
        mapped_bytes(*final(m)) == mapped_bytes(*old(m)).update(i as int, b),
{
    let bytes: &mut [u8] = m;
    bytes[i] = b;
}

/// The file length to set before mapping, so that `content_len` bytes fit:
/// the current length when it suffices, else exactly `content_len`.
pub open spec fn length_for_update(current_len: nat, content_len: nat) -> nat {
    if current_len < content_len {
        content_len
    } else {
        current_len
    }
}

/// A region of `current` after its leading bytes are overwritten with `content`
/// (the region holds at least as many bytes as `content`).
pub open spec fn overwritten(current: Seq<u8>, content: Seq<u8>) -> Seq<u8>
    recommends
        content.len() <= current.len(),
{
    content + current.subrange(content.len() as int, current.len() as int)
}

/// What a file of bytes `current` holds after a mapped update with `content`:
/// it is first extended with zero bytes to the length `length_for_update`
/// asks for, then its leading bytes are overwritten.
pub open spec fn after_mapped_update(current: Seq<u8>, content: Seq<u8>) -> Seq<u8> {
    let grown = current + Seq::new(
        (length_for_update(current.len(), content.len()) - current.len()) as nat,
        |i: int| 0u8,
    );
    overwritten(grown, content)
}

/// How a mapped update must prepare the file.
#[derive(Debug, Clone, Copy, PartialEq, Eq)]
pub enum UpdatePlan {
    /// The mapped region is long enough: write in place.
    InPlace,
    /// The file must first be extended to this many bytes and mapped again.
    Grow(u64),
}

/// Decides whether a file of `current_len` bytes must grow before
/// `content_len` bytes can be written through its map.
pub fn plan_update(current_len: u64, content_len: u64) -> (r: UpdatePlan)
    ensures
        current_len >= content_len <==> r == UpdatePlan::InPlace,
        current_len < content_len <==> r == UpdatePlan::Grow(content_len),
        r is Grow ==> length_for_update(current_len as nat, content_len as nat)
            == r->Grow_0 as nat,
{
    if current_len < content_len {
        UpdatePlan::Grow(content_len)
    } else {
        UpdatePlan::InPlace
    }
}

/// The mapped region is shorter than the content to write.
#[derive(Debug, Clone, Copy, PartialEq, Eq)]
pub struct RegionTooShort {
    pub region_len: usize,
    pub content_len: usize,
}

/// Overwrites the leading bytes of the map with `content`. Fails, leaving the
/// map as it was, when the region is shorter than `content`.
pub fn overwrite_mapped(m: &mut MmapMut, content: &[u8]) -> (r: Result<(), RegionTooShort>)
    ensures
        r is Ok <==> content@.len() <= mapped_bytes(*old(m)).len(),
        r is Ok ==> mapped_bytes(*final(m)) == overwritten(mapped_bytes(*old(m)), content@),
        r is Err ==> *final(m) == *old(m) && r->Err_0 == (RegionTooShort {
            region_len: mapped_bytes(*old(m)).len() as usize,
            content_len: content@.len() as usize,
        }),
{
    let region_len = mapped_len(m);
    if region_len < content.len() {
        return Err(RegionTooShort { region_len, content_len: content.len() });
    }
    let ghost start = mapped_bytes(*m);
    let mut i: usize = 0;
    while i < content.len()
        invariant
            i <= content@.len() <= start.len(),
            mapped_bytes(*m).len() == start.len(),
            forall|j: int| 0 <= j < i ==> mapped_bytes(*m)[j] == content@[j],
            forall|j: int| i <= j < start.len() ==> mapped_bytes(*m)[j] == start[j],
        decreases content@.len() - i,
    {
        set_mapped_byte(m, i, content[i]);
        i = i + 1;
    }
    assert(mapped_bytes(*m) =~= overwritten(start, content@));
    Ok(())
}

/// A mapped update leaves the file holding exactly the new content whenever the
/// file was no longer than that content.
pub proof fn lemma_update_gives_content(current: Seq<u8>, content: Seq<u8>)
    requires
        current.len() <= content.len(),
    ensures
        after_mapped_update(current, content) == content,
{
    assert(after_mapped_update(current, content) =~= content);
}

/// After a mapped update the file starts with the new content, and keeps its
/// length when it was already long enough.
pub proof fn lemma_update_prefix(current: Seq<u8>, content: Seq<u8>)
    ensures
        after_mapped_update(current, content).subrange(0, content.len() as int) == content,
        after_mapped_update(current, content).len() == length_for_update(
            current.len(),
            content.len(),
        ),
{
    assert(after_mapped_update(current, content).subrange(0, content.len() as int) =~= content);
}

} // verus!
