//! Checking what a phase left on disk against what it should have left.
use vstd::prelude::*;
use crate::workload::{file_name_of, file_names_of, remove_all, write_all, Listing};

verus! {

/// The bytes of a file that may be absent.
pub open spec fn file_view(f: Option<Vec<u8>>) -> Option<Seq<u8>> {
    match f {
        Some(b) => Some(b@),
        None => None,
    }
}

/// Whether the `i`-th entries of two snapshots differ.
pub open spec fn differs_at(a: Seq<Option<Vec<u8>>>, b: Seq<Option<Vec<u8>>>, i: int) -> bool {
    file_view(a[i]) != file_view(b[i])
}

/// Whether two snapshots hold the same files with the same bytes.
pub open spec fn same_snapshot(a: Seq<Option<Vec<u8>>>, b: Seq<Option<Vec<u8>>>) -> bool {
    a.len() == b.len() && forall|i: int| 0 <= i < a.len() ==> !#[trigger] differs_at(a, b, i)
}

/// Whether two byte strings are equal.
pub fn bytes_equal(a: &[u8], b: &[u8]) -> (r: bool)
    ensures
        r == (a@ == b@),
{
    if a.len() != b.len() {
        return false;
    }
    let mut i: usize = 0;
    while i < a.len()
        invariant
            a@.len() == b@.len(),
            i <= a@.len(),
            forall|j: int| 0 <= j < i ==> a@[j] == b@[j],
        decreases a@.len() - i,
    {
        if a[i] != b[i] {
            return false;
        }
        i = i + 1;
    }
    assert(a@ =~= b@);
    true
}

fn same_file(a: &Option<Vec<u8>>, b: &Option<Vec<u8>>) -> (r: bool)
    ensures
        r == (file_view(*a) == file_view(*b)),
{
    match (a, b) {
        (Some(x), Some(y)) => bytes_equal(x.as_slice(), y.as_slice()),
        (None, None) => true,
        _ => false,
    }
}

/// Compares the files a phase left (`found[i]`: the bytes of file `i`, `None`
/// where it does not exist) with those it should have left. Returns `None`
/// when they agree, else the first index where they differ, which is the
/// shorter length when one snapshot is a proper prefix of the other.
pub fn first_mismatch(found: &Vec<Option<Vec<u8>>>, expected: &Vec<Option<Vec<u8>>>) -> (r: Option<usize>)
    ensures
        r is None <==> same_snapshot(found@, expected@),
        r matches Some(i) ==> {
            &&& i <= found@.len() && i <= expected@.len()
            &&& forall|j: int| 0 <= j < i ==> !#[trigger] differs_at(found@, expected@, j)
            &&& (i == found@.len() || i == expected@.len() || differs_at(found@, expected@, i as int))
        },
{
    let n = if found.len() < expected.len() { found.len() } else { expected.len() };
    let mut i: usize = 0;
    while i < n
        invariant
            n <= found@.len() && n <= expected@.len(),
            n == found@.len() || n == expected@.len(),
            i <= n,
            forall|j: int| 0 <= j < i ==> !#[trigger] differs_at(found@, expected@, j),
        decreases n - i,
    {
        if !same_file(&found[i], &expected[i]) {
            assert(differs_at(found@, expected@, i as int));
            return Some(i);
        }
        i = i + 1;
    }
    if found.len() != expected.len() {
        Some(n)
    } else {
        None
    }
}

/// What files `0..n` should hold after each is written with `payload`: the
/// model's `write_all` of their names, read back file by file.
pub fn expected_after_write(n: usize, payload: &Vec<u8>) -> (r: Vec<Option<Vec<u8>>>)
    ensures
        r@.len() == n,
        forall|i: int| 0 <= i < n ==> #[trigger] file_view(r@[i]) == Some(payload@),
        forall|dir: Listing, i: int|
            0 <= i < n ==> #[trigger] write_all(dir, file_names_of(n as nat), payload@).contains_key(
                file_name_of(i as nat),
            ) && write_all(dir, file_names_of(n as nat), payload@)[file_name_of(i as nat)]
                == payload@ && file_view(r@[i]) == Some(
                write_all(dir, file_names_of(n as nat), payload@)[file_name_of(i as nat)],
            ),
{
    let mut r: Vec<Option<Vec<u8>>> = Vec::new();
    let mut i: usize = 0;
    while i < n
        invariant
            i <= n,
            r@.len() == i,
            forall|j: int| 0 <= j < i ==> #[trigger] file_view(r@[j]) == Some(payload@),
        decreases n - i,
    {
        let copy = payload.clone();
        assert(copy@ =~= payload@);
        r.push(Some(copy));
        i = i + 1;
    }
    assert forall|dir: Listing, i: int| 0 <= i < n implies #[trigger] write_all(
        dir,
        file_names_of(n as nat),
        payload@,
    ).contains_key(file_name_of(i as nat)) && write_all(dir, file_names_of(n as nat), payload@)[
        file_name_of(i as nat)] == payload@ && file_view(r@[i]) == Some(
        write_all(dir, file_names_of(n as nat), payload@)[file_name_of(i as nat)],
    ) by {
        assert(file_names_of(n as nat)[i] == file_name_of(i as nat));
        assert(file_view(r@[i]) == Some(payload@));
    }
    r
}

/// What files `0..n` should hold after each is deleted: nothing, as the
/// model's `remove_all` of their names has none of them.
pub fn expected_after_delete(n: usize) -> (r: Vec<Option<Vec<u8>>>)
    ensures
        r@.len() == n,
        forall|i: int| 0 <= i < n ==> #[trigger] r@[i] is None,
        forall|dir: Listing, i: int|
            0 <= i < n ==> !#[trigger] remove_all(dir, file_names_of(n as nat)).contains_key(
                file_name_of(i as nat),
            ),
{
    let mut r: Vec<Option<Vec<u8>>> = Vec::new();
    let mut i: usize = 0;
    while i < n
        invariant
            i <= n,
            r@.len() == i,
            forall|j: int| 0 <= j < i ==> #[trigger] r@[j] is None,
        decreases n - i,
    {
        r.push(None);
        i = i + 1;
    }
    assert forall|dir: Listing, i: int| 0 <= i < n implies !#[trigger] remove_all(
        dir,
        file_names_of(n as nat),
    ).contains_key(file_name_of(i as nat)) by {
        assert(file_names_of(n as nat)[i] == file_name_of(i as nat));
        assert(file_names_of(n as nat).to_set().contains(file_name_of(i as nat)));
    }
    r
}

} // verus!
