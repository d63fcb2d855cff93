//! The file set of a workload: its names, its payloads, and a model of the
//! directory that each phase acts on.
use vstd::prelude::*;
use crate::decimal::{decimal, lemma_decimal_injective, push_decimal};

verus! {

/// The name of the `i`-th file of a workload: `file_<i>.txt`.
pub open spec fn file_name_of(i: nat) -> Seq<char> {
    "file_"@ + decimal(i) + ".txt"@
}

/// The names of the first `n` files, in order.
pub open spec fn file_names_of(n: nat) -> Seq<Seq<char>> {
    Seq::new(n, |i: int| file_name_of(i as nat))
}

/// The greeting written to the `i`-th file when each file gets its own text.
pub open spec fn greeting_of(i: nat) -> Seq<char> {
    "Hello from file "@ + decimal(i) + "!"@
}

/// The text that replaces `greeting_of(i)` in the update phase.
pub open spec fn update_text_of(i: nat) -> Seq<char> {
    "This is updated content for file "@ + decimal(i) + "!"@
}

/// The name of the `i`-th file.
pub fn file_name(i: usize) -> (r: String)
    ensures
        r@ == file_name_of(i as nat),
{
    let mut s = String::from_str("file_");
    push_decimal(&mut s, i as u128);
    s.append(".txt");
    s
}

/// The names of files `0..n`, in order.
pub fn file_names(n: usize) -> (r: Vec<String>)
    ensures
        r@.len() == n,
        forall|i: int| 0 <= i < n ==> #[trigger] r@[i]@ == file_name_of(i as nat),
{
    let mut names: Vec<String> = Vec::new();
    let mut i: usize = 0;
    while i < n
        invariant
            i <= n,
            names@.len() == i,
            forall|j: int| 0 <= j < i ==> #[trigger] names@[j]@ == file_name_of(j as nat),
        decreases n - i,
    {
        names.push(file_name(i));
        i = i + 1;
    }
    names
}

/// The greeting of the `i`-th file.
pub fn greeting(i: usize) -> (r: String)
    ensures
        r@ == greeting_of(i as nat),
{
    let mut s = String::from_str("Hello from file ");
    push_decimal(&mut s, i as u128);
    s.append("!");
    s
}

/// The updated text of the `i`-th file.
pub fn update_text(i: usize) -> (r: String)
    ensures
        r@ == update_text_of(i as nat),
{
    let mut s = String::from_str("This is updated content for file ");
    push_decimal(&mut s, i as u128);
    s.append("!");
    s
}

/// How the phases of a run do their I/O.
#[derive(Debug, Clone, Copy, PartialEq, Eq)]
pub enum Strategy {
    /// Buffered writes for every phase.
    Buffered,
    /// Buffered writes, but the update goes through a memory map of each file.
    MappedUpdate,
    /// One file after another on the calling thread, each file with its own text.
    Sequential,
}

/// The parameters of a run: how many files, and what the create and update
/// phases write to each (ignored by `Strategy::Sequential`, which writes
/// `greeting` and `update_text`).
#[derive(Debug)]
pub struct Workload {
    pub num_files: usize,
    pub initial: Vec<u8>,
    pub updated: Vec<u8>,
    pub strategy: Strategy,
}

/// A directory's files, by name, with their bytes.
pub type Listing = Map<Seq<char>, Seq<u8>>;

/// The directory after each name in `names` is written with `payload`.
pub open spec fn write_all(dir: Listing, names: Seq<Seq<char>>, payload: Seq<u8>) -> Listing {
    Map::new(
        |k: Seq<char>| dir.contains_key(k) || names.contains(k),
        |k: Seq<char>| if names.contains(k) { payload } else { dir[k] },
    )
}

/// The directory after each name in `names` is removed.
pub open spec fn remove_all(dir: Listing, names: Seq<Seq<char>>) -> Listing {
    dir.remove_keys(names.to_set())
}

/// After the create (or update) phase, every named file exists and holds the
/// payload, and every other file is as it was.
pub proof fn lemma_write_all_holds_payload(
    dir: Listing,
    names: Seq<Seq<char>>,
    payload: Seq<u8>,
)
    ensures
        forall|k: Seq<char>| #[trigger]
            names.contains(k) ==> write_all(dir, names, payload).contains_key(k)
                && write_all(dir, names, payload)[k] == payload,
        forall|k: Seq<char>|
            !names.contains(k) ==> (#[trigger] write_all(dir, names, payload).contains_key(k)
                <==> dir.contains_key(k)) && (dir.contains_key(k) ==> write_all(
                dir,
                names,
                payload,
            )[k] == dir[k]),
{
}

/// After the delete phase none of the named files exists.
pub proof fn lemma_remove_all_clears(dir: Listing, names: Seq<Seq<char>>)
    ensures
        forall|k: Seq<char>| #[trigger]
            names.contains(k) ==> !remove_all(dir, names).contains_key(k),
{
}

/// Creating the files in a directory that holds none of them, updating them,
/// and deleting them leaves the directory exactly as it was.
pub proof fn lemma_cycle_restores(
    dir: Listing,
    names: Seq<Seq<char>>,
    initial: Seq<u8>,
    updated: Seq<u8>,
)
    requires
        forall|k: Seq<char>| #[trigger] names.contains(k) ==> !dir.contains_key(k),
    ensures
        remove_all(write_all(write_all(dir, names, initial), names, updated), names) == dir,
{
    let end = remove_all(write_all(write_all(dir, names, initial), names, updated), names);
    assert forall|k: Seq<char>| #[trigger] end.contains_key(k) <==> dir.contains_key(k) by {
        if names.contains(k) {
            assert(names.to_set().contains(k));
        }
    }
    assert(end =~= dir);
}

/// Distinct indices give distinct file names, so no file of a workload
/// overwrites another.
pub proof fn lemma_file_names_distinct(i: nat, j: nat)
    requires
        i != j,
    ensures
        file_name_of(i) != file_name_of(j),
{
    lemma_decimal_injective(i, j);
    reveal_strlit("file_");
    if file_name_of(i) == file_name_of(j) {
        let a = "file_"@ + decimal(i);
        let b = "file_"@ + decimal(j);
        assert(a == file_name_of(i).subrange(0, a.len() as int));
        assert(b == file_name_of(j).subrange(0, b.len() as int));
        assert(a.len() == b.len());
        assert(decimal(i) =~= a.subrange(5, a.len() as int));
        assert(decimal(j) =~= b.subrange(5, b.len() as int));
    }
}

} // verus!
