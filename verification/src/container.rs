use vstd::prelude::*;
use crate::text::{chars_of, contains_chars, contains_run};

verus! {

/// The size in bytes of one record of the game's resource table.
pub const RESOURCE_RECORD_SIZE: u64 = 0x90;

/// The size in bytes of the in-memory file object the game allocates for a
/// redirected container.
pub const FILE_OBJECT_SIZE: usize = 0x160;

/// Where the file object stores its 32-bit timestamp.
pub const TIMESTAMP_OFFSET: usize = 0x140;

/// Where the file object stores its one-byte "owns its data" flag.
pub const OWNS_DATA_OFFSET: usize = 0x158;

/// The address of record `index` of the resource table that starts at
/// `table`.
pub open spec fn spec_record_address(table: u64, index: u32) -> int {
    table + RESOURCE_RECORD_SIZE * index
}

/// Returns the address of record `index` of the resource table at `table`.
pub fn resource_record_address(table: u64, index: u32) -> (a: u64)
    requires
        spec_record_address(table, index) <= u64::MAX,
    ensures
        a == spec_record_address(table, index),
        a == table + 0x90 * (index as int),
{
    table + RESOURCE_RECORD_SIZE * (index as u64)
}

/// The part of a resource name that marks the containers that are served
/// from disk instead of from the game's archives.
pub open spec fn redirect_marker() -> Seq<char> {
    "some_asset_to_mod"@
}

/// Whether the container with this resource name is served from disk.
pub fn should_redirect(resource_name: &str) -> (b: bool)
    ensures
        b <==> contains_run(resource_name@, redirect_marker()),
{
    let hay = chars_of(resource_name);
    let needle = chars_of("some_asset_to_mod");
    contains_chars(&hay, &needle)
}

/// The file object's bytes once it has been set up to serve data that the
/// library keeps alive: timestamp all ones, "owns its data" cleared,
/// everything else as it was.
pub open spec fn marked_file_object(mem: Seq<u8>) -> Seq<u8> {
    Seq::new(mem.len(), |i: int|
        if TIMESTAMP_OFFSET <= i < TIMESTAMP_OFFSET + 4 {
            0xFFu8
        } else if i == OWNS_DATA_OFFSET {
            0u8
        } else {
            mem[i]
        })
}

/// Sets up a redirected file object: its timestamp becomes `0xFFFFFFFF` and
/// its "owns its data" flag `0`, so the game never frees the buffer it was
/// handed.
pub fn mark_file_object(mem: &mut [u8])
    requires
        old(mem)@.len() > OWNS_DATA_OFFSET,
    ensures
        final(mem)@ == marked_file_object(old(mem)@),
        final(mem)@.len() == old(mem)@.len(),
        final(mem)@[0x158] == 0u8,
        forall|k: int| 0 <= k < 4 ==> #[trigger] final(mem)@[0x140 + k] == 0xFFu8,
{
    let mut i: usize = TIMESTAMP_OFFSET;
    while i < TIMESTAMP_OFFSET + 4
        invariant
            TIMESTAMP_OFFSET <= i <= TIMESTAMP_OFFSET + 4,
            mem@.len() == old(mem)@.len(),
            mem@.len() > OWNS_DATA_OFFSET,
            forall|k: int| 0 <= k < mem@.len() ==> #[trigger] mem@[k] == (
                if TIMESTAMP_OFFSET <= k < i { 0xFFu8 } else { old(mem)@[k] }),
        decreases TIMESTAMP_OFFSET + 4 - i,
    {
        mem[i] = 0xFF;
        i = i + 1;
    }
    mem[OWNS_DATA_OFFSET] = 0;
    assert(mem@ =~= marked_file_object(old(mem)@));
}

/// Records lie one record size apart per index, so records at different
/// indices never overlap.
pub proof fn lemma_records_disjoint(table: u64, i: u32, j: u32)
    requires
        i < j,
    ensures
        spec_record_address(table, i) + RESOURCE_RECORD_SIZE <= spec_record_address(table, j),
        spec_record_address(table, j) - spec_record_address(table, i) == RESOURCE_RECORD_SIZE * (j - i),
{
}

/// The first record of a table lies at the table's own address, and each
/// further record one record size after the one before it.
pub proof fn lemma_record_addresses(table: u64, index: u32)
    ensures
        spec_record_address(table, 0) == table as int,
        index < u32::MAX ==> spec_record_address(table, (index + 1) as u32)
            == spec_record_address(table, index) + 0x90,
        spec_record_address(table, index) >= table as int,
{
}

/// Marking writes its values whatever the object held: the four timestamp
/// bytes become `0xFF`, the "owns its data" byte becomes `0`, and the
/// object keeps its length.
pub proof fn lemma_mark_writes(mem: Seq<u8>)
    requires
        mem.len() > OWNS_DATA_OFFSET,
    ensures
        marked_file_object(mem).len() == mem.len(),
        marked_file_object(mem)[0x158] == 0u8,
        forall|k: int| 0 <= k < 4 ==> #[trigger] marked_file_object(mem)[0x140 + k] == 0xFFu8,
{
}

/// Setting up a file object twice is the same as setting it up once, and
/// only the timestamp and the flag change.
pub proof fn lemma_mark_idempotent(mem: Seq<u8>)
    ensures
        marked_file_object(marked_file_object(mem)) == marked_file_object(mem),
        forall|k: int| 0 <= k < mem.len() && !(TIMESTAMP_OFFSET <= k < TIMESTAMP_OFFSET + 4)
            && k != OWNS_DATA_OFFSET ==> #[trigger] marked_file_object(mem)[k] == mem[k],
{
    assert(marked_file_object(marked_file_object(mem)) =~= marked_file_object(mem));
}

} // verus!
