use vstd::prelude::*;

verus! {

/// Addresses in the game's 64-bit address space wrap around, as memflow's `Address`
/// arithmetic does in an optimised build.
pub open spec fn wrap_addr(x: int) -> u64 {
    (x % 0x1_0000_0000_0000_0000int) as u64
}

/// `base + off` in the address space.
pub fn addr_add(base: u64, off: u64) -> (r: u64)
    ensures
        r == wrap_addr(base + off),
{
    base.wrapping_add(off)
}

/// `base + off` for a signed offset, in the address space.
pub fn addr_offset(base: u64, off: i64) -> (r: u64)
    ensures
        r == wrap_addr(base + off),
{
    if off >= 0 {
        base.wrapping_add(off as u64)
    } else {
        let neg: u64 = (0i128 - (off as i128)) as u64;
        base.wrapping_sub(neg)
    }
}

/// Where the entity list keeps the pointer to the chunk of 512 entries that holds `index`.
pub open spec fn list_entry_address(entity_list: u64, index: i32) -> u64 {
    wrap_addr(entity_list + 8 * ((index >> 9u32) as int) + 16)
}

/// Where a chunk of the entity list keeps the entity pointer of `index` (entries are 120
/// bytes apart).
pub open spec fn list_slot_address(list_entry: u64, index: i32) -> u64 {
    wrap_addr(list_entry + 120 * ((index & 0x1FF) as int))
}

/// Where the entity list keeps the chunk pointer for an entity handle: the handle's low 15
/// bits are the entity's index.
pub open spec fn handle_entry_address(entity_list: u64, handle: u32) -> u64 {
    wrap_addr(entity_list + 8 * (((handle & 0x7FFF) >> 9u32) as int) + 16)
}

/// Where a chunk of the entity list keeps the entity pointer for an entity handle.
pub open spec fn handle_slot_address(list_entry: u64, handle: u32) -> u64 {
    wrap_addr(list_entry + 120 * ((handle & 0x1FF) as int))
}

pub fn entry_address(entity_list: u64, index: i32) -> (r: u64)
    ensures
        r == list_entry_address(entity_list, index),
{
    let chunk: i32 = index >> 9u32;
    assert(-4194304 <= index >> 9u32 <= 4194303) by (bit_vector);
    let first = addr_offset(entity_list, (8 * chunk) as i64);
    addr_offset(first, 16)
}

pub fn slot_address(list_entry: u64, index: i32) -> (r: u64)
    ensures
        r == list_slot_address(list_entry, index),
{
    let slot: i32 = index & 0x1FF;
    assert(0 <= index & 0x1FF <= 511) by (bit_vector);
    addr_offset(list_entry, (120 * slot) as i64)
}

pub fn handle_entry(entity_list: u64, handle: u32) -> (r: u64)
    ensures
        r == handle_entry_address(entity_list, handle),
{
    let chunk: u32 = (handle & 0x7FFF) >> 9u32;
    assert((handle & 0x7FFF) >> 9u32 <= 63) by (bit_vector);
    let first = addr_add(entity_list, (8 * chunk) as u64);
    addr_add(first, 16)
}

pub fn handle_slot(list_entry: u64, handle: u32) -> (r: u64)
    ensures
        r == handle_slot_address(list_entry, handle),
{
    let slot: u32 = handle & 0x1FF;
    assert(handle & 0x1FF <= 511) by (bit_vector);
    addr_add(list_entry, (120 * slot) as u64)
}

} // verus!

verus! {

/// Wrapping twice is wrapping once.
pub proof fn lemma_wrap_add(x: int, y: int)
    ensures
        wrap_addr(wrap_addr(x) + y) == wrap_addr(x + y),
{
    vstd::arithmetic::div_mod::lemma_add_mod_noop(x, y, 0x1_0000_0000_0000_0000int);
    vstd::arithmetic::div_mod::lemma_mod_twice(y, 0x1_0000_0000_0000_0000int);
    vstd::arithmetic::div_mod::lemma_mod_bound(x, 0x1_0000_0000_0000_0000int);
    vstd::arithmetic::div_mod::lemma_mod_bound(y, 0x1_0000_0000_0000_0000int);
}

/// An entity-list chunk pointer that stands for no chunk: null or memflow's invalid address.
pub open spec fn entry_missing(list_entry: u64) -> bool {
    list_entry == 0 || list_entry == 0xffff_ffff_ffff_ffff
}

/// Where the entity list keeps the chunk pointer for a handle held as an `i32`.
pub open spec fn masked_entry_address(entity_list: u64, handle: i32) -> u64 {
    wrap_addr(entity_list + 8 * (((handle & 0x7FFF) >> 9u32) as int) + 16)
}

pub fn masked_entry(entity_list: u64, handle: i32) -> (r: u64)
    ensures
        r == masked_entry_address(entity_list, handle),
{
    let chunk: i32 = (handle & 0x7FFF) >> 9u32;
    assert(0 <= (handle & 0x7FFF) >> 9u32 <= 63) by (bit_vector);
    let first = addr_offset(entity_list, (8 * chunk) as i64);
    addr_offset(first, 16)
}

} // verus!
