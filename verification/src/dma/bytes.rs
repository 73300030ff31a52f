use vstd::prelude::*;

verus! {

/// Whether two byte strings are equal (`[u8] == [u8]`).
pub fn bytes_eq(a: &[u8], b: &[u8]) -> (r: bool)
    ensures
        r == (a@ == b@),
{
    if a.len() != b.len() {
        return false;
    }
    let mut i: usize = 0;
    while i < a.len()
        invariant
            a@.len() == b@.len(),
            i <= a@.len(),
            forall|k: int| 0 <= k < i ==> a@[k] == b@[k],
        decreases a@.len() - i,
    {
        if a[i] != b[i] {
            assert(a@[i as int] != b@[i as int]);
            return false;
        }
        i += 1;
    }
    assert(a@ =~= b@);
    true
}

/// The bytes of `"c4"`.
pub open spec fn c4_bytes() -> Seq<u8> {
    seq![99u8, 52u8]
}

/// The bytes of `"cs_player_controller"`.
pub open spec fn cs_player_controller_bytes() -> Seq<u8> {
    seq![99u8, 115u8, 95u8, 112u8, 108u8, 97u8, 121u8, 101u8, 114u8, 95u8,
         99u8, 111u8, 110u8, 116u8, 114u8, 111u8, 108u8, 108u8, 101u8, 114u8]
}

/// The bytes of `"weapon_c4"`.
pub open spec fn weapon_c4_bytes() -> Seq<u8> {
    seq![119u8, 101u8, 97u8, 112u8, 111u8, 110u8, 95u8, 99u8, 52u8]
}

/// A name as a zero-terminated string holds it: its bytes, then a zero byte. A string that
/// starts with these bytes is that name and no longer one.
pub open spec fn zero_terminated(name: Seq<u8>) -> Seq<u8> {
    name.push(0u8)
}

/// Whether `data` is `"c4"`.
pub fn is_c4_name(data: &[u8]) -> (r: bool)
    ensures
        r == (data@ == c4_bytes()),
{
    let expected: [u8; 2] = [99u8, 52u8];
    assert(expected@ =~= c4_bytes());
    bytes_eq(data, &expected)
}

/// Whether `data` is the zero-terminated name `"cs_player_controller"`.
pub fn is_cs_player_controller_name(data: &[u8]) -> (r: bool)
    ensures
        r == (data@ == zero_terminated(cs_player_controller_bytes())),
{
    let expected: [u8; 21] = [99u8, 115u8, 95u8, 112u8, 108u8, 97u8, 121u8, 101u8, 114u8, 95u8,
        99u8, 111u8, 110u8, 116u8, 114u8, 111u8, 108u8, 108u8, 101u8, 114u8, 0u8];
    assert(expected@ =~= zero_terminated(cs_player_controller_bytes()));
    bytes_eq(data, &expected)
}

/// Whether `data` is the zero-terminated name `"weapon_c4"`.
pub fn is_weapon_c4_name(data: &[u8]) -> (r: bool)
    ensures
        r == (data@ == zero_terminated(weapon_c4_bytes())),
{
    let expected: [u8; 10] = [119u8, 101u8, 97u8, 112u8, 111u8, 110u8, 95u8, 99u8, 52u8, 0u8];
    assert(expected@ =~= zero_terminated(weapon_c4_bytes()));
    bytes_eq(data, &expected)
}

} // verus!
