//! Octet-wise arithmetic on IPv4 addresses and segment-wise exclusive or on
//! IPv6 addresses. Addresses are held as their octets (or segments), most
//! significant first.

use vstd::prelude::*;

verus! {

/// The destination query: a source address and a key, as octets.
pub struct Task1 {
    pub from: [u8; 4],
    pub key: [u8; 4],
}

/// The key query: a source and a destination address, as octets.
pub struct Task2 {
    pub from: [u8; 4],
    pub to: [u8; 4],
}

/// The IPv6 query: a source address with an optional destination and an
/// optional key, as segments.
pub struct Task3 {
    pub from: [u16; 8],
    pub to: Option<[u16; 8]>,
    pub key: Option<[u16; 8]>,
}

/// Addition modulo 256.
pub open spec fn wrap_add(a: int, b: int) -> int {
    (a + b) % 256
}

/// Subtraction modulo 256 (`%` on `int` is Euclidean, so this is in 0..256).
pub open spec fn wrap_sub(a: int, b: int) -> int {
    (a - b) % 256
}

/// `f + k`, wrapping around at 256.
pub fn add_overflow(f: u8, k: u8) -> (r: u8)
    ensures
        r as int == wrap_add(f as int, k as int),
{
    ((f as u16 + k as u16) % 256) as u8
}

/// `t - f`, wrapping around at 256.
pub fn sub_overflow(t: u8, f: u8) -> (r: u8)
    ensures
        r as int == wrap_sub(t as int, f as int),
{
    if t >= f {
        t - f
    } else {
        (256 - (f as u16) + (t as u16)) as u8
    }
}

/// The destination address: each octet of `from` plus the matching octet of
/// `key`, modulo 256.
pub fn task1(query: &Task1) -> (r: [u8; 4])
    ensures
        forall|i: int| 0 <= i < 4 ==> r[i] as int == wrap_add(query.from[i] as int, query.key[i] as int),
{
    let mut result: [u8; 4] = [0u8; 4];
    let mut i: usize = 0;
    while i < 4
        invariant
            0 <= i <= 4,
            forall|j: int| 0 <= j < i ==> result[j] as int == wrap_add(query.from[j] as int, query.key[j] as int),
        decreases 4 - i,
    {
        result[i] = add_overflow(query.from[i], query.key[i]);
        i = i + 1;
    }
    result
}

/// The key that takes `from` to `to`: each octet of `to` minus the matching
/// octet of `from`, modulo 256.
pub fn task2(query: &Task2) -> (r: [u8; 4])
    ensures
        forall|i: int| 0 <= i < 4 ==> r[i] as int == wrap_sub(query.to[i] as int, query.from[i] as int),
{
    let mut result: [u8; 4] = [0u8; 4];
    let mut i: usize = 0;
    while i < 4
        invariant
            0 <= i <= 4,
            forall|j: int| 0 <= j < i ==> result[j] as int == wrap_sub(query.to[j] as int, query.from[j] as int),
        decreases 4 - i,
    {
        result[i] = sub_overflow(query.to[i], query.from[i]);
        i = i + 1;
    }
    result
}

/// Segment-wise exclusive or of two IPv6 addresses.
pub fn xor(from: [u16; 8], to: [u16; 8]) -> (r: [u16; 8])
    ensures
        forall|i: int| 0 <= i < 8 ==> r[i] == to[i] ^ from[i],
{
    let mut result: [u16; 8] = [0u16; 8];
    let mut i: usize = 0;
    while i < 8
        invariant
            0 <= i <= 8,
            forall|j: int| 0 <= j < i ==> result[j] == to[j] ^ from[j],
        decreases 8 - i,
    {
        result[i] = to[i] ^ from[i];
        i = i + 1;
    }
    result
}

/// The IPv6 destination: `from` xor `key`; `None` when the query has no key.
pub fn task1_v6(query: &Task3) -> (r: Option<[u16; 8]>)
    ensures
        r is Some <==> query.key is Some,
        r is Some ==> forall|i: int| 0 <= i < 8 ==> r->0[i] == query.key->0[i] ^ query.from[i],
{
    match query.key {
        Some(key) => Some(xor(query.from, key)),
        None => None,
    }
}

/// The IPv6 key: `from` xor `to`; `None` when the query has no destination.
pub fn task2_v6(query: &Task3) -> (r: Option<[u16; 8]>)
    ensures
        r is Some <==> query.to is Some,
        r is Some ==> forall|i: int| 0 <= i < 8 ==> r->0[i] == query.to->0[i] ^ query.from[i],
{
    match query.to {
        Some(to) => Some(xor(query.from, to)),
        None => None,
    }
}

} // verus!
