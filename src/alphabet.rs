use vstd::prelude::*;

verus! {

/// Code returned for every character that is not a recognized base.
pub const SENTINEL: u64 = 255;

/// Code of each 8-bit ordinal, indexed by that ordinal.
pub const ALPHABET_ENCODINGS: [u64; 256] = [
    255, 255, 255, 255, 255, 255, 255, 255, 255, 255, 255, 255, 255, 255, 255, 255,
    255, 255, 255, 255, 255, 255, 255, 255, 255, 255, 255, 255, 255, 255, 255, 255,
    255, 255, 255, 255, 255, 255, 255, 255, 255, 255, 255, 255, 255, 255, 255, 255,
    255, 255, 255, 255, 255, 255, 255, 255, 255, 255, 255, 255, 255, 255, 255, 255,
    255, 0, 255, 1, 255, 255, 255, 2, 255, 255, 255, 255, 255, 255, 255, 255,
    255, 255, 255, 255, 3, 255, 255, 255, 255, 255, 255, 255, 255, 255, 255, 255,
    255, 0, 255, 1, 255, 255, 255, 2, 255, 255, 255, 255, 255, 255, 255, 255,
    255, 255, 255, 255, 3, 255, 255, 255, 255, 255, 255, 255, 255, 255, 255, 255,
    255, 255, 255, 255, 255, 255, 255, 255, 255, 255, 255, 255, 255, 255, 255, 255,
    255, 255, 255, 255, 255, 255, 255, 255, 255, 255, 255, 255, 255, 255, 255, 255,
    255, 255, 255, 255, 255, 255, 255, 255, 255, 255, 255, 255, 255, 255, 255, 255,
    255, 255, 255, 255, 255, 255, 255, 255, 255, 255, 255, 255, 255, 255, 255, 255,
    255, 255, 255, 255, 255, 255, 255, 255, 255, 255, 255, 255, 255, 255, 255, 255,
    255, 255, 255, 255, 255, 255, 255, 255, 255, 255, 255, 255, 255, 255, 255, 255,
    255, 255, 255, 255, 255, 255, 255, 255, 255, 255, 255, 255, 255, 255, 255, 255,
    255, 255, 255, 255, 255, 255, 255, 255, 255, 255, 255, 255, 255, 255, 255, 255,
];

/// Whether `c` is one of the four bases, in upper or lower case.
pub open spec fn is_base(c: char) -> bool {
    c == 'A' || c == 'C' || c == 'G' || c == 'T' || c == 'a' || c == 'c' || c == 'g' || c == 't'
}

/// Code of a base character (0 for A, 1 for C, 2 for G, 3 for T, either case),
/// or the sentinel for anything else.
pub open spec fn code_of(c: char) -> u64 {
    if c == 'A' || c == 'a' {
        0
    } else if c == 'C' || c == 'c' {
        1
    } else if c == 'G' || c == 'g' {
        2
    } else if c == 'T' || c == 't' {
        3
    } else {
        SENTINEL
    }
}

/// The ordinals in the table's domain whose entry is a base code.
pub open spec fn base_entries() -> Set<int> {
    Set::new(|i: int| 0 <= i < 256 && ALPHABET_ENCODINGS@[i] <= 3)
}

/// Encodes one character: 0, 1, 2, 3 for the bases A, C, G, T in either case,
/// and the sentinel for every other character. Ordinals beyond the table's
/// domain are mapped to the sentinel without indexing.
pub fn encode_char(c: char) -> (r: u64)
    ensures
        r == code_of(c),
        is_base(c) <==> r <= 3,
        !is_base(c) ==> r == SENTINEL,
        (c as u32) < 256 ==> r == ALPHABET_ENCODINGS@[(c as u32) as int],
{
    let n: u32 = c as u32;
    if n < 256 {
        ALPHABET_ENCODINGS[n as usize]
    } else {
        SENTINEL
    }
}

/// Encoding is deterministic: two calls on the same character give the same code.
pub proof fn lemma_encode_deterministic(c: char, r1: u64, r2: u64)
    requires
        call_ensures(encode_char, (c,), r1),
        call_ensures(encode_char, (c,), r2),
    ensures
        r1 == r2,
{
}

/// The table holds a base code at exactly eight ordinals, those of A, C, G, T
/// and a, c, g, t, and the sentinel at every other ordinal.
pub proof fn lemma_table_complete()
    ensures
        ALPHABET_ENCODINGS@.len() == 256,
        base_entries() == set![
            'A' as int, 'C' as int, 'G' as int, 'T' as int,
            'a' as int, 'c' as int, 'g' as int, 't' as int,
        ],
        base_entries().len() == 8,
        forall|i: int| 0 <= i < 256 && !base_entries().contains(i) ==> ALPHABET_ENCODINGS@[i] == SENTINEL,
{
    let upper = set!['A' as int, 'C' as int, 'G' as int, 'T' as int];
    let bases = upper.insert('a' as int).insert('c' as int).insert('g' as int).insert('t' as int);
    assert(upper.len() == 4);
    assert(bases.len() == 8);
    assert(base_entries() =~= bases);
}

} // verus!
