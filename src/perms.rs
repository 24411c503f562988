use vstd::prelude::*;
use vstd::arithmetic::power2::{lemma2_to64, pow2};
use vstd::string::StringExecFns;

verus! {

/// Whether bit `bit` (0 = least significant) of `mode` is set.
pub open spec fn bit_set(mode: u32, bit: int) -> bool {
    (mode as int / bit_weight(bit)) % 2 == 1
}

/// Two to the power `bit`, for the nine permission bits `0 <= bit < 9`.
pub open spec fn bit_weight(bit: int) -> int {
    if bit <= 0 {
        1
    } else if bit == 1 {
        2
    } else if bit == 2 {
        4
    } else if bit == 3 {
        8
    } else if bit == 4 {
        16
    } else if bit == 5 {
        32
    } else if bit == 6 {
        64
    } else if bit == 7 {
        128
    } else {
        256
    }
}

/// The letter that a set bit shows at position `pos` (0-based) of `rwxrwxrwx`.
pub open spec fn letter_at(pos: int) -> char {
    if pos % 3 == 0 {
        'r'
    } else if pos % 3 == 1 {
        'w'
    } else {
        'x'
    }
}

/// Position `pos` of the symbolic string: its letter when the matching bit
/// (bit `8 - pos`) is set, else `-`.
pub open spec fn permission_char(mode: u32, pos: int) -> char {
    if bit_set(mode, 8 - pos) {
        letter_at(pos)
    } else {
        '-'
    }
}

/// The nine-character `rwxrwxrwx` rendering of the low nine bits of `mode`.
pub open spec fn permission_string(mode: u32) -> Seq<char> {
    Seq::new(9, |pos: int| permission_char(mode, pos))
}

proof fn lemma_bit_shift(mode: u32, b: u32)
    requires
        b < 9,
    ensures
        ((mode >> b) & 1u32 == 1u32) == bit_set(mode, b as int),
{
    vstd::bits::lemma_u32_shr_is_div(mode, b);
    lemma2_to64();
    assert(pow2(b as nat) == bit_weight(b as int));
    let q: u32 = mode >> b;
    assert((q & 1u32 == 1u32) == (q % 2 == 1)) by (bit_vector);
}

/// Renders the permission bits of `mode` as `rwxrwxrwx`, each letter replaced
/// by `-` where its bit is clear. Bits above the ninth are ignored.
pub fn format_permissions(mode: u32) -> (r: String)
    ensures
        r@ == permission_string(mode),
{
    let mut result = String::new();
    let mut i: u32 = 0;
    while i < 9
        invariant
            i <= 9,
            result@.len() == i,
            forall|p: int| 0 <= p < i ==> result@[p] == permission_char(mode, p),
        decreases 9 - i,
    {
        let b: u32 = 8 - i;
        proof {
            lemma_bit_shift(mode, b);
        }
        let set = (mode >> b) & 1 == 1;
        let ghost before = result@;
        if !set {
            result.append("-");
            proof { reveal_strlit("-"); }
        } else if i % 3 == 0 {
            result.append("r");
            proof { reveal_strlit("r"); }
        } else if i % 3 == 1 {
            result.append("w");
            proof { reveal_strlit("w"); }
        } else {
            result.append("x");
            proof { reveal_strlit("x"); }
        }
        assert(result@ == before.push(permission_char(mode, i as int)));
        i = i + 1;
    }
    assert(result@ =~= permission_string(mode));
    result
}

/// The symbolic string is nine characters drawn from `r`, `w`, `x` and `-`,
/// and each write and execute position shows its letter exactly when the
/// matching bit of the mode is set.
pub proof fn lemma_permission_string_shape(mode: u32)
    ensures
        permission_string(mode).len() == 9,
        forall|p: int|
            0 <= p < 9 ==> {
                let c = #[trigger] permission_string(mode)[p];
                c == 'r' || c == 'w' || c == 'x' || c == '-'
            },
        (permission_string(mode)[1] == 'w') == (mode & 0o200 != 0),
        (permission_string(mode)[2] == 'x') == (mode & 0o100 != 0),
        (permission_string(mode)[4] == 'w') == (mode & 0o020 != 0),
        (permission_string(mode)[5] == 'x') == (mode & 0o010 != 0),
        (permission_string(mode)[7] == 'w') == (mode & 0o002 != 0),
        (permission_string(mode)[8] == 'x') == (mode & 0o001 != 0),
{
    lemma_bit_shift(mode, 7);
    lemma_bit_shift(mode, 6);
    lemma_bit_shift(mode, 4);
    lemma_bit_shift(mode, 3);
    lemma_bit_shift(mode, 1);
    lemma_bit_shift(mode, 0);
    assert(((mode >> 7u32) & 1u32 == 1u32) == (mode & 0o200u32 != 0)) by (bit_vector);
    assert(((mode >> 6u32) & 1u32 == 1u32) == (mode & 0o100u32 != 0)) by (bit_vector);
    assert(((mode >> 4u32) & 1u32 == 1u32) == (mode & 0o020u32 != 0)) by (bit_vector);
    assert(((mode >> 3u32) & 1u32 == 1u32) == (mode & 0o010u32 != 0)) by (bit_vector);
    assert(((mode >> 1u32) & 1u32 == 1u32) == (mode & 0o002u32 != 0)) by (bit_vector);
    assert(((mode >> 0u32) & 1u32 == 1u32) == (mode & 0o001u32 != 0)) by (bit_vector);
}

} // verus!
