//! Account addresses.
use vstd::prelude::*;

verus! {

/// The address of an account: 32 bytes.
#[derive(Clone, Copy, PartialEq, Eq, Debug)]
pub struct Pubkey {
    pub bytes: [u8; 32],
}

impl View for Pubkey {
    type V = Seq<u8>;

    open spec fn view(&self) -> Seq<u8> {
        self.bytes@
    }
}

/// The address that 32 bytes denote.
pub open spec fn key_of(s: Seq<u8>) -> Pubkey {
    Pubkey {
        bytes: [
            s[0], s[1], s[2], s[3], s[4], s[5], s[6], s[7], s[8], s[9], s[10], s[11], s[12], s[13],
            s[14], s[15], s[16], s[17], s[18], s[19], s[20], s[21], s[22], s[23], s[24], s[25],
            s[26], s[27], s[28], s[29], s[30], s[31],
        ],
    }
}

/// An address is determined by its bytes.
pub proof fn lemma_key_of_bytes(k: Pubkey)
    ensures
        key_of(k@) == k,
        k@.len() == 32,
{
    assert(key_of(k@).bytes@ =~= k@);
    assert(key_of(k@).bytes =~= k.bytes);
}

impl Pubkey {
    pub fn new(bytes: [u8; 32]) -> (r: Pubkey)
        ensures
            r@ == bytes@,
            r == (Pubkey { bytes }),
    {
        Pubkey { bytes }
    }

    /// Whether two addresses are the same.
    pub fn same(&self, other: &Pubkey) -> (r: bool)
        ensures
            r == (*self == *other),
    {
        let mut i: usize = 0;
        while i < 32
            invariant
                i <= 32,
                forall|j: int| 0 <= j < i ==> self.bytes@[j] == other.bytes@[j],
            decreases 32 - i,
        {
            if self.bytes[i] != other.bytes[i] {
                assert(self.bytes@[i as int] != other.bytes@[i as int]);
                return false;
            }
            i = i + 1;
        }
        assert(self.bytes =~= other.bytes);
        true
    }

    /// Whether this is the address with the given bytes.
    pub fn is_id(&self, id: &[u8; 32]) -> (r: bool)
        ensures
            r == (self.bytes == *id),
    {
        self.same(&Pubkey { bytes: *id })
    }

    /// The address at `off`.
    pub fn at(data: &[u8], off: usize) -> (r: Pubkey)
        requires
            off + 32 <= data.len(),
        ensures
            r == key_of(data@.subrange(off as int, off + 32)),
            r@ == data@.subrange(off as int, off + 32),
    {
        let mut bytes: [u8; 32] = [0u8; 32];
        let mut i: usize = 0;
        while i < 32
            invariant
                i <= 32,
                off + 32 <= data.len(),
                forall|j: int| 0 <= j < i ==> bytes@[j] == data@[off + j],
            decreases 32 - i,
        {
            bytes[i] = data[off + i];
            i = i + 1;
        }
        let r = Pubkey { bytes };
        proof {
            assert(r@ =~= data@.subrange(off as int, off + 32));
            lemma_key_of_bytes(r);
        }
        r
    }
}

/// The system program, and the address that stands for "none": all zero.
pub const SYSTEM_PROGRAM: [u8; 32] = [
    0, 0, 0, 0, 0, 0, 0, 0, 0, 0, 0, 0, 0, 0, 0, 0, 0, 0, 0, 0, 0, 0, 0, 0, 0, 0, 0, 0, 0, 0, 0, 0,
];

/// The SPL Token program, `TokenkegQfeZyiNwAJbNbGKPFXCWuBvf9Ss623VQ5DA`.
pub const TOKEN_PROGRAM: [u8; 32] = [
    6, 221, 246, 225, 215, 101, 161, 147, 217, 203, 225, 70, 206, 235, 121, 172, 28, 180, 133, 237,
    95, 91, 55, 145, 58, 140, 245, 133, 126, 255, 0, 169,
];

/// The BPF loader, `BPFLoader2111111111111111111111111111111111`.
pub const BPF_LOADER: [u8; 32] = [
    2, 168, 246, 145, 78, 136, 161, 110, 57, 90, 225, 40, 148, 143, 250, 105, 86, 147, 55, 104, 24,
    221, 71, 67, 82, 33, 243, 198, 0, 0, 0, 0,
];

/// The upgradeable BPF loader, `BPFLoaderUpgradeab1e11111111111111111111111`.
pub const BPF_LOADER_UPGRADEABLE: [u8; 32] = [
    2, 168, 246, 145, 78, 136, 161, 176, 226, 16, 21, 62, 247, 99, 174, 43, 0, 194, 185, 61, 22,
    193, 36, 210, 192, 83, 122, 16, 4, 128, 0, 0,
];

/// The clock sysvar, `SysvarC1ock11111111111111111111111111111111`.
pub const CLOCK_SYSVAR: [u8; 32] = [
    6, 167, 213, 23, 24, 199, 116, 201, 40, 86, 99, 152, 105, 29, 94, 182, 139, 94, 184, 163, 155,
    75, 109, 92, 115, 85, 91, 33, 0, 0, 0, 0,
];

/// The rent sysvar, `SysvarRent111111111111111111111111111111111`.
pub const RENT_SYSVAR: [u8; 32] = [
    6, 167, 213, 23, 25, 44, 92, 81, 33, 140, 201, 76, 61, 74, 241, 127, 88, 218, 238, 8, 155, 161,
    253, 68, 227, 219, 217, 138, 0, 0, 0, 0,
];

/// The Percolator program, `Perco1ator111111111111111111111111111111111`.
pub const PERCOLATOR_PROGRAM: [u8; 32] = [
    5, 205, 148, 195, 217, 78, 208, 250, 11, 186, 58, 116, 119, 48, 217, 104, 182, 216, 148, 204,
    66, 182, 76, 155, 219, 15, 231, 154, 0, 0, 0, 0,
];

/// The Squads v4 program, `SQDS4ep65T869zMMBKyuUq6aD6EgTu8psMjkvj52pCf`.
pub const SQUADS_PROGRAM: [u8; 32] = [
    6, 129, 196, 206, 71, 226, 35, 104, 184, 177, 85, 94, 200, 135, 175, 9, 46, 252, 126, 251, 182,
    108, 163, 245, 47, 191, 104, 212, 172, 156, 183, 168,
];

/// The rewards program, `Rewards111111111111111111111111111111111111`.
pub const REWARDS_PROGRAM: [u8; 32] = [
    6, 80, 214, 237, 16, 4, 213, 138, 134, 8, 197, 146, 175, 181, 124, 104, 91, 125, 128, 253, 133,
    19, 101, 67, 75, 156, 140, 96, 0, 0, 0, 0,
];

} // verus!
