use crate::mnemonic::{lemma_names_nonempty, spec_name, Mnemonic};
use vstd::prelude::*;

verus! {

/// The declared opcode distribution: each mnemonic with the number of the
/// 256 opcode slots it occupies, in declaration order.
pub open spec fn spec_names_freqs() -> Seq<(Mnemonic, u8)> {
    seq![
        (Mnemonic::IAddRs, 16u8),
        (Mnemonic::IAddM, 7u8),
        (Mnemonic::ISubR, 16u8),
        (Mnemonic::ISubM, 7u8),
        (Mnemonic::IMulR, 16u8),
        (Mnemonic::IMulM, 4u8),
        (Mnemonic::IMulhR, 4u8),
        (Mnemonic::IMulhM, 1u8),
        (Mnemonic::ISmulhR, 4u8),
        (Mnemonic::ISmulhM, 1u8),
        (Mnemonic::IMulRcp, 8u8),
        (Mnemonic::INegR, 2u8),
        (Mnemonic::IXorR, 15u8),
        (Mnemonic::IXorM, 5u8),
        (Mnemonic::IRorR, 8u8),
        (Mnemonic::IRolR, 2u8),
        (Mnemonic::ISwapR, 4u8),
        (Mnemonic::FSwapR, 4u8),
        (Mnemonic::FAddR, 16u8),
        (Mnemonic::FAddM, 5u8),
        (Mnemonic::FSubR, 16u8),
        (Mnemonic::FSubM, 5u8),
        (Mnemonic::FScalR, 6u8),
        (Mnemonic::FMulR, 32u8),
        (Mnemonic::FDivM, 4u8),
        (Mnemonic::FSqrtR, 6u8),
        (Mnemonic::CBranch, 25u8),
        (Mnemonic::CFround, 1u8),
        (Mnemonic::IStore, 16u8),
        (Mnemonic::Nop, 0u8),
    ]
}

/// Sum of the weights of the first `n` entries of a distribution list.
pub open spec fn spec_weight_sum(s: Seq<(Mnemonic, u8)>, n: int) -> int
    decreases n,
{
    if n <= 0 {
        0
    } else {
        spec_weight_sum(s, n - 1) + s[n - 1].1
    }
}

/// The first `n` entries flattened: each mnemonic repeated by its weight,
/// in declaration order.
pub open spec fn spec_flatten(s: Seq<(Mnemonic, u8)>, n: int) -> Seq<Mnemonic>
    decreases n,
{
    if n <= 0 {
        Seq::empty()
    } else {
        spec_flatten(s, n - 1) + Seq::new(s[n - 1].1 as nat, |k: int| s[n - 1].0)
    }
}

/// The full opcode table: the declared distribution flattened.
pub open spec fn spec_table() -> Seq<Mnemonic> {
    spec_flatten(spec_names_freqs(), spec_names_freqs().len() as int)
}

/// The mnemonic an opcode byte resolves to.
pub open spec fn spec_mnemonic_for(opcode: u8) -> Mnemonic {
    spec_table()[opcode as int]
}

/// A flattened prefix is as long as the sum of the weights it covers.
pub proof fn lemma_flatten_len(s: Seq<(Mnemonic, u8)>, n: int)
    requires
        0 <= n,
    ensures
        spec_flatten(s, n).len() == spec_weight_sum(s, n),
    decreases n,
{
    if n > 0 {
        lemma_flatten_len(s, n - 1);
    }
}

/// Weight-sum invariant: the declared weights sum to exactly 256.
pub proof fn lemma_declared_weight_sum()
    ensures
        spec_weight_sum(spec_names_freqs(), spec_names_freqs().len() as int) == 256,
{
    reveal_with_fuel(spec_weight_sum, 31);
    assert(spec_weight_sum(spec_names_freqs(), 30) == 256);
}

/// Table totality: the table has exactly 256 entries, one per opcode byte,
/// and every entry is a mnemonic with non-empty text.
pub proof fn lemma_table_totality()
    ensures
        spec_table().len() == 256,
        forall|i: int| 0 <= i < 256 ==> spec_name(#[trigger] spec_table()[i]).len() > 0,
{
    lemma_declared_weight_sum();
    lemma_flatten_len(spec_names_freqs(), spec_names_freqs().len() as int);
    lemma_names_nonempty();
}

/// The declared (mnemonic, weight) list in declaration order.
pub fn names_freqs() -> (v: Vec<(Mnemonic, u8)>)
    ensures
        v@ == spec_names_freqs(),
{
    let mut v: Vec<(Mnemonic, u8)> = Vec::new();
    v.push((Mnemonic::IAddRs, 16));
    v.push((Mnemonic::IAddM, 7));
    v.push((Mnemonic::ISubR, 16));
    v.push((Mnemonic::ISubM, 7));
    v.push((Mnemonic::IMulR, 16));
    v.push((Mnemonic::IMulM, 4));
    v.push((Mnemonic::IMulhR, 4));
    v.push((Mnemonic::IMulhM, 1));
    v.push((Mnemonic::ISmulhR, 4));
    v.push((Mnemonic::ISmulhM, 1));
    v.push((Mnemonic::IMulRcp, 8));
    v.push((Mnemonic::INegR, 2));
    v.push((Mnemonic::IXorR, 15));
    v.push((Mnemonic::IXorM, 5));
    v.push((Mnemonic::IRorR, 8));
    v.push((Mnemonic::IRolR, 2));
    v.push((Mnemonic::ISwapR, 4));
    v.push((Mnemonic::FSwapR, 4));
    v.push((Mnemonic::FAddR, 16));
    v.push((Mnemonic::FAddM, 5));
    v.push((Mnemonic::FSubR, 16));
    v.push((Mnemonic::FSubM, 5));
    v.push((Mnemonic::FScalR, 6));
    v.push((Mnemonic::FMulR, 32));
    v.push((Mnemonic::FDivM, 4));
    v.push((Mnemonic::FSqrtR, 6));
    v.push((Mnemonic::CBranch, 25));
    v.push((Mnemonic::CFround, 1));
    v.push((Mnemonic::IStore, 16));
    v.push((Mnemonic::Nop, 0));
    proof {
        assert(v@ =~= spec_names_freqs());
    }
    v
}

/// Builds the flattened lookup table from a (mnemonic, weight) list, by
/// writing `weight` consecutive copies of each mnemonic into the next free
/// slots. The table is returned only when the weights sum to exactly 256;
/// any other sum is a configuration error and yields `None`.
pub fn build_weighted_table(pairs: &Vec<(Mnemonic, u8)>) -> (r: Option<Vec<Mnemonic>>)
    ensures
        r is Some <==> spec_weight_sum(pairs@, pairs@.len() as int) == 256,
        r is Some ==> r->Some_0@ == spec_flatten(pairs@, pairs@.len() as int),
{
    let mut arr: Vec<Mnemonic> = Vec::new();
    let mut i: usize = 0;
    while i < pairs.len()
        invariant
            i <= pairs.len(),
            arr@ == spec_flatten(pairs@, i as int),
        decreases pairs.len() - i,
    {
        let (name, freq) = pairs[i];
        let mut j: u8 = 0;
        proof {
            assert(arr@ =~= spec_flatten(pairs@, i as int) + Seq::new(0nat, |k: int| name));
        }
        while j < freq
            invariant
                j <= freq,
                i < pairs.len(),
                pairs@[i as int] == (name, freq),
                arr@ == spec_flatten(pairs@, i as int) + Seq::new(j as nat, |k: int| name),
            decreases freq - j,
        {
            arr.push(name);
            j += 1;
            proof {
                assert(arr@ =~= spec_flatten(pairs@, i as int) + Seq::new(j as nat, |k: int| name));
            }
        }
        i += 1;
        proof {
            assert(arr@ =~= spec_flatten(pairs@, i as int));
        }
    }
    proof {
        lemma_flatten_len(pairs@, pairs@.len() as int);
    }
    if arr.len() == 256 {
        Some(arr)
    } else {
        None
    }
}

/// Builds the full 256-entry opcode table from the declared distribution.
/// The construction is total because the declared weights sum to exactly
/// 256.
pub fn build_instruction_array() -> (arr: Vec<Mnemonic>)
    ensures
        arr@ == spec_table(),
        arr@.len() == 256,
{
    let pairs = names_freqs();
    proof {
        lemma_declared_weight_sum();
        lemma_table_totality();
    }
    match build_weighted_table(&pairs) {
        Some(arr) => arr,
        None => vstd::pervasive::unreached(),
    }
}

/// The process-wide opcode-to-mnemonic table: 256 entries, one per opcode
/// byte, built once from the declared weighted distribution and never
/// mutated.
pub struct OpcodeDistribution {
    table: Vec<Mnemonic>,
}

impl OpcodeDistribution {
    /// Every value of this type holds exactly the declared flattening.
    #[verifier::type_invariant]
    closed spec fn wf(self) -> bool {
        self.table@ == spec_table()
    }

    /// Builds the distribution table.
    pub fn new() -> (d: Self) {
        OpcodeDistribution { table: build_instruction_array() }
    }

    /// Constant-time lookup of the mnemonic an opcode byte selects. The
    /// result is a function of the opcode alone: repeated calls, on this or
    /// any other distribution value, return the same mnemonic.
    pub fn mnemonic_for(&self, opcode: u8) -> (m: Mnemonic)
        ensures
            m == spec_mnemonic_for(opcode),
            spec_name(m).len() > 0,
    {
        proof {
            use_type_invariant(self);
            lemma_table_totality();
        }
        self.table[opcode as usize]
    }
}

} // verus!
