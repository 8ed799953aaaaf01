use vstd::prelude::*;

verus! {

/// A collectible entity: an immutable 16-byte genetic payload. The record
/// is identified solely by the (owner, identifier) key it is stored under;
/// two entities with identical payloads are distinct records.
#[derive(Clone, Copy, PartialEq, Eq, Debug)]
pub struct Kitty(pub [u8; 16]);

impl View for Kitty {
    type V = Seq<u8>;

    open spec fn view(&self) -> Seq<u8> {
        self.0@
    }
}

/// The binary gender attribute, derived on demand from the payload and
/// never stored.
#[derive(Clone, Copy, PartialEq, Eq, Structural, Debug)]
pub enum KittyGender {
    Male,
    Female,
}

/// The gender encoded by a payload: even first byte means male, odd female.
pub open spec fn spec_gender(dna: Seq<u8>) -> KittyGender {
    if dna[0] % 2 == 0 {
        KittyGender::Male
    } else {
        KittyGender::Female
    }
}

impl Kitty {
    /// Derive the gender from the parity of the first payload byte.
    pub fn gender(&self) -> (r: KittyGender)
        ensures
            r == spec_gender(self@),
    {
        if self.0[0] % 2 == 0 {
            KittyGender::Male
        } else {
            KittyGender::Female
        }
    }
}

/// The bitwise crossover rule on one byte: each bit of the result equals the
/// bit of `dna1` where the selector bit is 0, and the bit of `dna2` where it
/// is 1.
pub open spec fn spec_combine(dna1: u8, dna2: u8, selector: u8) -> u8 {
    (!selector & dna1) | (selector & dna2)
}

/// The crossover applied independently at every byte position.
pub open spec fn spec_combine_payload(dna1: Seq<u8>, dna2: Seq<u8>, selector: Seq<u8>) -> Seq<u8> {
    Seq::new(dna1.len(), |i: int| spec_combine(dna1[i], dna2[i], selector[i]))
}

/// Combine one byte of each parent's payload under a selector byte.
pub fn combine_dna(dna1: u8, dna2: u8, selector: u8) -> (r: u8)
    ensures
        r == spec_combine(dna1, dna2, selector),
{
    (!selector & dna1) | (selector & dna2)
}

/// Combine two parent payloads byte by byte under a selector payload.
pub fn combine_payloads(dna1: &[u8; 16], dna2: &[u8; 16], selector: &[u8; 16]) -> (r: [u8; 16])
    ensures
        r@ == spec_combine_payload(dna1@, dna2@, selector@),
{
    let mut new_dna = [0u8; 16];
    for i in 0..16usize
        invariant
            forall|j: int| 0 <= j < i ==> new_dna@[j] == spec_combine(dna1@[j], dna2@[j], selector@[j]),
    {
        new_dna[i] = combine_dna(dna1[i], dna2[i], selector[i]);
    }
    proof {
        assert(new_dna@ =~= spec_combine_payload(dna1@, dna2@, selector@));
    }
    new_dna
}

/// Gender depends on nothing but the low bit of the first payload byte:
/// payloads whose first bytes agree on that bit have the same gender.
pub proof fn lemma_gender_low_bit(a: Seq<u8>, b: Seq<u8>)
    requires
        a[0] & 1 == b[0] & 1,
    ensures
        spec_gender(a) == spec_gender(b),
        spec_gender(a) == KittyGender::Male || spec_gender(a) == KittyGender::Female,
{
    let x = a[0];
    let y = b[0];
    assert(x & 1 == y & 1 ==> (x % 2 == 0 <==> y % 2 == 0)) by (bit_vector);
}

/// An all-zero selector reproduces the first parent's byte exactly.
pub proof fn lemma_combine_selector_zero(dna1: u8, dna2: u8)
    ensures
        spec_combine(dna1, dna2, 0x00) == dna1,
{
    assert((!0x00u8 & dna1) | (0x00u8 & dna2) == dna1) by (bit_vector);
}

/// An all-one selector reproduces the second parent's byte exactly.
pub proof fn lemma_combine_selector_ones(dna1: u8, dna2: u8)
    ensures
        spec_combine(dna1, dna2, 0xff) == dna2,
{
    assert((!0xffu8 & dna1) | (0xffu8 & dna2) == dna2) by (bit_vector);
}

} // verus!
