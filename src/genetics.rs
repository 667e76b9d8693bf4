//! The genetics engine: gender from a payload, parent pairing and payload mixing.
use vstd::prelude::*;

verus! {

broadcast use vstd::array::group_array_axioms;

/// The derived gender of a creature.
#[derive(Clone, Copy, Debug, PartialEq, Eq, Structural)]
pub enum Gender {
    Male,
    Female,
}

/// A creature, identified by its immutable 16-byte genetic payload.
#[derive(Clone, Copy, Debug, PartialEq, Eq)]
pub struct Kitty(pub [u8; 16]);

/// The gender that a payload whose first byte is `b` carries: even is male, odd is female.
pub open spec fn gender_of_byte(b: u8) -> Gender {
    if b % 2 == 0 {
        Gender::Male
    } else {
        Gender::Female
    }
}

impl Kitty {
    /// The gender of this creature.
    pub open spec fn gender(&self) -> Gender {
        gender_of_byte(self.0[0])
    }

    /// Derives the gender from the parity of the first payload byte.
    pub fn get_gender(&self) -> (r: Gender)
        ensures
            r == self.gender(),
    {
        if self.0[0] % 2 == 0 {
            Gender::Male
        } else {
            Gender::Female
        }
    }
}

/// One byte of a mixed payload: the mother's bits where the mixer is clear plus the
/// father's bits where it is set.
pub open spec fn mix_byte(mixer: u8, mother: u8, father: u8) -> int {
    (!mixer & mother) + (mixer & father)
}

/// The payload that `mixer` makes of a mother's and a father's payloads.
pub open spec fn mixed(mixer: Seq<u8>, mother: Seq<u8>, father: Seq<u8>) -> Seq<u8> {
    Seq::new(mixer.len(), |i: int| mix_byte(mixer[i], mother[i], father[i]) as u8)
}

/// The two masked halves never overlap, so their sum fits in a byte.
pub proof fn lemma_mix_byte_fits(mixer: u8, mother: u8, father: u8)
    ensures
        0 <= mix_byte(mixer, mother, father) <= 255,
{
    assert((!mixer & mother) as u16 + (mixer & father) as u16 <= 255u16) by (bit_vector);
}

/// The payload that `mixer` makes of two parent payloads, as an array.
pub open spec fn mix_payload(mixer: [u8; 16], mother: [u8; 16], father: [u8; 16]) -> [u8; 16] {
    choose|r: [u8; 16]| r@ == mixed(mixer@, mother@, father@)
}

/// Mixes two parent payloads byte by byte under the control of `mixer`.
pub fn mix_dna(mixer: [u8; 16], dna1: [u8; 16], dna2: [u8; 16]) -> (r: [u8; 16])
    ensures
        r == mix_payload(mixer, dna1, dna2),
        r@ == mixed(mixer@, dna1@, dna2@),
        forall|i: int| 0 <= i < 16 ==> r[i] as int == mix_byte(mixer[i], dna1[i], dna2[i]),
{
    let mut res: [u8; 16] = [0u8; 16];
    let mut i: usize = 0;
    while i < 16
        invariant
            0 <= i <= 16,
            forall|j: int| 0 <= j < i ==> res[j] as int == mix_byte(mixer[j], dna1[j], dna2[j]),
        decreases 16 - i,
    {
        let m = mixer[i];
        let a = dna1[i];
        let b = dna2[i];
        proof {
            lemma_mix_byte_fits(m, a, b);
        }
        res[i] = (!m & a) + (m & b);
        i = i + 1;
    }
    assert(res@ =~= mixed(mixer@, dna1@, dna2@));
    assert(res =~= mix_payload(mixer, dna1, dna2));
    res
}

/// Two creatures ordered female first and male second, or nothing when they share a gender.
pub open spec fn female_male(kitty1: Kitty, kitty2: Kitty) -> Option<(Kitty, Kitty)> {
    match (kitty1.gender(), kitty2.gender()) {
        (Gender::Female, Gender::Male) => Some((kitty1, kitty2)),
        (Gender::Male, Gender::Female) => Some((kitty2, kitty1)),
        _ => None,
    }
}

/// Pairs two creatures for breeding: the female first, the male second.
pub fn get_female_male<'a>(kitty1: &'a Kitty, kitty2: &'a Kitty) -> (r: Option<
    (&'a Kitty, &'a Kitty),
>)
    ensures
        match r {
            Some((f, m)) => female_male(*kitty1, *kitty2) == Some((*f, *m)),
            None => female_male(*kitty1, *kitty2) is None,
        },
{
    match (kitty1.get_gender(), kitty2.get_gender()) {
        (Gender::Female, Gender::Male) => Some((kitty1, kitty2)),
        (Gender::Male, Gender::Female) => Some((kitty2, kitty1)),
        _ => None,
    }
}

/// A clear mixer byte keeps the mother's byte and a full one takes the father's.
pub proof fn lemma_mix_byte_extremes(mother: u8, father: u8)
    ensures
        mix_byte(0u8, mother, father) == mother,
        mix_byte(0xffu8, mother, father) == father,
{
    assert((!0u8 & mother) == mother && (0u8 & father) == 0u8) by (bit_vector);
    assert((!0xffu8 & mother) == 0u8 && (0xffu8 & father) == father) by (bit_vector);
}

/// A mixer of all zero bytes gives the mother's payload.
pub proof fn lemma_mix_clear_mixer(mixer: [u8; 16], mother: [u8; 16], father: [u8; 16])
    requires
        forall|i: int| 0 <= i < 16 ==> mixer[i] == 0u8,
    ensures
        mix_payload(mixer, mother, father) == mother,
{
    assert forall|i: int| 0 <= i < 16 implies mix_byte(mixer[i], mother[i], father[i])
        == mother[i] by {
        lemma_mix_byte_extremes(mother[i], father[i]);
    }
    assert(mixed(mixer@, mother@, father@) =~= mother@);
    assert(mix_payload(mixer, mother, father) =~= mother);
}

/// A mixer of all 0xFF bytes gives the father's payload.
pub proof fn lemma_mix_full_mixer(mixer: [u8; 16], mother: [u8; 16], father: [u8; 16])
    requires
        forall|i: int| 0 <= i < 16 ==> mixer[i] == 0xffu8,
    ensures
        mix_payload(mixer, mother, father) == father,
{
    assert forall|i: int| 0 <= i < 16 implies mix_byte(mixer[i], mother[i], father[i])
        == father[i] by {
        lemma_mix_byte_extremes(mother[i], father[i]);
    }
    assert(mixed(mixer@, mother@, father@) =~= father@);
    assert(mix_payload(mixer, mother, father) =~= father);
}

/// The gender depends on nothing but the parity of the first payload byte.
pub proof fn lemma_gender_by_parity(a: Kitty, b: Kitty)
    requires
        a.0[0] % 2 == b.0[0] % 2,
    ensures
        a.gender() == b.gender(),
{
}

/// Pairing ignores the order of its arguments, yields a female then a male, and fails
/// exactly when both share a gender.
pub proof fn lemma_female_male_order(kitty1: Kitty, kitty2: Kitty)
    ensures
        female_male(kitty1, kitty2) == female_male(kitty2, kitty1),
        female_male(kitty1, kitty2) is None <==> kitty1.gender() == kitty2.gender(),
        female_male(kitty1, kitty2) matches Some((f, m)) ==> f.gender() == Gender::Female
            && m.gender() == Gender::Male,
{
}

} // verus!
