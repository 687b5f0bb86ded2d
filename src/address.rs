//! Deterministic derivation of the chamber's addresses from stable seeds.

use anchor_lang::prelude::Pubkey;
use vstd::prelude::*;

verus! {

/// A 32-byte ledger address.
#[derive(Debug, Clone, Copy, PartialEq, Eq)]
pub struct Address {
    pub bytes: [u8; 32],
}

impl View for Address {
    type V = Seq<u8>;

    open spec fn view(&self) -> Seq<u8> {
        self.bytes@
    }
}

impl Address {
    /// Whether two addresses hold the same bytes.
    pub fn same_as(&self, other: &Address) -> (r: bool)
        ensures
            r == (self@ == other@),
    {
        let mut i: usize = 0;
        while i < 32
            invariant
                i <= 32,
                self@.len() == 32,
                other@.len() == 32,
                forall|j: int| 0 <= j < i ==> self@[j] == other@[j],
            decreases 32 - i,
        {
            if self.bytes[i] != other.bytes[i] {
                return false;
            }
            i = i + 1;
        }
        assert(self@ =~= other@);
        true
    }

    /// The bytes of the address, as a seed.
    pub fn to_vec(&self) -> (r: Vec<u8>)
        ensures
            r@ == self@,
    {
        let mut v: Vec<u8> = Vec::new();
        let mut i: usize = 0;
        while i < 32
            invariant
                i <= 32,
                self@.len() == 32,
                v@ == self@.subrange(0, i as int),
            decreases 32 - i,
        {
            v.push(self.bytes[i]);
            i = i + 1;
            assert(v@ =~= self@.subrange(0, i as int));
        }
        assert(self@.subrange(0, 32) =~= self@);
        v
    }
}

/// Seed prefix of the chamber record: the bytes of `chamber`.
pub open spec fn chamber_prefix() -> Seq<u8> {
    seq![99u8, 104u8, 97u8, 109u8, 98u8, 101u8, 114u8]
}

/// Seed prefix of the chamber authority: the bytes of `chamber_authority`.
pub open spec fn chamber_authority_prefix() -> Seq<u8> {
    seq![
        99u8, 104u8, 97u8, 109u8, 98u8, 101u8, 114u8, 95u8, 97u8,
        117u8, 116u8, 104u8, 111u8, 114u8, 105u8, 116u8, 121u8,
    ]
}

/// Seed prefix of a user position: the bytes of `user_position`.
pub open spec fn user_position_prefix() -> Seq<u8> {
    seq![117u8, 115u8, 101u8, 114u8, 95u8, 112u8, 111u8, 115u8, 105u8, 116u8, 105u8, 111u8, 110u8]
}

/// The program under whose id every address of the chamber is derived.
pub open spec fn program_id_spec() -> Seq<u8> {
    seq![
        9u8, 41u8, 194u8, 57u8, 64u8, 61u8, 145u8, 164u8, 98u8, 21u8, 140u8, 75u8, 62u8, 249u8,
        214u8, 166u8, 33u8, 84u8, 201u8, 77u8, 78u8, 88u8, 104u8, 104u8, 39u8, 160u8, 29u8, 10u8,
        227u8, 143u8, 85u8, 29u8,
    ]
}

/// The seed prefix of the chamber record.
pub fn chamber_prefix_bytes() -> (r: Vec<u8>)
    ensures
        r@ == chamber_prefix(),
{
    let r: Vec<u8> = vec![99, 104, 97, 109, 98, 101, 114];
    assert(r@ =~= chamber_prefix());
    r
}

/// The seed prefix of the chamber authority.
pub fn chamber_authority_prefix_bytes() -> (r: Vec<u8>)
    ensures
        r@ == chamber_authority_prefix(),
{
    let r: Vec<u8> = vec![99, 104, 97, 109, 98, 101, 114, 95, 97, 117, 116, 104, 111, 114, 105, 116, 121];
    assert(r@ =~= chamber_authority_prefix());
    r
}

/// The seed prefix of a user position.
pub fn user_position_prefix_bytes() -> (r: Vec<u8>)
    ensures
        r@ == user_position_prefix(),
{
    let r: Vec<u8> = vec![117, 115, 101, 114, 95, 112, 111, 115, 105, 116, 105, 111, 110];
    assert(r@ =~= user_position_prefix());
    r
}

/// The id of this program.
pub fn program_id() -> (r: Address)
    ensures
        r@ == program_id_spec(),
{
    let r = Address {
        bytes: [
            9, 41, 194, 57, 64, 61, 145, 164, 98, 21, 140, 75, 62, 249, 214, 166, 33, 84, 201, 77,
            78, 88, 104, 104, 39, 160, 29, 10, 227, 143, 85, 29,
        ],
    };
    assert(r@ =~= program_id_spec());
    r
}

/// The seeds as byte sequences.
pub open spec fn seeds_view(seeds: Seq<Vec<u8>>) -> Seq<Seq<u8>> {
    seeds.map_values(|s: Vec<u8>| s@)
}

/// A derived address and its bump seed, as plain values.
pub open spec fn derived_view(r: Option<(Address, u8)>) -> Option<(Seq<u8>, u8)> {
    match r {
        Some((a, b)) => Some((a@, b)),
        None => None,
    }
}

/// Whether `r` is the canonical derivation of `seeds`: the address that the highest bump
/// seed giving one gives, with that bump (never 0); `None` where no bump from 1 up gives one.
pub open spec fn is_canonical(seeds: Seq<Seq<u8>>, program_id: Seq<u8>, r: Option<(Seq<u8>, u8)>) -> bool {
    match r {
        Some((a, b)) => b >= 1 && seeded_address(seeds.push(seq![b]), program_id) == Some(a) && forall|c: u8|
            c > b ==> (#[trigger] seeded_address(seeds.push(seq![c]), program_id)) is None,
        None => forall|c: u8| c >= 1 ==> (#[trigger] seeded_address(seeds.push(seq![c]), program_id)) is None,
    }
}

/// Relies on `Pubkey::try_find_program_address` of solana-program: it tries
/// `create_program_address` on the seeds with each bump seed from 255 down to 1 and returns
/// the first address with its bump, or `None`, without panicking, where none gives one.
#[verifier::external_body]
fn find_program_address(seeds: &Vec<Vec<u8>>, program_id: &Address) -> (r: Option<(Address, u8)>)
    ensures
        is_canonical(seeds_view(seeds@), program_id@, derived_view(r)),
{
    let slices: Vec<&[u8]> = seeds.iter().map(|s| s.as_slice()).collect();
    Pubkey::try_find_program_address(&slices, &Pubkey::new_from_array(program_id.bytes)).map(
        |(key, bump)| (Address { bytes: key.to_bytes() }, bump),
    )
}

/// The program address of a seed tuple that already ends in its bump seed, or `None` where
/// those seeds give no valid address.
pub uninterp spec fn seeded_address(seeds: Seq<Seq<u8>>, program_id: Seq<u8>) -> Option<Seq<u8>>;

/// The address as plain bytes.
pub open spec fn address_view(r: Option<Address>) -> Option<Seq<u8>> {
    match r {
        Some(a) => Some(a@),
        None => None,
    }
}

/// Relies on `Pubkey::create_program_address` of solana-program: a function of the seeds and
/// the program id alone, an error, without panicking, where the hash lies on the curve or
/// a seed is too long.
#[verifier::external_body]
fn create_program_address(seeds: &Vec<Vec<u8>>, program_id: &Address) -> (r: Option<Address>)
    ensures
        address_view(r) == seeded_address(seeds_view(seeds@), program_id@),
{
    let slices: Vec<&[u8]> = seeds.iter().map(|s| s.as_slice()).collect();
    Pubkey::create_program_address(&slices, &Pubkey::new_from_array(program_id.bytes)).ok().map(
        |key| Address { bytes: key.to_bytes() },
    )
}

/// Seeds of the chamber record that manages a leveraged farm.
pub open spec fn chamber_seeds(leveraged_farm: Seq<u8>) -> Seq<Seq<u8>> {
    seq![chamber_prefix(), leveraged_farm]
}

/// Seeds of the signing authority of a chamber.
pub open spec fn chamber_authority_seeds(chamber: Seq<u8>) -> Seq<Seq<u8>> {
    seq![chamber_authority_prefix(), chamber]
}

/// Seeds of the position of a wallet in a chamber.
pub open spec fn user_position_seeds(wallet: Seq<u8>, chamber: Seq<u8>) -> Seq<Seq<u8>> {
    seq![user_position_prefix(), wallet, chamber]
}

/// Seeds with which the chamber authority signs: its derivation seeds and its bump.
pub open spec fn authority_signer_seeds_spec(chamber: Seq<u8>, authority_bump: u8) -> Seq<Seq<u8>> {
    chamber_authority_seeds(chamber).push(seq![authority_bump])
}

/// Address of the chamber record of a leveraged farm, and its bump seed.
pub fn derive_chamber_address(leveraged_farm: &Address) -> (r: Option<(Address, u8)>)
    ensures
        is_canonical(chamber_seeds(leveraged_farm@), program_id_spec(), derived_view(r)),
{
    let mut seeds: Vec<Vec<u8>> = Vec::new();
    seeds.push(chamber_prefix_bytes());
    seeds.push(leveraged_farm.to_vec());
    assert(seeds_view(seeds@) =~= chamber_seeds(leveraged_farm@));
    find_program_address(&seeds, &program_id())
}

/// Address of the signing authority of a chamber, and its bump seed.
pub fn derive_chamber_authority(chamber: &Address) -> (r: Option<(Address, u8)>)
    ensures
        is_canonical(chamber_authority_seeds(chamber@), program_id_spec(), derived_view(r)),
{
    let mut seeds: Vec<Vec<u8>> = Vec::new();
    seeds.push(chamber_authority_prefix_bytes());
    seeds.push(chamber.to_vec());
    assert(seeds_view(seeds@) =~= chamber_authority_seeds(chamber@));
    find_program_address(&seeds, &program_id())
}

/// Address of the position of a wallet in a chamber, and its bump seed.
pub fn derive_user_position(wallet: &Address, chamber: &Address) -> (r: Option<(Address, u8)>)
    ensures
        is_canonical(user_position_seeds(wallet@, chamber@), program_id_spec(), derived_view(r)),
{
    let mut seeds: Vec<Vec<u8>> = Vec::new();
    seeds.push(user_position_prefix_bytes());
    seeds.push(wallet.to_vec());
    seeds.push(chamber.to_vec());
    assert(seeds_view(seeds@) =~= user_position_seeds(wallet@, chamber@));
    find_program_address(&seeds, &program_id())
}

/// Address of the chamber record of a leveraged farm under a known bump seed.
pub fn chamber_address_with_bump(leveraged_farm: &Address, bump: u8) -> (r: Option<Address>)
    ensures
        address_view(r) == seeded_address(chamber_seeds(leveraged_farm@).push(seq![bump]), program_id_spec()),
{
    let mut seeds: Vec<Vec<u8>> = Vec::new();
    seeds.push(chamber_prefix_bytes());
    seeds.push(leveraged_farm.to_vec());
    let b: Vec<u8> = vec![bump];
    assert(b@ =~= seq![bump]);
    seeds.push(b);
    assert(seeds_view(seeds@) =~= chamber_seeds(leveraged_farm@).push(seq![bump]));
    create_program_address(&seeds, &program_id())
}

/// Address of the signing authority of a chamber under a known bump seed.
pub fn chamber_authority_with_bump(chamber: &Address, authority_bump: u8) -> (r: Option<Address>)
    ensures
        address_view(r) == seeded_address(authority_signer_seeds_spec(chamber@, authority_bump), program_id_spec()),
{
    let seeds = authority_signer_seeds(chamber, authority_bump);
    create_program_address(&seeds, &program_id())
}

/// Address of the position of a wallet in a chamber under a known bump seed.
pub fn user_position_with_bump(wallet: &Address, chamber: &Address, bump: u8) -> (r: Option<Address>)
    ensures
        address_view(r) == seeded_address(user_position_seeds(wallet@, chamber@).push(seq![bump]), program_id_spec()),
{
    let mut seeds: Vec<Vec<u8>> = Vec::new();
    seeds.push(user_position_prefix_bytes());
    seeds.push(wallet.to_vec());
    seeds.push(chamber.to_vec());
    let b: Vec<u8> = vec![bump];
    assert(b@ =~= seq![bump]);
    seeds.push(b);
    assert(seeds_view(seeds@) =~= user_position_seeds(wallet@, chamber@).push(seq![bump]));
    create_program_address(&seeds, &program_id())
}

/// Whether `key` is the address that the seeds and bump seed give.
pub fn matches_derived(key: &Address, derived: &Option<Address>) -> (r: bool)
    ensures
        r == (address_view(*derived) == Some(key@)),
{
    match derived {
        Some(a) => a.same_as(key),
        None => false,
    }
}

/// The eight little-endian bytes of a `u64`.
pub open spec fn u64_le(x: u64) -> Seq<u8> {
    seq![
        (x & 0xff) as u8,
        ((x >> 8u64) & 0xff) as u8,
        ((x >> 16u64) & 0xff) as u8,
        ((x >> 24u64) & 0xff) as u8,
        ((x >> 32u64) & 0xff) as u8,
        ((x >> 40u64) & 0xff) as u8,
        ((x >> 48u64) & 0xff) as u8,
        ((x >> 56u64) & 0xff) as u8,
    ]
}

/// The eight little-endian bytes of a `u64`, as a seed.
pub fn u64_le_bytes(x: u64) -> (r: Vec<u8>)
    ensures
        r@ == u64_le(x),
{
    let r: Vec<u8> = vec![
        (x & 0xff) as u8,
        ((x >> 8u64) & 0xff) as u8,
        ((x >> 16u64) & 0xff) as u8,
        ((x >> 24u64) & 0xff) as u8,
        ((x >> 32u64) & 0xff) as u8,
        ((x >> 40u64) & 0xff) as u8,
        ((x >> 48u64) & 0xff) as u8,
        ((x >> 56u64) & 0xff) as u8,
    ];
    assert(r@ =~= u64_le(x));
    r
}

/// Seed prefix of a leg's position info record: the bytes of `position_info`.
pub open spec fn position_info_prefix() -> Seq<u8> {
    seq![112u8, 111u8, 115u8, 105u8, 116u8, 105u8, 111u8, 110u8, 95u8, 105u8, 110u8, 102u8, 111u8]
}

/// Seeds of the farm record that the lending service keeps for the chamber authority:
/// the authority, the record's index (always 0) and the kind of farm.
pub open spec fn chamber_farm_seeds(authority: Seq<u8>, farm_kind: u64) -> Seq<Seq<u8>> {
    seq![authority, u64_le(0), u64_le(farm_kind)]
}

/// Seeds of the obligation of a leg.
pub open spec fn leg_obligation_seeds(authority: Seq<u8>, chamber_farm: Seq<u8>, leg: u8) -> Seq<Seq<u8>> {
    seq![authority, chamber_farm, u64_le(leg as u64)]
}

/// Seeds of the obligation vault of a leg.
pub open spec fn leg_obligation_vault_seeds(chamber_farm: Seq<u8>, leg: u8) -> Seq<Seq<u8>> {
    seq![chamber_farm, u64_le(leg as u64)]
}

/// Seeds of the position info record of a leg.
pub open spec fn leg_position_info_seeds(chamber_farm: Seq<u8>, leg: u8) -> Seq<Seq<u8>> {
    seq![position_info_prefix(), chamber_farm, u64_le(leg as u64)]
}

/// Address of the chamber's farm record under the leveraged farm program, and its bump seed.
pub fn derive_chamber_farm(authority: &Address, levfarm_program: &Address, farm_kind: u64) -> (r: Option<(Address, u8)>)
    ensures
        is_canonical(chamber_farm_seeds(authority@, farm_kind), levfarm_program@, derived_view(r)),
{
    let mut seeds: Vec<Vec<u8>> = Vec::new();
    seeds.push(authority.to_vec());
    seeds.push(u64_le_bytes(0));
    seeds.push(u64_le_bytes(farm_kind));
    assert(seeds_view(seeds@) =~= chamber_farm_seeds(authority@, farm_kind));
    find_program_address(&seeds, levfarm_program)
}

/// Address of the obligation of a leg, and its bump seed.
pub fn derive_leg_obligation(authority: &Address, chamber_farm: &Address, levfarm_program: &Address, leg: u8) -> (r:
    Option<(Address, u8)>)
    ensures
        is_canonical(leg_obligation_seeds(authority@, chamber_farm@, leg), levfarm_program@, derived_view(r)),
{
    let mut seeds: Vec<Vec<u8>> = Vec::new();
    seeds.push(authority.to_vec());
    seeds.push(chamber_farm.to_vec());
    seeds.push(u64_le_bytes(leg as u64));
    assert(seeds_view(seeds@) =~= leg_obligation_seeds(authority@, chamber_farm@, leg));
    find_program_address(&seeds, levfarm_program)
}

/// Address of the obligation vault of a leg, and its bump seed.
pub fn derive_leg_obligation_vault(chamber_farm: &Address, levfarm_program: &Address, leg: u8) -> (r: Option<
    (Address, u8),
>)
    ensures
        is_canonical(leg_obligation_vault_seeds(chamber_farm@, leg), levfarm_program@, derived_view(r)),
{
    let mut seeds: Vec<Vec<u8>> = Vec::new();
    seeds.push(chamber_farm.to_vec());
    seeds.push(u64_le_bytes(leg as u64));
    assert(seeds_view(seeds@) =~= leg_obligation_vault_seeds(chamber_farm@, leg));
    find_program_address(&seeds, levfarm_program)
}

/// Address of the position info record of a leg, and its bump seed.
pub fn derive_leg_position_info(chamber_farm: &Address, levfarm_program: &Address, leg: u8) -> (r: Option<
    (Address, u8),
>)
    ensures
        is_canonical(leg_position_info_seeds(chamber_farm@, leg), levfarm_program@, derived_view(r)),
{
    let prefix: Vec<u8> = vec![112, 111, 115, 105, 116, 105, 111, 110, 95, 105, 110, 102, 111];
    assert(prefix@ =~= position_info_prefix());
    let mut seeds: Vec<Vec<u8>> = Vec::new();
    seeds.push(prefix);
    seeds.push(chamber_farm.to_vec());
    seeds.push(u64_le_bytes(leg as u64));
    assert(seeds_view(seeds@) =~= leg_position_info_seeds(chamber_farm@, leg));
    find_program_address(&seeds, levfarm_program)
}

/// The seeds with which a call signs as the authority of a chamber.
pub fn authority_signer_seeds(chamber: &Address, authority_bump: u8) -> (r: Vec<Vec<u8>>)
    ensures
        seeds_view(r@) == authority_signer_seeds_spec(chamber@, authority_bump),
{
    let mut seeds: Vec<Vec<u8>> = Vec::new();
    seeds.push(chamber_authority_prefix_bytes());
    seeds.push(chamber.to_vec());
    let bump: Vec<u8> = vec![authority_bump];
    assert(bump@ =~= seq![authority_bump]);
    seeds.push(bump);
    assert(seeds_view(seeds@) =~= authority_signer_seeds_spec(chamber@, authority_bump));
    seeds
}

/// There is one canonical derivation of a seed tuple.
pub proof fn lemma_canonical_unique(
    seeds: Seq<Seq<u8>>,
    program_id: Seq<u8>,
    r1: Option<(Seq<u8>, u8)>,
    r2: Option<(Seq<u8>, u8)>,
)
    requires
        is_canonical(seeds, program_id, r1),
        is_canonical(seeds, program_id, r2),
    ensures
        r1 == r2,
{
    match (r1, r2) {
        (Some((a1, b1)), Some((a2, b2))) => {
            assert(seeded_address(seeds.push(seq![b1]), program_id) == Some(a1));
            assert(seeded_address(seeds.push(seq![b2]), program_id) == Some(a2));
        },
        (Some((a1, b1)), None) => {
            assert(seeded_address(seeds.push(seq![b1]), program_id) == Some(a1));
        },
        (None, Some((a2, b2))) => {
            assert(seeded_address(seeds.push(seq![b2]), program_id) == Some(a2));
        },
        (None, None) => {},
    }
}

/// Derivation is deterministic: deriving twice from equal seeds under equal program ids
/// gives equal addresses and bump seeds. Every derivation of this module ensures
/// `is_canonical` of its seeds, so this holds of each of them.
pub proof fn lemma_derivation_deterministic(
    seeds_a: Seq<Seq<u8>>,
    seeds_b: Seq<Seq<u8>>,
    program_a: Seq<u8>,
    program_b: Seq<u8>,
    first: Option<(Seq<u8>, u8)>,
    second: Option<(Seq<u8>, u8)>,
)
    requires
        seeds_a == seeds_b,
        program_a == program_b,
        is_canonical(seeds_a, program_a, first),
        is_canonical(seeds_b, program_b, second),
    ensures
        first == second,
{
    lemma_canonical_unique(seeds_a, program_a, first, second);
}

} // verus!
