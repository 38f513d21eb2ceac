//! Derived addresses. A plan, its treasury and every schedule live at an
//! address computed from their keys and the program's own address, so that
//! anyone can compute it again and nobody can choose it.
//!
//! Each kind of record has a tag of its own in front of its seeds, and a
//! company name is cut into seeds that a derivation takes, so that every
//! name a plan can carry has an address to be searched.

use vstd::prelude::*;
use vstd::slice::{slice_subrange, slice_to_vec};
use anchor_lang::prelude::Pubkey;
use crate::address::Address;

verus! {

/// The tag that sets a plan's seeds apart: the bytes of `vesting_plan`.
pub const PLAN_TAG: [u8; 12] = [118, 101, 115, 116, 105, 110, 103, 95, 112, 108, 97, 110];

/// The tag that sets a treasury's seeds apart: the bytes of `vesting_treasury`.
pub const TREASURY_TAG: [u8; 16] = [
    118, 101, 115, 116, 105, 110, 103, 95, 116, 114, 101, 97, 115, 117, 114, 121,
];

/// The tag that sets a schedule's seeds apart: the bytes of `employee_vesting`.
pub const EMPLOYEE_TAG: [u8; 16] = [
    101, 109, 112, 108, 111, 121, 101, 101, 95, 118, 101, 115, 116, 105, 110, 103,
];

/// The longest seed, in bytes, that a derivation takes.
pub const MAX_SEED_LEN: usize = 32;

/// The most seeds that a derivation takes, the bump seed among them.
pub const MAX_SEEDS: usize = 16;

/// The address that `seeds` derive under the program at `program_id`, or
/// `None` where they derive none.
pub uninterp spec fn program_address(seeds: Seq<Seq<u8>>, program_id: Seq<u8>) -> Option<Seq<u8>>;

/// `seeds` followed by the one-byte seed `bump`.
pub open spec fn with_bump(seeds: Seq<Seq<u8>>, bump: u8) -> Seq<Seq<u8>> {
    seeds.push(seq![bump])
}

/// `bump` is the highest bump seed above zero with which `seeds` derive an
/// address.
pub open spec fn derives_highest(seeds: Seq<Seq<u8>>, program_id: Seq<u8>, bump: u8) -> bool {
    &&& bump >= 1
    &&& program_address(with_bump(seeds, bump), program_id) is Some
    &&& forall|higher: u8|
        bump < higher ==> program_address(#[trigger] with_bump(seeds, higher), program_id) is None
}

/// What a search from `seeds` finds under the program at `program_id`: the
/// address that they derive with the highest bump seed above zero that
/// derives one, and that bump seed; `None` where no bump seed derives one.
pub open spec fn found_program_address(seeds: Seq<Seq<u8>>, program_id: Seq<u8>) -> Option<
    (Seq<u8>, u8),
> {
    if exists|bump: u8| derives_highest(seeds, program_id, bump) {
        let bump = choose|bump: u8| derives_highest(seeds, program_id, bump);
        match program_address(with_bump(seeds, bump), program_id) {
            Some(address) => Some((address, bump)),
            None => None,
        }
    } else {
        None
    }
}

/// Neither are there more seeds than a derivation takes, nor is one of them
/// longer than it takes.
pub open spec fn seeds_fit(seeds: Seq<Seq<u8>>) -> bool {
    &&& seeds.len() <= MAX_SEEDS
    &&& forall|i: int| 0 <= i < seeds.len() ==> (#[trigger] seeds[i]).len() <= MAX_SEED_LEN
}

/// The bytes that stand for a company name in seeds: its UTF-8 encoding.
pub open spec fn name_bytes(name: Seq<char>) -> Seq<u8> {
    vstd::utf8::encode_utf8(name)
}

/// The first seed of a name: its first `MAX_SEED_LEN` bytes, or all of them.
pub open spec fn name_head(name: Seq<u8>) -> Seq<u8> {
    if name.len() <= MAX_SEED_LEN {
        name
    } else {
        name.subrange(0, MAX_SEED_LEN as int)
    }
}

/// The second seed of a name: what follows its first `MAX_SEED_LEN` bytes.
pub open spec fn name_tail(name: Seq<u8>) -> Seq<u8> {
    if name.len() <= MAX_SEED_LEN {
        Seq::empty()
    } else {
        name.subrange(MAX_SEED_LEN as int, name.len() as int)
    }
}

/// The seeds of a plan: the plan tag, then the company name in two seeds.
pub open spec fn plan_seeds(name: Seq<u8>) -> Seq<Seq<u8>> {
    seq![PLAN_TAG@, name_head(name), name_tail(name)]
}

/// The seeds of a plan's treasury: the treasury tag, then the company name
/// in two seeds.
pub open spec fn treasury_seeds(name: Seq<u8>) -> Seq<Seq<u8>> {
    seq![TREASURY_TAG@, name_head(name), name_tail(name)]
}

/// The seeds of a schedule: the schedule tag, the beneficiary, the plan.
pub open spec fn employee_seeds(beneficiary: Seq<u8>, plan: Seq<u8>) -> Seq<Seq<u8>> {
    seq![EMPLOYEE_TAG@, beneficiary, plan]
}

/// The bytes of an address that was derived, if one was.
pub open spec fn derived_view(derived: Option<Address>) -> Option<Seq<u8>> {
    match derived {
        Some(address) => Some(address@),
        None => None,
    }
}

/// The bytes and the bump seed of an address that was found, if one was.
pub open spec fn found_view(found: Option<(Address, u8)>) -> Option<(Seq<u8>, u8)> {
    match found {
        Some((address, bump)) => Some((address@, bump)),
        None => None,
    }
}

/// The address that a search found, if it found one.
pub open spec fn found_address(found: Option<(Seq<u8>, u8)>) -> Option<Seq<u8>> {
    match found {
        Some((address, _)) => Some(address),
        None => None,
    }
}

/// The bump seed that a search found; zero if it found none.
pub open spec fn found_bump(found: Option<(Seq<u8>, u8)>) -> u8 {
    match found {
        Some((_, bump)) => bump,
        None => 0,
    }
}

/// `found` is what a search from `seeds` finds, and nothing where the seeds,
/// with a bump seed, do not fit.
pub open spec fn is_found(
    seeds: Seq<Seq<u8>>,
    program_id: Seq<u8>,
    found: Option<(Address, u8)>,
) -> bool {
    &&& found_view(found) == found_program_address(seeds, program_id)
    &&& !seeds_fit(with_bump(seeds, 0)) ==> found is None
}

/// `Pubkey::create_program_address`: the address that the seeds derive under
/// the program, `None` for each of its errors. Trusted: the result is the
/// one named by `program_address` for these seeds and this program.
#[verifier::external_body]
fn create_program_address(seeds: &Vec<Vec<u8>>, program_id: &Address) -> (derived: Option<
    Address,
>)
    ensures
        derived_view(derived) == program_address(seeds.deep_view(), program_id@),
{
    let parts: Vec<&[u8]> = seeds.iter().map(|seed| seed.as_slice()).collect();
    match Pubkey::create_program_address(&parts, &Pubkey::new_from_array(program_id.bytes)) {
        Ok(key) => Some(Address { bytes: key.to_bytes() }),
        Err(_) => None,
    }
}

/// `Pubkey::try_find_program_address`: the search for a bump seed with which
/// the seeds derive an address. Trusted, each as the function's source
/// shows it: an address found is the one that `Pubkey::create_program_address`
/// derives from the seeds with the bump seed found, which is above zero; no
/// higher bump seed derives one; where nothing is found, no bump seed above
/// zero derives one; and nothing is found where there are `MAX_SEEDS` seeds
/// or more, or one of them is longer than `MAX_SEED_LEN`.
#[verifier::external_body]
fn try_find_program_address(seeds: &Vec<Vec<u8>>, program_id: &Address) -> (found: Option<
    (Address, u8),
>)
    ensures
        found matches Some((address, bump)) ==> (bump >= 1 && program_address(
            with_bump(seeds.deep_view(), bump),
            program_id@,
        ) == Some(address@)),
        found matches Some((_, bump)) ==> (forall|higher: u8|
            bump < higher ==> program_address(
                #[trigger] with_bump(seeds.deep_view(), higher),
                program_id@,
            ) is None),
        found is None ==> (forall|bump: u8|
            bump >= 1 ==> program_address(
                #[trigger] with_bump(seeds.deep_view(), bump),
                program_id@,
            ) is None),
        !seeds_fit(with_bump(seeds.deep_view(), 0)) ==> found is None,
{
    let parts: Vec<&[u8]> = seeds.iter().map(|seed| seed.as_slice()).collect();
    match Pubkey::try_find_program_address(&parts, &Pubkey::new_from_array(program_id.bytes)) {
        Some((key, bump)) => Some((Address { bytes: key.to_bytes() }, bump)),
        None => None,
    }
}

/// At most one bump seed is the highest that derives an address.
pub proof fn lemma_highest_bump_is_one(seeds: Seq<Seq<u8>>, program_id: Seq<u8>, a: u8, b: u8)
    requires
        derives_highest(seeds, program_id, a),
        derives_highest(seeds, program_id, b),
    ensures
        a == b,
{
    if a < b {
        assert(program_address(with_bump(seeds, b), program_id) is None);
    }
    if b < a {
        assert(program_address(with_bump(seeds, a), program_id) is None);
    }
}

/// What a search finds derives again: the seeds with the bump seed found
/// derive the address found, and no higher bump seed derives any.
pub proof fn lemma_found_derives(seeds: Seq<Seq<u8>>, program_id: Seq<u8>)
    ensures
        found_program_address(seeds, program_id) matches Some((address, bump)) ==> {
            &&& derives_highest(seeds, program_id, bump)
            &&& program_address(with_bump(seeds, bump), program_id) == Some(address)
        },
{
}

/// Searches the address that the seeds derive with a bump seed.
fn search_program_address(seeds: &Vec<Vec<u8>>, program_id: &Address) -> (found: Option<
    (Address, u8),
>)
    ensures
        is_found(seeds.deep_view(), program_id@, found),
{
    let found = try_find_program_address(seeds, program_id);
    proof {
        match found {
            Some((address, bump)) => {
                assert(derives_highest(seeds.deep_view(), program_id@, bump));
                let chosen = choose|bump: u8| derives_highest(seeds.deep_view(), program_id@, bump);
                lemma_highest_bump_is_one(seeds.deep_view(), program_id@, chosen, bump);
            },
            None => {
                assert forall|bump: u8| !derives_highest(seeds.deep_view(), program_id@, bump) by {
                    if bump >= 1 {
                        assert(program_address(with_bump(seeds.deep_view(), bump), program_id@)
                            is None);
                    }
                }
            },
        }
    }
    found
}

/// The seeds of a name of at most two seeds' length fit, whatever tag
/// stands before them and whatever bump seed follows.
pub proof fn lemma_name_seeds_fit(tag: Seq<u8>, name: Seq<u8>, bump: u8)
    requires
        tag.len() <= MAX_SEED_LEN,
        name.len() <= 2 * MAX_SEED_LEN,
    ensures
        seeds_fit(with_bump(seq![tag, name_head(name), name_tail(name)], bump)),
{
    let seeds = with_bump(seq![tag, name_head(name), name_tail(name)], bump);
    assert(seeds.len() == 4);
    assert(seeds[0] == tag);
    assert(seeds[1] == name_head(name));
    assert(seeds[2] == name_tail(name));
    assert(seeds[3] == seq![bump]);
}

/// The bytes of the seeds, one seed after the other: all that a derivation
/// has of them.
pub open spec fn seed_bytes(seeds: Seq<Seq<u8>>) -> Seq<u8> {
    seeds.flatten()
}

/// The bytes of a name's seeds behind a tag and before a bump seed are the
/// tag, the name and the bump seed: cutting the name loses nothing.
pub proof fn lemma_name_seed_bytes(tag: Seq<u8>, name: Seq<u8>, bump: u8)
    ensures
        seed_bytes(with_bump(seq![tag, name_head(name), name_tail(name)], bump)) == tag + name
            + seq![bump],
{
    let none = Seq::<Seq<u8>>::empty();
    assert(seq![tag, name_head(name), name_tail(name)] =~= none.push(tag).push(
        name_head(name),
    ).push(name_tail(name)));
    none.lemma_flatten_push(tag);
    none.push(tag).lemma_flatten_push(name_head(name));
    none.push(tag).push(name_head(name)).lemma_flatten_push(name_tail(name));
    seq![tag, name_head(name), name_tail(name)].lemma_flatten_push(seq![bump]);
    assert(none.flatten() =~= Seq::<u8>::empty());
    assert(name_head(name) + name_tail(name) =~= name);
    assert(tag + name_head(name) + name_tail(name) =~= tag + name);
    assert(seed_bytes(with_bump(seq![tag, name_head(name), name_tail(name)], bump)) =~= tag + name
        + seq![bump]);
}

/// The bytes of a schedule's seeds before a bump seed are the schedule tag,
/// the beneficiary, the plan and the bump seed.
pub proof fn lemma_employee_seed_bytes(beneficiary: Seq<u8>, plan: Seq<u8>, bump: u8)
    ensures
        seed_bytes(with_bump(employee_seeds(beneficiary, plan), bump)) == EMPLOYEE_TAG@
            + beneficiary + plan + seq![bump],
{
    let none = Seq::<Seq<u8>>::empty();
    assert(employee_seeds(beneficiary, plan) =~= none.push(EMPLOYEE_TAG@).push(beneficiary).push(
        plan,
    ));
    none.lemma_flatten_push(EMPLOYEE_TAG@);
    none.push(EMPLOYEE_TAG@).lemma_flatten_push(beneficiary);
    none.push(EMPLOYEE_TAG@).push(beneficiary).lemma_flatten_push(plan);
    employee_seeds(beneficiary, plan).lemma_flatten_push(seq![bump]);
    assert(none.flatten() =~= Seq::<u8>::empty());
    assert(seed_bytes(with_bump(employee_seeds(beneficiary, plan), bump)) =~= EMPLOYEE_TAG@
        + beneficiary + plan + seq![bump]);
}

/// The first seed of a company name.
pub fn head_seed<'a>(company_name: &'a String) -> (head: &'a [u8])
    ensures
        head@ == name_head(name_bytes(company_name@)),
{
    let bytes = company_name.as_str().as_bytes();
    if bytes.len() <= MAX_SEED_LEN {
        bytes
    } else {
        slice_subrange(bytes, 0, MAX_SEED_LEN)
    }
}

/// The second seed of a company name.
pub fn tail_seed<'a>(company_name: &'a String) -> (tail: &'a [u8])
    ensures
        tail@ == name_tail(name_bytes(company_name@)),
{
    let bytes = company_name.as_str().as_bytes();
    if bytes.len() <= MAX_SEED_LEN {
        let nothing = slice_subrange(bytes, 0, 0);
        assert(nothing@ =~= Seq::<u8>::empty());
        nothing
    } else {
        slice_subrange(bytes, MAX_SEED_LEN, bytes.len())
    }
}

/// The seeds of the plan of `company_name`.
fn plan_seed_list(company_name: &String) -> (seeds: Vec<Vec<u8>>)
    ensures
        seeds.deep_view() == plan_seeds(name_bytes(company_name@)),
{
    let mut seeds: Vec<Vec<u8>> = Vec::new();
    seeds.push(slice_to_vec(PLAN_TAG.as_slice()));
    seeds.push(slice_to_vec(head_seed(company_name)));
    seeds.push(slice_to_vec(tail_seed(company_name)));
    assert(seeds.deep_view() =~~= plan_seeds(name_bytes(company_name@)));
    seeds
}

/// The seeds of the treasury of `company_name`.
fn treasury_seed_list(company_name: &String) -> (seeds: Vec<Vec<u8>>)
    ensures
        seeds.deep_view() == treasury_seeds(name_bytes(company_name@)),
{
    let mut seeds: Vec<Vec<u8>> = Vec::new();
    seeds.push(slice_to_vec(TREASURY_TAG.as_slice()));
    seeds.push(slice_to_vec(head_seed(company_name)));
    seeds.push(slice_to_vec(tail_seed(company_name)));
    assert(seeds.deep_view() =~~= treasury_seeds(name_bytes(company_name@)));
    seeds
}

/// The seeds of the schedule of `beneficiary` under `plan`.
fn employee_seed_list(beneficiary: &Address, plan: &Address) -> (seeds: Vec<Vec<u8>>)
    ensures
        seeds.deep_view() == employee_seeds(beneficiary@, plan@),
{
    let mut seeds: Vec<Vec<u8>> = Vec::new();
    seeds.push(slice_to_vec(EMPLOYEE_TAG.as_slice()));
    seeds.push(beneficiary.to_vec());
    seeds.push(plan.to_vec());
    assert(seeds.deep_view() =~~= employee_seeds(beneficiary@, plan@));
    seeds
}

/// Appends the bump seed to the seeds.
fn push_bump(seeds: Vec<Vec<u8>>, bump: u8) -> (all: Vec<Vec<u8>>)
    ensures
        all.deep_view() == with_bump(seeds.deep_view(), bump),
{
    let mut all = seeds;
    let mut last: Vec<u8> = Vec::new();
    last.push(bump);
    all.push(last);
    assert(all.deep_view() =~~= with_bump(seeds.deep_view(), bump));
    all
}

/// Searches the address of the plan of `company_name`, and its bump seed.
pub fn find_plan_address(program_id: &Address, company_name: &String) -> (found: Option<
    (Address, u8),
>)
    ensures
        is_found(plan_seeds(name_bytes(company_name@)), program_id@, found),
{
    search_program_address(&plan_seed_list(company_name), program_id)
}

/// Searches the address of the treasury of `company_name`, and its bump seed.
pub fn find_treasury_address(program_id: &Address, company_name: &String) -> (found: Option<
    (Address, u8),
>)
    ensures
        is_found(treasury_seeds(name_bytes(company_name@)), program_id@, found),
{
    search_program_address(&treasury_seed_list(company_name), program_id)
}

/// Searches the address of the schedule of `beneficiary` under `plan`, and
/// its bump seed.
pub fn find_employee_address(
    program_id: &Address,
    beneficiary: &Address,
    plan: &Address,
) -> (found: Option<(Address, u8)>)
    ensures
        is_found(employee_seeds(beneficiary@, plan@), program_id@, found),
{
    search_program_address(&employee_seed_list(beneficiary, plan), program_id)
}

/// Derives the address of the plan of `company_name` with a known bump seed.
pub fn derive_plan_address(program_id: &Address, company_name: &String, bump: u8) -> (derived:
    Option<Address>)
    ensures
        derived_view(derived) == program_address(
            with_bump(plan_seeds(name_bytes(company_name@)), bump),
            program_id@,
        ),
{
    create_program_address(&push_bump(plan_seed_list(company_name), bump), program_id)
}

/// Derives the address of the schedule of `beneficiary` under `plan` with a
/// known bump seed.
pub fn derive_employee_address(
    program_id: &Address,
    beneficiary: &Address,
    plan: &Address,
    bump: u8,
) -> (derived: Option<Address>)
    ensures
        derived_view(derived) == program_address(
            with_bump(employee_seeds(beneficiary@, plan@), bump),
            program_id@,
        ),
{
    create_program_address(&push_bump(employee_seed_list(beneficiary, plan), bump), program_id)
}

/// The seeds under which a plan signs for its treasury: the treasury's seeds
/// and its bump seed.
pub fn treasury_signer_seeds(company_name: &String, bump: u8) -> (seeds: Vec<Vec<u8>>)
    ensures
        seeds.deep_view() == with_bump(treasury_seeds(name_bytes(company_name@)), bump),
{
    push_bump(treasury_seed_list(company_name), bump)
}

} // verus!
