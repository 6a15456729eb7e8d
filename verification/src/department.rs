//! The departments that can be funded, and the account that holds each one's funds.

use crate::storage::AccountId;
use frame_support::sp_runtime::traits::{BlakeTwo256, TrailingZeroInput};
use parity_scale_codec::Decode;
use vstd::prelude::*;

verus! {

/// The set of choices a citizen can vote for.
#[derive(Debug, Copy, Clone, PartialEq, Eq, Structural)]
pub enum Department {
    Education,
    Employment,
    Healthcare,
    Infrastructure,
    Military,
    Politics,
    PublicGrants,
    RepayingPublicDebt,
    ScienceTech,
    SocialSecurity,
}

impl Department {
    /// The position of the department in the declaration order, from 0.
    pub open spec fn spec_index(self) -> u8 {
        match self {
            Department::Education => 0,
            Department::Employment => 1,
            Department::Healthcare => 2,
            Department::Infrastructure => 3,
            Department::Military => 4,
            Department::Politics => 5,
            Department::PublicGrants => 6,
            Department::RepayingPublicDebt => 7,
            Department::ScienceTech => 8,
            Department::SocialSecurity => 9,
        }
    }

    /// The department at `index` in the declaration order.
    pub open spec fn spec_from_index(index: int) -> Department {
        if index == 0 {
            Department::Education
        } else if index == 1 {
            Department::Employment
        } else if index == 2 {
            Department::Healthcare
        } else if index == 3 {
            Department::Infrastructure
        } else if index == 4 {
            Department::Military
        } else if index == 5 {
            Department::Politics
        } else if index == 6 {
            Department::PublicGrants
        } else if index == 7 {
            Department::RepayingPublicDebt
        } else if index == 8 {
            Department::ScienceTech
        } else {
            Department::SocialSecurity
        }
    }

    /// All departments, in declaration order.
    pub open spec fn spec_all() -> Seq<Department> {
        Seq::new(10, |index: int| Department::spec_from_index(index))
    }

    /// The bytes that stand for the department: one byte, its index.
    pub open spec fn spec_encode(self) -> Seq<u8> {
        seq![self.spec_index()]
    }

    /// Every department stands in `spec_all`, at its index.
    pub proof fn lemma_all_is_complete(self)
        ensures
            0 <= self.spec_index() < 10,
            Department::spec_all().len() == 10,
            Department::spec_all()[self.spec_index() as int] == self,
    {
    }

    /// The departments in `spec_all` stand at their indices, so no two of them are the
    /// same.
    pub proof fn lemma_all_is_in_order(index: int)
        requires
            0 <= index < 10,
        ensures
            Department::spec_all()[index].spec_index() == index,
    {
    }

    /// The position of the department in the declaration order, from 0.
    #[verifier::when_used_as_spec(spec_index)]
    pub fn index(self) -> (index: u8)
        ensures
            index == self.spec_index(),
    {
        match self {
            Department::Education => 0,
            Department::Employment => 1,
            Department::Healthcare => 2,
            Department::Infrastructure => 3,
            Department::Military => 4,
            Department::Politics => 5,
            Department::PublicGrants => 6,
            Department::RepayingPublicDebt => 7,
            Department::ScienceTech => 8,
            Department::SocialSecurity => 9,
        }
    }

    /// All departments, in declaration order.
    pub fn all() -> (departments: Vec<Department>)
        ensures
            departments@ == Department::spec_all(),
    {
        let mut departments: Vec<Department> = Vec::new();
        departments.push(Department::Education);
        departments.push(Department::Employment);
        departments.push(Department::Healthcare);
        departments.push(Department::Infrastructure);
        departments.push(Department::Military);
        departments.push(Department::Politics);
        departments.push(Department::PublicGrants);
        departments.push(Department::RepayingPublicDebt);
        departments.push(Department::ScienceTech);
        departments.push(Department::SocialSecurity);
        assert(departments@ =~= Department::spec_all());
        departments
    }

    /// The bytes that stand for the department: one byte, its index.
    pub fn encode(&self) -> (bytes: Vec<u8>)
        ensures
            bytes@ == self.spec_encode(),
    {
        let mut bytes: Vec<u8> = Vec::new();
        bytes.push(self.index());
        assert(bytes@ =~= self.spec_encode());
        bytes
    }
}

/// The Blake2b digest of 256 bits of `data`, as `BlakeTwo256::hash` computes it.
pub uninterp spec fn blake2_256(data: Seq<u8>) -> Seq<u8>;

/// The byte of `bytes` at `i`, or zero past the end.
pub open spec fn byte_or_zero(bytes: Seq<u8>, i: int) -> int {
    if 0 <= i < bytes.len() {
        bytes[i] as int
    } else {
        0
    }
}

/// The account id that the first eight bytes of `bytes` spell in little-endian order,
/// with zeros standing in for bytes that are missing.
pub open spec fn account_id_from_bytes(bytes: Seq<u8>) -> AccountId {
    (byte_or_zero(bytes, 0) + 0x100 * byte_or_zero(bytes, 1) + 0x1_0000 * byte_or_zero(bytes, 2)
        + 0x100_0000 * byte_or_zero(bytes, 3) + 0x1_0000_0000 * byte_or_zero(bytes, 4)
        + 0x100_0000_0000 * byte_or_zero(bytes, 5) + 0x1_0000_0000_0000 * byte_or_zero(bytes, 6)
        + 0x100_0000_0000_0000 * byte_or_zero(bytes, 7)) as AccountId
}

/// The account that holds the funds of `department`: the digest of the department's
/// bytes, read as an account id.
pub open spec fn spec_department_acc(department: Department) -> AccountId {
    account_id_from_bytes(blake2_256(department.spec_encode()))
}

/// `BlakeTwo256::hash` of sp_runtime, the digest given as its 32 bytes. Trusted: the
/// digest is a function of the bytes hashed and of nothing else.
#[verifier::external_body]
fn hash(data: &Vec<u8>) -> (digest: Vec<u8>)
    ensures
        digest@ == blake2_256(data@),
{
    <BlakeTwo256 as frame_support::sp_runtime::traits::Hash>::hash(data).0.to_vec()
}

/// `Decode::decode` of parity_scale_codec for an account id, reading from a
/// `TrailingZeroInput` over `bytes`. Trusted: such an input never runs out, so the
/// decoding succeeds, and an account id is decoded from eight bytes in little-endian order.
#[verifier::external_body]
fn decode_account_id(bytes: &Vec<u8>) -> (decoded: Option<AccountId>)
    ensures
        decoded == Some(account_id_from_bytes(bytes@)),
{
    AccountId::decode(&mut TrailingZeroInput::new(bytes)).ok()
}

/// Whether no two departments share an account.
pub open spec fn spec_department_accs_are_distinct() -> bool {
    forall|a: Department, b: Department|
        #![trigger spec_department_acc(a), spec_department_acc(b)]
        spec_department_acc(a) == spec_department_acc(b) ==> a == b
}

/// The account that holds the funds of `department`.
pub fn get_department_acc(department: Department) -> (account: AccountId)
    ensures
        account == spec_department_acc(department),
{
    let digest = hash(&department.encode());
    match decode_account_id(&digest) {
        Some(account) => account,
        None => vstd::pervasive::unreached(),
    }
}

/// Derives the accounts of all departments and tells whether no two of them are the
/// same. The derivation is made to keep the departments apart, but nothing less than
/// a look at the ten accounts shows that it does.
#[verifier::when_used_as_spec(spec_department_accs_are_distinct)]
pub fn department_accs_are_distinct() -> (distinct: bool)
    ensures
        distinct == spec_department_accs_are_distinct(),
{
    let departments = Department::all();
    let mut accounts: Vec<AccountId> = Vec::new();
    let mut i: usize = 0;
    while i < departments.len()
        invariant
            departments@ == Department::spec_all(),
            departments@.len() == 10,
            i <= 10,
            accounts@.len() == i,
            forall|k: int|
                0 <= k < i ==> accounts@[k] == spec_department_acc(
                    #[trigger] Department::spec_all()[k],
                ),
        decreases 10 - i,
    {
        accounts.push(get_department_acc(departments[i]));
        i += 1;
    }
    let mut a: usize = 0;
    while a < 10
        invariant
            a <= 10,
            accounts@.len() == 10,
            forall|k: int|
                0 <= k < 10 ==> accounts@[k] == spec_department_acc(
                    #[trigger] Department::spec_all()[k],
                ),
            forall|x: int, y: int| 0 <= y < x < a ==> accounts@[x] != accounts@[y],
        decreases 10 - a,
    {
        let mut b: usize = 0;
        while b < a
            invariant
                b <= a < 10,
                accounts@.len() == 10,
                forall|k: int|
                    0 <= k < 10 ==> accounts@[k] == spec_department_acc(
                        #[trigger] Department::spec_all()[k],
                    ),
                forall|y: int| 0 <= y < b ==> accounts@[a as int] != accounts@[y],
            decreases a - b,
        {
            if accounts[a] == accounts[b] {
                proof {
                    let first = Department::spec_all()[a as int];
                    let second = Department::spec_all()[b as int];
                    Department::lemma_all_is_in_order(a as int);
                    Department::lemma_all_is_in_order(b as int);
                    assert(spec_department_acc(first) == spec_department_acc(second));
                }
                return false;
            }
            b += 1;
        }
        a += 1;
    }
    proof {
        assert forall|first: Department, second: Department|
            #![trigger spec_department_acc(first), spec_department_acc(second)]
            spec_department_acc(first) == spec_department_acc(second) implies first == second by {
            first.lemma_all_is_complete();
            second.lemma_all_is_complete();
            let x = first.spec_index() as int;
            let y = second.spec_index() as int;
            assert(accounts@[x] == spec_department_acc(Department::spec_all()[x]));
            assert(accounts@[y] == spec_department_acc(Department::spec_all()[y]));
            if x < y {
                assert(accounts@[y] != accounts@[x]);
            } else if y < x {
                assert(accounts@[x] != accounts@[y]);
            }
        }
    }
    true
}

} // verus!
