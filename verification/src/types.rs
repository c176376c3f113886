//! Identifiers: hashes, addresses, principals and asset names.

use crate::table::TableKey;
use vstd::prelude::*;
use vstd::std_specs::cmp::PartialEqSpecImpl;

verus! {

/// Address version of a single-signature account on mainnet.
pub const C32_ADDRESS_VERSION_MAINNET_SINGLESIG: u8 = 22;

/// Address version of a single-signature account on testnet.
pub const C32_ADDRESS_VERSION_TESTNET_SINGLESIG: u8 = 26;

/// Compares two byte arrays of one length.
pub fn bytes_eq<const N: usize>(a: &[u8; N], b: &[u8; N]) -> (r: bool)
    ensures
        r == (*a == *b),
{
    let mut i: usize = 0;
    while i < N
        invariant
            0 <= i <= N,
            forall|j: int| 0 <= j < i ==> a[j] == b[j],
        decreases N - i,
    {
        if a[i] != b[i] {
            return false;
        }
        i += 1;
    }
    assert(*a =~= *b);
    true
}

/// A 160-bit hash.
#[derive(Clone, Copy, Debug, Eq, PartialOrd, Ord, Hash)]
pub struct Hash160(pub [u8; 20]);

impl PartialEq for Hash160 {
    fn eq(&self, other: &Self) -> (r: bool) {
        bytes_eq(&self.0, &other.0)
    }
}

impl PartialEqSpecImpl for Hash160 {
    open spec fn obeys_eq_spec() -> bool {
        true
    }

    open spec fn eq_spec(&self, other: &Self) -> bool {
        *self == *other
    }
}

/// The hash of an anchored block's header.
#[derive(Clone, Copy, Debug, Eq, PartialOrd, Ord, Hash)]
pub struct BlockHeaderHash(pub [u8; 32]);

impl PartialEq for BlockHeaderHash {
    fn eq(&self, other: &Self) -> (r: bool) {
        bytes_eq(&self.0, &other.0)
    }
}

impl PartialEqSpecImpl for BlockHeaderHash {
    open spec fn obeys_eq_spec() -> bool {
        true
    }

    open spec fn eq_spec(&self, other: &Self) -> bool {
        *self == *other
    }
}

/// The consensus hash of the burn chain block that selected a block.
#[derive(Clone, Copy, Debug, Eq, PartialOrd, Ord, Hash)]
pub struct ConsensusHash(pub [u8; 20]);

impl PartialEq for ConsensusHash {
    fn eq(&self, other: &Self) -> (r: bool) {
        bytes_eq(&self.0, &other.0)
    }
}

impl PartialEqSpecImpl for ConsensusHash {
    open spec fn obeys_eq_spec() -> bool {
        true
    }

    open spec fn eq_spec(&self, other: &Self) -> bool {
        *self == *other
    }
}

/// A standard (non-contract) principal: an address version and a key hash.
#[derive(Clone, Copy, Debug, Eq, PartialOrd, Ord, Hash)]
pub struct StandardPrincipalData(pub u8, pub [u8; 20]);

impl PartialEq for StandardPrincipalData {
    fn eq(&self, other: &Self) -> (r: bool) {
        standard_principal_eq(self, other)
    }
}

impl PartialEqSpecImpl for StandardPrincipalData {
    open spec fn obeys_eq_spec() -> bool {
        true
    }

    open spec fn eq_spec(&self, other: &Self) -> bool {
        *self == *other
    }
}

/// The address that a payment is made out to.
#[derive(Clone, Copy, Debug, Eq, PartialOrd, Ord, Hash)]
pub struct StacksAddress {
    pub version: u8,
    pub bytes: Hash160,
}

impl PartialEq for StacksAddress {
    fn eq(&self, other: &Self) -> (r: bool) {
        self.version == other.version && self.bytes == other.bytes
    }
}

impl PartialEqSpecImpl for StacksAddress {
    open spec fn obeys_eq_spec() -> bool {
        true
    }

    open spec fn eq_spec(&self, other: &Self) -> bool {
        *self == *other
    }
}

impl StacksAddress {
    /// The address whose key hash is all zero: what is paid to it is destroyed.
    pub open spec fn spec_burn_address(mainnet: bool) -> StacksAddress {
        StacksAddress {
            version: if mainnet {
                C32_ADDRESS_VERSION_MAINNET_SINGLESIG
            } else {
                C32_ADDRESS_VERSION_TESTNET_SINGLESIG
            },
            bytes: Hash160(vstd::array::spec_array_fill_for_copy_type::<u8, 20>(0u8)),
        }
    }

    /// The canonical burn address of the network.
    pub fn burn_address(mainnet: bool) -> (r: StacksAddress)
        ensures
            r == Self::spec_burn_address(mainnet),
    {
        let version = if mainnet {
            C32_ADDRESS_VERSION_MAINNET_SINGLESIG
        } else {
            C32_ADDRESS_VERSION_TESTNET_SINGLESIG
        };
        StacksAddress { version, bytes: Hash160([0u8; 20]) }
    }

    /// The standard principal that this address belongs to.
    pub open spec fn spec_to_standard(&self) -> StandardPrincipalData {
        StandardPrincipalData(self.version, self.bytes.0)
    }

    /// The account principal of this address.
    pub fn to_account_principal(&self) -> (r: PrincipalData)
        ensures
            r == PrincipalData::Standard(self.spec_to_standard()),
    {
        PrincipalData::Standard(StandardPrincipalData(self.version, self.bytes.0))
    }

    /// The address of a standard principal.
    pub open spec fn spec_from_standard(p: StandardPrincipalData) -> StacksAddress {
        StacksAddress { version: p.0, bytes: Hash160(p.1) }
    }

    /// The address of a standard principal.
    pub fn from_standard(p: &StandardPrincipalData) -> (r: StacksAddress)
        ensures
            r == Self::spec_from_standard(*p),
    {
        StacksAddress { version: p.0, bytes: Hash160(p.1) }
    }
}

/// What identifies a contract: the principal that issued it and its name.
#[derive(Debug, Eq, PartialOrd, Ord, Hash)]
pub struct QualifiedContractIdentifier {
    pub issuer: StandardPrincipalData,
    pub name: String,
}

/// The mathematical value of a contract identifier.
pub struct ContractIdView {
    pub issuer: StandardPrincipalData,
    pub name: Seq<char>,
}

impl View for QualifiedContractIdentifier {
    type V = ContractIdView;

    open spec fn view(&self) -> ContractIdView {
        ContractIdView { issuer: self.issuer, name: self.name@ }
    }
}

impl PartialEq for QualifiedContractIdentifier {
    fn eq(&self, other: &Self) -> (r: bool) {
        contract_eq(self, other)
    }
}

impl PartialEqSpecImpl for QualifiedContractIdentifier {
    open spec fn obeys_eq_spec() -> bool {
        true
    }

    open spec fn eq_spec(&self, other: &Self) -> bool {
        self@ == other@
    }
}

impl Clone for QualifiedContractIdentifier {
    fn clone(&self) -> (r: Self)
        ensures
            r@ == self@,
    {
        QualifiedContractIdentifier { issuer: self.issuer, name: self.name.clone() }
    }
}

/// An account or a contract.
#[derive(Debug, Eq, PartialOrd, Ord, Hash)]
pub enum PrincipalData {
    Standard(StandardPrincipalData),
    Contract(QualifiedContractIdentifier),
}

/// The mathematical value of a principal.
pub enum PrincipalView {
    Standard(StandardPrincipalData),
    Contract(ContractIdView),
}

impl View for PrincipalData {
    type V = PrincipalView;

    open spec fn view(&self) -> PrincipalView {
        match self {
            PrincipalData::Standard(p) => PrincipalView::Standard(*p),
            PrincipalData::Contract(c) => PrincipalView::Contract(c@),
        }
    }
}

impl PartialEq for PrincipalData {
    fn eq(&self, other: &Self) -> (r: bool) {
        principal_eq(self, other)
    }
}

impl PartialEqSpecImpl for PrincipalData {
    open spec fn obeys_eq_spec() -> bool {
        true
    }

    open spec fn eq_spec(&self, other: &Self) -> bool {
        self@ == other@
    }
}

impl Clone for PrincipalData {
    fn clone(&self) -> (r: Self)
        ensures
            r@ == self@,
    {
        match self {
            PrincipalData::Standard(p) => PrincipalData::Standard(*p),
            PrincipalData::Contract(c) => PrincipalData::Contract(c.clone()),
        }
    }
}

/// One class of asset: the contract that defines it and the asset's name.
#[derive(Debug, Eq, PartialOrd, Ord, Hash)]
pub struct AssetIdentifier {
    pub contract_identifier: QualifiedContractIdentifier,
    pub asset_name: String,
}

/// The mathematical value of an asset identifier.
pub struct AssetIdView {
    pub contract: ContractIdView,
    pub name: Seq<char>,
}

impl View for AssetIdentifier {
    type V = AssetIdView;

    open spec fn view(&self) -> AssetIdView {
        AssetIdView { contract: self.contract_identifier@, name: self.asset_name@ }
    }
}

impl PartialEq for AssetIdentifier {
    fn eq(&self, other: &Self) -> (r: bool) {
        asset_eq(self, other)
    }
}

impl PartialEqSpecImpl for AssetIdentifier {
    open spec fn obeys_eq_spec() -> bool {
        true
    }

    open spec fn eq_spec(&self, other: &Self) -> bool {
        self@ == other@
    }
}

impl Clone for AssetIdentifier {
    fn clone(&self) -> (r: Self)
        ensures
            r@ == self@,
    {
        AssetIdentifier {
            contract_identifier: self.contract_identifier.clone(),
            asset_name: self.asset_name.clone(),
        }
    }
}

/// Whether two standard principals are the same.
pub fn standard_principal_eq(a: &StandardPrincipalData, b: &StandardPrincipalData) -> (r: bool)
    ensures
        r == (*a == *b),
{
    a.0 == b.0 && bytes_eq(&a.1, &b.1)
}

/// Whether two contract identifiers are the same.
pub fn contract_eq(a: &QualifiedContractIdentifier, b: &QualifiedContractIdentifier) -> (r: bool)
    ensures
        r == (a@ == b@),
{
    standard_principal_eq(&a.issuer, &b.issuer) && a.name == b.name
}

/// Whether two principals are the same.
pub fn principal_eq(a: &PrincipalData, b: &PrincipalData) -> (r: bool)
    ensures
        r == (a@ == b@),
{
    match (a, b) {
        (PrincipalData::Standard(a), PrincipalData::Standard(b)) => standard_principal_eq(a, b),
        (PrincipalData::Contract(a), PrincipalData::Contract(b)) => contract_eq(a, b),
        _ => false,
    }
}

impl TableKey for PrincipalData {
    fn key_eq(&self, other: &Self) -> (r: bool) {
        principal_eq(self, other)
    }

    fn key_clone(&self) -> (r: Self) {
        self.clone()
    }
}

/// Whether two asset identifiers are the same.
pub fn asset_eq(a: &AssetIdentifier, b: &AssetIdentifier) -> (r: bool)
    ensures
        r == (a@ == b@),
{
    contract_eq(&a.contract_identifier, &b.contract_identifier) && a.asset_name == b.asset_name
}

impl TableKey for AssetIdentifier {
    fn key_eq(&self, other: &Self) -> (r: bool) {
        asset_eq(self, other)
    }

    fn key_clone(&self) -> (r: Self) {
        self.clone()
    }
}

} // verus!
