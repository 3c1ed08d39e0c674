//! Instruction descriptors and the four builders: mint initialization,
//! mint-to, native transfer and token transfer.

use vstd::prelude::*;
use vstd::string::*;
use solana_sdk::pubkey::Pubkey;
use crate::error::ApiError;

verus! {

/// One account that an instruction names, with its flags.
#[derive(Clone, Copy)]
pub struct AccountRef {
    pub pubkey: [u8; 32],
    pub is_signer: bool,
    pub is_writable: bool,
}

/// The mathematical value of an [`AccountRef`].
pub struct AccountModel {
    pub key: Seq<u8>,
    pub is_signer: bool,
    pub is_writable: bool,
}

impl View for AccountRef {
    type V = AccountModel;

    open spec fn view(&self) -> AccountModel {
        AccountModel { key: self.pubkey@, is_signer: self.is_signer, is_writable: self.is_writable }
    }
}

impl AccountRef {
    pub fn new(pubkey: [u8; 32], is_signer: bool, is_writable: bool) -> (r: AccountRef)
        ensures
            r.pubkey == pubkey,
            r.is_signer == is_signer,
            r.is_writable == is_writable,
    {
        AccountRef { pubkey, is_signer, is_writable }
    }
}

/// An unsigned instruction: the program to run, the accounts in the order the
/// program expects them, and the payload bytes.
pub struct Instruction {
    pub program_id: [u8; 32],
    pub accounts: Vec<AccountRef>,
    pub data: Vec<u8>,
}

/// The mathematical value of an [`Instruction`].
pub struct InstructionModel {
    pub program_id: Seq<u8>,
    pub accounts: Seq<AccountModel>,
    pub data: Seq<u8>,
}

impl View for Instruction {
    type V = InstructionModel;

    open spec fn view(&self) -> InstructionModel {
        InstructionModel {
            program_id: self.program_id@,
            accounts: self.accounts@.map_values(|a: AccountRef| a@),
            data: self.data@,
        }
    }
}

impl Instruction {
    pub fn new(program_id: [u8; 32], accounts: Vec<AccountRef>, data: Vec<u8>) -> (r: Instruction)
        ensures
            r.program_id == program_id,
            r.accounts@ == accounts@,
            r.data@ == data@,
    {
        Instruction { program_id, accounts, data }
    }
}

/// The token program's address, `TokenkegQfeZyiNwAJbNbGKPFXCWuBvf9Ss623VQ5DA`.
pub open spec fn token_program_key() -> Seq<u8> {
    seq![
        6u8, 221, 246, 225, 215, 101, 161, 147, 217, 203, 225, 70, 206, 235, 121, 172,
        28, 180, 133, 237, 95, 91, 55, 145, 58, 140, 245, 133, 126, 255, 0, 169,
    ]
}

/// The rent sysvar's address, `SysvarRent111111111111111111111111111111111`.
pub open spec fn rent_sysvar_key() -> Seq<u8> {
    seq![
        6u8, 167, 213, 23, 25, 44, 92, 81, 33, 140, 201, 76, 61, 74, 241, 127,
        88, 218, 238, 8, 155, 161, 253, 68, 227, 219, 217, 138, 0, 0, 0, 0,
    ]
}

/// The native (system) program's address: 32 zero bytes.
pub open spec fn system_program_key() -> Seq<u8> {
    Seq::new(32, |i: int| 0u8)
}

/// The eight little-endian bytes of `x`.
pub open spec fn le_u64(x: u64) -> Seq<u8> {
    seq![
        (x % 0x100) as u8,
        (x / 0x100 % 0x100) as u8,
        (x / 0x1_0000 % 0x100) as u8,
        (x / 0x100_0000 % 0x100) as u8,
        (x / 0x1_0000_0000 % 0x100) as u8,
        (x / 0x100_0000_0000 % 0x100) as u8,
        (x / 0x1_0000_0000_0000 % 0x100) as u8,
        (x / 0x100_0000_0000_0000 % 0x100) as u8,
    ]
}

/// Two amounts have the same little-endian bytes only when they are equal.
pub proof fn lemma_le_u64_injective(a: u64, b: u64)
    ensures
        le_u64(a) == le_u64(b) <==> a == b,
{
    if le_u64(a) == le_u64(b) {
        assert(le_u64(a)[0] == le_u64(b)[0]);
        assert(le_u64(a)[1] == le_u64(b)[1]);
        assert(le_u64(a)[2] == le_u64(b)[2]);
        assert(le_u64(a)[3] == le_u64(b)[3]);
        assert(le_u64(a)[4] == le_u64(b)[4]);
        assert(le_u64(a)[5] == le_u64(b)[5]);
        assert(le_u64(a)[6] == le_u64(b)[6]);
        assert(le_u64(a)[7] == le_u64(b)[7]);
        assert(((a % 0x100) as u8 == (b % 0x100) as u8 && (a / 0x100 % 0x100) as u8 == (b / 0x100 % 0x100) as u8
            && (a / 0x1_0000 % 0x100) as u8 == (b / 0x1_0000 % 0x100) as u8
            && (a / 0x100_0000 % 0x100) as u8 == (b / 0x100_0000 % 0x100) as u8
            && (a / 0x1_0000_0000 % 0x100) as u8 == (b / 0x1_0000_0000 % 0x100) as u8
            && (a / 0x100_0000_0000 % 0x100) as u8 == (b / 0x100_0000_0000 % 0x100) as u8
            && (a / 0x1_0000_0000_0000 % 0x100) as u8 == (b / 0x1_0000_0000_0000 % 0x100) as u8
            && (a / 0x100_0000_0000_0000 % 0x100) as u8 == (b / 0x100_0000_0000_0000 % 0x100) as u8)
            ==> a == b) by (bit_vector);
    }
}

/// For the same accounts, mint-to, token-transfer and native-transfer
/// payloads differ exactly when their amounts differ.
pub proof fn lemma_amount_payloads_injective(x: Seq<u8>, y: Seq<u8>, z: Seq<u8>, a: u64, b: u64)
    ensures
        mint_to_model(x, y, z, a).data == mint_to_model(x, y, z, b).data <==> a == b,
        token_transfer_model(x, y, z, a).data == token_transfer_model(x, y, z, b).data <==> a == b,
        native_transfer_model(x, y, a).data == native_transfer_model(x, y, b).data <==> a == b,
{
    lemma_le_u64_injective(a, b);
    let pa = seq![7u8] + le_u64(a);
    let pb = seq![7u8] + le_u64(b);
    if pa == pb {
        assert(le_u64(a) =~= pa.subrange(1, 9));
        assert(le_u64(b) =~= pb.subrange(1, 9));
    }
    let ta = seq![3u8] + le_u64(a);
    let tb = seq![3u8] + le_u64(b);
    if ta == tb {
        assert(le_u64(a) =~= ta.subrange(1, 9));
        assert(le_u64(b) =~= tb.subrange(1, 9));
    }
    let na = seq![2u8, 0, 0, 0] + le_u64(a);
    let nb = seq![2u8, 0, 0, 0] + le_u64(b);
    if na == nb {
        assert(le_u64(a) =~= na.subrange(4, 12));
        assert(le_u64(b) =~= nb.subrange(4, 12));
    }
}

pub open spec fn meta(key: Seq<u8>, is_signer: bool, is_writable: bool) -> AccountModel {
    AccountModel { key, is_signer, is_writable }
}

/// Mint initialization: tag 0, the decimals, the mint authority, and a zero
/// byte for "no freeze authority"; the mint (writable) and the rent sysvar.
pub open spec fn initialize_mint_model(
    mint: Seq<u8>,
    authority: Seq<u8>,
    decimals: u8,
) -> InstructionModel {
    InstructionModel {
        program_id: token_program_key(),
        accounts: seq![meta(mint, false, true), meta(rent_sysvar_key(), false, false)],
        data: seq![0u8, decimals] + authority + seq![0u8],
    }
}

/// Mint-to with a single authority: tag 7 and the amount; the mint and the
/// destination (writable) and the authority (signer).
pub open spec fn mint_to_model(
    mint: Seq<u8>,
    destination: Seq<u8>,
    authority: Seq<u8>,
    amount: u64,
) -> InstructionModel {
    InstructionModel {
        program_id: token_program_key(),
        accounts: seq![meta(mint, false, true), meta(destination, false, true), meta(authority, true, false)],
        data: seq![7u8] + le_u64(amount),
    }
}

/// Token transfer with a single authority: tag 3 and the amount; the source
/// and the destination (writable) and the owner (signer).
pub open spec fn token_transfer_model(
    source: Seq<u8>,
    destination: Seq<u8>,
    owner: Seq<u8>,
    amount: u64,
) -> InstructionModel {
    InstructionModel {
        program_id: token_program_key(),
        accounts: seq![meta(source, false, true), meta(destination, false, true), meta(owner, true, false)],
        data: seq![3u8] + le_u64(amount),
    }
}

/// Native transfer: the variant index 2 as four little-endian bytes, then the
/// lamports; the payer (signer, writable) and the recipient (writable).
pub open spec fn native_transfer_model(
    from: Seq<u8>,
    to: Seq<u8>,
    lamports: u64,
) -> InstructionModel {
    InstructionModel {
        program_id: system_program_key(),
        accounts: seq![meta(from, true, true), meta(to, false, true)],
        data: seq![2u8, 0, 0, 0] + le_u64(lamports),
    }
}

/// What `get_associated_token_address(wallet, mint)` derives for the wallet
/// and the mint.
pub uninterp spec fn associated_token_address(wallet: Seq<u8>, mint: Seq<u8>) -> Seq<u8>;

/// Relies on `spl_token::id()`: the token program's address.
#[verifier::external_body]
fn spl_token_id() -> (r: [u8; 32])
    ensures
        r@ == token_program_key(),
{
    spl_token::id().to_bytes()
}

/// Relies on `spl_token::instruction::initialize_mint` with no freeze
/// authority: it refuses any program id but the token program's, and
/// otherwise builds the layout of `initialize_mint_model`.
#[verifier::external_body]
fn spl_initialize_mint(
    program_id: &[u8; 32],
    mint: &[u8; 32],
    authority: &[u8; 32],
    decimals: u8,
) -> (r: Result<Instruction, String>)
    ensures
        r is Ok <==> program_id@ == token_program_key(),
        r is Ok ==> r->Ok_0@ == initialize_mint_model(mint@, authority@, decimals),
{
    let ix = spl_token::instruction::initialize_mint(
        &Pubkey::from(*program_id),
        &Pubkey::from(*mint),
        &Pubkey::from(*authority),
        None,
        decimals,
    )
    .map_err(|e| e.to_string())?;
    let accounts = ix.accounts.iter().map(
        |m| AccountRef::new(m.pubkey.to_bytes(), m.is_signer, m.is_writable),
    );
    Ok(Instruction::new(ix.program_id.to_bytes(), accounts.collect(), ix.data))
}

/// Relies on `spl_token::instruction::mint_to` with no multisig signers: it
/// refuses any program id but the token program's, and otherwise builds the
/// layout of `mint_to_model`.
#[verifier::external_body]
fn spl_mint_to(
    program_id: &[u8; 32],
    mint: &[u8; 32],
    destination: &[u8; 32],
    authority: &[u8; 32],
    amount: u64,
) -> (r: Result<Instruction, String>)
    ensures
        r is Ok <==> program_id@ == token_program_key(),
        r is Ok ==> r->Ok_0@ == mint_to_model(mint@, destination@, authority@, amount),
{
    let ix = spl_token::instruction::mint_to(
        &Pubkey::from(*program_id),
        &Pubkey::from(*mint),
        &Pubkey::from(*destination),
        &Pubkey::from(*authority),
        &[],
        amount,
    )
    .map_err(|e| e.to_string())?;
    let accounts = ix.accounts.iter().map(
        |m| AccountRef::new(m.pubkey.to_bytes(), m.is_signer, m.is_writable),
    );
    Ok(Instruction::new(ix.program_id.to_bytes(), accounts.collect(), ix.data))
}

/// Relies on `spl_token::instruction::transfer` with no multisig signers: it
/// refuses any program id but the token program's, and otherwise builds the
/// layout of `token_transfer_model`.
#[verifier::external_body]
fn spl_transfer(
    program_id: &[u8; 32],
    source: &[u8; 32],
    destination: &[u8; 32],
    owner: &[u8; 32],
    amount: u64,
) -> (r: Result<Instruction, String>)
    ensures
        r is Ok <==> program_id@ == token_program_key(),
        r is Ok ==> r->Ok_0@ == token_transfer_model(source@, destination@, owner@, amount),
{
    let ix = spl_token::instruction::transfer(
        &Pubkey::from(*program_id),
        &Pubkey::from(*source),
        &Pubkey::from(*destination),
        &Pubkey::from(*owner),
        &[],
        amount,
    )
    .map_err(|e| e.to_string())?;
    let accounts = ix.accounts.iter().map(
        |m| AccountRef::new(m.pubkey.to_bytes(), m.is_signer, m.is_writable),
    );
    Ok(Instruction::new(ix.program_id.to_bytes(), accounts.collect(), ix.data))
}

/// Relies on `system_instruction::transfer`: the bincode form of the
/// `Transfer` variant and the layout of `native_transfer_model`.
#[verifier::external_body]
fn system_transfer(from: &[u8; 32], to: &[u8; 32], lamports: u64) -> (r: Instruction)
    ensures
        r@ == native_transfer_model(from@, to@, lamports),
{
    let ix = solana_sdk::system_instruction::transfer(
        &Pubkey::from(*from),
        &Pubkey::from(*to),
        lamports,
    );
    let accounts = ix.accounts.iter().map(
        |m| AccountRef::new(m.pubkey.to_bytes(), m.is_signer, m.is_writable),
    );
    Instruction::new(ix.program_id.to_bytes(), accounts.collect(), ix.data)
}

/// Relies on `spl_associated_token_account::get_associated_token_address`:
/// the wallet's associated token account for the mint.
#[verifier::external_body]
fn associated_address(wallet: &[u8; 32], mint: &[u8; 32]) -> (r: [u8; 32])
    ensures
        r@ == associated_token_address(wallet@, mint@),
{
    let wallet = Pubkey::from(*wallet);
    let mint = Pubkey::from(*mint);
    spl_associated_token_account::get_associated_token_address(&wallet, &mint).to_bytes()
}

/// An internal error whose message is `prefix` followed by `detail`.
fn internal_error(prefix: &str, detail: &String) -> (r: ApiError)
    ensures
        r matches ApiError::InternalError(m) && m@ == prefix@ + detail@,
{
    let mut m = String::from_str(prefix);
    m.append(detail.as_str());
    ApiError::InternalError(m)
}

/// Builds the mint-initialization instruction of the token program, with no
/// freeze authority.
pub fn initialize_mint(
    mint: &[u8; 32],
    authority: &[u8; 32],
    decimals: u8,
) -> (r: Result<Instruction, ApiError>)
    ensures
        r is Ok,
        r->Ok_0@ == initialize_mint_model(mint@, authority@, decimals),
{
    let program_id = spl_token_id();
    match spl_initialize_mint(&program_id, mint, authority, decimals) {
        Ok(ix) => Ok(ix),
        Err(e) => Err(internal_error("Instruction creation failed: ", &e)),
    }
}

/// Builds a single-authority mint-to instruction; a zero amount is accepted.
pub fn mint_to(
    mint: &[u8; 32],
    destination: &[u8; 32],
    authority: &[u8; 32],
    amount: u64,
) -> (r: Result<Instruction, ApiError>)
    ensures
        r is Ok,
        r->Ok_0@ == mint_to_model(mint@, destination@, authority@, amount),
{
    let program_id = spl_token_id();
    match spl_mint_to(&program_id, mint, destination, authority, amount) {
        Ok(ix) => Ok(ix),
        Err(e) => Err(internal_error("Failed to create mint instruction: ", &e)),
    }
}

/// Builds a native-currency transfer; the builder never fails.
pub fn native_transfer(from: &[u8; 32], to: &[u8; 32], lamports: u64) -> (r: Instruction)
    ensures
        r@ == native_transfer_model(from@, to@, lamports),
{
    system_transfer(from, to, lamports)
}

/// Builds a single-authority token transfer between the associated token
/// accounts of the owner and of the destination for the mint.
pub fn token_transfer(
    owner: &[u8; 32],
    destination: &[u8; 32],
    mint: &[u8; 32],
    amount: u64,
) -> (r: Result<Instruction, ApiError>)
    ensures
        r is Ok,
        r->Ok_0@ == token_transfer_model(
            associated_token_address(owner@, mint@),
            associated_token_address(destination@, mint@),
            owner@,
            amount,
        ),
{
    let source = associated_address(owner, mint);
    let target = associated_address(destination, mint);
    let program_id = spl_token_id();
    match spl_transfer(&program_id, &source, &target, owner, amount) {
        Ok(ix) => Ok(ix),
        Err(e) => Err(internal_error("Failed to create token transfer instruction: ", &e)),
    }
}

} // verus!
