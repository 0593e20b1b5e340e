//! Computation contracts: the typed signature and circuit size that the
//! network must match before running a phase, keyed by an offset derived
//! from the phase name, and the instruction that registers one.

use vstd::prelude::*;
use vstd::string::StringSliceAdditionalSpecFns;
use vstd::utf8::encode_utf8;
use crate::Pubkey;
use crate::error::ErrorCode;
use crate::wire::{le_u32, le_u64, push_bytes, push_u32_le, push_u64_le, read_u32_le, u32_from_le};

verus! {

/// Type of one input slot of a computation contract.
#[derive(Clone, Copy, Debug, PartialEq, Eq, Structural)]
pub enum Parameter {
    PlaintextBool,
    PlaintextU8,
    PlaintextU16,
    PlaintextU32,
    PlaintextU64,
    PlaintextU128,
    Ciphertext,
    ArcisX25519Pubkey,
    ArcisSignature,
    PlaintextFloat,
    PlaintextI8,
    PlaintextI16,
    PlaintextI32,
    PlaintextI64,
    PlaintextI128,
    PlaintextPoint,
}

impl Parameter {
    /// Position of the variant in its declaration: its byte on the wire.
    pub open spec fn spec_tag(self) -> u8 {
        match self {
            Parameter::PlaintextBool => 0,
            Parameter::PlaintextU8 => 1,
            Parameter::PlaintextU16 => 2,
            Parameter::PlaintextU32 => 3,
            Parameter::PlaintextU64 => 4,
            Parameter::PlaintextU128 => 5,
            Parameter::Ciphertext => 6,
            Parameter::ArcisX25519Pubkey => 7,
            Parameter::ArcisSignature => 8,
            Parameter::PlaintextFloat => 9,
            Parameter::PlaintextI8 => 10,
            Parameter::PlaintextI16 => 11,
            Parameter::PlaintextI32 => 12,
            Parameter::PlaintextI64 => 13,
            Parameter::PlaintextI128 => 14,
            Parameter::PlaintextPoint => 15,
        }
    }

    pub fn tag(&self) -> (r: u8)
        ensures
            r == self.spec_tag(),
    {
        match *self {
            Parameter::PlaintextBool => 0,
            Parameter::PlaintextU8 => 1,
            Parameter::PlaintextU16 => 2,
            Parameter::PlaintextU32 => 3,
            Parameter::PlaintextU64 => 4,
            Parameter::PlaintextU128 => 5,
            Parameter::Ciphertext => 6,
            Parameter::ArcisX25519Pubkey => 7,
            Parameter::ArcisSignature => 8,
            Parameter::PlaintextFloat => 9,
            Parameter::PlaintextI8 => 10,
            Parameter::PlaintextI16 => 11,
            Parameter::PlaintextI32 => 12,
            Parameter::PlaintextI64 => 13,
            Parameter::PlaintextI128 => 14,
            Parameter::PlaintextPoint => 15,
        }
    }
}

/// Type of one output slot of a computation contract.
#[derive(Clone, Copy, Debug, PartialEq, Eq, Structural)]
pub enum Output {
    PlaintextBool,
    PlaintextU8,
    PlaintextU16,
    PlaintextU32,
    PlaintextU64,
    PlaintextU128,
    Ciphertext,
    ArcisX25519Pubkey,
    PlaintextFloat,
    PlaintextPoint,
    PlaintextI8,
    PlaintextI16,
    PlaintextI32,
    PlaintextI64,
    PlaintextI128,
}

impl Output {
    /// Position of the variant in its declaration: its byte on the wire.
    pub open spec fn spec_tag(self) -> u8 {
        match self {
            Output::PlaintextBool => 0,
            Output::PlaintextU8 => 1,
            Output::PlaintextU16 => 2,
            Output::PlaintextU32 => 3,
            Output::PlaintextU64 => 4,
            Output::PlaintextU128 => 5,
            Output::Ciphertext => 6,
            Output::ArcisX25519Pubkey => 7,
            Output::PlaintextFloat => 8,
            Output::PlaintextPoint => 9,
            Output::PlaintextI8 => 10,
            Output::PlaintextI16 => 11,
            Output::PlaintextI32 => 12,
            Output::PlaintextI64 => 13,
            Output::PlaintextI128 => 14,
        }
    }

    pub fn tag(&self) -> (r: u8)
        ensures
            r == self.spec_tag(),
    {
        match *self {
            Output::PlaintextBool => 0,
            Output::PlaintextU8 => 1,
            Output::PlaintextU16 => 2,
            Output::PlaintextU32 => 3,
            Output::PlaintextU64 => 4,
            Output::PlaintextU128 => 5,
            Output::Ciphertext => 6,
            Output::ArcisX25519Pubkey => 7,
            Output::PlaintextFloat => 8,
            Output::PlaintextPoint => 9,
            Output::PlaintextI8 => 10,
            Output::PlaintextI16 => 11,
            Output::PlaintextI32 => 12,
            Output::PlaintextI64 => 13,
            Output::PlaintextI128 => 14,
        }
    }
}

/// Circuits built into the network.
#[derive(Clone, Copy, Debug, PartialEq, Eq, Structural)]
pub enum LocalCircuitSource {
    MxeKeygen,
    MxeKeyRecoveryInit,
    MxeKeyRecoveryFinalize,
}

impl LocalCircuitSource {
    /// Position of the variant in its declaration: its byte on the wire.
    pub open spec fn spec_tag(self) -> u8 {
        match self {
            LocalCircuitSource::MxeKeygen => 0,
            LocalCircuitSource::MxeKeyRecoveryInit => 1,
            LocalCircuitSource::MxeKeyRecoveryFinalize => 2,
        }
    }

    pub fn tag(&self) -> (r: u8)
        ensures
            r == self.spec_tag(),
    {
        match *self {
            LocalCircuitSource::MxeKeygen => 0,
            LocalCircuitSource::MxeKeyRecoveryInit => 1,
            LocalCircuitSource::MxeKeyRecoveryFinalize => 2,
        }
    }
}

/// Ordered input and output slot types of a contract.
#[derive(Clone, Debug)]
pub struct ComputationSignature {
    pub parameters: Vec<Parameter>,
    pub outputs: Vec<Output>,
}

/// A contract's signature together with its declared circuit size.
#[derive(Clone, Debug)]
pub struct ComputationDefinitionMeta {
    pub circuit_len: u32,
    pub signature: ComputationSignature,
}

/// A circuit stored on the ledger, uploaded later under `upload_auth`.
#[derive(Clone, Copy, Debug)]
pub struct OnChainCircuitSource {
    pub is_completed: bool,
    pub upload_auth: Pubkey,
}

/// A circuit fetched from elsewhere, pinned by its hash.
#[derive(Clone, Debug)]
pub struct OffChainCircuitSource {
    pub source: String,
    pub hash: [u8; 32],
}

/// Where the network finds the circuit of a contract.
#[derive(Clone, Debug)]
pub enum CircuitSource {
    Local(LocalCircuitSource),
    OnChain(OnChainCircuitSource),
    OffChain(OffChainCircuitSource),
}

/// Arguments of the network's contract-registration entry point.
#[derive(Clone, Debug)]
pub struct InitComputationDefinitionArgs {
    pub comp_offset: u32,
    pub mxe_program: Pubkey,
    pub computation_definition: ComputationDefinitionMeta,
    pub circuit_source: Option<CircuitSource>,
    pub cu_amount: u64,
    pub finalization_authority: Option<Pubkey>,
}

pub open spec fn parameter_tags(ps: Seq<Parameter>) -> Seq<u8> {
    ps.map_values(|p: Parameter| p.spec_tag())
}

pub open spec fn output_tags(os: Seq<Output>) -> Seq<u8> {
    os.map_values(|o: Output| o.spec_tag())
}

/// Encoding of a signature: each list as a 4-byte little-endian length
/// followed by one byte per slot.
pub open spec fn signature_bytes(s: ComputationSignature) -> Seq<u8> {
    le_u32(s.parameters@.len() as u32) + parameter_tags(s.parameters@) + le_u32(
        s.outputs@.len() as u32,
    ) + output_tags(s.outputs@)
}

pub open spec fn meta_bytes(m: ComputationDefinitionMeta) -> Seq<u8> {
    le_u32(m.circuit_len) + signature_bytes(m.signature)
}

pub open spec fn bool_byte(b: bool) -> u8 {
    if b {
        1
    } else {
        0
    }
}

pub open spec fn circuit_source_bytes(c: CircuitSource) -> Seq<u8> {
    match c {
        CircuitSource::Local(l) => seq![0u8, l.spec_tag()],
        CircuitSource::OnChain(o) => seq![1u8, bool_byte(o.is_completed)] + o.upload_auth@,
        CircuitSource::OffChain(o) => seq![2u8] + le_u32(encode_utf8(o.source@).len() as u32)
            + encode_utf8(o.source@) + o.hash@,
    }
}

pub open spec fn optional_source_bytes(c: Option<CircuitSource>) -> Seq<u8> {
    match c {
        None => seq![0u8],
        Some(s) => seq![1u8] + circuit_source_bytes(s),
    }
}

pub open spec fn optional_key_bytes(k: Option<Pubkey>) -> Seq<u8> {
    match k {
        None => seq![0u8],
        Some(key) => seq![1u8] + key@,
    }
}

/// Encoding of the registration arguments, field by field in declaration order.
pub open spec fn args_bytes(a: InitComputationDefinitionArgs) -> Seq<u8> {
    le_u32(a.comp_offset) + a.mxe_program@ + meta_bytes(a.computation_definition)
        + optional_source_bytes(a.circuit_source) + le_u64(a.cu_amount) + optional_key_bytes(
        a.finalization_authority,
    )
}

impl ComputationSignature {
    /// Both lists are short enough for their 4-byte length prefix.
    pub open spec fn fits(&self) -> bool {
        self.parameters@.len() <= u32::MAX && self.outputs@.len() <= u32::MAX
    }

    /// Appends the encoding of the signature.
    pub fn serialize(&self, out: &mut Vec<u8>)
        requires
            self.fits(),
        ensures
            final(out)@ == old(out)@ + signature_bytes(*self),
    {
        let ghost start = out@;
        push_u32_le(out, self.parameters.len() as u32);
        let mut i: usize = 0;
        while i < self.parameters.len()
            invariant
                self.fits(),
                i <= self.parameters@.len(),
                out@ == start + le_u32(self.parameters@.len() as u32) + parameter_tags(
                    self.parameters@.subrange(0, i as int),
                ),
            decreases self.parameters@.len() - i,
        {
            let t = self.parameters[i].tag();
            out.push(t);
            i = i + 1;
            assert(parameter_tags(self.parameters@.subrange(0, i as int)) =~= parameter_tags(
                self.parameters@.subrange(0, i - 1),
            ).push(t));
        }
        assert(self.parameters@.subrange(0, i as int) =~= self.parameters@);
        let ghost mid = out@;
        push_u32_le(out, self.outputs.len() as u32);
        let mut j: usize = 0;
        while j < self.outputs.len()
            invariant
                self.fits(),
                j <= self.outputs@.len(),
                out@ == mid + le_u32(self.outputs@.len() as u32) + output_tags(
                    self.outputs@.subrange(0, j as int),
                ),
            decreases self.outputs@.len() - j,
        {
            let t = self.outputs[j].tag();
            out.push(t);
            j = j + 1;
            assert(output_tags(self.outputs@.subrange(0, j as int)) =~= output_tags(
                self.outputs@.subrange(0, j - 1),
            ).push(t));
        }
        assert(self.outputs@.subrange(0, j as int) =~= self.outputs@);
        assert(out@ =~= start + signature_bytes(*self));
    }
}

impl ComputationDefinitionMeta {
    /// Appends the circuit size, then the signature.
    pub fn serialize(&self, out: &mut Vec<u8>)
        requires
            self.signature.fits(),
        ensures
            final(out)@ == old(out)@ + meta_bytes(*self),
    {
        let ghost start = out@;
        push_u32_le(out, self.circuit_len);
        self.signature.serialize(out);
        assert(out@ =~= start + meta_bytes(*self));
    }
}

impl CircuitSource {
    /// The source string, if any, is short enough for its length prefix.
    pub open spec fn fits(&self) -> bool {
        match self {
            CircuitSource::OffChain(o) => encode_utf8(o.source@).len() <= u32::MAX,
            _ => true,
        }
    }

    /// Appends the variant byte, then the variant's fields.
    pub fn serialize(&self, out: &mut Vec<u8>)
        requires
            self.fits(),
        ensures
            final(out)@ == old(out)@ + circuit_source_bytes(*self),
    {
        let ghost start = out@;
        match self {
            CircuitSource::Local(l) => {
                out.push(0u8);
                out.push(l.tag());
            },
            CircuitSource::OnChain(o) => {
                out.push(1u8);
                out.push(if o.is_completed { 1u8 } else { 0u8 });
                push_bytes(out, o.upload_auth.as_slice());
            },
            CircuitSource::OffChain(o) => {
                out.push(2u8);
                let b = o.source.as_str().as_bytes();
                push_u32_le(out, b.len() as u32);
                push_bytes(out, b);
                push_bytes(out, o.hash.as_slice());
            },
        }
        assert(out@ =~= start + circuit_source_bytes(*self));
    }
}

impl InitComputationDefinitionArgs {
    /// Every length prefix in the encoding fits in four bytes.
    pub open spec fn fits(&self) -> bool {
        &&& self.computation_definition.signature.fits()
        &&& match self.circuit_source {
            Some(c) => c.fits(),
            None => true,
        }
    }

    /// Appends the encoding of the arguments, field by field.
    pub fn serialize(&self, out: &mut Vec<u8>)
        requires
            self.fits(),
        ensures
            final(out)@ == old(out)@ + args_bytes(*self),
    {
        let ghost start = out@;
        push_u32_le(out, self.comp_offset);
        push_bytes(out, self.mxe_program.as_slice());
        self.computation_definition.serialize(out);
        match &self.circuit_source {
            None => out.push(0u8),
            Some(c) => {
                out.push(1u8);
                c.serialize(out);
            },
        }
        push_u64_le(out, self.cu_amount);
        match &self.finalization_authority {
            None => out.push(0u8),
            Some(k) => {
                out.push(1u8);
                push_bytes(out, k.as_slice());
            },
        }
        assert(out@ =~= start + args_bytes(*self));
    }
}

/// The SHA-256 digest of a byte string.
pub uninterp spec fn sha256_of(data: Seq<u8>) -> Seq<u8>;

/// Relies on solana_program::hash::hash: the 32-byte SHA-256 digest of
/// `data`, which depends on the bytes alone.
#[verifier::external_body]
fn sha256(data: &[u8]) -> (r: [u8; 32])
    ensures
        r@ == sha256_of(data@),
{
    solana_program::hash::hash(data).to_bytes()
}

/// The routing offset of a phase name: the first four bytes of its digest,
/// read little-endian.
pub open spec fn offset_of(name: Seq<u8>) -> u32 {
    u32_from_le(sha256_of(name))
}

/// Computes the offset under which the network routes the phase `label`.
pub fn get_noop_offset(label: &str) -> (r: u32)
    ensures
        r == offset_of(label.spec_bytes()),
{
    let digest = sha256(label.as_bytes());
    read_u32_le(digest.as_slice())
}

/// Instruction discriminator of the network's registration entry point.
pub const INIT_COMP_DEF_DISCRIMINATOR: [u8; 8] = [45, 185, 155, 17, 97, 77, 230, 73];

/// Compute units granted to each registered contract.
pub const CU_AMOUNT: u64 = 1_000_000;

pub open spec fn discriminator_bytes() -> Seq<u8> {
    seq![45u8, 185, 155, 17, 97, 77, 230, 73]
}

/// The registration arguments for a circuit to be uploaded on the ledger by `payer`.
pub open spec fn onchain_args(
    comp_offset: u32,
    mxe_program: Pubkey,
    meta: ComputationDefinitionMeta,
    payer: Pubkey,
) -> InitComputationDefinitionArgs {
    InitComputationDefinitionArgs {
        comp_offset,
        mxe_program,
        computation_definition: meta,
        circuit_source: Some(
            CircuitSource::OnChain(OnChainCircuitSource { is_completed: false, upload_auth: payer }),
        ),
        cu_amount: CU_AMOUNT,
        finalization_authority: None,
    }
}

/// Payload of the registration instruction: discriminator, then the arguments.
pub open spec fn instruction_bytes(a: InitComputationDefinitionArgs) -> Seq<u8> {
    discriminator_bytes() + args_bytes(a)
}

/// One registered contract.
#[derive(Clone, Debug)]
pub struct RegisteredContract {
    pub offset: u32,
    pub meta: ComputationDefinitionMeta,
    pub upload_auth: Pubkey,
}

/// The contracts registered so far, at most one per offset.
#[derive(Clone, Debug)]
pub struct ContractRegistry {
    pub contracts: Vec<RegisteredContract>,
}

impl ContractRegistry {
    pub open spec fn is_registered(&self, offset: u32) -> bool {
        exists|i: int| 0 <= i < self.contracts@.len() && #[trigger] self.contracts@[i].offset == offset
    }

    /// No two contracts share an offset.
    pub open spec fn wf(&self) -> bool {
        forall|i: int, j: int|
            0 <= i < j < self.contracts@.len() ==> #[trigger] self.contracts@[i].offset
                != #[trigger] self.contracts@[j].offset
    }

    pub fn new() -> (r: Self)
        ensures
            r.wf(),
            r.contracts@.len() == 0,
    {
        ContractRegistry { contracts: Vec::new() }
    }

    /// Whether a contract is registered under `offset`.
    pub fn contains(&self, offset: u32) -> (r: bool)
        ensures
            r == self.is_registered(offset),
    {
        let mut i: usize = 0;
        while i < self.contracts.len()
            invariant
                i <= self.contracts@.len(),
                forall|k: int| 0 <= k < i ==> #[trigger] self.contracts@[k].offset != offset,
            decreases self.contracts@.len() - i,
        {
            if self.contracts[i].offset == offset {
                return true;
            }
            i = i + 1;
        }
        false
    }
}

/// What registering `meta` under `comp_offset` does to `before`: refused when
/// the offset is taken, otherwise the contract is appended.
pub open spec fn registration(
    before: ContractRegistry,
    after: ContractRegistry,
    r: Result<Vec<u8>, ErrorCode>,
    comp_offset: u32,
    mxe_program: Pubkey,
    meta: ComputationDefinitionMeta,
    payer: Pubkey,
) -> bool {
    if before.is_registered(comp_offset) {
        r == Err::<Vec<u8>, ErrorCode>(ErrorCode::ContractAlreadyRegistered) && after == before
    } else {
        &&& r is Ok
        &&& r->Ok_0@ == instruction_bytes(onchain_args(comp_offset, mxe_program, meta, payer))
        &&& after.contracts@ == before.contracts@.push(
            RegisteredContract { offset: comp_offset, meta, upload_auth: payer },
        )
    }
}

/// Registers `meta` under `comp_offset` and returns the payload of the
/// instruction that forwards it to the network, with `payer` as the authority
/// that may later upload the circuit. A taken offset is refused, never
/// overwritten.
pub fn init_computation_definition(
    registry: &mut ContractRegistry,
    payer: Pubkey,
    mxe_program: Pubkey,
    comp_offset: u32,
    meta: ComputationDefinitionMeta,
) -> (r: Result<Vec<u8>, ErrorCode>)
    requires
        old(registry).wf(),
        meta.signature.fits(),
    ensures
        final(registry).wf(),
        registration(*old(registry), *final(registry), r, comp_offset, mxe_program, meta, payer),
{
    if registry.contains(comp_offset) {
        return Err(ErrorCode::ContractAlreadyRegistered);
    }
    let args = InitComputationDefinitionArgs {
        comp_offset,
        mxe_program,
        computation_definition: meta,
        circuit_source: Some(
            CircuitSource::OnChain(OnChainCircuitSource { is_completed: false, upload_auth: payer }),
        ),
        cu_amount: CU_AMOUNT,
        finalization_authority: None,
    };
    let mut data: Vec<u8> = Vec::new();
    let disc = INIT_COMP_DEF_DISCRIMINATOR;
    push_bytes(&mut data, disc.as_slice());
    assert(disc@ =~= discriminator_bytes());
    args.serialize(&mut data);
    assert(data@ =~= instruction_bytes(onchain_args(comp_offset, mxe_program, meta, payer)));
    let entry = RegisteredContract {
        offset: comp_offset,
        meta: args.computation_definition,
        upload_auth: payer,
    };
    registry.contracts.push(entry);
    Ok(data)
}

/// Registers `meta` under the offset derived from the phase `name`.
pub fn register_contract(
    registry: &mut ContractRegistry,
    payer: Pubkey,
    mxe_program: Pubkey,
    name: &str,
    meta: ComputationDefinitionMeta,
) -> (r: Result<Vec<u8>, ErrorCode>)
    requires
        old(registry).wf(),
        meta.signature.fits(),
    ensures
        final(registry).wf(),
        registration(
            *old(registry),
            *final(registry),
            r,
            offset_of(name.spec_bytes()),
            mxe_program,
            meta,
            payer,
        ),
{
    let offset = get_noop_offset(name);
    init_computation_definition(registry, payer, mxe_program, offset, meta)
}

/// Once a phase name has been registered, registering it again is refused,
/// whatever the contract offered the second time, and leaves the registry as
/// it was.
pub proof fn lemma_second_registration_fails(
    r0: ContractRegistry,
    r1: ContractRegistry,
    r2: ContractRegistry,
    res1: Result<Vec<u8>, ErrorCode>,
    res2: Result<Vec<u8>, ErrorCode>,
    name: Seq<u8>,
    mxe1: Pubkey,
    mxe2: Pubkey,
    meta1: ComputationDefinitionMeta,
    meta2: ComputationDefinitionMeta,
    payer1: Pubkey,
    payer2: Pubkey,
)
    requires
        registration(r0, r1, res1, offset_of(name), mxe1, meta1, payer1),
        registration(r1, r2, res2, offset_of(name), mxe2, meta2, payer2),
    ensures
        res2 == Err::<Vec<u8>, ErrorCode>(ErrorCode::ContractAlreadyRegistered),
        r2 == r1,
{
    if !r0.is_registered(offset_of(name)) {
        let last = r1.contracts@.len() - 1;
        assert(r1.contracts@[last].offset == offset_of(name));
    }
}

pub open spec fn ciphertext_parameters(n: nat) -> Seq<Parameter> {
    Seq::new(n, |i: int| Parameter::Ciphertext)
}

pub open spec fn ciphertext_outputs(n: nat) -> Seq<Output> {
    Seq::new(n, |i: int| Output::Ciphertext)
}

/// `m` declares circuit size `circuit_len` and exactly these slots.
pub open spec fn meta_is(
    m: ComputationDefinitionMeta,
    circuit_len: u32,
    parameters: Seq<Parameter>,
    outputs: Seq<Output>,
) -> bool {
    m.circuit_len == circuit_len && m.signature.parameters@ == parameters
        && m.signature.outputs@ == outputs
}

/// Slots of the phase that re-encrypts a shared-key tally under the network key:
/// a key and nonce, then the eight counters.
pub open spec fn init_tally_parameters() -> Seq<Parameter> {
    seq![Parameter::ArcisX25519Pubkey, Parameter::PlaintextU128] + ciphertext_parameters(8)
}

/// Slots of the phase that adds one ballot: the voter's key, nonce and
/// encrypted selector, then the tally's nonce and eight counters.
pub open spec fn apply_vote_parameters() -> Seq<Parameter> {
    seq![
        Parameter::ArcisX25519Pubkey,
        Parameter::PlaintextU128,
        Parameter::Ciphertext,
        Parameter::PlaintextU128,
    ] + ciphertext_parameters(8)
}

/// Slots of the phase that decrypts the tally: its nonce and eight counters.
pub open spec fn reveal_tally_parameters() -> Seq<Parameter> {
    seq![Parameter::PlaintextU128] + ciphertext_parameters(8)
}

/// A re-encrypted tally: its nonce and eight counters.
pub open spec fn encrypted_tally_outputs() -> Seq<Output> {
    seq![Output::PlaintextU128] + ciphertext_outputs(8)
}

/// Eight plaintext counters.
pub open spec fn reveal_tally_outputs() -> Seq<Output> {
    Seq::new(8, |i: int| Output::PlaintextU64)
}

pub const INIT_TALLY_CIRCUIT_LEN: u32 = 1348136;

pub const APPLY_VOTE_CIRCUIT_LEN: u32 = 1392952;

pub const REVEAL_TALLY_CIRCUIT_LEN: u32 = 477444;

fn push_ciphertext_parameters(v: &mut Vec<Parameter>, n: usize)
    ensures
        final(v)@ == old(v)@ + ciphertext_parameters(n as nat),
{
    let ghost start = v@;
    let mut i: usize = 0;
    while i < n
        invariant
            i <= n,
            v@ == start + ciphertext_parameters(i as nat),
        decreases n - i,
    {
        v.push(Parameter::Ciphertext);
        i = i + 1;
        assert(v@ =~= start + ciphertext_parameters(i as nat));
    }
}

fn push_outputs(v: &mut Vec<Output>, o: Output, n: usize)
    ensures
        final(v)@ == old(v)@ + Seq::new(n as nat, |i: int| o),
{
    let ghost start = v@;
    let mut i: usize = 0;
    while i < n
        invariant
            i <= n,
            v@ == start + Seq::new(i as nat, |k: int| o),
        decreases n - i,
    {
        v.push(o);
        i = i + 1;
        assert(v@ =~= start + Seq::new(i as nat, |k: int| o));
    }
}

/// The contract of the phase that re-encrypts the initial tally.
pub fn init_tally_meta() -> (m: ComputationDefinitionMeta)
    ensures
        meta_is(m, INIT_TALLY_CIRCUIT_LEN, init_tally_parameters(), encrypted_tally_outputs()),
{
    let mut parameters: Vec<Parameter> = Vec::new();
    parameters.push(Parameter::ArcisX25519Pubkey);
    parameters.push(Parameter::PlaintextU128);
    push_ciphertext_parameters(&mut parameters, 8);
    let mut outputs: Vec<Output> = Vec::new();
    outputs.push(Output::PlaintextU128);
    push_outputs(&mut outputs, Output::Ciphertext, 8);
    assert(parameters@ =~= init_tally_parameters());
    assert(outputs@ =~= encrypted_tally_outputs());
    ComputationDefinitionMeta {
        circuit_len: INIT_TALLY_CIRCUIT_LEN,
        signature: ComputationSignature { parameters, outputs },
    }
}

/// The contract of the phase that adds one ballot to the tally.
pub fn apply_vote_meta() -> (m: ComputationDefinitionMeta)
    ensures
        meta_is(m, APPLY_VOTE_CIRCUIT_LEN, apply_vote_parameters(), encrypted_tally_outputs()),
{
    let mut parameters: Vec<Parameter> = Vec::new();
    parameters.push(Parameter::ArcisX25519Pubkey);
    parameters.push(Parameter::PlaintextU128);
    parameters.push(Parameter::Ciphertext);
    parameters.push(Parameter::PlaintextU128);
    push_ciphertext_parameters(&mut parameters, 8);
    let mut outputs: Vec<Output> = Vec::new();
    outputs.push(Output::PlaintextU128);
    push_outputs(&mut outputs, Output::Ciphertext, 8);
    assert(parameters@ =~= apply_vote_parameters());
    assert(outputs@ =~= encrypted_tally_outputs());
    ComputationDefinitionMeta {
        circuit_len: APPLY_VOTE_CIRCUIT_LEN,
        signature: ComputationSignature { parameters, outputs },
    }
}

/// The contract of the phase that decrypts the tally.
pub fn reveal_tally_meta() -> (m: ComputationDefinitionMeta)
    ensures
        meta_is(m, REVEAL_TALLY_CIRCUIT_LEN, reveal_tally_parameters(), reveal_tally_outputs()),
{
    let mut parameters: Vec<Parameter> = Vec::new();
    parameters.push(Parameter::PlaintextU128);
    push_ciphertext_parameters(&mut parameters, 8);
    let mut outputs: Vec<Output> = Vec::new();
    push_outputs(&mut outputs, Output::PlaintextU64, 8);
    assert(parameters@ =~= reveal_tally_parameters());
    assert(outputs@ =~= reveal_tally_outputs());
    ComputationDefinitionMeta {
        circuit_len: REVEAL_TALLY_CIRCUIT_LEN,
        signature: ComputationSignature { parameters, outputs },
    }
}

/// Registers the contract of the `init_tally` phase.
pub fn init_init_tally_comp_def(
    registry: &mut ContractRegistry,
    payer: Pubkey,
    mxe_program: Pubkey,
) -> (r: Result<Vec<u8>, ErrorCode>)
    requires
        old(registry).wf(),
    ensures
        final(registry).wf(),
        exists|m: ComputationDefinitionMeta|
            meta_is(m, INIT_TALLY_CIRCUIT_LEN, init_tally_parameters(), encrypted_tally_outputs())
                && #[trigger] registration(
                *old(registry),
                *final(registry),
                r,
                offset_of("init_tally".spec_bytes()),
                mxe_program,
                m,
                payer,
            ),
{
    let meta = init_tally_meta();
    let ghost m = meta;
    let r = register_contract(registry, payer, mxe_program, "init_tally", meta);
    assert(registration(
        *old(registry),
        *registry,
        r,
        offset_of("init_tally".spec_bytes()),
        mxe_program,
        m,
        payer,
    ));
    r
}

/// Registers the contract of the `apply_vote` phase.
pub fn init_apply_vote_comp_def(
    registry: &mut ContractRegistry,
    payer: Pubkey,
    mxe_program: Pubkey,
) -> (r: Result<Vec<u8>, ErrorCode>)
    requires
        old(registry).wf(),
    ensures
        final(registry).wf(),
        exists|m: ComputationDefinitionMeta|
            meta_is(m, APPLY_VOTE_CIRCUIT_LEN, apply_vote_parameters(), encrypted_tally_outputs())
                && #[trigger] registration(
                *old(registry),
                *final(registry),
                r,
                offset_of("apply_vote".spec_bytes()),
                mxe_program,
                m,
                payer,
            ),
{
    let meta = apply_vote_meta();
    let ghost m = meta;
    let r = register_contract(registry, payer, mxe_program, "apply_vote", meta);
    assert(registration(
        *old(registry),
        *registry,
        r,
        offset_of("apply_vote".spec_bytes()),
        mxe_program,
        m,
        payer,
    ));
    r
}

/// Registers the contract of the `reveal_tally` phase.
pub fn init_reveal_tally_comp_def(
    registry: &mut ContractRegistry,
    payer: Pubkey,
    mxe_program: Pubkey,
) -> (r: Result<Vec<u8>, ErrorCode>)
    requires
        old(registry).wf(),
    ensures
        final(registry).wf(),
        exists|m: ComputationDefinitionMeta|
            meta_is(m, REVEAL_TALLY_CIRCUIT_LEN, reveal_tally_parameters(), reveal_tally_outputs())
                && #[trigger] registration(
                *old(registry),
                *final(registry),
                r,
                offset_of("reveal_tally".spec_bytes()),
                mxe_program,
                m,
                payer,
            ),
{
    let meta = reveal_tally_meta();
    let ghost m = meta;
    let r = register_contract(registry, payer, mxe_program, "reveal_tally", meta);
    assert(registration(
        *old(registry),
        *registry,
        r,
        offset_of("reveal_tally".spec_bytes()),
        mxe_program,
        m,
        payer,
    ));
    r
}

} // verus!
