//! The ledger side of a proposal: creation, tally initialization, gated and
//! time-bounded voting with one ballot per voter, and finalization.

use vstd::prelude::*;
use crate::Pubkey;
use crate::ct_eq::constant_time_eq;
use crate::error::ErrorCode;
use crate::tally::{MAX_OPTIONS, count_of, lemma_count_bounded, lemma_reveal_counts, tally_of};

verus! {

pub const TITLE_MAX_LEN: usize = 128;

pub const OPTION_MAX_LEN: usize = 128;

pub const MAX_WHITELIST: usize = 64;

/// Eligibility mode: only keys on the whitelist may vote.
pub const MODE_WHITELIST: u8 = 1;

/// Eligibility mode: only holders of the gating token may vote.
/// Any mode other than this and `MODE_WHITELIST` lets everyone vote.
pub const MODE_TOKEN_GATED: u8 = 2;

/// A proposal as stored on the ledger.
#[derive(Clone, Debug)]
pub struct Proposal {
    pub creator: Pubkey,
    pub title: [u8; TITLE_MAX_LEN],
    pub options: Vec<[u8; OPTION_MAX_LEN]>,
    pub start_time: i64,
    pub end_time: i64,
    pub eligibility_mode: u8,
    pub tally_initialized: bool,
    pub finalized: bool,
    pub finalize_signature: Pubkey,
    pub results: Vec<u64>,
    pub bump: u8,
    pub mint: Pubkey,
    pub whitelist: Vec<Pubkey>,
    pub version: u8,
    pub vote_count: u64,
}

/// The latest ciphertext of a proposal's tally and the proposal it belongs to.
#[derive(Clone, Copy, Debug)]
pub struct EncryptedTally {
    pub proposal: Pubkey,
    pub last_encrypted_vote: [u8; 32],
    pub bump: u8,
}

/// Marks that `voter` has voted on the proposal that holds the record.
#[derive(Clone, Copy, Debug)]
pub struct VoterRecord {
    pub voter: Pubkey,
}

/// What a token-gated vote reads of the voter's token account.
#[derive(Clone, Copy, Debug)]
pub struct TokenAccount {
    pub mint: Pubkey,
    pub owner: Pubkey,
    pub amount: u64,
}

/// A proposal with the records that hang off it: its tally once
/// initialized, and one record per voter who has voted.
pub struct ProposalAccounts {
    pub address: Pubkey,
    pub proposal: Proposal,
    pub encrypted_tally: Option<EncryptedTally>,
    pub voter_records: Vec<VoterRecord>,
    /// The option index of each accepted ballot, in order.
    pub ballots: Ghost<Seq<u8>>,
}

impl ProposalAccounts {
    pub open spec fn has_voted(&self, voter: Pubkey) -> bool {
        exists|i: int|
            0 <= i < self.voter_records@.len() && #[trigger] self.voter_records@[i].voter@ == voter@
    }

    /// The invariant that every transition keeps.
    pub open spec fn wf(&self) -> bool {
        &&& self.proposal.options@.len() <= MAX_OPTIONS
        &&& self.proposal.whitelist@.len() <= MAX_WHITELIST
        &&& self.proposal.results@.len() == self.proposal.options@.len()
        &&& self.proposal.vote_count == self.voter_records@.len()
        &&& self.ballots@.len() == self.voter_records@.len()
        &&& forall|j: int|
            0 <= j < self.proposal.results@.len() ==> #[trigger] self.proposal.results@[j]
                == count_of(self.ballots@, j)
        &&& forall|i: int, k: int|
            0 <= i < k < self.voter_records@.len() ==> #[trigger] self.voter_records@[i].voter@
                != #[trigger] self.voter_records@[k].voter@
        &&& self.proposal.tally_initialized == self.encrypted_tally is Some
    }
}

/// Whether `voter` holds an equal key in `whitelist`.
pub open spec fn whitelisted(whitelist: Seq<Pubkey>, voter: Pubkey) -> bool {
    exists|i: int| 0 <= i < whitelist.len() && #[trigger] whitelist[i]@ == voter@
}

/// Why `voter` may not vote on `p` with `token`, if any reason holds.
pub open spec fn eligibility_error(p: Proposal, voter: Pubkey, token: Option<TokenAccount>) -> Option<
    ErrorCode,
> {
    if p.eligibility_mode == MODE_WHITELIST {
        if whitelisted(p.whitelist@, voter) {
            None
        } else {
            Some(ErrorCode::NotWhitelisted)
        }
    } else if p.eligibility_mode == MODE_TOKEN_GATED {
        match token {
            None => Some(ErrorCode::TokenAccountRequired),
            Some(t) => if t.mint@ != p.mint@ {
                Some(ErrorCode::InvalidMint)
            } else if t.owner@ != voter@ {
                Some(ErrorCode::InvalidTokenOwner)
            } else if t.amount == 0 {
                Some(ErrorCode::InsufficientTokens)
            } else {
                None
            },
        }
    } else {
        None
    }
}

/// The first check a ballot fails, in the order they are made: tally
/// initialized, window opened, window not closed (the end instant itself
/// still accepts), not finalized, eligible, not voted before.
pub open spec fn vote_error(
    a: ProposalAccounts,
    voter: Pubkey,
    now: i64,
    token: Option<TokenAccount>,
) -> Option<ErrorCode> {
    if !a.proposal.tally_initialized {
        Some(ErrorCode::TallyNotInitialized)
    } else if now < a.proposal.start_time {
        Some(ErrorCode::VotingNotStarted)
    } else if now > a.proposal.end_time {
        Some(ErrorCode::VotingEnded)
    } else if a.proposal.finalized {
        Some(ErrorCode::AlreadyFinalized)
    } else if eligibility_error(a.proposal, voter, token) is Some {
        eligibility_error(a.proposal, voter, token)
    } else if a.has_voted(voter) {
        Some(ErrorCode::DuplicateVoterRecord)
    } else {
        None
    }
}

/// The public counters after a ballot for `index`: that counter goes up by
/// one; an index past the options changes none.
pub open spec fn counted(results: Seq<u64>, index: u8) -> Seq<u64> {
    if (index as int) < results.len() {
        results.update(index as int, (results[index as int] + 1) as u64)
    } else {
        results
    }
}

/// What one `cast_vote` call does: refused with the first failing check and
/// nothing changed, or the ballot recorded.
pub open spec fn vote_outcome(
    before: ProposalAccounts,
    after: ProposalAccounts,
    r: Result<(), ErrorCode>,
    voter: Pubkey,
    now: i64,
    encrypted_vote: [u8; 32],
    vote_index: u8,
    token: Option<TokenAccount>,
) -> bool {
    match vote_error(before, voter, now, token) {
        Some(e) => r == Err::<(), ErrorCode>(e) && after == before,
        None => {
            &&& r is Ok
            &&& after.proposal == (Proposal {
                vote_count: (before.proposal.vote_count + 1) as u64,
                results: after.proposal.results,
                ..before.proposal
            })
            &&& after.proposal.results@ == counted(before.proposal.results@, vote_index)
            &&& after.voter_records@ == before.voter_records@.push(VoterRecord { voter })
            &&& after.encrypted_tally == Some(
                EncryptedTally { last_encrypted_vote: encrypted_vote, ..before.encrypted_tally->Some_0 },
            )
            &&& after.ballots@ == before.ballots@.push(vote_index)
            &&& after.address == before.address
        },
    }
}

/// Compares two keys without stopping at the first differing byte.
fn keys_equal(a: &Pubkey, b: &Pubkey) -> (r: bool)
    ensures
        r == (a@ == b@),
{
    constant_time_eq(a.as_slice(), b.as_slice())
}

/// Whether `voter` is on `whitelist`.
pub fn is_whitelisted(whitelist: &Vec<Pubkey>, voter: &Pubkey) -> (r: bool)
    ensures
        r == whitelisted(whitelist@, *voter),
{
    let mut i: usize = 0;
    while i < whitelist.len()
        invariant
            i <= whitelist@.len(),
            forall|k: int| 0 <= k < i ==> #[trigger] whitelist@[k]@ != voter@,
        decreases whitelist@.len() - i,
    {
        if keys_equal(&whitelist[i], voter) {
            return true;
        }
        i = i + 1;
    }
    false
}

/// Checks that `voter` meets the proposal's eligibility mode: always in an
/// open proposal, on the whitelist in a whitelisted one, and with a token
/// account of the gating mint, owned by the voter, with a positive balance
/// in a token-gated one.
pub fn check_eligibility(p: &Proposal, voter: &Pubkey, token: &Option<TokenAccount>) -> (r: Result<
    (),
    ErrorCode,
>)
    ensures
        match eligibility_error(*p, *voter, *token) {
            Some(e) => r == Err::<(), ErrorCode>(e),
            None => r == Ok::<(), ErrorCode>(()),
        },
{
    if p.eligibility_mode == MODE_WHITELIST {
        if !is_whitelisted(&p.whitelist, voter) {
            return Err(ErrorCode::NotWhitelisted);
        }
    } else if p.eligibility_mode == MODE_TOKEN_GATED {
        match token {
            None => {
                return Err(ErrorCode::TokenAccountRequired);
            },
            Some(t) => {
                if !keys_equal(&t.mint, &p.mint) {
                    return Err(ErrorCode::InvalidMint);
                }
                if !keys_equal(&t.owner, voter) {
                    return Err(ErrorCode::InvalidTokenOwner);
                }
                if t.amount == 0 {
                    return Err(ErrorCode::InsufficientTokens);
                }
            },
        }
    }
    Ok(())
}

impl ProposalAccounts {
    /// Whether a record of `voter` exists.
    pub fn voted(&self, voter: &Pubkey) -> (r: bool)
        ensures
            r == self.has_voted(*voter),
    {
        let mut i: usize = 0;
        while i < self.voter_records.len()
            invariant
                i <= self.voter_records@.len(),
                forall|k: int| 0 <= k < i ==> #[trigger] self.voter_records@[k].voter@ != voter@,
            decreases self.voter_records@.len() - i,
        {
            if keys_equal(&self.voter_records[i].voter, voter) {
                return true;
            }
            i = i + 1;
        }
        false
    }
}

/// Accepts one ballot from `voter` at time `now`, or refuses it with the
/// first check it fails (see `vote_error`). An accepted ballot creates the
/// voter's record, raises the total, raises the public counter of
/// `vote_index` when that names an option, and stores `encrypted_vote` as
/// the tally's latest ciphertext.
pub fn cast_vote(
    accounts: &mut ProposalAccounts,
    voter: Pubkey,
    now: i64,
    encrypted_vote: [u8; 32],
    vote_index: u8,
    voter_token: Option<TokenAccount>,
) -> (r: Result<(), ErrorCode>)
    requires
        old(accounts).wf(),
        old(accounts).proposal.vote_count < u64::MAX,
    ensures
        final(accounts).wf(),
        vote_outcome(
            *old(accounts),
            *final(accounts),
            r,
            voter,
            now,
            encrypted_vote,
            vote_index,
            voter_token,
        ),
{
    if !accounts.proposal.tally_initialized {
        return Err(ErrorCode::TallyNotInitialized);
    }
    if now < accounts.proposal.start_time {
        return Err(ErrorCode::VotingNotStarted);
    }
    if now > accounts.proposal.end_time {
        return Err(ErrorCode::VotingEnded);
    }
    if accounts.proposal.finalized {
        return Err(ErrorCode::AlreadyFinalized);
    }
    match check_eligibility(&accounts.proposal, &voter, &voter_token) {
        Err(e) => {
            return Err(e);
        },
        Ok(()) => {},
    }
    if accounts.voted(&voter) {
        return Err(ErrorCode::DuplicateVoterRecord);
    }
    let ghost before = *accounts;
    accounts.voter_records.push(VoterRecord { voter });
    accounts.proposal.vote_count = accounts.proposal.vote_count + 1;
    let idx = vote_index as usize;
    if idx < accounts.proposal.results.len() {
        proof {
            lemma_count_bounded(before.ballots@, idx as int);
        }
        let c = accounts.proposal.results[idx];
        accounts.proposal.results.set(idx, c + 1);
    }
    match accounts.encrypted_tally {
        Some(t) => {
            accounts.encrypted_tally = Some(
                EncryptedTally { last_encrypted_vote: encrypted_vote, ..t },
            );
        },
        None => {},
    }
    accounts.ballots = Ghost(accounts.ballots@.push(vote_index));
    proof {
        let nb = accounts.ballots@;
        assert(nb.drop_last() =~= before.ballots@);
        assert(accounts.proposal.results@ =~= counted(before.proposal.results@, vote_index));
        assert forall|j: int| 0 <= j < accounts.proposal.results@.len() implies #[trigger]
            accounts.proposal.results@[j] == count_of(nb, j) by {
            assert(count_of(nb, j) == count_of(before.ballots@, j) + if vote_index as int == j {
                1nat
            } else {
                0nat
            });
        }
        assert forall|i: int, k: int|
            0 <= i < k < accounts.voter_records@.len() implies #[trigger] accounts.voter_records@[
            i].voter@ != #[trigger] accounts.voter_records@[k].voter@ by {
            if k == accounts.voter_records@.len() - 1 {
                assert(before.voter_records@[i].voter@ != voter@);
            }
        }
    }
    Ok(())
}

/// Creates a proposal at `address` with every counter at zero, no tally and
/// no voter. More than `MAX_OPTIONS` options or more than `MAX_WHITELIST`
/// whitelisted keys are refused, in that order.
pub fn create_proposal(
    address: Pubkey,
    creator: Pubkey,
    title: [u8; TITLE_MAX_LEN],
    options: Vec<[u8; OPTION_MAX_LEN]>,
    start_time: i64,
    end_time: i64,
    eligibility_mode: u8,
    whitelist: Vec<Pubkey>,
    mint: Pubkey,
    bump: u8,
) -> (r: Result<ProposalAccounts, ErrorCode>)
    ensures
        options@.len() > MAX_OPTIONS ==> r == Err::<ProposalAccounts, ErrorCode>(
            ErrorCode::TooManyOptions,
        ),
        options@.len() <= MAX_OPTIONS && whitelist@.len() > MAX_WHITELIST ==> r == Err::<
            ProposalAccounts,
            ErrorCode,
        >(ErrorCode::WhitelistTooLarge),
        options@.len() <= MAX_OPTIONS && whitelist@.len() <= MAX_WHITELIST ==> {
            &&& r is Ok
            &&& r->Ok_0.wf()
            &&& r->Ok_0.address == address
            &&& r->Ok_0.proposal == (Proposal {
                creator,
                title,
                options,
                start_time,
                end_time,
                eligibility_mode,
                tally_initialized: false,
                finalized: false,
                finalize_signature: r->Ok_0.proposal.finalize_signature,
                results: r->Ok_0.proposal.results,
                bump,
                mint,
                whitelist,
                version: 0,
                vote_count: 0,
            })
            &&& r->Ok_0.proposal.finalize_signature@ == Seq::new(32, |i: int| 0u8)
            &&& r->Ok_0.proposal.results@ == Seq::new(options@.len(), |i: int| 0u64)
            &&& r->Ok_0.encrypted_tally is None
            &&& r->Ok_0.voter_records@.len() == 0
            &&& r->Ok_0.ballots@.len() == 0
        },
{
    if options.len() > MAX_OPTIONS {
        return Err(ErrorCode::TooManyOptions);
    }
    if whitelist.len() > MAX_WHITELIST {
        return Err(ErrorCode::WhitelistTooLarge);
    }
    let mut results: Vec<u64> = Vec::new();
    let mut i: usize = 0;
    while i < options.len()
        invariant
            i <= options@.len(),
            results@ == Seq::new(i as nat, |k: int| 0u64),
        decreases options@.len() - i,
    {
        results.push(0u64);
        i = i + 1;
        assert(results@ =~= Seq::new(i as nat, |k: int| 0u64));
    }
    let finalize_signature = [0u8; 32];
    assert(finalize_signature@ =~= Seq::new(32, |i: int| 0u8));
    let proposal = Proposal {
        creator,
        title,
        options,
        start_time,
        end_time,
        eligibility_mode,
        tally_initialized: false,
        finalized: false,
        finalize_signature,
        results,
        bump,
        mint,
        whitelist,
        version: 0,
        vote_count: 0,
    };
    let accounts = ProposalAccounts {
        address,
        proposal,
        encrypted_tally: None,
        voter_records: Vec::new(),
        ballots: Ghost(Seq::empty()),
    };
    Ok(accounts)
}

/// Creates the proposal's tally record, once: a second call is refused with
/// `AlreadyInitialized` and changes nothing.
pub fn init_tally(accounts: &mut ProposalAccounts, bump: u8) -> (r: Result<(), ErrorCode>)
    requires
        old(accounts).wf(),
    ensures
        final(accounts).wf(),
        old(accounts).proposal.tally_initialized ==> r == Err::<(), ErrorCode>(
            ErrorCode::AlreadyInitialized,
        ) && *final(accounts) == *old(accounts),
        !old(accounts).proposal.tally_initialized ==> {
            &&& r is Ok
            &&& final(accounts).proposal == (Proposal {
                tally_initialized: true,
                ..old(accounts).proposal
            })
            &&& final(accounts).encrypted_tally is Some
            &&& final(accounts).encrypted_tally->Some_0.proposal == old(accounts).address
            &&& final(accounts).encrypted_tally->Some_0.bump == bump
            &&& final(accounts).encrypted_tally->Some_0.last_encrypted_vote@ == Seq::new(
                32,
                |i: int| 0u8,
            )
            &&& final(accounts).voter_records == old(accounts).voter_records
            &&& final(accounts).ballots == old(accounts).ballots
            &&& final(accounts).address == old(accounts).address
        },
{
    if accounts.proposal.tally_initialized {
        return Err(ErrorCode::AlreadyInitialized);
    }
    let last_encrypted_vote = [0u8; 32];
    assert(last_encrypted_vote@ =~= Seq::new(32, |i: int| 0u8));
    accounts.proposal.tally_initialized = true;
    accounts.encrypted_tally = Some(
        EncryptedTally { proposal: accounts.address, last_encrypted_vote, bump },
    );
    Ok(())
}

/// Why `caller` may not finalize `a` at time `now`, if any reason holds, in
/// the order checked: not the creator, window not yet passed (the end
/// instant itself is still inside it), already finalized.
pub open spec fn finalize_error(a: ProposalAccounts, caller: Pubkey, now: i64) -> Option<ErrorCode> {
    if caller@ != a.proposal.creator@ {
        Some(ErrorCode::NotProposalCreator)
    } else if now <= a.proposal.end_time {
        Some(ErrorCode::VotingNotEnded)
    } else if a.proposal.finalized {
        Some(ErrorCode::AlreadyFinalized)
    } else {
        None
    }
}

/// What one `finalize_tally` call does: refused with the first failing
/// check and nothing changed, or the proposal marked finalized.
pub open spec fn finalize_outcome(
    before: ProposalAccounts,
    after: ProposalAccounts,
    r: Result<(), ErrorCode>,
    caller: Pubkey,
    now: i64,
) -> bool {
    match finalize_error(before, caller, now) {
        Some(e) => r == Err::<(), ErrorCode>(e) && after == before,
        None => {
            &&& r is Ok
            &&& after == (ProposalAccounts {
                proposal: Proposal { finalized: true, ..before.proposal },
                ..before
            })
        },
    }
}

/// Closes the proposal for good once its window has passed (see
/// `finalize_error` for the refusals).
pub fn finalize_tally(accounts: &mut ProposalAccounts, caller: Pubkey, now: i64) -> (r: Result<
    (),
    ErrorCode,
>)
    requires
        old(accounts).wf(),
    ensures
        final(accounts).wf(),
        finalize_outcome(*old(accounts), *final(accounts), r, caller, now),
{
    if !keys_equal(&caller, &accounts.proposal.creator) {
        return Err(ErrorCode::NotProposalCreator);
    }
    if now <= accounts.proposal.end_time {
        return Err(ErrorCode::VotingNotEnded);
    }
    if accounts.proposal.finalized {
        return Err(ErrorCode::AlreadyFinalized);
    }
    accounts.proposal.finalized = true;
    assert(*accounts == (ProposalAccounts {
        proposal: Proposal { finalized: true, ..old(accounts).proposal },
        ..*old(accounts)
    }));
    Ok(())
}

/// In every reachable state there is one public counter per option, the
/// total equals the number of voter records, and each public counter equals
/// what a Reveal of the confidential tally of the same ballots gives in that
/// slot.
pub proof fn lemma_counters_agree(a: ProposalAccounts)
    requires
        a.wf(),
    ensures
        a.proposal.results@.len() == a.proposal.options@.len(),
        a.proposal.vote_count == a.voter_records@.len(),
        forall|j: int|
            0 <= j < a.proposal.results@.len() ==> #[trigger] a.proposal.results@[j] == tally_of(
                a.ballots@,
            )[j],
{
    lemma_reveal_counts(a.ballots@);
}

/// A voter whose ballot was accepted cannot vote again on the same
/// proposal: a second attempt is refused and changes nothing, and made under
/// the same conditions it is refused as a duplicate.
pub proof fn lemma_vote_once(
    s0: ProposalAccounts,
    s1: ProposalAccounts,
    s2: ProposalAccounts,
    r2: Result<(), ErrorCode>,
    voter: Pubkey,
    now1: i64,
    now2: i64,
    vote1: [u8; 32],
    vote2: [u8; 32],
    index1: u8,
    index2: u8,
    token1: Option<TokenAccount>,
    token2: Option<TokenAccount>,
)
    requires
        vote_outcome(s0, s1, Ok(()), voter, now1, vote1, index1, token1),
        vote_outcome(s1, s2, r2, voter, now2, vote2, index2, token2),
    ensures
        r2 is Err,
        s2 == s1,
        now2 == now1 && token2 == token1 ==> r2 == Err::<(), ErrorCode>(
            ErrorCode::DuplicateVoterRecord,
        ),
{
    let last = s1.voter_records@.len() - 1;
    assert(s1.voter_records@[last].voter@ == voter@);
    assert(s1.has_voted(voter));
}

/// The voting window is closed at both ends and finalization opens only
/// after it: for a proposal that would otherwise accept the ballot, a ballot
/// at `end_time` is accepted and one an instant later is refused with
/// `VotingEnded`; the creator's finalization at `end_time` is refused with
/// `VotingNotEnded` and an instant later goes through.
pub proof fn lemma_window_boundaries(
    a: ProposalAccounts,
    voter: Pubkey,
    token: Option<TokenAccount>,
)
    requires
        a.proposal.tally_initialized,
        a.proposal.start_time <= a.proposal.end_time < i64::MAX,
        !a.proposal.finalized,
        eligibility_error(a.proposal, voter, token) is None,
        !a.has_voted(voter),
    ensures
        vote_error(a, voter, a.proposal.end_time, token) is None,
        vote_error(a, voter, (a.proposal.end_time + 1) as i64, token) == Some(
            ErrorCode::VotingEnded,
        ),
        finalize_error(a, a.proposal.creator, a.proposal.end_time) == Some(
            ErrorCode::VotingNotEnded,
        ),
        finalize_error(a, a.proposal.creator, (a.proposal.end_time + 1) as i64) is None,
{
}

/// A voter who fails the proposal's eligibility mode cannot vote: a
/// whitelisted proposal refuses every key not on its whitelist, and a
/// token-gated one refuses a token account of another mint, owned by another
/// key, or with a zero balance.
pub proof fn lemma_ineligible_refused(
    a: ProposalAccounts,
    voter: Pubkey,
    now: i64,
    token: Option<TokenAccount>,
)
    ensures
        a.proposal.eligibility_mode == MODE_WHITELIST && !whitelisted(a.proposal.whitelist@, voter)
            ==> eligibility_error(a.proposal, voter, token) == Some(ErrorCode::NotWhitelisted),
        a.proposal.eligibility_mode == MODE_TOKEN_GATED && token is Some && (token->Some_0.amount
            == 0 || token->Some_0.mint@ != a.proposal.mint@ || token->Some_0.owner@ != voter@)
            ==> eligibility_error(a.proposal, voter, token) is Some,
        eligibility_error(a.proposal, voter, token) is Some ==> vote_error(a, voter, now, token) is Some,
{
}

} // verus!
