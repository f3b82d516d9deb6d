use vstd::prelude::*;

use crate::errors::ErrorCode;
use crate::errors::LedgerError;
use crate::state::AccountId;
use crate::state::ProgramState;
use crate::state::UserActivity;

verus! {

/// The reward token type, as `create_map_mint` registers it.
#[derive(Clone, Copy, Debug)]
pub struct MintConfig {
    /// Decimal places of the token.
    pub decimals: u8,
    /// Whether minting is authorized by the program's own derived
    /// authority rather than by any external account.
    pub program_is_authority: bool,
}

impl MintConfig {
    /// The one configuration the program ever registers: six decimal
    /// places, minting bound to the program itself.
    pub open spec fn reward_mint() -> MintConfig {
        MintConfig { decimals: 6, program_is_authority: true }
    }
}

/// The sum of the per-user lifetime reward accumulators.
pub open spec fn sum_earned(s: Seq<UserActivity>) -> int
    decreases s.len(),
{
    if s.len() == 0 {
        0
    } else {
        sum_earned(s.drop_last()) + s.last().total_rewards_earned
    }
}

proof fn lemma_sum_nonneg(s: Seq<UserActivity>)
    ensures
        sum_earned(s) >= 0,
    decreases s.len(),
{
    if s.len() > 0 {
        lemma_sum_nonneg(s.drop_last());
    }
}

proof fn lemma_sum_update(s: Seq<UserActivity>, i: int, v: UserActivity)
    requires
        0 <= i < s.len(),
    ensures
        sum_earned(s.update(i, v)) == sum_earned(s) - s[i].total_rewards_earned
            + v.total_rewards_earned,
    decreases s.len(),
{
    if i == s.len() - 1 {
        assert(s.update(i, v).drop_last() =~= s.drop_last());
    } else {
        assert(s.update(i, v).drop_last() =~= s.drop_last().update(i, v));
        lemma_sum_update(s.drop_last(), i, v);
    }
}

proof fn lemma_sum_push(s: Seq<UserActivity>, v: UserActivity)
    ensures
        sum_earned(s.push(v)) == sum_earned(s) + v.total_rewards_earned,
{
    assert(s.push(v).drop_last() =~= s);
}

proof fn lemma_element_le_sum(s: Seq<UserActivity>, i: int)
    requires
        0 <= i < s.len(),
    ensures
        s[i].total_rewards_earned <= sum_earned(s),
    decreases s.len(),
{
    if i == s.len() - 1 {
        lemma_sum_nonneg(s.drop_last());
    } else {
        lemma_element_le_sum(s.drop_last(), i);
    }
}

/// The whole deployment: the singleton program record, the registered
/// reward token type, and one activity record per user, each stored at
/// an address derived from the user's identity (so at most one record
/// per user can exist).
pub struct Ledger {
    /// The singleton record; `None` until `initialize` has succeeded.
    pub program_state: Option<ProgramState>,
    /// The reward token type; `None` until `create_map_mint` has
    /// succeeded.
    pub reward_mint: Option<MintConfig>,
    /// The per-user records, one per distinct user identity.
    pub users: Vec<UserActivity>,
}

impl Ledger {
    /// At most one record per user identity.
    pub open spec fn users_unique(self) -> bool {
        forall|i: int, j: int|
            0 <= i < j < self.users@.len() ==> self.users@[i].user.bytes@
                != self.users@[j].user.bytes@
    }

    /// The program-wide lifetime total, zero while uninitialized.
    pub open spec fn distributed_total(self) -> int {
        match self.program_state {
            Some(s) => s.total_rewards_distributed as int,
            None => 0,
        }
    }

    /// The accounting invariant: the program-wide accumulator equals the
    /// sum of the per-user reward accumulators.
    pub open spec fn accounting_balanced(self) -> bool {
        self.distributed_total() == sum_earned(self.users@)
    }

    /// Well-formedness of the deployment: user records are unique and
    /// well formed, and the accounting invariant holds.
    pub open spec fn wf(self) -> bool {
        &&& self.users_unique()
        &&& forall|i: int| 0 <= i < self.users@.len() ==> self.users@[i].wf()
        &&& self.accounting_balanced()
    }

    /// Whether a record exists for this user.
    pub open spec fn has_user(self, user: AccountId) -> bool {
        exists|i: int|
            0 <= i < self.users@.len() && self.users@[i].user.bytes@ == user.bytes@
    }

    /// Whether `initialize` has succeeded.
    pub open spec fn initialized(self) -> bool {
        self.program_state is Some
    }

    /// A fresh deployment: no records at all.
    pub fn new() -> (l: Ledger)
        ensures
            l.wf(),
            !l.initialized(),
            l.reward_mint is None,
            l.users@.len() == 0,
    {
        let l = Ledger { program_state: None, reward_mint: None, users: Vec::new() };
        proof {
            assert(sum_earned(l.users@) == 0);
        }
        l
    }

    /// The index of this user's record, if one exists.
    fn find_user(&self, user: &AccountId) -> (r: Option<usize>)
        ensures
            match r {
                Some(i) => i < self.users@.len() && self.users@[i as int].user.bytes@
                    == user.bytes@,
                None => !self.has_user(*user),
            },
    {
        let mut i: usize = 0;
        while i < self.users.len()
            invariant
                i <= self.users.len(),
                forall|j: int| 0 <= j < i ==> self.users@[j].user.bytes@ != user.bytes@,
            decreases self.users.len() - i,
        {
            if self.users[i].user.matches(user) {
                return Some(i);
            }
            i = i + 1;
        }
        None
    }

    /// Create the singleton program record.
    ///
    /// A second call finds the record already at its derived address and
    /// fails without overwriting anything — in particular the lifetime
    /// total survives.
    pub fn initialize(&mut self, authority: AccountId, map_mint: AccountId) -> (r: Result<
        (),
        LedgerError,
    >)
        requires
            old(self).wf(),
        ensures
            final(self).wf(),
            match r {
                Ok(()) => !old(self).initialized() && final(self).program_state == Some(
                    ProgramState::initial(authority, map_mint),
                ) && final(self).reward_mint == old(self).reward_mint && final(self).users
                    == old(self).users,
                Err(e) => e == LedgerError::AlreadyExists && old(self).initialized() && *final(self)
                    == *old(self),
            },
    {
        match self.program_state {
            Some(_) => Err(LedgerError::AlreadyExists),
            None => {
                self.program_state = Some(
                    ProgramState { authority, map_mint, total_rewards_distributed: 0 },
                );
                Ok(())
            },
        }
    }

    /// Register the reward token type: six decimal places, minting bound
    /// to the program's own derived authority.
    ///
    /// Fails when the token type already exists, or when the program
    /// record it is bound to has not been created yet.
    pub fn create_map_mint(&mut self) -> (r: Result<(), LedgerError>)
        requires
            old(self).wf(),
        ensures
            final(self).wf(),
            match r {
                Ok(()) => old(self).initialized() && old(self).reward_mint is None
                    && final(self).reward_mint == Some(MintConfig::reward_mint())
                    && final(self).program_state == old(self).program_state
                    && final(self).users == old(self).users,
                Err(e) => *final(self) == *old(self) && match e {
                    LedgerError::AlreadyExists => old(self).reward_mint is Some,
                    LedgerError::NotFound => old(self).reward_mint is None
                        && !old(self).initialized(),
                    _ => false,
                },
            },
    {
        if self.reward_mint.is_some() {
            return Err(LedgerError::AlreadyExists);
        }
        if self.program_state.is_none() {
            return Err(LedgerError::NotFound);
        }
        self.reward_mint = Some(MintConfig { decimals: 6, program_is_authority: true });
        Ok(())
    }

    /// One activity submission for `user` at epoch time `now`, with the
    /// coordinates in micro-degrees and the signal strength in dBm.
    ///
    /// The user's record is created lazily on the first accepted
    /// submission; a rejected submission creates and changes nothing.
    /// The checks and the accepted transition are exactly those of
    /// `UserActivity::submit`, applied to the user's record (or to a
    /// blank one for a first-time user).
    pub fn submit_activity(
        &mut self,
        user: AccountId,
        now: i64,
        gps_lat_micro: i64,
        gps_long_micro: i64,
        signal_strength: i8,
    ) -> (r: Result<(), ErrorCode>)
        requires
            old(self).wf(),
            0 <= now,
            forall|i: int|
                0 <= i < old(self).users@.len() && old(self).users@[i].user.bytes@ == user.bytes@
                    ==> old(self).users@[i].total_submissions < u64::MAX,
        ensures
            final(self).wf(),
            final(self).program_state == old(self).program_state,
            final(self).reward_mint == old(self).reward_mint,
            match r {
                Ok(()) => if old(self).has_user(user) {
                    exists|i: int|
                        #![auto]
                        0 <= i < old(self).users@.len() && old(self).users@[i].user.bytes@
                            == user.bytes@ && old(self).users@[i].submit_outcome(
                            now,
                            gps_lat_micro,
                            gps_long_micro,
                            signal_strength,
                        ) is None && final(self).users@ =~= old(self).users@.update(
                            i,
                            old(self).users@[i].after_submit(
                                now,
                                gps_lat_micro,
                                gps_long_micro,
                                signal_strength,
                            ),
                        )
                } else {
                    UserActivity::blank(user).submit_outcome(
                        now,
                        gps_lat_micro,
                        gps_long_micro,
                        signal_strength,
                    ) is None && final(self).users@ =~= old(self).users@.push(
                        UserActivity::blank(user).after_submit(
                            now,
                            gps_lat_micro,
                            gps_long_micro,
                            signal_strength,
                        ),
                    )
                },
                Err(e) => *final(self) == *old(self) && if old(self).has_user(user) {
                    exists|i: int|
                        #![auto]
                        0 <= i < old(self).users@.len() && old(self).users@[i].user.bytes@
                            == user.bytes@ && old(self).users@[i].submit_outcome(
                            now,
                            gps_lat_micro,
                            gps_long_micro,
                            signal_strength,
                        ) == Some(e)
                } else {
                    UserActivity::blank(user).submit_outcome(
                        now,
                        gps_lat_micro,
                        gps_long_micro,
                        signal_strength,
                    ) == Some(e)
                },
            },
    {
        match self.find_user(&user) {
            Some(idx) => {
                let mut rec = self.users[idx];
                let r = rec.submit(now, gps_lat_micro, gps_long_micro, signal_strength);
                match r {
                    Ok(()) => {
                        self.users[idx] = rec;
                        proof {
                            lemma_sum_update(old(self).users@, idx as int, rec);
                        }
                        Ok(())
                    },
                    Err(e) => Err(e),
                }
            },
            None => {
                let mut rec = UserActivity::new(user);
                let r = rec.submit(now, gps_lat_micro, gps_long_micro, signal_strength);
                match r {
                    Ok(()) => {
                        self.users.push(rec);
                        proof {
                            lemma_sum_push(old(self).users@, rec);
                        }
                        Ok(())
                    },
                    Err(e) => Err(e),
                }
            },
        }
    }

    /// Verify the user's pending submission and issue the fixed reward.
    ///
    /// Succeeds exactly when the program record exists, the user's record
    /// exists, a submission is pending, and the submission has reached
    /// the minimum verification age; then the pending flag is cleared and
    /// both accumulators grow by exactly the reward amount, once. Any
    /// failure leaves the whole deployment untouched. The issuance is
    /// authorized by the program's own transition logic, never by the
    /// caller.
    pub fn verify_and_reward(&mut self, user: AccountId, now: i64) -> (r: Result<
        u64,
        LedgerError,
    >)
        requires
            old(self).wf(),
            0 <= now,
            old(self).distributed_total() + crate::REWARD_AMOUNT <= u64::MAX,
        ensures
            final(self).wf(),
            final(self).reward_mint == old(self).reward_mint,
            match r {
                Ok(amount) => amount == crate::REWARD_AMOUNT && (exists|i: int|
                    #![auto]
                    0 <= i < old(self).users@.len() && old(self).users@[i].user.bytes@
                        == user.bytes@ && old(self).users@[i].verify_outcome(now) is None
                        && final(self).users@ =~= old(self).users@.update(
                        i,
                        old(self).users@[i].after_reward(),
                    )) && match old(self).program_state {
                    Some(st) => final(self).program_state == Some(st.credited()),
                    None => false,
                },
                Err(e) => *final(self) == *old(self) && match e {
                    LedgerError::NotFound => !old(self).initialized()
                        || !old(self).has_user(user),
                    LedgerError::Program(code) => old(self).initialized() && exists|i: int|
                        #![auto]
                        0 <= i < old(self).users@.len() && old(self).users@[i].user.bytes@
                            == user.bytes@ && old(self).users@[i].verify_outcome(now) == Some(
                            code,
                        ),
                    LedgerError::AlreadyExists => false,
                },
            },
    {
        let st = match self.program_state {
            Some(st) => st,
            None => {
                return Err(LedgerError::NotFound);
            },
        };
        let idx = match self.find_user(&user) {
            Some(idx) => idx,
            None => {
                return Err(LedgerError::NotFound);
            },
        };
        let rec = self.users[idx];
        if !rec.pending_verification {
            return Err(LedgerError::Program(ErrorCode::NoPendingVerification));
        }
        if now - rec.last_submission_timestamp < crate::MIN_VERIFICATION_AGE {
            return Err(LedgerError::Program(ErrorCode::VerificationTooSoon));
        }
        proof {
            lemma_element_le_sum(self.users@, idx as int);
        }
        let mut updated = rec;
        updated.pending_verification = false;
        updated.total_rewards_earned = updated.total_rewards_earned + crate::REWARD_AMOUNT;
        self.users[idx] = updated;
        self.program_state = Some(
            ProgramState {
                authority: st.authority,
                map_mint: st.map_mint,
                total_rewards_distributed: st.total_rewards_distributed + crate::REWARD_AMOUNT,
            },
        );
        proof {
            lemma_sum_update(old(self).users@, idx as int, updated);
        }
        Ok(crate::REWARD_AMOUNT)
    }
}

/// Law: in every well-formed deployment the program-wide accumulator
/// equals the sum of all per-user reward accumulators. Every operation
/// requires a well-formed deployment and leaves one behind, and a fresh
/// deployment is well formed, so this holds after any sequence of
/// operations.
pub proof fn lemma_accounting_invariant(l: Ledger)
    requires
        l.wf(),
    ensures
        l.distributed_total() == sum_earned(l.users@),
{
}

} // verus!
