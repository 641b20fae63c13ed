use vstd::prelude::*;
use crate::account_id::AccountId;
use crate::errors::ParadoxError;

verus! {

/// Phase 1 lasts for the first 3 days of the lock's life.
pub const PHASE1_DURATION_SECONDS: i64 = 3 * 24 * 60 * 60;

/// Phase 1 notice: 12 hours (emergency fixes).
pub const PHASE1_TIMELOCK_SECONDS: i64 = 12 * 60 * 60;

/// Phase 2 lasts until day 15 of the lock's life.
pub const PHASE2_DURATION_SECONDS: i64 = 15 * 24 * 60 * 60;

/// Phase 2 notice: 15 days.
pub const PHASE2_TIMELOCK_SECONDS: i64 = 15 * 24 * 60 * 60;

/// Phase 3 notice: 30 days (permanent).
pub const PHASE3_TIMELOCK_SECONDS: i64 = 30 * 24 * 60 * 60;

/// Maximum withdrawal per request: 100% is allowed with proper notice.
pub const MAX_WITHDRAWAL_BPS: u16 = 10000;

/// Bounded number of simultaneously pending withdrawals.
pub const MAX_PENDING_WITHDRAWALS: usize = 3;

/// Bounded number of retained snapshots.
pub const MAX_SNAPSHOTS: usize = 5;

/// Capacity of a snapshot's free-text reason.
pub const SNAPSHOT_REASON_CAPACITY: usize = 32;

/// Capacity of a withdrawal's free-text reason.
pub const WITHDRAWAL_REASON_CAPACITY: usize = 64;

/// Phase of the lock's life, derived from its age.
#[derive(Clone, Copy, Debug, PartialEq, Eq, Structural)]
pub enum LpLockPhase {
    /// First 3 days: short notice for emergency fixes.
    Emergency,
    /// Days 3 to 15: stabilization.
    Stabilization,
    /// Day 15 on: permanent mode.
    Permanent,
}

/// Aggregate status of the lock.
#[derive(Clone, Copy, Debug, PartialEq, Eq, Structural)]
pub enum LpLockStatus {
    NotInitialized,
    Active,
    WithdrawalPending,
    Withdrawn,
    Restored,
}

impl Default for LpLockPhase {
    /// A fresh lock starts in the emergency phase.
    fn default() -> (r: Self)
        ensures
            r == LpLockPhase::Emergency,
    {
        LpLockPhase::Emergency
    }
}

impl Default for LpLockStatus {
    /// A lock that was never set up.
    fn default() -> (r: Self)
        ensures
            r == LpLockStatus::NotInitialized,
    {
        LpLockStatus::NotInitialized
    }
}

/// The phase a lock created at `created_at` is in at time `now`.
pub open spec fn phase_at(created_at: i64, now: i64) -> LpLockPhase {
    if now - created_at < PHASE1_DURATION_SECONDS {
        LpLockPhase::Emergency
    } else if now - created_at < PHASE2_DURATION_SECONDS {
        LpLockPhase::Stabilization
    } else {
        LpLockPhase::Permanent
    }
}

/// The notice a withdrawal announced in `phase` must serve.
pub open spec fn notice_seconds(phase: LpLockPhase) -> i64 {
    match phase {
        LpLockPhase::Emergency => PHASE1_TIMELOCK_SECONDS,
        LpLockPhase::Stabilization => PHASE2_TIMELOCK_SECONDS,
        LpLockPhase::Permanent => PHASE3_TIMELOCK_SECONDS,
    }
}

/// The notice required at time `now` by a lock created at `created_at`.
pub open spec fn notice_at(created_at: i64, now: i64) -> i64 {
    notice_seconds(phase_at(created_at, now))
}

/// Law: the required notice never shrinks as a lock ages. Whatever two
/// instants one compares, the later one demands at least as long a notice.
pub proof fn lemma_required_notice_monotonic(created_at: i64, t1: i64, t2: i64)
    requires
        t1 <= t2,
    ensures
        notice_at(created_at, t1) <= notice_at(created_at, t2),
{
}

/// A point-in-time copy of reserve and supply figures, retained so the
/// lock's accounting can later be restored.
#[derive(Clone, Debug)]
pub struct LpSnapshot {
    /// Monotonically increasing snapshot id; 0 marks an unused ring slot.
    pub id: u64,
    /// Timestamp when the snapshot was taken.
    pub timestamp: i64,
    /// Free-text reason, truncated to `SNAPSHOT_REASON_CAPACITY` bytes.
    pub reason: Vec<u8>,
    /// LP token amount at snapshot.
    pub lp_tokens: u64,
    /// SOL reserve at snapshot.
    pub sol_reserve: u64,
    /// Token reserve at snapshot.
    pub token_reserve: u64,
    /// Total supply at snapshot.
    pub total_supply: u64,
    /// Number of holders at snapshot.
    pub holder_count: u32,
    /// Whether this ring slot holds a snapshot at all.
    pub is_valid: bool,
    /// Whether this snapshot has already been consumed by a restore.
    pub was_restored: bool,
}

/// Mathematical model of an `LpSnapshot`.
#[verifier::ext_equal]
pub ghost struct LpSnapshotView {
    pub id: u64,
    pub timestamp: i64,
    pub reason: Seq<u8>,
    pub lp_tokens: u64,
    pub sol_reserve: u64,
    pub token_reserve: u64,
    pub total_supply: u64,
    pub holder_count: u32,
    pub is_valid: bool,
    pub was_restored: bool,
}

impl View for LpSnapshot {
    type V = LpSnapshotView;

    open spec fn view(&self) -> LpSnapshotView {
        LpSnapshotView {
            id: self.id,
            timestamp: self.timestamp,
            reason: self.reason@,
            lp_tokens: self.lp_tokens,
            sol_reserve: self.sol_reserve,
            token_reserve: self.token_reserve,
            total_supply: self.total_supply,
            holder_count: self.holder_count,
            is_valid: self.is_valid,
            was_restored: self.was_restored,
        }
    }
}

impl LpSnapshot {
    /// An unused ring slot.
    pub fn empty() -> (r: LpSnapshot)
        ensures
            r@ == LpSnapshotView::empty(),
    {
        let r = LpSnapshot {
            id: 0,
            timestamp: 0,
            reason: Vec::new(),
            lp_tokens: 0,
            sol_reserve: 0,
            token_reserve: 0,
            total_supply: 0,
            holder_count: 0,
            is_valid: false,
            was_restored: false,
        };
        proof {
            assert(r@ =~= LpSnapshotView::empty());
        }
        r
    }
}

impl LpSnapshotView {
    /// Model of an unused ring slot.
    pub open spec fn empty() -> LpSnapshotView {
        LpSnapshotView {
            id: 0,
            timestamp: 0,
            reason: Seq::empty(),
            lp_tokens: 0,
            sol_reserve: 0,
            token_reserve: 0,
            total_supply: 0,
            holder_count: 0,
            is_valid: false,
            was_restored: false,
        }
    }
}

/// A pending withdrawal request: created by announce, consumed by execute,
/// cleared by cancel, immutable in between.
#[derive(Clone, Debug)]
pub struct PendingWithdrawal {
    /// Amount of LP tokens to withdraw.
    pub amount: u64,
    /// Recipient address.
    pub recipient: AccountId,
    /// Timestamp when the withdrawal was announced.
    pub announced_at: i64,
    /// Earliest timestamp at which the withdrawal may execute.
    pub execute_after: i64,
    /// Free-text reason, truncated to `WITHDRAWAL_REASON_CAPACITY` bytes.
    pub reason: Vec<u8>,
    /// Id of the snapshot taken at announcement time.
    pub snapshot_id: u64,
    /// Whether this slot holds an active request.
    pub is_active: bool,
}

/// Mathematical model of a `PendingWithdrawal`.
#[verifier::ext_equal]
pub ghost struct PendingWithdrawalView {
    pub amount: u64,
    pub recipient: AccountId,
    pub announced_at: i64,
    pub execute_after: i64,
    pub reason: Seq<u8>,
    pub snapshot_id: u64,
    pub is_active: bool,
}

impl View for PendingWithdrawal {
    type V = PendingWithdrawalView;

    open spec fn view(&self) -> PendingWithdrawalView {
        PendingWithdrawalView {
            amount: self.amount,
            recipient: self.recipient,
            announced_at: self.announced_at,
            execute_after: self.execute_after,
            reason: self.reason@,
            snapshot_id: self.snapshot_id,
            is_active: self.is_active,
        }
    }
}

impl PendingWithdrawal {
    /// An inactive, cleared slot.
    pub fn cleared() -> (r: PendingWithdrawal)
        ensures
            r@ == PendingWithdrawalView::cleared(),
    {
        let r = PendingWithdrawal {
            amount: 0,
            recipient: AccountId::zero(),
            announced_at: 0,
            execute_after: 0,
            reason: Vec::new(),
            snapshot_id: 0,
            is_active: false,
        };
        proof {
            assert(r@ =~= PendingWithdrawalView::cleared());
        }
        r
    }
}

impl PendingWithdrawalView {
    /// Model of an inactive, cleared slot.
    pub open spec fn cleared() -> PendingWithdrawalView {
        PendingWithdrawalView {
            amount: 0,
            recipient: AccountId::zero_spec(),
            announced_at: 0,
            execute_after: 0,
            reason: Seq::empty(),
            snapshot_id: 0,
            is_active: false,
        }
    }

    /// A slot is well formed when an active request carries ordered,
    /// non-negative timestamps and a reason within capacity.
    pub open spec fn wf(&self) -> bool {
        &&& self.reason.len() <= WITHDRAWAL_REASON_CAPACITY
        &&& self.is_active ==> 0 <= self.announced_at <= self.execute_after
    }
}

/// The custody lock: a progressive timelock over locked LP tokens, with a
/// bounded ring of pending withdrawal requests and a bounded snapshot ring.
#[derive(Clone, Debug)]
pub struct LpLock {
    /// Token mint this lock belongs to.
    pub mint: AccountId,
    /// LP pool address.
    pub lp_pool: AccountId,
    /// LP token mint.
    pub lp_token_mint: AccountId,
    /// Vault holding the locked LP tokens.
    pub lp_vault: AccountId,
    /// Admin who can propose withdrawals (transferable).
    pub admin: AccountId,
    /// Governance address for major changes.
    pub governance: AccountId,
    /// Emergency multisig address.
    pub emergency_multisig: AccountId,
    /// Timestamp when the lock was created.
    pub created_at: i64,
    /// Cached phase; the authoritative phase is derived from the age.
    pub phase: LpLockPhase,
    /// Current lock status.
    pub status: LpLockStatus,
    /// Total LP tokens locked.
    pub lp_tokens_locked: u64,
    /// Total LP tokens withdrawn (lifetime).
    pub total_withdrawn: u64,
    /// Initial LP tokens (for restore reference).
    pub initial_lp_tokens: u64,
    /// Monotonic snapshot counter; also the id of the newest snapshot.
    pub snapshot_counter: u64,
    /// Ring of the last `MAX_SNAPSHOTS` snapshots.
    pub snapshots: Vec<LpSnapshot>,
    /// Most recent snapshot id available for restore.
    pub latest_restorable_snapshot: u64,
    /// Bounded pending withdrawal slots.
    pub pending_withdrawals: Vec<PendingWithdrawal>,
    /// Number of active pending withdrawals.
    pub pending_count: u8,
}

/// Mathematical model of an `LpLock`.
#[verifier::ext_equal]
pub ghost struct LpLockView {
    pub mint: AccountId,
    pub lp_pool: AccountId,
    pub lp_token_mint: AccountId,
    pub lp_vault: AccountId,
    pub admin: AccountId,
    pub governance: AccountId,
    pub emergency_multisig: AccountId,
    pub created_at: i64,
    pub phase: LpLockPhase,
    pub status: LpLockStatus,
    pub lp_tokens_locked: u64,
    pub total_withdrawn: u64,
    pub initial_lp_tokens: u64,
    pub snapshot_counter: u64,
    pub snapshots: Seq<LpSnapshotView>,
    pub latest_restorable_snapshot: u64,
    pub pending_withdrawals: Seq<PendingWithdrawalView>,
    pub pending_count: u8,
}

impl View for LpLock {
    type V = LpLockView;

    open spec fn view(&self) -> LpLockView {
        LpLockView {
            mint: self.mint,
            lp_pool: self.lp_pool,
            lp_token_mint: self.lp_token_mint,
            lp_vault: self.lp_vault,
            admin: self.admin,
            governance: self.governance,
            emergency_multisig: self.emergency_multisig,
            created_at: self.created_at,
            phase: self.phase,
            status: self.status,
            lp_tokens_locked: self.lp_tokens_locked,
            total_withdrawn: self.total_withdrawn,
            initial_lp_tokens: self.initial_lp_tokens,
            snapshot_counter: self.snapshot_counter,
            snapshots: self.snapshots@.map_values(|s: LpSnapshot| s@),
            latest_restorable_snapshot: self.latest_restorable_snapshot,
            pending_withdrawals: self.pending_withdrawals@.map_values(
                |p: PendingWithdrawal| p@,
            ),
            pending_count: self.pending_count,
        }
    }
}

/// The ring slot that snapshot `id` occupies: `(id - 1) mod 5`.
pub open spec fn ring_index(id: u64) -> int {
    (id - 1) % (MAX_SNAPSHOTS as int)
}

/// How many of the three pending slots are active.
pub open spec fn active_count(s: Seq<PendingWithdrawalView>) -> int
    recommends
        s.len() == MAX_PENDING_WITHDRAWALS,
{
    (if s[0].is_active {
        1int
    } else {
        0int
    }) + (if s[1].is_active {
        1int
    } else {
        0int
    }) + (if s[2].is_active {
        1int
    } else {
        0int
    })
}

/// The index of the first inactive pending slot, or 3 when all are active.
pub open spec fn first_free_slot(s: Seq<PendingWithdrawalView>) -> int
    recommends
        s.len() == MAX_PENDING_WITHDRAWALS,
{
    if !s[0].is_active {
        0int
    } else if !s[1].is_active {
        1int
    } else if !s[2].is_active {
        2int
    } else {
        3int
    }
}

/// Law: whenever fewer than three requests are pending — for instance right
/// after one was cancelled — a free slot exists, so a new announcement is
/// not refused for capacity.
pub proof fn lemma_free_slot_exists(s: Seq<PendingWithdrawalView>)
    requires
        s.len() == MAX_PENDING_WITHDRAWALS,
        active_count(s) < MAX_PENDING_WITHDRAWALS,
    ensures
        0 <= first_free_slot(s) < MAX_PENDING_WITHDRAWALS,
        !s[first_free_slot(s)].is_active,
{
}

impl LpLockView {
    /// Whether snapshot `id` is still held by the ring: it was taken
    /// (`id <= counter`) and at most four newer snapshots exist.
    pub open spec fn in_ring(&self, id: u64) -> bool {
        1 <= id <= self.snapshot_counter && self.snapshot_counter <= id + 4
    }

    /// Whether snapshot `id` is held by the ring and already consumed by a
    /// restore.
    pub open spec fn snapshot_restored(&self, id: u64) -> bool {
        self.in_ring(id) && self.snapshots[ring_index(id)].was_restored
    }

    /// Whether a restore of snapshot `id` is allowed: the snapshot is still
    /// in the ring and has never been restored.
    pub open spec fn restore_allowed(&self, id: u64) -> bool {
        self.in_ring(id) && !self.snapshots[ring_index(id)].was_restored
    }

    /// Whether pending slot `slot` may execute at time `now`.
    pub open spec fn can_execute(&self, slot: int, now: i64) -> bool {
        0 <= slot < MAX_PENDING_WITHDRAWALS && self.pending_withdrawals[slot].is_active && now
            >= self.pending_withdrawals[slot].execute_after
    }

    /// Well-formedness of the lock: fixed ring sizes, an accurate pending
    /// count, well-formed slots, and a snapshot ring that holds exactly the
    /// last five snapshot ids, each in its `(id - 1) mod 5` slot.
    pub open spec fn wf(&self) -> bool {
        &&& self.snapshots.len() == MAX_SNAPSHOTS
        &&& self.pending_withdrawals.len() == MAX_PENDING_WITHDRAWALS
        &&& 0 <= self.created_at
        &&& self.pending_count as int == active_count(self.pending_withdrawals)
        &&& forall|i: int|
            0 <= i < MAX_PENDING_WITHDRAWALS ==> (#[trigger] self.pending_withdrawals[i]).wf()
        &&& forall|i: int|
            0 <= i < MAX_SNAPSHOTS ==> ((#[trigger] self.snapshots[i]).is_valid ==> (
            1 <= self.snapshots[i].id && self.in_ring(self.snapshots[i].id) && ring_index(
                self.snapshots[i].id,
            ) == i && self.snapshots[i].reason.len() <= SNAPSHOT_REASON_CAPACITY))
        &&& forall|i: int|
            0 <= i < MAX_SNAPSHOTS ==> (!(#[trigger] self.snapshots[i]).is_valid ==> self.snapshots[i].id == 0)
        &&& forall|id: u64|
            self.in_ring(id) ==> (#[trigger] self.snapshots[ring_index(id)].id == id
                && self.snapshots[ring_index(id)].is_valid)
    }
}

impl LpLock {
    /// Well-formedness of the lock (see `LpLockView::wf`).
    pub open spec fn wf(&self) -> bool {
        self@.wf()
    }

    /// The phase the lock is in at time `now`, derived from its age.
    pub fn get_current_phase(&self, now: i64) -> (p: LpLockPhase)
        requires
            0 <= self.created_at,
            0 <= now,
        ensures
            p == phase_at(self.created_at, now),
    {
        let age = now - self.created_at;
        if age < PHASE1_DURATION_SECONDS {
            LpLockPhase::Emergency
        } else if age < PHASE2_DURATION_SECONDS {
            LpLockPhase::Stabilization
        } else {
            LpLockPhase::Permanent
        }
    }

    /// The notice a withdrawal announced at time `now` must serve.
    pub fn get_required_timelock(&self, now: i64) -> (t: i64)
        requires
            0 <= self.created_at,
            0 <= now,
        ensures
            t == notice_at(self.created_at, now),
    {
        match self.get_current_phase(now) {
            LpLockPhase::Emergency => PHASE1_TIMELOCK_SECONDS,
            LpLockPhase::Stabilization => PHASE2_TIMELOCK_SECONDS,
            LpLockPhase::Permanent => PHASE3_TIMELOCK_SECONDS,
        }
    }

    /// A display name for the phase at time `now`.
    pub fn get_phase_name(&self, now: i64) -> (name: &'static str)
        requires
            0 <= self.created_at,
            0 <= now,
        ensures
            phase_at(self.created_at, now) == LpLockPhase::Emergency ==> name@ =~= "EMERGENCY (12h notice)"@,
            phase_at(self.created_at, now) == LpLockPhase::Stabilization ==> name@ =~= "STABILIZATION (15d notice)"@,
            phase_at(self.created_at, now) == LpLockPhase::Permanent ==> name@ =~= "PERMANENT (30d notice)"@,
    {
        match self.get_current_phase(now) {
            LpLockPhase::Emergency => "EMERGENCY (12h notice)",
            LpLockPhase::Stabilization => "STABILIZATION (15d notice)",
            LpLockPhase::Permanent => "PERMANENT (30d notice)",
        }
    }

    /// Whole days until the next phase boundary, or `None` in the permanent
    /// phase. The clock reading must not precede the lock's creation.
    pub fn days_until_next_phase(&self, now: i64) -> (r: Option<i64>)
        requires
            0 <= self.created_at <= now,
        ensures
            phase_at(self.created_at, now) == LpLockPhase::Emergency ==> r == Some(
                ((PHASE1_DURATION_SECONDS - (now - self.created_at)) / (86400int)) as i64,
            ),
            phase_at(self.created_at, now) == LpLockPhase::Stabilization ==> r == Some(
                ((PHASE2_DURATION_SECONDS - (now - self.created_at)) / (86400int)) as i64,
            ),
            phase_at(self.created_at, now) == LpLockPhase::Permanent ==> r == None::<i64>,
    {
        let age = now - self.created_at;
        match self.get_current_phase(now) {
            LpLockPhase::Emergency => Some((((PHASE1_DURATION_SECONDS - age) as u64) / (24 * 60
                * 60)) as i64),
            LpLockPhase::Stabilization => Some((((PHASE2_DURATION_SECONDS - age) as u64) / (24 * 60
                * 60)) as i64),
            LpLockPhase::Permanent => None,
        }
    }

    /// Create a fresh lock at time `now`: active, in the emergency phase,
    /// with empty snapshot and pending rings, governance initially the admin.
    pub fn initialize(
        mint: AccountId,
        lp_pool: AccountId,
        lp_token_mint: AccountId,
        lp_vault: AccountId,
        admin: AccountId,
        emergency_multisig: AccountId,
        lp_amount: u64,
        now: i64,
    ) -> (r: LpLock)
        requires
            0 <= now,
        ensures
            r.wf(),
            r@ == (LpLockView {
                mint,
                lp_pool,
                lp_token_mint,
                lp_vault,
                admin,
                governance: admin,
                emergency_multisig,
                created_at: now,
                phase: LpLockPhase::Emergency,
                status: LpLockStatus::Active,
                lp_tokens_locked: lp_amount,
                total_withdrawn: 0,
                initial_lp_tokens: lp_amount,
                snapshot_counter: 0,
                snapshots: Seq::new(MAX_SNAPSHOTS as nat, |i: int| LpSnapshotView::empty()),
                latest_restorable_snapshot: 0,
                pending_withdrawals: Seq::new(
                    MAX_PENDING_WITHDRAWALS as nat,
                    |i: int| PendingWithdrawalView::cleared(),
                ),
                pending_count: 0,
            }),
    {
        let mut snapshots: Vec<LpSnapshot> = Vec::new();
        let mut i: usize = 0;
        while i < MAX_SNAPSHOTS
            invariant
                i <= MAX_SNAPSHOTS,
                snapshots@.len() == i,
                forall|j: int| 0 <= j < i ==> (#[trigger] snapshots@[j])@ == LpSnapshotView::empty(),
            decreases MAX_SNAPSHOTS - i,
        {
            snapshots.push(LpSnapshot::empty());
            i += 1;
        }
        let mut pending_withdrawals: Vec<PendingWithdrawal> = Vec::new();
        let mut j: usize = 0;
        while j < MAX_PENDING_WITHDRAWALS
            invariant
                j <= MAX_PENDING_WITHDRAWALS,
                pending_withdrawals@.len() == j,
                forall|k: int|
                    0 <= k < j ==> (#[trigger] pending_withdrawals@[k])@
                        == PendingWithdrawalView::cleared(),
            decreases MAX_PENDING_WITHDRAWALS - j,
        {
            pending_withdrawals.push(PendingWithdrawal::cleared());
            j += 1;
        }
        let r = LpLock {
            mint,
            lp_pool,
            lp_token_mint,
            lp_vault,
            admin,
            governance: admin,
            emergency_multisig,
            created_at: now,
            phase: LpLockPhase::Emergency,
            status: LpLockStatus::Active,
            lp_tokens_locked: lp_amount,
            total_withdrawn: 0,
            initial_lp_tokens: lp_amount,
            snapshot_counter: 0,
            snapshots,
            latest_restorable_snapshot: 0,
            pending_withdrawals,
            pending_count: 0,
        };
        proof {
            assert(r@.snapshots =~= Seq::new(
                MAX_SNAPSHOTS as nat,
                |i: int| LpSnapshotView::empty(),
            ));
            assert(r@.pending_withdrawals =~= Seq::new(
                MAX_PENDING_WITHDRAWALS as nat,
                |i: int| PendingWithdrawalView::cleared(),
            ));
            assert(r@ =~= (LpLockView {
                mint,
                lp_pool,
                lp_token_mint,
                lp_vault,
                admin,
                governance: admin,
                emergency_multisig,
                created_at: now,
                phase: LpLockPhase::Emergency,
                status: LpLockStatus::Active,
                lp_tokens_locked: lp_amount,
                total_withdrawn: 0,
                initial_lp_tokens: lp_amount,
                snapshot_counter: 0,
                snapshots: Seq::new(MAX_SNAPSHOTS as nat, |i: int| LpSnapshotView::empty()),
                latest_restorable_snapshot: 0,
                pending_withdrawals: Seq::new(
                    MAX_PENDING_WITHDRAWALS as nat,
                    |i: int| PendingWithdrawalView::cleared(),
                ),
                pending_count: 0,
            }));
        }
        r
    }
}

impl LpLock {
    /// Take a snapshot of the current state at time `now`: bump the
    /// monotonic counter and write the new snapshot over the oldest of the
    /// five ring slots. Always succeeds.
    pub fn take_snapshot(
        &mut self,
        reason: Vec<u8>,
        sol_reserve: u64,
        token_reserve: u64,
        total_supply: u64,
        holder_count: u32,
        now: i64,
    ) -> (snapshot_id: u64)
        requires
            old(self).wf(),
            0 <= now,
            old(self)@.snapshot_counter < u64::MAX,
        ensures
            final(self).wf(),
            snapshot_id == old(self)@.snapshot_counter + 1,
            final(self)@ == (LpLockView {
                snapshot_counter: snapshot_id,
                latest_restorable_snapshot: snapshot_id,
                snapshots: old(self)@.snapshots.update(
                    ring_index(snapshot_id),
                    LpSnapshotView {
                        id: snapshot_id,
                        timestamp: now,
                        reason: crate::truncate_bytes(reason@, SNAPSHOT_REASON_CAPACITY as int),
                        lp_tokens: old(self)@.lp_tokens_locked,
                        sol_reserve,
                        token_reserve,
                        total_supply,
                        holder_count,
                        is_valid: true,
                        was_restored: false,
                    },
                ),
                ..old(self)@
            }),
    {
        let mut reason = reason;
        if reason.len() > SNAPSHOT_REASON_CAPACITY {
            reason.truncate(SNAPSHOT_REASON_CAPACITY);
        }
        self.snapshot_counter = self.snapshot_counter + 1;
        let snapshot_id = self.snapshot_counter;
        let idx: usize = ((snapshot_id - 1) % (MAX_SNAPSHOTS as u64)) as usize;
        self.snapshots[idx] = LpSnapshot {
            id: snapshot_id,
            timestamp: now,
            reason,
            lp_tokens: self.lp_tokens_locked,
            sol_reserve,
            token_reserve,
            total_supply,
            holder_count,
            is_valid: true,
            was_restored: false,
        };
        self.latest_restorable_snapshot = snapshot_id;
        proof {
            lemma_take_snapshot_preserves_ring(old(self)@, self@, snapshot_id);
            assert(self@ =~~= (LpLockView {
                snapshot_counter: snapshot_id,
                latest_restorable_snapshot: snapshot_id,
                snapshots: old(self)@.snapshots.update(
                    ring_index(snapshot_id),
                    LpSnapshotView {
                        id: snapshot_id,
                        timestamp: now,
                        reason: crate::truncate_bytes(reason@, SNAPSHOT_REASON_CAPACITY as int),
                        lp_tokens: old(self)@.lp_tokens_locked,
                        sol_reserve,
                        token_reserve,
                        total_supply,
                        holder_count,
                        is_valid: true,
                        was_restored: false,
                    },
                ),
                ..old(self)@
            }));
        }
        snapshot_id
    }

    /// Look snapshot `id` up in the ring. Present if and only if it was
    /// taken and at most four newer snapshots have overwritten ring slots
    /// since.
    pub fn get_snapshot(&self, id: u64) -> (r: Option<&LpSnapshot>)
        requires
            self.wf(),
        ensures
            match r {
                Some(s) => self@.in_ring(id) && s@ == self@.snapshots[ring_index(id)] && s.id == id
                    && s.is_valid,
                None => !self@.in_ring(id),
            },
    {
        let mut i: usize = 0;
        while i < MAX_SNAPSHOTS
            invariant
                self.wf(),
                i <= MAX_SNAPSHOTS,
                forall|j: int|
                    0 <= j < i ==> !((#[trigger] self@.snapshots[j]).id == id
                        && self@.snapshots[j].is_valid),
            decreases MAX_SNAPSHOTS - i,
        {
            let s = &self.snapshots[i];
            if s.id == id && s.is_valid {
                proof {
                    assert(self@.snapshots[i as int].is_valid);
                    assert(ring_index(self@.snapshots[i as int].id) == i as int);
                }
                return Some(s);
            }
            i += 1;
        }
        proof {
            if self@.in_ring(id) {
                assert(self@.snapshots[ring_index(id)].id == id);
            }
        }
        None
    }

    /// Mark every ring slot holding snapshot `id` as restored.
    pub fn mark_snapshot_restored(&mut self, id: u64)
        requires
            old(self).wf(),
        ensures
            final(self).wf(),
            final(self)@ == (LpLockView { snapshots: final(self)@.snapshots, ..old(self)@ }),
            final(self)@.snapshots.len() == MAX_SNAPSHOTS,
            forall|i: int|
                0 <= i < MAX_SNAPSHOTS ==> #[trigger] final(self)@.snapshots[i] == (
                if old(self)@.snapshots[i].id == id {
                    LpSnapshotView { was_restored: true, ..old(self)@.snapshots[i] }
                } else {
                    old(self)@.snapshots[i]
                }),
    {
        let mut i: usize = 0;
        while i < MAX_SNAPSHOTS
            invariant
                old(self).wf(),
                i <= MAX_SNAPSHOTS,
                self.snapshots@.len() == MAX_SNAPSHOTS,
                self@ == (LpLockView { snapshots: self@.snapshots, ..old(self)@ }),
                forall|j: int|
                    0 <= j < i ==> (#[trigger] self.snapshots@[j])@ == (
                    if old(self)@.snapshots[j].id == id {
                        LpSnapshotView { was_restored: true, ..old(self)@.snapshots[j] }
                    } else {
                        old(self)@.snapshots[j]
                    }),
                forall|j: int|
                    i <= j < MAX_SNAPSHOTS ==> (#[trigger] self.snapshots@[j])@ == old(self)@.snapshots[j],
            decreases MAX_SNAPSHOTS - i,
        {
            if self.snapshots[i].id == id {
                let elem = &mut self.snapshots[i];
                elem.was_restored = true;
            }
            proof {
                if old(self)@.snapshots[i as int].id == id {
                    assert(self.snapshots@[i as int]@ =~= (LpSnapshotView {
                        was_restored: true,
                        ..old(self)@.snapshots[i as int]
                    }));
                }
                assert(self@ =~~= (LpLockView { snapshots: self@.snapshots, ..old(self)@ }));
            }
            i += 1;
        }
        proof {
            assert forall|j: int| 0 <= j < MAX_SNAPSHOTS implies #[trigger] self@.snapshots[j]
                == self.snapshots@[j]@ by {}
        }
    }
}

impl LpLock {
    /// Announce a withdrawal at time `now`: occupy the first free pending
    /// slot with `execute_after = now` plus the notice the current phase
    /// demands. Fails when all slots are taken, leaving the lock unchanged.
    pub fn announce_withdrawal(
        &mut self,
        amount: u64,
        recipient: AccountId,
        reason: Vec<u8>,
        snapshot_id: u64,
        now: i64,
    ) -> (r: Result<usize, ParadoxError>)
        requires
            old(self).wf(),
            0 <= now,
        ensures
            final(self).wf(),
            active_count(old(self)@.pending_withdrawals) == MAX_PENDING_WITHDRAWALS ==> r
                == Err::<usize, ParadoxError>(ParadoxError::TooManyPendingWithdrawals) &&  final(self)@ == old(self)@,
            active_count(old(self)@.pending_withdrawals) < MAX_PENDING_WITHDRAWALS && now
                + notice_at(old(self)@.created_at, now) > i64::MAX ==> r == Err::<
                usize,
                ParadoxError,
            >(ParadoxError::MathOverflow) && final(self)@ == old(self)@,
            active_count(old(self)@.pending_withdrawals) < MAX_PENDING_WITHDRAWALS && now
                + notice_at(old(self)@.created_at, now) <= i64::MAX ==> ({
                let slot = first_free_slot(old(self)@.pending_withdrawals);
                &&& r == Ok::<usize, ParadoxError>(slot as usize)
                &&& final(self)@ == (LpLockView {
                    pending_withdrawals: old(self)@.pending_withdrawals.update(
                        slot,
                        PendingWithdrawalView {
                            amount,
                            recipient,
                            announced_at: now,
                            execute_after: (now + notice_at(old(self)@.created_at, now)) as i64,
                            reason: crate::truncate_bytes(
                                reason@,
                                WITHDRAWAL_REASON_CAPACITY as int,
                            ),
                            snapshot_id,
                            is_active: true,
                        },
                    ),
                    pending_count: (old(self)@.pending_count + 1) as u8,
                    status: LpLockStatus::WithdrawalPending,
                    ..old(self)@
                })
            }),
    {
        let slot: usize = if !self.pending_withdrawals[0].is_active {
            0
        } else if !self.pending_withdrawals[1].is_active {
            1
        } else if !self.pending_withdrawals[2].is_active {
            2
        } else {
            return Err(ParadoxError::TooManyPendingWithdrawals);
        };
        let timelock = self.get_required_timelock(now);
        let execute_after = match now.checked_add(timelock) {
            Some(t) => t,
            None => {
                return Err(ParadoxError::MathOverflow);
            },
        };
        let mut reason = reason;
        if reason.len() > WITHDRAWAL_REASON_CAPACITY {
            reason.truncate(WITHDRAWAL_REASON_CAPACITY);
        }
        self.pending_withdrawals[slot] = PendingWithdrawal {
            amount,
            recipient,
            announced_at: now,
            execute_after,
            reason,
            snapshot_id,
            is_active: true,
        };
        self.pending_count = self.pending_count + 1;
        self.status = LpLockStatus::WithdrawalPending;
        proof {
            assert(self@.pending_withdrawals =~~= old(self)@.pending_withdrawals.update(
                slot as int,
                self@.pending_withdrawals[slot as int],
            ));
            assert(self@ =~~= (LpLockView {
                pending_withdrawals: old(self)@.pending_withdrawals.update(
                    slot as int,
                    PendingWithdrawalView {
                        amount,
                        recipient,
                        announced_at: now,
                        execute_after,
                        reason: crate::truncate_bytes(reason@, WITHDRAWAL_REASON_CAPACITY as int),
                        snapshot_id,
                        is_active: true,
                    },
                ),
                pending_count: (old(self)@.pending_count + 1) as u8,
                status: LpLockStatus::WithdrawalPending,
                ..old(self)@
            }));
        }
        Ok(slot)
    }

    /// Whether pending slot `slot` is active and its notice has elapsed.
    pub fn can_execute_withdrawal(&self, slot: usize, now: i64) -> (r: bool)
        requires
            self.wf(),
        ensures
            r == self@.can_execute(slot as int, now),
    {
        if slot >= MAX_PENDING_WITHDRAWALS {
            return false;
        }
        let pw = &self.pending_withdrawals[slot];
        if !pw.is_active {
            return false;
        }
        now >= pw.execute_after
    }

    /// Seconds until pending slot `slot` becomes executable: 0 once it is,
    /// `i64::MAX` for an invalid or inactive slot.
    pub fn time_until_executable(&self, slot: usize, now: i64) -> (r: i64)
        requires
            self.wf(),
            0 <= now,
        ensures
            !(slot < MAX_PENDING_WITHDRAWALS && self@.pending_withdrawals[slot as int].is_active)
                ==> r == i64::MAX,
            slot < MAX_PENDING_WITHDRAWALS && self@.pending_withdrawals[slot as int].is_active
                ==> r == (if self@.pending_withdrawals[slot as int].execute_after >= now {
                self@.pending_withdrawals[slot as int].execute_after - now
            } else {
                0int
            }),
    {
        if slot >= MAX_PENDING_WITHDRAWALS {
            return i64::MAX;
        }
        let pw = &self.pending_withdrawals[slot];
        if !pw.is_active {
            return i64::MAX;
        }
        if pw.execute_after >= now {
            pw.execute_after - now
        } else {
            0
        }
    }

    /// Execute the withdrawal in `slot` at time `now`: only when the slot is
    /// active and its notice has elapsed. Moves the amount from the locked
    /// balance to the cumulative withdrawn counter (both saturating, as
    /// recorded in the contract), clears the slot, and brings the status
    /// back to idle — or to `Withdrawn` when nothing is left locked.
    pub fn execute_withdrawal(&mut self, slot: usize, now: i64) -> (r: Result<
        (u64, AccountId),
        ParadoxError,
    >)
        requires
            old(self).wf(),
            0 <= now,
        ensures
            final(self).wf(),
            slot >= MAX_PENDING_WITHDRAWALS ==> r == Err::<(u64, AccountId), ParadoxError>(
                ParadoxError::InvalidWithdrawalSlot,
            ) && final(self)@ == old(self)@,
            slot < MAX_PENDING_WITHDRAWALS && !old(self)@.pending_withdrawals[slot as int].is_active
                ==> r == Err::<(u64, AccountId), ParadoxError>(ParadoxError::NoActiveWithdrawal)
                && final(self)@ == old(self)@,
            slot < MAX_PENDING_WITHDRAWALS && old(self)@.pending_withdrawals[slot as int].is_active
                && now < old(self)@.pending_withdrawals[slot as int].execute_after ==> r == Err::<
                (u64, AccountId),
                ParadoxError,
            >(ParadoxError::TimelockNotExpired) && final(self)@ == old(self)@,
            old(self)@.can_execute(slot as int, now) ==> ({
                let pw = old(self)@.pending_withdrawals[slot as int];
                let new_locked: u64 = if pw.amount <= old(self)@.lp_tokens_locked {
                    (old(self)@.lp_tokens_locked - pw.amount) as u64
                } else {
                    0u64
                };
                let new_withdrawn: u64 = if old(self)@.total_withdrawn + pw.amount <= u64::MAX {
                    (old(self)@.total_withdrawn + pw.amount) as u64
                } else {
                    u64::MAX
                };
                &&& r == Ok::<(u64, AccountId), ParadoxError>((pw.amount, pw.recipient))
                &&& final(self)@ == (LpLockView {
                    lp_tokens_locked: new_locked,
                    total_withdrawn: new_withdrawn,
                    pending_withdrawals: old(self)@.pending_withdrawals.update(
                        slot as int,
                        PendingWithdrawalView::cleared(),
                    ),
                    pending_count: (old(self)@.pending_count - 1) as u8,
                    status: if old(self)@.pending_count == 1 {
                        if new_locked == 0 {
                            LpLockStatus::Withdrawn
                        } else {
                            LpLockStatus::Active
                        }
                    } else {
                        old(self)@.status
                    },
                    ..old(self)@
                })
            }),
    {
        if slot >= MAX_PENDING_WITHDRAWALS {
            return Err(ParadoxError::InvalidWithdrawalSlot);
        }
        if !self.pending_withdrawals[slot].is_active {
            return Err(ParadoxError::NoActiveWithdrawal);
        }
        if now < self.pending_withdrawals[slot].execute_after {
            return Err(ParadoxError::TimelockNotExpired);
        }
        let amount = self.pending_withdrawals[slot].amount;
        let recipient = self.pending_withdrawals[slot].recipient;
        self.lp_tokens_locked = if amount <= self.lp_tokens_locked {
            self.lp_tokens_locked - amount
        } else {
            0
        };
        self.total_withdrawn = match self.total_withdrawn.checked_add(amount) {
            Some(v) => v,
            None => u64::MAX,
        };
        self.pending_withdrawals[slot] = PendingWithdrawal::cleared();
        self.pending_count = self.pending_count - 1;
        if self.pending_count == 0 {
            self.status = if self.lp_tokens_locked == 0 {
                LpLockStatus::Withdrawn
            } else {
                LpLockStatus::Active
            };
        }
        proof {
            assert(self@.pending_withdrawals =~~= old(self)@.pending_withdrawals.update(
                slot as int,
                PendingWithdrawalView::cleared(),
            ));
            let pw = old(self)@.pending_withdrawals[slot as int];
            let new_locked: u64 = if pw.amount <= old(self)@.lp_tokens_locked {
                (old(self)@.lp_tokens_locked - pw.amount) as u64
            } else {
                0u64
            };
            let new_withdrawn: u64 = if old(self)@.total_withdrawn + pw.amount <= u64::MAX {
                (old(self)@.total_withdrawn + pw.amount) as u64
            } else {
                u64::MAX
            };
            assert(self@ =~~= (LpLockView {
                lp_tokens_locked: new_locked,
                total_withdrawn: new_withdrawn,
                pending_withdrawals: old(self)@.pending_withdrawals.update(
                    slot as int,
                    PendingWithdrawalView::cleared(),
                ),
                pending_count: (old(self)@.pending_count - 1) as u8,
                status: if old(self)@.pending_count == 1 {
                    if new_locked == 0 {
                        LpLockStatus::Withdrawn
                    } else {
                        LpLockStatus::Active
                    }
                } else {
                    old(self)@.status
                },
                ..old(self)@
            }));
        }
        Ok((amount, recipient))
    }

    /// Cancel the withdrawal in `slot`: clears it with no balance effect
    /// and brings the status back to `Active` once nothing is pending.
    pub fn cancel_withdrawal(&mut self, slot: usize) -> (r: Result<(), ParadoxError>)
        requires
            old(self).wf(),
        ensures
            final(self).wf(),
            slot >= MAX_PENDING_WITHDRAWALS ==> r == Err::<(), ParadoxError>(
                ParadoxError::InvalidWithdrawalSlot,
            ) && final(self)@ == old(self)@,
            slot < MAX_PENDING_WITHDRAWALS && !old(self)@.pending_withdrawals[slot as int].is_active
                ==> r == Err::<(), ParadoxError>(ParadoxError::NoActiveWithdrawal) && final(self)@
                == old(self)@,
            slot < MAX_PENDING_WITHDRAWALS && old(self)@.pending_withdrawals[slot as int].is_active
                ==> r == Ok::<(), ParadoxError>(()) && final(self)@ == (LpLockView {
                pending_withdrawals: old(self)@.pending_withdrawals.update(
                    slot as int,
                    PendingWithdrawalView::cleared(),
                ),
                pending_count: (old(self)@.pending_count - 1) as u8,
                status: if old(self)@.pending_count == 1 {
                    LpLockStatus::Active
                } else {
                    old(self)@.status
                },
                ..old(self)@
            }),
    {
        if slot >= MAX_PENDING_WITHDRAWALS {
            return Err(ParadoxError::InvalidWithdrawalSlot);
        }
        if !self.pending_withdrawals[slot].is_active {
            return Err(ParadoxError::NoActiveWithdrawal);
        }
        self.pending_withdrawals[slot] = PendingWithdrawal::cleared();
        self.pending_count = self.pending_count - 1;
        if self.pending_count == 0 {
            self.status = LpLockStatus::Active;
        }
        proof {
            assert(self@.pending_withdrawals =~~= old(self)@.pending_withdrawals.update(
                slot as int,
                PendingWithdrawalView::cleared(),
            ));
            assert(self@ =~~= (LpLockView {
                pending_withdrawals: old(self)@.pending_withdrawals.update(
                    slot as int,
                    PendingWithdrawalView::cleared(),
                ),
                pending_count: (old(self)@.pending_count - 1) as u8,
                status: if old(self)@.pending_count == 1 {
                    LpLockStatus::Active
                } else {
                    old(self)@.status
                },
                ..old(self)@
            }));
        }
        Ok(())
    }

    /// Reconstitute the lock's accounting from a restore: set the locked
    /// amount, flip the status to `Restored`, and refresh the cached phase.
    pub fn restore_from_snapshot(&mut self, lp_amount: u64, now: i64)
        requires
            old(self).wf(),
            0 <= now,
        ensures
            final(self).wf(),
            final(self)@ == (LpLockView {
                lp_tokens_locked: lp_amount,
                status: LpLockStatus::Restored,
                phase: phase_at(old(self)@.created_at, now),
                ..old(self)@
            }),
    {
        self.lp_tokens_locked = lp_amount;
        self.status = LpLockStatus::Restored;
        let phase = self.get_current_phase(now);
        self.phase = phase;
        proof {
            assert(self@ =~~= (LpLockView {
                lp_tokens_locked: lp_amount,
                status: LpLockStatus::Restored,
                phase: phase_at(old(self)@.created_at, now),
                ..old(self)@
            }));
        }
    }

    /// Restore from snapshot `snapshot_id`: fails when the id is no longer
    /// in the ring or the snapshot was already consumed; on success sets the
    /// locked amount and marks the snapshot restored, so a second restore of
    /// the same id must fail even though the ring still reports it.
    pub fn restore_snapshot_by_id(&mut self, snapshot_id: u64, lp_amount: u64, now: i64) -> (r:
        Result<(), ParadoxError>)
        requires
            old(self).wf(),
            0 <= now,
        ensures
            final(self).wf(),
            !old(self)@.in_ring(snapshot_id) ==> r == Err::<(), ParadoxError>(
                ParadoxError::InvalidWithdrawalSlot,
            ) && final(self)@ == old(self)@,
            old(self)@.snapshot_restored(snapshot_id) ==> r == Err::<(), ParadoxError>(
                ParadoxError::AlreadyFinalized,
            ) && final(self)@ == old(self)@,
            old(self)@.restore_allowed(snapshot_id) ==> r == Ok::<(), ParadoxError>(()) &&  final(self)@ == (LpLockView {
                lp_tokens_locked: lp_amount,
                status: LpLockStatus::Restored,
                phase: phase_at(old(self)@.created_at, now),
                snapshots: old(self)@.snapshots.update(
                    ring_index(snapshot_id),
                    LpSnapshotView {
                        was_restored: true,
                        ..old(self)@.snapshots[ring_index(snapshot_id)]
                    },
                ),
                ..old(self)@
            }) && final(self)@.snapshot_restored(snapshot_id),
    {
        match self.get_snapshot(snapshot_id) {
            Some(s) => {
                if s.was_restored {
                    return Err(ParadoxError::AlreadyFinalized);
                }
            },
            None => {
                return Err(ParadoxError::InvalidWithdrawalSlot);
            },
        }
        self.restore_from_snapshot(lp_amount, now);
        self.mark_snapshot_restored(snapshot_id);
        proof {
            assert forall|i: int|
                0 <= i < MAX_SNAPSHOTS && i != ring_index(snapshot_id) implies  final(self)@.snapshots[i].id != snapshot_id by {
                if old(self)@.snapshots[i].is_valid {
                    assert(ring_index(old(self)@.snapshots[i].id) == i);
                }
            }
            assert(self@.snapshots =~~= old(self)@.snapshots.update(
                ring_index(snapshot_id),
                LpSnapshotView { was_restored: true, ..old(self)@.snapshots[ring_index(snapshot_id)] },
            ));
            assert(self@ =~~= (LpLockView {
                lp_tokens_locked: lp_amount,
                status: LpLockStatus::Restored,
                phase: phase_at(old(self)@.created_at, now),
                snapshots: old(self)@.snapshots.update(
                    ring_index(snapshot_id),
                    LpSnapshotView {
                        was_restored: true,
                        ..old(self)@.snapshots[ring_index(snapshot_id)]
                    },
                ),
                ..old(self)@
            }));
        }
        Ok(())
    }

    /// Announce a withdrawal with its automatic provenance snapshot, as the
    /// control plane does on every announcement: validates the amount
    /// against the locked balance, then takes a snapshot tagged as
    /// pre-withdrawal and records the request pointing at it. All checks
    /// happen before any mutation, so a failure leaves the lock unchanged.
    pub fn announce_withdrawal_with_snapshot(
        &mut self,
        amount: u64,
        recipient: AccountId,
        reason: Vec<u8>,
        now: i64,
    ) -> (r: Result<(usize, u64), ParadoxError>)
        requires
            old(self).wf(),
            0 <= now,
            old(self)@.snapshot_counter < u64::MAX,
        ensures
            final(self).wf(),
            amount > old(self)@.lp_tokens_locked ==> r == Err::<(usize, u64), ParadoxError>(
                ParadoxError::InsufficientLpTokens,
            ) && final(self)@ == old(self)@,
            amount <= old(self)@.lp_tokens_locked && active_count(old(self)@.pending_withdrawals)
                == MAX_PENDING_WITHDRAWALS ==> r == Err::<(usize, u64), ParadoxError>(
                ParadoxError::TooManyPendingWithdrawals,
            ) && final(self)@ == old(self)@,
            amount <= old(self)@.lp_tokens_locked && active_count(old(self)@.pending_withdrawals)
                < MAX_PENDING_WITHDRAWALS && now + notice_at(old(self)@.created_at, now) > i64::MAX
                ==> r == Err::<(usize, u64), ParadoxError>(ParadoxError::MathOverflow) &&  final(self)@ == old(self)@,
            amount <= old(self)@.lp_tokens_locked && active_count(old(self)@.pending_withdrawals)
                < MAX_PENDING_WITHDRAWALS && now + notice_at(old(self)@.created_at, now) <= i64::MAX
                ==> ({
                let sid = (old(self)@.snapshot_counter + 1) as u64;
                let slot = first_free_slot(old(self)@.pending_withdrawals);
                &&& r == Ok::<(usize, u64), ParadoxError>((slot as usize, sid))
                &&& final(self)@ == (LpLockView {
                    snapshot_counter: sid,
                    latest_restorable_snapshot: sid,
                    snapshots: old(self)@.snapshots.update(
                        ring_index(sid),
                        LpSnapshotView {
                            id: sid,
                            timestamp: now,
                            reason: pre_withdrawal_reason(),
                            lp_tokens: old(self)@.lp_tokens_locked,
                            sol_reserve: 0,
                            token_reserve: 0,
                            total_supply: 0,
                            holder_count: 0,
                            is_valid: true,
                            was_restored: false,
                        },
                    ),
                    pending_withdrawals: old(self)@.pending_withdrawals.update(
                        slot,
                        PendingWithdrawalView {
                            amount,
                            recipient,
                            announced_at: now,
                            execute_after: (now + notice_at(old(self)@.created_at, now)) as i64,
                            reason: crate::truncate_bytes(
                                reason@,
                                WITHDRAWAL_REASON_CAPACITY as int,
                            ),
                            snapshot_id: sid,
                            is_active: true,
                        },
                    ),
                    pending_count: (old(self)@.pending_count + 1) as u8,
                    status: LpLockStatus::WithdrawalPending,
                    ..old(self)@
                })
            }),
    {
        if amount > self.lp_tokens_locked {
            return Err(ParadoxError::InsufficientLpTokens);
        }
        if self.pending_withdrawals[0].is_active && self.pending_withdrawals[1].is_active
            && self.pending_withdrawals[2].is_active {
            return Err(ParadoxError::TooManyPendingWithdrawals);
        }
        let timelock = self.get_required_timelock(now);
        if now.checked_add(timelock).is_none() {
            return Err(ParadoxError::MathOverflow);
        }
        let snapshot_id = self.take_snapshot(pre_withdrawal_reason_bytes(), 0, 0, 0, 0, now);
        match self.announce_withdrawal(amount, recipient, reason, snapshot_id, now) {
            Ok(slot) => Ok((slot, snapshot_id)),
            Err(e) => Err(e),
        }
    }

    /// Hand the admin role to `new_admin`.
    pub fn transfer_admin(&mut self, new_admin: AccountId)
        requires
            old(self).wf(),
        ensures
            final(self).wf(),
            final(self)@ == (LpLockView { admin: new_admin, ..old(self)@ }),
    {
        self.admin = new_admin;
        proof {
            assert(self@ =~~= (LpLockView { admin: new_admin, ..old(self)@ }));
        }
    }
}

/// The reason tag recorded on the automatic snapshot that precedes every
/// withdrawal announcement: the bytes of `PRE_WITHDRAWAL__`.
pub open spec fn pre_withdrawal_reason() -> Seq<u8> {
    seq![80u8, 82u8, 69u8, 95u8, 87u8, 73u8, 84u8, 72u8, 68u8, 82u8, 65u8, 87u8, 65u8, 76u8, 95u8, 95u8]
}

/// Builds the pre-withdrawal reason tag.
fn pre_withdrawal_reason_bytes() -> (r: Vec<u8>)
    ensures
        r@ == pre_withdrawal_reason(),
{
    let r: Vec<u8> = vec![80u8, 82, 69, 95, 87, 73, 84, 72, 68, 82, 65, 87, 65, 76, 95, 95];
    proof {
        assert(r@ =~= pre_withdrawal_reason());
    }
    r
}

/// Law: announcing is committing. A new announcement only ever writes the
/// first free slot, so the record of an already-active request — its
/// `execute_after` included — is never changed by later announcements,
/// whatever phase the lock has moved into by then.
pub proof fn lemma_announce_leaves_active_slots(
    s: Seq<PendingWithdrawalView>,
    pw: PendingWithdrawalView,
    j: int,
)
    requires
        s.len() == MAX_PENDING_WITHDRAWALS,
        0 <= j < MAX_PENDING_WITHDRAWALS,
        s[j].is_active,
        first_free_slot(s) < MAX_PENDING_WITHDRAWALS,
    ensures
        s.update(first_free_slot(s), pw)[j] == s[j],
{
}

/// Law: once a snapshot is marked restored it stays in the ring — a lookup
/// still reports it — yet no further restore of the same id is allowed.
pub proof fn lemma_restore_not_repeatable(l: LpLockView, id: u64)
    requires
        l.wf(),
        l.snapshot_restored(id),
    ensures
        l.in_ring(id),
        !l.restore_allowed(id),
{
}

/// Writing snapshot `sid` over ring slot `(sid - 1) mod 5` keeps the ring
/// well formed: the ring then holds exactly the ids `sid - 4 ..= sid` that
/// are at least 1, each in its own slot.
proof fn lemma_take_snapshot_preserves_ring(pre: LpLockView, post: LpLockView, sid: u64)
    requires
        pre.wf(),
        sid == pre.snapshot_counter + 1,
        post.snapshots.len() == MAX_SNAPSHOTS,
        post.pending_withdrawals == pre.pending_withdrawals,
        post.pending_count == pre.pending_count,
        post.created_at == pre.created_at,
        post.snapshot_counter == sid,
        post.snapshots[ring_index(sid)].id == sid,
        post.snapshots[ring_index(sid)].is_valid,
        !post.snapshots[ring_index(sid)].was_restored,
        post.snapshots[ring_index(sid)].reason.len() <= SNAPSHOT_REASON_CAPACITY,
        forall|i: int|
            0 <= i < MAX_SNAPSHOTS && i != ring_index(sid) ==> #[trigger] post.snapshots[i]
                == pre.snapshots[i],
    ensures
        post.wf(),
{
    let c = pre.snapshot_counter as int;
    assert(0 <= ring_index(sid) < 5);
    assert forall|i: int| 0 <= i < MAX_SNAPSHOTS implies ((#[trigger] post.snapshots[i]).is_valid
        ==> (1 <= post.snapshots[i].id && post.in_ring(post.snapshots[i].id) && ring_index(
        post.snapshots[i].id,
    ) == i && post.snapshots[i].reason.len() <= SNAPSHOT_REASON_CAPACITY)) by {
        if i != ring_index(sid) && post.snapshots[i].is_valid {
            let idv = pre.snapshots[i].id as int;
            assert(c <= idv + 4);
            if idv == c - 4 {
                lemma_ring_index_step(sid);
                assert(ring_index((c - 4) as u64) == ring_index(sid));
                assert(false);
            }
        }
    }
    assert forall|id: u64| post.in_ring(id) implies (#[trigger] post.snapshots[ring_index(id)].id
        == id && post.snapshots[ring_index(id)].is_valid) by {
        if id != sid {
            assert(pre.in_ring(id));
            assert(pre.snapshots[ring_index(id)].id == id);
            if ring_index(id) == ring_index(sid) {
                lemma_ring_index_distinct(id, sid);
                assert(false);
            }
        }
    }
}

/// The slot of snapshot `sid` equals the slot of the id five below it.
proof fn lemma_ring_index_step(sid: u64)
    requires
        5 <= sid,
    ensures
        ring_index((sid - 5) as u64) == ring_index(sid),
{
    let x = sid - 6;
    vstd::arithmetic::div_mod::lemma_mod_multiples_vanish(1, x as int, 5);
}

/// Two distinct snapshot ids less than five apart never share a ring slot.
proof fn lemma_ring_index_distinct(a: u64, b: u64)
    requires
        1 <= a < b,
        b <= a + 4,
    ensures
        ring_index(a) != ring_index(b),
{
    let ai = a as int - 1;
    let bi = b as int - 1;
    vstd::arithmetic::div_mod::lemma_fundamental_div_mod(ai, 5);
    vstd::arithmetic::div_mod::lemma_fundamental_div_mod(bi, 5);
    if ring_index(a) == ring_index(b) {
        assert(bi - ai == 5 * (bi / 5 - ai / 5));
        assert(1 <= bi - ai <= 4);
        assert(false);
    }
}

} // verus!
