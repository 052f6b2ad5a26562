//! Sampling the game's memory, one read at a time.
//!
//! The values of a snapshot lie behind chains of pointers, so what is read
//! next depends on what was read before. The sampler decides: it names the
//! next read, takes its outcome, and names the one after. Reading itself is
//! left to the host. A failed read costs only the values behind it: the
//! other chains are still followed, and what cannot be reached keeps its
//! resting value.

use vstd::prelude::*;
use crate::levels::{classify, Levels};
use crate::snapshot::{goal_ring_reached, igt_millis, millis_fit, resting, Snapshot, GOAL_RING_BIT};

verus! {

/// What a read is to fetch.
#[derive(Clone, Copy, Debug, PartialEq, Eq, Structural)]
pub enum ReadKind {
    /// A 64-bit pointer.
    Pointer,
    /// A six-byte stage code.
    StageCode,
    /// A 32-bit floating-point count of hundredths of a second, handed over
    /// truncated to whole hundredths.
    Hundredths,
    /// An unsigned byte.
    Byte,
    /// A signed byte.
    SignedByte,
}

/// A read that the host is to make.
#[derive(Clone, Copy, Debug, PartialEq, Eq, Structural)]
pub struct ReadRequest {
    /// Where to read.
    pub address: u64,
    /// What to read there.
    pub kind: ReadKind,
}

/// What a read fetched.
#[derive(Clone, Copy, Debug, PartialEq, Eq)]
pub enum ReadValue {
    /// A 64-bit pointer.
    Pointer(u64),
    /// A six-byte stage code.
    StageCode([u8; 6]),
    /// A count of whole hundredths of a second.
    Hundredths(i64),
    /// An unsigned byte.
    Byte(u8),
    /// A signed byte.
    SignedByte(i8),
}

/// The memory of the game as reads see it: for each request what the read
/// fetches, or `None` where it fails.
pub type Memory = spec_fn(ReadRequest) -> Option<ReadValue>;

/// The read that the sampler waits for.
#[derive(Clone, Copy, Debug, PartialEq, Eq, Structural)]
pub enum Step {
    /// The pointer at the base address.
    Base,
    /// The pointer to the game's root object.
    Root,
    /// The pointer to the stage object.
    Stage,
    /// The pointer to the level's data.
    Level,
    /// The stage code of the level.
    LevelCode,
    /// The in-game time of the level.
    Igt,
    /// The flag byte that holds the goal ring bit.
    GoalRing,
    /// The pointer to the Egg Shuttle object.
    Shuttle,
    /// The pointer to the Egg Shuttle's counters.
    ShuttleData,
    /// The count of Egg Shuttle stages.
    TotalStages,
    /// The position of the current Egg Shuttle stage.
    ProgressiveId,
    /// The pointer to the run object.
    Run,
    /// The pointer behind the run object.
    RunInner,
    /// The pointer to the run's data.
    RunData,
    /// The run-state code.
    RunStart,
    /// The rank of the first time trial.
    Rank,
    /// Nothing: the snapshot is complete.
    Done,
}

/// Offset of the root pointer within the object at the base pointer.
pub const ROOT_OFFSET: u64 = 0x8;

/// Offset of the stage pointer within the root object.
pub const STAGE_OFFSET: u64 = 0x38;

/// Offset of the level pointer within the stage object.
pub const LEVEL_OFFSET: u64 = 0x60;

/// Offset of the stage code within the level's data.
pub const LEVEL_CODE_OFFSET: u64 = 0xE0;

/// Offset of the in-game time within the level's data.
pub const IGT_OFFSET: u64 = 0x270;

/// Offset of the flag byte within the level's data.
pub const GOAL_RING_OFFSET: u64 = 0x110;

/// Offset of the Egg Shuttle pointer within the stage object.
pub const SHUTTLE_OFFSET: u64 = 0x68;

/// Offset of the pointer to the counters within the Egg Shuttle object.
pub const SHUTTLE_DATA_OFFSET: u64 = 0x110;

/// Offset of the count of stages within the Egg Shuttle's counters.
pub const TOTAL_STAGES_OFFSET: u64 = 0x0;

/// Offset of the current position within the Egg Shuttle's counters.
pub const PROGRESSIVE_ID_OFFSET: u64 = 0xB8;

/// Offset of the run pointer within the root object.
pub const RUN_OFFSET: u64 = 0x8;

/// Offset of the inner pointer within the run object.
pub const RUN_INNER_OFFSET: u64 = 0x10;

/// Offset of the pointer to the run's data behind the inner pointer.
pub const RUN_DATA_OFFSET: u64 = 0x60;

/// Offset of the run-state code within the run's data.
pub const RUN_START_OFFSET: u64 = 0x120;

/// Offset of the time-trial rank within the run's data.
pub const RANK_OFFSET: u64 = 0x1CC;

/// The address `by` bytes past `address`. Addresses wrap at 64 bits.
pub open spec fn offset(address: u64, by: u64) -> u64 {
    if address + by > u64::MAX {
        (address + by - 0x1_0000_0000_0000_0000) as u64
    } else {
        (address + by) as u64
    }
}

/// The read of a value of kind `kind` that lies `by` bytes past `from`.
pub open spec fn read_at(from: u64, by: u64, kind: ReadKind) -> ReadRequest {
    ReadRequest { address: offset(from, by), kind }
}

/// The pointer in an outcome, if the read fetched one.
pub open spec fn as_pointer(value: Option<ReadValue>) -> Option<u64> {
    match value {
        Some(ReadValue::Pointer(pointer)) => Some(pointer),
        _ => None,
    }
}

/// The stage code in an outcome, if the read fetched one.
pub open spec fn as_stage_code(value: Option<ReadValue>) -> Option<Seq<u8>> {
    match value {
        Some(ReadValue::StageCode(code)) => Some(code@),
        _ => None,
    }
}

/// The hundredths of a second in an outcome, if the read fetched them.
pub open spec fn as_hundredths(value: Option<ReadValue>) -> Option<i64> {
    match value {
        Some(ReadValue::Hundredths(hundredths)) => Some(hundredths),
        _ => None,
    }
}

/// The unsigned byte in an outcome, if the read fetched one.
pub open spec fn as_byte(value: Option<ReadValue>) -> Option<u8> {
    match value {
        Some(ReadValue::Byte(byte)) => Some(byte),
        _ => None,
    }
}

/// The signed byte in an outcome, if the read fetched one.
pub open spec fn as_signed_byte(value: Option<ReadValue>) -> Option<i8> {
    match value {
        Some(ReadValue::SignedByte(byte)) => Some(byte),
        _ => None,
    }
}

/// The pointer that `memory` holds at `address`, if it can be read.
pub open spec fn pointer_at(memory: Memory, address: u64) -> Option<u64> {
    as_pointer(memory(ReadRequest { address, kind: ReadKind::Pointer }))
}

/// The stage code that `memory` holds at `address`, if it can be read.
pub open spec fn stage_code_at(memory: Memory, address: u64) -> Option<Seq<u8>> {
    as_stage_code(memory(ReadRequest { address, kind: ReadKind::StageCode }))
}

/// The hundredths of a second that `memory` holds at `address`, if they can
/// be read.
pub open spec fn hundredths_at(memory: Memory, address: u64) -> Option<i64> {
    as_hundredths(memory(ReadRequest { address, kind: ReadKind::Hundredths }))
}

/// The unsigned byte that `memory` holds at `address`, if it can be read.
pub open spec fn byte_at(memory: Memory, address: u64) -> Option<u8> {
    as_byte(memory(ReadRequest { address, kind: ReadKind::Byte }))
}

/// The signed byte that `memory` holds at `address`, if it can be read.
pub open spec fn signed_byte_at(memory: Memory, address: u64) -> Option<i8> {
    as_signed_byte(memory(ReadRequest { address, kind: ReadKind::SignedByte }))
}

/// Whether every in-game time that `memory` holds can be held as
/// milliseconds.
pub open spec fn times_fit(memory: Memory) -> bool {
    forall|address: u64| #[trigger]
        hundredths_at(memory, address) matches Some(hundredths) ==> millis_fit(hundredths)
}

/// The level, the in-game time and the goal ring flag that lie behind the
/// stage object. The time and the flag are read only in a known level.
pub open spec fn level_fields(stage: Option<u64>, memory: Memory) -> (Levels, i64, bool) {
    let data = match stage {
        Some(stage) => pointer_at(memory, offset(stage, LEVEL_OFFSET)),
        None => None,
    };
    let level = match data {
        Some(data) => match stage_code_at(memory, offset(data, LEVEL_CODE_OFFSET)) {
            Some(code) => classify(code),
            None => Levels::NoLevel,
        },
        None => Levels::NoLevel,
    };
    if level == Levels::NoLevel {
        (Levels::NoLevel, 0, false)
    } else {
        let igt = match hundredths_at(memory, offset(data.unwrap(), IGT_OFFSET)) {
            Some(hundredths) => (hundredths * 10) as i64,
            None => 0,
        };
        let goal_ring = match byte_at(memory, offset(data.unwrap(), GOAL_RING_OFFSET)) {
            Some(flags) => flags & GOAL_RING_BIT != 0,
            None => false,
        };
        (level, igt, goal_ring)
    }
}

/// The count of Egg Shuttle stages and the position of the current one, as
/// they lie behind the stage object. The position is read only where the
/// count could be.
pub open spec fn shuttle_fields(stage: Option<u64>, memory: Memory) -> (u8, u8) {
    let shuttle = match stage {
        Some(stage) => pointer_at(memory, offset(stage, SHUTTLE_OFFSET)),
        None => None,
    };
    let data = match shuttle {
        Some(shuttle) => pointer_at(memory, offset(shuttle, SHUTTLE_DATA_OFFSET)),
        None => None,
    };
    let total = match data {
        Some(data) => byte_at(memory, offset(data, TOTAL_STAGES_OFFSET)),
        None => None,
    };
    match total {
        Some(total) => match byte_at(memory, offset(data.unwrap(), PROGRESSIVE_ID_OFFSET)) {
            Some(position) => (total, position),
            None => (total, 0),
        },
        None => (0, 0),
    }
}

/// The run-state code and the time-trial rank, as they lie behind the root
/// object. The rank is read only where the code could be.
pub open spec fn run_fields(root: u64, memory: Memory) -> (u8, i8) {
    let run = pointer_at(memory, offset(root, RUN_OFFSET));
    let inner = match run {
        Some(run) => pointer_at(memory, offset(run, RUN_INNER_OFFSET)),
        None => None,
    };
    let data = match inner {
        Some(inner) => pointer_at(memory, offset(inner, RUN_DATA_OFFSET)),
        None => None,
    };
    let code = match data {
        Some(data) => byte_at(memory, offset(data, RUN_START_OFFSET)),
        None => None,
    };
    match code {
        Some(code) => match signed_byte_at(memory, offset(data.unwrap(), RANK_OFFSET)) {
            Some(rank) => (code, rank),
            None => (code, 0),
        },
        None => (0, 0),
    }
}

/// The snapshot that `memory` holds for the base address `base`: nothing
/// where the root object cannot be reached, and otherwise what lies behind
/// each of its three chains, one independent of the other.
pub open spec fn sampled(base: u64, memory: Memory) -> Snapshot {
    let game = pointer_at(memory, base);
    let root = match game {
        Some(game) => pointer_at(memory, offset(game, ROOT_OFFSET)),
        None => None,
    };
    match root {
        None => resting(),
        Some(root) => {
            let stage = pointer_at(memory, offset(root, STAGE_OFFSET));
            let (level, igt, goal_ring) = level_fields(stage, memory);
            let (total, position) = shuttle_fields(stage, memory);
            let (code, rank) = run_fields(root, memory);
            Snapshot {
                level,
                igt,
                goal_ring,
                eggshuttle_totalstages: total,
                eggshuttle_progressiveid: position,
                runstart: code,
                tr1rank: rank,
            }
        },
    }
}

/// The state of one tick's sampling.
#[derive(Clone, Copy, Debug, PartialEq, Eq, Structural)]
pub struct Sampler {
    /// The read that is waited for.
    pub step: Step,
    /// The pointer read last: the next value lies at an offset from it.
    pub cursor: u64,
    /// The root object, from which the stage and the run chains start.
    pub root: u64,
    /// The stage object, from which the level and Egg Shuttle chains start.
    pub stage: u64,
    /// What has been sampled so far.
    pub snapshot: Snapshot,
}

impl Step {
    /// An upper bound on the reads that are still to come.
    pub open spec fn remaining(self) -> nat {
        match self {
            Step::Base => 16,
            Step::Root => 15,
            Step::Stage => 14,
            Step::Level => 13,
            Step::LevelCode => 12,
            Step::Igt => 11,
            Step::GoalRing => 10,
            Step::Shuttle => 9,
            Step::ShuttleData => 8,
            Step::TotalStages => 7,
            Step::ProgressiveId => 6,
            Step::Run => 5,
            Step::RunInner => 4,
            Step::RunData => 3,
            Step::RunStart => 2,
            Step::Rank => 1,
            Step::Done => 0,
        }
    }
}

impl Sampler {
    /// The sampler at the start of a tick, for the base address `base`.
    pub open spec fn begin(base: u64) -> Sampler {
        Sampler { step: Step::Base, cursor: base, root: 0, stage: 0, snapshot: resting() }
    }

    /// The read that the sampler waits for; `None` once the snapshot is
    /// complete.
    pub open spec fn request(self) -> Option<ReadRequest> {
        match self.step {
            Step::Base => Some(read_at(self.cursor, 0, ReadKind::Pointer)),
            Step::Root => Some(read_at(self.cursor, ROOT_OFFSET, ReadKind::Pointer)),
            Step::Stage => Some(read_at(self.root, STAGE_OFFSET, ReadKind::Pointer)),
            Step::Level => Some(read_at(self.stage, LEVEL_OFFSET, ReadKind::Pointer)),
            Step::LevelCode => Some(read_at(self.cursor, LEVEL_CODE_OFFSET, ReadKind::StageCode)),
            Step::Igt => Some(read_at(self.cursor, IGT_OFFSET, ReadKind::Hundredths)),
            Step::GoalRing => Some(read_at(self.cursor, GOAL_RING_OFFSET, ReadKind::Byte)),
            Step::Shuttle => Some(read_at(self.stage, SHUTTLE_OFFSET, ReadKind::Pointer)),
            Step::ShuttleData => Some(read_at(self.cursor, SHUTTLE_DATA_OFFSET, ReadKind::Pointer)),
            Step::TotalStages => Some(read_at(self.cursor, TOTAL_STAGES_OFFSET, ReadKind::Byte)),
            Step::ProgressiveId => Some(
                read_at(self.cursor, PROGRESSIVE_ID_OFFSET, ReadKind::Byte),
            ),
            Step::Run => Some(read_at(self.root, RUN_OFFSET, ReadKind::Pointer)),
            Step::RunInner => Some(read_at(self.cursor, RUN_INNER_OFFSET, ReadKind::Pointer)),
            Step::RunData => Some(read_at(self.cursor, RUN_DATA_OFFSET, ReadKind::Pointer)),
            Step::RunStart => Some(read_at(self.cursor, RUN_START_OFFSET, ReadKind::Byte)),
            Step::Rank => Some(read_at(self.cursor, RANK_OFFSET, ReadKind::SignedByte)),
            Step::Done => None,
        }
    }

    /// The sampler at `step`, with the pointer `pointer` just read.
    pub open spec fn follow(self, step: Step, pointer: u64) -> Sampler {
        Sampler { step, cursor: pointer, ..self }
    }

    /// The sampler at `step`, with nothing else changed.
    pub open spec fn skip_to(self, step: Step) -> Sampler {
        Sampler { step, ..self }
    }

    /// The sampler at `step`, with `snapshot` sampled so far.
    pub open spec fn record(self, step: Step, snapshot: Snapshot) -> Sampler {
        Sampler { step, snapshot, ..self }
    }

    /// Whether the sampler can take `value` as the outcome of the read it
    /// waits for: an in-game time must be one that can be held as
    /// milliseconds.
    pub open spec fn admits(self, value: Option<ReadValue>) -> bool {
        self.step == Step::Igt ==> (as_hundredths(value) matches Some(hundredths) ==> millis_fit(
            hundredths,
        ))
    }

    /// The sampler after the read it waited for came out as `value`: `None`
    /// for a read that failed. A value of another kind than the one asked
    /// for counts as a failed read.
    pub open spec fn supplied(self, value: Option<ReadValue>) -> Sampler {
        match self.step {
            Step::Base => match as_pointer(value) {
                Some(game) => self.follow(Step::Root, game),
                None => self.skip_to(Step::Done),
            },
            Step::Root => match as_pointer(value) {
                Some(root) => Sampler { root, ..self.follow(Step::Stage, root) },
                None => self.skip_to(Step::Done),
            },
            Step::Stage => match as_pointer(value) {
                Some(stage) => Sampler { stage, ..self.follow(Step::Level, stage) },
                None => self.skip_to(Step::Run),
            },
            Step::Level => match as_pointer(value) {
                Some(data) => self.follow(Step::LevelCode, data),
                None => self.skip_to(Step::Shuttle),
            },
            Step::LevelCode => match as_stage_code(value) {
                Some(code) if classify(code) != Levels::NoLevel => self.record(
                    Step::Igt,
                    Snapshot { level: classify(code), ..self.snapshot },
                ),
                _ => self.skip_to(Step::Shuttle),
            },
            Step::Igt => match as_hundredths(value) {
                Some(hundredths) => self.record(
                    Step::GoalRing,
                    Snapshot { igt: (hundredths * 10) as i64, ..self.snapshot },
                ),
                None => self.skip_to(Step::GoalRing),
            },
            Step::GoalRing => match as_byte(value) {
                Some(flags) => self.record(
                    Step::Shuttle,
                    Snapshot { goal_ring: flags & GOAL_RING_BIT != 0, ..self.snapshot },
                ),
                None => self.skip_to(Step::Shuttle),
            },
            Step::Shuttle => match as_pointer(value) {
                Some(shuttle) => self.follow(Step::ShuttleData, shuttle),
                None => self.skip_to(Step::Run),
            },
            Step::ShuttleData => match as_pointer(value) {
                Some(data) => self.follow(Step::TotalStages, data),
                None => self.skip_to(Step::Run),
            },
            Step::TotalStages => match as_byte(value) {
                Some(total) => self.record(
                    Step::ProgressiveId,
                    Snapshot { eggshuttle_totalstages: total, ..self.snapshot },
                ),
                None => self.skip_to(Step::Run),
            },
            Step::ProgressiveId => match as_byte(value) {
                Some(position) => self.record(
                    Step::Run,
                    Snapshot { eggshuttle_progressiveid: position, ..self.snapshot },
                ),
                None => self.skip_to(Step::Run),
            },
            Step::Run => match as_pointer(value) {
                Some(run) => self.follow(Step::RunInner, run),
                None => self.skip_to(Step::Done),
            },
            Step::RunInner => match as_pointer(value) {
                Some(inner) => self.follow(Step::RunData, inner),
                None => self.skip_to(Step::Done),
            },
            Step::RunData => match as_pointer(value) {
                Some(data) => self.follow(Step::RunStart, data),
                None => self.skip_to(Step::Done),
            },
            Step::RunStart => match as_byte(value) {
                Some(code) => self.record(Step::Rank, Snapshot { runstart: code, ..self.snapshot }),
                None => self.skip_to(Step::Done),
            },
            Step::Rank => match as_signed_byte(value) {
                Some(rank) => self.record(Step::Done, Snapshot { tr1rank: rank, ..self.snapshot }),
                None => self.skip_to(Step::Done),
            },
            Step::Done => self,
        }
    }

    /// The sampler after every read it asks for has been answered from
    /// `memory`.
    pub open spec fn driven(self, memory: Memory) -> Sampler
        decreases self.step.remaining(),
    {
        match self.request() {
            Some(request) => self.supplied(memory(request)).driven(memory),
            None => self,
        }
    }

    /// The sampler at the start of a tick, for the base address `base`.
    pub fn new(base: u64) -> (sampler: Sampler)
        ensures
            sampler == Sampler::begin(base),
    {
        Sampler { step: Step::Base, cursor: base, root: 0, stage: 0, snapshot: Snapshot::new() }
    }

    /// The read to make next, or `None` once the snapshot is complete.
    pub fn pending(&self) -> (request: Option<ReadRequest>)
        ensures
            request == self.request(),
            request is None <==> self.step == Step::Done,
    {
        let (from, by, kind) = match self.step {
            Step::Base => (self.cursor, 0, ReadKind::Pointer),
            Step::Root => (self.cursor, ROOT_OFFSET, ReadKind::Pointer),
            Step::Stage => (self.root, STAGE_OFFSET, ReadKind::Pointer),
            Step::Level => (self.stage, LEVEL_OFFSET, ReadKind::Pointer),
            Step::LevelCode => (self.cursor, LEVEL_CODE_OFFSET, ReadKind::StageCode),
            Step::Igt => (self.cursor, IGT_OFFSET, ReadKind::Hundredths),
            Step::GoalRing => (self.cursor, GOAL_RING_OFFSET, ReadKind::Byte),
            Step::Shuttle => (self.stage, SHUTTLE_OFFSET, ReadKind::Pointer),
            Step::ShuttleData => (self.cursor, SHUTTLE_DATA_OFFSET, ReadKind::Pointer),
            Step::TotalStages => (self.cursor, TOTAL_STAGES_OFFSET, ReadKind::Byte),
            Step::ProgressiveId => (self.cursor, PROGRESSIVE_ID_OFFSET, ReadKind::Byte),
            Step::Run => (self.root, RUN_OFFSET, ReadKind::Pointer),
            Step::RunInner => (self.cursor, RUN_INNER_OFFSET, ReadKind::Pointer),
            Step::RunData => (self.cursor, RUN_DATA_OFFSET, ReadKind::Pointer),
            Step::RunStart => (self.cursor, RUN_START_OFFSET, ReadKind::Byte),
            Step::Rank => (self.cursor, RANK_OFFSET, ReadKind::SignedByte),
            Step::Done => {
                return None;
            },
        };
        Some(ReadRequest { address: from.wrapping_add(by), kind })
    }

    /// Whether [`Sampler::supply`] can take `value`.
    pub fn can_supply(&self, value: &Option<ReadValue>) -> (admitted: bool)
        ensures
            admitted == self.admits(*value),
    {
        match (self.step, value) {
            (Step::Igt, Some(ReadValue::Hundredths(hundredths))) => {
                i64::MIN / 10 <= *hundredths && *hundredths <= i64::MAX / 10
            },
            _ => true,
        }
    }

    /// Takes the outcome of the pending read: `None` for a read that
    /// failed. Every outcome brings the sampler closer to the end.
    pub fn supply(&mut self, value: Option<ReadValue>)
        requires
            old(self).admits(value),
        ensures
            *final(self) == old(self).supplied(value),
            old(self).step != Step::Done ==> final(self).step.remaining() < old(
                self,
            ).step.remaining(),
    {
        match (self.step, value) {
            (Step::Base, Some(ReadValue::Pointer(game))) => {
                self.cursor = game;
                self.step = Step::Root;
            },
            (Step::Root, Some(ReadValue::Pointer(root))) => {
                self.cursor = root;
                self.root = root;
                self.step = Step::Stage;
            },
            (Step::Stage, Some(ReadValue::Pointer(stage))) => {
                self.cursor = stage;
                self.stage = stage;
                self.step = Step::Level;
            },
            (Step::Level, Some(ReadValue::Pointer(data))) => {
                self.cursor = data;
                self.step = Step::LevelCode;
            },
            (Step::LevelCode, Some(ReadValue::StageCode(code))) => {
                let level = Levels::from_stage_code(&code);
                if level != Levels::NoLevel {
                    self.snapshot.level = level;
                    self.step = Step::Igt;
                } else {
                    self.step = Step::Shuttle;
                }
            },
            (Step::Igt, Some(ReadValue::Hundredths(hundredths))) => {
                self.snapshot.igt = igt_millis(hundredths);
                self.step = Step::GoalRing;
            },
            (Step::Igt, _) => {
                self.step = Step::GoalRing;
            },
            (Step::GoalRing, Some(ReadValue::Byte(flags))) => {
                self.snapshot.goal_ring = goal_ring_reached(flags);
                self.step = Step::Shuttle;
            },
            (Step::Shuttle, Some(ReadValue::Pointer(shuttle))) => {
                self.cursor = shuttle;
                self.step = Step::ShuttleData;
            },
            (Step::ShuttleData, Some(ReadValue::Pointer(data))) => {
                self.cursor = data;
                self.step = Step::TotalStages;
            },
            (Step::TotalStages, Some(ReadValue::Byte(total))) => {
                self.snapshot.eggshuttle_totalstages = total;
                self.step = Step::ProgressiveId;
            },
            (Step::ProgressiveId, Some(ReadValue::Byte(position))) => {
                self.snapshot.eggshuttle_progressiveid = position;
                self.step = Step::Run;
            },
            (Step::Run, Some(ReadValue::Pointer(run))) => {
                self.cursor = run;
                self.step = Step::RunInner;
            },
            (Step::RunInner, Some(ReadValue::Pointer(inner))) => {
                self.cursor = inner;
                self.step = Step::RunData;
            },
            (Step::RunData, Some(ReadValue::Pointer(data))) => {
                self.cursor = data;
                self.step = Step::RunStart;
            },
            (Step::RunStart, Some(ReadValue::Byte(code))) => {
                self.snapshot.runstart = code;
                self.step = Step::Rank;
            },
            (Step::Rank, Some(ReadValue::SignedByte(rank))) => {
                self.snapshot.tr1rank = rank;
                self.step = Step::Done;
            },
            (Step::Level | Step::LevelCode | Step::GoalRing, _) => {
                self.step = Step::Shuttle;
            },
            (
                Step::Stage
                | Step::Shuttle
                | Step::ShuttleData
                | Step::TotalStages
                | Step::ProgressiveId,
                _,
            ) => {
                self.step = Step::Run;
            },
            (_, _) => {
                self.step = Step::Done;
            },
        }
    }

    /// The snapshot, once every read has been answered.
    pub fn finished(&self) -> (snapshot: Option<Snapshot>)
        ensures
            snapshot == (if self.step == Step::Done {
                Some(self.snapshot)
            } else {
                None
            }),
    {
        match self.step {
            Step::Done => Some(self.snapshot),
            _ => None,
        }
    }
}

/// From the run chain on, the sampler ends with the run-state code and the
/// rank that lie behind the root object, and with nothing else changed.
proof fn lemma_run_chain(sampler: Sampler, memory: Memory)
    requires
        sampler.step == Step::Run,
        sampler.snapshot.runstart == 0,
        sampler.snapshot.tr1rank == 0,
    ensures
        sampler.driven(memory).step == Step::Done,
        sampler.driven(memory).snapshot == (Snapshot {
            runstart: run_fields(sampler.root, memory).0,
            tr1rank: run_fields(sampler.root, memory).1,
            ..sampler.snapshot
        }),
{
    reveal_with_fuel(Sampler::driven, 6);
}

/// From the Egg Shuttle chain on, the sampler ends with the counters that
/// lie behind the stage object and with what the run chain gives.
proof fn lemma_shuttle_chain(sampler: Sampler, memory: Memory)
    requires
        sampler.step == Step::Shuttle,
        sampler.snapshot.eggshuttle_totalstages == 0,
        sampler.snapshot.eggshuttle_progressiveid == 0,
        sampler.snapshot.runstart == 0,
        sampler.snapshot.tr1rank == 0,
    ensures
        sampler.driven(memory).step == Step::Done,
        sampler.driven(memory).snapshot == (Snapshot {
            eggshuttle_totalstages: shuttle_fields(Some(sampler.stage), memory).0,
            eggshuttle_progressiveid: shuttle_fields(Some(sampler.stage), memory).1,
            runstart: run_fields(sampler.root, memory).0,
            tr1rank: run_fields(sampler.root, memory).1,
            ..sampler.snapshot
        }),
{
    reveal_with_fuel(Sampler::driven, 2);
    let shuttle = sampler.supplied(memory(sampler.request().unwrap()));
    if shuttle.step == Step::Run {
        lemma_run_chain(shuttle, memory);
    } else {
        let data = shuttle.supplied(memory(shuttle.request().unwrap()));
        if data.step == Step::Run {
            lemma_run_chain(data, memory);
        } else {
            let total = data.supplied(memory(data.request().unwrap()));
            assert(data.driven(memory) == total.driven(memory));
            if total.step == Step::Run {
                lemma_run_chain(total, memory);
            } else {
                let position = total.supplied(memory(total.request().unwrap()));
                assert(total.driven(memory) == position.driven(memory));
                lemma_run_chain(position, memory);
            }
        }
    }
}

/// From the level chain on, the sampler ends with the level, the time and
/// the flag that lie behind the stage object and with what the other chains
/// give.
proof fn lemma_level_chain(sampler: Sampler, memory: Memory)
    requires
        sampler.step == Step::Level,
        sampler.snapshot == resting(),
    ensures
        sampler.driven(memory).step == Step::Done,
        sampler.driven(memory).snapshot == (Snapshot {
            level: level_fields(Some(sampler.stage), memory).0,
            igt: level_fields(Some(sampler.stage), memory).1,
            goal_ring: level_fields(Some(sampler.stage), memory).2,
            eggshuttle_totalstages: shuttle_fields(Some(sampler.stage), memory).0,
            eggshuttle_progressiveid: shuttle_fields(Some(sampler.stage), memory).1,
            runstart: run_fields(sampler.root, memory).0,
            tr1rank: run_fields(sampler.root, memory).1,
        }),
{
    reveal_with_fuel(Sampler::driven, 2);
    let data = sampler.supplied(memory(sampler.request().unwrap()));
    if data.step == Step::Shuttle {
        lemma_shuttle_chain(data, memory);
    } else {
        let level = data.supplied(memory(data.request().unwrap()));
        if level.step == Step::Shuttle {
            lemma_shuttle_chain(level, memory);
        } else {
            let igt = level.supplied(memory(level.request().unwrap()));
            let ring = igt.supplied(memory(igt.request().unwrap()));
            assert(level.driven(memory) == igt.driven(memory));
            assert(igt.driven(memory) == ring.driven(memory));
            lemma_shuttle_chain(ring, memory);
        }
    }
}

/// While every in-game time in the game's memory can be held as
/// milliseconds, the sampler admits the outcome of every read it asks for.
pub proof fn lemma_memory_admitted(sampler: Sampler, memory: Memory)
    requires
        times_fit(memory),
        sampler.request() is Some,
    ensures
        sampler.admits(memory(sampler.request().unwrap())),
{
    if sampler.step == Step::Igt {
        let address = offset(sampler.cursor, IGT_OFFSET);
        assert(as_hundredths(memory(sampler.request().unwrap())) == hundredths_at(memory, address));
    }
}

/// Answering every read of the sampler from the game's memory gives the
/// snapshot that the memory holds, after at most sixteen reads.
pub proof fn lemma_driven_samples(base: u64, memory: Memory)
    ensures
        Sampler::begin(base).driven(memory).step == Step::Done,
        Sampler::begin(base).driven(memory).snapshot == sampled(base, memory),
{
    reveal_with_fuel(Sampler::driven, 2);
    let start = Sampler::begin(base);
    let game = start.supplied(memory(start.request().unwrap()));
    if game.step != Step::Done {
        let root = game.supplied(memory(game.request().unwrap()));
        if root.step != Step::Done {
            let stage = root.supplied(memory(root.request().unwrap()));
            assert(root.driven(memory) == stage.driven(memory));
            if stage.step == Step::Run {
                lemma_run_chain(stage, memory);
            } else {
                lemma_level_chain(stage, memory);
            }
        }
    }
}

} // verus!
