//! What holds of every run of the protocols, whatever the system answers.

use vstd::prelude::*;
use crate::errno::ErrnoKind;
use crate::shared_memory::builder::{SharedMemoryBuilder, SharedMemoryCreationBuilder};
use crate::shared_memory::handle::{MappedRange, SharedMemory};
use crate::shared_memory::setup::{Phase, SegmentSetup, SetupStep};
use crate::shared_memory::types::{
    AccessMode,
    CreationMode,
    OsReply,
    PlatformSupport,
    SharedMemoryCreationError,
};

verus! {

/// Where the protocol stands after the answers `replies`, taken in turn.
/// Answers that come after its end are not looked at.
pub open spec fn run(setup: SegmentSetup, replies: Seq<OsReply>) -> SetupStep
    decreases replies.len(),
{
    if replies.len() == 0 {
        SetupStep::Perform(setup)
    } else {
        match setup.next(replies[0]) {
            SetupStep::Perform(next) => run(next, replies.drop_first()),
            done => done,
        }
    }
}

/// How many calls a protocol in this phase makes at most, the pending one
/// counted.
pub open spec fn calls_left(phase: Phase) -> nat {
    match phase {
        Phase::Opening | Phase::Purging | Phase::Probing => 7,
        Phase::Sizing | Phase::Creating => 6,
        Phase::Mapping => 5,
        Phase::Truncating => 4,
        Phase::Verifying => 3,
        Phase::Locking => 2,
        Phase::Zeroing => 1,
    }
}

/// Among `replies` is the size `size`, as the system reported it.
pub open spec fn reported_size(replies: Seq<OsReply>, size: u64) -> bool {
    exists|i: int| 0 <= i < replies.len() && #[trigger] replies[i] == (OsReply::Size { size })
}

/// Every answer to the pending call brings the protocol nearer to its end.
pub proof fn lemma_every_answer_is_progress(setup: SegmentSetup, reply: OsReply)
    requires
        setup.expects(reply),
    ensures
        setup.next(reply) matches SetupStep::Perform(next) ==> calls_left(next.phase)
            < calls_left(setup.phase),
{
}

/// Each of `replies` answers the call that is pending when its turn comes.
pub open spec fn answers_in_turn(setup: SegmentSetup, replies: Seq<OsReply>) -> bool
    decreases replies.len(),
{
    replies.len() == 0 || (setup.expects(replies[0]) && match setup.next(replies[0]) {
        SetupStep::Perform(next) => answers_in_turn(next, replies.drop_first()),
        _ => true,
    })
}

/// A protocol whose calls are answered comes to its end, a handle or a
/// failure, after as many answers as `calls_left` says, seven at most.
pub proof fn lemma_protocol_ends(setup: SegmentSetup, replies: Seq<OsReply>)
    requires
        answers_in_turn(setup, replies),
        replies.len() >= calls_left(setup.phase),
    ensures
        !(run(setup, replies) is Perform),
        calls_left(setup.phase) <= 7,
    decreases replies.len(),
{
    lemma_every_answer_is_progress(setup, replies[0]);
    match setup.next(replies[0]) {
        SetupStep::Perform(next) => {
            lemma_protocol_ends(next, replies.drop_first());
        },
        _ => {},
    }
}

/// An answer to another call than the pending one changes nothing.
pub proof fn lemma_stray_answer_is_ignored(setup: SegmentSetup, reply: OsReply)
    requires
        !setup.expects(reply),
    ensures
        setup.next(reply) == SetupStep::Perform(setup),
{
}

/// In this phase the protocol holds an open descriptor.
pub open spec fn past_open(phase: Phase) -> bool {
    phase != Phase::Opening && phase != Phase::Purging && phase != Phase::Probing && phase
        != Phase::Creating
}

/// In this phase the protocol holds a mapping.
pub open spec fn past_map(phase: Phase) -> bool {
    past_open(phase) && phase != Phase::Sizing && phase != Phase::Mapping
}

/// A protocol that fails gives back what it has taken: the descriptor is
/// closed where one is open, the memory is unmapped where it is mapped, also
/// where the failure is that it is mapped at the wrong place. The segment
/// is removed only where the handle would have owned it, and only by a
/// protocol that has mapped it.
pub proof fn lemma_failure_gives_back_what_was_taken(setup: SegmentSetup, reply: OsReply)
    ensures
        setup.next(reply) matches SetupStep::Failed { error, cleanup, silent } ==> {
            &&& cleanup.close == (if past_open(setup.phase) {
                Some(setup.file_descriptor)
            } else {
                None
            })
            &&& cleanup.unmap == (if past_map(setup.phase) {
                Some(MappedRange { base_address: setup.base_address, size: setup.size })
            } else {
                match reply {
                    OsReply::Mapped { base_address } => Some(
                        MappedRange { base_address, size: setup.size },
                    ),
                    _ => None,
                }
            })
            &&& cleanup.unlink == (past_map(setup.phase) && setup.has_ownership)
            &&& cleanup.unlock == (past_map(setup.phase) && setup.memory_locked)
            &&& silent ==> error == SharedMemoryCreationError::DoesNotExist && setup.quiet
                && setup.phase == Phase::Opening
        },
{
}

spec fn past_check(phase: Phase) -> bool {
    phase == Phase::Locking || phase == Phase::Zeroing
}

spec fn enforced(address: Option<u64>, base_address: usize) -> bool {
    address matches Some(enforced) ==> enforced == base_address as u64
}

spec fn creation_invariant(
    setup: SegmentSetup,
    builder: SharedMemoryCreationBuilder,
    support: PlatformSupport,
) -> bool {
    let start = builder.creating(support);
    &&& setup.name == start.name
    &&& setup.size == start.size
    &&& setup.access_mode == start.access_mode
    &&& setup.permission == start.permission
    &&& setup.is_memory_locked == start.is_memory_locked
    &&& setup.zero_memory == start.zero_memory
    &&& setup.enforce_base_address == start.enforce_base_address
    &&& setup.catch_signals == start.catch_signals
    &&& setup.creating
    &&& setup.phase != Phase::Opening && setup.phase != Phase::Sizing
    &&& setup.has_ownership ==> builder.has_ownership
    &&& setup.created || !past_open(setup.phase) ==> setup.has_ownership == builder.has_ownership
    &&& !setup.created && past_open(setup.phase) ==> builder.creation_mode
        == CreationMode::OpenOrCreate && !setup.has_ownership
    &&& past_open(setup.phase) ==> setup.file_descriptor >= 0
    &&& past_map(setup.phase) ==> setup.base_address != 0 && enforced(
        setup.enforce_base_address,
        setup.base_address,
    )
    &&& setup.memory_locked ==> builder.is_memory_locked && setup.phase == Phase::Zeroing
    &&& setup.phase == Phase::Zeroing && builder.is_memory_locked ==> setup.memory_locked
    &&& setup.phase == Phase::Locking ==> builder.is_memory_locked
    &&& setup.phase == Phase::Probing ==> builder.creation_mode == CreationMode::OpenOrCreate
    &&& setup.phase == Phase::Truncating || past_check(setup.phase) ==> setup.created
}

/// What a handle that came out of the creation started from `builder` is
/// like.
pub open spec fn created_as_configured(
    shm: SharedMemory,
    builder: SharedMemoryCreationBuilder,
) -> bool {
    &&& shm.wf()
    &&& shm.name == builder.name
    &&& shm.size == builder.size
    &&& builder.enforce_base_address matches Some(address) ==> address == shm.base_address as u64
    &&& shm.has_ownership ==> builder.has_ownership
    &&& builder.creation_mode != CreationMode::OpenOrCreate ==> shm.has_ownership
        == builder.has_ownership
    &&& shm.memory_locked ==> builder.is_memory_locked
}

proof fn lemma_creation_step(
    setup: SegmentSetup,
    builder: SharedMemoryCreationBuilder,
    support: PlatformSupport,
    reply: OsReply,
)
    requires
        creation_invariant(setup, builder, support),
    ensures
        match setup.next(reply) {
            SetupStep::Perform(next) => creation_invariant(next, builder, support) && (past_check(
                next.phase,
            ) && !past_check(setup.phase) ==> reply == (OsReply::Size {
                size: builder.size as u64,
            })),
            SetupStep::Ready(shm) => created_as_configured(shm, builder) && (past_check(
                setup.phase,
            ) || reply == (OsReply::Size { size: builder.size as u64 })),
            SetupStep::Failed { .. } => true,
        },
{
}

proof fn lemma_creation_run(
    setup: SegmentSetup,
    builder: SharedMemoryCreationBuilder,
    support: PlatformSupport,
    replies: Seq<OsReply>,
)
    requires
        creation_invariant(setup, builder, support),
    ensures
        run(setup, replies) matches SetupStep::Ready(shm) ==> created_as_configured(shm, builder)
            && (past_check(setup.phase) || reported_size(replies, builder.size as u64)),
    decreases replies.len(),
{
    if replies.len() > 0 {
        lemma_creation_step(setup, builder, support, replies[0]);
        match setup.next(replies[0]) {
            SetupStep::Perform(next) => {
                let rest = replies.drop_first();
                lemma_creation_run(next, builder, support, rest);
                if run(next, rest) is Ready && !past_check(setup.phase) {
                    if past_check(next.phase) {
                        assert(replies[0] == (OsReply::Size { size: builder.size as u64 }));
                    } else {
                        let i = choose|i: int|
                            0 <= i < rest.len() && #[trigger] rest[i] == (OsReply::Size {
                                size: builder.size as u64,
                            });
                        assert(replies[i + 1] == rest[i]);
                    }
                }
            },
            SetupStep::Ready(shm) => {
                if !past_check(setup.phase) {
                    assert(replies[0] == (OsReply::Size { size: builder.size as u64 }));
                }
            },
            SetupStep::Failed { .. } => {},
        }
    }
}

/// A creation that ends in a handle ends in the handle that was asked for:
/// of the configured name and size, mapped where an address was enforced,
/// and no owner unless it was to be one. The system reported that very size
/// before the handle was handed out.
pub proof fn lemma_created_segment_is_as_configured(
    builder: SharedMemoryCreationBuilder,
    support: PlatformSupport,
    replies: Seq<OsReply>,
)
    ensures
        run(builder.creating(support), replies) matches SetupStep::Ready(shm)
            ==> created_as_configured(shm, builder) && reported_size(
            replies,
            builder.size as u64,
        ),
{
    lemma_creation_run(builder.creating(support), builder, support, replies);
}

/// Among `replies` is `reply`.
pub open spec fn answered(replies: Seq<OsReply>, reply: OsReply) -> bool {
    exists|i: int| 0 <= i < replies.len() && #[trigger] replies[i] == reply
}

proof fn lemma_answered_later(replies: Seq<OsReply>, reply: OsReply)
    requires
        replies.len() > 0,
        answered(replies.drop_first(), reply),
    ensures
        answered(replies, reply),
{
    let rest = replies.drop_first();
    let i = choose|i: int| 0 <= i < rest.len() && #[trigger] rest[i] == reply;
    assert(replies[i + 1] == rest[i]);
}

/// The creation is the one to make the segment: it is about to, or it has.
spec fn makes_the_segment(setup: SegmentSetup) -> bool {
    (setup.created && past_open(setup.phase)) || setup.phase == Phase::Purging || setup.phase
        == Phase::Creating
}

proof fn lemma_new_segment_run(
    setup: SegmentSetup,
    builder: SharedMemoryCreationBuilder,
    support: PlatformSupport,
    replies: Seq<OsReply>,
)
    requires
        creation_invariant(setup, builder, support),
        makes_the_segment(setup),
    ensures
        run(setup, replies) matches SetupStep::Ready(shm) ==> {
            &&& shm.has_ownership == builder.has_ownership
            &&& shm.memory_locked == builder.is_memory_locked
            &&& setup.phase == Phase::Verifying || past_check(setup.phase) || answered(
                replies,
                OsReply::Truncated,
            )
            &&& builder.is_memory_locked ==> setup.memory_locked || answered(
                replies,
                OsReply::Locked,
            )
            &&& builder.zero_memory ==> answered(replies, OsReply::Zeroed)
        },
    decreases replies.len(),
{
    if replies.len() > 0 {
        lemma_creation_step(setup, builder, support, replies[0]);
        match setup.next(replies[0]) {
            SetupStep::Perform(next) => {
                let rest = replies.drop_first();
                lemma_new_segment_run(next, builder, support, rest);
                if run(next, rest) is Ready {
                    if answered(rest, OsReply::Truncated) {
                        lemma_answered_later(replies, OsReply::Truncated);
                    }
                    if answered(rest, OsReply::Locked) {
                        lemma_answered_later(replies, OsReply::Locked);
                    }
                    if answered(rest, OsReply::Zeroed) {
                        lemma_answered_later(replies, OsReply::Zeroed);
                    }
                    if setup.phase == Phase::Truncating && next.phase == Phase::Verifying {
                        assert(replies[0] == OsReply::Truncated);
                    }
                    if setup.phase == Phase::Locking && next.memory_locked {
                        assert(replies[0] == OsReply::Locked);
                    }
                }
            },
            SetupStep::Ready(shm) => {
                if setup.phase == Phase::Zeroing {
                    assert(replies[0] == OsReply::Zeroed);
                }
                if setup.phase == Phase::Locking {
                    assert(replies[0] == OsReply::Locked);
                }
            },
            SetupStep::Failed { .. } => {},
        }
    }
}

/// A creation that makes the segment, and ends in a handle, has given the
/// segment its size, has locked its memory where that was asked for, and
/// has zeroed it where that was asked for; the handle owns the segment as
/// it was asked to. The creation makes the segment in every mode but the
/// one that opens a segment it finds, and in that mode where it finds none.
pub proof fn lemma_new_segment_is_prepared(
    builder: SharedMemoryCreationBuilder,
    support: PlatformSupport,
    replies: Seq<OsReply>,
)
    requires
        builder.creation_mode == CreationMode::OpenOrCreate ==> replies.len() > 0 && (
        replies[0] matches OsReply::OpenFailed { errno } && errno.kind == ErrnoKind::ENOENT),
    ensures
        run(builder.creating(support), replies) matches SetupStep::Ready(shm) ==> {
            &&& shm.has_ownership == builder.has_ownership
            &&& shm.memory_locked == builder.is_memory_locked
            &&& answered(replies, OsReply::Truncated)
            &&& builder.is_memory_locked ==> answered(replies, OsReply::Locked)
            &&& builder.zero_memory ==> answered(replies, OsReply::Zeroed)
        },
{
    let start = builder.creating(support);
    if builder.creation_mode == CreationMode::OpenOrCreate {
        lemma_creation_step(start, builder, support, replies[0]);
        let next = start.next(replies[0])->Perform_0;
        let rest = replies.drop_first();
        lemma_new_segment_run(next, builder, support, rest);
        if run(next, rest) is Ready {
            lemma_answered_later(replies, OsReply::Truncated);
            if builder.is_memory_locked {
                lemma_answered_later(replies, OsReply::Locked);
            }
            if builder.zero_memory {
                lemma_answered_later(replies, OsReply::Zeroed);
            }
        }
    } else {
        lemma_new_segment_run(start, builder, support, replies);
    }
}

/// A creation that finds the segment in place opens it and does not own it,
/// whatever was asked for: who did not create a segment must not remove it.
pub proof fn lemma_opened_segment_is_not_owned(
    builder: SharedMemoryCreationBuilder,
    support: PlatformSupport,
    replies: Seq<OsReply>,
)
    requires
        builder.creation_mode == CreationMode::OpenOrCreate,
        replies.len() > 0,
        replies[0] matches OsReply::Opened { file_descriptor } && file_descriptor >= 0,
    ensures
        run(builder.creating(support), replies) matches SetupStep::Ready(shm)
            ==> !shm.has_ownership,
{
    let start = builder.creating(support);
    match start.next(replies[0]) {
        SetupStep::Perform(next) => {
            lemma_opened_run(next, replies.drop_first());
        },
        _ => {},
    }
}

spec fn opened_invariant(setup: SegmentSetup) -> bool {
    !setup.has_ownership && !setup.created && setup.phase != Phase::Purging && setup.phase
        != Phase::Probing && setup.phase != Phase::Creating
}

proof fn lemma_opened_run(setup: SegmentSetup, replies: Seq<OsReply>)
    requires
        opened_invariant(setup),
    ensures
        run(setup, replies) matches SetupStep::Ready(shm) ==> !shm.has_ownership,
    decreases replies.len(),
{
    if replies.len() > 0 {
        match setup.next(replies[0]) {
            SetupStep::Perform(next) => {
                lemma_opened_run(next, replies.drop_first());
            },
            _ => {},
        }
    }
}

spec fn opening_invariant(setup: SegmentSetup, builder: SharedMemoryBuilder) -> bool {
    &&& setup.name == builder.name
    &&& setup.enforce_base_address == builder.enforce_base_address
    &&& !setup.creating && !setup.created && !setup.has_ownership && !setup.memory_locked
    &&& setup.phase == Phase::Opening || setup.phase == Phase::Sizing || setup.phase
        == Phase::Mapping
    &&& setup.phase != Phase::Opening ==> setup.file_descriptor >= 0
}

/// Among `replies` is a size that, as a length in memory, is `size`.
pub open spec fn reported_length(replies: Seq<OsReply>, size: usize) -> bool {
    exists|i: int|
        0 <= i < replies.len() && (#[trigger] replies[i] matches OsReply::Size { size: reported }
            && reported as usize == size)
}

/// What a handle to a segment that `builder` opened is like.
pub open spec fn opened_as_asked(shm: SharedMemory, builder: SharedMemoryBuilder) -> bool {
    &&& shm.wf()
    &&& shm.name == builder.name
    &&& builder.enforce_base_address matches Some(address) ==> address == shm.base_address as u64
    &&& !shm.has_ownership
    &&& !shm.memory_locked
}

proof fn lemma_opening_run(setup: SegmentSetup, builder: SharedMemoryBuilder, replies: Seq<OsReply>)
    requires
        opening_invariant(setup, builder),
    ensures
        run(setup, replies) matches SetupStep::Ready(shm) ==> opened_as_asked(shm, builder) && (
        if setup.phase == Phase::Mapping {
            shm.size == setup.size
        } else {
            reported_length(replies, shm.size)
        }),
    decreases replies.len(),
{
    if replies.len() > 0 {
        match setup.next(replies[0]) {
            SetupStep::Perform(next) => {
                let rest = replies.drop_first();
                lemma_opening_run(next, builder, rest);
                if run(next, rest) is Ready && setup.phase != Phase::Mapping {
                    let shm = run(next, rest)->Ready_0;
                    if next.phase == Phase::Mapping {
                        assert(replies[0] matches OsReply::Size { size: reported } && reported
                            as usize == shm.size);
                    } else {
                        let i = choose|i: int|
                            0 <= i < rest.len() && (#[trigger] rest[i] matches OsReply::Size {
                                size: reported,
                            } && reported as usize == shm.size);
                        assert(replies[i + 1] == rest[i]);
                    }
                }
            },
            _ => {},
        }
    }
}

/// Opening a segment that ends in a handle ends in a handle of the name
/// asked for, as long as the system said the segment is, mapped where an
/// address was enforced, and never the owner of the segment.
pub proof fn lemma_opened_segment_is_as_reported(
    builder: SharedMemoryBuilder,
    access_mode: AccessMode,
    quiet: bool,
    replies: Seq<OsReply>,
)
    ensures
        run(builder.opening(access_mode, quiet), replies) matches SetupStep::Ready(shm)
            ==> opened_as_asked(shm, builder) && reported_length(replies, shm.size),
{
    lemma_opening_run(builder.opening(access_mode, quiet), builder, replies);
}

} // verus!
