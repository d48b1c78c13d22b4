use crate::checksum::blake3_hex;
use crate::envmap::EnvironmentMap;
use crate::extractor::{next, Action, Delivery, Event, Extractor, Phase, State};
use vstd::prelude::*;

verus! {

/// How a delivery ended: where the extractor stands, what the last step said, what lies
/// on disk, and how often the copy was written.
pub struct Outcome {
    pub state: State,
    pub last: Delivery,
    pub copy: Option<Seq<u8>>,
    pub writes: nat,
}

/// Whether a step ends the delivery.
pub open spec fn ends(asked: Delivery) -> bool {
    asked is Ready || asked is Failed || asked is OutOfTurn
}

/// Whether `event` is what a disk that holds `copy` answers, without a failure, to what
/// was asked for.
pub open spec fn answers(copy: Option<Seq<u8>>, asked: Delivery, event: Event) -> bool {
    match asked {
        Delivery::Probe => event == Event::Probed(copy is Some),
        Delivery::Hash => {
            &&& copy is Some
            &&& event matches Event::Hashed(Ok(sum))
            &&& sum@ == blake3_hex(copy->0)
        },
        Delivery::Remove => event matches Event::Removed(Ok(_)),
        Delivery::Write => event matches Event::Written(Ok(_)),
        _ => false,
    }
}

/// What lies on disk after what was asked for is done, where `bin` is the packed program.
pub open spec fn copy_after(copy: Option<Seq<u8>>, bin: Seq<u8>, asked: Delivery) -> Option<
    Seq<u8>,
> {
    match asked {
        Delivery::Remove => None,
        Delivery::Write => Some(bin),
        _ => copy,
    }
}

/// A delivery that nothing interferes with: the extractor is told `event`, and each of
/// its requests is done on the disk and answered by the next of the events in `rest`,
/// until a step ends the delivery. Nothing where the events are not those answers.
pub open spec fn run(
    state: State,
    bin: Seq<u8>,
    checksum: Seq<char>,
    copy: Option<Seq<u8>>,
    event: Event,
    rest: Seq<Event>,
    writes: nat,
) -> Option<Outcome>
    decreases rest.len(),
{
    let (after, asked) = next(state, checksum, event);
    if ends(asked) {
        if rest.len() == 0 {
            Some(Outcome { state: after, last: asked, copy, writes })
        } else {
            None
        }
    } else if rest.len() == 0 || !answers(copy, asked, rest[0]) {
        None
    } else {
        run(
            after,
            bin,
            checksum,
            copy_after(copy, bin, asked),
            rest[0],
            rest.drop_first(),
            if asked is Write {
                writes + 1
            } else {
                writes
            },
        )
    }
}

/// Whether the copy on disk is the packed program, as far as checksums tell.
pub open spec fn verified(copy: Option<Seq<u8>>, checksum: Seq<char>) -> bool {
    copy is Some && blake3_hex(copy->0) == checksum
}

/// A delivery that nothing interferes with leaves the packed program on disk and ends
/// ready. A copy that is verified is left alone. Any other copy, truncated or altered, is
/// found out, flagged and written anew; so is a missing one, without the flag. The copy
/// is never written more than once.
pub proof fn lemma_delivery_repairs(
    state: State,
    bin: Seq<u8>,
    checksum: Seq<char>,
    copy: Option<Seq<u8>>,
    rest: Seq<Event>,
)
    requires
        state.phase == Phase::Idle,
        checksum == blake3_hex(bin),
        run(state, bin, checksum, copy, Event::Start, rest, 0) is Some,
    ensures
        ({
            let end = run(state, bin, checksum, copy, Event::Start, rest, 0)->0;
            &&& end.last is Ready
            &&& end.state.phase == Phase::Idle
            &&& end.copy is Some
            &&& verified(end.copy, checksum)
            &&& verified(copy, checksum) ==> end.copy == copy && end.writes == 0
            &&& !verified(copy, checksum) ==> end.copy == Some(bin) && end.writes == 1
            &&& end.state.invalid_hash == (copy is Some && !verified(copy, checksum))
        }),
{
    reveal_with_fuel(run, 6);
    let probing = State { phase: Phase::Probing, invalid_hash: false };
    assert(next(state, checksum, Event::Start) == (probing, Delivery::Probe));
    assert(rest.len() > 0 && rest[0] == Event::Probed(copy is Some));
    let rest1 = rest.drop_first();
    if copy is Some {
        assert(rest1.len() > 0);
        let rest2 = rest1.drop_first();
        if !verified(copy, checksum) {
            assert(rest2.len() > 0);
            let rest3 = rest2.drop_first();
            assert(rest3.len() > 0);
        }
    } else {
        assert(rest1.len() > 0);
    }
}

/// Of two deliveries in a row that nothing interferes with, the second writes nothing:
/// it verifies the copy that the first one left and leaves it as it is.
pub proof fn lemma_delivery_idempotent(
    state: State,
    bin: Seq<u8>,
    checksum: Seq<char>,
    copy: Option<Seq<u8>>,
    first: Seq<Event>,
    second: Seq<Event>,
)
    requires
        state.phase == Phase::Idle,
        checksum == blake3_hex(bin),
        run(state, bin, checksum, copy, Event::Start, first, 0) is Some,
        ({
            let between = run(state, bin, checksum, copy, Event::Start, first, 0)->0;
            run(between.state, bin, checksum, between.copy, Event::Start, second, 0) is Some
        }),
    ensures
        ({
            let between = run(state, bin, checksum, copy, Event::Start, first, 0)->0;
            let end = run(between.state, bin, checksum, between.copy, Event::Start, second, 0)->0;
            &&& between.writes <= 1
            &&& end.writes == 0
            &&& end.copy == between.copy
            &&& end.last is Ready
            &&& !end.state.invalid_hash
        }),
{
    lemma_delivery_repairs(state, bin, checksum, copy, first);
    let between = run(state, bin, checksum, copy, Event::Start, first, 0)->0;
    lemma_delivery_repairs(between.state, bin, checksum, between.copy, second);
}

/// What the extractor asks for when it is told `events` one after the other.
pub open spec fn asked(state: State, checksum: Seq<char>, events: Seq<Event>) -> Seq<Delivery>
    decreases events.len(),
{
    if events.len() == 0 {
        Seq::empty()
    } else {
        let (after, first) = next(state, checksum, events[0]);
        seq![first] + asked(after, checksum, events.drop_first())
    }
}

/// How often the copy is to be written.
pub open spec fn writes(asked: Seq<Delivery>) -> nat
    decreases asked.len(),
{
    if asked.len() == 0 {
        0
    } else if asked[0] is Write {
        1 + writes(asked.drop_first())
    } else {
        writes(asked.drop_first())
    }
}

/// Whether a delivery that stands at `phase` may still ask for the copy to be written.
pub open spec fn may_write(phase: Phase) -> bool {
    phase == Phase::Probing || phase == Phase::Hashing || phase == Phase::Removing
}

/// Whatever the extractor is told after the start of a delivery, and be it wrong or out
/// of turn: until the next delivery starts, it asks at most once for the copy to be
/// written.
pub proof fn lemma_one_write_at_most(state: State, checksum: Seq<char>, events: Seq<Event>)
    requires
        forall|i: int| 0 <= i < events.len() ==> !(events[i] is Start),
    ensures
        writes(asked(state, checksum, events)) <= 1,
        !may_write(state.phase) ==> writes(asked(state, checksum, events)) == 0,
    decreases events.len(),
{
    if events.len() > 0 {
        let (after, first) = next(state, checksum, events[0]);
        let rest = events.drop_first();
        assert forall|i: int| 0 <= i < rest.len() implies !(rest[i] is Start) by {
            assert(rest[i] == events[i + 1]);
        }
        lemma_one_write_at_most(after, checksum, rest);
        let all = asked(state, checksum, events);
        assert(all[0] == first);
        assert(all.drop_first() =~= asked(after, checksum, rest));
    }
}

/// The copy is run only in answer to the event that showed it to be in order: its
/// checksum, equal to the one of the packed program, or the outcome of writing it.
pub proof fn lemma_run_follows_verification(
    before: Extractor,
    shell: Option<Seq<char>>,
    args: Seq<Seq<char>>,
    event: Event,
    after: Extractor,
    action: Action<EnvironmentMap>,
)
    requires
        Extractor::got(before, shell, args, event, after, action),
        action is Run,
    ensures
        ({
            ||| {
                &&& before.state().phase == Phase::Hashing
                &&& event matches Event::Hashed(Ok(sum))
                &&& sum@ == before.spec_image().checksum@
            }
            ||| {
                &&& before.state().phase == Phase::Writing
                &&& event matches Event::Written(Ok(_))
            }
        }),
        after.state().phase == Phase::Running,
{
}

} // verus!
