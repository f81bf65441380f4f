use vstd::prelude::*;
use crate::pipeline::{concat, event_accepted, lemma_concat_push, transition, Action, Event, PipelineState, Stage};

verus! {

/// `states`, `events` and `actions` form a run of the pipeline: each event is
/// one its state waits for, and each step goes as `transition` says, as the
/// successive calls of `Pipeline::step` do.
pub open spec fn is_run(states: Seq<PipelineState>, events: Seq<Event>, actions: Seq<Action>) -> bool {
    &&& states.len() == events.len() + 1
    &&& actions.len() == events.len()
    &&& forall|k: int| #![trigger events[k]] 0 <= k < events.len() ==> {
        &&& event_accepted(states[k].stage, events[k])
        &&& transition(states[k], events[k], states[k + 1], actions[k])
    }
}

/// A run that starts as `Pipeline::new` starts one with a known language code.
pub open spec fn starts_fresh(states: Seq<PipelineState>) -> bool {
    &&& states.len() > 0
    &&& states[0].wf()
    &&& states[0].stage == Stage::Translating
}

/// No event among the first `n` reports a failure.
pub open spec fn no_failure_before(events: Seq<Event>, n: int) -> bool {
    forall|k: int| 0 <= k < n ==> !(#[trigger] events[k] is Failed)
}

/// The chunks that the events read from the audio stream, in order.
pub open spec fn read_chunks(events: Seq<Event>) -> Seq<Seq<u8>>
    decreases events.len(),
{
    if events.len() == 0 {
        Seq::empty()
    } else {
        let before = read_chunks(events.drop_last());
        match events.last() {
            Event::ChunkRead(Some(b)) => before.push(b@),
            _ => before,
        }
    }
}

/// The chunks read so far by a pipeline in state `s`: those written, and the
/// one waiting to be written.
pub open spec fn read_so_far(s: PipelineState) -> Seq<Seq<u8>> {
    if s.stage == Stage::Writing {
        s.written.push(s.pending)
    } else {
        s.written
    }
}

spec fn streaming_invariant(s: PipelineState, events: Seq<Event>) -> bool {
    &&& s.stage != Stage::Failed
    &&& read_chunks(events) == read_so_far(s)
    &&& (s.file is Some ==> s.file == Some(concat(s.written)))
    &&& (s.file is None ==> s.written.len() == 0)
    &&& (s.stage == Stage::Reading || s.stage == Stage::Writing || s.stage == Stage::Flushing ==> s.file is Some)
    &&& (s.stage == Stage::Translating || s.stage == Stage::Reporting || s.stage == Stage::SelectingVoice
        || s.stage == Stage::Synthesizing || s.stage == Stage::CreatingFile ==> s.file is None)
}

proof fn lemma_streaming_invariant(states: Seq<PipelineState>, events: Seq<Event>, actions: Seq<Action>, k: int)
    requires
        is_run(states, events, actions),
        starts_fresh(states),
        0 <= k <= events.len(),
        no_failure_before(events, k),
    ensures
        streaming_invariant(states[k], events.take(k)),
    decreases k,
{
    if k == 0 {
        assert(events.take(0) =~= Seq::<Event>::empty());
        assert(states[0].written =~= Seq::<Seq<u8>>::empty());
    } else {
        lemma_streaming_invariant(states, events, actions, k - 1);
        let s = states[k - 1];
        let t = states[k];
        let e = events[k - 1];
        assert(event_accepted(s.stage, e));
        assert(transition(s, e, t, actions[k - 1]));
        assert(!(e is Failed));
        assert(events.take(k).drop_last() =~= events.take(k - 1));
        assert(events.take(k).last() == e);
        if s.file is None {
            assert(s.written =~= Seq::<Seq<u8>>::empty());
        }
        let ev = events.take(k);
        match e {
            Event::ChunkWritten => {
                lemma_concat_push(s.written, s.pending);
                assert(read_chunks(ev) == read_chunks(events.take(k - 1)));
            },
            Event::ChunkRead(Some(b)) => {
                assert(read_chunks(ev) == read_chunks(events.take(k - 1)).push(b@));
            },
            Event::FileCreated => {
                assert(read_chunks(ev) == read_chunks(events.take(k - 1)));
                assert(t.written =~= s.written);
            },
            _ => {
                assert(read_chunks(ev) == read_chunks(events.take(k - 1)));
            },
        }
    }
}

/// A run that ends with the file flushed, without a failure, leaves the
/// pipeline done with a file that holds every chunk read from the audio
/// stream, in the order read, and nothing else.
pub proof fn lemma_completed_run_writes_every_chunk(states: Seq<PipelineState>, events: Seq<Event>, actions: Seq<Action>)
    requires
        is_run(states, events, actions),
        starts_fresh(states),
        events.len() > 0,
        no_failure_before(events, events.len() as int),
        events.last() is Flushed,
    ensures
        states.last().stage == Stage::Done,
        states.last().file == Some(concat(read_chunks(events))),
        actions.last() matches Action::Finish(Ok(_)),
{
    let n = events.len() as int;
    lemma_streaming_invariant(states, events, actions, n - 1);
    assert(event_accepted(states[n - 1].stage, events[n - 1]));
    assert(transition(states[n - 1], events[n - 1], states[n], actions[n - 1]));
    assert(events.drop_last() =~= events.take(n - 1));
}

/// When reading or writing the audio stream fails, the pipeline fails with
/// that error, and the file holds exactly the chunks written before the
/// failure: every chunk read on a read failure, all but the last one read on
/// a write failure.
pub proof fn lemma_failed_stream_keeps_written_chunks(states: Seq<PipelineState>, events: Seq<Event>, actions: Seq<Action>)
    requires
        is_run(states, events, actions),
        starts_fresh(states),
        events.len() > 0,
        no_failure_before(events, events.len() - 1),
        events.last() is Failed,
        states[events.len() - 1].stage == Stage::Reading || states[events.len() - 1].stage == Stage::Writing,
    ensures
        states.last().stage == Stage::Failed,
        events.last() matches Event::Failed(err) && actions.last() == Action::Finish(Err(err)),
        states[events.len() - 1].stage == Stage::Reading ==> states.last().file == Some(concat(read_chunks(events))),
        states[events.len() - 1].stage == Stage::Writing ==> states.last().file == Some(concat(read_chunks(events).drop_last())),
{
    let n = events.len() as int;
    lemma_streaming_invariant(states, events, actions, n - 1);
    assert(event_accepted(states[n - 1].stage, events[n - 1]));
    assert(transition(states[n - 1], events[n - 1], states[n], actions[n - 1]));
    assert(events.drop_last() =~= events.take(n - 1));
    if states[n - 1].stage == Stage::Writing {
        let s = states[n - 1];
        assert(s.written.push(s.pending).drop_last() =~= s.written);
    }
}

/// Once the translation service has answered: with no text the pipeline is
/// done with success and no file; with a text it shows that text, then asks
/// for the voice catalog of the requested language and engine.
pub proof fn lemma_translation_outcome(s: PipelineState, answer: Option<String>, s1: PipelineState, r1: Action, s2: PipelineState, r2: Action)
    requires
        s.wf(),
        s.stage == Stage::Translating,
        transition(s, Event::Translated(answer), s1, r1),
        answer is Some ==> transition(s1, Event::Reported, s2, r2),
    ensures
        answer is None ==> s1.stage == Stage::Done && s1.file is None && r1 matches Action::Finish(Ok(_)),
        answer matches Some(x) ==> {
            &&& r1 matches Action::Report(shown) && shown@ == x@
            &&& s2.stage == Stage::SelectingVoice
            &&& s2.file is None
            &&& s2.translation == x@
            &&& r2 matches Action::DescribeVoices { language_code, engine }
            &&& language_code@ == s.language_code
            &&& engine == s.engine
        },
{
}

} // verus!
