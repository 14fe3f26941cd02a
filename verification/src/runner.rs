//! Running the controller over a whole event sequence.
//!
//! [`run_model`] states what a complete run yields: the records delivered
//! in document order, and the error that ended the run early, if any.
//! [`run`] is the executable driver, proved to return exactly that.

use vstd::prelude::*;

use crate::events::{ErrorModel, Event, EventModel, ParseError};
use crate::machine::{state_init, step, Extractor, Nesting, StateModel, StepModel};
use crate::records::{Rec, RecModel};

verus! {

/// The delivered record of one step as a sequence: one element or none.
pub open spec fn emitted(m: Option<RecModel>) -> Seq<RecModel> {
    match m {
        Some(r) => seq![r],
        None => Seq::empty(),
    }
}

/// What a run from state `s` over `evs` yields: the records delivered in
/// order, and — if the run does not succeed — its error. A run that
/// consumes every event with the controller back at top level succeeds;
/// one that ends elsewhere reports an unterminated record; a failing
/// step ends the run at once, keeping the records already delivered.
pub open spec fn run_model(s: StateModel, evs: Seq<EventModel>) -> (Seq<RecModel>, Option<
    ErrorModel,
>)
    decreases evs.len(),
{
    if evs.len() == 0 {
        if s.nesting is Top {
            (Seq::empty(), None)
        } else {
            (Seq::empty(), Some(ErrorModel::Unterminated))
        }
    } else {
        match step(s, evs[0]) {
            StepModel::Next(s2, emit) => {
                let rest = run_model(s2, evs.drop_first());
                (emitted(emit) + rest.0, rest.1)
            },
            StepModel::Stop(e) => (Seq::empty(), Some(e)),
        }
    }
}

/// The views of a sequence of events.
pub open spec fn event_views(evs: Seq<Event>) -> Seq<EventModel> {
    evs.map_values(|e: Event| e@)
}

/// The views of a sequence of records.
pub open spec fn rec_views(rs: Seq<Rec>) -> Seq<RecModel> {
    rs.map_values(|r: Rec| r@)
}

/// Consume the whole event sequence from a fresh controller. Returns the
/// records delivered in document order, or the first error: a source
/// fault, a field that does not decode, or a record left open at the end
/// of the sequence.
pub fn run(events: &Vec<Event>) -> (r: Result<Vec<Rec>, ParseError>)
    ensures
        ({
            let m = run_model(state_init(), event_views(events@));
            match r {
                Ok(v) => m.1 is None && rec_views(v@) == m.0,
                Err(e) => m.1 matches Some(em) && e@ == em,
            }
        }),
{
    let mut ex = Extractor::new();
    let mut out: Vec<Rec> = Vec::new();
    let ghost total = run_model(state_init(), event_views(events@));
    proof {
        assert(event_views(events@.skip(0)) =~= event_views(events@));
        assert(rec_views(out@) + total.0 =~= total.0);
    }
    let n = events.len();
    let mut i: usize = 0;
    while i < n
        invariant
            0 <= i <= n == events.len(),
            total == run_model(state_init(), event_views(events@)),
            ({
                let tail = run_model(ex@, event_views(events@.skip(i as int)));
                total.0 == rec_views(out@) + tail.0 && total.1 == tail.1
            }),
        decreases n - i,
    {
        let ghost tail_views = event_views(events@.skip(i as int));
        proof {
            assert(tail_views.len() == n - i);
            assert(tail_views[0] == events@[i as int]@);
            assert(tail_views.drop_first() =~= event_views(events@.skip(i + 1)));
        }
        let ghost pre = ex@;
        match ex.push(&events[i]) {
            Ok(opt) => {
                proof {
                    assert(step(pre, tail_views[0]) matches StepModel::Next(s2, _em));
                }
                match opt {
                    Some(rec) => {
                        out.push(rec);
                        proof {
                            assert(rec_views(out@) =~= rec_views(out@.drop_last()) + seq![
                                rec@,
                            ]);
                            assert(rec_views(out@.drop_last()) + (seq![rec@] + run_model(
                                ex@,
                                event_views(events@.skip(i + 1)),
                            ).0) =~= rec_views(out@) + run_model(
                                ex@,
                                event_views(events@.skip(i + 1)),
                            ).0);
                        }
                    },
                    None => {
                        proof {
                            assert(emitted(None) + run_model(
                                ex@,
                                event_views(events@.skip(i + 1)),
                            ).0 =~= run_model(ex@, event_views(events@.skip(i + 1))).0);
                        }
                    },
                }
            },
            Err(e) => {
                return Err(e);
            },
        }
        i = i + 1;
    }
    proof {
        assert(event_views(events@.skip(n as int)) =~= Seq::<EventModel>::empty());
    }
    match ex.finish() {
        Ok(_) => {
            proof {
                assert(rec_views(out@) + Seq::<RecModel>::empty() =~= rec_views(out@));
            }
            Ok(out)
        },
        Err(e) => Err(e),
    }
}

} // verus!
