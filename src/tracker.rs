//! The records of the activity tracker, and the reading exercises it lists.

use vstd::prelude::*;

verus! {

/// The activity history.
#[derive(Debug, Clone)]
pub struct Tracker {
    pub history: Vec<Exercise>,
}

/// One entry of the history, by kind of activity.
#[allow(inconsistent_fields)]
#[derive(Debug, Clone)]
pub enum Exercise {
    IeltsExercise { id: u32, paper: String },
    IeltsPlaylist { id: u32 },
    Speaking { id: String },
}

/// The paper whose exercises are collected.
pub const READING_PAPER: &'static str = "Academic Reading";

/// The ids of the exercises of the reading paper, in history order.
pub open spec fn reading_ids(h: Seq<Exercise>) -> Seq<u32>
    decreases h.len(),
{
    if h.len() == 0 {
        Seq::empty()
    } else {
        let rest = reading_ids(h.drop_last());
        match h.last() {
            Exercise::IeltsExercise { id, paper } => if paper@ == READING_PAPER@ {
                rest.push(id)
            } else {
                rest
            },
            _ => rest,
        }
    }
}

impl Tracker {
    /// The ids of the history's exercises of the reading paper, in order.
    pub fn reading_ids(&self) -> (r: Vec<u32>)
        ensures
            r@ == reading_ids(self.history@),
    {
        let reading = String::from_str(READING_PAPER);
        let mut out: Vec<u32> = Vec::new();
        let mut i: usize = 0;
        while i < self.history.len()
            invariant
                i <= self.history@.len(),
                reading@ == READING_PAPER@,
                out@ == reading_ids(self.history@.take(i as int)),
            decreases self.history@.len() - i,
        {
            assert(self.history@.take(i as int + 1).drop_last() =~= self.history@.take(i as int));
            match &self.history[i] {
                Exercise::IeltsExercise { id, paper } => {
                    if *paper == reading {
                        out.push(*id);
                    }
                },
                _ => {},
            }
            i = i + 1;
        }
        assert(self.history@.take(i as int) =~= self.history@);
        out
    }
}

} // verus!
