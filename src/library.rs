//! The records of the practice-test library listing, and the exercise ids it holds.

use vstd::prelude::*;
use crate::decimal::{lemma_decimal_round_trip, parse_u32, parsed_u32, u32_text, decimal_text};

verus! {

/// The practice-test library: its test groups.
#[derive(Debug, Clone)]
pub struct Library {
    pub groups: Vec<TestGroup>,
}

/// A group of tests, with its progress counters.
#[derive(Debug, Clone)]
pub struct TestGroup {
    pub id: u32,
    pub completed: u32,
    pub available: u32,
    pub exercise_groups: Vec<ExerciseGroup>,
}

/// A named group of exercises, with its progress counters.
#[derive(Debug, Clone)]
pub struct ExerciseGroup {
    pub name: String,
    pub completed: u32,
    pub available: u32,
    pub exercises: Vec<ExerciseRaw>,
}

/// An exercise of the library, with typed fields.
#[derive(Debug, Clone)]
pub struct Exercise {
    pub title: String,
    pub id: u32,
    pub started: bool,
    pub completed: bool,
    pub score: Option<u32>,
    pub questions: u32,
    pub time: u32,
    pub image: String,
    pub viewed: bool,
}

/// An exercise as the listing writes it: the id as decimal text, `started` as 0 or 1.
#[derive(Debug, Clone)]
pub struct ExerciseRaw {
    pub title: String,
    pub action_type: String,
    pub id: String,
    pub started: u32,
    pub completed: bool,
    pub score: Option<u32>,
    pub questions: u32,
    pub time: u32,
    pub ty: String,
    pub image: String,
    pub context_id: u32,
    pub context_name: String,
    pub area: String,
    pub viewed: bool,
}

/// Why an [`ExerciseRaw`] is not a valid [`Exercise`].
#[derive(Debug)]
pub enum ExerciseRawError {
    /// The id is not the decimal text of a `u32`.
    ParseIntError(std::num::ParseIntError),
    /// `started` is neither 0 nor 1.
    Started(u32),
}

impl Exercise {
    /// Reads an exercise of the listing: the id must be decimal text, and
    /// `started` 0 or 1. The id is checked first.
    pub fn try_from(value: ExerciseRaw) -> (r: Result<Exercise, ExerciseRawError>)
        ensures
            parsed_u32(value.id@) is None <==> r matches Err(ExerciseRawError::ParseIntError(_)),
            parsed_u32(value.id@) is Some && value.started > 1 <==> r == Err::<
                Exercise,
                ExerciseRawError,
            >(ExerciseRawError::Started(value.started)),
            r matches Ok(e) ==> {
                &&& Some(e.id) == parsed_u32(value.id@)
                &&& e.started == (value.started == 1)
                &&& e.title == value.title
                &&& e.completed == value.completed
                &&& e.score == value.score
                &&& e.questions == value.questions
                &&& e.time == value.time
                &&& e.image == value.image
                &&& e.viewed == value.viewed
            },
    {
        let id = match parse_u32(value.id.as_str()) {
            Ok(id) => id,
            Err(e) => return Err(ExerciseRawError::ParseIntError(e)),
        };
        let started = match value.started {
            0 => false,
            1 => true,
            other => return Err(ExerciseRawError::Started(other)),
        };
        Ok(Exercise {
            title: value.title,
            id,
            started,
            completed: value.completed,
            score: value.score,
            questions: value.questions,
            time: value.time,
            image: value.image,
            viewed: value.viewed,
        })
    }
}

impl ExerciseRaw {
    /// Writes an exercise in the listing's form; the fields that [`Exercise`]
    /// does not keep get fixed values. Reading the result back with
    /// [`Exercise::try_from`] gives the exercise again.
    pub fn from(value: Exercise) -> (r: ExerciseRaw)
        ensures
            r.id@ == decimal_text(value.id as nat),
            parsed_u32(r.id@) == Some(value.id),
            r.started == (if value.started { 1u32 } else { 0u32 }),
            r.title == value.title,
            r.action_type@ == "exercise"@,
            r.completed == value.completed,
            r.score == value.score,
            r.questions == value.questions,
            r.time == value.time,
            r.ty@ == "Exercise"@,
            r.image == value.image,
            r.context_id == 0,
            r.context_name@.len() == 0,
            r.area@.len() == 0,
            r.viewed == value.viewed,
    {
        proof {
            lemma_decimal_round_trip(value.id);
        }
        ExerciseRaw {
            title: value.title,
            action_type: String::from_str("exercise"),
            id: u32_text(value.id),
            started: if value.started { 1 } else { 0 },
            completed: value.completed,
            score: value.score,
            questions: value.questions,
            time: value.time,
            ty: String::from_str("Exercise"),
            image: value.image,
            context_id: 0,
            context_name: String::new(),
            area: String::new(),
            viewed: value.viewed,
        }
    }
}

/// The ids of these exercises, as written.
pub open spec fn exercise_ids(s: Seq<ExerciseRaw>) -> Seq<Seq<char>> {
    s.map_values(|e: ExerciseRaw| e.id@)
}

/// The ids of the exercises of these groups, group after group.
pub open spec fn group_ids(s: Seq<ExerciseGroup>) -> Seq<Seq<char>>
    decreases s.len(),
{
    if s.len() == 0 {
        Seq::empty()
    } else {
        group_ids(s.drop_last()) + exercise_ids(s.last().exercises@)
    }
}

/// The ids of the exercises of these test groups, test group after test group.
pub open spec fn test_group_ids(s: Seq<TestGroup>) -> Seq<Seq<char>>
    decreases s.len(),
{
    if s.len() == 0 {
        Seq::empty()
    } else {
        test_group_ids(s.drop_last()) + group_ids(s.last().exercise_groups@)
    }
}

/// Whether every id reads as a `u32`.
pub open spec fn all_parse(ids: Seq<Seq<char>>) -> bool {
    forall|j: int| 0 <= j < ids.len() ==> (#[trigger] parsed_u32(ids[j])) is Some
}

/// The numbers that the ids read as.
pub open spec fn parse_all(ids: Seq<Seq<char>>) -> Seq<u32> {
    ids.map_values(|t: Seq<char>| parsed_u32(t)->0)
}

fn push_exercise_ids(out: &mut Vec<u32>, exs: &Vec<ExerciseRaw>) -> (r: Result<(), std::num::ParseIntError>)
    ensures
        r is Ok <==> all_parse(exercise_ids(exs@)),
        r is Ok ==> final(out)@ == old(out)@ + parse_all(exercise_ids(exs@)),
{
    let ghost start = out@;
    let mut i: usize = 0;
    while i < exs.len()
        invariant
            i <= exs@.len(),
            all_parse(exercise_ids(exs@.take(i as int))),
            out@ == start + parse_all(exercise_ids(exs@.take(i as int))),
        decreases exs@.len() - i,
    {
        let ghost prev = exercise_ids(exs@.take(i as int));
        let ghost next = exercise_ids(exs@.take(i as int + 1));
        assert(next =~= prev.push(exs@[i as int].id@));
        match parse_u32(exs[i].id.as_str()) {
            Ok(v) => {
                out.push(v);
                assert(parse_all(next) =~= parse_all(prev).push(v));
            },
            Err(e) => {
                assert(!all_parse(exercise_ids(exs@))) by {
                    assert(exercise_ids(exs@)[i as int] == exs@[i as int].id@);
                }
                return Err(e);
            },
        }
        i = i + 1;
    }
    assert(exs@.take(i as int) =~= exs@);
    Ok(())
}

proof fn lemma_parse_concat(a: Seq<Seq<char>>, b: Seq<Seq<char>>)
    ensures
        all_parse(a + b) <==> all_parse(a) && all_parse(b),
        parse_all(a + b) =~= parse_all(a) + parse_all(b),
{
    if all_parse(a) && all_parse(b) {
        assert forall|j: int| 0 <= j < (a + b).len() implies (#[trigger] parsed_u32((a + b)[j])) is Some by {
            if j >= a.len() {
                assert((a + b)[j] == b[j - a.len()]);
            }
        }
    }
    if all_parse(a + b) {
        assert forall|j: int| 0 <= j < b.len() implies (#[trigger] parsed_u32(b[j])) is Some by {
            assert((a + b)[j + a.len()] == b[j]);
        }
        assert forall|j: int| 0 <= j < a.len() implies (#[trigger] parsed_u32(a[j])) is Some by {
            assert((a + b)[j] == a[j]);
        }
    }
}

fn push_group_ids(out: &mut Vec<u32>, groups: &Vec<ExerciseGroup>) -> (r: Result<(), std::num::ParseIntError>)
    ensures
        r is Ok <==> all_parse(group_ids(groups@)),
        r is Ok ==> final(out)@ == old(out)@ + parse_all(group_ids(groups@)),
{
    let ghost start = out@;
    let mut i: usize = 0;
    while i < groups.len()
        invariant
            i <= groups@.len(),
            all_parse(group_ids(groups@.take(i as int))),
            out@ == start + parse_all(group_ids(groups@.take(i as int))),
        decreases groups@.len() - i,
    {
        let ghost prev = group_ids(groups@.take(i as int));
        let ghost here = exercise_ids(groups@[i as int].exercises@);
        assert(groups@.take(i as int + 1).drop_last() =~= groups@.take(i as int));
        assert(group_ids(groups@.take(i as int + 1)) == prev + here);
        let ghost before = out@;
        let r = push_exercise_ids(out, &groups[i].exercises);
        proof {
            lemma_parse_concat(prev, here);
        }
        if r.is_err() {
            proof {
                lemma_group_ids_prefix(groups@, i as int + 1);
                lemma_parse_concat(prev + here, group_ids(groups@).subrange((prev.len() + here.len()) as int, group_ids(groups@).len() as int));
            }
            return r;
        }
        assert(out@ == start + parse_all(prev + here));
        i = i + 1;
    }
    assert(groups@.take(i as int) =~= groups@);
    Ok(())
}

proof fn lemma_group_ids_prefix(s: Seq<ExerciseGroup>, k: int)
    requires
        0 <= k <= s.len(),
    ensures
        group_ids(s) =~= group_ids(s.take(k)) + group_ids(s).subrange(
            group_ids(s.take(k)).len() as int,
            group_ids(s).len() as int,
        ),
        group_ids(s.take(k)).len() <= group_ids(s).len(),
    decreases s.len() - k,
{
    if k < s.len() {
        lemma_group_ids_prefix(s, k + 1);
        assert(s.take(k + 1).drop_last() =~= s.take(k));
    } else {
        assert(s.take(k) =~= s);
    }
}

proof fn lemma_test_group_ids_prefix(s: Seq<TestGroup>, k: int)
    requires
        0 <= k <= s.len(),
    ensures
        test_group_ids(s) =~= test_group_ids(s.take(k)) + test_group_ids(s).subrange(
            test_group_ids(s.take(k)).len() as int,
            test_group_ids(s).len() as int,
        ),
        test_group_ids(s.take(k)).len() <= test_group_ids(s).len(),
    decreases s.len() - k,
{
    if k < s.len() {
        lemma_test_group_ids_prefix(s, k + 1);
        assert(s.take(k + 1).drop_last() =~= s.take(k));
    } else {
        assert(s.take(k) =~= s);
    }
}

impl Library {
    /// The ids of all exercises of the library, test group after test group and
    /// group after group, read as numbers; an error if one of them is not
    /// decimal text.
    pub fn exercise_ids(&self) -> (r: Result<Vec<u32>, ExerciseRawError>)
        ensures
            r is Ok <==> all_parse(test_group_ids(self.groups@)),
            r matches Ok(v) ==> v@ == parse_all(test_group_ids(self.groups@)),
            r is Err ==> r->Err_0 is ParseIntError,
    {
        let mut out: Vec<u32> = Vec::new();
        let mut i: usize = 0;
        while i < self.groups.len()
            invariant
                i <= self.groups@.len(),
                all_parse(test_group_ids(self.groups@.take(i as int))),
                out@ == parse_all(test_group_ids(self.groups@.take(i as int))),
            decreases self.groups@.len() - i,
        {
            let ghost prev = test_group_ids(self.groups@.take(i as int));
            let ghost here = group_ids(self.groups@[i as int].exercise_groups@);
            assert(self.groups@.take(i as int + 1).drop_last() =~= self.groups@.take(i as int));
            assert(test_group_ids(self.groups@.take(i as int + 1)) == prev + here);
            let r = push_group_ids(&mut out, &self.groups[i].exercise_groups);
            proof {
                lemma_parse_concat(prev, here);
            }
            match r {
                Ok(()) => {},
                Err(e) => {
                    proof {
                        let all = test_group_ids(self.groups@);
                        lemma_test_group_ids_prefix(self.groups@, i as int + 1);
                        lemma_parse_concat(prev + here, all.subrange((prev.len() + here.len()) as int, all.len() as int));
                    }
                    return Err(ExerciseRawError::ParseIntError(e));
                },
            }
            i = i + 1;
        }
        assert(self.groups@.take(i as int) =~= self.groups@);
        Ok(out)
    }
}

} // verus!
