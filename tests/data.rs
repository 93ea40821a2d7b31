use base64::Engine;
use tokextract::exercise::{answer_text, ExerciseError, XxteaEncrypted, XXTEA_KEY};
use tokextract::ids::merge_ids;
use tokextract::library::{Exercise, ExerciseGroup, ExerciseRaw, ExerciseRawError, Library, TestGroup};
use tokextract::tracker::{self, Tracker};

fn raw(id: &str, started: u32) -> ExerciseRaw {
    ExerciseRaw {
        title: "Reading 1".to_string(),
        action_type: "exercise".to_string(),
        id: id.to_string(),
        started,
        completed: true,
        score: Some(7),
        questions: 13,
        time: 20,
        ty: "Exercise".to_string(),
        image: "img.png".to_string(),
        context_id: 3,
        context_name: "ctx".to_string(),
        area: "reading".to_string(),
        viewed: false,
    }
}

#[test]
fn raw_exercise_converts() {
    let e = Exercise::try_from(raw("1234", 1)).unwrap();
    assert_eq!(e.id, 1234);
    assert!(e.started);
    assert_eq!(e.title, "Reading 1");
    assert_eq!(e.score, Some(7));
    assert_eq!(e.questions, 13);
    assert_eq!(e.time, 20);
    assert_eq!(e.image, "img.png");
    assert!(e.completed);
    assert!(!e.viewed);
    assert!(!Exercise::try_from(raw("+5", 0)).unwrap().started);
    assert_eq!(Exercise::try_from(raw("+5", 0)).unwrap().id, 5);
}

#[test]
fn raw_exercise_errors() {
    assert!(matches!(Exercise::try_from(raw("12a", 0)), Err(ExerciseRawError::ParseIntError(_))));
    assert!(matches!(Exercise::try_from(raw("", 0)), Err(ExerciseRawError::ParseIntError(_))));
    assert!(matches!(Exercise::try_from(raw("4294967296", 0)), Err(ExerciseRawError::ParseIntError(_))));
    assert!(matches!(Exercise::try_from(raw("-1", 0)), Err(ExerciseRawError::ParseIntError(_))));
    assert!(matches!(Exercise::try_from(raw("9", 2)), Err(ExerciseRawError::Started(2))));
    assert!(matches!(Exercise::try_from(raw("x", 2)), Err(ExerciseRawError::ParseIntError(_))));
}

#[test]
fn exercise_round_trips_through_raw() {
    let e = Exercise::try_from(raw("4294967295", 1)).unwrap();
    let r = ExerciseRaw::from(e.clone());
    assert_eq!(r.id, "4294967295");
    assert_eq!(r.started, 1);
    assert_eq!(r.action_type, "exercise");
    assert_eq!(r.ty, "Exercise");
    assert_eq!(r.context_id, 0);
    assert!(r.context_name.is_empty() && r.area.is_empty());
    let back = Exercise::try_from(r).unwrap();
    assert_eq!(back.id, e.id);
    assert_eq!(back.started, e.started);
    assert_eq!(back.title, e.title);
    assert_eq!(ExerciseRaw::from(Exercise::try_from(raw("0", 0)).unwrap()).id, "0");
}

fn group(ids: &[&str]) -> ExerciseGroup {
    ExerciseGroup {
        name: "g".to_string(),
        completed: 0,
        available: ids.len() as u32,
        exercises: ids.iter().map(|i| raw(i, 0)).collect(),
    }
}

#[test]
fn library_ids_in_listing_order() {
    let lib = Library {
        groups: vec![
            TestGroup { id: 1, completed: 0, available: 2, exercise_groups: vec![group(&["3", "1"]), group(&[])] },
            TestGroup { id: 2, completed: 0, available: 1, exercise_groups: vec![group(&["2"])] },
            TestGroup { id: 3, completed: 0, available: 0, exercise_groups: vec![] },
        ],
    };
    assert_eq!(lib.exercise_ids().unwrap(), vec![3, 1, 2]);
    let bad = Library {
        groups: vec![TestGroup { id: 1, completed: 0, available: 1, exercise_groups: vec![group(&["7", "x"])] }],
    };
    assert!(matches!(bad.exercise_ids(), Err(ExerciseRawError::ParseIntError(_))));
    assert!(Library { groups: vec![] }.exercise_ids().unwrap().is_empty());
}

#[test]
fn tracker_keeps_reading_exercises() {
    let t = Tracker {
        history: vec![
            tracker::Exercise::IeltsExercise { id: 5, paper: "Academic Reading".to_string() },
            tracker::Exercise::IeltsExercise { id: 6, paper: "Academic Writing".to_string() },
            tracker::Exercise::IeltsPlaylist { id: 7 },
            tracker::Exercise::Speaking { id: "s1".to_string() },
            tracker::Exercise::IeltsExercise { id: 2, paper: "Academic Reading".to_string() },
        ],
    };
    assert_eq!(t.reading_ids(), vec![5, 2]);
}

#[test]
fn merged_ids_are_sorted_and_add_new_tracker_ids_once() {
    assert_eq!(merge_ids(vec![5, 1, 3], vec![3, 9, 2, 9]), vec![1, 2, 3, 5, 9]);
    assert_eq!(merge_ids(vec![4, 4], vec![4]), vec![4, 4]);
    assert!(merge_ids(vec![], vec![]).is_empty());
    assert_eq!(merge_ids(vec![], vec![8, 8, 1]), vec![1, 8]);
}

fn cipher(plain: &[u8]) -> String {
    let enc = xxtea::encrypt_raw(&plain.to_vec(), XXTEA_KEY);
    base64::engine::general_purpose::STANDARD.encode(enc)
}

#[test]
fn answers_are_revealed() {
    let x = XxteaEncrypted::try_from(cipher(b"hello wo")).unwrap();
    assert_eq!(x.0, "hello wo");
    // padding zeros are dropped with the other unprintable bytes
    let x = XxteaEncrypted::try_from(cipher(b"a-b ?")).unwrap();
    assert_eq!(x.0, "a-b ?");
    assert_eq!(XxteaEncrypted::try_from(String::new()).unwrap().0, "");
}

#[test]
fn bad_base64_is_an_error() {
    assert!(matches!(XxteaEncrypted::try_from("not base64!".to_string()), Err(ExerciseError::Base64(_))));
}

#[test]
fn answer_text_keeps_printable_ascii() {
    assert_eq!(answer_text(vec![b'a', 0, b'!', 200, b' ', 127, b'~', b'\n', b'Z']), "a! ~Z");
    assert_eq!(answer_text(vec![]), "");
}
