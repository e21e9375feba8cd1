//! The word-level helpers and the application-shell data types.

use gpu_hand_in::labels::HotNotDogsData;
use gpu_hand_in::labels::TrueLabel;
use gpu_hand_in::utility::words_equal;
use gpu_hand_in::utility::zero_words;

#[test]
fn zero_words_builds_all_zero_vectors() {
    assert_eq!(zero_words(0), Vec::<u32>::new());
    assert_eq!(zero_words(5), vec![0u32; 5]);
}

#[test]
fn words_equal_compares_element_for_element() {
    let a: Vec<u32> = vec![1, 2, 3];
    let b: Vec<u32> = vec![1, 2, 3];
    let c: Vec<u32> = vec![1, 2, 4];
    let d: Vec<u32> = vec![1, 2];
    assert!(words_equal(&a, &b));
    assert!(!words_equal(&a, &c));
    assert!(!words_equal(&a, &d));
    let empty: Vec<u32> = Vec::new();
    assert!(words_equal(&empty, &Vec::new()));
}

#[test]
fn true_label_defaults_to_not_hot_dog() {
    assert_eq!(TrueLabel::default(), TrueLabel::NotHotDog);
}

#[test]
fn true_label_text_names_the_variant() {
    assert_eq!(TrueLabel::NotHotDog.text(), "NotHotDog");
    assert_eq!(TrueLabel::HotDog.text(), "HotDog");
}

#[test]
fn labeled_record_keeps_its_fields() {
    let record = HotNotDogsData { image_path: String::from("train/hot_dog/1.jpg"), label: true };
    assert_eq!(record.image_path, "train/hot_dog/1.jpg");
    assert!(record.label);
}
