//! Plain data types of the image-classification shell that surrounds the
//! compute harness: a labeled image record, and the ground-truth label a
//! user assigns while playing against the classifier.

use vstd::prelude::*;

verus! {

/// One record of the labeled image stream: where the image lives, and
/// whether it is a hot dog.
pub struct HotNotDogsData {
    pub image_path: String,
    pub label: bool,
}

/// The true label of the image on screen.
#[derive(PartialEq, Eq, Structural, Clone, Copy, Debug)]
pub enum TrueLabel {
    NotHotDog,
    HotDog,
}

impl Default for TrueLabel {
    /// A fresh round starts from the negative label.
    fn default() -> (label: Self)
        ensures
            label == TrueLabel::NotHotDog,
    {
        TrueLabel::NotHotDog
    }
}

impl TrueLabel {
    /// The label's display text.
    pub fn text(&self) -> (name: String)
        ensures
            *self == TrueLabel::NotHotDog ==> name@ == "NotHotDog"@,
            *self == TrueLabel::HotDog ==> name@ == "HotDog"@,
    {
        match self {
            TrueLabel::NotHotDog => "NotHotDog".to_string(),
            TrueLabel::HotDog => "HotDog".to_string(),
        }
    }
}

} // verus!
