//! The structured generation request and its mathematical model.

use vstd::prelude::*;

verus! {

/// A validated generation request: every field is required, and all of them
/// are opaque text as far as this service is concerned (no numeric parsing
/// of `num_people` or `duration` is ever performed).
pub struct SampleResponse {
    pub destination: String,
    pub duration: String,
    pub num_people: String,
    pub activities: Vec<String>,
}

/// Mathematical model of a generation request: each field as a sequence of
/// characters.
pub struct RequestModel {
    pub destination: Seq<char>,
    pub duration: Seq<char>,
    pub num_people: Seq<char>,
    pub activities: Seq<Seq<char>>,
}

impl View for SampleResponse {
    type V = RequestModel;

    open spec fn view(&self) -> RequestModel {
        RequestModel {
            destination: self.destination@,
            duration: self.duration@,
            num_people: self.num_people@,
            activities: self.activities.deep_view(),
        }
    }
}

} // verus!
