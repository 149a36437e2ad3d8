//! Prompt Builder: maps a validated request to the inference prompt.

use vstd::prelude::*;
use crate::request::{RequestModel, SampleResponse};

verus! {

/// A list of texts joined by `", "`.
pub open spec fn comma_join(items: Seq<Seq<char>>) -> Seq<char>
    decreases items.len(),
{
    if items.len() == 0 {
        Seq::empty()
    } else if items.len() == 1 {
        items[0]
    } else {
        items[0] + ", "@ + comma_join(items.drop_first())
    }
}

/// The fixed prompt template with the request fields interpolated verbatim:
/// no escaping, truncation or filtering of caller-supplied text.
pub open spec fn prompt_of(r: RequestModel) -> Seq<char> {
    "Create a summer vacation detailed itinerary trip to go to "@ + r.destination + " for a "@
        + r.duration + ". "@ + r.num_people + " people will be going on this trip planning to do "@
        + comma_join(r.activities)
}

proof fn lemma_comma_join_push(items: Seq<Seq<char>>, x: Seq<char>)
    ensures
        comma_join(items.push(x)) == if items.len() == 0 {
            x
        } else {
            comma_join(items) + ", "@ + x
        },
    decreases items.len(),
{
    let p = items.push(x);
    if items.len() == 0 {
        assert(p.len() == 1);
        assert(p[0] == x);
    } else if items.len() == 1 {
        assert(p.drop_first() =~= seq![x]);
        assert(comma_join(p.drop_first()) == x);
        assert(p[0] == items[0]);
        assert(comma_join(p) == p[0] + ", "@ + comma_join(p.drop_first()));
    } else {
        lemma_comma_join_push(items.drop_first(), x);
        assert(p.drop_first() =~= items.drop_first().push(x));
        assert(p[0] == items[0]);
        assert(items[0] + ", "@ + (comma_join(items.drop_first()) + ", "@ + x) =~= (items[0] + ", "@
            + comma_join(items.drop_first())) + ", "@ + x);
    }
}

/// Join the activity list with `", "`.
fn join_activities(items: &Vec<String>) -> (r: String)
    ensures
        r@ == comma_join(items.deep_view()),
{
    let ghost model = items.deep_view();
    let mut out = String::new();
    let mut i: usize = 0;
    while i < items.len()
        invariant
            i <= items.len(),
            model == items.deep_view(),
            model.len() == items@.len(),
            out@ == comma_join(model.take(i as int)),
        decreases items.len() - i,
    {
        if i > 0 {
            out.append(", ");
        }
        out.append(items[i].as_str());
        proof {
            lemma_comma_join_push(model.take(i as int), model[i as int]);
            assert(model.take(i as int + 1) =~= model.take(i as int).push(model[i as int]));
            assert(model[i as int] == items@[i as int]@);
        }
        i = i + 1;
    }
    proof {
        assert(model.take(items@.len() as int) =~= model);
    }
    out
}

/// Build the single natural-language prompt handed to the inference
/// service.
pub fn build_prompt(req: &SampleResponse) -> (r: String)
    ensures
        r@ == prompt_of(req@),
{
    let mut out = String::from_str("Create a summer vacation detailed itinerary trip to go to ");
    out.append(req.destination.as_str());
    out.append(" for a ");
    out.append(req.duration.as_str());
    out.append(". ");
    out.append(req.num_people.as_str());
    out.append(" people will be going on this trip planning to do ");
    let joined = join_activities(&req.activities);
    out.append(joined.as_str());
    proof {
        assert(out@ =~= prompt_of(req@));
    }
    out
}

/// The Prompt Builder is deterministic: requests with the same field values
/// always yield the identical prompt string.
pub proof fn lemma_prompt_deterministic(a: SampleResponse, b: SampleResponse)
    requires
        a@ == b@,
    ensures
        prompt_of(a@) == prompt_of(b@),
{
}

} // verus!
