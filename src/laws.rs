use crate::model::{added_headers, last_method, last_url, BodySlot, BuilderModel, Step};
use vstd::prelude::*;

verus! {

/// Headers come out in the order in which they were added, each one once,
/// duplicate keys included: whatever else happens between the additions.
pub proof fn law_headers_kept_in_order(m: BuilderModel, steps: Seq<Step>)
    ensures
        m.run(steps).headers == m.headers + added_headers(steps),
    decreases steps.len(),
{
    if steps.len() == 0 {
        assert(m.headers + Seq::empty() =~= m.headers);
    } else {
        let n = m.apply(steps[0]);
        law_headers_kept_in_order(n, steps.drop_first());
        match steps[0] {
            Step::AddHeader(k, v) => {
                assert(m.headers.push((k, v)) + added_headers(steps.drop_first()) =~= m.headers + (
                seq![(k, v)] + added_headers(steps.drop_first())));
            },
            _ => {},
        }
    }
}

/// The URL slot ends with the last URL set, or as it was if none was set.
proof fn lemma_run_url(m: BuilderModel, steps: Seq<Step>)
    ensures
        m.run(steps).url == (if last_url(steps) is Some {
            last_url(steps)
        } else {
            m.url
        }),
    decreases steps.len(),
{
    if steps.len() > 0 {
        lemma_run_url(m.apply(steps[0]), steps.drop_first());
    }
}

/// The method slot ends with the last method chosen, or as it was if none was.
proof fn lemma_run_method(m: BuilderModel, steps: Seq<Step>)
    ensures
        m.run(steps).method == (if last_method(steps) is Some {
            last_method(steps)
        } else {
            m.method
        }),
    decreases steps.len(),
{
    if steps.len() > 0 {
        lemma_run_method(m.apply(steps[0]), steps.drop_first());
    }
}

/// Once a URL and a method have been given, the built request carries the
/// last URL set and the last method chosen.
pub proof fn law_built_url_and_method(m: BuilderModel, steps: Seq<Step>)
    requires
        last_url(steps) is Some,
        last_method(steps) is Some,
    ensures
        m.run(steps).complete(),
        m.run(steps).built().url == last_url(steps).unwrap(),
        m.run(steps).built().method == last_method(steps).unwrap(),
{
    lemma_run_url(m, steps);
    lemma_run_method(m, steps);
}

/// A locked body slot stays locked under every operation offered.
proof fn lemma_locked_stays(m: BuilderModel, steps: Seq<Step>)
    requires
        m.body is Locked,
        m.allows_all(steps),
    ensures
        m.run(steps).body is Locked,
    decreases steps.len(),
{
    if steps.len() > 0 {
        lemma_locked_stays(m.apply(steps[0]), steps.drop_first());
    }
}

/// A request whose method was chosen as GET has no body, whatever was
/// attempted before or after the choice.
pub proof fn law_get_has_no_body(m: BuilderModel, steps: Seq<Step>, i: int)
    requires
        m.allows_all(steps),
        0 <= i < steps.len(),
        steps[i] == Step::Get,
    ensures
        m.run(steps).body is Locked,
        m.run(steps).built().body is None,
    decreases steps.len(),
{
    if i == 0 {
        lemma_locked_stays(m.apply(steps[0]), steps.drop_first());
    } else {
        law_get_has_no_body(m.apply(steps[0]), steps.drop_first(), i - 1);
    }
}

/// A chosen method stays chosen under every operation offered.
proof fn lemma_method_stays(m: BuilderModel, steps: Seq<Step>)
    requires
        m.method is Some,
        m.allows_all(steps),
    ensures
        m.run(steps).method == m.method,
    decreases steps.len(),
{
    if steps.len() > 0 {
        lemma_method_stays(m.apply(steps[0]), steps.drop_first());
    }
}

/// A body attached once a method is chosen stays under every operation offered.
proof fn lemma_body_stays(m: BuilderModel, steps: Seq<Step>)
    requires
        m.method is Some,
        m.body is Given,
        m.allows_all(steps),
    ensures
        m.run(steps).body == m.body,
    decreases steps.len(),
{
    if steps.len() > 0 {
        lemma_body_stays(m.apply(steps[0]), steps.drop_first());
    }
}

/// With a method chosen, attaching a body at position `j` leaves it in place.
proof fn lemma_body_after_method(m: BuilderModel, steps: Seq<Step>, j: int, t: Seq<char>)
    requires
        m.method is Some,
        m.allows_all(steps),
        0 <= j < steps.len(),
        steps[j] == Step::SetBody(t),
    ensures
        m.run(steps).body == BodySlot::Given(t),
    decreases steps.len(),
{
    if j == 0 {
        lemma_body_stays(m.apply(steps[0]), steps.drop_first());
    } else {
        lemma_body_after_method(m.apply(steps[0]), steps.drop_first(), j - 1, t);
    }
}

/// A POST request to which a body was then attached carries exactly that body.
pub proof fn law_post_with_body(m: BuilderModel, steps: Seq<Step>, i: int, j: int, t: Seq<char>)
    requires
        m.allows_all(steps),
        0 <= i < j < steps.len(),
        steps[i] == Step::Post,
        steps[j] == Step::SetBody(t),
    ensures
        m.run(steps).built().body == Some(t),
    decreases steps.len(),
{
    if i == 0 {
        lemma_body_after_method(m.apply(steps[0]), steps.drop_first(), j - 1, t);
    } else {
        law_post_with_body(m.apply(steps[0]), steps.drop_first(), i - 1, j - 1, t);
    }
}

/// A request to which no body was ever attached has none: in particular a
/// POST request built without a body.
pub proof fn law_no_body_without_attaching(m: BuilderModel, steps: Seq<Step>)
    requires
        !(m.body is Given),
        forall|k: int| 0 <= k < steps.len() ==> !(#[trigger] steps[k] is SetBody),
    ensures
        m.run(steps).built().body is None,
    decreases steps.len(),
{
    if steps.len() > 0 {
        assert(!(steps[0] is SetBody));
        let rest = steps.drop_first();
        assert forall|k: int| 0 <= k < rest.len() implies !(#[trigger] rest[k] is SetBody) by {
            assert(rest[k] == steps[k + 1]);
        }
        law_no_body_without_attaching(m.apply(steps[0]), rest);
    }
}

/// Attaching a body is never offered once GET has been chosen.
pub proof fn law_no_body_after_get(m: BuilderModel, steps: Seq<Step>, i: int, j: int)
    requires
        0 <= i < j < steps.len(),
        steps[i] == Step::Get,
        steps[j] is SetBody,
    ensures
        !m.allows_all(steps),
    decreases steps.len(),
{
    if m.allows_all(steps) {
        if i == 0 {
            lemma_locked_blocks_body(m.apply(steps[0]), steps.drop_first(), j - 1);
        } else {
            law_no_body_after_get(m.apply(steps[0]), steps.drop_first(), i - 1, j - 1);
        }
    }
}

/// With the body slot locked, no sequence that attaches a body is offered.
proof fn lemma_locked_blocks_body(m: BuilderModel, steps: Seq<Step>, j: int)
    requires
        m.body is Locked,
        0 <= j < steps.len(),
        steps[j] is SetBody,
    ensures
        !m.allows_all(steps),
    decreases steps.len(),
{
    if j > 0 && m.allows(steps[0]) {
        lemma_locked_blocks_body(m.apply(steps[0]), steps.drop_first(), j - 1);
    }
}

} // verus!
