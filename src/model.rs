use crate::request::{Method, RequestView};
use vstd::prelude::*;

verus! {

/// What the body slot of a builder holds.
pub ghost enum BodySlot {
    /// No body has been supplied yet, and one may still be.
    Missing,
    /// The method is GET: no body can ever be supplied.
    Locked,
    /// A body has been supplied.
    Given(Seq<char>),
}

/// The mathematical state of a builder: its three slots and its headers.
pub ghost struct BuilderModel {
    pub url: Option<Seq<char>>,
    pub method: Option<Method>,
    pub body: BodySlot,
    pub headers: Seq<(Seq<char>, Seq<char>)>,
}

/// One builder operation.
pub ghost enum Step {
    /// `url`: set the URL, replacing any earlier one.
    SetUrl(Seq<char>),
    /// `header`: append a key and a value.
    AddHeader(Seq<char>, Seq<char>),
    /// `get`: choose GET and lock the body slot.
    Get,
    /// `post`: choose POST.
    Post,
    /// `body`: attach a body.
    SetBody(Seq<char>),
}

impl BuilderModel {
    /// A fresh builder: every slot missing, no headers.
    pub open spec fn empty() -> BuilderModel {
        BuilderModel { url: None, method: None, body: BodySlot::Missing, headers: Seq::empty() }
    }

    /// Whether the operation is offered in this state: a method may be chosen
    /// only once, and a body may be supplied only while its slot is missing.
    pub open spec fn allows(self, s: Step) -> bool {
        match s {
            Step::Get => self.method is None,
            Step::Post => self.method is None,
            Step::SetBody(_) => self.body is Missing,
            _ => true,
        }
    }

    /// The state after the operation.
    pub open spec fn apply(self, s: Step) -> BuilderModel {
        match s {
            Step::SetUrl(u) => BuilderModel { url: Some(u), ..self },
            Step::AddHeader(k, v) => BuilderModel { headers: self.headers.push((k, v)), ..self },
            Step::Get => BuilderModel {
                method: Some(Method::GET),
                body: BodySlot::Locked,
                ..self
            },
            Step::Post => BuilderModel { method: Some(Method::POST), ..self },
            Step::SetBody(b) => BuilderModel { body: BodySlot::Given(b), ..self },
        }
    }

    /// Whether every operation of the sequence is offered when its turn comes.
    pub open spec fn allows_all(self, steps: Seq<Step>) -> bool
        decreases steps.len(),
    {
        steps.len() == 0 || (self.allows(steps[0]) && self.apply(steps[0]).allows_all(
            steps.drop_first(),
        ))
    }

    /// The state after the operations, in order.
    pub open spec fn run(self, steps: Seq<Step>) -> BuilderModel
        decreases steps.len(),
    {
        if steps.len() == 0 {
            self
        } else {
            self.apply(steps[0]).run(steps.drop_first())
        }
    }

    /// Whether a request can be built: the URL and the method are set.
    pub open spec fn complete(self) -> bool {
        self.url is Some && self.method is Some
    }

    /// The request that building from this state produces.
    pub open spec fn built(self) -> RequestView {
        RequestView {
            url: self.url.unwrap(),
            method: self.method.unwrap(),
            headers: self.headers,
            body: match self.body {
                BodySlot::Given(b) => Some(b),
                _ => None,
            },
        }
    }
}

/// The headers that the operations add, in order.
pub open spec fn added_headers(steps: Seq<Step>) -> Seq<(Seq<char>, Seq<char>)>
    decreases steps.len(),
{
    if steps.len() == 0 {
        Seq::empty()
    } else {
        let rest = added_headers(steps.drop_first());
        match steps[0] {
            Step::AddHeader(k, v) => seq![(k, v)] + rest,
            _ => rest,
        }
    }
}

/// The URL of the last `SetUrl` among the operations, if there is one.
pub open spec fn last_url(steps: Seq<Step>) -> Option<Seq<char>>
    decreases steps.len(),
{
    if steps.len() == 0 {
        None
    } else {
        let rest = last_url(steps.drop_first());
        if rest is Some {
            rest
        } else {
            match steps[0] {
                Step::SetUrl(u) => Some(u),
                _ => None,
            }
        }
    }
}

/// The method of the last `Get` or `Post` among the operations, if there is one.
pub open spec fn last_method(steps: Seq<Step>) -> Option<Method>
    decreases steps.len(),
{
    if steps.len() == 0 {
        None
    } else {
        let rest = last_method(steps.drop_first());
        if rest is Some {
            rest
        } else {
            match steps[0] {
                Step::Get => Some(Method::GET),
                Step::Post => Some(Method::POST),
                _ => None,
            }
        }
    }
}

} // verus!
