//! Handlers: an accepted-kinds set, an ordered filter list, and an optional
//! AND/OR link to another handler, forming a chain evaluated recursively.
use vstd::prelude::*;

use crate::event::{spec_kind, Event};
use crate::filter::{spec_filter_eval, DispatchError, Filter};

verus! {

/// The kinds of event a handler can accept.  `Message` covers both new and
/// edited messages.
#[derive(Debug, Copy, Clone, PartialEq, Eq, Structural)]
pub enum HandlerType {
    CallbackQuery,
    InlineQuery,
    Message,
    MessageDeleted,
    Raw,
}

impl Default for HandlerType {
    fn default() -> (r: Self)
        ensures
            r == HandlerType::Raw,
    {
        HandlerType::Raw
    }
}

/// One handler: the event kinds it accepts, its filters in evaluation order,
/// and an optional link to another handler.  The host keeps the callback
/// belonging to each registered handler; this library only decides which
/// handler wins.
#[derive(Debug)]
pub struct Handler {
    pub types: Vec<HandlerType>,
    pub filters: Vec<Filter>,
    pub other: Option<Box<OtherHandler>>,
}

/// A link from one handler to the next in a chain: conjunction or
/// alternative.
#[derive(Debug)]
pub enum OtherHandler {
    And(Handler),
    Or(Handler),
}

/// The outcome of one handler's check.
///
/// The type gate asks whether the event's kind is among the accepted kinds.
/// When it fails, an `Or`-linked handler decides alone; otherwise the result
/// is false without looking at any filter.  When it passes, the filter list
/// decides (see [`spec_check_filters`]).
pub open spec fn spec_check(h: Handler, e: Event, admin: Option<bool>) -> Result<
    bool,
    DispatchError,
>
    decreases h, 1int, 0int,
{
    if h.types@.contains(spec_kind(e)) {
        spec_check_filters(h, e, admin, 0, false)
    } else {
        match h.other {
            Some(other) => match *other {
                OtherHandler::Or(o) => spec_check(o, e, admin),
                OtherHandler::And(_) => Ok(false),
            },
            None => Ok(false),
        }
    }
}

/// The filter loop, from filter `i` on, with `acc` the result so far.
///
/// A filter that evaluates false leaves the result as it stands.  A filter
/// that evaluates true sets it — and when the handler carries an `And` link,
/// immediately consults the linked handler: its success ends the whole check
/// successfully, its failure resets the result to false and the loop goes on
/// to the next filter.  The first evaluation error ends the check with that
/// error.  An empty filter list never sets the result.
pub open spec fn spec_check_filters(
    h: Handler,
    e: Event,
    admin: Option<bool>,
    i: int,
    acc: bool,
) -> Result<bool, DispatchError>
    decreases h, 0int, h.filters@.len() - i,
{
    if i < 0 || i >= h.filters@.len() {
        Ok(acc)
    } else {
        match spec_filter_eval(h.filters@[i], e, admin) {
            Err(er) => Err(er),
            Ok(false) => spec_check_filters(h, e, admin, i + 1, acc),
            Ok(true) => match h.other {
                Some(other) => match *other {
                    OtherHandler::And(o) => match spec_check(o, e, admin) {
                        Err(er) => Err(er),
                        Ok(true) => Ok(true),
                        Ok(false) => spec_check_filters(h, e, admin, i + 1, false),
                    },
                    OtherHandler::Or(_) => spec_check_filters(h, e, admin, i + 1, true),
                },
                None => spec_check_filters(h, e, admin, i + 1, true),
            },
        }
    }
}

/// An event whose kind a handler does not accept is rejected whenever no
/// `Or` link delegates: the check is false, whatever the filters say.
pub proof fn lemma_type_gate_rejects(h: Handler, e: Event, admin: Option<bool>)
    requires
        !h.types@.contains(spec_kind(e)),
        match h.other {
            Some(other) => (*other) is And,
            None => true,
        },
    ensures
        spec_check(h, e, admin) == Ok::<bool, DispatchError>(false),
{
}

/// When the type gate fails and the handler is OR-linked, the linked
/// handler decides alone: the handler's own filters are never consulted.
pub proof fn lemma_or_gate_delegates(h: Handler, o: Handler, e: Event, admin: Option<bool>)
    requires
        !h.types@.contains(spec_kind(e)),
        h.other matches Some(other) && *other == OtherHandler::Or(o),
    ensures
        spec_check(h, e, admin) == spec_check(o, e, admin),
{
}

proof fn lemma_and_chain_from(h: Handler, o: Handler, e: Event, admin: Option<bool>, i: int)
    requires
        0 <= i <= h.filters@.len(),
        h.other matches Some(other) && *other == OtherHandler::And(o),
        forall|j: int|
            i <= j < h.filters@.len() ==> spec_filter_eval(#[trigger] h.filters@[j], e, admin)
                is Ok,
        spec_check(o, e, admin) is Ok,
    ensures
        spec_check_filters(h, e, admin, i, false) == Ok::<bool, DispatchError>(
            (exists|j: int|
                i <= j < h.filters@.len() && spec_filter_eval(#[trigger] h.filters@[j], e, admin)
                    == Ok::<bool, DispatchError>(true)) && spec_check(o, e, admin) == Ok::<
                bool,
                DispatchError,
            >(true),
        ),
    decreases h.filters@.len() - i,
{
    if i < h.filters@.len() {
        lemma_and_chain_from(h, o, e, admin, i + 1);
        if spec_filter_eval(h.filters@[i], e, admin) == Ok::<bool, DispatchError>(true) {
            assert(exists|j: int|
                i <= j < h.filters@.len() && spec_filter_eval(#[trigger] h.filters@[j], e, admin)
                    == Ok::<bool, DispatchError>(true));
        }
    }
}

/// An AND-linked chain succeeds exactly when the handler's own gate passes,
/// one of its own filters matches the event, and the linked handler's check
/// succeeds on the same event — false as soon as either side fails.  Stated
/// where no evaluation errs, so that failing means false.
pub proof fn lemma_and_chain(h: Handler, o: Handler, e: Event, admin: Option<bool>)
    requires
        h.other matches Some(other) && *other == OtherHandler::And(o),
        forall|j: int|
            0 <= j < h.filters@.len() ==> spec_filter_eval(#[trigger] h.filters@[j], e, admin)
                is Ok,
        spec_check(o, e, admin) is Ok,
    ensures
        spec_check(h, e, admin) == Ok::<bool, DispatchError>(
            h.types@.contains(spec_kind(e)) && (exists|j: int|
                0 <= j < h.filters@.len() && spec_filter_eval(#[trigger] h.filters@[j], e, admin)
                    == Ok::<bool, DispatchError>(true)) && spec_check(o, e, admin) == Ok::<
                bool,
                DispatchError,
            >(true),
        ),
{
    lemma_and_chain_from(h, o, e, admin, 0);
}

impl Handler {
    /// Well-formedness: a handler accepts at least one event kind.  Fixed at
    /// registration time and preserved by linking.
    pub open spec fn wf(&self) -> bool {
        self.types@.len() > 0
    }

    /// A handler accepting `types`, guarded by `filters`, with no link.
    pub fn new(types: Vec<HandlerType>, filters: Vec<Filter>) -> (r: Handler)
        requires
            types@.len() > 0,
        ensures
            r.types == types,
            r.filters == filters,
            r.other is None,
            r.wf(),
    {
        Handler { types, filters, other: None }
    }

    /// This handler, AND-linked to `other`.
    pub fn and(self, other: Handler) -> (r: Handler)
        ensures
            r.types == self.types,
            r.filters == self.filters,
            r.other == Some(Box::new(OtherHandler::And(other))),
            self.wf() ==> r.wf(),
    {
        Handler { other: Some(Box::new(OtherHandler::And(other))), ..self }
    }

    /// This handler, OR-linked to `other`.
    pub fn or(self, other: Handler) -> (r: Handler)
        ensures
            r.types == self.types,
            r.filters == self.filters,
            r.other == Some(Box::new(OtherHandler::Or(other))),
            self.wf() ==> r.wf(),
    {
        Handler { other: Some(Box::new(OtherHandler::Or(other))), ..self }
    }

    pub fn filters(&self) -> (r: &Vec<Filter>)
        ensures
            r == &self.filters,
    {
        &self.filters
    }

    /// Whether this handler's type gate accepts events of kind `k`.
    pub fn accepts(&self, k: HandlerType) -> (r: bool)
        ensures
            r == self.types@.contains(k),
    {
        let mut i: usize = 0;
        while i < self.types.len()
            invariant
                i <= self.types.len(),
                forall|j: int| 0 <= j < i ==> self.types@[j] != k,
            decreases self.types.len() - i,
        {
            if self.types[i] == k {
                return true;
            }
            i += 1;
        }
        false
    }

    /// Decide whether this handler (with its whole chain) accepts the event.
    ///
    /// `admin` is the session's answer to the one permission lookup this
    /// event could need — whether the event's sender is an administrator of
    /// the event's group chat — or `None` when the session has not answered.
    pub fn check(&self, event: &Event, admin: Option<bool>) -> (r: Result<bool, DispatchError>)
        ensures
            r == spec_check(*self, *event, admin),
        decreases *self, 2int, 0int,
    {
        if !self.accepts(event.kind()) {
            if let Some(other) = &self.other {
                if let OtherHandler::Or(o) = &**other {
                    return o.check(event, admin);
                }
            }
            return Ok(false);
        }
        let mut result = false;
        let mut i: usize = 0;
        while i < self.filters.len()
            invariant
                i <= self.filters.len(),
                self.types@.contains(spec_kind(*event)),
                spec_check(*self, *event, admin) == spec_check_filters(
                    *self,
                    *event,
                    admin,
                    i as int,
                    result,
                ),
            decreases self.filters.len() - i,
        {
            match self.filters[i].check(event, admin) {
                Err(er) => {
                    return Err(er);
                },
                Ok(false) => {},
                Ok(true) => {
                    match &self.other {
                        Some(other) => match &**other {
                            OtherHandler::And(o) => {
                                match o.check(event, admin) {
                                    Err(er) => {
                                        return Err(er);
                                    },
                                    Ok(true) => {
                                        return Ok(true);
                                    },
                                    Ok(false) => {
                                        result = false;
                                    },
                                }
                            },
                            OtherHandler::Or(_) => {
                                result = true;
                            },
                        },
                        None => {
                            result = true;
                        },
                    }
                },
            }
            i += 1;
        }
        Ok(result)
    }
}

} // verus!
