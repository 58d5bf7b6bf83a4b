//! Plugins: an ordered collection of handlers plus identity metadata.
//! Resolution is a first-match-wins linear scan in registration order.
use vstd::prelude::*;

use crate::event::Event;
use crate::filter::DispatchError;
use crate::handler::{spec_check, Handler};

verus! {

/// An ordered group of handlers sharing a name and an originating file path.
#[derive(Debug)]
pub struct Plugin {
    pub name: String,
    pub handlers: Vec<Handler>,
    pub file_path: String,
}

/// The first handler from index `i` on whose check succeeds, or none; the
/// first evaluation error ends the scan with that error.
pub open spec fn spec_resolve(
    handlers: Seq<Handler>,
    e: Event,
    admin: Option<bool>,
    i: int,
) -> Result<Option<int>, DispatchError>
    decreases handlers.len() - i,
{
    if i < 0 || i >= handlers.len() {
        Ok(None)
    } else {
        match spec_check(handlers[i], e, admin) {
            Err(er) => Err(er),
            Ok(true) => Ok(Some(i)),
            Ok(false) => spec_resolve(handlers, e, admin, i + 1),
        }
    }
}

/// Resolution is deterministic and order-preserving: when a handler at `i`
/// matches and every handler before it evaluates without error, the scan
/// selects the first matching index — some `k` at or before `i`, with every
/// handler before `k` evaluating false.
pub proof fn lemma_resolve_first_match(
    handlers: Seq<Handler>,
    e: Event,
    admin: Option<bool>,
    i: int,
)
    requires
        0 <= i < handlers.len(),
        spec_check(handlers[i], e, admin) == Ok::<bool, DispatchError>(true),
        forall|j: int| 0 <= j < i ==> spec_check(#[trigger] handlers[j], e, admin) is Ok,
    ensures
        exists|k: int|
            0 <= k <= i && spec_resolve(handlers, e, admin, 0) == Ok::<Option<int>, DispatchError>(
                Some(k),
            ) && spec_check(#[trigger] handlers[k], e, admin) == Ok::<bool, DispatchError>(true)
                && (forall|j: int|
                0 <= j < k ==> spec_check(#[trigger] handlers[j], e, admin) == Ok::<
                    bool,
                    DispatchError,
                >(false)),
{
    lemma_resolve_first_match_from(handlers, e, admin, 0, i);
}

proof fn lemma_resolve_first_match_from(
    handlers: Seq<Handler>,
    e: Event,
    admin: Option<bool>,
    s: int,
    i: int,
)
    requires
        0 <= s <= i < handlers.len(),
        spec_check(handlers[i], e, admin) == Ok::<bool, DispatchError>(true),
        forall|j: int| s <= j < i ==> spec_check(#[trigger] handlers[j], e, admin) is Ok,
    ensures
        exists|k: int|
            s <= k <= i && spec_resolve(handlers, e, admin, s) == Ok::<Option<int>, DispatchError>(
                Some(k),
            ) && spec_check(#[trigger] handlers[k], e, admin) == Ok::<bool, DispatchError>(true)
                && (forall|j: int|
                s <= j < k ==> spec_check(#[trigger] handlers[j], e, admin) == Ok::<
                    bool,
                    DispatchError,
                >(false)),
    decreases i - s,
{
    if spec_check(handlers[s], e, admin) == Ok::<bool, DispatchError>(true) {
        assert(spec_resolve(handlers, e, admin, s) == Ok::<Option<int>, DispatchError>(Some(s)));
    } else {
        lemma_resolve_first_match_from(handlers, e, admin, s + 1, i);
        let k = choose|k: int|
            s + 1 <= k <= i && spec_resolve(handlers, e, admin, s + 1) == Ok::<
                Option<int>,
                DispatchError,
            >(Some(k)) && spec_check(#[trigger] handlers[k], e, admin) == Ok::<
                bool,
                DispatchError,
            >(true) && (forall|j: int|
                s + 1 <= j < k ==> spec_check(#[trigger] handlers[j], e, admin) == Ok::<
                    bool,
                    DispatchError,
                >(false));
        assert(spec_resolve(handlers, e, admin, s) == Ok::<Option<int>, DispatchError>(Some(k)));
        assert(forall|j: int|
            s <= j < k ==> spec_check(#[trigger] handlers[j], e, admin) == Ok::<
                bool,
                DispatchError,
            >(false));
    }
}

impl Plugin {
    /// The handlers of this plugin, in registration order.
    pub open spec fn spec_handlers(&self) -> Seq<Handler> {
        self.handlers@
    }

    pub fn new(name: String, file_path: String) -> (r: Self)
        ensures
            r.name == name,
            r.file_path == file_path,
            r.spec_handlers() == Seq::<Handler>::empty(),
    {
        Self { name, handlers: Vec::new(), file_path }
    }

    pub fn push_handler(&mut self, handler: Handler)
        ensures
            final(self).name == old(self).name,
            final(self).file_path == old(self).file_path,
            final(self).spec_handlers() == old(self).spec_handlers().push(handler),
    {
        self.handlers.push(handler)
    }

    /// Scan the handlers in registration order; the index of the first whose
    /// check succeeds, or none.
    pub fn resolve(&self, event: &Event, admin: Option<bool>) -> (r: Result<
        Option<usize>,
        DispatchError,
    >)
        ensures
            match spec_resolve(self.spec_handlers(), *event, admin, 0) {
                Ok(Some(i)) => r matches Ok(Some(j)) && j as int == i,
                Ok(None) => r matches Ok(None),
                Err(er) => r matches Err(e2) && e2 == er,
            },
            r matches Ok(Some(j)) ==> j < self.spec_handlers().len(),
    {
        let mut i: usize = 0;
        while i < self.handlers.len()
            invariant
                i <= self.handlers.len(),
                spec_resolve(self.spec_handlers(), *event, admin, 0) == spec_resolve(
                    self.spec_handlers(),
                    *event,
                    admin,
                    i as int,
                ),
            decreases self.handlers.len() - i,
        {
            match self.handlers[i].check(event, admin) {
                Err(er) => {
                    return Err(er);
                },
                Ok(true) => {
                    return Ok(Some(i));
                },
                Ok(false) => {},
            }
            i += 1;
        }
        Ok(None)
    }

    /// The first handler whose check succeeds, or none.
    pub fn get_handler(&self, event: &Event, admin: Option<bool>) -> (r: Result<
        Option<&Handler>,
        DispatchError,
    >)
        ensures
            match spec_resolve(self.spec_handlers(), *event, admin, 0) {
                Ok(Some(i)) => r matches Ok(Some(h)) && *h == self.spec_handlers()[i],
                Ok(None) => r matches Ok(None),
                Err(er) => r matches Err(e2) && e2 == er,
            },
    {
        match self.resolve(event, admin) {
            Err(er) => Err(er),
            Ok(None) => Ok(None),
            Ok(Some(i)) => Ok(Some(&self.handlers[i])),
        }
    }

    pub fn handlers(&self) -> (r: &Vec<Handler>)
        ensures
            r@ == self.spec_handlers(),
    {
        &self.handlers
    }

    pub fn file_path(&self) -> (r: &str)
        ensures
            r@ == self.file_path@,
    {
        self.file_path.as_str()
    }
}

} // verus!
