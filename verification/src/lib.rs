//! An event-classification and handler-dispatch engine for a stream of
//! messaging events.  One incoming event is matched against an ordered
//! collection of plugins, each an ordered list of handlers; the first handler
//! whose type gate and filter chain accept the event wins, and a normalized
//! context is built for its callback.
//!
//! The host process owns the transport: it converts each raw session update
//! into an [`Event`], performs the one permission lookup an event may need,
//! and invokes the winning callback.  Everything that decides — filter
//! evaluation, the AND/OR combinator algebra, plugin resolution, context
//! extraction, and the command-pattern builder — lives here.
use vstd::prelude::*;

pub mod data;
pub mod event;
pub mod filter;
pub mod filters;
pub mod handler;
pub mod handlers;
pub mod plugin;

pub use data::Data;
pub use event::{Event, MediaKind, MessageData};
pub use filter::{DispatchError, Filter};
pub use handler::{Handler, HandlerType, OtherHandler};
pub use plugin::Plugin;

verus! {

/// The decision for one event: which plugin and which handler win, and the
/// context their callback is owed.  The host invokes the callback registered
/// for that plugin and handler exactly once.
#[derive(Debug, PartialEq)]
pub struct Dispatch {
    pub plugin: usize,
    pub handler: usize,
    pub data: Data,
}

/// The first plugin from index `i` on that resolves a handler, with that
/// handler's index; the first evaluation error ends the scan with that
/// error.  Later plugins are not tried once one matches.
pub open spec fn spec_dispatch(
    plugins: Seq<Plugin>,
    e: Event,
    admin: Option<bool>,
    i: int,
) -> Result<Option<(int, int)>, DispatchError>
    decreases plugins.len() - i,
{
    if i < 0 || i >= plugins.len() {
        Ok(None)
    } else {
        match plugin::spec_resolve(plugins[i].spec_handlers(), e, admin, 0) {
            Err(er) => Err(er),
            Ok(Some(j)) => Ok(Some((i, j))),
            Ok(None) => spec_dispatch(plugins, e, admin, i + 1),
        }
    }
}

/// Decide one event against the registered plugins, in registration order.
///
/// Returns the winning plugin and handler and the context built for the
/// event, or `None` when no plugin matches — no error and no callback is
/// owed then.  `admin` is the session's answer to the one permission lookup
/// the event could need (see [`Filter::check`]).
pub fn dispatch_event(plugins: &Vec<Plugin>, event: &Event, admin: Option<bool>) -> (r: Result<
    Option<Dispatch>,
    DispatchError,
>)
    ensures
        match spec_dispatch(plugins@, *event, admin, 0) {
            Ok(None) => r matches Ok(None),
            Ok(Some((pi, hi))) => if data::spec_context_query(*event) is None && *event is CallbackQuery {
                r matches Err(er) && er == DispatchError::InvalidUtf8
            } else {
                r matches Ok(Some(d)) && d.plugin as int == pi && d.handler as int == hi
                    && data::spec_data_matches(*event, d.data)
            },
            Err(er) => r matches Err(e2) && e2 == er,
        },
{
    let mut i: usize = 0;
    while i < plugins.len()
        invariant
            i <= plugins.len(),
            spec_dispatch(plugins@, *event, admin, 0) == spec_dispatch(
                plugins@,
                *event,
                admin,
                i as int,
            ),
        decreases plugins.len() - i,
    {
        match plugins[i].resolve(event, admin) {
            Err(er) => {
                return Err(er);
            },
            Ok(Some(j)) => {
                match Data::from_event(event) {
                    Err(er) => {
                        return Err(er);
                    },
                    Ok(d) => {
                        return Ok(Some(Dispatch { plugin: i, handler: j, data: d }));
                    },
                }
            },
            Ok(None) => {},
        }
        i += 1;
    }
    Ok(None)
}

/// An event that no plugin matches is dropped: deciding it yields no
/// winner, no context, and no error.
pub proof fn lemma_no_match_no_dispatch(plugins: Seq<Plugin>, e: Event, admin: Option<bool>)
    requires
        forall|i: int|
            0 <= i < plugins.len() ==> plugin::spec_resolve(
                (#[trigger] plugins[i]).spec_handlers(),
                e,
                admin,
                0,
            ) == Ok::<Option<int>, DispatchError>(None),
    ensures
        spec_dispatch(plugins, e, admin, 0) == Ok::<Option<(int, int)>, DispatchError>(None),
{
    lemma_no_match_no_dispatch_from(plugins, e, admin, 0);
}

proof fn lemma_no_match_no_dispatch_from(
    plugins: Seq<Plugin>,
    e: Event,
    admin: Option<bool>,
    i: int,
)
    requires
        0 <= i,
        forall|j: int|
            0 <= j < plugins.len() ==> plugin::spec_resolve(
                (#[trigger] plugins[j]).spec_handlers(),
                e,
                admin,
                0,
            ) == Ok::<Option<int>, DispatchError>(None),
    ensures
        spec_dispatch(plugins, e, admin, i) == Ok::<Option<(int, int)>, DispatchError>(None),
    decreases plugins.len() - i,
{
    if i < plugins.len() {
        lemma_no_match_no_dispatch_from(plugins, e, admin, i + 1);
    }
}

/// Process-wide configuration: the bot's username and the command-prefix
/// strings.  Resolved once at startup by the host and passed read-only into
/// the components that need it (only the command-pattern builder does).
pub struct Config {
    pub username: Option<String>,
    pub prefixes: Vec<String>,
}

impl Config {
    /// The configured username as a sequence of characters, or empty when
    /// none was configured.
    pub open spec fn spec_username(&self) -> Seq<char> {
        match self.username {
            Some(u) => u@,
            None => Seq::empty(),
        }
    }

    pub open spec fn spec_prefixes(&self) -> Seq<Seq<char>> {
        self.prefixes@.map_values(|p: String| p@)
    }

    pub fn new(username: Option<String>, prefixes: Vec<String>) -> (r: Config)
        ensures
            r.username == username,
            r.prefixes == prefixes,
    {
        Config { username, prefixes }
    }

    /// The configured username, or the empty string when none was configured.
    pub fn username(&self) -> (r: String)
        ensures
            r@ == self.spec_username(),
    {
        match &self.username {
            Some(u) => u.clone(),
            None => String::new(),
        }
    }

    pub fn prefixes(&self) -> (r: &Vec<String>)
        ensures
            r == &self.prefixes,
    {
        &self.prefixes
    }
}

} // verus!
