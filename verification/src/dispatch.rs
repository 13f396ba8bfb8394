//! Dispatch of the host's calls to registered handlers.

use vstd::prelude::*;
use vstd::string::StringExecFns;
use crate::registry::HandlerRegistry;
use crate::inspector::MessageTabHandlers;

verus! {

/// Context provided to handlers that operate on a single session entry.
#[derive(Debug, Clone, PartialEq, Eq, Hash)]
pub struct SingleEntryContext {
    pub session_id: ulid::Ulid,
    pub entry_id: ulid::Ulid,
}

/// Context provided to handlers that operate on multiple session entries at once.
#[derive(Debug, Clone, PartialEq, Eq)]
pub struct MultiEntryContext {
    pub session_id: ulid::Ulid,
    pub entry_ids: Vec<ulid::Ulid>,
}

/// The error answered when the host calls a handler id that is not registered.
#[derive(Debug, Clone)]
pub struct HandlerNotFound(pub String);

impl HandlerNotFound {
    /// The text of the error: `no handler registered for '<id>'`.
    pub fn message(&self) -> (r: String)
        ensures
            r@ == "no handler registered for '"@ + self.0@ + "'"@,
    {
        let mut m = String::new();
        m.append("no handler registered for '");
        m.append(self.0.as_str());
        m.append("'");
        m
    }
}

/// The handler registered under `id`, or the error that names `id`.
pub fn lookup_handler<'a, H>(registry: &'a HandlerRegistry<H>, id: &str) -> (r: Result<&'a H, HandlerNotFound>)
    ensures
        match r {
            Ok(h) => registry@.contains_key(id@) && *h == registry@[id@],
            Err(e) => !registry@.contains_key(id@) && e.0@ == id@,
        },
{
    match registry.get(id) {
        Some(h) => Ok(h),
        None => Err(HandlerNotFound(id.to_owned())),
    }
}

/// How to answer the host's question whether a message tab is visible.
pub enum TabVisibility<'a, V> {
    /// No tab is registered under the id.
    Missing(HandlerNotFound),
    /// The tab has no visibility predicate: it is visible for every entry.
    Always,
    /// The tab is visible when this predicate says so.
    Ask(&'a V),
}

/// Decides how to answer whether the tab `tab_id` is visible, given the
/// handlers registered for it, if any.
pub fn tab_visibility<'a, C, V>(handlers: Option<&'a MessageTabHandlers<C, V>>, tab_id: String) -> (r: TabVisibility<'a, V>)
    ensures
        match handlers {
            None => r matches TabVisibility::Missing(e) && e.0@ == tab_id@,
            Some(hs) => match hs.visibility {
                None => r matches TabVisibility::Always,
                Some(v) => r matches TabVisibility::Ask(p) && *p == v,
            },
        },
{
    match handlers {
        None => TabVisibility::Missing(HandlerNotFound(tab_id)),
        Some(hs) => match &hs.visibility {
            None => TabVisibility::Always,
            Some(v) => TabVisibility::Ask(v),
        },
    }
}

/// The content handler of the tab `tab_id`, given the handlers registered
/// for it, or the error that names the tab.
pub fn tab_content<'a, C, V>(handlers: Option<&'a MessageTabHandlers<C, V>>, tab_id: String) -> (r: Result<&'a C, HandlerNotFound>)
    ensures
        match handlers {
            None => r matches Err(e) && e.0@ == tab_id@,
            Some(hs) => r matches Ok(c) && *c == hs.content,
        },
{
    match handlers {
        None => Err(HandlerNotFound(tab_id)),
        Some(hs) => Ok(&hs.content),
    }
}

} // verus!
