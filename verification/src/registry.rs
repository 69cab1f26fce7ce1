use vstd::prelude::*;
use dashmap::DashMap;

verus! {

/// `dashmap::DashMap`, the concurrent map that holds the handler table.
#[verifier::external_type_specification]
#[verifier::external_body]
#[verifier::reject_recursive_types(K)]
#[verifier::reject_recursive_types(V)]
#[verifier::reject_recursive_types(S)]
pub struct ExDashMap<K, V, S>(DashMap<K, V, S>);

/// The handlers of a client: each topic with a handler, mapped to the
/// handler's name.
pub type HandlerTable = DashMap<String, String>;

/// What a handler table holds: for each topic with a handler, the
/// handler's name.
pub uninterp spec fn handler_entries(m: HandlerTable) -> Map<Seq<char>, Seq<char>>;

/// Calls `DashMap::new`. Claimed: the new table holds nothing.
#[verifier::external_body]
pub(crate) fn new_handler_table() -> (m: HandlerTable)
    ensures
        handler_entries(m).dom() == Set::<Seq<char>>::empty(),
{
    DashMap::new()
}

/// Calls `DashMap::insert`. Claimed: afterwards `topic` maps to `name`, an
/// entry already there for that topic is replaced, and every other entry is
/// kept (keys are compared by their text, as `String`'s `Eq` and `Hash` do).
#[verifier::external_body]
pub(crate) fn insert_handler(m: &mut HandlerTable, topic: String, name: String)
    ensures
        handler_entries(*final(m)) == handler_entries(*old(m)).insert(topic@, name@),
{
    m.insert(topic, name);
}

/// Calls `DashMap::get` and copies out the value found. Claimed: the result
/// is the entry stored under `topic`, or `None` where there is none.
#[verifier::external_body]
pub(crate) fn lookup_handler(m: &HandlerTable, topic: &str) -> (r: Option<String>)
    ensures
        match r {
            Some(name) => handler_entries(*m).contains_key(topic@) && handler_entries(*m)[topic@]
                == name@,
            None => !handler_entries(*m).contains_key(topic@),
        },
{
    m.get(topic).map(|entry| entry.value().clone())
}

} // verus!
