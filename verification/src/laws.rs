//! General laws of the library, stated and proved over the same spec-level
//! models the repository contracts use.

use vstd::prelude::*;

use crate::account::{default_theme_spec, settings_fragments, settings_params, PutSettings};
use crate::alias::{
    alias_fragments, alias_params, lemma_canonical_types, type_from_name_spec, PutAlias,
};
use crate::store::canonical_alias_types;
use crate::user::provision_spec;

verus! {

/// For every alias patch, the bound-parameter list is exactly as long as the
/// fragment list the SET clause joins: each present field contributes one
/// `"column = ?"` fragment and one parameter, in the same order.
pub proof fn lemma_alias_params_match_fragments(p: PutAlias, type_id: Option<i64>)
    requires
        (p.typ is Some) <==> (type_id is Some),
    ensures
        alias_params(p, type_id).len() == alias_fragments(p).len(),
{
}

/// For every settings patch, the bound-parameter list is exactly as long as
/// the fragment list the SET clause joins.
pub proof fn lemma_settings_params_match_fragments(p: PutSettings)
    ensures
        settings_params(p).len() == settings_fragments(p).len(),
{
}

/// Deleting an alias name twice leaves exactly the store one delete leaves:
/// the second delete finds nothing and removes nothing.
pub proof fn lemma_delete_idempotent(
    aliases: Map<Seq<char>, (Seq<char>, i64, Seq<char>, u64)>,
    name: Seq<char>,
)
    ensures
        aliases.remove(name).remove(name) == aliases.remove(name),
{
    assert(aliases.remove(name).remove(name) =~= aliases.remove(name));
}

/// Provisioning one username twice, at whatever two times the clock read,
/// leaves exactly the state the first call produced: the directory holds a
/// single row for the name, and its creation time is the first call's and
/// never moves. Both calls run against the serialized store, so no third
/// interleaving exists.
pub proof fn lemma_provision_idempotent(
    users: Map<Seq<char>, (u64, Seq<char>)>,
    name: Seq<char>,
    t1: u64,
    t2: u64,
)
    ensures
        provision_spec(provision_spec(users, name, t1), name, t2) == provision_spec(
            users,
            name,
            t1,
        ),
        !users.contains_key(name) ==> provision_spec(users, name, t1)[name] == (
            t1,
            default_theme_spec(),
        ),
        users.contains_key(name) ==> provision_spec(users, name, t1) == users,
{
}

/// Round trip: after creating an alias, fetching it by name yields exactly
/// the stored name, content, author and creation time, and the stored type id
/// resolves back to precisely the category name the create resolved, because
/// no two canonical categories share an id.
pub proof fn lemma_create_then_get(
    aliases: Map<Seq<char>, (Seq<char>, i64, Seq<char>, u64)>,
    name: Seq<char>,
    content: Seq<char>,
    category: Seq<char>,
    author: Seq<char>,
    created_at: u64,
)
    requires
        canonical_alias_types().contains_key(category),
    ensures
        ({
            let id = canonical_alias_types()[category];
            let created = aliases.insert(name, (content, id, author, created_at));
            &&& created.contains_key(name)
            &&& created[name] == (content, id, author, created_at)
            &&& forall|k: Seq<char>|
                canonical_alias_types().contains_pair(k, id) ==> k == category
        }),
{
    lemma_canonical_types();
    let t = type_from_name_spec(category).unwrap();
    assert(canonical_alias_types()[category] == t.id_spec());
    assert(t.name_spec() == category);
}

} // verus!
