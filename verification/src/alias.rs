//! The shared alias table: key/value text replacements with a category.
//!
//! Each alias has a unique, case-sensitive name and a content value. The
//! category is stored as a foreign key into the `alias_types` lookup table
//! and is resolved from its human-readable name during writes; a write naming
//! an unknown category fails before anything is stored.

use vstd::prelude::*;

use crate::error::Error;
use crate::params::{join_fragments, params_view, SqlParam, SqlParamV};
use crate::store::{canonical_alias_types, Store};
use crate::util::{field_view, non_empty_trimmed, norm_field_spec, str_eq, trim, trim_spec};

verus! {

/// The enumerated alias categories.
#[derive(Debug, Clone, Copy, PartialEq, Eq, Structural)]
pub enum AliasType {
    Text,
    Image,
    Gif,
    Emote,
    AnimatedEmote,
}

impl AliasType {
    /// The category's name in the lookup table.
    pub open spec fn name_spec(self) -> Seq<char> {
        match self {
            AliasType::Text => "Text"@,
            AliasType::Image => "Image"@,
            AliasType::Gif => "Gif"@,
            AliasType::Emote => "Emote"@,
            AliasType::AnimatedEmote => "AnimatedEmote"@,
        }
    }

    /// The category's id in the lookup table.
    pub open spec fn id_spec(self) -> i64 {
        match self {
            AliasType::Text => 1,
            AliasType::Image => 2,
            AliasType::Gif => 3,
            AliasType::Emote => 4,
            AliasType::AnimatedEmote => 5,
        }
    }

    /// The category's name, as stored in the lookup table.
    pub fn name(&self) -> (r: &'static str)
        ensures
            r@ == self.name_spec(),
    {
        match self {
            AliasType::Text => "Text",
            AliasType::Image => "Image",
            AliasType::Gif => "Gif",
            AliasType::Emote => "Emote",
            AliasType::AnimatedEmote => "AnimatedEmote",
        }
    }
}

/// The category whose lookup-table name is `s`, if any.
pub open spec fn type_from_name_spec(s: Seq<char>) -> Option<AliasType> {
    if s == "Text"@ {
        Option::Some(AliasType::Text)
    } else if s == "Image"@ {
        Option::Some(AliasType::Image)
    } else if s == "Gif"@ {
        Option::Some(AliasType::Gif)
    } else if s == "Emote"@ {
        Option::Some(AliasType::Emote)
    } else if s == "AnimatedEmote"@ {
        Option::Some(AliasType::AnimatedEmote)
    } else {
        Option::None
    }
}

/// Parses a category from its lookup-table name.
pub fn type_from_name(s: &str) -> (r: Option<AliasType>)
    ensures
        r == type_from_name_spec(s@),
{
    if str_eq(s, "Text") {
        Option::Some(AliasType::Text)
    } else if str_eq(s, "Image") {
        Option::Some(AliasType::Image)
    } else if str_eq(s, "Gif") {
        Option::Some(AliasType::Gif)
    } else if str_eq(s, "Emote") {
        Option::Some(AliasType::Emote)
    } else if str_eq(s, "AnimatedEmote") {
        Option::Some(AliasType::AnimatedEmote)
    } else {
        Option::None
    }
}

/// The canonical lookup table pairs every category's name with its id, no
/// other name is a key, and no two categories share an id.
pub proof fn lemma_canonical_types()
    ensures
        forall|t: AliasType| #[trigger] canonical_alias_types().contains_pair(
            t.name_spec(),
            t.id_spec(),
        ),
        forall|k: Seq<char>| #[trigger] canonical_alias_types().contains_key(k)
            ==> type_from_name_spec(k) is Some && canonical_alias_types()[k]
            == type_from_name_spec(k).unwrap().id_spec(),
        forall|k: Seq<char>, t: AliasType| #[trigger] canonical_alias_types().contains_pair(
            k,
            t.id_spec(),
        ) ==> k == t.name_spec(),
{
    reveal_strlit("Text");
    reveal_strlit("Image");
    reveal_strlit("Gif");
    reveal_strlit("Emote");
    reveal_strlit("AnimatedEmote");
    assert("Text"@.len() == 4);
    assert("Image"@.len() == 5);
    assert("Gif"@.len() == 3);
    assert("Emote"@.len() == 5);
    assert("AnimatedEmote"@.len() == 13);
    assert("Image"@[0] == 'I');
    assert("Emote"@[0] == 'E');
    assert("Image"@ != "Emote"@);
    assert(canonical_alias_types().contains_pair("Text"@, 1i64));
    assert(canonical_alias_types().contains_pair("Image"@, 2i64));
    assert(canonical_alias_types().contains_pair("Gif"@, 3i64));
    assert(canonical_alias_types().contains_pair("Emote"@, 4i64));
    assert(canonical_alias_types().contains_pair("AnimatedEmote"@, 5i64));
    assert(canonical_alias_types().dom() =~= set![
        "Text"@,
        "Image"@,
        "Gif"@,
        "Emote"@,
        "AnimatedEmote"@,
    ]);
}

/// A public alias entry.
#[derive(Debug, Clone, PartialEq, Eq)]
pub struct Alias {
    /// A short handle for users to easily remember the alias.
    pub name: String,

    /// The replacement text the alias stands for.
    pub content: String,

    /// The category describing the kind of content.
    pub typ: AliasType,

    /// The username of the account that first created the alias; immutable.
    pub author: String,

    /// Unix timestamp of when this alias was created; immutable.
    pub created_at: u64,
}

/// A request to create an alias. The category is given by name and resolved
/// against the lookup table inside the same serialized store access as the
/// insert.
#[derive(Debug, Clone, PartialEq, Eq)]
pub struct PostAlias {
    pub name: String,
    pub content: String,

    /// The category name, for example `"Text"`.
    pub typ: String,
}

/// A sparse alias patch: each field is absent or carries a new value. A
/// present field is trimmed, and treated as absent if that leaves nothing.
#[derive(Debug, Clone, PartialEq, Eq)]
pub struct PutAlias {
    /// New replacement text.
    pub content: Option<String>,

    /// New category name.
    pub typ: Option<String>,
}

/// The `"column = ?"` fragments an alias patch produces, in the fixed column
/// order (content before type).
pub open spec fn alias_fragments(p: PutAlias) -> Seq<Seq<char>> {
    (if p.content is Some {
        seq!["content = ?"@]
    } else {
        Seq::empty()
    }) + (if p.typ is Some {
        seq!["type = ?"@]
    } else {
        Seq::empty()
    })
}

/// The SET clause an alias patch produces.
pub open spec fn alias_update_str(p: PutAlias) -> Seq<char> {
    join_fragments(alias_fragments(p))
}

/// The ordered bound parameters an alias patch produces, once the category
/// name has been resolved to `type_id`.
pub open spec fn alias_params(p: PutAlias, type_id: Option<i64>) -> Seq<SqlParamV> {
    (match p.content {
        Option::Some(c) => seq![SqlParamV::Text(c@)],
        Option::None => Seq::empty(),
    }) + (match type_id {
        Option::Some(id) => seq![SqlParamV::Int(id)],
        Option::None => Seq::empty(),
    })
}

impl PutAlias {
    /// Trims each present field and drops those that trim to nothing.
    pub fn normalized(&self) -> (r: PutAlias)
        ensures
            field_view(r.content) == norm_field_spec(field_view(self.content)),
            field_view(r.typ) == norm_field_spec(field_view(self.typ)),
    {
        PutAlias {
            content: non_empty_trimmed(&self.content),
            typ: non_empty_trimmed(&self.typ),
        }
    }

    /// The SET clause for the present fields; empty when the patch is a
    /// no-op.
    pub fn update_str(&self) -> (r: String)
        ensures
            r@ == alias_update_str(*self),
    {
        let has_c = self.content.is_some();
        let has_t = self.typ.is_some();
        if has_c && has_t {
            let mut s = String::from_str("content = ?");
            s.append(", ");
            s.append("type = ?");
            proof {
                let fs = alias_fragments(*self);
                assert(fs =~= seq!["content = ?"@, "type = ?"@]);
                assert(fs.drop_first() =~= seq!["type = ?"@]);
                assert(join_fragments(fs.drop_first()) == "type = ?"@);
                assert(fs[0] == "content = ?"@);
                assert(join_fragments(fs) == fs[0] + ", "@ + join_fragments(fs.drop_first()));
            }
            s
        } else if has_c {
            proof {
                assert(alias_fragments(*self) =~= seq!["content = ?"@]);
            }
            String::from_str("content = ?")
        } else if has_t {
            proof {
                assert(alias_fragments(*self) =~= seq!["type = ?"@]);
            }
            String::from_str("type = ?")
        } else {
            proof {
                assert(alias_fragments(*self) =~= Seq::<Seq<char>>::empty());
            }
            String::new()
        }
    }

    /// The bound parameters matching [`PutAlias::update_str`], in the same
    /// order. The category, if present, must already be resolved to its id.
    pub fn update_params(&self, type_id: &Option<i64>) -> (r: Vec<SqlParam>)
        requires
            (self.typ is Some) <==> (type_id is Some),
        ensures
            params_view(r@) == alias_params(*self, *type_id),
    {
        let mut out: Vec<SqlParam> = Vec::new();
        match &self.content {
            Option::Some(c) => {
                out.push(SqlParam::Text(c.clone()));
            },
            Option::None => {},
        }
        match type_id {
            Option::Some(id) => {
                out.push(SqlParam::Int(*id));
            },
            Option::None => {},
        }
        proof {
            assert(params_view(out@) =~= alias_params(*self, *type_id));
        }
        out
    }
}

/// A patched alias row: present fields replace their column, the author and
/// creation time never change.
pub open spec fn patch_effect(
    row: (Seq<char>, i64, Seq<char>, u64),
    content: Option<Seq<char>>,
    type_id: Option<i64>,
) -> (Seq<char>, i64, Seq<char>, u64) {
    (
        match content {
            Option::Some(c) => c,
            Option::None => row.0,
        },
        match type_id {
            Option::Some(t) => t,
            Option::None => row.1,
        },
        row.2,
        row.3,
    )
}

/// The row produced by binding an ordered parameter list against a row: a
/// text parameter carries the content column, an integer parameter the type
/// column.
pub open spec fn apply_params_spec(
    row: (Seq<char>, i64, Seq<char>, u64),
    ps: Seq<SqlParamV>,
) -> (Seq<char>, i64, Seq<char>, u64) {
    if ps.len() == 2 {
        match (ps[0], ps[1]) {
            (SqlParamV::Text(c), SqlParamV::Int(t)) => (c, t, row.2, row.3),
            _ => row,
        }
    } else if ps.len() == 1 {
        match ps[0] {
            SqlParamV::Text(c) => (c, row.1, row.2, row.3),
            SqlParamV::Int(t) => (row.0, t, row.2, row.3),
        }
    } else {
        row
    }
}

/// Issues the single UPDATE statement for a built parameter list.
fn apply_alias_update(store: &mut Store, name: &str, prms: &Vec<SqlParam>) -> (r: Result<
    (),
    Error,
>)
    requires
        old(store).wf(),
        1 <= prms@.len() <= 2,
        prms@.len() == 2 ==> prms@[0] is Text && prms@[1] is Int,
    ensures
        final(store).wf(),
        final(store).users() == old(store).users(),
        final(store).types() == old(store).types(),
        match r {
            Ok(()) => final(store).aliases() == (if old(store).aliases().contains_key(name@) {
                old(store).aliases().insert(
                    name@,
                    apply_params_spec(old(store).aliases()[name@], params_view(prms@)),
                )
            } else {
                old(store).aliases()
            }),
            Err(e) => e == Error::InternalError && final(store).aliases() == old(store).aliases(),
        },
{
    if prms.len() == 2 {
        match (&prms[0], &prms[1]) {
            (SqlParam::Text(c), SqlParam::Int(t)) => store.x_update_alias_both(
                name,
                c.as_str(),
                *t,
            ),
            _ => {
                proof {
                    assert(false);
                }
                Err(Error::InternalError)
            },
        }
    } else {
        match &prms[0] {
            SqlParam::Text(c) => store.x_update_alias_content(name, c.as_str()),
            SqlParam::Int(t) => store.x_update_alias_type(name, *t),
        }
    }
}

/// Fetches the alias named `name`.
pub fn get_by_name(store: &Store, name: &str) -> (r: Result<Alias, Error>)
    requires
        store.wf(),
    ensures
        match r {
            Ok(a) => {
                &&& store.aliases().contains_key(name@)
                &&& a.name@ == name@
                &&& a.content@ == store.aliases()[name@].0
                &&& store.types().contains_pair(a.typ.name_spec(), store.aliases()[name@].1)
                &&& a.author@ == store.aliases()[name@].2
                &&& a.created_at == store.aliases()[name@].3
            },
            Err(e) => match e {
                Error::NotFound => !store.aliases().contains_key(name@),
                Error::InternalError => true,
                _ => false,
            },
        },
{
    let row = match store.q_alias(name) {
        Ok(opt) => match opt {
            Option::Some(t) => t,
            Option::None => {
                return Err(Error::NotFound);
            },
        },
        Err(e) => {
            return Err(e);
        },
    };
    let tyname = match store.q_category(row.1) {
        Ok(opt) => match opt {
            Option::Some(n) => n,
            Option::None => {
                return Err(Error::InternalError);
            },
        },
        Err(e) => {
            return Err(e);
        },
    };
    let typ = match type_from_name(tyname.as_str()) {
        Option::Some(t) => t,
        Option::None => {
            return Err(Error::InternalError);
        },
    };
    Ok(Alias { name: name.to_owned(), content: row.0, typ, author: row.2, created_at: row.3 })
}

/// Fetches every alias, in store order.
pub fn get_all(store: &Store) -> (r: Result<Vec<Alias>, Error>)
    requires
        store.wf(),
    ensures
        match r {
            Ok(v) => {
                &&& v@.len() == store.aliases().len()
                &&& forall|i: int|
                    0 <= i < v@.len() ==> {
                        let a = #[trigger] v@[i];
                        &&& store.aliases().contains_key(a.name@)
                        &&& a.content@ == store.aliases()[a.name@].0
                        &&& store.types().contains_pair(
                            a.typ.name_spec(),
                            store.aliases()[a.name@].1,
                        )
                        &&& a.author@ == store.aliases()[a.name@].2
                        &&& a.created_at == store.aliases()[a.name@].3
                    }
                &&& forall|i: int, j: int|
                    0 <= i < j < v@.len() ==> (#[trigger] v@[i]).name@ != (#[trigger] v@[j]).name@
                &&& forall|k: Seq<char>|
                    #[trigger] store.aliases().contains_key(k) ==> exists|i: int|
                        0 <= i < v@.len() && (#[trigger] v@[i]).name@ == k
            },
            Err(e) => e == Error::InternalError,
        },
{
    let rows = match store.q_all_aliases() {
        Ok(rows) => rows,
        Err(e) => {
            return Err(e);
        },
    };
    let mut out: Vec<Alias> = Vec::new();
    let mut idx: usize = 0;
    while idx < rows.len()
        invariant
            store.wf(),
            idx <= rows@.len(),
            out@.len() == idx,
            forall|i: int|
                0 <= i < rows@.len() ==> store.aliases().contains_pair(
                    (#[trigger] rows@[i]).0@,
                    (rows@[i].1@, rows@[i].2, rows@[i].3@, rows@[i].4),
                ),
            forall|j: int|
                0 <= j < idx ==> {
                    let a = #[trigger] out@[j];
                    &&& a.name@ == rows@[j].0@
                    &&& a.content@ == rows@[j].1@
                    &&& store.types().contains_pair(a.typ.name_spec(), rows@[j].2)
                    &&& a.author@ == rows@[j].3@
                    &&& a.created_at == rows@[j].4
                },
        decreases rows@.len() - idx,
    {
        let row = &rows[idx];
        let tyname = match store.q_category(row.2) {
            Ok(opt) => match opt {
                Option::Some(n) => n,
                Option::None => {
                    return Err(Error::InternalError);
                },
            },
            Err(e) => {
                return Err(e);
            },
        };
        let typ = match type_from_name(tyname.as_str()) {
            Option::Some(t) => t,
            Option::None => {
                return Err(Error::InternalError);
            },
        };
        out.push(
            Alias {
                name: row.0.clone(),
                content: row.1.clone(),
                typ,
                author: row.3.clone(),
                created_at: row.4,
            },
        );
        idx = idx + 1;
    }
    proof {
        assert forall|k: Seq<char>| #[trigger] store.aliases().contains_key(k) implies exists|
            i: int,
        | 0 <= i < out@.len() && (#[trigger] out@[i]).name@ == k by {
            let i = choose|i: int| 0 <= i < rows@.len() && (#[trigger] rows@[i]).0@ == k;
            assert(out@[i].name@ == k);
        }
    }
    Ok(out)
}

/// Creates an alias from a request, on behalf of `author` at time
/// `created_at`.
///
/// The name and content must be non-empty after trimming; the name must be
/// unused; the category name must exist in the lookup table, which is checked
/// in the same serialized store access as the insert, so nothing is written
/// when it does not.
pub fn post_alias(store: &mut Store, input: &PostAlias, author: &str, created_at: u64) -> (r:
    Result<(), Error>)
    requires
        old(store).wf(),
    ensures
        final(store).wf(),
        final(store).users() == old(store).users(),
        final(store).types() == old(store).types(),
        ({
            let n = trim_spec(input.name@);
            let c = trim_spec(input.content@);
            let ty = trim_spec(input.typ@);
            match r {
                Ok(()) => {
                    &&& n.len() > 0 && c.len() > 0
                    &&& !old(store).aliases().contains_key(n)
                    &&& old(store).types().contains_key(ty)
                    &&& final(store).aliases() == old(store).aliases().insert(
                        n,
                        (c, old(store).types()[ty], author@, created_at),
                    )
                },
                Err(e) => final(store).aliases() == old(store).aliases() && match e {
                    Error::EmptyField(f) => (f@ == "name"@ && n.len() == 0) || (f@ == "content"@
                        && n.len() > 0 && c.len() == 0),
                    Error::AliasExists => n.len() > 0 && c.len() > 0 && old(
                        store,
                    ).aliases().contains_key(n),
                    Error::UnknownAliasType => n.len() > 0 && c.len() > 0 && !old(
                        store,
                    ).aliases().contains_key(n) && !old(store).types().contains_key(ty),
                    Error::InternalError => n.len() > 0 && c.len() > 0,
                    _ => false,
                },
            }
        }),
{
    let name_t = trim(input.name.as_str());
    if name_t.as_str().unicode_len() == 0 {
        return Err(Error::EmptyField("name"));
    }
    let content_t = trim(input.content.as_str());
    if content_t.as_str().unicode_len() == 0 {
        return Err(Error::EmptyField("content"));
    }
    let typ_t = trim(input.typ.as_str());
    match store.q_alias(name_t.as_str()) {
        Ok(opt) => {
            if opt.is_some() {
                return Err(Error::AliasExists);
            }
        },
        Err(e) => {
            return Err(e);
        },
    }
    let type_id = match store.q_type_id(typ_t.as_str()) {
        Ok(opt) => match opt {
            Option::Some(id) => id,
            Option::None => {
                return Err(Error::UnknownAliasType);
            },
        },
        Err(e) => {
            return Err(e);
        },
    };
    store.x_insert_alias(
        name_t.as_str(),
        content_t.as_str(),
        type_id,
        author,
        created_at,
    )
}

/// Applies a sparse patch to the alias named `name`.
///
/// The alias must exist; fields that are absent (or trim to nothing) are left
/// as they are; a patch with no effective field succeeds without issuing any
/// statement. A present category name is resolved in the same serialized
/// store access as the update, and an unknown name fails the whole operation
/// with nothing written, even when new content was supplied alongside it.
pub fn put_alias_by_name(store: &mut Store, name: &str, patch: &PutAlias) -> (r: Result<
    (),
    Error,
>)
    requires
        old(store).wf(),
    ensures
        final(store).wf(),
        final(store).users() == old(store).users(),
        final(store).types() == old(store).types(),
        ({
            let nc = norm_field_spec(field_view(patch.content));
            let nt = norm_field_spec(field_view(patch.typ));
            match r {
                Ok(()) => {
                    &&& old(store).aliases().contains_key(name@)
                    &&& (nc is None && nt is None) ==> final(store).aliases() == old(
                        store,
                    ).aliases()
                    &&& (nc is Some || nt is Some) ==> {
                        &&& (nt is Some ==> old(store).types().contains_key(nt.unwrap()))
                        &&& final(store).aliases() == old(store).aliases().insert(
                            name@,
                            patch_effect(
                                old(store).aliases()[name@],
                                nc,
                                match nt {
                                    Option::Some(t) => Option::Some(old(store).types()[t]),
                                    Option::None => Option::None,
                                },
                            ),
                        )
                    }
                },
                Err(e) => final(store).aliases() == old(store).aliases() && match e {
                    Error::NotFound => !old(store).aliases().contains_key(name@),
                    Error::UnknownAliasType => old(store).aliases().contains_key(name@)
                        && nt is Some && !old(store).types().contains_key(nt.unwrap()),
                    Error::InternalError => true,
                    _ => false,
                },
            }
        }),
{
    let p = patch.normalized();
    match store.q_alias(name) {
        Ok(opt) => {
            if opt.is_none() {
                return Err(Error::NotFound);
            }
        },
        Err(e) => {
            return Err(e);
        },
    }
    let upd = p.update_str();
    proof {
        reveal_strlit("content = ?");
        reveal_strlit("type = ?");
        reveal_strlit(", ");
    }
    if upd.as_str().is_empty() {
        return Ok(());
    }
    let type_id: Option<i64> = match &p.typ {
        Option::Some(t) => match store.q_type_id(t.as_str()) {
            Ok(opt) => match opt {
                Option::Some(id) => Option::Some(id),
                Option::None => {
                    return Err(Error::UnknownAliasType);
                },
            },
            Err(e) => {
                return Err(e);
            },
        },
        Option::None => Option::None,
    };
    let prms = p.update_params(&type_id);
    proof {
        assert(params_view(prms@).len() == alias_params(p, type_id).len());
        assert(apply_params_spec(
            old(store).aliases()[name@],
            alias_params(p, type_id),
        ) == patch_effect(
            old(store).aliases()[name@],
            field_view(p.content),
            type_id,
        ));
    }
    apply_alias_update(store, name, &prms)
}

/// Deletes the alias named `name`. Deleting an absent key is not an error:
/// the operation is idempotent and reports success either way.
pub fn delete_alias_by_name(store: &mut Store, name: &str) -> (r: Result<(), Error>)
    requires
        old(store).wf(),
    ensures
        final(store).wf(),
        final(store).users() == old(store).users(),
        final(store).types() == old(store).types(),
        match r {
            Ok(()) => final(store).aliases() == old(store).aliases().remove(name@),
            Err(e) => e == Error::InternalError && final(store).aliases() == old(store).aliases(),
        },
{
    store.x_delete_alias(name)
}

} // verus!
