//! Account settings: a private per-user row holding the color theme.

use vstd::prelude::*;

use crate::error::Error;
use crate::params::{join_fragments, params_view, SqlParam, SqlParamV};
use crate::store::Store;
use crate::util::{field_view, non_empty_trimmed, norm_field_spec};

verus! {

/// Account fields that can be adjusted. Settings are private to their owner.
#[derive(Debug, Clone, PartialEq, Eq)]
pub struct Settings {
    /// The color theme of the UI.
    pub color_theme: String,
}

/// The raw settings row as read from the store.
#[derive(Debug, Clone, PartialEq, Eq)]
pub struct DbSettings {
    pub color_theme: String,
}

impl From<DbSettings> for Settings {
    fn from(settings: DbSettings) -> (r: Settings) {
        Settings { color_theme: settings.color_theme }
    }
}

impl vstd::std_specs::convert::FromSpecImpl<DbSettings> for Settings {
    open spec fn obeys_from_spec() -> bool {
        true
    }

    open spec fn from_spec(settings: DbSettings) -> Settings {
        Settings { color_theme: settings.color_theme }
    }
}

/// A password change request; passwords are managed by the external identity
/// provider, so the library only carries the shape.
#[derive(Debug, Clone, PartialEq, Eq)]
pub struct PutPassword {
    pub old: String,
    pub new: String,
}

/// A sparse settings patch: a field is absent, or carries a new value.
/// A present field is trimmed, and treated as absent if that leaves nothing.
#[derive(Debug, Clone, PartialEq, Eq)]
pub struct PutSettings {
    /// The color theme of the UI.
    pub color_theme: Option<String>,
}

/// The theme every provisioned user starts with.
pub open spec fn default_theme_spec() -> Seq<char> {
    "light-theme"@
}

/// Executable counterpart of [`default_theme_spec`].
pub fn default_color_theme() -> (r: &'static str)
    ensures
        r@ == default_theme_spec(),
{
    "light-theme"
}

/// The `"column = ?"` fragments a settings patch produces, in the fixed
/// column order.
pub open spec fn settings_fragments(p: PutSettings) -> Seq<Seq<char>> {
    if p.color_theme is Some {
        seq!["color_theme = ?"@]
    } else {
        Seq::empty()
    }
}

/// The SET clause a settings patch produces.
pub open spec fn settings_update_str(p: PutSettings) -> Seq<char> {
    join_fragments(settings_fragments(p))
}

/// The ordered bound parameters a settings patch produces.
pub open spec fn settings_params(p: PutSettings) -> Seq<SqlParamV> {
    match p.color_theme {
        Option::Some(t) => seq![SqlParamV::Text(t@)],
        Option::None => Seq::empty(),
    }
}

impl PutSettings {
    /// Trims each present field and drops those that trim to nothing.
    pub fn normalized(&self) -> (r: PutSettings)
        ensures
            field_view(r.color_theme) == norm_field_spec(field_view(self.color_theme)),
    {
        PutSettings { color_theme: non_empty_trimmed(&self.color_theme) }
    }

    /// The SET clause for the present fields; empty when the patch is a
    /// no-op.
    pub fn update_str(&self) -> (r: String)
        ensures
            r@ == settings_update_str(*self),
    {
        if self.color_theme.is_some() {
            String::from_str("color_theme = ?")
        } else {
            String::new()
        }
    }

    /// The bound parameters matching [`PutSettings::update_str`], in the same
    /// order.
    pub fn update_params(&self) -> (r: Vec<SqlParam>)
        ensures
            params_view(r@) == settings_params(*self),
    {
        let mut out: Vec<SqlParam> = Vec::new();
        match &self.color_theme {
            Option::Some(t) => {
                out.push(SqlParam::Text(t.clone()));
            },
            Option::None => {},
        }
        proof {
            assert(params_view(out@) =~= settings_params(*self));
        }
        out
    }
}

/// Fetches the settings row owned by `username`.
pub fn get_settings(store: &Store, username: &str) -> (r: Result<Settings, Error>)
    requires
        store.wf(),
    ensures
        match r {
            Ok(s) => store.users().contains_key(username@) && s.color_theme@
                == store.users()[username@].1,
            Err(e) => match e {
                Error::NotFound => !store.users().contains_key(username@),
                Error::InternalError => true,
                _ => false,
            },
        },
{
    match store.q_user(username) {
        Ok(opt) => match opt {
            Option::Some(t) => Ok(Settings::from(DbSettings { color_theme: t.1 })),
            Option::None => Err(Error::NotFound),
        },
        Err(e) => Err(e),
    }
}

/// Applies a sparse settings patch to the row owned by `username`.
///
/// The row must exist; fields that are absent (or trim to nothing) are left
/// as they are, and a patch with no effective field succeeds without issuing
/// any statement.
pub fn put_settings(store: &mut Store, username: &str, patch: &PutSettings) -> (r: Result<
    (),
    Error,
>)
    requires
        old(store).wf(),
    ensures
        final(store).wf(),
        final(store).aliases() == old(store).aliases(),
        final(store).types() == old(store).types(),
        match r {
            Ok(()) => {
                &&& old(store).users().contains_key(username@)
                &&& final(store).users() == (match norm_field_spec(
                    field_view(patch.color_theme),
                ) {
                    Option::Some(t) => old(store).users().insert(
                        username@,
                        (old(store).users()[username@].0, t),
                    ),
                    Option::None => old(store).users(),
                })
            },
            Err(e) => match e {
                Error::NotFound => !old(store).users().contains_key(username@)
                    && final(store).users() == old(store).users(),
                Error::InternalError => final(store).users() == old(store).users(),
                _ => false,
            },
        },
{
    let p = patch.normalized();
    match store.q_user(username) {
        Ok(opt) => {
            if opt.is_none() {
                return Err(Error::NotFound);
            }
        },
        Err(e) => {
            return Err(e);
        },
    }
    let upd = p.update_str();
    proof {
        reveal_strlit("color_theme = ?");
    }
    if upd.as_str().is_empty() {
        return Ok(());
    }
    match &p.color_theme {
        Option::Some(theme) => store.x_update_settings(username, theme.as_str()),
        Option::None => {
            proof {
                assert(false);
            }
            Ok(())
        },
    }
}

} // verus!
