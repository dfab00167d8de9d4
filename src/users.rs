use vstd::prelude::*;
use vstd::string::StringExecFns;

use crate::text::str_eq;

verus! {

/// The colours a user's pages are shown in.
#[derive(Debug, Clone, Copy, PartialEq, Eq, Structural)]
pub enum ColorScheme {
    Light,
    Dark,
    UseSystem,
}

impl Default for ColorScheme {
    fn default() -> (r: Self)
        ensures
            r == ColorScheme::UseSystem,
    {
        ColorScheme::UseSystem
    }
}

impl From<String> for ColorScheme {
    fn from(s: String) -> (r: Self) {
        if str_eq(s.as_str(), "Light") {
            ColorScheme::Light
        } else if str_eq(s.as_str(), "Dark") {
            ColorScheme::Dark
        } else {
            ColorScheme::UseSystem
        }
    }
}

impl vstd::std_specs::convert::FromSpecImpl<String> for ColorScheme {
    open spec fn obeys_from_spec() -> bool {
        true
    }

    open spec fn from_spec(s: String) -> ColorScheme {
        if s@ == "Light"@ {
            ColorScheme::Light
        } else if s@ == "Dark"@ {
            ColorScheme::Dark
        } else {
            ColorScheme::UseSystem
        }
    }
}

impl ColorScheme {
    pub open spec fn spec_name(self) -> Seq<char> {
        match self {
            ColorScheme::Light => "Light"@,
            ColorScheme::Dark => "Dark"@,
            ColorScheme::UseSystem => "UseSystem"@,
        }
    }

    /// The name under which the scheme is stored.
    pub fn name(&self) -> (r: String)
        ensures
            r@ == self.spec_name(),
    {
        match self {
            ColorScheme::Light => String::from_str("Light"),
            ColorScheme::Dark => String::from_str("Dark"),
            ColorScheme::UseSystem => String::from_str("UseSystem"),
        }
    }
}

/// A user of the platform.
#[derive(Debug)]
pub struct User {
    pub id: i64,
    pub email: String,
    pub bio: String,
    /// Name given by the identity provider.
    pub default_display_name: String,
    /// Name chosen by the user, where there is one.
    pub display_name: Option<String>,
    pub color_scheme: ColorScheme,
    pub default_language: String,
    /// When the account was made, in seconds since the epoch.
    pub created_at: i64,
}

impl User {
    /// The name shown for the user: the chosen one, else the default one.
    pub fn display_name(&self) -> (r: &str)
        ensures
            r@ == match self.display_name {
                Some(d) => d@,
                None => self.default_display_name@,
            },
    {
        match &self.display_name {
            Some(d) => d.as_str(),
            None => self.default_display_name.as_str(),
        }
    }

    /// A user not yet stored: no id, bio, chosen name, and the default scheme.
    pub fn temporary(email: String, display_name: String, default_language: &str, created_at: i64) -> (r:
        Self)
        ensures
            r.id == 0,
            r.email == email,
            r.bio@.len() == 0,
            r.default_display_name == display_name,
            r.display_name is None,
            r.color_scheme == ColorScheme::UseSystem,
            r.default_language@ == default_language@,
            r.created_at == created_at,
    {
        User {
            id: 0,
            email,
            bio: String::new(),
            default_display_name: display_name,
            display_name: None,
            color_scheme: ColorScheme::default(),
            default_language: String::from_str(default_language),
            created_at,
        }
    }
}

} // verus!
