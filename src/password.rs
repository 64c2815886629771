//! A password held in configuration, hidden whenever it is printed.
use vstd::prelude::*;
use vstd::string::StringExecFns;

verus! {

/// Wraps a secret so that logging a configuration never shows it.
#[derive(Clone)]
pub struct Password(String);

impl View for Password {
    type V = Seq<char>;

    closed spec fn view(&self) -> Seq<char> {
        self.0@
    }
}

impl PartialEq for Password {
    fn eq(&self, other: &Password) -> (r: bool) {
        self.0 == other.0
    }
}

impl vstd::std_specs::cmp::PartialEqSpecImpl for Password {
    open spec fn obeys_eq_spec() -> bool {
        true
    }

    open spec fn eq_spec(&self, other: &Password) -> bool {
        self@ == other@
    }
}

impl Eq for Password {

}

impl Password {
    pub fn new(s: String) -> (r: Self)
        ensures
            r@ == s@,
    {
        Password(s)
    }

    /// The real password.
    pub fn password(&self) -> (r: &str)
        ensures
            r@ == self@,
    {
        self.0.as_str()
    }

    /// What printing the password shows: a fixed mask, never the secret.
    pub fn to_string(&self) -> (r: String)
        ensures
            r@ == "[hidden]"@,
    {
        String::from_str("[hidden]")
    }

    /// What debug output of the password shows: the type and the mask.
    pub fn to_debug_string(&self) -> (r: String)
        ensures
            r@ == "Password([hidden])"@,
    {
        String::from_str("Password([hidden])")
    }
}

} // verus!
