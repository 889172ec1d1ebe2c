//! The admin panel: reading the form that updates a paste.
use vstd::prelude::*;
use crate::text::{
    decimal, decimal_value, lemma_parse_u32_decimal, parse_u32, spec_parse_u32, str_equals,
};

verus! {

/// The fields of the admin form that updates a paste, as submitted.
pub struct UpdateForm {
    pub visibility: Option<String>,
    pub password: Option<String>,
    pub expires: Option<String>,
}

/// The changes to a paste that the admin requested; `None` leaves a property as it is.
pub struct Update {
    /// Make the paste private (`true`) or public (`false`).
    pub is_private: Option<bool>,
    /// Set this password.
    pub password: Option<String>,
    /// Set the expiration: `Some(None)` for never, `Some(Some(secs))` for
    /// `secs` seconds (never zero).
    pub expires: Option<Option<u32>>,
}

/// `private` asks for a private paste, `public` for a public one; anything else
/// asks for no change.
pub open spec fn requested_visibility(v: Option<Seq<char>>) -> Option<bool> {
    match v {
        Some(s) => if s == seq!['p', 'r', 'i', 'v', 'a', 't', 'e'] {
            Some(true)
        } else if s == seq!['p', 'u', 'b', 'l', 'i', 'c'] {
            Some(false)
        } else {
            None
        },
        None => None,
    }
}

/// An empty password asks for no change.
pub open spec fn requested_password(p: Option<Seq<char>>) -> Option<Seq<char>> {
    match p {
        Some(s) => if s.len() > 0 {
            Some(s)
        } else {
            None
        },
        None => None,
    }
}

/// `0` asks for no expiration; another number of seconds that `u32::from_str`
/// reads and that is not zero asks for that; anything else asks for no change.
pub open spec fn requested_expiration(e: Option<Seq<char>>) -> Option<Option<u32>> {
    match e {
        Some(s) => if s == seq!['0'] {
            Some(None)
        } else {
            match spec_parse_u32(s) {
                Some(secs) => if secs != 0 {
                    Some(Some(secs))
                } else {
                    None
                },
                None => None,
            }
        },
        None => None,
    }
}

/// The view of an optional string.
pub open spec fn opt_view(s: Option<String>) -> Option<Seq<char>> {
    match s {
        Some(t) => Some(t@),
        None => None,
    }
}

fn read_visibility(v: Option<String>) -> (r: Option<bool>)
    ensures
        r == requested_visibility(opt_view(v)),
{
    proof {
        reveal_strlit("private");
        reveal_strlit("public");
        assert("private"@ =~= seq!['p', 'r', 'i', 'v', 'a', 't', 'e']);
        assert("public"@ =~= seq!['p', 'u', 'b', 'l', 'i', 'c']);
    }
    match v {
        Some(s) => if str_equals(s.as_str(), "private") {
            Some(true)
        } else if str_equals(s.as_str(), "public") {
            Some(false)
        } else {
            None
        },
        None => None,
    }
}

fn read_password(p: Option<String>) -> (r: Option<String>)
    ensures
        opt_view(r) == requested_password(opt_view(p)),
{
    match p {
        Some(s) => if s.as_str().is_empty() {
            None
        } else {
            Some(s)
        },
        None => None,
    }
}

fn read_expiration(e: Option<String>) -> (r: Option<Option<u32>>)
    ensures
        r == requested_expiration(opt_view(e)),
{
    proof {
        reveal_strlit("0");
        assert("0"@ =~= seq!['0']);
    }
    match e {
        Some(s) => if str_equals(s.as_str(), "0") {
            Some(None)
        } else {
            match parse_u32(s.as_str()) {
                Some(secs) => if secs != 0 {
                    Some(Some(secs))
                } else {
                    None
                },
                None => None,
            }
        },
        None => None,
    }
}

/// Read the admin update form into the changes it requests.
pub fn update(form: UpdateForm) -> (r: Update)
    ensures
        r.is_private == requested_visibility(opt_view(form.visibility)),
        opt_view(r.password) == requested_password(opt_view(form.password)),
        r.expires == requested_expiration(opt_view(form.expires)),
{
    let UpdateForm { visibility, password, expires } = form;
    Update {
        is_private: read_visibility(visibility),
        password: read_password(password),
        expires: read_expiration(expires),
    }
}

/// The admin panel, where the admin is sent after deleting or updating a paste.
pub fn panel_path() -> (r: String)
    ensures
        r@ == seq!['/', 'a', 'd', 'm', 'i', 'n'],
{
    proof {
        reveal_strlit("/admin");
        assert("/admin"@ =~= seq!['/', 'a', 'd', 'm', 'i', 'n']);
    }
    "/admin".to_owned()
}

/// A requested expiration is never zero seconds: `0` means "never expires".
pub proof fn lemma_expiration_never_zero(e: Option<Seq<char>>)
    ensures
        !(requested_expiration(e) matches Some(Some(secs)) && secs == 0),
{
}

/// A non-empty password is set as given; an empty or missing one changes nothing.
pub proof fn lemma_password_kept_unless_empty(s: Seq<char>)
    ensures
        s.len() > 0 ==> requested_password(Some(s)) == Some(s),
        s.len() == 0 ==> requested_password(Some(s)) is None,
        requested_password(None) is None,
{
}

/// `private` makes a paste private, `public` makes it public, and any other value
/// or none leaves the visibility as it is.
pub proof fn lemma_visibility_choices(s: Seq<char>)
    ensures
        requested_visibility(Some(seq!['p', 'r', 'i', 'v', 'a', 't', 'e'])) == Some(true),
        requested_visibility(Some(seq!['p', 'u', 'b', 'l', 'i', 'c'])) == Some(false),
        s != seq!['p', 'r', 'i', 'v', 'a', 't', 'e'] && s != seq!['p', 'u', 'b', 'l', 'i', 'c']
            ==> requested_visibility(Some(s)) is None,
        requested_visibility(None) is None,
{
}

/// A number of seconds written in decimal sets that expiration; `0` removes the
/// expiration.
pub proof fn lemma_expiration_reads_seconds(secs: u32)
    ensures
        requested_expiration(Some(decimal(secs as nat))) == if secs == 0 {
            Some(None)
        } else {
            Some(Some(secs))
        },
        requested_expiration(None) is None,
{
    lemma_parse_u32_decimal(secs);
    if secs == 0 {
        assert(decimal(0) =~= seq!['0']);
    } else if decimal(secs as nat) == seq!['0'] {
        assert(seq!['0'].drop_last() =~= Seq::<char>::empty());
        assert(decimal_value(Seq::<char>::empty()) == 0);
        assert(decimal_value(seq!['0']) == 0);
    }
}

} // verus!
