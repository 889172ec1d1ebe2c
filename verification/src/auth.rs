//! Access to the admin panel by HTTP basic authentication.
use vstd::prelude::*;
use crate::text::str_equals;

verus! {

/// Proof that a request carries the admin's credentials.
pub struct AdminAuth;

/// The answer to a request without the admin's credentials.
pub struct AuthRejection {
    /// The HTTP status code.
    pub status: u16,
    /// The value of the `WWW-Authenticate` header.
    pub www_authenticate: String,
    /// The response body.
    pub body: String,
}

/// The credentials are those of the admin.
pub open spec fn is_admin(credentials: Option<(Seq<char>, Seq<char>)>, user: Seq<char>, password: Seq<char>) -> bool {
    credentials matches Some((u, p)) && u == user && p == password
}

impl AdminAuth {
    /// Admit a request whose basic authentication (`Some((username, password))`,
    /// or `None` where the request has none or a malformed one) names the admin
    /// user `expected_user` with password `expected_password`; refuse any other
    /// with `401 Unauthorized` and a challenge for the realm "Admin Panel".
    pub fn from_credentials(
        credentials: Option<(&str, &str)>,
        expected_user: &str,
        expected_password: &str,
    ) -> (r: Result<AdminAuth, AuthRejection>)
        ensures
            r is Ok <==> is_admin(
                match credentials {
                    Some((u, p)) => Some((u@, p@)),
                    None => None,
                },
                expected_user@,
                expected_password@,
            ),
            r matches Err(rejection) ==> rejection.status == 401
                && rejection.www_authenticate@ == "Basic realm=\"Admin Panel\""@
                && rejection.body@ == "Unauthorized"@,
    {
        if let Some((user, password)) = credentials {
            if str_equals(user, expected_user) && str_equals(password, expected_password) {
                return Ok(AdminAuth);
            }
        }
        Err(
            AuthRejection {
                status: 401,
                www_authenticate: "Basic realm=\"Admin Panel\"".to_owned(),
                body: "Unauthorized".to_owned(),
            },
        )
    }
}

/// Exactly the admin's own user name and password are admitted: that pair is
/// accepted, any accepted pair is that pair, and a request without credentials
/// is refused.
pub proof fn lemma_only_admin_admitted(
    user: Seq<char>,
    password: Seq<char>,
    given_user: Seq<char>,
    given_password: Seq<char>,
)
    ensures
        is_admin(Some((user, password)), user, password),
        is_admin(Some((given_user, given_password)), user, password) ==> given_user == user
            && given_password == password,
        !is_admin(None, user, password),
{
}

} // verus!
