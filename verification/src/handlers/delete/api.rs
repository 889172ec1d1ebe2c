//! Deleting a paste through the JSON API.
use vstd::prelude::*;
use crate::errors::Error;
use crate::handlers::{check_visibility, private_prefix, public_prefix, visibility_outcome};
use crate::text::has_prefix;

verus! {

/// What the API answers a delete request with, before any deletion: `Ok` when
/// the owner's paste is to be deleted, else the refusal. A request that the
/// visibility check refuses or would redirect is answered "not found"; a public
/// paste cannot be deleted.
pub open spec fn api_delete_outcome(is_private: bool, path: Seq<char>, id: Seq<char>) -> Result<(), Error> {
    match visibility_outcome(is_private, path, id) {
        Ok(None) => if is_private {
            Ok(())
        } else {
            Err(Error::Delete)
        },
        _ => Err(Error::NotFound),
    }
}

/// Decide a `DELETE` request for the paste `id`, requested at `path`, whose
/// visibility is `is_private`. `Ok(())` means that the deletion on behalf of the
/// requesting user is to be carried out.
pub fn delete(is_private: bool, path: &str, id: &str) -> (r: Result<(), Error>)
    ensures
        r == api_delete_outcome(is_private, path@, id@),
{
    match check_visibility(is_private, path, id) {
        Err(_) => Err(Error::NotFound),
        Ok(Some(_)) => Err(Error::NotFound),
        Ok(None) => {
            if !is_private {
                Err(Error::Delete)
            } else {
                Ok(())
            }
        },
    }
}

/// The API deletes a paste exactly when it is private and requested under `/s/`;
/// it refuses as "may not delete" exactly a public paste requested under `/p/`;
/// every other request is answered "not found".
pub proof fn lemma_api_delete_cases(is_private: bool, path: Seq<char>, id: Seq<char>)
    ensures
        api_delete_outcome(is_private, path, id) is Ok <==> (is_private && has_prefix(
            path,
            private_prefix(),
        )),
        api_delete_outcome(is_private, path, id) == Err::<(), Error>(Error::Delete) <==> (
        !is_private && has_prefix(path, public_prefix()) && !has_prefix(path, private_prefix())),
{
}

/// The API deletes a paste exactly when it is private and the request's path
/// begins with `/s/`; a public paste under `/p/` is refused as not deletable; any
/// other request is answered "not found".
pub proof fn lemma_api_delete_by_path(is_private: bool, path: Seq<char>, id: Seq<char>)
    ensures
        (is_private && has_prefix(path, seq!['/', 's', '/'])) ==> api_delete_outcome(is_private, path, id)
            == Ok::<(), Error>(()),
        (!is_private && has_prefix(path, seq!['/', 'p', '/'])) ==> api_delete_outcome(is_private, path, id)
            == Err::<(), Error>(Error::Delete),
        !(is_private && has_prefix(path, seq!['/', 's', '/'])) && !(!is_private && has_prefix(
            path,
            seq!['/', 'p', '/'],
        )) ==> api_delete_outcome(is_private, path, id) == Err::<(), Error>(Error::NotFound),
{
    if has_prefix(path, seq!['/', 'p', '/']) {
        assert(path[1] == 'p');
    }
}

} // verus!
