//! Deleting a paste through the link on its page.
use vstd::prelude::*;
use crate::errors::Error;
use crate::handlers::{
    check_visibility, lemma_redirect_is_final, lemma_redirect_target_prefix, private_prefix,
    visibility_outcome,
};
use crate::handlers::delete::api::api_delete_outcome;
use crate::text::has_prefix;

verus! {

/// What the delete form does for a request that is not refused.
#[derive(Debug)]
pub enum FormAction {
    /// Answer with a temporary redirect to this path; nothing is deleted.
    Redirect(String),
    /// Delete the paste on behalf of the requesting user, then redirect
    /// (303 See Other) to this path.
    DeleteAndRedirect(String),
}

/// The view of a form action: the kind of action and its target path.
pub open spec fn form_action_view(a: FormAction) -> (bool, Seq<char>) {
    match a {
        FormAction::Redirect(t) => (false, t@),
        FormAction::DeleteAndRedirect(t) => (true, t@),
    }
}

/// The form's answer: a refusal of the visibility check stands; a redirect of it is
/// followed; a public paste cannot be deleted; a private one is deleted, and the
/// user is sent to `/`. The boolean is whether the paste is deleted.
pub open spec fn form_delete_outcome(is_private: bool, path: Seq<char>, id: Seq<char>) -> Result<
    (bool, Seq<char>),
    Error,
> {
    match visibility_outcome(is_private, path, id) {
        Err(e) => Err(e),
        Ok(Some(target)) => Ok((false, target)),
        Ok(None) => if is_private {
            Ok((true, seq!['/']))
        } else {
            Err(Error::Delete)
        },
    }
}

/// The view of a form delete result.
pub open spec fn form_result_view(r: Result<FormAction, Error>) -> Result<(bool, Seq<char>), Error> {
    match r {
        Ok(a) => Ok(form_action_view(a)),
        Err(e) => Err(e),
    }
}

/// Decide a delete request sent by the form on a paste's page, for the paste `id`
/// requested at `path`, whose visibility is `is_private`.
pub fn delete(is_private: bool, path: &str, id: &str) -> (r: Result<FormAction, Error>)
    ensures
        form_result_view(r) == form_delete_outcome(is_private, path@, id@),
{
    match check_visibility(is_private, path, id) {
        Err(e) => Err(e),
        Ok(Some(target)) => Ok(FormAction::Redirect(target)),
        Ok(None) => {
            if !is_private {
                return Err(Error::Delete);
            }
            proof {
                reveal_strlit("/");
                assert("/"@ =~= seq!['/']);
            }
            Ok(FormAction::DeleteAndRedirect("/".to_owned()))
        },
    }
}

/// The form deletes a paste only when it is private and requested under `/s/`.
pub proof fn lemma_form_deletes_only_private(is_private: bool, path: Seq<char>, id: Seq<char>)
    requires
        form_delete_outcome(is_private, path, id) matches Ok((true, _)),
    ensures
        is_private,
        has_prefix(path, private_prefix()),
{
}

/// The form and the API agree on which pastes are deleted: the form deletes a
/// paste requested at a path exactly when the API would, and where the API
/// refuses a paste as not deletable, so does the form.
pub proof fn lemma_form_agrees_with_api(is_private: bool, path: Seq<char>, id: Seq<char>)
    ensures
        (form_delete_outcome(is_private, path, id) matches Ok((true, _))) <==> api_delete_outcome(
            is_private,
            path,
            id,
        ) is Ok,
        api_delete_outcome(is_private, path, id) == Err::<(), Error>(Error::Delete)
            ==> form_delete_outcome(is_private, path, id) == Err::<(bool, Seq<char>), Error>(
            Error::Delete,
        ),
{
}

/// Where the visibility check redirects, the form redirects to the same target,
/// which lies under the paste's own prefix (`/s/` private, `/p/` public); posting
/// the form again at that target deletes a private paste and sends the user to
/// `/`, and refuses a public one as not deletable.
pub proof fn lemma_form_follows_visibility_redirect(is_private: bool, path: Seq<char>, id: Seq<char>)
    ensures
        visibility_outcome(is_private, path, id) matches Ok(Some(t)) ==> form_delete_outcome(
            is_private,
            path,
            id,
        ) == Ok::<(bool, Seq<char>), Error>((false, t)),
        form_delete_outcome(is_private, path, id) matches Ok((false, t)) ==> {
            &&& has_prefix(
                t,
                if is_private {
                    seq!['/', 's', '/']
                } else {
                    seq!['/', 'p', '/']
                },
            )
            &&& form_delete_outcome(is_private, t, id) == if is_private {
                Ok::<(bool, Seq<char>), Error>((true, seq!['/']))
            } else {
                Err::<(bool, Seq<char>), Error>(Error::Delete)
            }
        },
{
    if visibility_outcome(is_private, path, id) is Ok && visibility_outcome(is_private, path, id)->Ok_0 is Some {
        lemma_redirect_target_prefix(is_private, path, id);
        let target = crate::handlers::redirect_target(is_private, path, id);
        assert(has_prefix(target, target.take(3))) by {
            assert(target.subrange(0, 3) =~= target.take(3));
        }
        lemma_redirect_is_final(is_private, path, id, target, id);
        assert(target.take(3) =~= target.subrange(0, 3));
    }
}

} // verus!
