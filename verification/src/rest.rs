//! Request and response bodies of the REST API, and the decisions its
//! handlers make.

use vstd::prelude::*;

use crate::bookmark::BookmarkStore;
use crate::controller::{back_spec, forward_spec, reload_spec, BrowserController};
use crate::model::opt_view;

verus! {

broadcast use vstd::string::group_string_axioms;

/// Body of `POST /api/v1/bookmarks`.
#[derive(Debug)]
pub struct AddBookmarkBody {
    pub title: String,
    pub url: String,
}

/// Body of `POST /api/v1/navigate`.
#[derive(Debug)]
pub struct NavigateBody {
    /// Direction: "back", "forward", or "reload".
    pub direction: String,
}

/// Response of `POST /api/v1/navigate`.
#[derive(Debug)]
pub struct NavigateResult {
    pub ok: bool,
    pub current_url: Option<String>,
}

/// Performs the navigation that `body` asks for: `"back"`, `"forward"`, and
/// a reload for any other direction. The result is always `ok` and carries
/// the URL that the step reports.
pub fn navigate<S: BookmarkStore>(ctrl: &mut BrowserController<S>, body: &NavigateBody) -> (res:
    NavigateResult)
    ensures
        res.ok,
        body.direction@ == "back"@ ==> final(ctrl).model() == back_spec(old(ctrl).model())
            && opt_view(res.current_url) == (if old(ctrl).model().history.can_go_back() {
            final(ctrl).model().current_url
        } else {
            None
        }),
        body.direction@ == "forward"@ ==> final(ctrl).model() == forward_spec(old(ctrl).model())
            && opt_view(res.current_url) == (if old(ctrl).model().history.can_go_forward() {
            final(ctrl).model().current_url
        } else {
            None
        }),
        body.direction@ != "back"@ && body.direction@ != "forward"@ ==> final(ctrl).model()
            == reload_spec(old(ctrl).model()) && opt_view(res.current_url) == final(ctrl).model().current_url,
        final(ctrl).stored() == old(ctrl).stored(),
{
    let direction = crate::controller::NavigationDirection::from_name(body.direction.as_str());
    let current_url = ctrl.navigate(direction);
    NavigateResult { ok: true, current_url }
}

/// HTTP status of `DELETE /api/v1/bookmarks/{id}`: 200 when a bookmark was
/// removed, 404 when none had the id.
pub fn removal_status(removed: bool) -> (res: u16)
    ensures
        removed ==> res == 200,
        !removed ==> res == 404,
{
    if removed {
        200
    } else {
        404
    }
}

} // verus!
