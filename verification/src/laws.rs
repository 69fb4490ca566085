use vstd::prelude::*;

use crate::events::{Event, Key};
use crate::popup::{spec_input_status, Popup, PopupStatus};
use crate::response::ResponseType;
use crate::{
    spec_on_event_post, spec_update_post, Action, DispatchJob, Marge,
};

verus! {

/// Clearing the selection always takes the cursor away and unpins the
/// active kind's entry, whatever the state was before.
pub proof fn lemma_unselect_clears(pre: Marge, post: Marge, r: Option<DispatchJob>)
    requires
        spec_update_post(pre, Action::Unselect, post, r),
    ensures
        post.ui.selected is None,
        r is None,
        pre.response_t == Some(ResponseType::Domains) ==> post.config.domain is None
            && post.ui.sel_domain is None,
        pre.response_t == Some(ResponseType::Lists) ==> post.config.list is None
            && post.ui.sel_list is None,
        pre.response_t == Some(ResponseType::Members) ==> post.config.member is None,
        pre.response_t == Some(ResponseType::Messages) ==> post.config.message is None,
{
}

/// Asking to add while the held-messages view is active never opens a
/// popup and touches neither the displayed list nor what is pinned; only
/// the status line reports that adding is not supported there.
pub proof fn lemma_add_unsupported_on_messages(pre: Marge, post: Marge, r: Option<DispatchJob>)
    requires
        spec_update_post(pre, Action::Add, post, r),
        pre.response_t == Some(ResponseType::Messages),
    ensures
        post.popup == pre.popup,
        post.ui.list_vec == pre.ui.list_vec,
        post.ui.selected == pre.ui.selected,
        post.config == pre.config,
        post.ui.status@ == "Sorry, don't know yet how to add new items here..."@,
        r is None,
{
}

/// A keystroke that an active popup answers with a cancel closes it and
/// enqueues nothing; one it answers with a submit enqueues exactly one
/// submission command and nothing else, and the rest of the state stays.
pub proof fn lemma_popup_signals(pre: Marge, k: Key, post: Marge, r: Option<Action>, p: Popup)
    requires
        pre.popup == Some(p),
        spec_on_event_post(pre, Event::Key(k), post, r),
    ensures
        spec_input_status(p, k) == PopupStatus::Cancel ==> post.popup is None && r is None,
        spec_input_status(p, k) == PopupStatus::Submit ==> r == Some(Action::PopupSubmit),
        post.config == pre.config,
        post.ui == pre.ui,
        post.should_quit == pre.should_quit,
{
}

} // verus!
