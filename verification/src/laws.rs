use vstd::prelude::*;
use crate::events::{drained, lemma_translatable_prefix, translatable_prefix, EmbedderEvent, MinibrowserEvent};
use crate::geometry::Rect;
use crate::panel::resize_events;
use crate::tabs::{last_clicked, last_middle_clicked, tab_bar_events_spec, TabInteraction};
use crate::toolbar::{intent_if, ToolbarInteraction};
use crate::webview::{WebView, WebViewId};

verus! {

/// If tab `k` was clicked and no tab after it was, the selection goes to
/// tab `k`.
pub proof fn lemma_last_clicked_at(tabs: Seq<TabInteraction>, k: int)
    requires
        0 <= k < tabs.len(),
        tabs[k].clicked,
        forall|j: int| k < j < tabs.len() ==> !tabs[j].clicked,
    ensures
        last_clicked(tabs) == Some(tabs[k].webview_id),
    decreases tabs.len(),
{
    if k < tabs.len() - 1 {
        lemma_last_clicked_at(tabs.drop_last(), k);
    }
}

/// If no tab was clicked, nothing is selected.
pub proof fn lemma_none_clicked(tabs: Seq<TabInteraction>)
    requires
        forall|j: int| 0 <= j < tabs.len() ==> !tabs[j].clicked,
    ensures
        last_clicked(tabs).is_none(),
    decreases tabs.len(),
{
    if tabs.len() > 0 {
        lemma_none_clicked(tabs.drop_last());
    }
}

/// If tab `k` was middle-clicked and no tab after it was, the middle click
/// goes to tab `k`.
pub proof fn lemma_last_middle_clicked_at(tabs: Seq<TabInteraction>, k: int)
    requires
        0 <= k < tabs.len(),
        tabs[k].middle_clicked,
        forall|j: int| k < j < tabs.len() ==> !tabs[j].middle_clicked,
    ensures
        last_middle_clicked(tabs) == Some(tabs[k].webview_id),
    decreases tabs.len(),
{
    if k < tabs.len() - 1 {
        lemma_last_middle_clicked_at(tabs.drop_last(), k);
    }
}

/// If no tab was middle-clicked, no tab is closed by a middle click.
pub proof fn lemma_none_middle_clicked(tabs: Seq<TabInteraction>)
    requires
        forall|j: int| 0 <= j < tabs.len() ==> !tabs[j].middle_clicked,
    ensures
        last_middle_clicked(tabs).is_none(),
    decreases tabs.len(),
{
    if tabs.len() > 0 {
        lemma_none_middle_clicked(tabs.drop_last());
    }
}

/// A click on one tab, with nothing else touched in the tab strip, emits
/// blur, raise and focus for that tab, in this order and nothing else,
/// whichever view has the focus and also when none has.
pub proof fn lemma_click_blurs_raises_focuses(
    focused: Option<WebViewId>,
    tabs: Seq<TabInteraction>,
    k: int,
)
    requires
        0 <= k < tabs.len(),
        tabs[k].clicked,
        forall|j: int| 0 <= j < tabs.len() && j != k ==> !tabs[j].clicked,
        forall|j: int| 0 <= j < tabs.len() ==> !tabs[j].middle_clicked,
    ensures
        tab_bar_events_spec(focused, false, tabs) == seq![
            EmbedderEvent::BlurWebView,
            EmbedderEvent::RaiseWebViewToTop(tabs[k].webview_id, true),
            EmbedderEvent::FocusWebView(tabs[k].webview_id),
        ],
{
    lemma_last_clicked_at(tabs, k);
    lemma_none_middle_clicked(tabs);
    assert(tab_bar_events_spec(focused, false, tabs) =~= seq![
        EmbedderEvent::BlurWebView,
        EmbedderEvent::RaiseWebViewToTop(tabs[k].webview_id, true),
        EmbedderEvent::FocusWebView(tabs[k].webview_id),
    ]);
}

/// A middle click on one tab, focused or not, with nothing else touched in
/// the tab strip, emits one close for that tab and nothing that changes the
/// selection.
pub proof fn lemma_middle_click_closes_tab(
    focused: Option<WebViewId>,
    tabs: Seq<TabInteraction>,
    k: int,
)
    requires
        0 <= k < tabs.len(),
        tabs[k].middle_clicked,
        forall|j: int| 0 <= j < tabs.len() && j != k ==> !tabs[j].middle_clicked,
        forall|j: int| 0 <= j < tabs.len() ==> !tabs[j].clicked,
    ensures
        tab_bar_events_spec(focused, false, tabs) == seq![
            EmbedderEvent::CloseWebView(tabs[k].webview_id),
        ],
{
    lemma_last_middle_clicked_at(tabs, k);
    lemma_none_clicked(tabs);
    assert(tab_bar_events_spec(focused, false, tabs) =~= seq![
        EmbedderEvent::CloseWebView(tabs[k].webview_id),
    ]);
}

/// While a view's location is being edited, bringing it in line with the
/// engine leaves the text alone, whatever address the engine reports. Once
/// the edit is confirmed, the same step adopts the reported address.
pub proof fn lemma_sync_spares_edit_until_confirmed(edited: WebView, confirmed: WebView)
    requires
        edited.location_dirty,
        !confirmed.location_dirty,
        confirmed.current_url_string == edited.current_url_string,
    ensures
        edited.synced_location() == edited.location@,
        !edited.sync_changes_location(),
        confirmed.synced_location() == edited.reported_location(),
        confirmed.sync_changes_location() == (edited.reported_location() != confirmed.location@),
{
}

/// Once the location is being edited, it counts as edited after every
/// frame in which the user does not confirm it, and as unedited after every
/// frame in which the user confirms it with Enter, or with the Go button
/// without editing on.
pub proof fn lemma_edit_lasts_until_confirmed(toolbar: ToolbarInteraction)
    ensures
        !toolbar.go_clicked && !toolbar.confirmed_with_enter ==> toolbar.dirty_after(true),
        toolbar.confirmed_with_enter ==> !toolbar.dirty_after(true),
        toolbar.go_clicked && toolbar.edited.is_none() ==> !toolbar.dirty_after(true),
        toolbar.confirmed_with_enter ==> toolbar.intents().last() == MinibrowserEvent::Go,
        toolbar.go_clicked ==> toolbar.intents().contains(MinibrowserEvent::Go),
{
    if toolbar.go_clicked {
        let before = intent_if(toolbar.back_clicked, MinibrowserEvent::Back) + intent_if(
            toolbar.forward_clicked,
            MinibrowserEvent::Forward,
        );
        assert(toolbar.intents()[before.len() as int] == MinibrowserEvent::Go);
    }
}

/// A frame emits no resize when the rectangle it computed is the stored
/// one, and exactly one, carrying the computed rectangle, when it is not.
/// The rectangle is stored either way, so the same rectangle in the next
/// frame emits nothing.
pub proof fn lemma_resize_only_on_change(webview_id: WebViewId, stored: Rect, computed: Rect)
    ensures
        stored == computed ==> resize_events(webview_id, stored, computed).len() == 0,
        stored != computed ==> resize_events(webview_id, stored, computed) == seq![
            EmbedderEvent::MoveResizeWebView(webview_id, computed),
        ],
        resize_events(webview_id, computed, computed).len() == 0,
{
}

/// Without an address, a drain hands the engine no load at all, and
/// nothing from the first `Go` on: a queue that starts with `Go` yields
/// nothing.
pub proof fn lemma_drain_without_address(queue: Seq<MinibrowserEvent>, webview_id: WebViewId)
    ensures
        drained(queue, webview_id, None).len() <= queue.len(),
        forall|i: int|
            0 <= i < drained(queue, webview_id, None).len() ==> !(#[trigger] drained(
                queue,
                webview_id,
                None,
            )[i] is LoadUrl),
        forall|i: int|
            0 <= i < queue.len() && queue[i] == MinibrowserEvent::Go ==> drained(
                queue,
                webview_id,
                None,
            ).len() <= i,
{
    lemma_translatable_prefix(queue, false);
}

/// With an address, a drain translates the whole queue, and each `Go` in
/// it becomes a load of that address in the view that the drain was given.
pub proof fn lemma_drain_with_address(queue: Seq<MinibrowserEvent>, webview_id: WebViewId, url: String)
    ensures
        drained(queue, webview_id, Some(url)).len() == queue.len(),
        forall|i: int|
            0 <= i < queue.len() && queue[i] == MinibrowserEvent::Go ==> #[trigger] drained(
                queue,
                webview_id,
                Some(url),
            )[i] == EmbedderEvent::LoadUrl(webview_id, url),
{
    lemma_translatable_prefix(queue, true);
    assert(translatable_prefix(queue, true) == queue.len());
}

} // verus!
