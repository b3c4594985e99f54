use vstd::prelude::*;
use crate::events::EmbedderEvent;
use crate::webview::WebViewId;

verus! {

/// What happened to one tab of the tab strip while it was drawn.
#[derive(Clone, Copy, Debug, PartialEq, Eq, Structural)]
pub struct TabInteraction {
    pub webview_id: WebViewId,
    /// Clicked with the primary button.
    pub clicked: bool,
    /// Clicked with the middle button.
    pub middle_clicked: bool,
}

/// The last tab, in strip order, that was clicked with the primary button.
pub open spec fn last_clicked(tabs: Seq<TabInteraction>) -> Option<WebViewId>
    decreases tabs.len(),
{
    if tabs.len() == 0 {
        None
    } else if tabs.last().clicked {
        Some(tabs.last().webview_id)
    } else {
        last_clicked(tabs.drop_last())
    }
}

/// The last tab, in strip order, that was clicked with the middle button.
pub open spec fn last_middle_clicked(tabs: Seq<TabInteraction>) -> Option<WebViewId>
    decreases tabs.len(),
{
    if tabs.len() == 0 {
        None
    } else if tabs.last().middle_clicked {
        Some(tabs.last().webview_id)
    } else {
        last_middle_clicked(tabs.drop_last())
    }
}

/// What the close button emits: it closes the focused view, if there is one.
pub open spec fn close_button_events(focused: Option<WebViewId>, close_clicked: bool) -> Seq<EmbedderEvent> {
    match focused {
        Some(id) if close_clicked => seq![EmbedderEvent::CloseWebView(id)],
        _ => seq![],
    }
}

/// What selecting a tab emits: blur, then raise, then focus, so that the
/// target never has the focus while it is still behind another view.
pub open spec fn select_events(clicked: Option<WebViewId>) -> Seq<EmbedderEvent> {
    match clicked {
        Some(id) => seq![
            EmbedderEvent::BlurWebView,
            EmbedderEvent::RaiseWebViewToTop(id, true),
            EmbedderEvent::FocusWebView(id),
        ],
        None => seq![],
    }
}

/// What a middle click on a tab emits: it closes that tab and selects nothing.
pub open spec fn middle_click_events(middle_clicked: Option<WebViewId>) -> Seq<EmbedderEvent> {
    match middle_clicked {
        Some(id) => seq![EmbedderEvent::CloseWebView(id)],
        None => seq![],
    }
}

/// Everything the tab strip emits in one frame, in order.
pub open spec fn tab_bar_events_spec(
    focused: Option<WebViewId>,
    close_clicked: bool,
    tabs: Seq<TabInteraction>,
) -> Seq<EmbedderEvent> {
    close_button_events(focused, close_clicked) + select_events(last_clicked(tabs))
        + middle_click_events(last_middle_clicked(tabs))
}

/// Turns the interactions with the tab strip into engine commands: first the
/// close button, then the selection, then the middle click.
pub fn tab_bar_events(
    focused: Option<WebViewId>,
    close_clicked: bool,
    tabs: &Vec<TabInteraction>,
) -> (embedder_events: Vec<EmbedderEvent>)
    ensures
        embedder_events@ == tab_bar_events_spec(focused, close_clicked, tabs@),
{
    let mut embedder_events: Vec<EmbedderEvent> = Vec::new();
    if close_clicked {
        if let Some(webview_id) = focused {
            embedder_events.push(EmbedderEvent::CloseWebView(webview_id));
        }
    }

    let mut clicked_tab_webview_id: Option<WebViewId> = None;
    let mut middle_clicked_tab_webview_id: Option<WebViewId> = None;
    let mut i: usize = 0;
    while i < tabs.len()
        invariant
            i <= tabs.len(),
            clicked_tab_webview_id == last_clicked(tabs@.take(i as int)),
            middle_clicked_tab_webview_id == last_middle_clicked(tabs@.take(i as int)),
        decreases tabs.len() - i,
    {
        let tab = tabs[i];
        proof {
            let next = tabs@.take(i + 1);
            assert(next.drop_last() =~= tabs@.take(i as int));
        }
        if tab.clicked {
            clicked_tab_webview_id = Some(tab.webview_id);
        }
        if tab.middle_clicked {
            middle_clicked_tab_webview_id = Some(tab.webview_id);
        }
        i += 1;
    }
    assert(tabs@.take(i as int) =~= tabs@);

    let ghost before_select = embedder_events@;
    if let Some(clicked_tab_webview_id) = clicked_tab_webview_id {
        // Blur then raise then focus, to avoid clickjacking.
        embedder_events.push(EmbedderEvent::BlurWebView);
        embedder_events.push(EmbedderEvent::RaiseWebViewToTop(clicked_tab_webview_id, true));
        embedder_events.push(EmbedderEvent::FocusWebView(clicked_tab_webview_id));
    }
    assert(embedder_events@ =~= before_select + select_events(clicked_tab_webview_id));
    let ghost before_middle = embedder_events@;
    if let Some(webview_id) = middle_clicked_tab_webview_id {
        embedder_events.push(EmbedderEvent::CloseWebView(webview_id));
    }
    assert(embedder_events@ =~= before_middle + middle_click_events(middle_clicked_tab_webview_id));
    embedder_events
}

} // verus!
