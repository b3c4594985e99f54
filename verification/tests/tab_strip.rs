use minibrowser::blit::framebuffer_name;
use minibrowser::events::EmbedderEvent;
use minibrowser::geometry::Rect;
use minibrowser::panel::{FrameInteraction, Minibrowser};
use minibrowser::tabs::{tab_bar_events, TabInteraction};
use minibrowser::toolbar::ToolbarInteraction;
use minibrowser::webview::{WebView, WebViewId};

fn tab(id: u64) -> TabInteraction {
    TabInteraction { webview_id: WebViewId(id), clicked: false, middle_clicked: false }
}

fn clicked(id: u64) -> TabInteraction {
    TabInteraction { webview_id: WebViewId(id), clicked: true, middle_clicked: false }
}

fn middle_clicked(id: u64) -> TabInteraction {
    TabInteraction { webview_id: WebViewId(id), clicked: false, middle_clicked: true }
}

fn select(id: u64) -> Vec<EmbedderEvent> {
    vec![
        EmbedderEvent::BlurWebView,
        EmbedderEvent::RaiseWebViewToTop(WebViewId(id), true),
        EmbedderEvent::FocusWebView(WebViewId(id)),
    ]
}

#[test]
fn click_on_another_tab_blurs_raises_focuses() {
    let tabs = vec![tab(1), clicked(2), tab(3)];
    assert_eq!(tab_bar_events(Some(WebViewId(1)), false, &tabs), select(2));
}

#[test]
fn click_without_a_focused_view_still_blurs_first() {
    let tabs = vec![clicked(7)];
    assert_eq!(tab_bar_events(None, false, &tabs), select(7));
}

#[test]
fn click_on_the_focused_tab_selects_it_again() {
    let tabs = vec![clicked(1), tab(2)];
    assert_eq!(tab_bar_events(Some(WebViewId(1)), false, &tabs), select(1));
}

#[test]
fn middle_click_closes_that_tab_only() {
    let tabs = vec![tab(1), tab(2), middle_clicked(3)];
    assert_eq!(
        tab_bar_events(Some(WebViewId(1)), false, &tabs),
        vec![EmbedderEvent::CloseWebView(WebViewId(3))]
    );
    let tabs = vec![middle_clicked(1), tab(2)];
    assert_eq!(
        tab_bar_events(Some(WebViewId(1)), false, &tabs),
        vec![EmbedderEvent::CloseWebView(WebViewId(1))]
    );
    assert_eq!(tab_bar_events(None, false, &tabs), vec![EmbedderEvent::CloseWebView(WebViewId(1))]);
}

#[test]
fn close_button_closes_the_focused_view() {
    let tabs = vec![tab(1), tab(2)];
    assert_eq!(
        tab_bar_events(Some(WebViewId(2)), true, &tabs),
        vec![EmbedderEvent::CloseWebView(WebViewId(2))]
    );
    assert_eq!(tab_bar_events(None, true, &tabs), vec![]);
    assert_eq!(tab_bar_events(Some(WebViewId(2)), false, &tabs), vec![]);
    assert_eq!(tab_bar_events(Some(WebViewId(2)), false, &vec![]), vec![]);
}

#[test]
fn the_last_tab_touched_wins_and_the_order_is_close_select_close() {
    let both = TabInteraction { webview_id: WebViewId(4), clicked: true, middle_clicked: true };
    let tabs = vec![clicked(1), middle_clicked(2), both, tab(5)];
    let mut expected = vec![EmbedderEvent::CloseWebView(WebViewId(9))];
    expected.extend(select(4));
    expected.push(EmbedderEvent::CloseWebView(WebViewId(4)));
    assert_eq!(tab_bar_events(Some(WebViewId(9)), true, &tabs), expected);
}

#[test]
fn frame_puts_the_tab_strip_before_the_resize() {
    let mut panel = Minibrowser::new(0, String::new());
    let mut webview = WebView {
        id: WebViewId(1),
        rect: Rect { x: 0, y: 0, width: 0, height: 0 },
        location: String::new(),
        location_dirty: false,
        current_url_string: None,
    };
    let content = Rect { x: 0, y: 80, width: 800, height: 520 };
    let interaction = FrameInteraction {
        close_clicked: false,
        tabs: vec![tab(1), clicked(2)],
        toolbar: ToolbarInteraction {
            back_clicked: false,
            forward_clicked: false,
            go_clicked: false,
            edited: None,
            confirmed_with_enter: false,
            bottom: 40,
        },
        content_rect: content,
    };
    let frame = panel.update(Some(&mut webview), interaction, None);
    let mut expected = select(2);
    expected.push(EmbedderEvent::MoveResizeWebView(WebViewId(1), content));
    assert_eq!(frame.embedder_events, expected);
}

#[test]
fn framebuffer_zero_is_the_default_framebuffer() {
    assert_eq!(framebuffer_name(0), None);
    assert_eq!(framebuffer_name(1), Some(1));
    assert_eq!(framebuffer_name(u32::MAX), Some(u32::MAX));
}
