use vstd::prelude::*;
use crate::geometry::{Point, Rect};
use crate::webview::WebViewId;

verus! {

/// An intent that the toolbar queues until the embedder next drains it.
#[derive(Clone, Copy, Debug, PartialEq, Eq, Structural)]
pub enum MinibrowserEvent {
    /// Go button clicked.
    Go,
    Back,
    Forward,
}

/// A direction through a view's session history, and how many entries to move.
#[derive(Clone, Copy, Debug, PartialEq, Eq, Structural)]
pub enum TraversalDirection {
    Forward(usize),
    Back(usize),
}

/// A command for the engine that owns the content views.
#[derive(Clone, Debug, PartialEq, Eq)]
pub enum EmbedderEvent {
    CloseWebView(WebViewId),
    BlurWebView,
    /// Raise the view above the others; the flag asks to hide the others.
    RaiseWebViewToTop(WebViewId, bool),
    FocusWebView(WebViewId),
    MoveResizeWebView(WebViewId, Rect),
    /// Load the address, already parsed from the location field.
    LoadUrl(WebViewId, String),
    Navigation(WebViewId, TraversalDirection),
}

/// What the panel needs to know of a window event.
#[derive(Clone, Copy, Debug, PartialEq, Eq, Structural)]
pub enum WindowEvent {
    /// The pointer moved to `position`.
    CursorMoved { position: Point },
    MouseWheel,
    MouseInput,
    /// Any other event: keys, resizes, focus.
    Other,
}

/// The engine command for one queued intent. `url` is the parsed location,
/// which only `Go` needs; without one, `Go` has no translation.
pub open spec fn translated(event: MinibrowserEvent, webview_id: WebViewId, url: Option<String>) -> Option<EmbedderEvent> {
    match event {
        MinibrowserEvent::Go => match url {
            Some(u) => Some(EmbedderEvent::LoadUrl(webview_id, u)),
            None => None,
        },
        MinibrowserEvent::Back => Some(
            EmbedderEvent::Navigation(webview_id, TraversalDirection::Back(1)),
        ),
        MinibrowserEvent::Forward => Some(
            EmbedderEvent::Navigation(webview_id, TraversalDirection::Forward(1)),
        ),
    }
}

/// How many queued intents a drain translates: all of them, or those before
/// the first `Go` where the location did not parse.
pub open spec fn translatable_prefix(queue: Seq<MinibrowserEvent>, parsed: bool) -> nat
    decreases queue.len(),
{
    if queue.len() == 0 {
        0
    } else if queue[0] == MinibrowserEvent::Go && !parsed {
        0
    } else {
        1 + translatable_prefix(queue.skip(1), parsed)
    }
}

/// The engine commands that a drain of `queue` emits, in order.
pub open spec fn drained(queue: Seq<MinibrowserEvent>, webview_id: WebViewId, url: Option<String>) -> Seq<EmbedderEvent> {
    Seq::new(
        translatable_prefix(queue, url.is_some()),
        |i: int| translated(queue[i], webview_id, url).unwrap(),
    )
}

/// The prefix that a drain translates is the longest one without an
/// untranslatable `Go`.
pub proof fn lemma_translatable_prefix(queue: Seq<MinibrowserEvent>, parsed: bool)
    ensures
        translatable_prefix(queue, parsed) <= queue.len(),
        forall|i: int| 0 <= i < translatable_prefix(queue, parsed) ==> (parsed || queue[i] != MinibrowserEvent::Go),
        translatable_prefix(queue, parsed) < queue.len() ==> !parsed
            && queue[translatable_prefix(queue, parsed) as int] == MinibrowserEvent::Go,
    decreases queue.len(),
{
    if queue.len() > 0 && !(queue[0] == MinibrowserEvent::Go && !parsed) {
        let rest = queue.skip(1);
        lemma_translatable_prefix(rest, parsed);
        let k = translatable_prefix(rest, parsed);
        assert forall|i: int| 0 <= i < 1 + k implies (parsed || queue[i] != MinibrowserEvent::Go) by {
            if i > 0 {
                assert(queue[i] == rest[i - 1]);
            }
        }
        if k < rest.len() {
            assert(queue[1 + k as int] == rest[k as int]);
        }
    }
}

} // verus!
