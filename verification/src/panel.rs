use vstd::prelude::*;
use crate::blit::{framebuffer_name, framebuffer_name_spec, Blit, FramebufferTarget, GlCommand};
use crate::events::{drained, lemma_translatable_prefix, translatable_prefix, translated, EmbedderEvent, MinibrowserEvent, TraversalDirection, WindowEvent};
use crate::geometry::{Point, Rect};
use crate::tabs::{tab_bar_events, tab_bar_events_spec, TabInteraction};
use crate::toolbar::ToolbarInteraction;
use crate::webview::{WebView, WebViewId};

verus! {

/// The state of the chrome panel between frames.
#[derive(Debug)]
pub struct Minibrowser {
    /// The intents queued by the toolbar and not yet drained, oldest first.
    pub event_queue: Vec<MinibrowserEvent>,
    /// The bottom edge of the toolbar as of the last frame, in
    /// device-independent units. The content starts there.
    pub toolbar_height: i64,
    /// The framebuffer object of the surface that the panel draws to, or
    /// `None` if that surface is the default framebuffer.
    pub widget_surface_fbo: Option<u32>,
    /// Where the pointer was last seen, in device-independent units.
    pub last_mouse_position: Option<Point>,
    /// The text of the location field.
    pub location: String,
}

/// Everything the user did to the panel while one frame was drawn.
#[derive(Clone, Debug, PartialEq, Eq)]
pub struct FrameInteraction {
    /// Whether the close button of the tab strip was clicked.
    pub close_clicked: bool,
    /// The tabs of the strip, in creation order.
    pub tabs: Vec<TabInteraction>,
    pub toolbar: ToolbarInteraction,
    /// The window area left below the toolbar, in device pixels. It is not
    /// read while no view has the focus.
    pub content_rect: Rect,
}

/// What a frame asks of the host.
#[derive(Clone, Debug, PartialEq, Eq)]
pub struct Frame {
    /// The commands to hand to the engine as one batch, in order.
    pub embedder_events: Vec<EmbedderEvent>,
    /// The copy to carry out when the content region is painted, if any.
    pub blit: Option<Blit>,
}

/// What a change of the content rectangle emits: nothing while the
/// rectangle stays, one resize that carries the new rectangle otherwise.
pub open spec fn resize_events(webview_id: WebViewId, stored: Rect, computed: Rect) -> Seq<EmbedderEvent> {
    if stored == computed {
        seq![]
    } else {
        seq![EmbedderEvent::MoveResizeWebView(webview_id, computed)]
    }
}

/// The copy that a frame schedules: one from the engine's framebuffer, if
/// the engine supplied one, to the panel's target.
pub open spec fn scheduled_blit(servo_framebuffer_id: Option<u32>, target: Option<u32>) -> Option<Blit> {
    match servo_framebuffer_id {
        Some(raw) => Some(Blit { source: framebuffer_name_spec(raw), target }),
        None => None,
    }
}

impl Minibrowser {
    /// Whether `position` lies in the content region, below the toolbar.
    pub open spec fn in_browser_rect(self, position: Point) -> bool {
        position.y >= self.toolbar_height
    }

    /// Whether the pointer was last seen in the content region.
    pub open spec fn pointer_in_browser_rect(self) -> bool {
        match self.last_mouse_position {
            Some(position) => self.in_browser_rect(position),
            None => false,
        }
    }

    /// Whether `other` differs from this panel in nothing but the queue, the
    /// location text and the toolbar height, the parts that a frame writes.
    pub open spec fn same_surface_and_pointer(self, other: Minibrowser) -> bool {
        self.widget_surface_fbo == other.widget_surface_fbo
            && self.last_mouse_position == other.last_mouse_position
    }

    /// A panel for a surface whose framebuffer object is
    /// `framebuffer_object`, showing `initial_url` in its location field.
    pub fn new(framebuffer_object: u32, initial_url: String) -> (panel: Self)
        ensures
            panel.event_queue@ == Seq::<MinibrowserEvent>::empty(),
            panel.toolbar_height == 0,
            panel.widget_surface_fbo == framebuffer_name_spec(framebuffer_object),
            panel.last_mouse_position.is_none(),
            panel.location == initial_url,
    {
        Minibrowser {
            event_queue: Vec::new(),
            toolbar_height: 0,
            widget_surface_fbo: framebuffer_name(framebuffer_object),
            last_mouse_position: None,
            location: initial_url,
        }
    }

    /// Return true iff the given position is in the content region.
    pub fn is_in_browser_rect(&self, position: Point) -> (inside: bool)
        ensures
            inside == (position.y >= self.toolbar_height),
            inside == self.in_browser_rect(position),
    {
        position.y >= self.toolbar_height
    }

    /// Decides whether a window event counts as consumed by the toolkit,
    /// given the toolkit's own verdict. A pointer movement is recorded first.
    /// The verdict on a pointer movement, a wheel turn or a button stands
    /// only while the pointer is in the content region; on any other event
    /// it stands as it is.
    pub fn on_event(&mut self, event: &WindowEvent, toolkit_consumed: bool) -> (consumed: bool)
        ensures
            final(self).last_mouse_position == match *event {
                WindowEvent::CursorMoved { position } => Some(position),
                _ => old(self).last_mouse_position,
            },
            final(self).event_queue == old(self).event_queue,
            final(self).toolbar_height == old(self).toolbar_height,
            final(self).widget_surface_fbo == old(self).widget_surface_fbo,
            final(self).location == old(self).location,
            consumed == (toolkit_consumed && match *event {
                WindowEvent::Other => true,
                _ => final(self).pointer_in_browser_rect(),
            }),
    {
        let keep = match event {
            WindowEvent::CursorMoved { position } => {
                self.last_mouse_position = Some(*position);
                self.is_in_browser_rect(*position)
            },
            WindowEvent::MouseWheel | WindowEvent::MouseInput => match self.last_mouse_position {
                Some(position) => self.is_in_browser_rect(position),
                None => false,
            },
            WindowEvent::Other => true,
        };
        toolkit_consumed && keep
    }

    /// Shows the focused view's location in the location field and returns
    /// that view's dirty flag. Without a focused view the field keeps its
    /// text and counts as unedited.
    pub fn load_location(&mut self, focused: Option<&WebView>) -> (location_dirty: bool)
        ensures
            final(self).location@ == match focused {
                Some(webview) => webview.location@,
                None => old(self).location@,
            },
            location_dirty == match focused {
                Some(webview) => webview.location_dirty,
                None => false,
            },
            final(self).event_queue == old(self).event_queue,
            final(self).toolbar_height == old(self).toolbar_height,
            final(self).same_surface_and_pointer(*old(self)),
    {
        match focused {
            Some(webview) => {
                if !(webview.location == self.location) {
                    self.location = webview.location.clone();
                }
                webview.location_dirty
            },
            None => false,
        }
    }

    /// Takes in what the user did to the toolbar: queues its intents, adopts
    /// an edit of the location field, records the toolbar's height, and
    /// returns the dirty flag that results from `location_dirty`.
    pub fn apply_toolbar(&mut self, location_dirty: bool, toolbar: ToolbarInteraction) -> (dirty: bool)
        ensures
            final(self).event_queue@ == old(self).event_queue@ + toolbar.intents(),
            final(self).location@ == toolbar.text_after(old(self).location@),
            final(self).toolbar_height == toolbar.bottom,
            final(self).same_surface_and_pointer(*old(self)),
            dirty == toolbar.dirty_after(location_dirty),
    {
        let mut dirty = location_dirty;
        if toolbar.back_clicked {
            self.event_queue.push(MinibrowserEvent::Back);
        }
        if toolbar.forward_clicked {
            self.event_queue.push(MinibrowserEvent::Forward);
        }
        if toolbar.go_clicked {
            self.event_queue.push(MinibrowserEvent::Go);
            dirty = false;
        }
        if let Some(edited) = toolbar.edited {
            self.location = edited;
            dirty = true;
        }
        if toolbar.confirmed_with_enter {
            self.event_queue.push(MinibrowserEvent::Go);
            dirty = false;
        }
        self.toolbar_height = toolbar.bottom;
        dirty
    }

    /// Writes the location field and its dirty flag back to the focused view.
    pub fn store_location(&self, webview: &mut WebView, location_dirty: bool)
        ensures
            final(webview).location@ == self.location@,
            final(webview).location_dirty == location_dirty,
            final(webview).rect == old(webview).rect,
            final(webview).same_view_as(*old(webview)),
    {
        webview.location_dirty = location_dirty;
        if !(self.location == webview.location) {
            webview.location = self.location.clone();
        }
    }

    /// Stores the content rectangle computed for this frame on the focused
    /// view, and queues a resize for the engine if the rectangle changed.
    pub fn place_webview(webview: &mut WebView, content_rect: Rect, embedder_events: &mut Vec<EmbedderEvent>)
        ensures
            final(webview).rect == content_rect,
            final(webview).location == old(webview).location,
            final(webview).location_dirty == old(webview).location_dirty,
            final(webview).same_view_as(*old(webview)),
            final(embedder_events)@ == old(embedder_events)@ + resize_events(
                old(webview).id,
                old(webview).rect,
                content_rect,
            ),
    {
        if content_rect != webview.rect {
            webview.rect = content_rect;
            embedder_events.push(EmbedderEvent::MoveResizeWebView(webview.id, content_rect));
        }
    }

    /// Runs the panel's part of one frame, after the host has drawn the
    /// widgets and gathered what the user did to them.
    ///
    /// With a focused view: the tab strip's commands come first; the location
    /// field starts from the view's text and dirty flag, takes in the
    /// toolbar, and is written back to the view; the view gets the content
    /// rectangle, with a resize for the engine if it changed; and a copy of
    /// the engine's picture is scheduled if the engine supplied a
    /// framebuffer. Without one, only the toolbar is taken in: nothing is
    /// handed to the engine and nothing is scheduled.
    pub fn update(
        &mut self,
        focused: Option<&mut WebView>,
        interaction: FrameInteraction,
        servo_framebuffer_id: Option<u32>,
    ) -> (frame: Frame)
        ensures
            final(self).event_queue@ == old(self).event_queue@ + interaction.toolbar.intents(),
            final(self).toolbar_height == interaction.toolbar.bottom,
            forall|position: Point| #[trigger]
                final(self).in_browser_rect(position) == (position.y >= interaction.toolbar.bottom),
            final(self).same_surface_and_pointer(*old(self)),
            match focused {
                Some(webview) => {
                    &&& final(self).location@ == interaction.toolbar.text_after(webview.location@)
                    &&& final(webview).location@ == final(self).location@
                    &&& final(webview).location_dirty == interaction.toolbar.dirty_after(
                        webview.location_dirty,
                    )
                    &&& final(webview).rect == interaction.content_rect
                    &&& final(webview).same_view_as(*webview)
                    &&& frame.embedder_events@ == tab_bar_events_spec(
                        Some(webview.id),
                        interaction.close_clicked,
                        interaction.tabs@,
                    ) + resize_events(webview.id, webview.rect, interaction.content_rect)
                    &&& frame.blit == scheduled_blit(servo_framebuffer_id, old(self).widget_surface_fbo)
                },
                None => {
                    &&& final(self).location@ == interaction.toolbar.text_after(old(self).location@)
                    &&& frame.embedder_events@ == Seq::<EmbedderEvent>::empty()
                    &&& frame.blit.is_none()
                },
            },
    {
        let FrameInteraction { close_clicked, tabs, toolbar, content_rect } = interaction;
        match focused {
            Some(webview) => {
                let mut embedder_events = tab_bar_events(Some(webview.id), close_clicked, &tabs);
                let location_dirty = self.load_location(Some(&*webview));
                let location_dirty = self.apply_toolbar(location_dirty, toolbar);
                self.store_location(webview, location_dirty);
                Self::place_webview(webview, content_rect, &mut embedder_events);
                let blit = match servo_framebuffer_id {
                    Some(servo_fbo) => Some(
                        Blit { source: framebuffer_name(servo_fbo), target: self.widget_surface_fbo },
                    ),
                    None => None,
                };
                Frame { embedder_events, blit }
            },
            None => {
                let location_dirty = self.load_location(None);
                let _ = self.apply_toolbar(location_dirty, toolbar);
                Frame { embedder_events: Vec::new(), blit: None }
            },
        }
    }

    /// Takes every queued intent from the panel and appends its engine
    /// command to `app_event_queue`, for the view `webview_id`, which the
    /// caller resolves now, not when the intent was queued. `url` is the
    /// location text as an address, or `None` if it does not parse as one.
    ///
    /// A `Go` without an address ends the drain: the intents before it are
    /// translated, it and those after it are dropped, and the result is
    /// `false`. The queue is empty afterwards either way.
    pub fn queue_embedder_events_for_minibrowser_events(
        &mut self,
        webview_id: Option<WebViewId>,
        url: Option<String>,
        app_event_queue: &mut Vec<EmbedderEvent>,
    ) -> (complete: bool)
        requires
            old(self).event_queue@.len() > 0 ==> webview_id.is_some(),
        ensures
            final(self).event_queue@ == Seq::<MinibrowserEvent>::empty(),
            final(self).toolbar_height == old(self).toolbar_height,
            final(self).location == old(self).location,
            final(self).same_surface_and_pointer(*old(self)),
            final(app_event_queue)@ == old(app_event_queue)@ + match webview_id {
                Some(id) => drained(old(self).event_queue@, id, url),
                None => Seq::<EmbedderEvent>::empty(),
            },
            complete == (translatable_prefix(old(self).event_queue@, url.is_some())
                == old(self).event_queue@.len()),
    {
        let ghost queue = self.event_queue@;
        let ghost parsed = url.is_some();
        proof {
            lemma_translatable_prefix(queue, parsed);
        }
        let mut complete = true;
        match webview_id {
            Some(browser_id) => {
                let mut i: usize = 0;
                while i < self.event_queue.len() && complete
                    invariant
                        self.event_queue@ == queue,
                        parsed == url.is_some(),
                        i <= queue.len(),
                        !complete ==> i < queue.len() && !parsed && queue[i as int] == MinibrowserEvent::Go,
                        forall|j: int| 0 <= j < i ==> (parsed || queue[j] != MinibrowserEvent::Go),
                        app_event_queue@ == old(app_event_queue)@ + Seq::new(
                            i as nat,
                            |j: int| translated(queue[j], browser_id, url).unwrap(),
                        ),
                        self.toolbar_height == old(self).toolbar_height,
                        self.location == old(self).location,
                        self.same_surface_and_pointer(*old(self)),
                    decreases queue.len() - i + if complete { 1int } else { 0int },
                {
                    let event = self.event_queue[i];
                    let translation = match event {
                        MinibrowserEvent::Go => match &url {
                            Some(url) => Some(EmbedderEvent::LoadUrl(browser_id, url.clone())),
                            None => None,
                        },
                        MinibrowserEvent::Back => Some(
                            EmbedderEvent::Navigation(browser_id, TraversalDirection::Back(1)),
                        ),
                        MinibrowserEvent::Forward => Some(
                            EmbedderEvent::Navigation(browser_id, TraversalDirection::Forward(1)),
                        ),
                    };
                    match translation {
                        Some(embedder_event) => {
                            app_event_queue.push(embedder_event);
                            i += 1;
                            assert(app_event_queue@ =~= old(app_event_queue)@ + Seq::new(
                                i as nat,
                                |j: int| translated(queue[j], browser_id, url).unwrap(),
                            ));
                        },
                        None => {
                            complete = false;
                        },
                    }
                }
            },
            None => {},
        }
        self.event_queue.clear();
        complete
    }

    /// Updates the focused view's location text from the address that the
    /// engine reports, unless the user has started editing it without
    /// confirming, returning true iff the text has changed. Without a
    /// focused view, returns true iff the focus changed.
    pub fn update_location_in_toolbar(
        &mut self,
        focused: Option<&mut WebView>,
        focused_webview_changed: bool,
    ) -> (changed: bool)
        ensures
            *final(self) == *old(self),
            match focused {
                Some(webview) => {
                    &&& changed == webview.sync_changes_location()
                    &&& final(webview).location@ == webview.synced_location()
                    &&& final(webview).location_dirty == webview.location_dirty
                    &&& final(webview).rect == webview.rect
                    &&& final(webview).same_view_as(*webview)
                },
                None => changed == focused_webview_changed,
            },
    {
        // If no webview is focused, just return true iff the focus changed.
        match focused {
            None => focused_webview_changed,
            Some(webview) => {
                // User edited without clicking Go?
                if webview.location_dirty {
                    return false;
                }
                let new_location = match &webview.current_url_string {
                    Some(url) => url.clone(),
                    None => String::new(),
                };
                if !(new_location == webview.location) {
                    webview.location = new_location;
                    return true;
                }
                false
            },
        }
    }

    /// The first call of a paint: it binds the panel's drawing target. The
    /// toolkit's own painting follows it.
    pub fn paint(&self) -> (command: GlCommand)
        ensures
            command == (GlCommand::BindFramebuffer {
                target: FramebufferTarget::Both,
                framebuffer: self.widget_surface_fbo,
            }),
    {
        GlCommand::BindFramebuffer { target: FramebufferTarget::Both, framebuffer: self.widget_surface_fbo }
    }
}

} // verus!
