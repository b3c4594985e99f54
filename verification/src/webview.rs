use vstd::prelude::*;
use crate::geometry::Rect;

verus! {

/// The identifier of a content view.
#[derive(Clone, Copy, Debug, PartialEq, Eq, Structural)]
pub struct WebViewId(pub u64);

/// What the panel reads and writes of one content view.
#[derive(Clone, Debug, PartialEq, Eq)]
pub struct WebView {
    pub id: WebViewId,
    /// The viewport of the view in device pixels, as the panel last computed it.
    pub rect: Rect,
    /// The text shown in the location field while this view has the focus.
    pub location: String,
    /// Whether the user has edited `location` without confirming it.
    pub location_dirty: bool,
    /// The address that the engine reports for the view, if it has one.
    pub current_url_string: Option<String>,
}

impl WebView {
    /// The address that the engine reports, or the empty text if it has none.
    pub open spec fn reported_location(self) -> Seq<char> {
        match self.current_url_string {
            Some(url) => url@,
            None => Seq::empty(),
        }
    }

    /// The location text once it has been brought in line with the engine:
    /// an unconfirmed edit stays, anything else gives way to the reported
    /// address.
    pub open spec fn synced_location(self) -> Seq<char> {
        if self.location_dirty {
            self.location@
        } else {
            self.reported_location()
        }
    }

    /// Whether bringing the location text in line with the engine changes it.
    pub open spec fn sync_changes_location(self) -> bool {
        !self.location_dirty && self.reported_location() != self.location@
    }

    /// Whether `other` is this view with at most another location text,
    /// dirty flag and rectangle.
    pub open spec fn same_view_as(self, other: WebView) -> bool {
        self.id == other.id && self.current_url_string == other.current_url_string
    }
}

} // verus!
