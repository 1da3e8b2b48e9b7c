//! The handoff reader: what to make of the marker once the window asks.

use crate::text::{trim, trimmed};
use vstd::prelude::*;
use vstd::string::StringExecFns;

verus! {

/// The marker as a reader finds it.
pub enum Marker {
    /// There is no marker.
    Absent,
    /// The marker is there and holds this text.
    Holding(String),
    /// The marker is there, but reading it failed.
    Unreadable,
}

/// A [`Marker`] with its text as a sequence of characters.
pub enum MarkerView {
    /// There is no marker.
    Absent,
    /// The marker is there and holds this text.
    Holding(Seq<char>),
    /// The marker is there, but reading it failed.
    Unreadable,
}

impl View for Marker {
    type V = MarkerView;

    open spec fn view(&self) -> MarkerView {
        match self {
            Marker::Absent => MarkerView::Absent,
            Marker::Holding(text) => MarkerView::Holding(text@),
            Marker::Unreadable => MarkerView::Unreadable,
        }
    }
}

/// What a reader is to do with the marker it found.
pub struct Pickup {
    /// The path to open, if one is pending.
    pub path: Option<String>,
    /// Whether there is a marker to delete.
    pub remove: bool,
}

/// The path that a marker delivers: its text without the white space around
/// it, unless nothing is left of it. A marker that is absent or cannot be
/// read delivers nothing.
pub open spec fn pending_path(marker: MarkerView) -> Option<Seq<char>> {
    match marker {
        MarkerView::Holding(text) => if trimmed(text).len() > 0 {
            Some(trimmed(text))
        } else {
            None
        },
        _ => None,
    }
}

/// Decides what the reader returns and whether it deletes the marker. Any
/// marker that is there is to be deleted, whatever it held, so that no path
/// is delivered twice.
pub fn pick_up(found: &Marker) -> (r: Pickup)
    ensures
        r.path.deep_view() == pending_path(found@),
        r.remove == !(found@ is Absent),
{
    match found {
        Marker::Absent => Pickup { path: None, remove: false },
        Marker::Holding(text) => {
            let path = trim(text.as_str());
            if path.unicode_len() > 0 {
                Pickup { path: Some(String::from_str(path)), remove: true }
            } else {
                Pickup { path: None, remove: true }
            }
        },
        Marker::Unreadable => Pickup { path: None, remove: true },
    }
}

} // verus!
