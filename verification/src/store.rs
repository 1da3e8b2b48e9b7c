//! A handoff store kept in memory: the marker without a file system.

use crate::diagnostics::{launch_log, launch_write, log_text};
use crate::reader::{pending_path, pick_up, Marker, MarkerView};
use crate::scanner::{find_data_file, first_data_file};
use vstd::prelude::*;
use vstd::string::StringExecFns;

verus! {

/// The one marker of an application, and the name of the place it stands for.
pub struct HandoffStore {
    location: String,
    marker: Marker,
}

/// A [`HandoffStore`] as contracts see it.
pub struct HandoffStoreView {
    /// The name of the place the store stands for.
    pub location: Seq<char>,
    /// The marker as the next reader will find it.
    pub marker: MarkerView,
}

impl View for HandoffStore {
    type V = HandoffStoreView;

    closed spec fn view(&self) -> HandoffStoreView {
        HandoffStoreView { location: self.location@, marker: self.marker@ }
    }
}

/// The marker after a launch with `args`: the first data file among them,
/// as it was given, in place of whatever was there; with no data file, the
/// marker as it was.
pub open spec fn marker_after_launch(before: MarkerView, args: Seq<Seq<char>>) -> MarkerView {
    match first_data_file(args) {
        Some(i) => MarkerView::Holding(args[i]),
        None => before,
    }
}

/// The marker after the window has asked: none, whatever was there.
pub open spec fn marker_after_take(before: MarkerView) -> MarkerView {
    MarkerView::Absent
}

impl HandoffStore {
    /// A store without a marker, standing for `location`.
    pub fn new(location: &str) -> (store: HandoffStore)
        ensures
            store@.location == location@,
            store@.marker is Absent,
    {
        HandoffStore { location: String::from_str(location), marker: Marker::Absent }
    }

    /// A store standing for `location` that starts out with `marker`.
    pub fn with_marker(location: &str, marker: Marker) -> (store: HandoffStore)
        ensures
            store@.location == location@,
            store@.marker == marker@,
    {
        HandoffStore { location: String::from_str(location), marker: marker }
    }

    /// Whether there is a marker, readable or not.
    pub fn has_marker(&self) -> (r: bool)
        ensures
            r == !(self@.marker is Absent),
    {
        match &self.marker {
            Marker::Absent => false,
            _ => true,
        }
    }

    /// Puts `path` in the marker, as it is, in place of whatever was there.
    pub fn write(&mut self, path: &str)
        ensures
            final(self)@.marker == MarkerView::Holding(path@),
            final(self)@.location == old(self)@.location,
    {
        self.marker = Marker::Holding(String::from_str(path));
    }

    /// Answers the window's question: the pending path, if there is one.
    /// The marker is gone afterwards, whatever it held.
    pub fn take(&mut self) -> (path: Option<String>)
        ensures
            path.deep_view() == pending_path(old(self)@.marker),
            final(self)@.marker == marker_after_take(old(self)@.marker),
            final(self)@.location == old(self)@.location,
    {
        let picked = pick_up(&self.marker);
        if picked.remove {
            self.marker = Marker::Absent;
        }
        picked.path
    }

    /// Runs one launch against the store: scans `args`, writes the first data
    /// file among them to the marker, and returns the diagnostic log. A stale
    /// marker is left alone when `args` name no data file. Writing to memory
    /// does not fail, so the log never reports a failure.
    pub fn launch(&mut self, args: &Vec<String>) -> (log: String)
        ensures
            final(self)@.marker == marker_after_launch(old(self)@.marker, args.deep_view()),
            final(self)@.location == old(self)@.location,
            log@ == log_text(
                args.deep_view(),
                launch_write(args.deep_view(), old(self)@.location, None),
            ),
    {
        match find_data_file(args) {
            Some(i) => {
                assert(args.deep_view()[i as int] == args[i as int]@);
                self.write(args[i].as_str());
            },
            None => {},
        }
        launch_log(args, self.location.as_str(), &None)
    }
}

} // verus!
