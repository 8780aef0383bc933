//! The pure state of the pages around the player: the local-video list, the
//! search form, and the settings page. Their widget trees and the pickers
//! and dialogs they open live in the shell; what the pages decide lives
//! here.

use vstd::prelude::*;
use crate::media::SearchType;
use crate::player::{QueueEntry, VideoOrder, VideoPlayerPage};

verus! {

/// The queue entries for a list of local file identifiers: each id marked as
/// coming from the computer.
pub open spec fn local_entries(ids: Seq<String>) -> Seq<QueueEntry> {
    ids.map_values(|id: String| QueueEntry { id, is_local: true })
}

/// Page that collects videos from the user's computer and hands them to the
/// player.
#[derive(Debug)]
pub struct LocalVideoPage {
    /// The chosen files, as `file:///` URLs.
    pub videos: Vec<String>,
}

impl LocalVideoPage {
    /// A page with no files chosen yet.
    pub fn new() -> (p: Self)
        ensures
            p.videos@.len() == 0,
    {
        LocalVideoPage { videos: Vec::new() }
    }

    /// Adds one chosen file URL to the list.
    pub fn add_video(&mut self, url: String)
        ensures
            final(self).videos@ == old(self).videos@.push(url),
    {
        self.videos.push(url);
    }

    /// Empties the list.
    pub fn clear_videos(&mut self)
        ensures
            final(self).videos@.len() == 0,
    {
        self.videos.clear();
    }

    /// Builds a player session over the chosen files, every entry marked
    /// local, arranged as `order` says, and returns it with the index the
    /// first `LoadVideo` message must carry.
    pub fn play_videos(&self, order: VideoOrder) -> (r: (VideoPlayerPage, usize))
        requires
            self.videos@.len() >= 1,
            order matches VideoOrder::Sequential(i) ==> i < self.videos@.len(),
        ensures
            r.0.wf(),
            r.0.videos@.len() == self.videos@.len(),
            r.1 < self.videos@.len(),
            match order {
                VideoOrder::Sequential(i) => r.0.videos@ == local_entries(self.videos@)
                    && r.0.video_index == i
                    && r.1 == i,
                VideoOrder::Reversed => r.0.videos@ == local_entries(self.videos@).reverse()
                    && r.0.video_index == 0
                    && r.1 == 0,
                VideoOrder::Shuffled => r.0.videos@.to_multiset() == local_entries(
                    self.videos@,
                ).to_multiset() && r.0.video_index == 0 && r.1 == 0,
            },
            r.0.current_video is None,
            r.0.pending_skip is None,
    {
        let mut entries: Vec<QueueEntry> = Vec::new();
        let mut i: usize = 0;
        while i < self.videos.len()
            invariant
                i <= self.videos@.len(),
                entries@ == local_entries(self.videos@.subrange(0, i as int)),
            decreases self.videos@.len() - i,
        {
            entries.push(QueueEntry { id: self.videos[i].clone(), is_local: true });
            proof {
                assert(entries@ =~= local_entries(self.videos@.subrange(0, i + 1 as int)));
            }
            i = i + 1;
        }
        proof {
            assert(self.videos@.subrange(0, self.videos@.len() as int) =~= self.videos@);
        }

        let index: usize = match &order {
            VideoOrder::Sequential(i) => *i,
            _ => 0,
        };

        (VideoPlayerPage::new(entries, order), index)
    }
}

/// Page with the search form: a query string and the kind of result it asks
/// for.
#[derive(Debug)]
pub struct SearchPage {
    pub search_input: String,
    pub search_type: SearchType,
}

impl SearchPage {
    /// A fresh form: empty query, searching for videos.
    pub fn new() -> (p: Self)
        ensures
            p.search_input@.len() == 0,
            p.search_type is Video,
    {
        SearchPage { search_input: String::new(), search_type: SearchType::Video }
    }

    /// Replaces the query text.
    pub fn update_input(&mut self, input: String)
        ensures
            final(self).search_input == input,
            final(self).search_type == old(self).search_type,
    {
        self.search_input = input;
    }

    /// Replaces the kind of search.
    pub fn set_search_type(&mut self, search_type: SearchType)
        ensures
            final(self).search_type == search_type,
            final(self).search_input == old(self).search_input,
    {
        self.search_type = search_type;
    }
}

/// Page that lets the user change the settings. It keeps no state of its
/// own; the settings live with the shell.
#[derive(Debug)]
pub struct SettingsPage {
}

impl SettingsPage {
    /// The settings page.
    pub fn new() -> Self {
        SettingsPage {  }
    }
}

/// Index into the list of Invidious instances offered on the settings page.
#[derive(PartialEq, Eq, Clone)]
pub struct InstanceIndex {
    pub n: usize,
}

impl InstanceIndex {
    /// Wraps an index.
    pub fn new(n: usize) -> (r: Self)
        ensures
            r.n == n,
    {
        InstanceIndex { n }
    }
}

} // verus!
