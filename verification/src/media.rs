//! Download formats and qualities offered by the download pages, and the
//! kinds of search the search page can run.

use vstd::prelude::*;

verus! {

/// Container or audio format a video can be downloaded as.
#[derive(Debug, Clone, PartialEq, Eq)]
pub enum DownloadFormat {
    MP4,
    WEBM,
    MP3,
    M4A,
}

impl DownloadFormat {
    /// True for the audio-only formats.
    pub fn is_audio(&self) -> (r: bool)
        ensures
            r == (*self is MP3 || *self is M4A),
    {
        matches!(self, DownloadFormat::MP3 | DownloadFormat::M4A)
    }

    /// The file extension the format downloads as.
    pub fn as_ext(&self) -> (r: &str)
        ensures
            match *self {
                DownloadFormat::MP4 => r@ == "mp4"@,
                DownloadFormat::WEBM => r@ == "webm"@,
                DownloadFormat::MP3 => r@ == "mp3"@,
                DownloadFormat::M4A => r@ == "m4a"@,
            },
    {
        match self {
            DownloadFormat::MP4 => "mp4",
            DownloadFormat::WEBM => "webm",
            DownloadFormat::MP3 => "mp3",
            DownloadFormat::M4A => "m4a",
        }
    }

    /// The name shown in the format picker.
    pub fn label(&self) -> (r: &str)
        ensures
            match *self {
                DownloadFormat::MP4 => r@ == "MP4 ( Video )"@,
                DownloadFormat::WEBM => r@ == "WEBM ( Video )"@,
                DownloadFormat::MP3 => r@ == "MP3 ( Audio )"@,
                DownloadFormat::M4A => r@ == "M4A ( Audio )"@,
            },
    {
        match self {
            DownloadFormat::MP4 => "MP4 ( Video )",
            DownloadFormat::WEBM => "WEBM ( Video )",
            DownloadFormat::MP3 => "MP3 ( Audio )",
            DownloadFormat::M4A => "M4A ( Audio )",
        }
    }
}

impl Default for DownloadFormat {
    fn default() -> (r: Self)
        ensures
            r is MP4,
    {
        DownloadFormat::MP4
    }
}

/// Video resolution a download can be limited to.
#[derive(Debug, Clone, PartialEq, Eq)]
pub enum DownloadQuality {
    _1080p,
    _720p,
    _480p,
    _360p,
}

impl DownloadQuality {
    /// The vertical resolution in pixels.
    pub fn num(&self) -> (r: usize)
        ensures
            match *self {
                DownloadQuality::_1080p => r == 1080,
                DownloadQuality::_720p => r == 720,
                DownloadQuality::_480p => r == 480,
                DownloadQuality::_360p => r == 360,
            },
    {
        match self {
            DownloadQuality::_1080p => 1080,
            DownloadQuality::_720p => 720,
            DownloadQuality::_480p => 480,
            DownloadQuality::_360p => 360,
        }
    }

    /// The name shown in the quality picker.
    pub fn label(&self) -> (r: &str)
        ensures
            match *self {
                DownloadQuality::_1080p => r@ == "1080p"@,
                DownloadQuality::_720p => r@ == "720p"@,
                DownloadQuality::_480p => r@ == "480p"@,
                DownloadQuality::_360p => r@ == "360p"@,
            },
    {
        match self {
            DownloadQuality::_1080p => "1080p",
            DownloadQuality::_720p => "720p",
            DownloadQuality::_480p => "480p",
            DownloadQuality::_360p => "360p",
        }
    }
}

impl Default for DownloadQuality {
    fn default() -> (r: Self)
        ensures
            r is _360p,
    {
        DownloadQuality::_360p
    }
}

/// What a search query asks for.
#[derive(Debug, Clone, Copy, PartialEq, Eq)]
pub enum SearchType {
    Video,
    Channel,
    ChannelUploads,
    Playlist,
}

impl SearchType {
    /// The name used in search queries and radio buttons.
    pub fn label(&self) -> (r: &str)
        ensures
            match *self {
                SearchType::Video => r@ == "Video"@,
                SearchType::Channel => r@ == "Channel"@,
                SearchType::ChannelUploads => r@ == "ChannelUploads"@,
                SearchType::Playlist => r@ == "Playlist"@,
            },
    {
        match self {
            SearchType::Video => "Video",
            SearchType::Channel => "Channel",
            SearchType::ChannelUploads => "ChannelUploads",
            SearchType::Playlist => "Playlist",
        }
    }
}

} // verus!
