//! The media library: the files that a project can draw clips from.

use vstd::prelude::*;
use vstd::string::StringExecFns;
use crate::types::search::{first_where, lemma_first_where_extends, lemma_first_where_is_least};

verus! {

/// What is known of a file: its name, where it lies, its size in bytes and
/// its media type.
#[derive(Debug)]
pub struct FileDescriptor {
    pub file_name: String,
    pub path: String,
    pub size: u64,
    pub mime_type: String,
}

impl Clone for FileDescriptor {
    fn clone(&self) -> (r: Self)
        ensures
            r == *self,
    {
        FileDescriptor {
            file_name: self.file_name.clone(),
            path: self.path.clone(),
            size: self.size,
            mime_type: self.mime_type.clone(),
        }
    }
}

impl FileDescriptor {
    pub fn new(file_name: String, path: String, size: u64, mime_type: String) -> (r: Self)
        ensures
            r == (FileDescriptor { file_name, path, size, mime_type }),
    {
        FileDescriptor { file_name, path, size, mime_type }
    }
}

/// An audio file of the library.
#[derive(Debug)]
pub struct AudioProp {
    pub file_descriptor: FileDescriptor,
}

impl Clone for AudioProp {
    fn clone(&self) -> (r: Self)
        ensures
            r == *self,
    {
        AudioProp { file_descriptor: self.file_descriptor.clone() }
    }
}

/// A video file of the library, with the path of its thumbnail where one
/// was made.
#[derive(Debug)]
pub struct VideoProp {
    pub file_descriptor: FileDescriptor,
    pub thumbnail_path: Option<String>,
}

impl Clone for VideoProp {
    fn clone(&self) -> (r: Self)
        ensures
            r == *self,
    {
        VideoProp {
            file_descriptor: self.file_descriptor.clone(),
            thumbnail_path: match &self.thumbnail_path {
                Some(path) => Some(path.clone()),
                None => None,
            },
        }
    }
}

/// A file of the library.
#[derive(Debug)]
pub enum MediaItem {
    AudioItem(AudioProp),
    VideoItem(VideoProp),
}

impl Clone for MediaItem {
    fn clone(&self) -> (r: Self)
        ensures
            r == *self,
    {
        match self {
            MediaItem::AudioItem(audio) => MediaItem::AudioItem(audio.clone()),
            MediaItem::VideoItem(video) => MediaItem::VideoItem(video.clone()),
        }
    }
}

impl MediaItem {
    /// The name of the item's file.
    pub open spec fn spec_file_name(self) -> Seq<char> {
        match self {
            MediaItem::AudioItem(audio) => audio.file_descriptor.file_name@,
            MediaItem::VideoItem(video) => video.file_descriptor.file_name@,
        }
    }

    /// The name of the item's file.
    pub fn file_name(&self) -> (r: &String)
        ensures
            r@ == self.spec_file_name(),
    {
        match self {
            MediaItem::AudioItem(audio) => &audio.file_descriptor.file_name,
            MediaItem::VideoItem(video) => &video.file_descriptor.file_name,
        }
    }
}

/// The test "has the file name `name`" on items.
pub open spec fn has_file_name(name: Seq<char>) -> spec_fn(MediaItem) -> bool {
    |item: MediaItem| item.spec_file_name() == name
}

/// The media type that the library gives to a file by its extension, the
/// extension being in lower case.
pub open spec fn media_type_of(extension: Seq<char>) -> Seq<char> {
    if extension == "mp3"@ || extension == "wav"@ || extension == "ogg"@ || extension == "flac"@ {
        "audio"@
    } else if extension == "mp4"@ || extension == "mov"@ || extension == "mkv"@ || extension
        == "webm"@ || extension == "avi"@ {
        "video"@
    } else {
        "unknown"@
    }
}

/// `text` in lower case, as the standard library's `str::to_lowercase`
/// makes it.
pub uninterp spec fn lowercased(text: Seq<char>) -> Seq<char>;

/// Calls `str::to_lowercase` of the standard library. The contract gives
/// its result a name and claims nothing else of it.
#[verifier::external_body]
fn to_lowercase(text: &str) -> (r: String)
    ensures
        r@ == lowercased(text@),
{
    text.to_lowercase()
}

/// Whether two texts are the same.
fn same_text(a: &str, b: &str) -> (r: bool)
    ensures
        r == (a@ == b@),
{
    String::from_str(a) == String::from_str(b)
}

/// The media type of a file by its extension, the extension being in lower
/// case: "audio", "video" or "unknown".
pub fn media_type_of_extension(extension: &str) -> (r: String)
    ensures
        r@ == media_type_of(extension@),
{
    if same_text(extension, "mp3") || same_text(extension, "wav") || same_text(extension, "ogg")
        || same_text(extension, "flac") {
        String::from_str("audio")
    } else if same_text(extension, "mp4") || same_text(extension, "mov") || same_text(
        extension,
        "mkv",
    ) || same_text(extension, "webm") || same_text(extension, "avi") {
        String::from_str("video")
    } else {
        String::from_str("unknown")
    }
}

/// The media type of a file by its extension in any case.
pub fn classify_extension(extension: &str) -> (r: String)
    ensures
        r@ == media_type_of(lowercased(extension@)),
{
    let lower = to_lowercase(extension);
    media_type_of_extension(lower.as_str())
}

/// The files of a project, in the order in which they were added.
#[derive(Debug)]
pub struct MediaLibrary {
    items: Vec<MediaItem>,
}

impl View for MediaLibrary {
    type V = Seq<MediaItem>;

    closed spec fn view(&self) -> Seq<MediaItem> {
        self.items@
    }
}

impl Clone for MediaLibrary {
    fn clone(&self) -> (r: Self)
        ensures
            r@ == self@,
    {
        let items = self.items.clone();
        MediaLibrary { items }
    }
}

impl MediaLibrary {
    /// The library after a file described by `descriptor` was added: an
    /// audio file and a video file are appended, a file of any other media
    /// type is left out.
    pub open spec fn with_file(
        items: Seq<MediaItem>,
        descriptor: FileDescriptor,
        thumbnail_path: Option<String>,
    ) -> Seq<MediaItem> {
        if descriptor.mime_type@ == "audio"@ {
            items.push(MediaItem::AudioItem(AudioProp { file_descriptor: descriptor }))
        } else if descriptor.mime_type@ == "video"@ {
            items.push(
                MediaItem::VideoItem(VideoProp { file_descriptor: descriptor, thumbnail_path }),
            )
        } else {
            items
        }
    }

    pub fn new() -> (r: Self)
        ensures
            r@ == Seq::<MediaItem>::empty(),
    {
        MediaLibrary { items: Vec::new() }
    }

    pub fn add_audio(&mut self, prop: AudioProp)
        ensures
            final(self)@ == old(self)@.push(MediaItem::AudioItem(prop)),
    {
        self.items.push(MediaItem::AudioItem(prop));
    }

    pub fn add_video(&mut self, prop: VideoProp)
        ensures
            final(self)@ == old(self)@.push(MediaItem::VideoItem(prop)),
    {
        self.items.push(MediaItem::VideoItem(prop));
    }

    pub fn all_items(&self) -> (r: &Vec<MediaItem>)
        ensures
            r@ == self@,
    {
        &self.items
    }

    /// Adds a file by what is known of it: as an audio file where its media
    /// type is "audio", as a video file with the given thumbnail where it is
    /// "video". A file of any other media type is not added. Returns whether
    /// the file was added.
    pub fn add_file(&mut self, descriptor: FileDescriptor, thumbnail_path: Option<String>) -> (added:
        bool)
        ensures
            final(self)@ == Self::with_file(old(self)@, descriptor, thumbnail_path),
            added == (descriptor.mime_type@ == "audio"@ || descriptor.mime_type@ == "video"@),
    {
        if same_text(descriptor.mime_type.as_str(), "audio") {
            self.add_audio(AudioProp { file_descriptor: descriptor });
            true
        } else if same_text(descriptor.mime_type.as_str(), "video") {
            self.add_video(VideoProp { file_descriptor: descriptor, thumbnail_path });
            true
        } else {
            false
        }
    }

    /// The index of the first item whose file has the name `name`.
    fn position(&self, name: &str) -> (r: Option<usize>)
        ensures
            match r {
                Some(i) => first_where(self@, has_file_name(name@)) == Some(i as int) && i
                    < self@.len(),
                None => first_where(self@, has_file_name(name@)) is None,
            },
    {
        let wanted = String::from_str(name);
        let ghost test = has_file_name(name@);
        let mut i: usize = 0;
        while i < self.items.len()
            invariant
                i <= self.items.len(),
                wanted@ == name@,
                test == has_file_name(name@),
                first_where(self@.take(i as int), test) is None,
            decreases self.items.len() - i,
        {
            proof {
                assert(self@.take(i + 1).drop_last() =~= self@.take(i as int));
            }
            if *self.items[i].file_name() == wanted {
                proof {
                    lemma_first_where_extends(self@, test, i + 1);
                }
                return Some(i);
            }
            i += 1;
        }
        proof {
            assert(self@.take(i as int) =~= self@);
        }
        None
    }

    /// The first item whose file has the name `name`, if there is one.
    pub fn find_by_filename(&self, name: &str) -> (r: Option<&MediaItem>)
        ensures
            match r {
                Some(item) => first_where(self@, has_file_name(name@)) matches Some(i)
                    && *item == self@[i],
                None => first_where(self@, has_file_name(name@)) is None,
            },
            r is Some <==> exists|i: int|
                0 <= i < self@.len() && (#[trigger] self@[i]).spec_file_name() == name@,
    {
        proof {
            lemma_first_where_is_least(self@, has_file_name(name@));
        }
        match self.position(name) {
            Some(i) => Some(&self.items[i]),
            None => None,
        }
    }

    /// Takes the first item whose file has the name `name` out of the
    /// library and returns it; the items behind it move up. Where no item
    /// has that name, nothing changes.
    pub fn remove_by_filename(&mut self, name: &str) -> (r: Option<MediaItem>)
        ensures
            match first_where(old(self)@, has_file_name(name@)) {
                Some(i) => r == Some(old(self)@[i]) && final(self)@ == old(self)@.remove(i),
                None => r is None && final(self)@ == old(self)@,
            },
            r is Some <==> exists|i: int|
                0 <= i < old(self)@.len() && (#[trigger] old(self)@[i]).spec_file_name() == name@,
    {
        proof {
            lemma_first_where_is_least(self@, has_file_name(name@));
        }
        let idx = self.position(name)?;
        Some(self.items.remove(idx))
    }
}

} // verus!
