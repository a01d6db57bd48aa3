use vstd::prelude::*;
use vstd::slice::slice_subrange;
use vstd::utf8::{decode_utf8, valid_utf8};

use crate::duration::Duration;

verus! {

/// Whether Unicode counts a character as white space (its `White_Space`
/// property).
pub open spec fn is_white_space(c: char) -> bool {
    let code = c as u32;
    ||| 0x09 <= code <= 0x0d
    ||| code == 0x20
    ||| code == 0x85
    ||| code == 0xa0
    ||| code == 0x1680
    ||| 0x2000 <= code <= 0x200a
    ||| code == 0x2028
    ||| code == 0x2029
    ||| code == 0x202f
    ||| code == 0x205f
    ||| code == 0x3000
}

/// `s` without the white space it starts with.
pub open spec fn trimmed_start(s: Seq<char>) -> Seq<char>
    decreases s.len(),
{
    if s.len() > 0 && is_white_space(s.first()) {
        trimmed_start(s.drop_first())
    } else {
        s
    }
}

/// `s` without the white space it ends with.
pub open spec fn trimmed_end(s: Seq<char>) -> Seq<char>
    decreases s.len(),
{
    if s.len() > 0 && is_white_space(s.last()) {
        trimmed_end(s.drop_last())
    } else {
        s
    }
}

/// `s` without the white space around it.
pub open spec fn trimmed(s: Seq<char>) -> Seq<char> {
    trimmed_end(trimmed_start(s))
}

/// `str::trim` of the standard library gives the text without the characters
/// at its start and at its end that have the Unicode property `White_Space`.
pub assume_specification[ str::trim ](s: &str) -> (t: &str)
    ensures
        t@ == trimmed(s@),
;

/// The error of `core::str::from_utf8`, which is carried but never looked into.
#[verifier::external_type_specification]
#[verifier::external_body]
pub struct ExUtf8Error(core::str::Utf8Error);

/// `core::str::from_utf8` of the standard library accepts exactly the valid
/// UTF-8 texts, and gives the characters that the bytes encode.
pub assume_specification[ core::str::from_utf8 ](v: &[u8]) -> (text: Result<
    &str,
    core::str::Utf8Error,
>)
    ensures
        text is Ok <==> valid_utf8(v@),
        text matches Ok(s) ==> s@ == decode_utf8(v@),
;

/// The title and the artist that one tag of a file gives.
pub struct TagText {
    pub title: Option<String>,
    pub artist: Option<String>,
}

/// What reading the tags of a file gave: its length, the tag of the kind that
/// is usual for its format, and the first tag of any kind.
pub struct FileTags {
    pub duration: Duration,
    pub primary: Option<TagText>,
    pub first: Option<TagText>,
}

/// One entry of the playlist. `path` is the path as it is shown.
pub struct Track {
    pub path: String,
    pub title: String,
    pub artist: String,
    pub duration: Option<Duration>,
}

/// The view of a tag.
pub struct TagModel {
    pub title: Option<Seq<char>>,
    pub artist: Option<Seq<char>>,
}

/// The view of what reading the tags gave.
pub struct TagsModel {
    pub duration: nat,
    pub primary: Option<TagModel>,
    pub first: Option<TagModel>,
}

/// The view of a track, with its length in nanoseconds.
#[verifier::ext_equal]
pub struct TrackModel {
    pub path: Seq<char>,
    pub title: Seq<char>,
    pub artist: Seq<char>,
    pub duration: Option<nat>,
}

/// The view of a duration that may be missing.
pub open spec fn optional_nanos(d: Option<Duration>) -> Option<nat> {
    match d {
        Some(d) => Some(d@),
        None => None,
    }
}

/// The view of a text that may be missing.
pub open spec fn optional_text(s: Option<String>) -> Option<Seq<char>> {
    match s {
        Some(s) => Some(s@),
        None => None,
    }
}

impl View for TagText {
    type V = TagModel;

    open spec fn view(&self) -> TagModel {
        TagModel { title: optional_text(self.title), artist: optional_text(self.artist) }
    }
}

/// The view of a tag that may be missing.
pub open spec fn optional_tag(t: Option<TagText>) -> Option<TagModel> {
    match t {
        Some(t) => Some(t@),
        None => None,
    }
}

impl View for FileTags {
    type V = TagsModel;

    open spec fn view(&self) -> TagsModel {
        TagsModel {
            duration: self.duration@,
            primary: optional_tag(self.primary),
            first: optional_tag(self.first),
        }
    }
}

impl View for Track {
    type V = TrackModel;

    open spec fn view(&self) -> TrackModel {
        TrackModel {
            path: self.path@,
            title: self.title@,
            artist: self.artist@,
            duration: optional_nanos(self.duration),
        }
    }
}

/// The position of the last dot of a file name, or -1.
pub open spec fn last_dot(name: Seq<u8>) -> int
    decreases name.len(),
{
    if name.len() == 0 {
        -1
    } else if name.last() == 46 {
        name.len() - 1
    } else {
        last_dot(name.drop_last())
    }
}

/// The part of a file name after its last dot. A name without a dot has none,
/// nor has one whose only dot it starts with.
pub open spec fn extension(name: Seq<u8>) -> Option<Seq<u8>> {
    if last_dot(name) <= 0 {
        None
    } else {
        Some(name.skip(last_dot(name) + 1))
    }
}

/// The part of a file name before its extension.
pub open spec fn stem(name: Seq<u8>) -> Seq<u8> {
    if last_dot(name) <= 0 {
        name
    } else {
        name.take(last_dot(name))
    }
}

/// The lower case form of an ASCII letter; any other byte itself.
pub open spec fn lower(b: u8) -> u8 {
    if 65 <= b <= 90 {
        (b + 32) as u8
    } else {
        b
    }
}

/// The extensions of the formats that can be played.
pub open spec fn audio_extensions() -> Seq<Seq<char>> {
    seq!["mp3"@, "wav"@, "flac"@, "ogg"@, "oga"@]
}

/// The bytes spell `text` in ASCII letters of either case.
pub open spec fn spells(bytes: Seq<u8>, text: Seq<char>) -> bool {
    &&& bytes.len() == text.len()
    &&& forall|i: int|
        0 <= i < text.len() ==> lower(#[trigger] bytes[i]) as u32 == text[i] as u32
}

/// A file counts as an audio file by the extension of its name.
pub open spec fn is_audio_name(name: Option<Seq<u8>>) -> bool {
    match name {
        Some(name) => match extension(name) {
            Some(ext) => exists|k: int|
                0 <= k < audio_extensions().len() && spells(
                    ext,
                    #[trigger] audio_extensions()[k],
                ),
            None => false,
        },
        None => false,
    }
}

/// The title of a file without tags: the stem of its name, where that is text.
pub open spec fn fallback_title(name: Option<Seq<u8>>) -> Seq<char> {
    match name {
        Some(name) => if valid_utf8(stem(name)) {
            decode_utf8(stem(name))
        } else {
            "Unknown"@
        },
        None => "Unknown"@,
    }
}

/// The tag that counts: the usual one for the format, else the first one.
pub open spec fn chosen_tag(tags: TagsModel) -> Option<TagModel> {
    match tags.primary {
        Some(tag) => Some(tag),
        None => tags.first,
    }
}

/// A tag's text without white space around it, or `otherwise` where the tag
/// has none or only white space.
pub open spec fn text_or(text: Option<Seq<char>>, otherwise: Seq<char>) -> Seq<char> {
    match text {
        Some(text) => if trimmed(text).len() > 0 {
            trimmed(text)
        } else {
            otherwise
        },
        None => otherwise,
    }
}

/// The track that a file becomes.
pub open spec fn track_of(
    path: Seq<char>,
    name: Option<Seq<u8>>,
    tags: Option<TagsModel>,
) -> TrackModel {
    match tags {
        Some(tags) => match chosen_tag(tags) {
            Some(tag) => TrackModel {
                path,
                title: text_or(tag.title, fallback_title(name)),
                artist: text_or(tag.artist, Seq::empty()),
                duration: Some(tags.duration),
            },
            None => TrackModel {
                path,
                title: fallback_title(name),
                artist: Seq::empty(),
                duration: Some(tags.duration),
            },
        },
        None => TrackModel {
            path,
            title: fallback_title(name),
            artist: Seq::empty(),
            duration: None,
        },
    }
}

/// The view of a file name that may be missing.
pub open spec fn optional_name(name: Option<&[u8]>) -> Option<Seq<u8>> {
    match name {
        Some(name) => Some(name@),
        None => None,
    }
}

/// What is found as the last dot is one, and none comes after it.
pub proof fn lemma_last_dot(name: Seq<u8>)
    ensures
        -1 <= last_dot(name) < name.len(),
        last_dot(name) >= 0 ==> name[last_dot(name)] == 46,
        forall|i: int| last_dot(name) < i < name.len() ==> #[trigger] name[i] != 46,
    decreases name.len(),
{
    if name.len() > 0 && name.last() != 46 {
        lemma_last_dot(name.drop_last());
        let dot = last_dot(name);
        assert(dot >= 0 ==> name[dot] == name.drop_last()[dot]);
        assert forall|i: int| dot < i < name.len() implies #[trigger] name[i] != 46 by {
            if i < name.len() - 1 {
                assert(name.drop_last()[i] != 46);
            }
        }
    }
}

/// Finds the last dot of a file name that has one behind its first byte.
fn find_last_dot(name: &[u8]) -> (dot: Option<usize>)
    ensures
        match dot {
            Some(dot) => dot as int == last_dot(name@) && 0 < dot < name@.len(),
            None => last_dot(name@) <= 0,
        },
{
    let mut end: usize = name.len();
    assert(name@.take(end as int) =~= name@);
    while end > 1
        invariant
            end <= name@.len(),
            last_dot(name@) == last_dot(name@.take(end as int)),
        decreases end,
    {
        if name[end - 1] == 46 {
            assert(name@.take(end as int).last() == 46);
            return Some(end - 1);
        }
        assert(name@.take(end as int).drop_last() =~= name@.take(end - 1));
        end = end - 1;
    }
    proof {
        lemma_last_dot(name@.take(end as int));
    }
    None
}

/// Whether the bytes spell `text` in ASCII letters of either case.
fn spells_text(bytes: &[u8], text: &str) -> (same: bool)
    ensures
        same == spells(bytes@, text@),
{
    if bytes.len() != text.unicode_len() {
        return false;
    }
    let mut i: usize = 0;
    while i < bytes.len()
        invariant
            i <= bytes@.len(),
            bytes@.len() == text@.len(),
            forall|j: int| 0 <= j < i ==> lower(#[trigger] bytes@[j]) as u32 == text@[j] as u32,
        decreases bytes@.len() - i,
    {
        let b: u8 = bytes[i];
        let small: u8 = if 65 <= b && b <= 90 {
            b + 32
        } else {
            b
        };
        assert(small == lower(bytes@[i as int]));
        if small as u32 != text.get_char(i) as u32 {
            return false;
        }
        i = i + 1;
    }
    true
}

/// Whether the file with this name, if it has one, counts as an audio file.
pub fn is_audio_file(file_name: Option<&[u8]>) -> (audio: bool)
    ensures
        audio == is_audio_name(optional_name(file_name)),
{
    match file_name {
        Some(name) => match find_last_dot(name) {
            Some(dot) => {
                let len: usize = name.len();
                let ext = slice_subrange(name, dot + 1, len);
                let ghost all = audio_extensions();
                assert(ext@ =~= name@.skip(last_dot(name@) + 1));
                assert(all[0] == "mp3"@ && all[1] == "wav"@ && all[2] == "flac"@ && all[3]
                    == "ogg"@ && all[4] == "oga"@);
                spells_text(ext, "mp3") || spells_text(ext, "wav") || spells_text(ext, "flac")
                    || spells_text(ext, "ogg") || spells_text(ext, "oga")
            },
            None => false,
        },
        None => false,
    }
}

/// Whether something found in a directory joins the playlist: files do that
/// count as audio files.
pub fn joins_playlist(is_file: bool, file_name: Option<&[u8]>) -> (joins: bool)
    ensures
        joins == (is_file && is_audio_name(optional_name(file_name))),
{
    is_file && is_audio_file(file_name)
}

/// The title of a file without tags.
fn title_from_name(file_name: Option<&[u8]>) -> (title: String)
    ensures
        title@ == fallback_title(optional_name(file_name)),
{
    match file_name {
        Some(name) => {
            let end: usize = match find_last_dot(name) {
                Some(dot) => dot,
                None => name.len(),
            };
            let before = slice_subrange(name, 0, end);
            assert(before@ =~= stem(name@));
            match core::str::from_utf8(before) {
                Ok(text) => text.to_owned(),
                Err(_) => "Unknown".to_owned(),
            }
        },
        None => "Unknown".to_owned(),
    }
}

/// A tag's text without white space around it, or `otherwise`.
fn trim_or(text: Option<String>, otherwise: String) -> (chosen: String)
    ensures
        chosen@ == text_or(optional_text(text), otherwise@),
{
    match text {
        Some(text) => {
            let inner = text.as_str().trim();
            if !inner.is_empty() {
                inner.to_owned()
            } else {
                otherwise
            }
        },
        None => otherwise,
    }
}

/// Makes the playlist entry of a file from its path as it is shown, the name
/// of the file, and what reading its tags gave, if that went well.
pub fn load_track(path: String, file_name: Option<&[u8]>, tags: Option<FileTags>) -> (track: Track)
    ensures
        track@ == track_of(
            path@,
            optional_name(file_name),
            match tags {
                Some(tags) => Some(tags@),
                None => None,
            },
        ),
{
    let fallback = title_from_name(file_name);
    match tags {
        Some(tags) => {
            let duration = Some(tags.duration);
            let tag = match tags.primary {
                Some(tag) => Some(tag),
                None => tags.first,
            };
            match tag {
                Some(tag) => {
                    let title = trim_or(tag.title, fallback);
                    let artist = trim_or(tag.artist, String::new());
                    Track { path, title, artist, duration }
                },
                None => Track { path, title: fallback, artist: String::new(), duration },
            }
        },
        None => Track { path, title: fallback, artist: String::new(), duration: None },
    }
}

} // verus!
