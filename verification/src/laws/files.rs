use vstd::prelude::*;
use vstd::utf8::{decode_utf8, valid_utf8};

use crate::order::{comes_before, is_ordered, joins, name_le, path_le};
use crate::track::{
    audio_extensions, extension, is_audio_name, is_white_space, last_dot, lemma_last_dot, lower,
    spells, stem, track_of, trimmed, trimmed_end, trimmed_start, FileTags, TagText,
    TagsModel,
};

verus! {

/// The bytes are these small letters and digits, with letters of either case.
pub open spec fn is_spelled(bytes: Seq<u8>, letters: Seq<u8>) -> bool {
    &&& bytes.len() == letters.len()
    &&& forall|i: int|
        0 <= i < letters.len() ==> #[trigger] bytes[i] == letters[i] || (97 <= letters[i] <= 122
            && bytes[i] + 32 == letters[i])
}

/// One of `mp3`, `wav`, `flac`, `ogg` and `oga`, in letters of either case.
pub open spec fn is_playable(ext: Seq<u8>) -> bool {
    ||| is_spelled(ext, seq![109u8, 112, 51])
    ||| is_spelled(ext, seq![119u8, 97, 118])
    ||| is_spelled(ext, seq![102u8, 108, 97, 99])
    ||| is_spelled(ext, seq![111u8, 103, 103])
    ||| is_spelled(ext, seq![111u8, 103, 97])
}

/// There is no dot among the bytes.
pub open spec fn has_no_dot(bytes: Seq<u8>) -> bool {
    forall|i: int| 0 <= i < bytes.len() ==> #[trigger] bytes[i] != 46
}

proof fn lemma_dotted_name(before: Seq<u8>, ext: Seq<u8>)
    requires
        before.len() > 0,
        has_no_dot(ext),
    ensures
        last_dot(before + seq![46u8] + ext) == before.len(),
        extension(before + seq![46u8] + ext) == Some(ext),
        stem(before + seq![46u8] + ext) == before,
{
    let name = before + seq![46u8] + ext;
    let dot = last_dot(name);
    lemma_last_dot(name);
    assert(name[before.len() as int] == 46);
    if dot > before.len() {
        assert(name[dot] == ext[dot - before.len() - 1]);
    }
    assert(name.skip(dot + 1) =~= ext);
    assert(name.take(dot) =~= before);
}

proof fn lemma_undotted_name(name: Seq<u8>)
    requires
        forall|i: int| 1 <= i < name.len() ==> #[trigger] name[i] != 46,
    ensures
        extension(name) is None,
        stem(name) == name,
{
    lemma_last_dot(name);
}

proof fn lemma_spelled(bytes: Seq<u8>, letters: Seq<u8>, text: Seq<char>)
    requires
        letters.len() == text.len(),
        forall|i: int|
            0 <= i < text.len() ==> #[trigger] text[i] as u32 == letters[i] as u32 && !(65
                <= letters[i] <= 90),
    ensures
        spells(bytes, text) <==> is_spelled(bytes, letters),
{
    if bytes.len() == text.len() {
        assert forall|i: int| 0 <= i < text.len() implies (lower(#[trigger] bytes[i]) as u32
            == text[i] as u32 <==> (bytes[i] == letters[i] || (97 <= letters[i] <= 122 && bytes[i]
            + 32 == letters[i]))) by {
            assert(text[i] as u32 == letters[i] as u32);
        }
    }
}

/// A file is an audio file just where its name has one of the known endings,
/// in letters of either case, after its last dot, and something in front of
/// that dot.
pub proof fn law_audio_files_have_known_endings(before: Seq<u8>, ext: Seq<u8>)
    requires
        before.len() > 0,
        has_no_dot(ext),
    ensures
        is_audio_name(Some(before + seq![46u8] + ext)) <==> is_playable(ext),
{
    lemma_dotted_name(before, ext);
    reveal_strlit("mp3");
    reveal_strlit("wav");
    reveal_strlit("flac");
    reveal_strlit("ogg");
    reveal_strlit("oga");
    let all = audio_extensions();
    assert(all.len() == 5);
    assert(all[0] == "mp3"@ && all[1] == "wav"@ && all[2] == "flac"@ && all[3] == "ogg"@ && all[4]
        == "oga"@);
    lemma_spelled(ext, seq![109u8, 112, 51], "mp3"@);
    lemma_spelled(ext, seq![119u8, 97, 118], "wav"@);
    lemma_spelled(ext, seq![102u8, 108, 97, 99], "flac"@);
    lemma_spelled(ext, seq![111u8, 103, 103], "ogg"@);
    lemma_spelled(ext, seq![111u8, 103, 97], "oga"@);
    if is_playable(ext) {
        assert(spells(ext, all[0]) || spells(ext, all[1]) || spells(ext, all[2]) || spells(
            ext,
            all[3],
        ) || spells(ext, all[4]));
    }
}

/// A name without a dot behind its first byte is no name of an audio file, and
/// neither is a missing one.
pub proof fn law_other_names_are_no_audio_files(name: Seq<u8>)
    requires
        forall|i: int| 1 <= i < name.len() ==> #[trigger] name[i] != 46,
    ensures
        !is_audio_name(Some(name)),
        !is_audio_name(None),
{
    lemma_undotted_name(name);
}

/// A file joins the playlist where it has one of the known endings, however
/// many directories it is down.
pub proof fn law_audio_files_join_the_playlist(
    paths: Seq<Vec<Vec<u8>>>,
    is_file: Seq<bool>,
    k: usize,
    before: Seq<u8>,
    ext: Seq<u8>,
)
    requires
        k < paths.len(),
        paths[k as int]@.len() > 0,
        paths[k as int]@.last()@ == before + seq![46u8] + ext,
        before.len() > 0,
        has_no_dot(ext),
    ensures
        joins(paths, is_file, k) <==> is_file[k as int] && is_playable(ext),
{
    law_audio_files_have_known_endings(before, ext);
    let path = paths[k as int];
    assert(path.deep_view().last() =~= path@.last()@);
}

/// Nothing else joins the playlist: no directory, nothing without a name, and
/// no file without an ending.
pub proof fn law_nothing_else_joins_the_playlist(
    paths: Seq<Vec<Vec<u8>>>,
    is_file: Seq<bool>,
    k: usize,
)
    requires
        k < paths.len(),
        ({
            ||| !is_file[k as int]
            ||| paths[k as int]@.len() == 0
            ||| forall|i: int|
                1 <= i < paths[k as int]@.last()@.len() ==> #[trigger] paths[k as int]@.last()@[i]
                    != 46
        }),
    ensures
        !joins(paths, is_file, k),
{
    let path = paths[k as int];
    if is_file[k as int] && path@.len() > 0 {
        assert(path.deep_view().last() =~= path@.last()@);
        law_other_names_are_no_audio_files(path@.last()@);
    }
}

/// Whether something joins the playlist is a matter of its own: what it is and
/// what it is called, not where it stands nor what else there is.
pub proof fn law_joining_depends_on_the_name(
    paths: Seq<Vec<Vec<u8>>>,
    is_file: Seq<bool>,
    k: usize,
    others: Seq<Vec<Vec<u8>>>,
    others_are_files: Seq<bool>,
    l: usize,
)
    requires
        k < paths.len(),
        l < others.len(),
        is_file[k as int] == others_are_files[l as int],
        paths[k as int]@.len() > 0,
        others[l as int]@.len() > 0,
        paths[k as int]@.last()@ == others[l as int]@.last()@,
    ensures
        joins(paths, is_file, k) == joins(others, others_are_files, l),
{
    assert(paths[k as int].deep_view().last() =~= paths[k as int]@.last()@);
    assert(others[l as int].deep_view().last() =~= others[l as int]@.last()@);
}

proof fn lemma_names_differ(a: Seq<u8>, b: Seq<u8>, n: int)
    requires
        0 <= n <= a.len(),
        n <= b.len(),
        a.take(n) == b.take(n),
        (n == a.len() && n < b.len()) || (n < a.len() && n < b.len() && a[n] < b[n]),
    ensures
        name_le(a, b),
        !name_le(b, a),
        a != b,
    decreases n,
{
    if n > 0 {
        assert(a[0] == a.take(n)[0] && b[0] == b.take(n)[0]);
        assert(a.drop_first().take(n - 1) =~= a.take(n).drop_first());
        assert(b.drop_first().take(n - 1) =~= b.take(n).drop_first());
        lemma_names_differ(a.drop_first(), b.drop_first(), n - 1);
    }
}

/// Paths are ordered by the first name in which they differ, and names by the
/// first byte: a smaller byte comes first, and so does a name that ends there.
pub proof fn law_paths_are_ordered_by_their_first_difference(
    a: Seq<Seq<u8>>,
    b: Seq<Seq<u8>>,
    n: int,
    m: int,
)
    requires
        0 <= n < a.len(),
        n < b.len(),
        a.take(n) == b.take(n),
        0 <= m <= a[n].len(),
        m <= b[n].len(),
        a[n].take(m) == b[n].take(m),
        (m == a[n].len() && m < b[n].len()) || (m < a[n].len() && m < b[n].len() && a[n][m]
            < b[n][m]),
    ensures
        path_le(a, b),
        !path_le(b, a),
    decreases n,
{
    if n == 0 {
        lemma_names_differ(a[0], b[0], m);
    } else {
        assert(a[0] == a.take(n)[0] && b[0] == b.take(n)[0]);
        assert(a.drop_first().take(n - 1) =~= a.take(n).drop_first());
        assert(b.drop_first().take(n - 1) =~= b.take(n).drop_first());
        law_paths_are_ordered_by_their_first_difference(
            a.drop_first(),
            b.drop_first(),
            n - 1,
            m,
        );
    }
}

/// What a path leads through comes before it.
pub proof fn law_directories_come_first(a: Seq<Seq<u8>>, b: Seq<Seq<u8>>)
    requires
        a.len() < b.len(),
        b.take(a.len() as int) == a,
    ensures
        path_le(a, b),
        !path_le(b, a),
    decreases a.len(),
{
    if a.len() > 0 {
        assert(b.take(a.len() as int)[0] == a[0]);
        assert(b.drop_first().take(a.len() - 1) =~= b.take(a.len() as int).drop_first());
        law_directories_come_first(a.drop_first(), b.drop_first());
    }
}

/// In an ordered list no path comes after one that is greater, and the same
/// path keeps the order in which it was found.
pub proof fn law_ordered_lists(paths: Seq<Vec<Vec<u8>>>, order: Seq<usize>, i: int, j: int)
    requires
        is_ordered(paths, order),
        0 <= i < j < order.len(),
    ensures
        path_le(paths[order[i] as int].deep_view(), paths[order[j] as int].deep_view()),
        paths[order[i] as int].deep_view() == paths[order[j] as int].deep_view() ==> order[i]
            < order[j],
{
    assert(comes_before(paths, order[i], order[j]));
}

/// Every character of the text is white space.
pub open spec fn is_blank(text: Seq<char>) -> bool {
    forall|i: int| 0 <= i < text.len() ==> is_white_space(#[trigger] text[i])
}

proof fn lemma_trimmed_start_of(before: Seq<char>, rest: Seq<char>)
    requires
        is_blank(before),
        rest.len() > 0 ==> !is_white_space(rest.first()),
    ensures
        trimmed_start(before + rest) == rest,
    decreases before.len(),
{
    let text = before + rest;
    if before.len() > 0 {
        assert(is_white_space(before[0]));
        assert(text.drop_first() =~= before.drop_first() + rest);
        assert forall|i: int| 0 <= i < before.drop_first().len() implies is_white_space(
            #[trigger] before.drop_first()[i],
        ) by {
            assert(is_white_space(before[i + 1]));
        }
        lemma_trimmed_start_of(before.drop_first(), rest);
    } else {
        assert(text =~= rest);
    }
}

proof fn lemma_trimmed_end_of(rest: Seq<char>, after: Seq<char>)
    requires
        is_blank(after),
        rest.len() > 0 ==> !is_white_space(rest.last()),
    ensures
        trimmed_end(rest + after) == rest,
    decreases after.len(),
{
    let text = rest + after;
    if after.len() > 0 {
        assert(is_white_space(after[after.len() - 1]));
        assert(text.drop_last() =~= rest + after.drop_last());
        assert forall|i: int| 0 <= i < after.drop_last().len() implies is_white_space(
            #[trigger] after.drop_last()[i],
        ) by {
            assert(is_white_space(after[i]));
        }
        lemma_trimmed_end_of(rest, after.drop_last());
    } else {
        assert(text =~= rest);
    }
}

/// Trimming takes away the white space around a text, and nothing of the text.
pub proof fn law_trimming_keeps_the_text(before: Seq<char>, text: Seq<char>, after: Seq<char>)
    requires
        is_blank(before),
        is_blank(after),
        text.len() > 0,
        !is_white_space(text.first()),
        !is_white_space(text.last()),
    ensures
        trimmed(before + text + after) == text,
{
    assert(before + text + after =~= before + (text + after));
    assert((text + after).first() == text.first());
    lemma_trimmed_start_of(before, text + after);
    lemma_trimmed_end_of(text, after);
}

/// Trimming leaves nothing of white space alone.
pub proof fn law_trimming_leaves_nothing_of_blanks(text: Seq<char>)
    requires
        is_blank(text),
    ensures
        trimmed(text).len() == 0,
{
    assert(text =~= text + Seq::<char>::empty());
    lemma_trimmed_start_of(text, Seq::empty());
}

/// A file whose tags cannot be read becomes a track with its name as the
/// title: what is in front of the last dot. It has no artist, and its length is
/// not known.
pub proof fn law_untagged_files_are_called_by_their_names(
    path: Seq<char>,
    before: Seq<u8>,
    ext: Seq<u8>,
)
    requires
        before.len() > 0,
        has_no_dot(ext),
    ensures
        ({
            let track = track_of(path, Some(before + seq![46u8] + ext), None);
            &&& track.path == path
            &&& valid_utf8(before) ==> track.title == decode_utf8(before)
            &&& !valid_utf8(before) ==> track.title == "Unknown"@
            &&& track.artist.len() == 0
            &&& track.duration is None
        }),
{
    lemma_dotted_name(before, ext);
}

/// A file whose name has no ending is called by the whole name, and one without
/// a name is unknown.
pub proof fn law_files_without_endings_are_called_by_their_names(path: Seq<char>, name: Seq<u8>)
    requires
        forall|i: int| 1 <= i < name.len() ==> #[trigger] name[i] != 46,
    ensures
        valid_utf8(name) ==> track_of(path, Some(name), None).title == decode_utf8(name),
        !valid_utf8(name) ==> track_of(path, Some(name), None).title == "Unknown"@,
        track_of(path, None, None).title == "Unknown"@,
{
    lemma_undotted_name(name);
}

/// A track has the path of its file, and the length that was read with the
/// tags. The tag that is usual for the format counts where there is one, and
/// else the first one.
pub proof fn law_tracks_take_the_usual_tag(
    path: Seq<char>,
    name: Option<Seq<u8>>,
    tags: TagsModel,
    other: TagsModel,
)
    ensures
        track_of(path, name, Some(tags)).path == path,
        track_of(path, name, Some(tags)).duration == Some(tags.duration),
        tags.primary is Some && other.primary == tags.primary && other.duration == tags.duration
            ==> track_of(path, name, Some(other)) == track_of(path, name, Some(tags)),
        tags.primary is None && other.primary == tags.first && other.duration == tags.duration
            && other.first is None ==> track_of(path, name, Some(other)) == track_of(
            path,
            name,
            Some(tags),
        ),
        tags.primary is None && tags.first is None ==> ({
            let track = track_of(path, name, Some(tags));
            let untagged = track_of(path, name, None);
            track.title == untagged.title && track.artist == untagged.artist
        }),
{
}

/// The title and the artist of a tag are taken over without the white space
/// around them.
pub proof fn law_tracks_take_the_texts_of_the_tag(
    path: Seq<char>,
    name: Option<Seq<u8>>,
    tags: TagsModel,
    before: Seq<char>,
    text: Seq<char>,
    after: Seq<char>,
)
    requires
        tags.primary is Some,
        is_blank(before),
        is_blank(after),
        text.len() > 0,
        !is_white_space(text.first()),
        !is_white_space(text.last()),
    ensures
        tags.primary->0.title == Some(before + text + after) ==> track_of(
            path,
            name,
            Some(tags),
        ).title == text,
        tags.primary->0.artist == Some(before + text + after) ==> track_of(
            path,
            name,
            Some(tags),
        ).artist == text,
{
    law_trimming_keeps_the_text(before, text, after);
}

/// A tag that has no title leaves the one from the file name, and one that has
/// no artist leaves none. White space alone is none.
pub proof fn law_missing_texts_are_left(
    path: Seq<char>,
    name: Option<Seq<u8>>,
    tags: TagsModel,
    blank: Seq<char>,
)
    requires
        tags.primary is Some,
        is_blank(blank),
    ensures
        tags.primary->0.title is None || tags.primary->0.title == Some(blank) ==> track_of(
            path,
            name,
            Some(tags),
        ).title == track_of(path, name, None).title,
        tags.primary->0.artist is None || tags.primary->0.artist == Some(blank) ==> track_of(
            path,
            name,
            Some(tags),
        ).artist.len() == 0,
{
    law_trimming_leaves_nothing_of_blanks(blank);
}

/// The view of what reading the tags gave shows it as it is.
pub proof fn law_view_of_tags(tags: FileTags)
    ensures
        tags@.duration == tags.duration@,
        tags@.primary is Some <==> tags.primary is Some,
        tags@.first is Some <==> tags.first is Some,
        tags.primary matches Some(tag) ==> tags@.primary == Some(tag@),
        tags.first matches Some(tag) ==> tags@.first == Some(tag@),
{
}

/// The view of a tag shows its texts as they are.
pub proof fn law_view_of_a_tag(tag: TagText)
    ensures
        tag@.title is Some <==> tag.title is Some,
        tag@.artist is Some <==> tag.artist is Some,
        tag.title matches Some(text) ==> tag@.title == Some(text@),
        tag.artist matches Some(text) ==> tag@.artist == Some(text@),
{
}

} // verus!
