//! The media files of a directory and what lies beside them. The directory
//! is read by the caller; what is made of the listing is decided here.

use vstd::prelude::*;
use vstd::seq_lib::{to_multiset_build, to_multiset_insert};
use crate::lookup::{keys_of, Keyed};
use crate::order::{
    insert_position, insert_sorted, is_sorted, lemma_insert_keeps_sorted, lemma_insert_position,
    lemma_sorted_texts, sorted_texts,
};
use crate::commands::{has_allowed_extension, has_extension_in, normalize_extensions};
use crate::paths::{
    final_component_of, joined, path_file_name, path_join, path_with_extension, with_extension_of,
};
use crate::types::{text_opt, texts, ListVideosRequest, SrtListItem, VideoListItem};

verus! {

/// Where the results of a batch go: `audio_replaced` below the input
/// directory.
pub fn build_output_dir(input_dir: &str) -> (r: String)
    ensures
        r@ == joined(input_dir@, "audio_replaced"@),
{
    path_join(input_dir, "audio_replaced")
}

/// The paths of a list that have an allowed extension, in their order.
pub open spec fn media_files(entries: Seq<Seq<char>>, allowed: Seq<Seq<char>>) -> Seq<Seq<char>>
    decreases entries.len(),
{
    if entries.len() == 0 {
        Seq::empty()
    } else if has_allowed_extension(entries.last(), allowed) {
        media_files(entries.drop_last(), allowed).push(entries.last())
    } else {
        media_files(entries.drop_last(), allowed)
    }
}

/// The media files among the entries of a directory: the paths with an
/// allowed extension, in ascending order.
pub fn collect_media_files(entries: &[String], allowed_extensions: &[String]) -> (r: Vec<String>)
    ensures
        texts(r@) == sorted_texts(media_files(texts(entries@), texts(allowed_extensions@))),
        is_sorted(texts(r@)),
        texts(r@).to_multiset() == media_files(
            texts(entries@),
            texts(allowed_extensions@),
        ).to_multiset(),
{
    let normalized = normalize_extensions(allowed_extensions);
    let ghost allowed = texts(allowed_extensions@);
    let ghost all = texts(entries@);
    let mut out: Vec<String> = Vec::new();
    let mut i: usize = 0;
    while i < entries.len()
        invariant
            i <= entries@.len(),
            all == texts(entries@),
            allowed == texts(allowed_extensions@),
            normalized.len() == allowed.len(),
            forall|k: int|
                0 <= k < normalized.len() ==> (#[trigger] normalized[k])@
                    == crate::commands::normalized_extension(allowed[k]),
            texts(out@) == sorted_texts(media_files(all.take(i as int), allowed)),
        decreases entries@.len() - i,
    {
        assert(all.take(i as int + 1).drop_last() =~= all.take(i as int));
        let keep = has_extension_in(entries[i].as_str(), &normalized);
        proof {
            let path = all[i as int];
            if keep {
                let k = choose|k: int|
                    0 <= k < normalized.len() && (#[trigger] normalized[k])@
                        == crate::commands::dotted_extension(path);
                assert(crate::commands::normalized_extension(allowed[k])
                    == crate::commands::dotted_extension(path));
            }
            if has_allowed_extension(path, allowed) {
                let k = choose|k: int|
                    0 <= k < allowed.len() && #[trigger] crate::commands::normalized_extension(
                        allowed[k],
                    ) == crate::commands::dotted_extension(path);
                assert(normalized[k]@ == crate::commands::dotted_extension(path));
            }
        }
        if keep {
            let ghost before = out@;
            let entry = entries[i].clone();
            insert_sorted(&mut out, entry);
            proof {
                let place = insert_position(keys_of(before), entry.key_of());
                lemma_insert_position(keys_of(before), entry.key_of());
                assert(keys_of(before) =~= texts(before));
                assert(texts(out@) =~= texts(before).insert(place, all[i as int]));
                assert(media_files(all.take(i as int + 1), allowed).drop_last() =~= media_files(
                    all.take(i as int),
                    allowed,
                ));
            }
        }
        i = i + 1;
    }
    proof {
        assert(all.take(entries@.len() as int) =~= all);
        lemma_sorted_texts(media_files(all, allowed));
    }
    out
}

/// The videos among the entries of the directory that a request names: the
/// paths with an extension that the request allows, in ascending order.
pub fn list_videos(request: &ListVideosRequest, entries: &[String]) -> (r: Vec<String>)
    ensures
        texts(r@) == sorted_texts(
            media_files(texts(entries@), texts(request.allowed_extensions@)),
        ),
        is_sorted(texts(r@)),
{
    collect_media_files(entries, request.allowed_extensions.as_slice())
}

/// The extension of subtitle files.
pub open spec fn srt_extensions() -> Seq<Seq<char>> {
    seq![".srt"@]
}

/// The subtitle files among the entries of a directory: the paths with the
/// extension `.srt`, in ascending order.
pub fn list_srt_files(entries: &[String]) -> (r: Vec<String>)
    ensures
        texts(r@) == sorted_texts(media_files(texts(entries@), srt_extensions())),
        is_sorted(texts(r@)),
{
    let mut allowed: Vec<String> = Vec::new();
    allowed.push(".srt".to_owned());
    assert(texts(allowed@) =~= srt_extensions());
    collect_media_files(entries, allowed.as_slice())
}

/// The path of the subtitles that may lie beside a file.
fn subtitle_path(path: &str) -> (r: String)
    ensures
        r@ == with_extension_of(path@, "srt"@),
{
    proof {
        reveal_strlit("srt");
    }
    path_with_extension(path, "srt")
}

/// The path of the analysis that may lie beside a file.
fn analysis_path(path: &str) -> (r: String)
    ensures
        r@ == with_extension_of(path@, "analysis.json"@),
{
    proof {
        reveal_strlit("analysis.json");
    }
    path_with_extension(path, "analysis.json")
}

/// What may lie beside a video: its subtitles and its analysis.
#[derive(Debug, PartialEq)]
pub struct Sidecars {
    pub srt_path: String,
    pub analysis_path: String,
}

/// The paths of what may lie beside a video.
pub fn video_sidecars(path: &str) -> (r: Sidecars)
    ensures
        r.srt_path@ == with_extension_of(path@, "srt"@),
        r.analysis_path@ == with_extension_of(path@, "analysis.json"@),
{
    Sidecars {
        srt_path: subtitle_path(path),
        analysis_path: analysis_path(path),
    }
}

/// The path of the analysis that may lie beside a subtitle file.
pub fn srt_sidecar(path: &str) -> (r: String)
    ensures
        r@ == with_extension_of(path@, "analysis.json"@),
{
    analysis_path(path)
}

/// A video that was found, and whether its subtitles and its analysis lie
/// beside it.
#[derive(Debug, Clone, PartialEq)]
pub struct VideoProbe {
    pub path: String,
    pub has_srt: bool,
    pub has_analysis: bool,
}

/// A subtitle file that was found, and whether its analysis lies beside it.
#[derive(Debug, Clone, PartialEq)]
pub struct SrtProbe {
    pub path: String,
    pub has_analysis: bool,
}

/// The model of an entry of a list of videos.
pub struct VideoItemModel {
    pub file_name: Seq<char>,
    pub path: Seq<char>,
    pub srt_path: Option<Seq<char>>,
    pub analysis_path: Option<Seq<char>>,
    pub has_srt: bool,
    pub has_analysis: bool,
}

/// The model of an entry of a list of subtitle files.
pub struct SrtItemModel {
    pub file_name: Seq<char>,
    pub path: Seq<char>,
    pub analysis_path: Option<Seq<char>>,
    pub has_analysis: bool,
}

impl View for VideoListItem {
    type V = VideoItemModel;

    open spec fn view(&self) -> VideoItemModel {
        VideoItemModel {
            file_name: self.file_name@,
            path: self.path@,
            srt_path: text_opt(self.srt_path),
            analysis_path: text_opt(self.analysis_path),
            has_srt: self.has_srt,
            has_analysis: self.has_analysis,
        }
    }
}

impl View for SrtListItem {
    type V = SrtItemModel;

    open spec fn view(&self) -> SrtItemModel {
        SrtItemModel {
            file_name: self.file_name@,
            path: self.path@,
            analysis_path: text_opt(self.analysis_path),
            has_analysis: self.has_analysis,
        }
    }
}

/// The name under which a file is listed: its last component, or the whole
/// path where it has none.
pub open spec fn listed_name(path: Seq<char>) -> Seq<char> {
    match final_component_of(path) {
        Some(name) => name,
        None => path,
    }
}

/// The entry of a video in a list: what lies beside it is named where it is
/// there.
pub open spec fn video_item(path: Seq<char>, has_srt: bool, has_analysis: bool) -> VideoItemModel {
    VideoItemModel {
        file_name: listed_name(path),
        path,
        srt_path: if has_srt {
            Some(with_extension_of(path, "srt"@))
        } else {
            None
        },
        analysis_path: if has_analysis {
            Some(with_extension_of(path, "analysis.json"@))
        } else {
            None
        },
        has_srt,
        has_analysis,
    }
}

/// The entry of a subtitle file in a list.
pub open spec fn srt_item(path: Seq<char>, has_analysis: bool) -> SrtItemModel {
    SrtItemModel {
        file_name: listed_name(path),
        path,
        analysis_path: if has_analysis {
            Some(with_extension_of(path, "analysis.json"@))
        } else {
            None
        },
        has_analysis,
    }
}

/// The name under which a file is listed.
fn listed_file_name(path: &str) -> (r: String)
    ensures
        r@ == listed_name(path@),
{
    match path_file_name(path) {
        Some(name) => name,
        None => path.to_owned(),
    }
}

/// The entry of a video in a list.
pub fn video_list_item(probe: &VideoProbe) -> (r: VideoListItem)
    ensures
        r@ == video_item(probe.path@, probe.has_srt, probe.has_analysis),
{
    VideoListItem {
        file_name: listed_file_name(probe.path.as_str()),
        path: probe.path.clone(),
        srt_path: if probe.has_srt {
            Some(subtitle_path(probe.path.as_str()))
        } else {
            None
        },
        analysis_path: if probe.has_analysis {
            Some(analysis_path(probe.path.as_str()))
        } else {
            None
        },
        has_srt: probe.has_srt,
        has_analysis: probe.has_analysis,
    }
}

/// The entry of a subtitle file in a list.
pub fn srt_list_item(probe: &SrtProbe) -> (r: SrtListItem)
    ensures
        r@ == srt_item(probe.path@, probe.has_analysis),
{
    SrtListItem {
        file_name: listed_file_name(probe.path.as_str()),
        path: probe.path.clone(),
        analysis_path: if probe.has_analysis {
            Some(analysis_path(probe.path.as_str()))
        } else {
            None
        },
        has_analysis: probe.has_analysis,
    }
}

/// The models of a list of video entries, in their order.
pub open spec fn video_items(items: Seq<VideoListItem>) -> Seq<VideoItemModel> {
    Seq::new(items.len(), |i: int| items[i]@)
}

/// The models of a list of subtitle entries, in their order.
pub open spec fn srt_items(items: Seq<SrtListItem>) -> Seq<SrtItemModel> {
    Seq::new(items.len(), |i: int| items[i]@)
}

/// The entries that a list of found videos gives, in the order of the list.
pub open spec fn video_items_of(found: Seq<VideoProbe>) -> Seq<VideoItemModel> {
    Seq::new(
        found.len(),
        |i: int| video_item(found[i].path@, found[i].has_srt, found[i].has_analysis),
    )
}

/// The entries that a list of found subtitle files gives, in the order of
/// the list.
pub open spec fn srt_items_of(found: Seq<SrtProbe>) -> Seq<SrtItemModel> {
    Seq::new(found.len(), |i: int| srt_item(found[i].path@, found[i].has_analysis))
}

impl Keyed for VideoListItem {
    open spec fn key_of(&self) -> Seq<char> {
        self.file_name@
    }

    fn key(&self) -> (r: &str) {
        self.file_name.as_str()
    }
}

impl Keyed for SrtListItem {
    open spec fn key_of(&self) -> Seq<char> {
        self.file_name@
    }

    fn key(&self) -> (r: &str) {
        self.file_name.as_str()
    }
}

/// The file names of a list of video entries, in their order.
pub open spec fn video_names(items: Seq<VideoItemModel>) -> Seq<Seq<char>> {
    Seq::new(items.len(), |i: int| items[i].file_name)
}

/// The file names of a list of subtitle entries, in their order.
pub open spec fn srt_names(items: Seq<SrtItemModel>) -> Seq<Seq<char>> {
    Seq::new(items.len(), |i: int| items[i].file_name)
}

/// A list of video entries in the ascending order of their file names;
/// entries of one file name stay in the order of the list.
pub open spec fn videos_by_name(items: Seq<VideoItemModel>) -> Seq<VideoItemModel>
    decreases items.len(),
{
    if items.len() == 0 {
        Seq::empty()
    } else {
        let head = videos_by_name(items.drop_last());
        head.insert(insert_position(video_names(head), items.last().file_name), items.last())
    }
}

/// A list of subtitle entries in the ascending order of their file names;
/// entries of one file name stay in the order of the list.
pub open spec fn srts_by_name(items: Seq<SrtItemModel>) -> Seq<SrtItemModel>
    decreases items.len(),
{
    if items.len() == 0 {
        Seq::empty()
    } else {
        let head = srts_by_name(items.drop_last());
        head.insert(insert_position(srt_names(head), items.last().file_name), items.last())
    }
}

/// The video entries by name have their file names in ascending order and
/// are the entries of the list, each as often as the list has it.
pub proof fn lemma_videos_by_name(items: Seq<VideoItemModel>)
    ensures
        is_sorted(video_names(videos_by_name(items))),
        videos_by_name(items).len() == items.len(),
        videos_by_name(items).to_multiset() == items.to_multiset(),
    decreases items.len(),
{
    if items.len() > 0 {
        let head = videos_by_name(items.drop_last());
        let place = insert_position(video_names(head), items.last().file_name);
        lemma_videos_by_name(items.drop_last());
        lemma_insert_position(video_names(head), items.last().file_name);
        lemma_insert_keeps_sorted(video_names(head), items.last().file_name);
        assert(video_names(head.insert(place, items.last())) =~= video_names(head).insert(
            place,
            items.last().file_name,
        ));
        to_multiset_insert(head, place, items.last());
        to_multiset_build(items.drop_last(), items.last());
        assert(items.drop_last().push(items.last()) =~= items);
    } else {
        assert(videos_by_name(items) =~= items);
    }
}

/// The subtitle entries by name have their file names in ascending order and
/// are the entries of the list, each as often as the list has it.
pub proof fn lemma_srts_by_name(items: Seq<SrtItemModel>)
    ensures
        is_sorted(srt_names(srts_by_name(items))),
        srts_by_name(items).len() == items.len(),
        srts_by_name(items).to_multiset() == items.to_multiset(),
    decreases items.len(),
{
    if items.len() > 0 {
        let head = srts_by_name(items.drop_last());
        let place = insert_position(srt_names(head), items.last().file_name);
        lemma_srts_by_name(items.drop_last());
        lemma_insert_position(srt_names(head), items.last().file_name);
        lemma_insert_keeps_sorted(srt_names(head), items.last().file_name);
        assert(srt_names(head.insert(place, items.last())) =~= srt_names(head).insert(
            place,
            items.last().file_name,
        ));
        to_multiset_insert(head, place, items.last());
        to_multiset_build(items.drop_last(), items.last());
        assert(items.drop_last().push(items.last()) =~= items);
    } else {
        assert(srts_by_name(items) =~= items);
    }
}

/// The entries of the videos that were found, in the ascending order of
/// their file names; entries of one file name in the order in which they were
/// found.
pub fn discover_video_items(found: &[VideoProbe]) -> (r: Vec<VideoListItem>)
    ensures
        video_items(r@) == videos_by_name(video_items_of(found@)),
        is_sorted(video_names(video_items(r@))),
        video_items(r@).to_multiset() == video_items_of(found@).to_multiset(),
{
    let ghost all = video_items_of(found@);
    let mut items: Vec<VideoListItem> = Vec::new();
    let mut i: usize = 0;
    while i < found.len()
        invariant
            i <= found@.len(),
            all == video_items_of(found@),
            video_items(items@) == videos_by_name(all.take(i as int)),
        decreases found@.len() - i,
    {
        let ghost before = items@;
        let item = video_list_item(&found[i]);
        let ghost model = item@;
        let ghost name = item.key_of();
        insert_sorted(&mut items, item);
        proof {
            let place = insert_position(keys_of(before), name);
            lemma_insert_position(keys_of(before), name);
            assert(keys_of(before) =~= video_names(video_items(before)));
            assert(video_items(items@) =~= video_items(before).insert(place, model));
            assert(all.take(i as int + 1).drop_last() =~= all.take(i as int));
        }
        i = i + 1;
    }
    proof {
        assert(all.take(found@.len() as int) =~= all);
        lemma_videos_by_name(all);
    }
    items
}

/// The entries of the subtitle files that were found, in the ascending order
/// of their file names; entries of one file name in the order in which they
/// were found.
pub fn discover_srt_items(found: &[SrtProbe]) -> (r: Vec<SrtListItem>)
    ensures
        srt_items(r@) == srts_by_name(srt_items_of(found@)),
        is_sorted(srt_names(srt_items(r@))),
        srt_items(r@).to_multiset() == srt_items_of(found@).to_multiset(),
{
    let ghost all = srt_items_of(found@);
    let mut items: Vec<SrtListItem> = Vec::new();
    let mut i: usize = 0;
    while i < found.len()
        invariant
            i <= found@.len(),
            all == srt_items_of(found@),
            srt_items(items@) == srts_by_name(all.take(i as int)),
        decreases found@.len() - i,
    {
        let ghost before = items@;
        let item = srt_list_item(&found[i]);
        let ghost model = item@;
        let ghost name = item.key_of();
        insert_sorted(&mut items, item);
        proof {
            let place = insert_position(keys_of(before), name);
            lemma_insert_position(keys_of(before), name);
            assert(keys_of(before) =~= srt_names(srt_items(before)));
            assert(srt_items(items@) =~= srt_items(before).insert(place, model));
            assert(all.take(i as int + 1).drop_last() =~= all.take(i as int));
        }
        i = i + 1;
    }
    proof {
        assert(all.take(found@.len() as int) =~= all);
        lemma_srts_by_name(all);
    }
    items
}

} // verus!
