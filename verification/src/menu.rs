//! The quality filter and the selection menu.

use crate::def::{
    format_views, singer_display, song_views, MusicFormat, MusicFormatView, Song, SongView,
};
use crate::error::MenuError;
use crate::text::{
    decimal_text, digit_char, digit_str, parse_size, size_value, text_result, text_views,
    to_decimal,
};
use vstd::prelude::*;

verus! {

/// The first of `formats`, in their order, whose tier is `tier`.
pub open spec fn first_format(formats: Seq<MusicFormatView>, tier: Seq<char>) -> Option<
    MusicFormatView,
>
    decreases formats.len(),
{
    if formats.len() == 0 {
        None
    } else if formats[0].format_type == tier {
        Some(formats[0])
    } else {
        first_format(formats.drop_first(), tier)
    }
}

/// Whether a track offers at least one format of `tier`.
pub open spec fn has_tier(song: SongView, tier: Seq<char>) -> bool {
    first_format(song.new_rate_formats, tier) is Some
}

/// The test that the filter applies to each track.
pub open spec fn offers(tier: Seq<char>) -> spec_fn(SongView) -> bool {
    |song: SongView| has_tier(song, tier)
}

/// The tracks behind a sequence of references, as they stand in contracts.
pub open spec fn ref_views(songs: Seq<&Song>) -> Seq<SongView> {
    Seq::new(songs.len(), |i: int| songs[i]@)
}

/// Finds the first format of `tier` that a track offers.
pub fn first_format_of<'a>(song: &'a Song, tier: &str) -> (res: Option<&'a MusicFormat>)
    ensures
        match res {
            Some(format) => first_format(song@.new_rate_formats, tier@) == Some(format@),
            None => first_format(song@.new_rate_formats, tier@) is None,
        },
{
    let wanted: String = tier.to_owned();
    let ghost views = song@.new_rate_formats;
    let mut i: usize = 0;
    assert(views.subrange(0, views.len() as int) =~= views);
    while i < song.new_rate_formats.len()
        invariant
            i <= song.new_rate_formats.len(),
            wanted@ == tier@,
            views == format_views(song.new_rate_formats@),
            first_format(views, tier@) == first_format(
                views.subrange(i as int, views.len() as int),
                tier@,
            ),
        decreases song.new_rate_formats.len() - i,
    {
        let ghost rest = views.subrange(i as int, views.len() as int);
        assert(rest.drop_first() =~= views.subrange(i as int + 1, views.len() as int));
        if song.new_rate_formats[i].format_type == wanted {
            return Some(&song.new_rate_formats[i]);
        }
        i = i + 1;
    }
    None
}

/// Keeps the tracks that offer a format of `tier`, in the order they came in.
pub fn filter_by_tier<'a>(tracks: &'a Vec<Song>, tier: &str) -> (res: Vec<&'a Song>)
    ensures
        ref_views(res@) == song_views(tracks@).filter(offers(tier@)),
{
    let ghost all = song_views(tracks@);
    let mut out: Vec<&'a Song> = Vec::new();
    let mut i: usize = 0;
    proof {
        reveal(Seq::filter);
    }
    while i < tracks.len()
        invariant
            i <= tracks.len(),
            all == song_views(tracks@),
            ref_views(out@) == all.subrange(0, i as int).filter(offers(tier@)),
        decreases tracks.len() - i,
    {
        let kept: bool = first_format_of(&tracks[i], tier).is_some();
        if kept {
            out.push(&tracks[i]);
        }
        proof {
            reveal(Seq::filter);
            let longer = all.subrange(0, i as int + 1);
            assert(longer.drop_last() =~= all.subrange(0, i as int));
        }
        i = i + 1;
    }
    assert(all.subrange(0, i as int) =~= all);
    out
}

/// The positions in `tracks`, in rising order, of the tracks that offer `tier`.
pub open spec fn kept_positions(tracks: Seq<SongView>, tier: Seq<char>) -> Seq<int>
    decreases tracks.len(),
{
    if tracks.len() == 0 {
        Seq::empty()
    } else if has_tier(tracks.last(), tier) {
        kept_positions(tracks.drop_last(), tier).push(tracks.len() - 1)
    } else {
        kept_positions(tracks.drop_last(), tier)
    }
}

/// Filtering by tier keeps exactly the tracks that offer the tier, each as
/// often as it occurs, and in the order they came in: the kept tracks are the
/// tracks at the kept positions, the kept positions rise, and a position is
/// kept if and only if the track there offers the tier.
pub proof fn lemma_filter_keeps_order(tracks: Seq<SongView>, tier: Seq<char>)
    ensures
        tracks.filter(offers(tier)).len() == kept_positions(tracks, tier).len(),
        forall|k: int|
            0 <= k < kept_positions(tracks, tier).len() ==> 0 <= (#[trigger] kept_positions(
                tracks,
                tier,
            )[k]) < tracks.len() && tracks.filter(offers(tier))[k] == tracks[kept_positions(
                tracks,
                tier,
            )[k]],
        forall|k: int, l: int|
            0 <= k < l < kept_positions(tracks, tier).len() ==> (#[trigger] kept_positions(
                tracks,
                tier,
            )[k]) < (#[trigger] kept_positions(tracks, tier)[l]),
        forall|j: int|
            0 <= j < tracks.len() ==> (has_tier(#[trigger] tracks[j], tier) <==> kept_positions(
                tracks,
                tier,
            ).contains(j)),
        forall|k: int|
            0 <= k < tracks.filter(offers(tier)).len() ==> has_tier(
                #[trigger] tracks.filter(offers(tier))[k],
                tier,
            ),
    decreases tracks.len(),
{
    reveal(Seq::filter);
    let positions = kept_positions(tracks, tier);
    if tracks.len() > 0 {
        let shorter = tracks.drop_last();
        lemma_filter_keeps_order(shorter, tier);
        let before = kept_positions(shorter, tier);
        assert forall|j: int| 0 <= j < tracks.len() implies (has_tier(#[trigger] tracks[j], tier)
            <==> positions.contains(j)) by {
            if j < tracks.len() - 1 {
                assert(shorter[j] == tracks[j]);
                if has_tier(tracks[j], tier) {
                    let k = choose|k: int| 0 <= k < before.len() && before[k] == j;
                    assert(positions[k] == j);
                }
            } else if has_tier(tracks[j], tier) {
                assert(positions[positions.len() - 1] == j);
            }
        }
    }
}

/// The size in hundredths of a mebibyte, rounded to the nearest; a size
/// halfway between two goes to the even one.
pub open spec fn hundredths_of_mib(size: nat) -> nat {
    let scaled = size * 100;
    let whole = scaled / 1048576;
    let rest = scaled % 1048576;
    if rest > 524288 || (rest == 524288 && whole % 2 == 1) {
        whole + 1
    } else {
        whole
    }
}

/// The text of a size in bytes: mebibytes with two decimals, then ` MB`.
pub open spec fn size_text(size: nat) -> Seq<char> {
    let hundredths = hundredths_of_mib(size);
    decimal_text(hundredths / 100) + seq!['.', digit_char(hundredths % 100 / 10), digit_char(
        hundredths % 10,
    )] + " MB"@
}

/// Renders a size in bytes as mebibytes with two decimals.
pub fn render_size(size: u64) -> (res: String)
    ensures
        res@ == size_text(size as nat),
{
    let mebibytes: u64 = size / 1048576;
    let part: u64 = (size % 1048576) * 100;
    let whole: u64 = mebibytes * 100 + part / 1048576;
    let rest: u64 = part % 1048576;
    proof {
        assert(size * 100 == whole * 1048576 + rest) by (nonlinear_arith)
            requires
                size == mebibytes * 1048576 + size % 1048576,
                part == (size % 1048576) * 100,
                part == (part / 1048576) * 1048576 + rest,
                whole == mebibytes * 100 + part / 1048576,
        ;
        vstd::arithmetic::div_mod::lemma_fundamental_div_mod_converse(
            size * 100,
            1048576,
            whole as int,
            rest as int,
        );
    }
    let hundredths: u64 = if rest > 524288 || (rest == 524288 && whole % 2 == 1) {
        whole + 1
    } else {
        whole
    };
    let mut out: String = to_decimal(hundredths / 100);
    proof {
        reveal_strlit(".");
    }
    out.append(".");
    out.append(digit_str(hundredths % 100 / 10));
    out.append(digit_str(hundredths % 10));
    out.append(" MB");
    out
}

/// The line of the menu for a track at `position`, counted from 1.
pub open spec fn menu_line_text(
    position: nat,
    name: Seq<char>,
    singer: Seq<char>,
    size: nat,
) -> Seq<char> {
    decimal_text(position) + ". "@ + name + " -"@ + singer_display(singer) + " -- "@ + size_text(
        size,
    )
}

/// The line of the menu for `song` at `position`: its name, its first singer
/// and the size of its first format of `tier`; or why there is none.
pub open spec fn menu_line_of(position: nat, song: SongView, tier: Seq<char>) -> Result<
    Seq<char>,
    MenuError,
> {
    match first_format(song.new_rate_formats, tier) {
        None => Err(MenuError::NoMatchingFormat),
        Some(format) => match size_value(format.size) {
            None => Err(MenuError::InvalidSize),
            Some(size) => if song.singers.len() == 0 {
                Err(MenuError::NoSinger)
            } else {
                Ok(menu_line_text(position, song.name, song.singers[0].name, size as nat))
            },
        },
    }
}

/// Renders the line of the menu for `song` at `position`, counted from 1.
pub fn menu_line(position: u64, song: &Song, tier: &str) -> (res: Result<String, MenuError>)
    ensures
        text_result(res) == menu_line_of(position as nat, song@, tier@),
{
    let format: &MusicFormat = match first_format_of(song, tier) {
        Some(format) => format,
        None => { return Err(MenuError::NoMatchingFormat); },
    };
    let size: u64 = match parse_size(format.size.as_str()) {
        Some(size) => size,
        None => { return Err(MenuError::InvalidSize); },
    };
    if song.singers.len() == 0 {
        return Err(MenuError::NoSinger);
    }
    let mut out: String = to_decimal(position);
    out.append(". ");
    out.append(song.name.as_str());
    out.append(" -");
    out.append(song.singers[0].display().as_str());
    out.append(" -- ");
    out.append(render_size(size).as_str());
    Ok(out)
}

/// The lines for the first `count` of `tracks`, or the failure of the first
/// track among them that has no line.
pub open spec fn lines_of_first(tracks: Seq<SongView>, tier: Seq<char>, count: nat) -> Result<
    Seq<Seq<char>>,
    MenuError,
>
    decreases count,
{
    if count == 0 {
        Ok(Seq::empty())
    } else {
        match lines_of_first(tracks, tier, (count - 1) as nat) {
            Err(e) => Err(e),
            Ok(lines) => match menu_line_of(count, tracks[count - 1], tier) {
                Ok(line) => Ok(lines.push(line)),
                Err(e) => Err(e),
            },
        }
    }
}

/// The lines of the menu for `tracks`, one for each in order and numbered
/// from 1. There is no menu without tracks.
pub open spec fn menu_lines_of(tracks: Seq<SongView>, tier: Seq<char>) -> Result<
    Seq<Seq<char>>,
    MenuError,
> {
    if tracks.len() == 0 {
        Err(MenuError::Empty)
    } else {
        lines_of_first(tracks, tier, tracks.len())
    }
}

/// Whether `song` has all that a line of the menu takes: a format of
/// `tier` whose size is a number, and a singer.
pub open spec fn presentable(song: SongView, tier: Seq<char>) -> bool {
    &&& first_format(song.new_rate_formats, tier) matches Some(format)
    &&& size_value(format.size) is Some
    &&& song.singers.len() > 0
}

/// A list of presentable tracks that is not empty has a menu, with one line
/// for each track in order: its position from 1, its name, its first singer
/// and the size of its first format of the tier.
pub proof fn lemma_menu_has_a_line_for_each_track(tracks: Seq<SongView>, tier: Seq<char>)
    requires
        tracks.len() > 0,
        forall|i: int| 0 <= i < tracks.len() ==> presentable(#[trigger] tracks[i], tier),
    ensures
        menu_lines_of(tracks, tier) is Ok,
        menu_lines_of(tracks, tier)->Ok_0.len() == tracks.len(),
        forall|i: int|
            0 <= i < tracks.len() ==> (#[trigger] menu_lines_of(tracks, tier)->Ok_0[i])
                == menu_line_text(
                (i + 1) as nat,
                tracks[i].name,
                tracks[i].singers[0].name,
                size_value(first_format(tracks[i].new_rate_formats, tier)->0.size)->0 as nat,
            ),
{
    lemma_lines_of_presentable(tracks, tier, tracks.len());
}

proof fn lemma_lines_of_presentable(tracks: Seq<SongView>, tier: Seq<char>, count: nat)
    requires
        count <= tracks.len(),
        forall|i: int| 0 <= i < tracks.len() ==> presentable(#[trigger] tracks[i], tier),
    ensures
        lines_of_first(tracks, tier, count) is Ok,
        lines_of_first(tracks, tier, count)->Ok_0.len() == count,
        forall|i: int|
            0 <= i < count ==> (#[trigger] lines_of_first(tracks, tier, count)->Ok_0[i])
                == menu_line_text(
                (i + 1) as nat,
                tracks[i].name,
                tracks[i].singers[0].name,
                size_value(first_format(tracks[i].new_rate_formats, tier)->0.size)->0 as nat,
            ),
    decreases count,
{
    if count > 0 {
        lemma_lines_of_presentable(tracks, tier, (count - 1) as nat);
        assert(presentable(tracks[count - 1], tier));
    }
}

/// Renders the menu for `tracks`.
pub fn menu_lines(tracks: &Vec<&Song>, tier: &str) -> (res: Result<Vec<String>, MenuError>)
    ensures
        match res {
            Ok(lines) => menu_lines_of(ref_views(tracks@), tier@) == Ok::<
                Seq<Seq<char>>,
                MenuError,
            >(text_views(lines@)),
            Err(e) => menu_lines_of(ref_views(tracks@), tier@) == Err::<Seq<Seq<char>>, MenuError>(
                e,
            ),
        },
{
    if tracks.len() == 0 {
        return Err(MenuError::Empty);
    }
    let ghost views = ref_views(tracks@);
    let mut out: Vec<String> = Vec::new();
    let mut i: usize = 0;
    assert(text_views(out@) =~= Seq::<Seq<char>>::empty());
    while i < tracks.len()
        invariant
            i <= tracks.len(),
            views == ref_views(tracks@),
            lines_of_first(views, tier@, i as nat) == Ok::<Seq<Seq<char>>, MenuError>(
                text_views(out@),
            ),
        decreases tracks.len() - i,
    {
        let ghost before = text_views(out@);
        match menu_line((i + 1) as u64, tracks[i], tier) {
            Ok(line) => {
                out.push(line);
                assert(text_views(out@) =~= before.push(line@));
            },
            Err(e) => {
                proof {
                    lemma_failure_stays(views, tier@, (i + 1) as nat, tracks.len() as nat);
                }
                return Err(e);
            },
        }
        i = i + 1;
    }
    Ok(out)
}

/// Once the first `count` tracks fail, so does every longer run of them, and
/// with the same failure.
proof fn lemma_failure_stays(tracks: Seq<SongView>, tier: Seq<char>, count: nat, more: nat)
    requires
        count <= more,
        lines_of_first(tracks, tier, count) is Err,
    ensures
        lines_of_first(tracks, tier, more) == lines_of_first(tracks, tier, count),
    decreases more,
{
    if count < more {
        lemma_failure_stays(tracks, tier, count, (more - 1) as nat);
    }
}

/// The prompt above a menu of `count` tracks.
pub open spec fn prompt_text(count: nat) -> Seq<char> {
    "Find "@ + decimal_text(count)
        + " results with super high quality, Press `enter` or `space` key to download..."@
}

/// Renders the prompt above a menu of `count` tracks.
pub fn menu_prompt(count: usize) -> (res: String)
    ensures
        res@ == prompt_text(count as nat),
{
    let mut out: String = String::from_str("Find ");
    out.append(to_decimal(count as u64).as_str());
    out.append(" results with super high quality, Press `enter` or `space` key to download...");
    out
}

/// The track that a choice of the menu stands for: the one at `choice`,
/// counted from 0, or none where the menu has no such line.
pub fn chosen_track<'a>(tracks: &Vec<&'a Song>, choice: usize) -> (res: Option<&'a Song>)
    ensures
        choice < tracks@.len() ==> res == Some(tracks@[choice as int]),
        choice >= tracks@.len() ==> res is None,
{
    if choice < tracks.len() {
        Some(tracks[choice])
    } else {
        None
    }
}

} // verus!
