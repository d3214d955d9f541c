//! The listening history: its entries, and the artists that it names.

use crate::spotify::model::{ArtistObject, PlayHistoryObject};
use crate::text::{same, texts};
use vstd::prelude::*;

verus! {

/// The entries that were read.
pub open spec fn readable(items: Seq<Result<PlayHistoryObject, String>>) -> Seq<PlayHistoryObject>
    decreases items.len(),
{
    if items.len() == 0 {
        Seq::empty()
    } else {
        let before = readable(items.drop_last());
        match items.last() {
            Ok(item) => before.push(item),
            Err(_) => before,
        }
    }
}

/// The message of the first entry that was not read.
pub open spec fn first_failure(items: Seq<Result<PlayHistoryObject, String>>) -> Option<String>
    decreases items.len(),
{
    if items.len() == 0 {
        None
    } else {
        match (first_failure(items.drop_last()), items.last()) {
            (None, Err(e)) => Some(e),
            (before, _) => before,
        }
    }
}

/// Sorts the entries of the listening history: an entry that could not be read is
/// skipped, and does not affect the others. Returns the entries that were read,
/// the number of those skipped and the message of the first of them.
pub fn parse_play_history(items: Vec<Result<PlayHistoryObject, String>>) -> (r: (
    Vec<PlayHistoryObject>,
    usize,
    Option<String>,
))
    ensures
        r.0@ == readable(items@),
        r.1 == items@.len() - readable(items@).len(),
        r.2 == first_failure(items@),
{
    let ghost all = items@;
    let count: usize = items.len();
    let mut parsed: Vec<PlayHistoryObject> = Vec::new();
    let mut skipped: usize = 0;
    let mut first_error: Option<String> = None;
    for item in it: items
        invariant
            it.seq() == all,
            count == all.len(),
            parsed@ == readable(all.take(it.index() as int)),
            skipped + parsed@.len() == it.index(),
            first_error == first_failure(all.take(it.index() as int)),
    {
        assert(all.take(it.index() + 1).drop_last() =~= all.take(it.index() as int));
        match item {
            Ok(entry) => parsed.push(entry),
            Err(e) => {
                skipped = skipped + 1;
                if first_error.is_none() {
                    first_error = Some(e);
                }
            },
        }
    }
    assert(all.take(all.len() as int) =~= all);
    (parsed, skipped, first_error)
}

/// The IDs that the artists of a track have.
pub open spec fn ids_of(artists: Seq<ArtistObject>) -> Seq<Seq<char>>
    decreases artists.len(),
{
    if artists.len() == 0 {
        Seq::empty()
    } else {
        let before = ids_of(artists.drop_last());
        match artists.last().id {
            Some(id) => before.push(id@),
            None => before,
        }
    }
}

/// The IDs of the artists of a track, in their order.
pub fn artist_ids(artists: &Vec<ArtistObject>) -> (r: Vec<String>)
    ensures
        texts(r@) == ids_of(artists@),
{
    let ghost all = artists@;
    let mut ids: Vec<String> = Vec::new();
    let mut i: usize = 0;
    assert(texts(ids@) =~= ids_of(all.take(0)));
    while i < artists.len()
        invariant
            i <= artists.len(),
            all == artists@,
            texts(ids@) == ids_of(all.take(i as int)),
        decreases artists.len() - i,
    {
        let ghost before = texts(ids@);
        assert(all.take(i + 1).drop_last() =~= all.take(i as int));
        match &artists[i].id {
            Some(id) => {
                ids.push(id.clone());
                assert(texts(ids@) =~= before.push(id@));
            },
            None => {},
        }
        i = i + 1;
    }
    assert(all.take(all.len() as int) =~= all);
    ids
}

/// The IDs of the artists of all the entries, in their order.
pub open spec fn all_ids(items: Seq<PlayHistoryObject>) -> Seq<Seq<char>>
    decreases items.len(),
{
    if items.len() == 0 {
        Seq::empty()
    } else {
        all_ids(items.drop_last()) + ids_of(items.last().track.artists@)
    }
}

/// A sequence without the repeats in it: each text where it first occurs.
pub open spec fn without_repeats(s: Seq<Seq<char>>) -> Seq<Seq<char>>
    decreases s.len(),
{
    if s.len() == 0 {
        Seq::empty()
    } else {
        let before = without_repeats(s.drop_last());
        if before.contains(s.last()) {
            before
        } else {
            before.push(s.last())
        }
    }
}

/// Whether a list holds a text.
fn holds(list: &Vec<String>, text: &str) -> (r: bool)
    ensures
        r == texts(list@).contains(text@),
{
    let mut i: usize = 0;
    while i < list.len()
        invariant
            i <= list.len(),
            forall|k: int| 0 <= k < i ==> #[trigger] texts(list@)[k] != text@,
        decreases list.len() - i,
    {
        assert(texts(list@)[i as int] == list@[i as int]@);
        if same(list[i].as_str(), text) {
            return true;
        }
        i = i + 1;
    }
    false
}

/// The artists that the entries name, each once, in the order in which they first
/// occur.
pub fn unique_artist_ids(items: &Vec<PlayHistoryObject>) -> (r: Vec<String>)
    ensures
        texts(r@) == without_repeats(all_ids(items@)),
{
    let ghost all = items@;
    let mut unique: Vec<String> = Vec::new();
    let mut i: usize = 0;
    assert(texts(unique@) =~= without_repeats(all_ids(all.take(0))));
    while i < items.len()
        invariant
            i <= items.len(),
            all == items@,
            texts(unique@) == without_repeats(all_ids(all.take(i as int))),
        decreases items.len() - i,
    {
        assert(all.take(i + 1).drop_last() =~= all.take(i as int));
        let ghost earlier = all_ids(all.take(i as int));
        let ids = artist_ids(&items[i].track.artists);
        let ghost own = texts(ids@);
        let mut j: usize = 0;
        assert(earlier + own.take(0) =~= earlier);
        while j < ids.len()
            invariant
                j <= ids.len(),
                own == texts(ids@),
                texts(unique@) == without_repeats(earlier + own.take(j as int)),
            decreases ids.len() - j,
        {
            let ghost before = texts(unique@);
            let ghost upto = earlier + own.take(j + 1);
            assert(upto.drop_last() =~= earlier + own.take(j as int));
            assert(upto.last() == own[j as int]);
            if !holds(&unique, ids[j].as_str()) {
                unique.push(ids[j].clone());
                assert(texts(unique@) =~= before.push(own[j as int]));
            }
            j = j + 1;
        }
        assert(own.take(own.len() as int) =~= own);
        assert(all_ids(all.take(i + 1)) =~= earlier + own);
        i = i + 1;
    }
    assert(all.take(all.len() as int) =~= all);
    unique
}

/// A sequence without its repeats holds the same texts, each once.
pub proof fn repeats_are_dropped(s: Seq<Seq<char>>)
    ensures
        without_repeats(s).no_duplicates(),
        forall|t: Seq<char>| #[trigger] without_repeats(s).contains(t) <==> s.contains(t),
    decreases s.len(),
{
    if s.len() > 0 {
        let init = s.drop_last();
        let before = without_repeats(init);
        let after = without_repeats(s);
        repeats_are_dropped(init);
        assert forall|t: Seq<char>| #[trigger] after.contains(t) <==> s.contains(t) by {
            if s.contains(t) {
                let k = choose|k: int| 0 <= k < s.len() && s[k] == t;
                if k < init.len() {
                    assert(init[k] == t);
                    assert(before.contains(t));
                    let m = choose|m: int| 0 <= m < before.len() && before[m] == t;
                    assert(after[m] == t);
                } else if before.contains(t) {
                    let m = choose|m: int| 0 <= m < before.len() && before[m] == t;
                    assert(after[m] == t);
                } else {
                    assert(after[before.len() as int] == t);
                }
            }
            if after.contains(t) {
                let m = choose|m: int| 0 <= m < after.len() && after[m] == t;
                if m < before.len() {
                    assert(before[m] == t);
                    assert(before.contains(t));
                    let k = choose|k: int| 0 <= k < init.len() && init[k] == t;
                    assert(s[k] == t);
                } else {
                    assert(s[s.len() - 1] == t);
                }
            }
        }
    }
}

/// One entry that cannot be read costs that entry only: the others are read as if
/// it were not there.
pub proof fn bad_entries_are_skipped(
    front: Seq<Result<PlayHistoryObject, String>>,
    error: String,
    back: Seq<Result<PlayHistoryObject, String>>,
)
    ensures
        readable(front + seq![Err(error)] + back) == readable(front + back),
        readable(front + back).len() <= front.len() + back.len(),
    decreases back.len(),
{
    let with = front + seq![Err(error)] + back;
    let without = front + back;
    if back.len() > 0 {
        bad_entries_are_skipped(front, error, back.drop_last());
        assert(with.drop_last() =~= front + seq![Err(error)] + back.drop_last());
        assert(without.drop_last() =~= front + back.drop_last());
    } else {
        assert(with.drop_last() =~= front);
        assert(without =~= front);
        lemma_readable_is_no_longer(front);
    }
}

proof fn lemma_readable_is_no_longer(items: Seq<Result<PlayHistoryObject, String>>)
    ensures
        readable(items).len() <= items.len(),
    decreases items.len(),
{
    if items.len() > 0 {
        lemma_readable_is_no_longer(items.drop_last());
    }
}

/// Entries that were read come out in the order in which Spotify sent them, the most
/// recent first: those of one part of the history in front of those of the next.
pub proof fn entries_keep_their_order(
    front: Seq<Result<PlayHistoryObject, String>>,
    back: Seq<Result<PlayHistoryObject, String>>,
)
    ensures
        readable(front + back) == readable(front) + readable(back),
    decreases back.len(),
{
    if back.len() > 0 {
        entries_keep_their_order(front, back.drop_last());
        assert((front + back).drop_last() =~= front + back.drop_last());
        assert(readable(front + back) =~= readable(front) + readable(back));
    } else {
        assert(front + back =~= front);
        assert(readable(front) + readable(back) =~= readable(front));
    }
}

/// A history that can be read throughout comes out entry by entry, each in its place.
pub proof fn readable_entries_stay_in_place(items: Seq<Result<PlayHistoryObject, String>>)
    requires
        forall|i: int| 0 <= i < items.len() ==> (#[trigger] items[i]) is Ok,
    ensures
        readable(items).len() == items.len(),
        forall|i: int|
            0 <= i < items.len() ==> items[i] == Ok::<PlayHistoryObject, String>(
                #[trigger] readable(items)[i],
            ),
    decreases items.len(),
{
    if items.len() > 0 {
        let init = items.drop_last();
        assert forall|i: int| 0 <= i < init.len() implies (#[trigger] init[i]) is Ok by {
            assert(items[i] == init[i]);
        }
        readable_entries_stay_in_place(init);
        assert(items[items.len() - 1] is Ok);
        assert forall|i: int| 0 <= i < items.len() implies items[i] == Ok::<
            PlayHistoryObject,
            String,
        >(#[trigger] readable(items)[i]) by {
            if i < init.len() {
                assert(readable(items)[i] == readable(init)[i]);
                assert(items[i] == init[i]);
            }
        }
    }
}

/// Whatever lies between and around them, of two entries that can be read the one that
/// came first comes out first.
pub proof fn the_first_comes_out_first(
    a: Seq<Result<PlayHistoryObject, String>>,
    x: PlayHistoryObject,
    b: Seq<Result<PlayHistoryObject, String>>,
    y: PlayHistoryObject,
    c: Seq<Result<PlayHistoryObject, String>>,
)
    ensures
        readable(a + seq![Ok(x)] + b + seq![Ok(y)] + c) == readable(a) + seq![x] + readable(b)
            + seq![y] + readable(c),
{
    let one: Seq<Result<PlayHistoryObject, String>> = seq![Ok(x)];
    let two: Seq<Result<PlayHistoryObject, String>> = seq![Ok(y)];
    entries_keep_their_order(a + one + b + two, c);
    entries_keep_their_order(a + one + b, two);
    entries_keep_their_order(a + one, b);
    entries_keep_their_order(a, one);
    readable_entries_stay_in_place(one);
    readable_entries_stay_in_place(two);
    assert(one[0] == Ok::<PlayHistoryObject, String>(readable(one)[0]));
    assert(two[0] == Ok::<PlayHistoryObject, String>(readable(two)[0]));
    assert(readable(one) =~= seq![x]);
    assert(readable(two) =~= seq![y]);
}

/// The message told is that of the first entry that could not be read, and there is one
/// exactly if some entry could not.
pub proof fn the_first_failure_is_told(
    front: Seq<Result<PlayHistoryObject, String>>,
    error: String,
    back: Seq<Result<PlayHistoryObject, String>>,
)
    requires
        forall|i: int| 0 <= i < front.len() ==> (#[trigger] front[i]) is Ok,
    ensures
        first_failure(front) is None,
        first_failure(front + seq![Err(error)] + back) == Some(error),
    decreases front.len() + back.len(),
{
    let all = front + seq![Err(error)] + back;
    if back.len() > 0 {
        the_first_failure_is_told(front, error, back.drop_last());
        assert(all.drop_last() =~= front + seq![Err(error)] + back.drop_last());
    } else {
        assert(all.drop_last() =~= front);
        if front.len() > 0 {
            let init = front.drop_last();
            assert forall|i: int| 0 <= i < init.len() implies (#[trigger] init[i]) is Ok by {
                assert(front[i] == init[i]);
            }
            the_first_failure_is_told(init, error, back);
            assert(front[front.len() - 1] is Ok);
        }
    }
}

/// The IDs of artists come in the order of the artists, one for each that has one.
pub proof fn ids_come_in_order(
    front: Seq<ArtistObject>,
    artist: ArtistObject,
    back: Seq<ArtistObject>,
)
    ensures
        ids_of(front + back) == ids_of(front) + ids_of(back),
        artist.id matches Some(id) ==> ids_of(seq![artist]) == seq![id@],
        artist.id is None ==> ids_of(seq![artist]).len() == 0,
    decreases back.len(),
{
    let one = seq![artist];
    assert(one.drop_last() =~= Seq::empty());
    assert(ids_of(one.drop_last()) =~= Seq::empty());
    if let Some(id) = artist.id {
        assert(ids_of(one) =~= seq![id@]);
    }
    if back.len() > 0 {
        ids_come_in_order(front, artist, back.drop_last());
        assert((front + back).drop_last() =~= front + back.drop_last());
        assert(ids_of(front + back) =~= ids_of(front) + ids_of(back));
    } else {
        assert(front + back =~= front);
        assert(ids_of(front) + ids_of(back) =~= ids_of(front));
    }
}

/// The IDs that a history names are those of its entries, one entry behind the other.
pub proof fn ids_come_entry_by_entry(
    front: Seq<PlayHistoryObject>,
    entry: PlayHistoryObject,
    back: Seq<PlayHistoryObject>,
)
    ensures
        all_ids(front + back) == all_ids(front) + all_ids(back),
        all_ids(seq![entry]) == ids_of(entry.track.artists@),
    decreases back.len(),
{
    let one = seq![entry];
    assert(one.drop_last() =~= Seq::empty());
    assert(all_ids(one.drop_last()) =~= Seq::empty());
    assert(all_ids(one) =~= ids_of(entry.track.artists@));
    if back.len() > 0 {
        ids_come_entry_by_entry(front, entry, back.drop_last());
        assert((front + back).drop_last() =~= front + back.drop_last());
        assert(all_ids(front + back) =~= all_ids(front) + all_ids(back));
    } else {
        assert(front + back =~= front);
        assert(all_ids(front) + all_ids(back) =~= all_ids(front));
    }
}

/// Without its repeats a list is still in its order: what comes behind adds behind,
/// and moves nothing.
pub proof fn first_occurrences_keep_their_places(front: Seq<Seq<char>>, back: Seq<Seq<char>>)
    ensures
        without_repeats(front).len() <= without_repeats(front + back).len(),
        forall|k: int|
            0 <= k < without_repeats(front).len() ==> #[trigger] without_repeats(front + back)[k]
                == without_repeats(front)[k],
    decreases back.len(),
{
    if back.len() > 0 {
        first_occurrences_keep_their_places(front, back.drop_last());
        assert((front + back).drop_last() =~= front + back.drop_last());
        assert forall|k: int| 0 <= k < without_repeats(front).len() implies #[trigger] without_repeats(
            front + back,
        )[k] == without_repeats(front)[k] by {
            assert(without_repeats(front + back.drop_last())[k] == without_repeats(front)[k]);
        }
    } else {
        assert(front + back =~= front);
    }
}

} // verus!
