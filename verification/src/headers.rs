use crate::text::{chars_of, find_char, index_of, split, text_of, trim, trim_bounds};
use vstd::prelude::*;

verus! {

/// One static header to send with every call of the backend.
#[derive(Clone, Debug, PartialEq, Eq)]
pub struct HeaderEntry {
    pub name: String,
    pub value: String,
}

/// A [`HeaderEntry`] as a mathematical value.
pub struct HeaderModel {
    pub name: Seq<char>,
    pub value: Seq<char>,
}

impl View for HeaderEntry {
    type V = HeaderModel;

    open spec fn view(&self) -> HeaderModel {
        HeaderModel { name: self.name@, value: self.value@ }
    }
}

/// The views of a list of entries, in the list's order.
pub open spec fn entry_views(entries: Seq<HeaderEntry>) -> Seq<HeaderModel> {
    entries.map_values(|e: HeaderEntry| e@)
}

/// Why a list of headers is unusable. The number is the position of the
/// entry at fault in the list, counted from zero.
#[derive(Clone, Copy, Debug, PartialEq, Eq, Structural)]
pub enum HeaderError {
    /// The entry holds no colon to part the name from the value.
    MissingColon(usize),
    /// The name is none that can be sent.
    BadName(usize),
    /// The value is none that can be sent.
    BadValue(usize),
}

/// The header that `piece` writes down, or none where it holds no colon:
/// the name stands before the first colon and the value between the first
/// colon and the second, or the end; both without the white space around
/// them.
pub open spec fn entry_of(piece: Seq<char>) -> Option<HeaderModel> {
    let colon = index_of(piece, ':');
    if colon >= piece.len() {
        None
    } else {
        let rest = piece.skip(colon + 1);
        Some(
            HeaderModel {
                name: trim(piece.take(colon)),
                value: trim(rest.take(index_of(rest, ':'))),
            },
        )
    }
}

/// The headers that `pieces` write down, or the first piece that writes
/// none.
pub open spec fn entries_of(pieces: Seq<Seq<char>>) -> Result<Seq<HeaderModel>, HeaderError>
    decreases pieces.len(),
{
    if pieces.len() == 0 {
        Ok(Seq::empty())
    } else {
        match entries_of(pieces.drop_last()) {
            Err(e) => Err(e),
            Ok(before) => match entry_of(pieces.last()) {
                None => Err(HeaderError::MissingColon((pieces.len() - 1) as usize)),
                Some(entry) => Ok(before.push(entry)),
            },
        }
    }
}

/// The headers that the text `s` lists: entries are parted by commas, and
/// within an entry a colon parts the name from the value.
pub open spec fn listed_headers(s: Seq<char>) -> Result<Seq<HeaderModel>, HeaderError> {
    entries_of(split(s, ','))
}

/// An error among the first pieces is the error of the whole list.
pub proof fn lemma_error_stays(pieces: Seq<Seq<char>>, more: Seq<Seq<char>>)
    requires
        entries_of(pieces) is Err,
    ensures
        entries_of(pieces + more) == entries_of(pieces),
    decreases more.len(),
{
    if more.len() == 0 {
        assert(pieces + more =~= pieces);
    } else {
        lemma_error_stays(pieces, more.drop_last());
        assert((pieces + more).drop_last() =~= pieces + more.drop_last());
    }
}

/// Reads the list of headers that `s` writes down.
pub fn split_headers(s: &str) -> (result: Result<Vec<HeaderEntry>, HeaderError>)
    ensures
        match result {
            Ok(entries) => listed_headers(s@) == Ok::<Seq<HeaderModel>, HeaderError>(
                entry_views(entries@),
            ),
            Err(e) => listed_headers(s@) == Err::<Seq<HeaderModel>, HeaderError>(e),
        },
{
    let chars = chars_of(s);
    let len = chars.len();
    let mut entries: Vec<HeaderEntry> = Vec::new();
    let mut start: usize = 0;
    let ghost mut done: Seq<Seq<char>> = Seq::empty();
    assert(chars@.skip(0) =~= chars@);
    assert(done + split(chars@.skip(0), ',') =~= split(chars@, ','));
    assert(entry_views(entries@) =~= Seq::empty());
    loop
        invariant
            chars@ == s@,
            len == chars@.len(),
            start <= len,
            done.len() == entries@.len(),
            split(chars@, ',') == done + split(chars@.skip(start as int), ','),
            entries_of(done) == Ok::<Seq<HeaderModel>, HeaderError>(entry_views(entries@)),
        decreases len - start,
    {
        let ghost tail = chars@.skip(start as int);
        assert(tail =~= chars@.subrange(start as int, len as int));
        let cut = find_char(&chars, start, len, ',');
        let ghost piece = chars@.subrange(start as int, cut as int);
        assert(piece =~= tail.take(cut - start));
        let colon = find_char(&chars, start, cut, ':');
        proof {
            if cut < len {
                assert(tail.skip(cut - start + 1) =~= chars@.skip(cut + 1));
                assert(split(tail, ',') == seq![piece] + split(chars@.skip(cut + 1), ','));
                assert(done + split(tail, ',') =~= done.push(piece) + split(
                    chars@.skip(cut + 1),
                    ',',
                ));
            } else {
                assert(tail.take(cut - start) =~= tail);
                assert(split(tail, ',') == seq![piece]);
                assert(done + split(tail, ',') =~= done.push(piece));
            }
            assert(done.push(piece).drop_last() =~= done);
        }
        if colon == cut {
            proof {
                if cut < len {
                    lemma_error_stays(done.push(piece), split(chars@.skip(cut + 1), ','));
                } else {
                    assert(done.push(piece) + Seq::<Seq<char>>::empty() =~= done.push(piece));
                }
            }
            return Err(HeaderError::MissingColon(entries.len()));
        }
        let stop = find_char(&chars, colon + 1, cut, ':');
        let (name_from, name_to) = trim_bounds(&chars, start, colon);
        let (value_from, value_to) = trim_bounds(&chars, colon + 1, stop);
        let entry = HeaderEntry {
            name: text_of(&chars, name_from, name_to),
            value: text_of(&chars, value_from, value_to),
        };
        proof {
            let rest = piece.skip(colon - start + 1);
            assert(rest =~= chars@.subrange(colon + 1, cut as int));
            assert(piece.take(colon - start) =~= chars@.subrange(start as int, colon as int));
            assert(rest.take(stop - colon - 1) =~= chars@.subrange(colon + 1, stop as int));
            assert(entry_of(piece) == Some(entry@));
            assert(entry_views(entries@.push(entry)) =~= entry_views(entries@).push(entry@));
            done = done.push(piece);
        }
        entries.push(entry);
        if cut == len {
            return Ok(entries);
        }
        start = cut + 1;
    }
}

} // verus!
