//! The tags of a track, as read from the comments of a FLAC or an Ogg
//! Vorbis stream: pairs of a name, in any case, and a value.

use crate::text::{ascii_uppercase, chars_of, join, joined, upper};
use vstd::prelude::*;

verus! {

/// The number that a decimal digit stands for.
pub open spec fn digit_value(c: char) -> Option<nat> {
    if '0' <= c <= '9' {
        Some((c as nat - '0' as nat) as nat)
    } else {
        None
    }
}

/// The number that a run of decimal digits writes, zero for an empty run;
/// nothing where a character is no digit.
pub open spec fn number_of(digits: Seq<char>) -> Option<nat>
    decreases digits.len(),
{
    if digits.len() == 0 {
        Some(0)
    } else {
        match (number_of(digits.drop_last()), digit_value(digits.last())) {
            (Some(n), Some(d)) => Some(10 * n + d),
            _ => None,
        }
    }
}

/// What follows the plus sign that a text may begin with.
pub open spec fn unsigned(text: Seq<char>) -> Seq<char> {
    if text.len() > 0 && text[0] == '+' {
        text.skip(1)
    } else {
        text
    }
}

/// The number of 32 bits that a text writes: after a plus sign, if there
/// is one, one decimal digit or more and nothing else, and a number that 32
/// bits hold. This is how `u32` reads a text.
pub open spec fn parsed_u32(text: Seq<char>) -> Option<u32> {
    let digits = unsigned(text);
    if digits.len() == 0 {
        None
    } else {
        match number_of(digits) {
            Some(n) => if n <= u32::MAX {
                Some(n as u32)
            } else {
                None
            },
            None => None,
        }
    }
}

/// Digits that follow only add to a number: where a run of digits writes a
/// number, each run that it begins with writes one that is no larger.
pub proof fn number_grows(digits: Seq<char>, k: int)
    requires
        0 <= k <= digits.len(),
        number_of(digits) is Some,
    ensures
        number_of(digits.take(k)) is Some,
        number_of(digits.take(k))->0 <= number_of(digits)->0,
    decreases digits.len(),
{
    if k == digits.len() {
        assert(digits.take(k) =~= digits);
    } else {
        assert(digits.drop_last().take(k) =~= digits.take(k));
        number_grows(digits.drop_last(), k);
    }
}

/// The number of 32 bits that `text` writes.
pub fn parse_u32(text: &str) -> (number: Option<u32>)
    ensures
        number == parsed_u32(text@),
{
    let chars = chars_of(text);
    let start: usize = if chars.len() > 0 && chars[0] == '+' {
        1
    } else {
        0
    };
    let ghost digits = unsigned(text@);
    assert(digits =~= chars@.skip(start as int));
    if start == chars.len() {
        return None;
    }
    let mut value: u64 = 0;
    let mut i: usize = start;
    assert(digits.take(0) =~= Seq::<char>::empty());
    while i < chars.len()
        invariant
            start <= i <= chars.len(),
            digits == unsigned(text@),
            digits == chars@.skip(start as int),
            number_of(digits.take(i - start)) == Some(value as nat),
            value <= u32::MAX,
        decreases chars.len() - i,
    {
        let c = chars[i];
        let ghost upto = digits.take(i - start + 1);
        proof {
            assert(upto.drop_last() =~= digits.take(i - start));
            assert(upto.last() == c);
        }
        if !('0' <= c && c <= '9') {
            proof {
                assert(number_of(upto) is None);
                if number_of(digits) is Some {
                    number_grows(digits, i - start + 1);
                }
            }
            return None;
        }
        value = value * 10 + (c as u8 - 48) as u64;
        assert(number_of(upto) == Some(value as nat));
        if value > u32::MAX as u64 {
            proof {
                if number_of(digits) is Some {
                    number_grows(digits, i - start + 1);
                }
            }
            return None;
        }
        i = i + 1;
    }
    assert(digits.take(i - start) =~= digits);
    Some(value as u32)
}

/// Tags as plain values.
pub struct TagsView {
    pub title: Option<Seq<char>>,
    pub artist: Option<Seq<char>>,
    pub album: Option<Seq<char>>,
    pub track: Option<u32>,
}

/// The tags that the comments of a stream give.
pub struct Tags {
    pub title: Option<String>,
    pub artist: Option<String>,
    pub album: Option<String>,
    pub track: Option<u32>,
}

impl View for Tags {
    type V = TagsView;

    open spec fn view(&self) -> TagsView {
        TagsView {
            title: crate::track::tag_text(self.title),
            artist: crate::track::tag_text(self.artist),
            album: crate::track::tag_text(self.album),
            track: self.track,
        }
    }
}

/// The texts as plain values.
pub open spec fn texts(values: Seq<String>) -> Seq<Seq<char>> {
    Seq::new(values.len(), |i: int| values[i]@)
}

/// The comments as plain values.
pub open spec fn comments_view(comments: Seq<(String, String)>) -> Seq<(Seq<char>, Seq<char>)> {
    Seq::new(comments.len(), |i: int| (comments[i].0@, comments[i].1@))
}

/// The values of the comments named `name`, whatever the case of the
/// English letters in the names, in the order of the comments.
pub open spec fn values_of(comments: Seq<(Seq<char>, Seq<char>)>, name: Seq<char>) -> Seq<Seq<char>>
    decreases comments.len(),
{
    if comments.len() == 0 {
        Seq::empty()
    } else if upper(comments.last().0) == upper(name) {
        values_of(comments.drop_last(), name).push(comments.last().1)
    } else {
        values_of(comments.drop_last(), name)
    }
}

/// The first of the values, where there is one.
pub open spec fn first_of(values: Seq<Seq<char>>) -> Option<Seq<char>> {
    if values.len() == 0 {
        None
    } else {
        Some(values[0])
    }
}

/// All the values as one, parted by a comma and a space; nothing where
/// there is no value.
pub open spec fn all_of(values: Seq<Seq<char>>) -> Option<Seq<char>> {
    if values.len() == 0 {
        None
    } else {
        Some(joined(values, ", "@))
    }
}

/// The number in the first value, where there is a value and it is read as
/// a number.
pub open spec fn number_of_first(values: Seq<Seq<char>>) -> Option<u32> {
    if values.len() == 0 {
        None
    } else {
        parsed_u32(values[0])
    }
}

/// The number in the first of the values that is read as a number.
pub open spec fn first_number(values: Seq<Seq<char>>) -> Option<u32>
    decreases values.len(),
{
    if values.len() == 0 {
        None
    } else if parsed_u32(values[0]) is Some {
        parsed_u32(values[0])
    } else {
        first_number(values.drop_first())
    }
}

/// The values of the comments named `name`, whatever the case of the
/// English letters in the names.
pub fn values_for(comments: &Vec<(String, String)>, name: &str) -> (values: Vec<String>)
    ensures
        texts(values@) == values_of(comments_view(comments@), name@),
{
    let ghost all = comments_view(comments@);
    let wanted = ascii_uppercase(name);
    let mut values: Vec<String> = Vec::new();
    let mut i: usize = 0;
    while i < comments.len()
        invariant
            i <= comments.len(),
            all == comments_view(comments@),
            wanted@ == upper(name@),
            texts(values@) == values_of(all.take(i as int), name@),
        decreases comments.len() - i,
    {
        let ghost before = texts(values@);
        proof {
            assert(all.take(i + 1).drop_last() =~= all.take(i as int));
            assert(all.take(i + 1).last() == all[i as int]);
        }
        let key = ascii_uppercase(comments[i].0.as_str());
        if key.as_str().eq(wanted.as_str()) {
            values.push(comments[i].1.clone());
            assert(texts(values@) =~= before.push(comments@[i as int].1@));
        }
        i = i + 1;
    }
    assert(all.take(i as int) =~= all);
    values
}

/// The first of the values, where there is one.
pub fn first(values: &Vec<String>) -> (value: Option<String>)
    ensures
        crate::track::tag_text(value) == first_of(texts(values@)),
{
    if values.len() == 0 {
        None
    } else {
        Some(values[0].clone())
    }
}

/// All the values as one, parted by a comma and a space.
pub fn all(values: &Vec<String>) -> (value: Option<String>)
    ensures
        crate::track::tag_text(value) == all_of(texts(values@)),
{
    if values.len() == 0 {
        None
    } else {
        let one = join(values, ", ");
        assert(Seq::new(values@.len(), |i: int| values@[i]@) =~= texts(values@));
        Some(one)
    }
}

/// The number in the first value, where it is read as one.
pub fn first_as_number(values: &Vec<String>) -> (number: Option<u32>)
    ensures
        number == number_of_first(texts(values@)),
{
    if values.len() == 0 {
        None
    } else {
        parse_u32(values[0].as_str())
    }
}

/// The number in the first of the values that is read as a number.
pub fn first_that_is_number(values: &Vec<String>) -> (number: Option<u32>)
    ensures
        number == first_number(texts(values@)),
{
    let ghost all = texts(values@);
    let mut i: usize = 0;
    assert(all.skip(0) =~= all);
    while i < values.len()
        invariant
            i <= values.len(),
            all == texts(values@),
            first_number(all) == first_number(all.skip(i as int)),
        decreases values.len() - i,
    {
        let number = parse_u32(values[i].as_str());
        proof {
            assert(all.skip(i as int)[0] == values@[i as int]@);
            assert(all.skip(i as int).drop_first() =~= all.skip(i + 1));
        }
        if number.is_some() {
            return number;
        }
        i = i + 1;
    }
    assert(all.skip(i as int).len() == 0);
    None
}

impl Tags {
    /// The tags in the comments of an Ogg Vorbis stream: the first title
    /// and the first album, all artists, and the first track number that
    /// is a number.
    pub fn from_comments(comments: &Vec<(String, String)>) -> (tags: Tags)
        ensures
            tags@.title == first_of(values_of(comments_view(comments@), "TITLE"@)),
            tags@.artist == all_of(values_of(comments_view(comments@), "ARTIST"@)),
            tags@.album == first_of(values_of(comments_view(comments@), "ALBUM"@)),
            tags@.track == first_number(values_of(comments_view(comments@), "TRACKNUMBER"@)),
    {
        let titles = values_for(comments, "TITLE");
        let artists = values_for(comments, "ARTIST");
        let albums = values_for(comments, "ALBUM");
        let numbers = values_for(comments, "TRACKNUMBER");
        Tags {
            title: first(&titles),
            artist: all(&artists),
            album: first(&albums),
            track: first_that_is_number(&numbers),
        }
    }

    /// The tags of a FLAC stream, from the values that it holds under each
    /// name: the first title and the first album, all artists, and the
    /// first track number where it is a number.
    pub fn from_values(
        titles: &Vec<String>,
        artists: &Vec<String>,
        albums: &Vec<String>,
        numbers: &Vec<String>,
    ) -> (tags: Tags)
        ensures
            tags@.title == first_of(texts(titles@)),
            tags@.artist == all_of(texts(artists@)),
            tags@.album == first_of(texts(albums@)),
            tags@.track == number_of_first(texts(numbers@)),
    {
        Tags {
            title: first(titles),
            artist: all(artists),
            album: first(albums),
            track: first_as_number(numbers),
        }
    }
}

} // verus!
