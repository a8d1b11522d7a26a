use vstd::prelude::*;

verus! {

/// The twelve carol verse lines, indexed 0 through 11.
pub open spec fn lyric_table() -> Seq<Seq<char>> {
    seq![
        "A partridge in a pear tree"@,
        "Two turtle doves, and"@,
        "Three french hens"@,
        "Four calling birds"@,
        "Five golden rings"@,
        "Six geese a-laying"@,
        "Seven swans a-swimming"@,
        "Eight maids a-milking"@,
        "Nine ladies dancing"@,
        "Ten lords a-leaping"@,
        "Eleven pipers piping"@,
        "Twelve drummers drumming"@,
    ]
}

/// The twelve ordinal day names, indexed 0 through 11.
pub open spec fn day_table() -> Seq<Seq<char>> {
    seq![
        "first"@,
        "second"@,
        "third"@,
        "fourth"@,
        "fifth"@,
        "sixth"@,
        "seventh"@,
        "eigth"@,
        "ninth"@,
        "tenth"@,
        "eleventh"@,
        "twelfth"@,
    ]
}

/// The two lookup tables stay aligned one to one by index: each has an
/// entry for exactly the positions 0 through 11.
pub proof fn lemma_tables_aligned()
    ensures
        lyric_table().len() == 12,
        day_table().len() == 12,
{
}

/// The verse line at one position of the lyric table.
pub fn lyric(i: usize) -> (r: &'static str)
    requires
        i < 12,
    ensures
        r@ == lyric_table()[i as int],
{
    if i == 0 {
        "A partridge in a pear tree"
    } else if i == 1 {
        "Two turtle doves, and"
    } else if i == 2 {
        "Three french hens"
    } else if i == 3 {
        "Four calling birds"
    } else if i == 4 {
        "Five golden rings"
    } else if i == 5 {
        "Six geese a-laying"
    } else if i == 6 {
        "Seven swans a-swimming"
    } else if i == 7 {
        "Eight maids a-milking"
    } else if i == 8 {
        "Nine ladies dancing"
    } else if i == 9 {
        "Ten lords a-leaping"
    } else if i == 10 {
        "Eleven pipers piping"
    } else {
        "Twelve drummers drumming"
    }
}

/// The ordinal name at one position of the day table.
pub fn day_name(i: usize) -> (r: &'static str)
    requires
        i < 12,
    ensures
        r@ == day_table()[i as int],
{
    if i == 0 {
        "first"
    } else if i == 1 {
        "second"
    } else if i == 2 {
        "third"
    } else if i == 3 {
        "fourth"
    } else if i == 4 {
        "fifth"
    } else if i == 5 {
        "sixth"
    } else if i == 6 {
        "seventh"
    } else if i == 7 {
        "eigth"
    } else if i == 8 {
        "ninth"
    } else if i == 9 {
        "tenth"
    } else if i == 10 {
        "eleventh"
    } else {
        "twelfth"
    }
}

/// The verse lines of one day's block, in the order they are sung:
/// from the day's own line down to the partridge at index 0.
pub fn carol_day_lyrics(day: usize) -> (r: Vec<&'static str>)
    requires
        day < 12,
    ensures
        r@.len() == day + 1,
        forall|j: int| 0 <= j <= day ==> r@[j]@ == lyric_table()[day - j],
{
    let mut out: Vec<&'static str> = Vec::new();
    let mut j: usize = day + 1;
    while j > 0
        invariant
            day < 12,
            j <= day + 1,
            out@.len() == day + 1 - j,
            forall|k: int| 0 <= k < out@.len() ==> out@[k]@ == lyric_table()[day - k],
        decreases j,
    {
        j = j - 1;
        out.push(lyric(j));
    }
    out
}

/// The whole carol: for each of the twelve days, the day's ordinal name
/// paired with its verse lines in descending order.
pub fn carol_blocks() -> (r: Vec<(&'static str, Vec<&'static str>)>)
    ensures
        r@.len() == 12,
        forall|i: int| 0 <= i < 12 ==> r@[i].0@ == day_table()[i],
        forall|i: int| 0 <= i < 12 ==> r@[i].1@.len() == i + 1,
        forall|i: int, j: int|
            0 <= i < 12 && 0 <= j <= i ==> r@[i].1@[j]@ == lyric_table()[i - j],
{
    let mut out: Vec<(&'static str, Vec<&'static str>)> = Vec::new();
    let mut i: usize = 0;
    while i < 12
        invariant
            i <= 12,
            out@.len() == i,
            forall|k: int| 0 <= k < i ==> out@[k].0@ == day_table()[k],
            forall|k: int| 0 <= k < i ==> out@[k].1@.len() == k + 1,
            forall|k: int, j: int|
                0 <= k < i && 0 <= j <= k ==> out@[k].1@[j]@ == lyric_table()[k - j],
        decreases 12 - i,
    {
        out.push((day_name(i), carol_day_lyrics(i)));
        i = i + 1;
    }
    out
}

} // verus!
