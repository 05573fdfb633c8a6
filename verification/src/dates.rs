//! Calendar fields derived from a block's wall-clock timestamp string: the
//! date is the prefix before the first `T` of the timestamp's text form, the
//! month and the year are fixed-width prefixes of the date.

use vstd::prelude::*;
use vstd::string::StrSliceExecFns;

verus! {

/// Position of the first `T` in a character sequence, or its length when no
/// `T` occurs.
pub open spec fn t_pos(s: Seq<char>) -> int
    decreases s.len(),
{
    if s.len() == 0 {
        0
    } else if s[0] == 'T' {
        0
    } else {
        1 + t_pos(s.drop_first())
    }
}

/// The date part of a timestamp string: everything before the first `T`, or
/// the whole string when no `T` occurs.
pub open spec fn date_of(ts: Seq<char>) -> Seq<char> {
    ts.take(t_pos(ts))
}

/// The month part of a date string: its first seven characters, or empty
/// when the date is shorter.
pub open spec fn month_of(d: Seq<char>) -> Seq<char> {
    if d.len() >= 7 {
        d.take(7)
    } else {
        Seq::empty()
    }
}

/// The year part of a date string: its first four characters, or empty when
/// the date is shorter.
pub open spec fn year_of(d: Seq<char>) -> Seq<char> {
    if d.len() >= 4 {
        d.take(4)
    } else {
        Seq::empty()
    }
}

/// The first `T` stands within the string.
proof fn lemma_t_pos_bounds(s: Seq<char>)
    ensures
        0 <= t_pos(s) <= s.len(),
    decreases s.len(),
{
    if s.len() > 0 && s[0] != 'T' {
        lemma_t_pos_bounds(s.drop_first());
    }
}

/// A scan that saw no `T` before position `i`, and a `T` or the end at `i`,
/// found the first `T`.
proof fn lemma_t_pos_found(s: Seq<char>, i: int)
    requires
        0 <= i <= s.len(),
        forall|j: int| 0 <= j < i ==> s[j] != 'T',
        i < s.len() ==> s[i] == 'T',
    ensures
        t_pos(s) == i,
    decreases i,
{
    if i == 0 {
    } else {
        assert(s[0] != 'T');
        let t = s.drop_first();
        assert(forall|j: int| 0 <= j < i - 1 ==> t[j] == s[j + 1] && t[j] != 'T');
        lemma_t_pos_found(t, i - 1);
    }
}

/// The date part of a timestamp string.
pub fn block_time_to_date(block_time: &str) -> (r: String)
    ensures
        r@ == date_of(block_time@),
{
    let n = block_time.unicode_len();
    let mut i: usize = 0;
    while i < n && block_time.get_char(i) != 'T'
        invariant
            n == block_time@.len(),
            i <= n,
            forall|j: int| 0 <= j < i ==> block_time@[j] != 'T',
        decreases n - i,
    {
        i = i + 1;
    }
    proof {
        lemma_t_pos_found(block_time@, i as int);
    }
    let d = block_time.substring_char(0, i);
    proof {
        assert(d@ =~= date_of(block_time@));
    }
    d.to_owned()
}

/// The month part of a date string.
pub fn block_date_to_month(date: &str) -> (r: String)
    ensures
        r@ == month_of(date@),
{
    let n = date.unicode_len();
    if n >= 7 {
        let m = date.substring_char(0, 7);
        proof {
            assert(m@ =~= month_of(date@));
        }
        m.to_owned()
    } else {
        String::new()
    }
}

/// The year part of a date string.
pub fn block_date_to_year(date: &str) -> (r: String)
    ensures
        r@ == year_of(date@),
{
    let n = date.unicode_len();
    if n >= 4 {
        let y = date.substring_char(0, 4);
        proof {
            assert(y@ =~= year_of(date@));
        }
        y.to_owned()
    } else {
        String::new()
    }
}

} // verus!
