//! Wire-format strings: decimal rendering of years and months, the
//! `YYYY-MM-01T00:00:00Z` window boundaries, per-window sink names, the
//! escaped search tag, and the paged query URL.

use vstd::prelude::*;
use crate::calendar::Window;

verus! {

/// The character for one decimal digit.
pub open spec fn digit_char(d: int) -> char {
    if d == 0 {
        '0'
    } else if d == 1 {
        '1'
    } else if d == 2 {
        '2'
    } else if d == 3 {
        '3'
    } else if d == 4 {
        '4'
    } else if d == 5 {
        '5'
    } else if d == 6 {
        '6'
    } else if d == 7 {
        '7'
    } else if d == 8 {
        '8'
    } else {
        '9'
    }
}

/// The decimal digits of `n`, most significant first, no padding.
pub open spec fn dec_chars(n: nat) -> Seq<char>
    decreases n,
{
    if n < 10 {
        seq![digit_char(n as int)]
    } else {
        dec_chars(n / 10).push(digit_char((n % 10) as int))
    }
}

/// The decimal digits of `n` padded to two places with a leading zero.
pub open spec fn two_digit_chars(n: nat) -> Seq<char> {
    if n < 10 {
        seq!['0'].add(dec_chars(n))
    } else {
        dec_chars(n)
    }
}

/// A window's boundary timestamp in the fixed wire format: the first
/// instant of the month, `YYYY-MM-01T00:00:00Z`.
pub open spec fn boundary_chars(w: Window) -> Seq<char> {
    dec_chars(w.year as nat) + seq!['-'] + two_digit_chars(w.month as nat) + "-01T00:00:00Z"@
}

/// The per-window output sink's name, `YYYY-MM.csv` with the month
/// zero-padded.
pub open spec fn sink_name_chars(w: Window) -> Seq<char> {
    dec_chars(w.year as nat) + seq!['-'] + two_digit_chars(w.month as nat) + ".csv"@
}

/// A raw tag prefixed with the percent-encoded `#` delimiter.
pub open spec fn escaped_tag_chars(tag: Seq<char>) -> Seq<char> {
    "%23"@ + tag
}

/// The full search URL for one page: fixed endpoint, query, window
/// bounds, page-size ceiling and field projection; `next_token` appears
/// exactly when the cursor is non-empty.
pub open spec fn query_url_chars(
    query: Seq<char>,
    start: Seq<char>,
    end: Seq<char>,
    cursor: Seq<char>,
) -> Seq<char> {
    "https://api.twitter.com/2/tweets/search/all?query="@ + query + "&start_time="@ + start
        + "&end_time="@ + end
        + "&max_results=100&tweet.fields=id,text,edit_history_tweet_ids,created_at&user.fields=id,name,username,location"@
        + if cursor.len() == 0 {
        Seq::<char>::empty()
    } else {
        "&next_token="@ + cursor
    }
}

/// The one-character string for a decimal digit.
fn digit_str(d: u32) -> (s: &'static str)
    requires
        d < 10,
    ensures
        s@ == seq![digit_char(d as int)],
{
    let s: &'static str = if d == 0 {
        "0"
    } else if d == 1 {
        "1"
    } else if d == 2 {
        "2"
    } else if d == 3 {
        "3"
    } else if d == 4 {
        "4"
    } else if d == 5 {
        "5"
    } else if d == 6 {
        "6"
    } else if d == 7 {
        "7"
    } else if d == 8 {
        "8"
    } else {
        "9"
    };
    proof {
        reveal_strlit("0");
        reveal_strlit("1");
        reveal_strlit("2");
        reveal_strlit("3");
        reveal_strlit("4");
        reveal_strlit("5");
        reveal_strlit("6");
        reveal_strlit("7");
        reveal_strlit("8");
        reveal_strlit("9");
        assert(s@ =~= seq![digit_char(d as int)]);
    }
    s
}

/// Append the decimal rendering of `n`, most significant digit first.
pub fn push_decimal(out: &mut String, n: u32)
    ensures
        final(out)@ == old(out)@ + dec_chars(n as nat),
    decreases n,
{
    if n >= 10 {
        push_decimal(out, n / 10);
    }
    out.append(digit_str(n % 10));
    proof {
        if n >= 10 {
            assert(dec_chars(n as nat) == dec_chars(n as nat / 10).push(
                digit_char((n as nat % 10) as int),
            ));
        }
        assert(out@ =~= old(out)@ + dec_chars(n as nat));
    }
}

/// Append `n` as exactly two decimal places, zero-padded.
pub fn push_two_digit(out: &mut String, n: u32)
    requires
        n < 100,
    ensures
        final(out)@ == old(out)@ + two_digit_chars(n as nat),
{
    if n < 10 {
        out.append(digit_str(0));
    }
    push_decimal(out, n);
    proof {
        assert(out@ =~= old(out)@ + two_digit_chars(n as nat));
    }
}

/// A window's start-of-month boundary in the fixed wire format.
pub fn format_boundary(w: &Window) -> (s: String)
    requires
        w.wf(),
    ensures
        s@ == boundary_chars(*w),
{
    let mut s = String::new();
    push_decimal(&mut s, w.year);
    s.append("-");
    push_two_digit(&mut s, w.month);
    s.append("-01T00:00:00Z");
    proof {
        reveal_strlit("-");
        assert("-"@ =~= seq!['-']);
        assert(s@ =~= boundary_chars(*w));
    }
    s
}

/// The name of the window's output sink.
pub fn sink_name(w: &Window) -> (s: String)
    requires
        w.wf(),
    ensures
        s@ == sink_name_chars(*w),
{
    let mut s = String::new();
    push_decimal(&mut s, w.year);
    s.append("-");
    push_two_digit(&mut s, w.month);
    s.append(".csv");
    proof {
        reveal_strlit("-");
        assert("-"@ =~= seq!['-']);
        assert(s@ =~= sink_name_chars(*w));
    }
    s
}

/// Prefix a raw tag with the percent-encoded `#` delimiter.
pub fn escape_tag(tag: &str) -> (s: String)
    ensures
        s@ == escaped_tag_chars(tag@),
{
    let mut s = String::from_str("%23");
    s.append(tag);
    s
}

/// Both request bounds of a window: the start is the month's first
/// instant, the end is the next month's first instant — a December
/// window ends at January 1 of the following year, never at a
/// thirteenth month.
pub fn window_bounds(w: &Window) -> (r: (String, String))
    requires
        w.wf(),
        w.year < u32::MAX,
    ensures
        r.0@ == boundary_chars(*w),
        r.1@ == boundary_chars(w.succ()),
{
    let start = format_boundary(w);
    let next = crate::calendar::next_month(*w);
    let end = format_boundary(&next);
    (start, end)
}

/// Build the search URL for one page of a window.
pub fn build_query_url(query: &str, start: &str, end: &str, cursor: &str) -> (url: String)
    ensures
        url@ == query_url_chars(query@, start@, end@, cursor@),
{
    let mut url = String::from_str("https://api.twitter.com/2/tweets/search/all?query=");
    url.append(query);
    url.append("&start_time=");
    url.append(start);
    url.append("&end_time=");
    url.append(end);
    url.append(
        "&max_results=100&tweet.fields=id,text,edit_history_tweet_ids,created_at&user.fields=id,name,username,location",
    );
    if !cursor.is_empty() {
        url.append("&next_token=");
        url.append(cursor);
    }
    proof {
        assert(url@ =~= query_url_chars(query@, start@, end@, cursor@));
    }
    url
}

} // verus!
