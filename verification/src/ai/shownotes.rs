//! Show notes from a transcript: the bounds on what is sent and what is kept.
//!
//! The model only suggests; these rules decide what is safe to send and to
//! keep: an over-long transcript is truncated (never rejected), a blank one is
//! refused before any call, and every returned list is trimmed, stripped of
//! blank entries and bounded.

use vstd::prelude::*;

use crate::text::{
    decimal, digit_char, digits_value, is_digit, lemma_decimal_reads_back, push_decimal, trim, trim_spec,
};

verus! {

/// Most title options kept.
pub const MAX_TITLE_OPTIONS: usize = 5;

/// Most chapters kept.
pub const MAX_CHAPTERS: usize = 40;

/// Most tags kept.
pub const MAX_TAGS: usize = 15;

/// Most clips kept.
pub const MAX_CLIPS: usize = 5;

/// Fewest clips the prompt asks for (fewer is fine, never an error).
pub const MIN_CLIPS_REQUESTED: usize = 3;

/// The longest transcript sent, in characters.
pub const MAX_TRANSCRIPT_CHARS: usize = 200_000;

/// The transcript as sent: unchanged when within the cap, otherwise its first
/// `MAX_TRANSCRIPT_CHARS` characters followed by a truncation marker.
pub open spec fn clipped_transcript(t: Seq<char>) -> Seq<char> {
    if t.len() <= 200_000 {
        t
    } else {
        t.subrange(0, 200_000) + "\n\n[transcript truncated for length]"@
    }
}

/// Truncate an over-long transcript on a character boundary, marking the cut.
pub fn clip_transcript(transcript: &str) -> (r: String)
    ensures
        r@ == clipped_transcript(transcript@),
{
    let n = transcript.unicode_len();
    if n <= MAX_TRANSCRIPT_CHARS {
        return transcript.to_string();
    }
    let mut head = transcript.substring_char(0, MAX_TRANSCRIPT_CHARS).to_string();
    head.append("\n\n[transcript truncated for length]");
    head
}

/// The message for a blank transcript.
pub open spec fn blank_transcript_message() -> Seq<char> {
    "no transcript to summarise — import captions or paste a transcript"@
}

/// Refuse a transcript that is blank once trimmed, before any request is made.
pub fn check_transcript(transcript: &str) -> (r: Result<(), String>)
    ensures
        r is Ok <==> trim_spec(transcript@).len() > 0,
        r matches Err(m) ==> m@ == blank_transcript_message(),
{
    let t = trim(transcript);
    if t.unicode_len() == 0 {
        return Err("no transcript to summarise — import captions or paste a transcript".to_string());
    }
    Ok(())
}

/// The trimmed, non-blank entries of `items`, in order.
pub open spec fn trimmed_nonblank(items: Seq<Seq<char>>) -> Seq<Seq<char>>
    decreases items.len(),
{
    if items.len() == 0 {
        Seq::empty()
    } else {
        let rest = trimmed_nonblank(items.drop_last());
        let t = trim_spec(items.last());
        if t.len() == 0 { rest } else { rest.push(t) }
    }
}

/// Cleaning keeps only real entries and loses none: every entry it keeps is
/// non-blank and is the trimmed text of some item, and when no item is blank
/// once trimmed, every item is kept, trimmed, in its place.
pub proof fn lemma_cleaning_keeps_the_real_entries(items: Seq<Seq<char>>)
    ensures
        trimmed_nonblank(items).len() <= items.len(),
        forall|k: int| 0 <= k < trimmed_nonblank(items).len() ==> (#[trigger] trimmed_nonblank(
            items,
        )[k]).len() > 0 && exists|j: int|
            0 <= j < items.len() && trimmed_nonblank(items)[k] == trim_spec(#[trigger] items[j]),
        (forall|j: int| 0 <= j < items.len() ==> trim_spec(#[trigger] items[j]).len() > 0) ==> (
        trimmed_nonblank(items).len() == items.len() && forall|k: int|
            0 <= k < items.len() ==> #[trigger] trimmed_nonblank(items)[k] == trim_spec(items[k])),
    decreases items.len(),
{
    if items.len() > 0 {
        let init = items.drop_last();
        lemma_cleaning_keeps_the_real_entries(init);
        let rest = trimmed_nonblank(init);
        let t = trim_spec(items.last());
        let out = trimmed_nonblank(items);
        assert forall|k: int| 0 <= k < out.len() implies (#[trigger] out[k]).len() > 0 && exists|j: int|
            0 <= j < items.len() && out[k] == trim_spec(#[trigger] items[j]) by {
            if k < rest.len() {
                assert(out[k] == rest[k]);
                let j = choose|j: int| 0 <= j < init.len() && rest[k] == trim_spec(#[trigger] init[j]);
                assert(items[j] == init[j]);
            } else {
                assert(out[k] == t);
                assert(items[items.len() - 1] == items.last());
            }
        }
        if forall|j: int| 0 <= j < items.len() ==> trim_spec(#[trigger] items[j]).len() > 0 {
            assert forall|j: int| 0 <= j < init.len() implies trim_spec(#[trigger] init[j]).len() > 0 by {
                assert(init[j] == items[j]);
            }
            assert(trim_spec(items[items.len() - 1]).len() > 0);
            assert(items[items.len() - 1] == items.last());
            assert forall|k: int| 0 <= k < items.len() implies #[trigger] out[k] == trim_spec(items[k]) by {
                if k < init.len() {
                    assert(out[k] == rest[k]);
                    assert(init[k] == items[k]);
                }
            }
        }
    }
}

/// At most the first `max` entries of `s`.
pub open spec fn at_most(s: Seq<Seq<char>>, max: nat) -> Seq<Seq<char>> {
    if s.len() <= max { s } else { s.take(max as int) }
}

/// The views of a list of strings.
pub open spec fn views(v: Seq<String>) -> Seq<Seq<char>> {
    v.map_values(|s: String| s@)
}

/// Trim every string, drop the blank ones, and keep at most `max`.
pub fn clean_strings(items: Vec<String>, max: usize) -> (r: Vec<String>)
    ensures
        views(r@) == at_most(trimmed_nonblank(views(items@)), max as nat),
        r@.len() <= max,
        forall|k: int| 0 <= k < r@.len() ==> (#[trigger] r@[k])@.len() > 0 && exists|j: int|
            0 <= j < items@.len() && r@[k]@ == trim_spec(#[trigger] items@[j]@),
{
    proof {
        lemma_cleaning_keeps_the_real_entries(views(items@));
    }
    let mut out: Vec<String> = Vec::new();
    let n = items.len();
    let mut i: usize = 0;
    while i < n
        invariant
            n == items@.len(),
            i <= n,
            views(out@) == at_most(trimmed_nonblank(views(items@).take(i as int)), max as nat),
        decreases n - i,
    {
        let t = trim(items[i].as_str());
        let ghost before = trimmed_nonblank(views(items@).take(i as int));
        proof {
            assert(views(items@).take(i + 1).drop_last() =~= views(items@).take(i as int));
            assert(views(items@).take(i + 1).last() == items@[i as int]@);
        }
        if t.unicode_len() > 0 && out.len() < max {
            let ghost old_out = views(out@);
            assert(old_out.len() == out@.len());
            assert(old_out.len() < max);
            assert(before.len() < max);
            out.push(t);
            proof {
                let after = trimmed_nonblank(views(items@).take(i + 1));
                assert(after == before.push(t@));
                assert(views(out@) =~= old_out.push(t@));
                assert(views(out@) =~= at_most(after, max as nat));
            }
        } else {
            let ghost after = trimmed_nonblank(views(items@).take(i + 1));
            if t.unicode_len() > 0 {
                assert(after == before.push(t@));
                assert(before.len() >= max);
                assert(at_most(after, max as nat) =~= at_most(before, max as nat));
            } else {
                assert(after == before);
            }
        }
        i = i + 1;
    }
    assert(views(items@).take(n as int) =~= views(items@));
    proof {
        let all = trimmed_nonblank(views(items@));
        assert forall|k: int| 0 <= k < out@.len() implies (#[trigger] out@[k])@.len() > 0 && exists|
            j: int,
        | 0 <= j < items@.len() && out@[k]@ == trim_spec(#[trigger] items@[j]@) by {
            assert(views(out@)[k] == out@[k]@);
            assert(out@[k]@ == all[k]);
            let j = choose|j: int| 0 <= j < views(items@).len() && all[k] == trim_spec(#[trigger] views(items@)[j]);
            assert(views(items@)[j] == items@[j]@);
        }
    }
    out
}

/// Two decimal digits for `n` (below a hundred), zero-padded.
pub open spec fn two_digits(n: nat) -> Seq<char> {
    seq![digit_char(n / 10), digit_char(n % 10)]
}

/// A duration of `total` seconds as `H:MM:SS`, or `M:SS` under an hour.
pub open spec fn clock_text_of(total: nat) -> Seq<char> {
    let h = total / 3600;
    let m = (total % 3600) / 60;
    let s = total % 60;
    if h > 0 {
        decimal(h) + ":"@ + two_digits(m) + ":"@ + two_digits(s)
    } else {
        decimal(m) + ":"@ + two_digits(s)
    }
}

fn push_two_digits(out: &mut String, n: u64)
    requires
        n < 100,
    ensures
        final(out)@ == old(out)@ + two_digits(n as nat),
{
    push_decimal(out, n / 10);
    push_decimal(out, n % 10);
    assert(decimal((n / 10) as nat) == seq![digit_char((n / 10) as nat)]);
    assert(decimal((n % 10) as nat) == seq![digit_char((n % 10) as nat)]);
    assert(out@ =~= old(out)@ + two_digits(n as nat));
}

/// Format a whole number of seconds as `H:MM:SS` (or `M:SS` under an hour),
/// the human anchor the show-notes prompt gives next to raw milliseconds.
pub fn clock_text(total_secs: u64) -> (t: String)
    ensures
        t@ == clock_text_of(total_secs as nat),
{
    let h = total_secs / 3600;
    let m = (total_secs % 3600) / 60;
    let s = total_secs % 60;
    let mut out = String::new();
    if h > 0 {
        push_decimal(&mut out, h);
        out.append(":");
        push_two_digits(&mut out, m);
        out.append(":");
        push_two_digits(&mut out, s);
    } else {
        push_decimal(&mut out, m);
        out.append(":");
        push_two_digits(&mut out, s);
    }
    assert(out@ =~= clock_text_of(total_secs as nat));
    out
}

/// `f` is a field of decimal digits.
pub open spec fn all_digits(f: Seq<char>) -> bool {
    forall|k: int| 0 <= k < f.len() ==> #[trigger] is_digit(f[k])
}

/// Two zero-padded digits spell the number they were written from.
proof fn lemma_two_digits_read_back(x: nat)
    requires
        x < 100,
    ensures
        two_digits(x).len() == 2,
        all_digits(two_digits(x)),
        digits_value(two_digits(x)) == x,
{
    lemma_decimal_reads_back(x / 10);
    lemma_decimal_reads_back(x % 10);
    assert(decimal(x / 10) == seq![digit_char(x / 10)]);
    assert(decimal(x % 10) == seq![digit_char(x % 10)]);
    let t = two_digits(x);
    assert(t.drop_last() =~= decimal(x / 10));
    assert(is_digit(decimal(x / 10)[0]));
    assert(is_digit(decimal(x % 10)[0]));
    assert(x == (x / 10) * 10 + x % 10) by (nonlinear_arith);
}

/// A clock text reads back as the duration it was written from: it ends in
/// `:SS`, seconds below sixty; under an hour it is `M:SS` with minutes below
/// sixty; from an hour on it is `H:MM:SS` with a non-zero hour and minutes
/// below sixty; and the fields add up to the total number of seconds.
pub proof fn lemma_clock_text_reads_back(total: nat)
    ensures
        ({
            let t = clock_text_of(total);
            let n = t.len() as int;
            let secs = t.subrange(n - 2, n);
            &&& n >= 4
            &&& t[n - 3] == ':'
            &&& all_digits(secs) && digits_value(secs) < 60
            &&& if total < 3600 {
                let mins = t.subrange(0, n - 3);
                &&& mins.len() > 0 && all_digits(mins) && digits_value(mins) < 60
                &&& digits_value(mins) * 60 + digits_value(secs) == total
            } else {
                let hours = t.subrange(0, n - 6);
                let mins = t.subrange(n - 5, n - 3);
                &&& n >= 7 && t[n - 6] == ':'
                &&& hours.len() > 0 && all_digits(hours) && digits_value(hours) > 0
                &&& all_digits(mins) && digits_value(mins) < 60
                &&& digits_value(hours) * 3600 + digits_value(mins) * 60 + digits_value(secs)
                    == total
            }
        }),
{
    reveal_strlit(":");
    let h = total / 3600;
    let m = (total % 3600) / 60;
    let sec = total % 60;
    assert(total == h * 3600 + m * 60 + sec && m < 60 && sec < 60) by (nonlinear_arith)
        requires
            h == total / 3600,
            m == (total % 3600) / 60,
            sec == total % 60,
    ;
    lemma_two_digits_read_back(m);
    lemma_two_digits_read_back(sec);
    let t = clock_text_of(total);
    let n = t.len() as int;
    assert(t.subrange(n - 2, n) =~= two_digits(sec));
    if h > 0 {
        lemma_decimal_reads_back(h);
        let d = decimal(h);
        assert(t == d + ":"@ + two_digits(m) + ":"@ + two_digits(sec));
        assert(n == d.len() + 6);
        assert(t.subrange(0, n - 6) =~= d);
        assert(t.subrange(n - 5, n - 3) =~= two_digits(m));
        assert(t[n - 6] == ':');
        assert(t[n - 3] == ':');
        assert(total >= 3600) by (nonlinear_arith)
            requires
                total == h * 3600 + m * 60 + sec,
                h > 0,
        ;
    } else {
        lemma_decimal_reads_back(m);
        let d = decimal(m);
        assert(t == d + ":"@ + two_digits(sec));
        assert(t.subrange(0, n - 3) =~= d);
        assert(t[n - 3] == ':');
        assert(total < 3600);
    }
}

} // verus!
