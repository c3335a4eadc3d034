//! The report renderer: a pure function from an ordered result set to the
//! plain-text report.

use vstd::prelude::*;
use vstd::string::{StrSliceExecFns, StringExecFns};

use crate::model::{Comment, Hit, Story};

verus! {

/// `n` copies of `c`.
pub open spec fn repeat_char(c: char, n: nat) -> Seq<char>
    decreases n,
{
    if n == 0 {
        Seq::<char>::empty()
    } else {
        repeat_char(c, (n - 1) as nat).push(c)
    }
}

/// `s` left-aligned in a field of width `w`, padded with spaces; a value
/// already that wide is kept whole.
pub open spec fn pad_to(s: Seq<char>, w: nat) -> Seq<char> {
    if s.len() >= w {
        s
    } else {
        s + repeat_char(' ', (w - s.len()) as nat)
    }
}

/// `s` centered in a field of width `w`, filled with dashes, the spare dash
/// of an odd gap going to the right.
pub open spec fn center_dash(s: Seq<char>, w: nat) -> Seq<char> {
    if s.len() >= w {
        s
    } else {
        let total = (w - s.len()) as nat;
        repeat_char('-', total / 2) + s + repeat_char('-', (total - total / 2) as nat)
    }
}

/// The decimal digit character for `d`.
pub open spec fn digit_char(d: nat) -> char {
    if d == 0 {
        '0'
    } else if d == 1 {
        '1'
    } else if d == 2 {
        '2'
    } else if d == 3 {
        '3'
    } else if d == 4 {
        '4'
    } else if d == 5 {
        '5'
    } else if d == 6 {
        '6'
    } else if d == 7 {
        '7'
    } else if d == 8 {
        '8'
    } else {
        '9'
    }
}

/// The decimal digits of `n`, most significant first, no sign and no
/// leading zero (a single zero for zero).
pub open spec fn dec_nat(n: nat) -> Seq<char>
    decreases n,
{
    if n < 10 {
        seq![digit_char(n)]
    } else {
        dec_nat(n / 10).push(digit_char(n % 10))
    }
}

/// The decimal rendering of `v`, a leading minus sign for a negative value.
pub open spec fn dec_int(v: int) -> Seq<char> {
    if v < 0 {
        seq!['-'] + dec_nat((-v) as nat)
    } else {
        dec_nat(v as nat)
    }
}

/// A title at most 47 characters long is kept whole; a longer one is cut to
/// its first 47 characters plus an ellipsis.
pub open spec fn spec_trunc_title(t: Seq<char>) -> Seq<char> {
    if t.len() > 47 {
        t.take(47) + "..."@
    } else {
        t
    }
}

/// A story's score, zero when absent.
pub open spec fn spec_score(s: Story) -> int {
    match s.score {
        None => 0,
        Some(v) => v as int,
    }
}

/// A story's descendant count, zero when absent.
pub open spec fn spec_descendants(s: Story) -> int {
    match s.descendants {
        None => 0,
        Some(v) => v as int,
    }
}

/// The fixed-width header of the summary table.
pub open spec fn spec_table_header() -> Seq<char> {
    pad_to("Title"@, 50) + " | "@ + pad_to("Author"@, 15) + " | "@ + pad_to("Points"@, 10)
        + " | "@ + pad_to("Comments"@, 20) + "\n"@
}

/// One summary-table row.
pub open spec fn spec_summary_row(h: Hit) -> Seq<char> {
    pad_to(spec_trunc_title(h.story.title@), 50) + " | "@ + pad_to(h.story.by@, 15) + " | "@
        + pad_to(dec_int(spec_score(h.story)), 10) + " | "@ + pad_to(
        dec_int(spec_descendants(h.story)),
        20,
    ) + "\n"@
}

/// All summary-table rows, in result order.
pub open spec fn spec_summary_rows(hits: Seq<Hit>) -> Seq<char>
    decreases hits.len(),
{
    if hits.len() == 0 {
        Seq::<char>::empty()
    } else {
        spec_summary_rows(hits.drop_last()) + spec_summary_row(hits.last())
    }
}

/// One rendered comment of the detail section: result index `i` and comment
/// index `j`, both zero-based here and one-based in the text.
pub open spec fn spec_comment_block(i: nat, j: nat, c: Comment) -> Seq<char> {
    "\n"@ + dec_nat(i + 1) + "."@ + dec_nat(j + 1) + " by "@ + c.by@ + ":\n"@ + (match c.text {
        Some(t) => t@ + "\n\n"@,
        None => "[Comment text not available]\n\n"@,
    })
}

/// The rendered comments of one result, in sample order.
pub open spec fn spec_comment_blocks(i: nat, cs: Seq<Comment>) -> Seq<char>
    decreases cs.len(),
{
    if cs.len() == 0 {
        Seq::<char>::empty()
    } else {
        spec_comment_blocks(i, cs.drop_last()) + spec_comment_block(
            i,
            (cs.len() - 1) as nat,
            cs.last(),
        )
    }
}

/// The headline and byline of one detail section.
pub open spec fn spec_detail_head(i: nat, h: Hit) -> Seq<char> {
    "\n"@ + dec_nat(i + 1) + ". "@ + h.story.title@ + "\n"@ + "By: "@ + h.story.by@
        + " | Points: "@ + dec_int(spec_score(h.story)) + " | ID: "@ + dec_nat(
        h.story.id as nat,
    ) + "\n"@
}

/// The optional URL and body-text lines of one detail section.
pub open spec fn spec_detail_opts(h: Hit) -> Seq<char> {
    (match h.story.url {
        Some(u) => "URL: "@ + u@ + "\n"@,
        None => Seq::<char>::empty(),
    }) + (match h.story.text {
        Some(t) => "\nText:\n"@ + t@ + "\n\n"@,
        None => Seq::<char>::empty(),
    })
}

/// The comment section of one detail section; nothing when no comment was
/// attached.
pub open spec fn spec_detail_comments(i: nat, h: Hit) -> Seq<char> {
    if h.comments@.len() > 0 {
        "\nTop Comments:\n"@ + spec_comment_blocks(i, h.comments@)
    } else {
        Seq::<char>::empty()
    }
}

/// The detail section of one result.
pub open spec fn spec_detail_block(i: nat, h: Hit) -> Seq<char> {
    spec_detail_head(i, h) + spec_detail_opts(h) + spec_detail_comments(i, h) + repeat_char(
        '-',
        120,
    ) + "\n"@
}

/// All detail sections, in result order.
pub open spec fn spec_detail_blocks(hits: Seq<Hit>) -> Seq<char>
    decreases hits.len(),
{
    if hits.len() == 0 {
        Seq::<char>::empty()
    } else {
        spec_detail_blocks(hits.drop_last()) + spec_detail_block(
            (hits.len() - 1) as nat,
            hits.last(),
        )
    }
}

/// The whole report: banner, summary table, second banner, detail sections.
pub open spec fn render_spec(hits: Seq<Hit>) -> Seq<char> {
    "\n"@ + center_dash(" Hacker News Discussions "@, 120) + "\n"@ + spec_table_header()
        + repeat_char('-', 120) + "\n"@ + spec_summary_rows(hits) + "\n"@ + center_dash(
        " Detailed Discussion View "@,
        120,
    ) + "\n"@ + spec_detail_blocks(hits)
}

/// Appends `n` spaces.
fn append_spaces(out: &mut String, n: usize)
    ensures
        final(out)@ == old(out)@ + repeat_char(' ', n as nat),
{
    proof {
        reveal_strlit(" ");
    }
    let mut t: usize = 0;
    while t < n
        invariant
            0 <= t <= n,
            out@ =~= old(out)@ + repeat_char(' ', t as nat),
            " "@ =~= seq![' '],
        decreases n - t,
    {
        out.append(" ");
        t = t + 1;
        proof {
            assert(out@ =~= old(out)@ + repeat_char(' ', t as nat));
        }
    }
}

/// Appends `n` dashes.
fn append_dashes(out: &mut String, n: usize)
    ensures
        final(out)@ == old(out)@ + repeat_char('-', n as nat),
{
    proof {
        reveal_strlit("-");
    }
    let mut t: usize = 0;
    while t < n
        invariant
            0 <= t <= n,
            out@ =~= old(out)@ + repeat_char('-', t as nat),
            "-"@ =~= seq!['-'],
        decreases n - t,
    {
        out.append("-");
        t = t + 1;
        proof {
            assert(out@ =~= old(out)@ + repeat_char('-', t as nat));
        }
    }
}

/// Appends one decimal digit.
fn append_digit(out: &mut String, d: u64)
    requires
        d < 10,
    ensures
        final(out)@ == old(out)@ + seq![digit_char(d as nat)],
{
    if d == 0 {
        out.append("0");
        proof {
            reveal_strlit("0");
            assert(out@ =~= old(out)@ + seq![digit_char(d as nat)]);
        }
    } else if d == 1 {
        out.append("1");
        proof {
            reveal_strlit("1");
            assert(out@ =~= old(out)@ + seq![digit_char(d as nat)]);
        }
    } else if d == 2 {
        out.append("2");
        proof {
            reveal_strlit("2");
            assert(out@ =~= old(out)@ + seq![digit_char(d as nat)]);
        }
    } else if d == 3 {
        out.append("3");
        proof {
            reveal_strlit("3");
            assert(out@ =~= old(out)@ + seq![digit_char(d as nat)]);
        }
    } else if d == 4 {
        out.append("4");
        proof {
            reveal_strlit("4");
            assert(out@ =~= old(out)@ + seq![digit_char(d as nat)]);
        }
    } else if d == 5 {
        out.append("5");
        proof {
            reveal_strlit("5");
            assert(out@ =~= old(out)@ + seq![digit_char(d as nat)]);
        }
    } else if d == 6 {
        out.append("6");
        proof {
            reveal_strlit("6");
            assert(out@ =~= old(out)@ + seq![digit_char(d as nat)]);
        }
    } else if d == 7 {
        out.append("7");
        proof {
            reveal_strlit("7");
            assert(out@ =~= old(out)@ + seq![digit_char(d as nat)]);
        }
    } else if d == 8 {
        out.append("8");
        proof {
            reveal_strlit("8");
            assert(out@ =~= old(out)@ + seq![digit_char(d as nat)]);
        }
    } else {
        out.append("9");
        proof {
            reveal_strlit("9");
            assert(out@ =~= old(out)@ + seq![digit_char(d as nat)]);
        }
    }
}

/// Appends the decimal digits of `n`.
fn append_dec(out: &mut String, n: u64)
    ensures
        final(out)@ == old(out)@ + dec_nat(n as nat),
    decreases n,
{
    if n < 10 {
        append_digit(out, n);
    } else {
        proof {
            assert(n / 10 < n) by (nonlinear_arith)
                requires
                    n >= 10,
            ;
        }
        append_dec(out, n / 10);
        append_digit(out, n % 10);
        proof {
            assert(out@ =~= old(out)@ + dec_nat(n as nat));
        }
    }
}

/// The decimal string of a signed value, zero and positives unsigned.
pub fn i32_string(v: i32) -> (r: String)
    ensures
        r@ == dec_int(v as int),
{
    let mut out = String::new();
    if v < 0 {
        out.append("-");
        proof {
            reveal_strlit("-");
            assert(out@ =~= seq!['-']);
        }
        let mag: u64 = (-(v as i64)) as u64;
        append_dec(&mut out, mag);
        proof {
            assert(out@ =~= dec_int(v as int));
        }
    } else {
        append_dec(&mut out, v as u64);
    }
    out
}

/// The decimal string of an unsigned value.
pub fn u64_string(n: u64) -> (r: String)
    ensures
        r@ == dec_nat(n as nat),
{
    let mut out = String::new();
    append_dec(&mut out, n);
    out
}

/// Appends `s` left-aligned in a field of `w` characters.
fn append_padded(out: &mut String, s: &str, w: usize)
    ensures
        final(out)@ == old(out)@ + pad_to(s@, w as nat),
{
    let n = s.unicode_len();
    out.append(s);
    if n < w {
        append_spaces(out, w - n);
        proof {
            assert(out@ =~= old(out)@ + pad_to(s@, w as nat));
        }
    }
}

/// Appends `s` centered in a field of `w` characters, dash-filled.
fn append_centered_dash(out: &mut String, s: &str, w: usize)
    ensures
        final(out)@ == old(out)@ + center_dash(s@, w as nat),
{
    let n = s.unicode_len();
    if n >= w {
        out.append(s);
    } else {
        let total = w - n;
        let left = total / 2;
        append_dashes(out, left);
        out.append(s);
        append_dashes(out, total - left);
        proof {
            assert(out@ =~= old(out)@ + center_dash(s@, w as nat));
        }
    }
}

/// The summary-table form of a title.
pub fn truncated_title(title: &str) -> (r: String)
    ensures
        r@ == spec_trunc_title(title@),
{
    let n = title.unicode_len();
    if n > 47 {
        let mut t = String::from_str(title.substring_char(0, 47));
        t.append("...");
        proof {
            assert(title@.subrange(0, 47) =~= title@.take(47));
        }
        t
    } else {
        String::from_str(title)
    }
}

/// Appends one summary-table row.
fn append_summary_row(out: &mut String, h: &Hit)
    ensures
        final(out)@ == old(out)@ + spec_summary_row(*h),
{
    let title = truncated_title(h.story.title.as_str());
    append_padded(out, title.as_str(), 50);
    out.append(" | ");
    append_padded(out, h.story.by.as_str(), 15);
    out.append(" | ");
    let score = i32_string(match h.story.score {
        None => 0,
        Some(v) => v,
    });
    append_padded(out, score.as_str(), 10);
    out.append(" | ");
    let desc = i32_string(match h.story.descendants {
        None => 0,
        Some(v) => v,
    });
    append_padded(out, desc.as_str(), 20);
    out.append("\n");
    proof {
        assert(out@ =~= old(out)@ + spec_summary_row(*h));
    }
}

/// Appends one rendered comment of the detail section.
fn append_comment_block(out: &mut String, i: usize, j: usize, c: &Comment)
    requires
        i < usize::MAX,
        j < usize::MAX,
    ensures
        final(out)@ == old(out)@ + spec_comment_block(i as nat, j as nat, *c),
{
    out.append("\n");
    append_dec(out, (i as u64) + 1);
    out.append(".");
    append_dec(out, (j as u64) + 1);
    out.append(" by ");
    out.append(c.by.as_str());
    out.append(":\n");
    match &c.text {
        Some(t) => {
            out.append(t.as_str());
            out.append("\n\n");
        },
        None => {
            out.append("[Comment text not available]\n\n");
        },
    }
    proof {
        assert(out@ =~= old(out)@ + spec_comment_block(i as nat, j as nat, *c));
    }
}

/// Appends the detail section of one result.
#[verifier::rlimit(100)]
fn append_detail_block(out: &mut String, i: usize, h: &Hit)
    requires
        i < usize::MAX,
    ensures
        final(out)@ == old(out)@ + spec_detail_block(i as nat, *h),
{
    out.append("\n");
    append_dec(out, (i as u64) + 1);
    out.append(". ");
    out.append(h.story.title.as_str());
    out.append("\n");
    out.append("By: ");
    out.append(h.story.by.as_str());
    out.append(" | Points: ");
    let score = i32_string(match h.story.score {
        None => 0,
        Some(v) => v,
    });
    out.append(score.as_str());
    out.append(" | ID: ");
    append_dec(out, h.story.id as u64);
    out.append("\n");
    proof {
        assert(out@ =~= old(out)@ + spec_detail_head(i as nat, *h));
    }
    let ghost after_head = out@;
    match &h.story.url {
        Some(u) => {
            out.append("URL: ");
            out.append(u.as_str());
            out.append("\n");
        },
        None => {},
    }
    match &h.story.text {
        Some(t) => {
            out.append("\nText:\n");
            out.append(t.as_str());
            out.append("\n\n");
        },
        None => {},
    }
    proof {
        assert(out@ =~= after_head + spec_detail_opts(*h));
    }
    let ghost after_opts = out@;
    if h.comments.len() > 0 {
        out.append("\nTop Comments:\n");
        let ghost mid = out@;
        let mut j: usize = 0;
        while j < h.comments.len()
            invariant
                0 <= j <= h.comments@.len(),
                i < usize::MAX,
                out@ =~= mid + spec_comment_blocks(i as nat, h.comments@.take(j as int)),
            decreases h.comments@.len() - j,
        {
            proof {
                assert(h.comments@.take(j as int + 1).drop_last() =~= h.comments@.take(j as int));
            }
            append_comment_block(out, i, j, &h.comments[j]);
            j = j + 1;
            proof {
                assert(out@ =~= mid + spec_comment_blocks(i as nat, h.comments@.take(j as int)));
            }
        }
        proof {
            assert(h.comments@.take(h.comments@.len() as int) =~= h.comments@);
        }
    }
    proof {
        assert(out@ =~= after_opts + spec_detail_comments(i as nat, *h));
    }
    let ghost after_comments = out@;
    append_dashes(out, 120);
    out.append("\n");
    proof {
        assert(out@ =~= after_comments + repeat_char('-', 120) + "\n"@);
        assert(out@ =~= old(out)@ + spec_detail_block(i as nat, *h));
    }
}

/// Renders the ordered result set as the plain-text report: a fixed-width
/// summary table followed by a detail section per result. Pure: the text is
/// a function of the result set alone.
#[verifier::rlimit(100)]
pub fn format_hn_results(results: &Vec<Hit>) -> (out: String)
    ensures
        out@ == render_spec(results@),
{
    let mut out = String::new();
    out.append("\n");
    append_centered_dash(&mut out, " Hacker News Discussions ", 120);
    out.append("\n");
    append_padded(&mut out, "Title", 50);
    out.append(" | ");
    append_padded(&mut out, "Author", 15);
    out.append(" | ");
    append_padded(&mut out, "Points", 10);
    out.append(" | ");
    append_padded(&mut out, "Comments", 20);
    out.append("\n");
    append_dashes(&mut out, 120);
    out.append("\n");
    let ghost head = out@;
    let mut i: usize = 0;
    while i < results.len()
        invariant
            0 <= i <= results@.len(),
            out@ =~= head + spec_summary_rows(results@.take(i as int)),
        decreases results@.len() - i,
    {
        proof {
            assert(results@.take(i as int + 1).drop_last() =~= results@.take(i as int));
        }
        append_summary_row(&mut out, &results[i]);
        i = i + 1;
        proof {
            assert(out@ =~= head + spec_summary_rows(results@.take(i as int)));
        }
    }
    proof {
        assert(results@.take(results@.len() as int) =~= results@);
    }
    out.append("\n");
    append_centered_dash(&mut out, " Detailed Discussion View ", 120);
    out.append("\n");
    let ghost mid = out@;
    let mut k: usize = 0;
    while k < results.len()
        invariant
            0 <= k <= results@.len(),
            out@ =~= mid + spec_detail_blocks(results@.take(k as int)),
        decreases results@.len() - k,
    {
        proof {
            assert(results@.take(k as int + 1).drop_last() =~= results@.take(k as int));
        }
        append_detail_block(&mut out, k, &results[k]);
        k = k + 1;
        proof {
            assert(out@ =~= mid + spec_detail_blocks(results@.take(k as int)));
        }
    }
    proof {
        assert(results@.take(results@.len() as int) =~= results@);
        assert(out@ =~= render_spec(results@));
    }
    out
}

/// Renderer determinism: the report is a function of the result set alone,
/// so rendering the same result set twice produces identical text.
pub proof fn lemma_render_deterministic(a: Seq<Hit>, b: Seq<Hit>)
    requires
        a == b,
    ensures
        render_spec(a) == render_spec(b),
{
}

/// Truncation boundary: a title of up to 47 characters is kept whole; a
/// longer one becomes its first 47 characters plus a three-character
/// ellipsis, 50 characters in all.
pub proof fn lemma_title_truncation(t: Seq<char>)
    ensures
        t.len() <= 47 ==> spec_trunc_title(t) == t,
        t.len() > 47 ==> spec_trunc_title(t) == t.take(47) + "..."@,
        t.len() > 47 ==> spec_trunc_title(t).len() == 50,
{
    reveal_strlit("...");
}

} // verus!
