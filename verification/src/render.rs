//! What the renderer owes for a response: whether headers are printed at all,
//! whether a body is read, the deterministic order of the headers, and the
//! exact control sequence that redraws a poll snapshot in place.

use vstd::prelude::*;

verus! {

/// An HTTP success status: the 2xx range.
pub open spec fn spec_is_success(status: int) -> bool {
    200 <= status < 300
}

/// Whether a status code is a success code.
pub fn is_success(status: u16) -> (r: bool)
    ensures
        r == spec_is_success(status as int),
{
    200 <= status && status < 300
}

/// The No Content status code.
pub open spec fn spec_is_no_content(status: int) -> bool {
    status == 204
}

/// What the renderer owes for one response.
#[derive(Clone, Copy, Debug, PartialEq, Eq, Structural)]
pub struct RenderPlan {
    /// Print the status line and the headers (to the error stream).
    pub print_headers: bool,
    /// Read and render the body; a No Content response has no body output
    /// and stands for no value at all.
    pub read_body: bool,
}

/// Decides the output owed for a response: headers are suppressed exactly
/// when verbosity is zero and the status is a success code, and the body is
/// read exactly when the status is not No Content.
pub fn render_plan(verbose: u8, status: u16) -> (p: RenderPlan)
    ensures
        p.print_headers == !(verbose == 0 && spec_is_success(status as int)),
        p.read_body == !spec_is_no_content(status as int),
{
    RenderPlan {
        print_headers: !(verbose == 0 && is_success(status)),
        read_body: status != 204,
    }
}

/// Lexicographic order on byte strings: the order header names are printed
/// in.
pub open spec fn spec_bytes_le(a: Seq<u8>, b: Seq<u8>) -> bool
    decreases a.len(),
{
    if a.len() == 0 {
        true
    } else if b.len() == 0 {
        false
    } else if a[0] < b[0] {
        true
    } else if a[0] > b[0] {
        false
    } else {
        spec_bytes_le(a.drop_first(), b.drop_first())
    }
}

/// The order is total.
pub proof fn lemma_bytes_le_total(a: Seq<u8>, b: Seq<u8>)
    ensures
        spec_bytes_le(a, b) || spec_bytes_le(b, a),
    decreases a.len(),
{
    if a.len() > 0 && b.len() > 0 && a[0] == b[0] {
        lemma_bytes_le_total(a.drop_first(), b.drop_first());
    }
}

/// The order is transitive.
pub proof fn lemma_bytes_le_trans(a: Seq<u8>, b: Seq<u8>, c: Seq<u8>)
    requires
        spec_bytes_le(a, b),
        spec_bytes_le(b, c),
    ensures
        spec_bytes_le(a, c),
    decreases a.len(),
{
    if a.len() > 0 && b.len() > 0 && c.len() > 0 && a[0] == b[0] && b[0] == c[0] {
        lemma_bytes_le_trans(a.drop_first(), b.drop_first(), c.drop_first());
    }
}

proof fn lemma_bytes_le_skip(a: Seq<u8>, b: Seq<u8>, i: int)
    requires
        0 <= i <= a.len(),
        i <= b.len(),
        forall|j: int| 0 <= j < i ==> a[j] == b[j],
    ensures
        spec_bytes_le(a, b) == spec_bytes_le(a.skip(i), b.skip(i)),
    decreases i,
{
    if i > 0 {
        assert(a.skip(1) =~= a.drop_first());
        assert(b.skip(1) =~= b.drop_first());
        assert forall|j: int| 0 <= j < i - 1 implies a.drop_first()[j] == b.drop_first()[j] by {
            assert(a.drop_first()[j] == a[j + 1]);
        }
        lemma_bytes_le_skip(a.drop_first(), b.drop_first(), i - 1);
        assert(a.drop_first().skip(i - 1) =~= a.skip(i));
        assert(b.drop_first().skip(i - 1) =~= b.skip(i));
    } else {
        assert(a.skip(0) =~= a);
        assert(b.skip(0) =~= b);
    }
}

/// Compares two byte strings in the lexicographic order.
pub fn bytes_le(a: &Vec<u8>, b: &Vec<u8>) -> (r: bool)
    ensures
        r == spec_bytes_le(a@, b@),
{
    let a_len = a.len();
    let b_len = b.len();
    let mut i: usize = 0;
    while i < a_len && i < b_len
        invariant
            i <= a_len,
            i <= b_len,
            a_len == a@.len(),
            b_len == b@.len(),
            forall|j: int| 0 <= j < i ==> a@[j] == b@[j],
        decreases a_len - i,
    {
        if a[i] < b[i] {
            proof {
                lemma_bytes_le_skip(a@, b@, i as int);
            }
            return true;
        }
        if a[i] > b[i] {
            proof {
                lemma_bytes_le_skip(a@, b@, i as int);
            }
            return false;
        }
        i += 1;
    }
    proof {
        lemma_bytes_le_skip(a@, b@, i as int);
        if i == a_len {
            assert(a@.skip(i as int).len() == 0);
        } else {
            assert(b@.skip(i as int).len() == 0);
            assert(a@.skip(i as int).len() > 0);
        }
    }
    a_len <= b_len
}

/// A header list sorted by name in the lexicographic byte order.
pub open spec fn spec_headers_sorted(h: Seq<(Vec<u8>, Vec<u8>)>) -> bool {
    forall|i: int, j: int|
        0 <= i < j < h.len() ==> spec_bytes_le(#[trigger] h[i].0@, #[trigger] h[j].0@)
}

/// Sorts the headers by name, so the printed order is deterministic. The
/// result holds exactly the given name/value pairs.
pub fn sort_headers(headers: Vec<(Vec<u8>, Vec<u8>)>) -> (r: Vec<(Vec<u8>, Vec<u8>)>)
    ensures
        spec_headers_sorted(r@),
        r@.to_multiset() == headers@.to_multiset(),
{
    broadcast use vstd::seq_lib::group_to_multiset_ensures;

    let mut rest = headers;
    let mut out: Vec<(Vec<u8>, Vec<u8>)> = Vec::new();
    while rest.len() > 0
        invariant
            spec_headers_sorted(out@),
            forall|i: int, j: int|
                0 <= i < out@.len() && 0 <= j < rest@.len() ==> spec_bytes_le(
                    #[trigger] out@[i].0@,
                    #[trigger] rest@[j].0@,
                ),
            out@.to_multiset().add(rest@.to_multiset()) == headers@.to_multiset(),
        decreases rest@.len(),
    {
        // Find a minimal remaining name.
        proof {
            lemma_bytes_le_total(rest@[0].0@, rest@[0].0@);
        }
        let mut m: usize = 0;
        let mut k: usize = 1;
        while k < rest.len()
            invariant
                0 < rest@.len(),
                m < k,
                k <= rest@.len(),
                forall|j: int| 0 <= j < k ==> spec_bytes_le(rest@[m as int].0@, #[trigger] rest@[j].0@),
            decreases rest@.len() - k,
        {
            if bytes_le(&rest[k].0, &rest[m].0) {
                proof {
                    assert forall|j: int| 0 <= j < k + 1 implies spec_bytes_le(
                        rest@[k as int].0@,
                        #[trigger] rest@[j].0@,
                    ) by {
                        if j < k {
                            lemma_bytes_le_trans(rest@[k as int].0@, rest@[m as int].0@, rest@[j].0@);
                        } else {
                            lemma_bytes_le_total(rest@[k as int].0@, rest@[k as int].0@);
                        }
                    }
                }
                m = k;
            } else {
                proof {
                    lemma_bytes_le_total(rest@[k as int].0@, rest@[m as int].0@);
                }
            }
            k += 1;
        }
        let ghost old_rest = rest@;
        let ghost old_out = out@;
        let item = rest.remove(m);
        out.push(item);
        proof {
            // The moved pair is minimal among what it was taken from.
            assert forall|j: int| 0 <= j < rest@.len() implies spec_bytes_le(
                item.0@,
                #[trigger] rest@[j].0@,
            ) by {
                if j < m {
                    assert(rest@[j] == old_rest[j]);
                } else {
                    assert(rest@[j] == old_rest[j + 1]);
                }
            }
            assert(spec_headers_sorted(out@));
            // Multiset bookkeeping: moving one pair keeps the union.
            old_out.to_multiset_ensures();
            old_rest.to_multiset_ensures();
            assert(old_rest[m as int] == item);
            assert(old_rest.contains(item));
            assert(out@ == old_out.push(item));
            assert(rest@ == old_rest.remove(m as int));
            assert(out@.to_multiset() =~= old_out.to_multiset().insert(item));
            assert(rest@.to_multiset() =~= old_rest.to_multiset().remove(item));
            assert(out@.to_multiset().add(rest@.to_multiset()) =~= old_out.to_multiset().add(
                old_rest.to_multiset(),
            ));
        }
    }
    out
}

/// The number of occurrences of a character.
pub open spec fn spec_count_char(s: Seq<char>, c: char) -> int
    decreases s.len(),
{
    if s.len() == 0 {
        0
    } else {
        spec_count_char(s.drop_last(), c) + if s.last() == c {
            1int
        } else {
            0int
        }
    }
}

/// The number of lines a rendered string occupies on the terminal: one more
/// than its newline count (rendered JSON never ends in a newline; the final
/// newline is printed separately).
pub open spec fn spec_line_count(s: Seq<char>) -> int {
    spec_count_char(s, '\n') + 1
}

/// Counts the occurrences of a character in a string.
pub fn count_char(s: &str, c: char) -> (n: usize)
    ensures
        n == spec_count_char(s@, c),
{
    let len = s.unicode_len();
    let mut n: usize = 0;
    let mut i: usize = 0;
    while i < len
        invariant
            i <= len,
            len == s@.len(),
            n == spec_count_char(s@.take(i as int), c),
            n <= i,
        decreases len - i,
    {
        if s.get_char(i) == c {
            n += 1;
        }
        proof {
            assert(s@.take(i + 1).drop_last() =~= s@.take(i as int));
            assert(s@.take(i + 1).last() == s@[i as int]);
        }
        i += 1;
    }
    proof {
        assert(s@.take(len as int) =~= s@);
    }
    n
}

/// The number of terminal lines a rendered string occupies.
pub fn line_count(s: &str) -> (n: usize)
    requires
        s@.len() < usize::MAX,
    ensures
        n == spec_line_count(s@),
{
    proof {
        lemma_count_char_bound(s@, '\n');
    }
    count_char(s, '\n') + 1
}

proof fn lemma_count_char_bound(s: Seq<char>, c: char)
    ensures
        0 <= spec_count_char(s, c) <= s.len(),
    decreases s.len(),
{
    if s.len() > 0 {
        lemma_count_char_bound(s.drop_last(), c);
    }
}

/// A sequence repeated a number of times.
pub open spec fn spec_repeat(s: Seq<char>, n: int) -> Seq<char>
    decreases n,
{
    if n <= 0 {
        Seq::empty()
    } else {
        spec_repeat(s, n - 1) + s
    }
}

/// The control sequence that erases the given number of just-printed lines:
/// one clear-line-and-cursor-up pair per line, so the next poll snapshot
/// overwrites the previous one instead of scrolling.
pub fn redraw_prefix(lines: usize) -> (r: String)
    ensures
        r@ == spec_repeat("\x1b[K\x1b[A"@, lines as int),
{
    let mut r = String::new();
    let mut i: usize = 0;
    while i < lines
        invariant
            i <= lines,
            r@ == spec_repeat("\x1b[K\x1b[A"@, i as int),
        decreases lines - i,
    {
        r.append("\x1b[K\x1b[A");
        i += 1;
    }
    r
}

/// The cumulative terminal cost of showing the first `k` suggestions, one
/// separating line each.
pub open spec fn spec_shown_cost(lines: Seq<usize>, k: int) -> int
    decreases k,
{
    if k <= 0 {
        0
    } else {
        spec_shown_cost(lines, k - 1) + lines[k - 1] + 1
    }
}

/// How many suggestions fit on the terminal: the longest prefix whose
/// cumulative line cost stays within the budget, as the interactive search
/// shows suggestions until the screen is full.
pub fn prefix_within_budget(lines: &Vec<usize>, budget: usize) -> (k: usize)
    ensures
        k <= lines@.len(),
        spec_shown_cost(lines@, k as int) <= budget,
        k < lines@.len() ==> spec_shown_cost(lines@, k as int + 1) > budget,
{
    let n = lines.len();
    let mut used: u128 = 0;
    let mut k: usize = 0;
    while k < n
        invariant
            k <= n,
            n == lines@.len(),
            used == spec_shown_cost(lines@, k as int),
            used <= budget,
        decreases n - k,
    {
        let cost = lines[k] as u128 + 1;
        if used + cost > budget as u128 {
            return k;
        }
        used = used + cost;
        k += 1;
    }
    k
}

} // verus!
