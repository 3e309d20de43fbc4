//! Reading the X11 font resolution out of the output of `xrdb -query`: the
//! text after `Xft.dpi:` on each line that starts with it.

use vstd::prelude::*;
use vstd::slice::{slice_subrange, slice_to_vec};

verus! {

/// The line feed byte.
pub const LINE_FEED: u8 = 10;

/// The carriage return byte.
pub const CARRIAGE_RETURN: u8 = 13;

/// The colon byte, which separates a resource name from its value.
pub const COLON: u8 = 58;

/// The bytes of `Xft.dpi:`, the prefix of the font resolution resource.
pub open spec fn xft_dpi_prefix() -> Seq<u8> {
    seq![88u8, 102u8, 116u8, 46u8, 100u8, 112u8, 105u8, 58u8]
}

/// The position of the first `b` in `s`, or the length of `s` when there is none.
pub open spec fn index_of_byte(s: Seq<u8>, b: u8) -> nat
    decreases s.len(),
{
    if s.len() == 0 {
        0
    } else if s[0] == b {
        0
    } else {
        1 + index_of_byte(s.drop_first(), b)
    }
}

/// A line without the carriage return of a `\r\n` line ending.
pub open spec fn without_carriage_return(line: Seq<u8>) -> Seq<u8> {
    if line.len() > 0 && line.last() == CARRIAGE_RETURN {
        line.drop_last()
    } else {
        line
    }
}

/// The lines of a text, as `str::lines` splits it: at each `\n`, dropping a
/// `\r` just before it; a last line without a line ending is kept as it is,
/// and a final line ending starts no empty line.
pub open spec fn text_lines(s: Seq<u8>) -> Seq<Seq<u8>>
    decreases s.len(),
{
    if s.len() == 0 {
        Seq::empty()
    } else {
        let k = index_of_byte(s, LINE_FEED);
        if k < s.len() {
            seq![without_carriage_return(s.take(k as int))] + text_lines(s.skip((k + 1) as int))
        } else {
            seq![s]
        }
    }
}

/// The value of the font resolution resource on a line: the text after
/// `Xft.dpi:` up to the next colon or the end of the line, when the line
/// starts with `Xft.dpi:`.
pub open spec fn dpi_field(line: Seq<u8>) -> Option<Seq<u8>> {
    if line.len() >= 8 && line.take(8) == xft_dpi_prefix() {
        let rest = line.skip(8);
        Some(rest.take(index_of_byte(rest, COLON) as int))
    } else {
        None
    }
}

/// The font resolution values of a sequence of lines, in order.
pub open spec fn dpi_fields(lines: Seq<Seq<u8>>) -> Seq<Seq<u8>>
    decreases lines.len(),
{
    if lines.len() == 0 {
        Seq::empty()
    } else {
        let rest = dpi_fields(lines.drop_first());
        match dpi_field(lines[0]) {
            Some(f) => seq![f] + rest,
            None => rest,
        }
    }
}

/// The font resolution values in the output of `xrdb -query`, in order.
pub open spec fn xft_dpi_values(output: Seq<u8>) -> Seq<Seq<u8>> {
    dpi_fields(text_lines(output))
}

/// The contents of a sequence of byte vectors.
pub open spec fn byte_rows(rows: Seq<Vec<u8>>) -> Seq<Seq<u8>> {
    rows.map_values(|v: Vec<u8>| v@)
}

proof fn lemma_index_of_byte(s: Seq<u8>, b: u8, k: int)
    requires
        0 <= k <= s.len(),
        forall|j: int| 0 <= j < k ==> s[j] != b,
        k == s.len() || s[k] == b,
    ensures
        index_of_byte(s, b) == k,
    decreases s.len(),
{
    if s.len() > 0 && s[0] != b {
        assert forall|j: int| 0 <= j < k - 1 implies s.drop_first()[j] != b by {
            assert(s.drop_first()[j] == s[j + 1]);
        }
        lemma_index_of_byte(s.drop_first(), b, k - 1);
    }
}

proof fn lemma_dpi_fields_push(lines: Seq<Seq<u8>>, line: Seq<u8>)
    ensures
        dpi_fields(seq![line] + lines) == match dpi_field(line) {
            Some(f) => seq![f] + dpi_fields(lines),
            None => dpi_fields(lines),
        },
{
    let all = seq![line] + lines;
    assert(all.drop_first() =~= lines);
    assert(all[0] == line);
}

/// The font resolution value of the line `output[lo..hi]`, if it has one.
fn dpi_field_of(output: &[u8], lo: usize, hi: usize) -> (r: Option<Vec<u8>>)
    requires
        lo <= hi <= output@.len(),
    ensures
        match r {
            Some(v) => dpi_field(output@.subrange(lo as int, hi as int)) == Some(v@),
            None => dpi_field(output@.subrange(lo as int, hi as int)) is None,
        },
{
    let ghost line = output@.subrange(lo as int, hi as int);
    if hi - lo < 8 {
        return None;
    }
    let prefix: [u8; 8] = [88u8, 102u8, 116u8, 46u8, 100u8, 112u8, 105u8, 58u8];
    let mut i: usize = 0;
    while i < 8
        invariant
            lo + 8 <= hi <= output@.len(),
            line == output@.subrange(lo as int, hi as int),
            prefix@ == xft_dpi_prefix(),
            0 <= i <= 8,
            forall|j: int| 0 <= j < i ==> line[j] == xft_dpi_prefix()[j],
        decreases 8 - i,
    {
        if output[lo + i] != prefix[i] {
            assert(line.take(8)[i as int] != xft_dpi_prefix()[i as int]);
            return None;
        }
        i = i + 1;
    }
    assert(line.take(8) =~= xft_dpi_prefix());
    let start = lo + 8;
    let mut end = start;
    while end < hi && output[end] != COLON
        invariant
            start <= end <= hi <= output@.len(),
            forall|j: int| start <= j < end ==> output@[j] != COLON,
        decreases hi - end,
    {
        end = end + 1;
    }
    let ghost rest = line.skip(8);
    proof {
        assert(rest =~= output@.subrange(start as int, hi as int));
        lemma_index_of_byte(rest, COLON, end - start);
    }
    let v = slice_to_vec(slice_subrange(output, start, end));
    assert(v@ =~= rest.take(end - start));
    Some(v)
}

/// Collects, in order, the value after `Xft.dpi:` on each line of the output
/// of `xrdb -query` that starts with `Xft.dpi:` (up to the next colon).
pub fn xft_dpi_candidates(output: &[u8]) -> (r: Vec<Vec<u8>>)
    ensures
        byte_rows(r@) == xft_dpi_values(output@),
{
    let mut res: Vec<Vec<u8>> = Vec::new();
    let mut start: usize = 0;
    assert(output@.skip(0) =~= output@);
    while start < output.len()
        invariant
            start <= output@.len(),
            byte_rows(res@) + dpi_fields(text_lines(output@.skip(start as int))) == xft_dpi_values(
                output@,
            ),
        decreases output@.len() - start,
    {
        let ghost rest = output@.skip(start as int);
        let ghost before = res@;
        let mut end = start;
        while end < output.len() && output[end] != LINE_FEED
            invariant
                start <= end <= output@.len(),
                forall|j: int| start <= j < end ==> output@[j] != LINE_FEED,
            decreases output@.len() - end,
        {
            end = end + 1;
        }
        let k = end - start;
        proof {
            lemma_index_of_byte(rest, LINE_FEED, k as int);
        }
        let line_end = if end < output.len() && end > start && output[end - 1] == CARRIAGE_RETURN {
            end - 1
        } else {
            end
        };
        let ghost line = output@.subrange(start as int, line_end as int);
        proof {
            if end < output.len() {
                assert(line =~= without_carriage_return(rest.take(k as int)));
                assert(rest.skip(k + 1) =~= output@.skip(end + 1));
                assert(text_lines(rest) == seq![line] + text_lines(output@.skip(end + 1)));
                lemma_dpi_fields_push(text_lines(output@.skip(end + 1)), line);
            } else {
                assert(line =~= rest);
                assert(text_lines(rest) == seq![line]);
                assert(text_lines(output@.skip(end as int)) == Seq::<Seq<u8>>::empty());
                lemma_dpi_fields_push(Seq::empty(), line);
                assert(seq![line] + Seq::<Seq<u8>>::empty() =~= seq![line]);
            }
        }
        match dpi_field_of(output, start, line_end) {
            Some(v) => {
                res.push(v);
                assert(byte_rows(res@) =~= byte_rows(before) + seq![dpi_field(line)->0]);
            },
            None => {},
        }
        if end < output.len() {
            start = end + 1;
        } else {
            start = end;
        }
        assert(byte_rows(res@) + dpi_fields(text_lines(output@.skip(start as int))) =~= xft_dpi_values(
            output@,
        ));
    }
    assert(output@.skip(start as int) =~= Seq::<u8>::empty());
    assert(byte_rows(res@) + Seq::<Seq<u8>>::empty() =~= byte_rows(res@));
    res
}

proof fn lemma_text_lines_first_line(a: Seq<u8>, b: Seq<u8>)
    requires
        forall|j: int| 0 <= j < a.len() ==> a[j] != LINE_FEED,
    ensures
        text_lines(a + seq![LINE_FEED] + b) == seq![without_carriage_return(a)] + text_lines(b),
{
    let s = a + seq![LINE_FEED] + b;
    lemma_index_of_byte(s, LINE_FEED, a.len() as int);
    assert(s.take(a.len() as int) =~= a);
    assert(s.skip((a.len() + 1) as int) =~= b);
}

/// Line endings do not matter: a line ended by `\r\n` yields the same
/// `Xft.dpi` values as the same line ended by `\n` (for a line that does
/// not itself end in a carriage return).
pub proof fn lemma_crlf_same_as_lf(a: Seq<u8>, b: Seq<u8>)
    requires
        forall|j: int| 0 <= j < a.len() ==> a[j] != LINE_FEED,
        a.len() == 0 || a.last() != CARRIAGE_RETURN,
    ensures
        xft_dpi_values(a + seq![CARRIAGE_RETURN, LINE_FEED] + b) == xft_dpi_values(
            a + seq![LINE_FEED] + b,
        ),
{
    let cr = a.push(CARRIAGE_RETURN);
    assert(a + seq![CARRIAGE_RETURN, LINE_FEED] + b =~= cr + seq![LINE_FEED] + b);
    assert forall|j: int| 0 <= j < cr.len() implies cr[j] != LINE_FEED by {
        if j < a.len() {
            assert(cr[j] == a[j]);
        }
    }
    lemma_text_lines_first_line(cr, b);
    lemma_text_lines_first_line(a, b);
    assert(without_carriage_return(cr) =~= a);
    assert(without_carriage_return(a) == a);
}

/// A line `Xft.dpi:` followed by a value without colons, line feeds or a
/// final carriage return yields that value first, ahead of the values of
/// the lines after it.
pub proof fn lemma_dpi_line_value(v: Seq<u8>, b: Seq<u8>)
    requires
        forall|j: int| 0 <= j < v.len() ==> v[j] != LINE_FEED && v[j] != COLON,
        v.len() == 0 || v.last() != CARRIAGE_RETURN,
    ensures
        xft_dpi_values(xft_dpi_prefix() + v + seq![LINE_FEED] + b) == seq![v] + xft_dpi_values(b),
{
    let line = xft_dpi_prefix() + v;
    assert forall|j: int| 0 <= j < line.len() implies line[j] != LINE_FEED by {
        if j >= 8 {
            assert(line[j] == v[j - 8]);
        }
    }
    assert(xft_dpi_prefix() + v + seq![LINE_FEED] + b =~= line + seq![LINE_FEED] + b);
    lemma_text_lines_first_line(line, b);
    assert(without_carriage_return(line) == line);
    assert(line.take(8) =~= xft_dpi_prefix());
    assert(line.skip(8) =~= v);
    lemma_index_of_byte(v, COLON, v.len() as int);
    assert(v.take(v.len() as int) =~= v);
    let lines = seq![line] + text_lines(b);
    assert(lines.drop_first() =~= text_lines(b));
    assert(lines[0] == line);
}

} // verus!
