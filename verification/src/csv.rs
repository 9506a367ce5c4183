//! The preview of a CSV file before it is uploaded to a program: its lines
//! (as `str::lines` splits them), how many data lines follow the header, and
//! the X, Y and Z cells of the first rows.

use vstd::prelude::*;
use vstd::string::*;
use crate::text::{char_is_whitespace, unicode_white_space};

verus! {

// ---------------------------------------------------------------------------
// Splitting
// ---------------------------------------------------------------------------

/// The position of the first `c` in `s`, or the length of `s` when there is
/// none.
pub open spec fn first_index_of(s: Seq<char>, c: char) -> nat
    decreases s.len(),
{
    if s.len() == 0 {
        0
    } else if s[0] == c {
        0
    } else {
        1 + first_index_of(s.drop_first(), c)
    }
}

/// A line without the carriage return of a `\r\n` ending.
pub open spec fn strip_cr(line: Seq<char>) -> Seq<char> {
    if line.len() > 0 && line.last() == '\r' {
        line.drop_last()
    } else {
        line
    }
}

/// The lines of a text as `str::lines` gives them: the text is split after
/// each `\n`, which is dropped together with a `\r` just before it, and a
/// final `\n` does not start another line.
pub open spec fn text_lines(s: Seq<char>) -> Seq<Seq<char>>
    decreases s.len(),
{
    if s.len() == 0 {
        Seq::empty()
    } else {
        let k = first_index_of(s, '\n');
        if k >= s.len() {
            seq![s]
        } else {
            seq![strip_cr(s.take(k as int))] + text_lines(s.skip(k as int + 1))
        }
    }
}

/// The fields of a line split at each comma, as `str::split(',')` gives
/// them; there is always at least one.
pub open spec fn comma_fields(s: Seq<char>) -> Seq<Seq<char>>
    decreases s.len(),
{
    let k = first_index_of(s, ',');
    if k >= s.len() {
        seq![s]
    } else {
        seq![s.take(k as int)] + comma_fields(s.skip(k as int + 1))
    }
}

/// `s` without leading whitespace.
pub open spec fn trim_start(s: Seq<char>) -> Seq<char>
    decreases s.len(),
{
    if s.len() > 0 && unicode_white_space(s[0]) {
        trim_start(s.drop_first())
    } else {
        s
    }
}

/// `s` without trailing whitespace.
pub open spec fn trim_end(s: Seq<char>) -> Seq<char>
    decreases s.len(),
{
    if s.len() > 0 && unicode_white_space(s.last()) {
        trim_end(s.drop_last())
    } else {
        s
    }
}

/// `s` without leading and trailing whitespace, as `str::trim` gives it.
pub open spec fn trim(s: Seq<char>) -> Seq<char> {
    trim_end(trim_start(s))
}

/// The first `c` is at `m` when no `c` comes before `m` and `m` holds one or
/// is the end.
proof fn lemma_first_index_of(s: Seq<char>, c: char, m: int)
    requires
        0 <= m <= s.len(),
        forall|j: int| 0 <= j < m ==> s[j] != c,
        m == s.len() || s[m] == c,
    ensures
        first_index_of(s, c) == m,
    decreases m,
{
    if m > 0 {
        let t = s.drop_first();
        assert forall|j: int| 0 <= j < m - 1 implies t[j] != c by {
            assert(t[j] == s[j + 1]);
        }
        if m < s.len() {
            assert(t[m - 1] == s[m]);
        }
        lemma_first_index_of(t, c, m - 1);
    }
}

/// The position of the first `c` at or after `from`, or the length.
fn find_char(s: &str, from: usize, c: char) -> (r: usize)
    requires
        from <= s@.len(),
    ensures
        from <= r <= s@.len(),
        r == from + first_index_of(s@.skip(from as int), c),
{
    let n = s.unicode_len();
    let mut i = from;
    while i < n
        invariant
            n == s@.len(),
            from <= i <= n,
            forall|j: int| from <= j < i ==> s@[j] != c,
        ensures
            from <= i <= n,
            forall|j: int| from <= j < i ==> s@[j] != c,
            i == n || s@[i as int] == c,
        decreases n - i,
    {
        if s.get_char(i) == c {
            break;
        }
        i = i + 1;
    }
    proof {
        let t = s@.skip(from as int);
        assert forall|j: int| 0 <= j < i - from implies t[j] != c by {
            assert(t[j] == s@[from + j]);
        }
        if i < n {
            assert(t[i - from] == s@[i as int]);
        }
        lemma_first_index_of(t, c, i - from);
    }
    i
}

/// The lines of a text, as `str::lines` gives them.
pub fn split_lines(s: &str) -> (r: Vec<String>)
    ensures
        r@.map_values(|l: String| l@) == text_lines(s@),
{
    let n = s.unicode_len();
    let mut lines: Vec<String> = Vec::new();
    let mut start: usize = 0;
    assert(s@.skip(0) =~= s@);
    while start < n
        invariant
            n == s@.len(),
            start <= n,
            lines@.map_values(|l: String| l@) + text_lines(s@.skip(start as int)) == text_lines(s@),
        decreases n - start,
    {
        let ghost t = s@.skip(start as int);
        let ghost before = lines@.map_values(|l: String| l@);
        let k = find_char(s, start, '\n');
        if k == n {
            let line = s.substring_char(start, n);
            lines.push(String::from_str(line));
            proof {
                assert(line@ =~= t);
                assert(text_lines(t) == seq![t]);
                assert(lines@.map_values(|l: String| l@) =~= before.push(t));
                assert(s@.skip(n as int) =~= Seq::<char>::empty());
                assert(before.push(t) + text_lines(s@.skip(n as int)) =~= before + text_lines(t));
            }
            start = n;
        } else {
            let end = if k > start && s.get_char(k - 1) == '\r' {
                k - 1
            } else {
                k
            };
            let line = s.substring_char(start, end);
            lines.push(String::from_str(line));
            proof {
                let head = t.take(k - start);
                assert(head =~= s@.subrange(start as int, k as int));
                assert(line@ =~= strip_cr(head));
                assert(t.skip(k - start + 1) =~= s@.skip(k + 1));
                assert(text_lines(t) == seq![strip_cr(head)] + text_lines(s@.skip(k + 1)));
                assert(lines@.map_values(|l: String| l@) =~= before.push(strip_cr(head)));
                assert(before.push(strip_cr(head)) + text_lines(s@.skip(k + 1)) =~= before + text_lines(t));
            }
            start = k + 1;
        }
    }
    assert(s@.skip(n as int) =~= Seq::<char>::empty());
    assert(lines@.map_values(|l: String| l@) + Seq::<Seq<char>>::empty() =~= lines@.map_values(|l: String| l@));
    lines
}

/// Dropping leading whitespace up to the first other character.
proof fn lemma_trim_start(s: Seq<char>, a: int)
    requires
        0 <= a <= s.len(),
        forall|j: int| 0 <= j < a ==> unicode_white_space(#[trigger] s[j]),
        a == s.len() || !unicode_white_space(s[a]),
    ensures
        trim_start(s) == s.skip(a),
    decreases a,
{
    if a == 0 {
        assert(s.skip(0) =~= s);
    } else {
        let t = s.drop_first();
        assert(unicode_white_space(s[0]));
        assert forall|j: int| 0 <= j < a - 1 implies unicode_white_space(#[trigger] t[j]) by {
            assert(t[j] == s[j + 1]);
        }
        if a < s.len() {
            assert(t[a - 1] == s[a]);
        }
        lemma_trim_start(t, a - 1);
        assert(t.skip(a - 1) =~= s.skip(a));
    }
}

/// Dropping trailing whitespace back to the last other character.
proof fn lemma_trim_end(s: Seq<char>, b: int)
    requires
        0 <= b <= s.len(),
        forall|j: int| b <= j < s.len() ==> unicode_white_space(#[trigger] s[j]),
        b == 0 || !unicode_white_space(s[b - 1]),
    ensures
        trim_end(s) == s.take(b),
    decreases s.len() - b,
{
    if b == s.len() {
        assert(s.take(b) =~= s);
    } else {
        let t = s.drop_last();
        assert(unicode_white_space(s.last()));
        assert forall|j: int| b <= j < t.len() implies unicode_white_space(#[trigger] t[j]) by {
            assert(t[j] == s[j]);
        }
        if b > 0 {
            assert(t[b - 1] == s[b - 1]);
        }
        lemma_trim_end(t, b);
        assert(t.take(b) =~= s.take(b));
    }
}

/// `s` without leading and trailing whitespace, as `str::trim` gives it.
pub fn trim_str(s: &str) -> (r: &str)
    ensures
        r@ == trim(s@),
{
    let n = s.unicode_len();
    let mut a: usize = 0;
    while a < n
        invariant
            n == s@.len(),
            a <= n,
            forall|j: int| 0 <= j < a ==> unicode_white_space(#[trigger] s@[j]),
        ensures
            a <= n,
            forall|j: int| 0 <= j < a ==> unicode_white_space(#[trigger] s@[j]),
            a == n || !unicode_white_space(s@[a as int]),
        decreases n - a,
    {
        if !char_is_whitespace(s.get_char(a)) {
            break;
        }
        a = a + 1;
    }
    let mut b: usize = n;
    while b > a
        invariant
            n == s@.len(),
            a <= b <= n,
            forall|j: int| b <= j < n ==> unicode_white_space(#[trigger] s@[j]),
        ensures
            a <= b <= n,
            forall|j: int| b <= j < n ==> unicode_white_space(#[trigger] s@[j]),
            b == a || !unicode_white_space(s@[b - 1]),
        decreases b - a,
    {
        if !char_is_whitespace(s.get_char(b - 1)) {
            break;
        }
        b = b - 1;
    }
    proof {
        lemma_trim_start(s@, a as int);
        let u = s@.skip(a as int);
        assert forall|j: int| b - a <= j < u.len() implies unicode_white_space(#[trigger] u[j]) by {
            assert(u[j] == s@[a + j]);
        }
        if b > a {
            assert(u[b - a - 1] == s@[b - 1]);
        }
        lemma_trim_end(u, b - a);
        assert(u.take(b - a) =~= s@.subrange(a as int, b as int));
    }
    s.substring_char(a, b)
}

/// The fields of a line split at each comma.
pub fn split_commas(s: &str) -> (r: Vec<String>)
    ensures
        r@.map_values(|f: String| f@) == comma_fields(s@),
{
    let n = s.unicode_len();
    let mut fields: Vec<String> = Vec::new();
    let mut start: usize = 0;
    assert(s@.skip(0) =~= s@);
    loop
        invariant_except_break
            fields@.map_values(|f: String| f@) + comma_fields(s@.skip(start as int)) == comma_fields(s@),
        invariant
            n == s@.len(),
            start <= n,
        ensures
            fields@.map_values(|f: String| f@) == comma_fields(s@),
        decreases n - start,
    {
        let ghost t = s@.skip(start as int);
        let ghost before = fields@.map_values(|f: String| f@);
        let k = find_char(s, start, ',');
        let field = s.substring_char(start, k);
        fields.push(String::from_str(field));
        if k == n {
            proof {
                assert(field@ =~= t);
                assert(comma_fields(t) == seq![t]);
                assert(fields@.map_values(|f: String| f@) =~= before + comma_fields(t));
            }
            break;
        }
        proof {
            let head = t.take(k - start);
            assert(head =~= field@);
            assert(t.skip(k - start + 1) =~= s@.skip(k + 1));
            assert(comma_fields(t) == seq![head] + comma_fields(s@.skip(k + 1)));
            assert(fields@.map_values(|f: String| f@) =~= before.push(head));
            assert(before.push(head) + comma_fields(s@.skip(k + 1)) =~= before + comma_fields(t));
        }
        start = k + 1;
    }
    fields
}

// ---------------------------------------------------------------------------
// Preview
// ---------------------------------------------------------------------------

/// How many data lines a CSV text has: all its lines but the header.
pub open spec fn data_line_count(text: Seq<char>) -> nat {
    let lines = text_lines(text);
    if lines.len() == 0 {
        0
    } else {
        (lines.len() - 1) as nat
    }
}

/// The rows shown in the preview: up to eight data lines after the header.
pub open spec fn preview_rows(text: Seq<char>) -> Seq<Seq<char>> {
    let lines = text_lines(text);
    if lines.len() <= 1 {
        Seq::empty()
    } else if lines.len() <= 9 {
        lines.skip(1)
    } else {
        lines.subrange(1, 9)
    }
}

/// What the upload dialog shows of a CSV file before it is sent.
pub struct CsvPreview {
    /// The number of data lines (the header is not counted).
    pub data_lines: usize,
    /// The first data lines, at most eight.
    pub rows: Vec<String>,
}

/// Reads a CSV text for the upload preview.
pub fn csv_preview(text: &str) -> (r: CsvPreview)
    ensures
        r.data_lines == data_line_count(text@),
        r.rows@.map_values(|l: String| l@) == preview_rows(text@),
{
    let mut lines = split_lines(text);
    let ghost all = lines@.map_values(|l: String| l@);
    let count = lines.len();
    let data_lines: usize = if count == 0 {
        0
    } else {
        count - 1
    };
    lines.truncate(9);
    if lines.len() > 0 {
        lines.remove(0);
    }
    proof {
        if count <= 1 {
            assert(lines@.map_values(|l: String| l@) =~= Seq::<Seq<char>>::empty());
        } else if count <= 9 {
            assert(lines@.map_values(|l: String| l@) =~= all.skip(1));
        } else {
            assert(lines@.map_values(|l: String| l@) =~= all.subrange(1, 9));
        }
    }
    CsvPreview { data_lines, rows: lines }
}

/// The cell of a preview row in column `i` (0 for X, 1 for Y, 2 for Z): the
/// field there, trimmed, or `-` when the row has fewer fields.
pub open spec fn preview_cell(row: Seq<char>, i: int) -> Seq<char> {
    let fields = comma_fields(row);
    if i < fields.len() {
        trim(fields[i])
    } else {
        "-"@
    }
}

/// The X, Y and Z cells of a preview row.
pub fn preview_cells(row: &str) -> (r: (String, String, String))
    ensures
        r.0@ == preview_cell(row@, 0),
        r.1@ == preview_cell(row@, 1),
        r.2@ == preview_cell(row@, 2),
{
    let fields = split_commas(row);
    let x = if fields.len() > 0 {
        String::from_str(trim_str(fields[0].as_str()))
    } else {
        String::from_str("-")
    };
    let y = if fields.len() > 1 {
        String::from_str(trim_str(fields[1].as_str()))
    } else {
        String::from_str("-")
    };
    let z = if fields.len() > 2 {
        String::from_str(trim_str(fields[2].as_str()))
    } else {
        String::from_str("-")
    };
    (x, y, z)
}

// ---------------------------------------------------------------------------
// Laws
// ---------------------------------------------------------------------------

/// What `first_index_of` finds: no `c` before it, and a `c` at it unless it
/// is the end.
proof fn lemma_first_index_of_facts(s: Seq<char>, c: char)
    ensures
        first_index_of(s, c) <= s.len(),
        forall|j: int| 0 <= j < first_index_of(s, c) ==> s[j] != c,
        first_index_of(s, c) < s.len() ==> s[first_index_of(s, c) as int] == c,
    decreases s.len(),
{
    if s.len() > 0 && s[0] != c {
        let t = s.drop_first();
        lemma_first_index_of_facts(t, c);
        assert forall|j: int| 0 <= j < first_index_of(s, c) implies s[j] != c by {
            if j > 0 {
                assert(s[j] == t[j - 1]);
            }
        }
    }
}

/// No line holds a line feed: the line endings are not part of the lines.
pub proof fn lemma_lines_have_no_newline(s: Seq<char>)
    ensures
        forall|i: int, j: int|
            0 <= i < text_lines(s).len() && 0 <= j < text_lines(s)[i].len() ==> text_lines(s)[i][j] != '\n',
    decreases s.len(),
{
    if s.len() > 0 {
        let k = first_index_of(s, '\n');
        lemma_first_index_of_facts(s, '\n');
        if k < s.len() {
            let rest = s.skip(k as int + 1);
            lemma_lines_have_no_newline(rest);
            let head = strip_cr(s.take(k as int));
            assert forall|i: int, j: int|
                0 <= i < text_lines(s).len() && 0 <= j < text_lines(s)[i].len() implies text_lines(s)[i][j]
                != '\n' by {
                if i == 0 {
                    assert(text_lines(s)[0] == head);
                    assert(head[j] == s[j]);
                } else {
                    assert(text_lines(s)[i] == text_lines(rest)[i - 1]);
                }
            }
        }
    }
}

/// The preview shows the first data lines in order, eight of them or all
/// when there are fewer.
pub proof fn lemma_preview_rows(text: Seq<char>)
    ensures
        preview_rows(text).len() == (if data_line_count(text) < 8 {
            data_line_count(text)
        } else {
            8
        }),
        forall|i: int| 0 <= i < preview_rows(text).len() ==> preview_rows(text)[i] == text_lines(text)[i + 1],
{
}

} // verus!
