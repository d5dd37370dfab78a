use vstd::prelude::*;
use vstd::std_specs::iter::IteratorSpec;

verus! {

/// The lines of `s` after an unfinished line `cur`, split as `str::lines`
/// does: at each `\n`, dropping one `\r` before it; a last line without `\n`
/// is kept as it is, and an empty one is not a line.
pub open spec fn split_lines(s: Seq<char>, cur: Seq<char>) -> Seq<Seq<char>>
    decreases s.len(),
{
    if s.len() == 0 {
        if cur.len() == 0 {
            seq![]
        } else {
            seq![cur]
        }
    } else if s[0] == '\n' {
        seq![strip_cr(cur)] + split_lines(s.drop_first(), seq![])
    } else {
        split_lines(s.drop_first(), cur.push(s[0]))
    }
}

pub open spec fn strip_cr(line: Seq<char>) -> Seq<char> {
    if line.len() > 0 && line.last() == '\r' {
        line.drop_last()
    } else {
        line
    }
}

pub open spec fn lines_of(s: Seq<char>) -> Seq<Seq<char>> {
    split_lines(s, seq![])
}

pub open spec fn ends_with(line: Seq<char>, suffix: Seq<char>) -> bool {
    suffix.len() <= line.len() && line.subrange(line.len() - suffix.len(), line.len() as int)
        == suffix
}

/// The lines after the first one that ends with `marker`; none if no line does.
pub open spec fn after_marker(lines: Seq<Seq<char>>, marker: Seq<char>) -> Seq<Seq<char>>
    decreases lines.len(),
{
    if lines.len() == 0 {
        lines
    } else if ends_with(lines[0], marker) {
        lines.drop_first()
    } else {
        after_marker(lines.drop_first(), marker)
    }
}

/// The lines before the first one that ends with `stop`.
pub open spec fn until_stop(lines: Seq<Seq<char>>, stop: Seq<char>) -> Seq<Seq<char>>
    decreases lines.len(),
{
    if lines.len() == 0 || ends_with(lines[0], stop) {
        seq![]
    } else {
        seq![lines[0]] + until_stop(lines.drop_first(), stop)
    }
}

/// The lines joined by `\n`.
pub open spec fn join_lines(lines: Seq<Seq<char>>) -> Seq<char>
    decreases lines.len(),
{
    if lines.len() == 0 {
        seq![]
    } else if lines.len() == 1 {
        lines[0]
    } else {
        join_lines(lines.drop_last()) + seq!['\n'] + lines.last()
    }
}

/// The text between the line that ends with `Unreleased` and the next line
/// that ends with `version`.
pub open spec fn unreleased_text(changelog: Seq<char>, version: Seq<char>) -> Seq<char> {
    join_lines(until_stop(after_marker(lines_of(changelog), "Unreleased"@), version))
}

fn chars_of(s: &str) -> (r: Vec<char>)
    ensures
        r@ == s@,
{
    broadcast use vstd::string::group_string_axioms;

    let mut it = s.chars();
    let mut out: Vec<char> = Vec::new();
    loop
        invariant
            it.obeys_prophetic_iter_laws(),
            out@ + it.remaining() == s@,
            it.decrease() is Some,
        ensures
            out@ == s@,
        decreases it.decrease()->0,
    {
        match it.next() {
            Some(c) => {
                out.push(c);
            },
            None => {
                assert(out@ =~= s@);
                break;
            },
        }
    }
    out
}

/// Relies on String's FromIterator, for the text of characters.
#[verifier::external_body]
fn string_of(cs: &Vec<char>) -> (r: String)
    ensures
        r@ == cs@,
{
    String::from_iter(cs.iter())
}

pub open spec fn lines_view(lines: Seq<Vec<char>>) -> Seq<Seq<char>> {
    lines.map_values(|l: Vec<char>| l@)
}

fn ends_with_chars(line: &Vec<char>, suffix: &Vec<char>) -> (r: bool)
    ensures
        r == ends_with(line@, suffix@),
{
    if suffix.len() > line.len() {
        return false;
    }
    let off = line.len() - suffix.len();
    let mut i: usize = 0;
    while i < suffix.len()
        invariant
            off + suffix@.len() == line@.len(),
            line@.len() == line.len(),
            suffix@.len() == suffix.len(),
            i <= suffix@.len(),
            forall|j: int| 0 <= j < i ==> line@[off + j] == suffix@[j],
        decreases suffix.len() - i,
    {
        if line[off + i] != suffix[i] {
            assert(line@.subrange(off as int, line@.len() as int)[i as int] != suffix@[i as int]);
            return false;
        }
        i += 1;
    }
    assert(line@.subrange(off as int, line@.len() as int) =~= suffix@);
    true
}

fn split_text(text: &Vec<char>) -> (r: Vec<Vec<char>>)
    ensures
        lines_view(r@) == lines_of(text@),
{
    let n = text.len();
    let mut out: Vec<Vec<char>> = Vec::new();
    let mut cur: Vec<char> = Vec::new();
    let mut i: usize = 0;
    assert(text@.subrange(0, n as int) =~= text@);
    while i < n
        invariant
            n == text@.len(),
            i <= n,
            lines_view(out@) + split_lines(text@.subrange(i as int, n as int), cur@) == lines_of(
                text@,
            ),
        decreases n - i,
    {
        let ghost rest = text@.subrange(i as int, n as int);
        assert(rest.drop_first() =~= text@.subrange(i + 1, n as int));
        let c = text[i];
        let ghost old_cur = cur@;
        assert(rest[0] == c);
        if c == '\n' {
            let ghost line = strip_cr(cur@);
            assert(split_lines(rest, old_cur) == seq![line] + split_lines(rest.drop_first(), seq![]));
            if cur.len() > 0 && cur[cur.len() - 1] == '\r' {
                cur.pop();
            }
            assert(cur@ =~= line);
            let ghost before = lines_view(out@);
            out.push(cur);
            assert(lines_view(out@) =~= before + seq![line]);
            cur = Vec::new();
            assert(before + (seq![line] + split_lines(rest.drop_first(), seq![])) =~= lines_view(
                out@,
            ) + split_lines(text@.subrange(i + 1, n as int), cur@));
        } else {
            cur.push(c);
        }
        i += 1;
    }
    if cur.len() > 0 {
        let ghost before = lines_view(out@);
        let ghost last = cur@;
        out.push(cur);
        assert(lines_view(out@) =~= before + seq![last]);
    } else {
        assert(lines_view(out@) + split_lines(text@.subrange(i as int, n as int), cur@) =~= lines_view(out@));
    }
    out
}

fn push_chars(out: &mut Vec<char>, line: &Vec<char>)
    ensures
        final(out)@ == old(out)@ + line@,
{
    let mut i: usize = 0;
    while i < line.len()
        invariant
            i <= line@.len(),
            out@ == old(out)@ + line@.subrange(0, i as int),
        decreases line.len() - i,
    {
        out.push(line[i]);
        i += 1;
        assert(out@ =~= old(out)@ + line@.subrange(0, i as int));
    }
    assert(line@.subrange(0, i as int) =~= line@);
}

/// The notes under the `Unreleased` heading of a changelog: the lines after
/// the first line that ends with `Unreleased`, up to the next line that ends
/// with `version`, joined by `\n`.
pub fn extract_unreleased(changelog: &str, version: &str) -> (r: String)
    ensures
        r@ == unreleased_text(changelog@, version@),
{
    let text = chars_of(changelog);
    let ver = chars_of(version);
    let marker = chars_of("Unreleased");
    let lines = split_text(&text);
    let ghost lv = lines_view(lines@);
    let ghost m = marker@;
    let ghost vv = ver@;
    let n = lines.len();
    assert(lv.subrange(0, n as int) =~= lv);

    let mut found = false;
    let mut start: usize = n;
    let mut i: usize = 0;
    while i < n
        invariant
            lv == lines_view(lines@),
            lv.len() == n,
            m == marker@,
            i <= n,
            start <= n,
            !found ==> after_marker(lv, m) == after_marker(lv.subrange(i as int, n as int), m),
            found ==> after_marker(lv, m) == lv.subrange(start as int, n as int),
        decreases n - i,
    {
        if !found {
            let ghost rest = lv.subrange(i as int, n as int);
            assert(rest[0] == lines@[i as int]@);
            assert(rest.drop_first() =~= lv.subrange(i + 1, n as int));
            if ends_with_chars(&lines[i], &marker) {
                found = true;
                start = i + 1;
            }
        }
        i += 1;
    }
    if !found {
        start = n;
    }
    assert(after_marker(lv, m) == lv.subrange(start as int, n as int));

    let ghost section = lv.subrange(start as int, n as int);
    let mut stopped = false;
    let mut end: usize = start;
    let mut j: usize = start;
    while j < n
        invariant
            lv == lines_view(lines@),
            lv.len() == n,
            vv == ver@,
            section == lv.subrange(start as int, n as int),
            start <= end <= j <= n,
            !stopped ==> end == j,
            until_stop(section, vv) == lv.subrange(start as int, end as int) + if stopped {
                Seq::<Seq<char>>::empty()
            } else {
                until_stop(lv.subrange(j as int, n as int), vv)
            },
        decreases n - j,
    {
        if !stopped {
            let ghost rest = lv.subrange(j as int, n as int);
            assert(rest[0] == lines@[j as int]@);
            assert(rest.drop_first() =~= lv.subrange(j + 1, n as int));
            if ends_with_chars(&lines[j], &ver) {
                stopped = true;
                assert(lv.subrange(start as int, end as int) + Seq::<Seq<char>>::empty() =~= lv.subrange(start as int, end as int));
            } else {
                end = j + 1;
                assert(lv.subrange(start as int, end as int) =~= lv.subrange(start as int, j as int) + seq![rest[0]]);
            }
        }
        j += 1;
    }
    if !stopped {
        assert(lv.subrange(start as int, end as int) + Seq::<Seq<char>>::empty() =~= lv.subrange(start as int, end as int));
    }
    assert(until_stop(section, vv) == lv.subrange(start as int, end as int));

    let mut out: Vec<char> = Vec::new();
    let mut k: usize = start;
    while k < end
        invariant
            lv == lines_view(lines@),
            lv.len() == n,
            start <= k <= end <= n,
            out@ == join_lines(lv.subrange(start as int, k as int)),
        decreases end - k,
    {
        let ghost done = lv.subrange(start as int, (k + 1) as int);
        assert(done.drop_last() =~= lv.subrange(start as int, k as int));
        assert(done.last() == lines@[k as int]@);
        if k > start {
            out.push('\n');
        }
        push_chars(&mut out, &lines[k]);
        k += 1;
        assert(out@ =~= join_lines(done));
    }
    string_of(&out)
}

} // verus!
