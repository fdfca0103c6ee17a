//! The text at the boundary: the header line of a transaction file and the
//! words that name the kinds of transaction.

use vstd::prelude::*;
use vstd::string::StrSliceExecFns;

verus! {

/// Whether `c` is white space, as Unicode defines it.
pub open spec fn spec_is_space(c: char) -> bool {
    let n = c as u32;
    ||| 0x09 <= n <= 0x0D
    ||| n == 0x20
    ||| n == 0x85
    ||| n == 0xA0
    ||| n == 0x1680
    ||| 0x2000 <= n <= 0x200A
    ||| n == 0x2028
    ||| n == 0x2029
    ||| n == 0x202F
    ||| n == 0x205F
    ||| n == 0x3000
}

/// `s` without the white space at its two ends.
pub open spec fn trimmed(s: Seq<char>) -> Seq<char>
    decreases s.len(),
{
    if s.len() > 0 && spec_is_space(s.first()) {
        trimmed(s.drop_first())
    } else if s.len() > 0 && spec_is_space(s.last()) {
        trimmed(s.drop_last())
    } else {
        s
    }
}

/// Whether `c` is white space, as Unicode defines it.
#[verifier::when_used_as_spec(spec_is_space)]
pub fn is_space(c: char) -> (r: bool)
    ensures
        r == spec_is_space(c),
{
    let n = c as u32;
    (0x09 <= n && n <= 0x0D) || n == 0x20 || n == 0x85 || n == 0xA0 || n == 0x1680 || (0x2000 <= n
        && n <= 0x200A) || n == 0x2028 || n == 0x2029 || n == 0x202F || n == 0x205F || n == 0x3000
}

/// The characters of `line` from `from` up to `to`, without the white space
/// at the two ends.
fn trimmed_piece(line: &str, from: usize, to: usize) -> (r: String)
    requires
        from <= to <= line@.len(),
    ensures
        r@ == trimmed(line@.subrange(from as int, to as int)),
{
    let mut first = from;
    while first < to && is_space(line.get_char(first))
        invariant
            from <= first <= to <= line@.len(),
            trimmed(line@.subrange(from as int, to as int)) == trimmed(
                line@.subrange(first as int, to as int),
            ),
        decreases to - first,
    {
        proof {
            let piece = line@.subrange(first as int, to as int);
            assert(piece.first() == line@[first as int]);
            assert(piece.drop_first() =~= line@.subrange(first + 1, to as int));
        }
        first = first + 1;
    }
    let mut last = to;
    while first < last && is_space(line.get_char(last - 1))
        invariant
            from <= first <= last <= to <= line@.len(),
            first < to ==> !is_space(line@[first as int]),
            trimmed(line@.subrange(from as int, to as int)) == trimmed(
                line@.subrange(first as int, last as int),
            ),
        decreases last - first,
    {
        proof {
            let piece = line@.subrange(first as int, last as int);
            assert(piece.first() == line@[first as int]);
            assert(piece.last() == line@[last - 1]);
            assert(piece.drop_last() =~= line@.subrange(first as int, last - 1));
        }
        last = last - 1;
    }
    proof {
        let piece = line@.subrange(first as int, last as int);
        if first < last {
            assert(piece.first() == line@[first as int]);
            assert(piece.last() == line@[last - 1]);
        }
        assert(trimmed(piece) == piece);
    }
    line.substring_char(first, last).to_string()
}

/// The pieces of `s` between its commas, in order. There is always one piece
/// more than there are commas.
pub open spec fn fields(s: Seq<char>) -> Seq<Seq<char>>
    decreases s.len(),
{
    if s.len() == 0 {
        seq![Seq::empty()]
    } else {
        let before = fields(s.drop_last());
        if s.last() == ',' {
            before.push(Seq::empty())
        } else {
            before.update(before.len() - 1, before.last().push(s.last()))
        }
    }
}

/// The names in a header line: its pieces between commas, each without the
/// white space at its two ends.
pub open spec fn header_names(line: Seq<char>) -> Seq<Seq<char>> {
    fields(line).map_values(|piece: Seq<char>| trimmed(piece))
}

/// The names in the header line of a transaction file: the line is cut at
/// its commas, and each piece loses the white space at its two ends, the
/// line break included.
pub fn trimmed_headers(line: &str) -> (names: Vec<String>)
    ensures
        names.len() >= 1,
        names.len() == header_names(line@).len(),
        forall|k: int| 0 <= k < names.len() ==> (#[trigger] names[k])@ == header_names(line@)[k],
{
    let n = line.unicode_len();
    let mut names: Vec<String> = Vec::new();
    let mut start: usize = 0;
    let mut i: usize = 0;
    assert(line@.take(0) =~= Seq::<char>::empty());
    assert(line@.subrange(0, 0) =~= Seq::<char>::empty());
    while i < n
        invariant
            n == line@.len(),
            start <= i <= n,
            fields(line@.take(i as int)).len() == names.len() + 1,
            fields(line@.take(i as int)).last() == line@.subrange(start as int, i as int),
            forall|k: int|
                0 <= k < names.len() ==> (#[trigger] names[k])@ == trimmed(
                    fields(line@.take(i as int))[k],
                ),
        decreases n - i,
    {
        let ghost before = fields(line@.take(i as int));
        proof {
            let next = line@.take(i + 1);
            assert(next.drop_last() =~= line@.take(i as int));
            assert(next.last() == line@[i as int]);
        }
        if line.get_char(i) == ',' {
            let name = trimmed_piece(line, start, i);
            names.push(name);
            start = i + 1;
            proof {
                assert(line@.subrange(start as int, i + 1) =~= Seq::<char>::empty());
            }
        } else {
            proof {
                assert(line@.subrange(start as int, i as int).push(line@[i as int])
                    =~= line@.subrange(start as int, i + 1));
            }
        }
        i = i + 1;
    }
    let name = trimmed_piece(line, start, n);
    names.push(name);
    proof {
        assert(line@.take(n as int) =~= line@);
    }
    names
}

/// The code of `c`, with the capital letters A to Z taken as their small
/// letters.
pub open spec fn folded_code(c: char) -> u32 {
    let n = c as u32;
    if 0x41 <= n <= 0x5A {
        (n + 0x20) as u32
    } else {
        n
    }
}

/// Whether `a` and `b` are the same word, taking a capital letter from A to
/// Z and its small letter as the same.
pub open spec fn same_word(a: Seq<char>, b: Seq<char>) -> bool {
    &&& a.len() == b.len()
    &&& forall|k: int| 0 <= k < a.len() ==> folded_code(a[k]) == folded_code(b[k])
}

/// The code of `c`, with the capital letters A to Z taken as their small
/// letters.
fn fold(c: char) -> (r: u32)
    ensures
        r == folded_code(c),
{
    let n = c as u32;
    if 0x41 <= n && n <= 0x5A {
        n + 0x20
    } else {
        n
    }
}

/// Whether `a` and `b` are the same word, taking a capital letter from A to
/// Z and its small letter as the same.
pub fn equals_ignoring_case(a: &str, b: &str) -> (r: bool)
    ensures
        r == same_word(a@, b@),
{
    let n = a.unicode_len();
    if n != b.unicode_len() {
        return false;
    }
    let mut i: usize = 0;
    while i < n
        invariant
            n == a@.len(),
            n == b@.len(),
            i <= n,
            forall|k: int| 0 <= k < i ==> folded_code(a@[k]) == folded_code(b@[k]),
        decreases n - i,
    {
        if fold(a.get_char(i)) != fold(b.get_char(i)) {
            return false;
        }
        i = i + 1;
    }
    true
}

} // verus!
