use vstd::prelude::*;
use vstd::std_specs::iter::IteratorSpec;
use vstd::string::{StringExecFns, StringSliceAdditionalSpecFns};
use vstd::utf8::encode_utf8_decode_utf8;

verus! {

broadcast use vstd::string::group_string_axioms;

/// The views of the items of a sequence, in order.
pub open spec fn views<T: View>(items: Seq<T>) -> Seq<T::V> {
    Seq::new(items.len(), |i: int| items[i]@)
}

/// The view of what an `Option` holds.
pub open spec fn option_view<T: View>(value: Option<T>) -> Option<T::V> {
    match value {
        Some(inner) => Some(inner@),
        None => None,
    }
}

/// The view of what a `Result` holds, on either side.
pub open spec fn result_view<T: View, E: View>(value: Result<T, E>) -> Result<T::V, E::V> {
    match value {
        Ok(inner) => Ok(inner@),
        Err(error) => Err(error@),
    }
}

/// The parts written one after another, with `sep` between each two.
pub open spec fn join(parts: Seq<Seq<char>>, sep: Seq<char>) -> Seq<char>
    decreases parts.len(),
{
    if parts.len() == 0 {
        Seq::empty()
    } else if parts.len() == 1 {
        parts[0]
    } else {
        join(parts.drop_last(), sep) + sep + parts.last()
    }
}

/// The summed length of the parts.
pub open spec fn total_len(parts: Seq<Seq<char>>) -> nat
    decreases parts.len(),
{
    if parts.len() == 0 {
        0
    } else {
        total_len(parts.drop_last()) + parts.last().len()
    }
}

/// The place in `join(parts, sep)` at which the part of index `i` begins:
/// behind the parts before it and one separator for each.
pub open spec fn part_start(parts: Seq<Seq<char>>, sep: Seq<char>, i: int) -> int {
    total_len(parts.subrange(0, i)) + i * sep.len()
}

/// A joined text is as long as its parts together and the separators
/// between them: nothing is added, nothing left out.
pub proof fn lemma_join_len(parts: Seq<Seq<char>>, sep: Seq<char>)
    ensures
        join(parts, sep).len() == total_len(parts) + (if parts.len() == 0 {
            0
        } else {
            (parts.len() - 1) * sep.len()
        }),
    decreases parts.len(),
{
    if parts.len() > 1 {
        lemma_join_len(parts.drop_last(), sep);
        assert((parts.len() - 1) * sep.len() == (parts.len() - 2) * sep.len() + sep.len())
            by (nonlinear_arith);
    } else if parts.len() == 1 {
        assert(parts.drop_last().len() == 0);
        assert(total_len(parts.drop_last()) == 0);
        assert(0 * sep.len() == 0);
    }
}

/// In a joined text each part stands at its place, whole and in order, and
/// between each two parts stands one separator.
pub proof fn lemma_join_places(parts: Seq<Seq<char>>, sep: Seq<char>, i: int)
    requires
        0 <= i < parts.len(),
    ensures
        0 <= part_start(parts, sep, i),
        part_start(parts, sep, i) + parts[i].len() <= join(parts, sep).len(),
        join(parts, sep).subrange(
            part_start(parts, sep, i),
            part_start(parts, sep, i) + parts[i].len(),
        ) == parts[i],
        i + 1 < parts.len() ==> part_start(parts, sep, i + 1) == part_start(parts, sep, i)
            + parts[i].len() + sep.len() && join(parts, sep).subrange(
            part_start(parts, sep, i) + parts[i].len(),
            part_start(parts, sep, i + 1),
        ) == sep,
    decreases parts.len(),
{
    let shorter = parts.drop_last();
    let last = parts.len() - 1;
    lemma_join_len(parts, sep);
    lemma_join_len(shorter, sep);
    assert(i * sep.len() >= 0) by (nonlinear_arith)
        requires
            i >= 0,
            sep.len() >= 0,
    ;
    if i + 1 < parts.len() {
        assert(parts.subrange(0, i + 1).drop_last() =~= parts.subrange(0, i));
        assert(parts.subrange(0, i + 1).last() == parts[i]);
        assert((i + 1) * sep.len() == i * sep.len() + sep.len()) by (nonlinear_arith);
    }
    if i == last {
        assert(parts.subrange(0, i) =~= shorter);
        if parts.len() == 1 {
            assert(total_len(shorter) == 0);
            assert(join(parts, sep).subrange(0, parts[0].len() as int) =~= parts[0]);
        } else {
            assert(last * sep.len() == (last - 1) * sep.len() + sep.len()) by (nonlinear_arith);
            assert(join(parts, sep).subrange(
                part_start(parts, sep, i),
                part_start(parts, sep, i) + parts[i].len(),
            ) =~= parts[i]);
        }
    } else {
        lemma_join_places(shorter, sep, i);
        assert(shorter.subrange(0, i) =~= parts.subrange(0, i));
        assert(shorter[i] == parts[i]);
        let whole = join(parts, sep);
        let front = join(shorter, sep);
        assert(whole == front + sep + parts.last());
        assert(whole.subrange(
            part_start(parts, sep, i),
            part_start(parts, sep, i) + parts[i].len(),
        ) =~= front.subrange(
            part_start(shorter, sep, i),
            part_start(shorter, sep, i) + shorter[i].len(),
        ));
        if i + 1 < shorter.len() {
            lemma_join_places(shorter, sep, i + 1);
            assert(shorter.subrange(0, i + 1) =~= parts.subrange(0, i + 1));
            assert(whole.subrange(
                part_start(parts, sep, i) + parts[i].len(),
                part_start(parts, sep, i + 1),
            ) =~= front.subrange(
                part_start(shorter, sep, i) + shorter[i].len(),
                part_start(shorter, sep, i + 1),
            ));
        } else {
            assert(parts.subrange(0, i + 1) =~= shorter);
            assert(last * sep.len() == (last - 1) * sep.len() + sep.len()) by (nonlinear_arith);
            assert(whole.subrange(
                part_start(parts, sep, i) + parts[i].len(),
                part_start(parts, sep, i + 1),
            ) =~= sep);
        }
    }
}

/// The place of the last `mark` in a text; `-1` where the text holds none.
pub open spec fn last_index_of(text: Seq<char>, mark: char) -> int
    decreases text.len(),
{
    if text.len() == 0 {
        -1
    } else if text.last() == mark {
        text.len() - 1
    } else {
        last_index_of(text.drop_last(), mark)
    }
}

/// The pieces into which the marks cut a text, in their order. A text
/// without a mark is one piece.
pub open spec fn split(text: Seq<char>, mark: char) -> Seq<Seq<char>>
    decreases text.len(),
{
    let at = last_index_of(text, mark);
    if at < 0 || at >= text.len() {
        seq![text]
    } else {
        split(text.subrange(0, at), mark).push(text.subrange(at + 1, text.len() as int))
    }
}

/// Behind the last mark of a text stands no mark: in a text that ends in a
/// mark followed by a piece without one, the last mark is that one.
pub proof fn lemma_last_index_of(front: Seq<char>, mark: char, piece: Seq<char>)
    requires
        !piece.contains(mark),
    ensures
        last_index_of(front + seq![mark] + piece, mark) == front.len(),
    decreases piece.len(),
{
    let text = front + seq![mark] + piece;
    if piece.len() == 0 {
        assert(text.last() == mark);
    } else {
        assert(text.last() == piece.last());
        assert(piece.contains(piece.last()));
        assert(text.drop_last() =~= front + seq![mark] + piece.drop_last());
        assert forall|i: int| 0 <= i < piece.drop_last().len() implies piece.drop_last()[i]
            != mark by {
            assert(piece.contains(piece[i]));
        }
        lemma_last_index_of(front, mark, piece.drop_last());
    }
}

/// A text without a mark has no last mark.
pub proof fn lemma_no_mark(text: Seq<char>, mark: char)
    requires
        !text.contains(mark),
    ensures
        last_index_of(text, mark) == -1,
    decreases text.len(),
{
    if text.len() > 0 {
        assert(text.contains(text.last()));
        assert forall|i: int| 0 <= i < text.drop_last().len() implies text.drop_last()[i]
            != mark by {
            assert(text.contains(text[i]));
        }
        lemma_no_mark(text.drop_last(), mark);
    }
}

/// Joining loses nothing and doubles nothing: parts of which none holds
/// the mark, joined with the mark between them, are cut by the marks into
/// the same parts in the same order.
pub proof fn lemma_split_inverts_join(parts: Seq<Seq<char>>, mark: char)
    requires
        parts.len() > 0,
        forall|i: int| 0 <= i < parts.len() ==> !(#[trigger] parts[i]).contains(mark),
    ensures
        split(join(parts, seq![mark]), mark) == parts,
    decreases parts.len(),
{
    let text = join(parts, seq![mark]);
    if parts.len() == 1 {
        lemma_no_mark(parts[0], mark);
        assert(seq![parts[0]] =~= parts);
    } else {
        let shorter = parts.drop_last();
        let front = join(shorter, seq![mark]);
        assert forall|i: int| 0 <= i < shorter.len() implies !(#[trigger] shorter[i]).contains(
            mark,
        ) by {
            assert(shorter[i] == parts[i]);
        }
        lemma_split_inverts_join(shorter, mark);
        lemma_last_index_of(front, mark, parts.last());
        assert(text.subrange(0, front.len() as int) =~= front);
        assert(text.subrange(front.len() as int + 1, text.len() as int) =~= parts.last());
        assert(shorter.push(parts.last()) =~= parts);
    }
}

/// Writes the parts one after another, with `sep` between each two.
pub fn join_strings(parts: &Vec<String>, sep: &str) -> (res: String)
    ensures
        res@ == join(views(parts@), sep@),
{
    let mut out = String::new();
    let mut i: usize = 0;
    while i < parts.len()
        invariant
            i <= parts@.len(),
            out@ == join(views(parts@).subrange(0, i as int), sep@),
        decreases parts@.len() - i,
    {
        let ghost before = views(parts@).subrange(0, i as int);
        let ghost after = views(parts@).subrange(0, i as int + 1);
        assert(after.drop_last() =~= before);
        assert(after.last() == parts@[i as int]@);
        if i > 0 {
            out.append(sep);
        }
        out.append(parts[i].as_str());
        assert(out@ =~= join(after, sep@));
        i += 1;
    }
    assert(views(parts@).subrange(0, parts@.len() as int) =~= views(parts@));
    out
}

/// An owned copy of a string slice that may be missing.
pub fn owned(text: Option<&str>) -> (res: Option<String>)
    ensures
        option_view(res) == option_view(text),
{
    match text {
        Some(text) => Some(String::from_str(text)),
        None => None,
    }
}

/// A copy of a list of strings.
pub fn clone_strings(items: &Vec<String>) -> (res: Vec<String>)
    ensures
        views(res@) == views(items@),
{
    let mut copy: Vec<String> = Vec::new();
    let mut i: usize = 0;
    while i < items.len()
        invariant
            i <= items@.len(),
            copy@.len() == i,
            forall|j: int| 0 <= j < i ==> copy@[j]@ == items@[j]@,
        decreases items@.len() - i,
    {
        copy.push(items[i].clone());
        i += 1;
    }
    assert(views(copy@) =~= views(items@));
    copy
}

/// A copy of a string that may be missing.
pub fn clone_optional(text: &Option<String>) -> (res: Option<String>)
    ensures
        option_view(res) == option_view(*text),
{
    match text {
        Some(inner) => Some(inner.clone()),
        None => None,
    }
}

/// Whether a character is one of the ten decimal digits.
pub open spec fn is_digit(c: char) -> bool {
    '0' <= c && c <= '9'
}

/// The number that a decimal digit stands for.
pub open spec fn digit_value(c: char) -> nat {
    (c as nat - '0' as nat) as nat
}

/// The number that a row of decimal digits writes.
pub open spec fn decimal_value(digits: Seq<char>) -> nat
    decreases digits.len(),
{
    if digits.len() == 0 {
        0
    } else {
        decimal_value(digits.drop_last()) * 10 + digit_value(digits.last())
    }
}

/// The number that a text writes in decimal digits, where it is nothing
/// but digits, at least one, and the number fits sixteen bits.
pub open spec fn read_u16(text: Seq<char>) -> Option<u16> {
    if text.len() > 0 && (forall|i: int| 0 <= i < text.len() ==> is_digit(#[trigger] text[i]))
        && decimal_value(text) <= u16::MAX {
        Some(decimal_value(text) as u16)
    } else {
        None
    }
}

/// A row of digits writes no smaller a number than any of its prefixes.
pub proof fn lemma_decimal_value_grows(digits: Seq<char>, upto: int)
    requires
        0 <= upto <= digits.len(),
    ensures
        decimal_value(digits.subrange(0, upto)) <= decimal_value(digits),
    decreases digits.len() - upto,
{
    if upto == digits.len() {
        assert(digits.subrange(0, upto) =~= digits);
    } else {
        let next = digits.subrange(0, upto + 1);
        assert(next.drop_last() =~= digits.subrange(0, upto));
        lemma_decimal_value_grows(digits, upto + 1);
    }
}

/// Reads a number of at most sixteen bits from its decimal digits.
pub fn parse_u16(text: &str) -> (res: Option<u16>)
    ensures
        res == read_u16(text@),
{
    let mut rest = text.chars();
    let mut value: u32 = 0;
    let mut seen = false;
    let ghost mut done: int = 0;
    assert(text@.subrange(0, 0) =~= Seq::<char>::empty());
    loop
        invariant
            0 <= done <= text@.len(),
            seen == (done > 0),
            rest.remaining() == text@.subrange(done, text@.len() as int),
            rest.obeys_prophetic_iter_laws(),
            forall|i: int| 0 <= i < done ==> is_digit(#[trigger] text@[i]),
            value == decimal_value(text@.subrange(0, done)),
            value <= u16::MAX,
        decreases text@.len() - done,
    {
        match rest.next() {
            None => {
                assert(text@.subrange(0, done) =~= text@);
                if !seen {
                    return None;
                }
                return Some(value as u16);
            },
            Some(c) => {
                assert(c == text@[done]);
                if !('0' <= c && c <= '9') {
                    return None;
                }
                let digit: u32 = (c as u32) - ('0' as u32);
                let ghost next = text@.subrange(0, done + 1);
                assert(next.drop_last() =~= text@.subrange(0, done));
                assert(next.last() == c);
                value = value * 10 + digit;
                if value > 65535 {
                    proof {
                        lemma_decimal_value_grows(text@, done + 1);
                    }
                    return None;
                }
                seen = true;
                proof {
                    done = done + 1;
                }
            },
        }
    }
}

/// Whether two string slices hold the same characters.
pub fn str_eq(a: &str, b: &str) -> (res: bool)
    ensures
        res == (a@ == b@),
{
    let x = a.as_bytes();
    let y = b.as_bytes();
    proof {
        encode_utf8_decode_utf8(a@);
        encode_utf8_decode_utf8(b@);
    }
    if x.len() != y.len() {
        return false;
    }
    let mut i: usize = 0;
    while i < x.len()
        invariant
            x@ == a.spec_bytes(),
            y@ == b.spec_bytes(),
            x@.len() == y@.len(),
            i <= x@.len(),
            forall|j: int| 0 <= j < i ==> x@[j] == y@[j],
        decreases x.len() - i,
    {
        if x[i] != y[i] {
            return false;
        }
        i += 1;
    }
    assert(x@ =~= y@);
    true
}

/// The lower-case form of an ASCII capital; any other character is itself.
pub open spec fn lower_char(c: char) -> char {
    if 'A' <= c && c <= 'Z' {
        ((c as u32) + 32) as char
    } else {
        c
    }
}

/// A text with each ASCII capital replaced by its lower-case form.
pub open spec fn lower(s: Seq<char>) -> Seq<char> {
    Seq::new(s.len(), |i: int| lower_char(s[i]))
}

fn to_lower_char(c: char) -> (res: char)
    ensures
        res == lower_char(c),
{
    if 'A' <= c && c <= 'Z' {
        let code: u8 = c as u8;
        (code + 32) as char
    } else {
        c
    }
}

/// Whether two string slices are equal once ASCII capitals are lowered.
pub fn eq_ignore_ascii_case(a: &str, b: &str) -> (res: bool)
    ensures
        res == (lower(a@) == lower(b@)),
{
    let mut left = a.chars();
    let mut right = b.chars();
    let ghost mut done: int = 0;
    loop
        invariant
            0 <= done <= a@.len(),
            done <= b@.len(),
            left.remaining() == a@.subrange(done, a@.len() as int),
            right.remaining() == b@.subrange(done, b@.len() as int),
            forall|j: int| 0 <= j < done ==> lower_char(a@[j]) == lower_char(b@[j]),
            left.obeys_prophetic_iter_laws(),
            right.obeys_prophetic_iter_laws(),
        decreases a@.len() - done,
    {
        let x = left.next();
        let y = right.next();
        match (x, y) {
            (None, None) => {
                assert(lower(a@) =~= lower(b@));
                return true;
            },
            (Some(p), Some(q)) => {
                if to_lower_char(p) != to_lower_char(q) {
                    assert(lower(a@)[done] != lower(b@)[done]);
                    return false;
                }
                proof {
                    done = done + 1;
                }
            },
            _ => {
                assert(lower(a@).len() != lower(b@).len());
                return false;
            },
        }
    }
}

} // verus!
