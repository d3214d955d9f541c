//! Text: what the other modules need to say about strings, and to do with them.

use vstd::prelude::*;
use vstd::string::*;

verus! {

/// The texts held by a sequence of strings.
pub open spec fn texts(s: Seq<String>) -> Seq<Seq<char>> {
    s.map_values(|t: String| t@)
}

/// The text of an optional string.
pub open spec fn opt_text(o: Option<String>) -> Option<Seq<char>> {
    match o {
        Some(t) => Some(t@),
        None => None,
    }
}

/// The first `n` of a sequence, or all of it if it holds fewer.
pub open spec fn first_of<T>(s: Seq<T>, n: nat) -> Seq<T> {
    if n <= s.len() {
        s.take(n as int)
    } else {
        s
    }
}

/// The Unicode property `White_Space`.
pub open spec fn is_white_space(c: char) -> bool {
    let n = c as int;
    ||| 0x09 <= n <= 0x0d
    ||| n == 0x20
    ||| n == 0x85
    ||| n == 0xa0
    ||| n == 0x1680
    ||| 0x2000 <= n <= 0x200a
    ||| n == 0x2028
    ||| n == 0x2029
    ||| n == 0x202f
    ||| n == 0x205f
    ||| n == 0x3000
}

/// `s` without its leading white space.
pub open spec fn trimmed_start(s: Seq<char>) -> Seq<char>
    decreases s.len(),
{
    if s.len() > 0 && is_white_space(s[0]) {
        trimmed_start(s.drop_first())
    } else {
        s
    }
}

/// `s` without its trailing white space.
pub open spec fn trimmed_end(s: Seq<char>) -> Seq<char>
    decreases s.len(),
{
    if s.len() > 0 && is_white_space(s.last()) {
        trimmed_end(s.drop_last())
    } else {
        s
    }
}

/// `s` without white space at either end.
pub open spec fn trimmed(s: Seq<char>) -> Seq<char> {
    trimmed_end(trimmed_start(s))
}

/// `str::trim`: the slice without leading and trailing white space, as Unicode
/// defines white space.
#[verifier::external_body]
pub(crate) fn trim(s: &str) -> (r: &str)
    ensures
        r@ == trimmed(s@),
{
    s.trim()
}

/// The text holds ASCII characters only.
pub open spec fn is_ascii_text(s: Seq<char>) -> bool {
    forall|i: int| 0 <= i < s.len() ==> (#[trigger] s[i]) as int <= 127
}

/// An ASCII letter in lower case; any other character as it is.
pub open spec fn ascii_lower(c: char) -> char {
    if 65 <= c as int <= 90 {
        ((c as int + 32) as u8) as char
    } else {
        c
    }
}

/// The Unicode lower case of a text that is not all ASCII.
pub uninterp spec fn unicode_lowercase(s: Seq<char>) -> Seq<char>;

/// A text in lower case.
pub open spec fn lowercase(s: Seq<char>) -> Seq<char> {
    if is_ascii_text(s) {
        s.map_values(|c: char| ascii_lower(c))
    } else {
        unicode_lowercase(s)
    }
}

/// `str::to_lowercase`: the lower-case equivalent. Of an ASCII text each letter from
/// `A` to `Z` is put in lower case, and nothing else changes; of any other text it
/// is a function of the text alone.
#[verifier::external_body]
pub(crate) fn to_lowercase(s: &str) -> (r: String)
    ensures
        is_ascii_text(s@) ==> r@ == s@.map_values(|c: char| ascii_lower(c)),
        !is_ascii_text(s@) ==> r@ == unicode_lowercase(s@),
{
    s.to_lowercase()
}

/// `needle` stands in `hay` from position `at` on.
pub open spec fn stands_at(hay: Seq<char>, needle: Seq<char>, at: int) -> bool {
    &&& 0 <= at
    &&& at + needle.len() <= hay.len()
    &&& hay.subrange(at, at + needle.len()) == needle
}

/// `needle` is a substring of `hay`.
pub open spec fn occurs(needle: Seq<char>, hay: Seq<char>) -> bool {
    exists|at: int| stands_at(hay, needle, at)
}

/// `str::contains` with a text as its pattern: whether the pattern matches a
/// sub-slice.
#[verifier::external_body]
pub(crate) fn contains(hay: &str, needle: &str) -> (r: bool)
    ensures
        r == occurs(needle@, hay@),
{
    hay.contains(needle)
}

/// The lexicographic order of texts by code points, strict.
pub open spec fn precedes(a: Seq<char>, b: Seq<char>) -> bool
    decreases a.len(),
{
    if b.len() == 0 {
        false
    } else if a.len() == 0 {
        true
    } else if a[0] != b[0] {
        (a[0] as int) < (b[0] as int)
    } else {
        precedes(a.drop_first(), b.drop_first())
    }
}

/// `str`'s `<`: the lexicographic order of the UTF-8 bytes, which is that of the
/// code points.
#[verifier::external_body]
pub(crate) fn is_before(a: &str, b: &str) -> (r: bool)
    ensures
        r == precedes(a@, b@),
{
    a < b
}

/// No text precedes itself.
pub proof fn precedes_is_irreflexive(a: Seq<char>)
    ensures
        !precedes(a, a),
    decreases a.len(),
{
    if a.len() > 0 {
        precedes_is_irreflexive(a.drop_first());
    }
}

/// The order of texts is transitive.
pub proof fn precedes_is_transitive(a: Seq<char>, b: Seq<char>, c: Seq<char>)
    requires
        precedes(a, b),
        precedes(b, c),
    ensures
        precedes(a, c),
    decreases a.len(),
{
    if a.len() > 0 && a[0] == b[0] && b[0] == c[0] {
        precedes_is_transitive(a.drop_first(), b.drop_first(), c.drop_first());
    }
}

/// Of two different texts one precedes the other.
pub proof fn precedes_is_total(a: Seq<char>, b: Seq<char>)
    ensures
        precedes(a, b) || a == b || precedes(b, a),
    decreases a.len(),
{
    if a.len() > 0 && b.len() > 0 && a[0] == b[0] {
        precedes_is_total(a.drop_first(), b.drop_first());
        if a.drop_first() == b.drop_first() {
            assert(a =~= seq![a[0]] + a.drop_first());
            assert(b =~= seq![b[0]] + b.drop_first());
        }
    } else if a.len() == 0 && b.len() == 0 {
        assert(a =~= b);
    }
}

/// Whether two texts are the same.
pub(crate) fn same(a: &str, b: &str) -> (r: bool)
    ensures
        r == (a@ == b@),
{
    a.to_owned() == b.to_owned()
}

/// Two texts, one behind the other.
pub(crate) fn joined(a: &str, b: &str) -> (r: String)
    ensures
        r@ == a@ + b@,
{
    let mut r = a.to_owned();
    r.append(b);
    r
}

/// The decimal digit of a number below ten.
pub open spec fn digit_char(n: nat) -> char {
    ((n + 48) as u8) as char
}

/// A number in decimal digits, without leading zeros.
pub open spec fn decimal(n: nat) -> Seq<char>
    decreases n,
{
    if n < 10 {
        seq![digit_char(n)]
    } else {
        decimal(n / 10).push(digit_char(n % 10))
    }
}

fn digit(n: u64) -> (r: String)
    requires
        n < 10,
    ensures
        r@ == seq![digit_char(n as nat)],
{
    proof {
        reveal_strlit("0");
        reveal_strlit("1");
        reveal_strlit("2");
        reveal_strlit("3");
        reveal_strlit("4");
        reveal_strlit("5");
        reveal_strlit("6");
        reveal_strlit("7");
        reveal_strlit("8");
        reveal_strlit("9");
    }
    let r = match n {
        0 => "0".to_owned(),
        1 => "1".to_owned(),
        2 => "2".to_owned(),
        3 => "3".to_owned(),
        4 => "4".to_owned(),
        5 => "5".to_owned(),
        6 => "6".to_owned(),
        7 => "7".to_owned(),
        8 => "8".to_owned(),
        _ => "9".to_owned(),
    };
    assert(r@ =~= seq![digit_char(n as nat)]);
    r
}

/// Writes a number in decimal.
pub fn to_decimal(n: u64) -> (r: String)
    ensures
        r@ == decimal(n as nat),
    decreases n,
{
    if n < 10 {
        digit(n)
    } else {
        let mut r = to_decimal(n / 10);
        let last = digit(n % 10);
        r.append(last.as_str());
        assert(r@ =~= decimal(n as nat));
        r
    }
}

/// `c` is an ASCII decimal digit.
pub open spec fn is_digit(c: char) -> bool {
    48 <= c as int <= 57
}

/// The text holds ASCII decimal digits only.
pub open spec fn are_digits(s: Seq<char>) -> bool {
    forall|i: int| 0 <= i < s.len() ==> is_digit(#[trigger] s[i])
}

/// The number that a sequence of decimal digits stands for.
pub open spec fn digits_value(s: Seq<char>) -> nat
    decreases s.len(),
{
    if s.len() == 0 {
        0
    } else {
        (digits_value(s.drop_last()) * 10 + (s.last() as int - 48)) as nat
    }
}

/// A decimal number that fits a `usize`: digits, at least one, behind an optional
/// plus sign.
pub open spec fn usize_text(s: Seq<char>) -> Option<usize> {
    let digits = if s.len() > 0 && s[0] == '+' {
        s.drop_first()
    } else {
        s
    };
    if digits.len() > 0 && are_digits(digits) && digits_value(digits) <= usize::MAX {
        Some(digits_value(digits) as usize)
    } else {
        None
    }
}

/// `str::parse` to a `usize`: decimal digits with an optional leading plus sign,
/// and nothing else, of a number that a `usize` holds.
#[verifier::external_body]
pub(crate) fn parse_usize(s: &str) -> (r: Option<usize>)
    ensures
        r == usize_text(s@),
{
    s.parse::<usize>().ok()
}

/// The pieces of `s` between the separators `c`: one more than there are
/// separators.
pub open spec fn pieces(s: Seq<char>, c: char) -> Seq<Seq<char>>
    decreases s.len(),
{
    if s.len() == 0 {
        seq![Seq::empty()]
    } else {
        let before = pieces(s.drop_last(), c);
        if s.last() == c {
            before.push(Seq::empty())
        } else {
            before.drop_last().push(before.last().push(s.last()))
        }
    }
}

/// Cuts a text at each occurrence of a separator.
pub fn split(s: &str, c: char) -> (r: Vec<String>)
    ensures
        texts(r@) == pieces(s@, c),
{
    let n = s.unicode_len();
    let mut done: Vec<String> = Vec::new();
    let mut start: usize = 0;
    let mut i: usize = 0;
    assert(s@.take(0) =~= Seq::empty());
    while i < n
        invariant
            n == s@.len(),
            start <= i <= n,
            pieces(s@.take(i as int), c) == texts(done@).push(s@.subrange(start as int, i as int)),
        decreases n - i,
    {
        let ghost p = s@.take(i as int);
        assert(s@.take(i + 1).drop_last() =~= p);
        assert(s@.take(i + 1).last() == s@[i as int]);
        assert(pieces(p, c).drop_last() =~= texts(done@));
        if s.get_char(i) == c {
            let piece = s.substring_char(start, i).to_owned();
            let ghost before = texts(done@);
            done.push(piece);
            assert(texts(done@) =~= before.push(s@.subrange(start as int, i as int)));
            start = i + 1;
            assert(s@.subrange(start as int, i + 1) =~= Seq::empty());
        } else {
            assert(s@.subrange(start as int, i + 1) =~= s@.subrange(start as int, i as int).push(
                s@[i as int],
            ));
        }
        i = i + 1;
    }
    let ghost before = texts(done@);
    done.push(s.substring_char(start, n).to_owned());
    assert(texts(done@) =~= before.push(s@.subrange(start as int, n as int)));
    assert(s@.take(n as int) =~= s@);
    done
}

/// At most `max` characters of `s`, white space at its ends aside; an ellipsis
/// stands for what was cut.
pub open spec fn shortened(s: Seq<char>, max: nat) -> Seq<char> {
    let t = trimmed(s);
    if t.len() <= max {
        t
    } else {
        t.take(max as int) + "…"@
    }
}

/// Truncates a body for logging so that a huge error page cannot flood the log.
pub fn snippet(body: &str, max_chars: usize) -> (r: String)
    ensures
        r@ == shortened(body@, max_chars as nat),
{
    let t = trim(body);
    if t.unicode_len() <= max_chars {
        t.to_owned()
    } else {
        assert(t@.subrange(0, max_chars as int) =~= t@.take(max_chars as int));
        joined(t.substring_char(0, max_chars), "…")
    }
}

/// A shortened text is at most one character longer than its limit.
pub proof fn snippets_are_bounded(s: Seq<char>, max: nat)
    ensures
        shortened(s, max).len() <= max + 1,
{
    reveal_strlit("…");
}

/// A copy of a list of strings.
pub(crate) fn copy_texts(v: &Vec<String>) -> (r: Vec<String>)
    ensures
        r@ == v@,
{
    let mut r: Vec<String> = Vec::new();
    let mut i: usize = 0;
    while i < v.len()
        invariant
            i <= v.len(),
            r@ == v@.take(i as int),
        decreases v.len() - i,
    {
        r.push(v[i].clone());
        i = i + 1;
        assert(r@ =~= v@.take(i as int));
    }
    assert(v@.take(v.len() as int) =~= v@);
    r
}

/// A text that may be missing, or the empty text in its place.
pub open spec fn or_nothing(o: Option<Seq<char>>) -> Seq<char> {
    match o {
        Some(t) => t,
        None => Seq::empty(),
    }
}

/// The text of an optional string, or the empty text.
pub(crate) fn or_empty(o: &Option<String>) -> (r: String)
    ensures
        r@ == or_nothing(opt_text(*o)),
{
    match o {
        Some(t) => t.clone(),
        None => String::new(),
    }
}

/// The first of a sequence are its members from the front on, as many as are wanted
/// or as there are.
pub proof fn the_first_come_from_the_front<T>(s: Seq<T>, n: nat)
    ensures
        first_of(s, n).len() <= n,
        first_of(s, n).len() <= s.len(),
        first_of(s, n).len() == n || first_of(s, n).len() == s.len(),
        forall|i: int| 0 <= i < first_of(s, n).len() ==> #[trigger] first_of(s, n)[i] == s[i],
{
}

/// A number is read back from its decimal digits; they do not begin with a zero that
/// says nothing.
pub proof fn decimals_read_back(n: nat)
    ensures
        digits_value(decimal(n)) == n,
        decimal(n).len() > 0,
        forall|i: int| 0 <= i < decimal(n).len() ==> is_digit(#[trigger] decimal(n)[i]),
        n > 0 ==> decimal(n)[0] != '0',
        n <= usize::MAX ==> usize_text(decimal(n)) == Some(n as usize),
    decreases n,
{
    if n < 10 {
        assert(decimal(n).drop_last() =~= Seq::empty());
        assert(digits_value(decimal(n).drop_last()) == 0);
    } else {
        decimals_read_back(n / 10);
        assert(decimal(n).drop_last() =~= decimal(n / 10));
        assert forall|i: int| 0 <= i < decimal(n).len() implies is_digit(
            #[trigger] decimal(n)[i],
        ) by {
            if i < decimal(n / 10).len() {
                assert(decimal(n)[i] == decimal(n / 10)[i]);
            }
        }
        assert(decimal(n)[0] == decimal(n / 10)[0]);
    }
    assert(is_digit(decimal(n)[0]));
}

/// Pieces with a separator between each two.
pub open spec fn glued(parts: Seq<Seq<char>>, c: char) -> Seq<char>
    decreases parts.len(),
{
    if parts.len() == 0 {
        Seq::empty()
    } else if parts.len() == 1 {
        parts[0]
    } else {
        glued(parts.drop_last(), c).push(c) + parts.last()
    }
}

/// The pieces of a text, with the separator between them, are the text again, and
/// none of them holds the separator.
pub proof fn pieces_are_glued_back(s: Seq<char>, c: char)
    ensures
        pieces(s, c).len() > 0,
        glued(pieces(s, c), c) == s,
        forall|i: int| 0 <= i < pieces(s, c).len() ==> !(#[trigger] pieces(s, c)[i]).contains(c),
    decreases s.len(),
{
    if s.len() == 0 {
        assert(glued(pieces(s, c), c) =~= s);
    } else {
        let init = s.drop_last();
        let before = pieces(init, c);
        let after = pieces(s, c);
        pieces_are_glued_back(init, c);
        assert(init.push(s.last()) =~= s);
        if s.last() == c {
            assert(after.drop_last() =~= before);
            assert(glued(after, c) =~= s);
        } else {
            let grown = before.last().push(s.last());
            assert(after.drop_last() =~= before.drop_last());
            assert(glued(after, c) =~= glued(before, c).push(s.last())) by {
                if before.len() == 1 {
                    assert(after.len() == 1);
                    assert(after[0] == grown);
                    assert(before[0] == before.last());
                } else {
                    assert(after.last() == grown);
                }
            }
            assert forall|i: int| 0 <= i < after.len() implies !(#[trigger] after[i]).contains(c) by {
                if i < before.len() - 1 {
                    assert(after[i] == before[i]);
                } else {
                    assert(!before[before.len() - 1].contains(c));
                    if grown.contains(c) {
                        let k = choose|k: int| 0 <= k < grown.len() && grown[k] == c;
                        assert(before.last()[k] == c);
                    }
                }
            }
        }
    }
}

/// The text holds white space only.
pub open spec fn is_blank(s: Seq<char>) -> bool {
    forall|i: int| 0 <= i < s.len() ==> is_white_space(#[trigger] s[i])
}

proof fn lemma_trimmed_start_split(s: Seq<char>) -> (front: Seq<char>)
    ensures
        s == front + trimmed_start(s),
        is_blank(front),
        trimmed_start(s).len() > 0 ==> !is_white_space(trimmed_start(s)[0]),
    decreases s.len(),
{
    if s.len() > 0 && is_white_space(s[0]) {
        let rest = lemma_trimmed_start_split(s.drop_first());
        let front = seq![s[0]] + rest;
        assert(s =~= seq![s[0]] + s.drop_first());
        assert(s =~= front + trimmed_start(s));
        assert forall|i: int| 0 <= i < front.len() implies is_white_space(#[trigger] front[i]) by {
            if i > 0 {
                assert(front[i] == rest[i - 1]);
            }
        }
        front
    } else {
        assert(s =~= Seq::<char>::empty() + s);
        Seq::empty()
    }
}

proof fn lemma_trimmed_end_split(s: Seq<char>) -> (back: Seq<char>)
    ensures
        s == trimmed_end(s) + back,
        is_blank(back),
        trimmed_end(s).len() > 0 ==> !is_white_space(trimmed_end(s).last()),
    decreases s.len(),
{
    if s.len() > 0 && is_white_space(s.last()) {
        let rest = lemma_trimmed_end_split(s.drop_last());
        let back = rest.push(s.last());
        assert(s =~= s.drop_last().push(s.last()));
        assert(s =~= trimmed_end(s) + back);
        back
    } else {
        assert(s =~= s + Seq::<char>::empty());
        Seq::empty()
    }
}

/// Trimming takes white space away, from the ends only, and leaves none there.
pub proof fn trimming_takes_the_white_space_at_the_ends(s: Seq<char>)
    ensures
        exists|front: Seq<char>, back: Seq<char>|
            is_blank(front) && is_blank(back) && s == #[trigger] (front + trimmed(s) + back),
        trimmed(s).len() > 0 ==> !is_white_space(trimmed(s)[0]) && !is_white_space(
            trimmed(s).last(),
        ),
{
    let inner = trimmed_start(s);
    let front = lemma_trimmed_start_split(s);
    let back = lemma_trimmed_end_split(inner);
    assert(front + trimmed(s) + back =~= s);
    if trimmed(s).len() > 0 {
        assert(trimmed(s)[0] == inner[0]);
    }
}

proof fn lemma_blank_start(front: Seq<char>, s: Seq<char>)
    requires
        is_blank(front),
    ensures
        trimmed_start(front + s) == trimmed_start(s),
    decreases front.len(),
{
    if front.len() > 0 {
        let rest = front.drop_first();
        assert forall|i: int| 0 <= i < rest.len() implies is_white_space(#[trigger] rest[i]) by {
            assert(rest[i] == front[i + 1]);
        }
        lemma_blank_start(rest, s);
        assert((front + s)[0] == front[0]);
        assert((front + s).drop_first() =~= rest + s);
    } else {
        assert(front + s =~= s);
    }
}

proof fn lemma_blank_end(s: Seq<char>, back: Seq<char>)
    requires
        is_blank(back),
    ensures
        trimmed_end(s + back) == trimmed_end(s),
    decreases back.len(),
{
    if back.len() > 0 {
        let rest = back.drop_last();
        assert forall|i: int| 0 <= i < rest.len() implies is_white_space(#[trigger] rest[i]) by {
            assert(rest[i] == back[i]);
        }
        lemma_blank_end(s, rest);
        assert((s + back).last() == back[back.len() - 1]);
        assert((s + back).drop_last() =~= s + rest);
    } else {
        assert(s + back =~= s);
    }
}

/// White space around a text does not matter to what is left when it is trimmed.
pub proof fn white_space_around_is_trimmed(front: Seq<char>, s: Seq<char>, back: Seq<char>)
    requires
        is_blank(front),
        is_blank(back),
    ensures
        trimmed(front + s + back) == trimmed(s),
{
    assert(front + s + back =~= front + (s + back));
    lemma_blank_start(front, s + back);
    let lead = lemma_trimmed_start_split(s);
    let core = trimmed_start(s);
    assert(s + back =~= lead + (core + back));
    lemma_blank_start(lead, core + back);
    if core.len() > 0 {
        assert((core + back)[0] == core[0]);
        lemma_blank_end(core, back);
    } else {
        assert(core + back =~= back);
        lemma_blank_start(back, Seq::empty());
        assert(back + Seq::<char>::empty() =~= back);
        assert(core =~= Seq::empty());
    }
}

/// A snippet is the trimmed text, or its first characters with an ellipsis where it
/// is longer than the limit.
pub proof fn snippets_show_the_beginning(s: Seq<char>, max: nat)
    ensures
        trimmed(s).len() <= max ==> shortened(s, max) == trimmed(s),
        trimmed(s).len() > max ==> shortened(s, max).len() == max + 1 && shortened(s, max).last()
            == '…' && (forall|i: int|
            0 <= i < max ==> #[trigger] shortened(s, max)[i] == trimmed(s)[i]),
{
    reveal_strlit("…");
}

/// The lower case of an ASCII text is as long as the text; letters from `A` to `Z`
/// become those from `a` to `z`, all else stays, and to do it twice changes nothing.
pub proof fn ascii_is_lowered_letter_by_letter(s: Seq<char>)
    requires
        is_ascii_text(s),
    ensures
        lowercase(s).len() == s.len(),
        forall|i: int|
            0 <= i < s.len() ==> (if 'A' <= s[i] && s[i] <= 'Z' {
                #[trigger] lowercase(s)[i] as int == s[i] as int + 32
            } else {
                lowercase(s)[i] == s[i]
            }),
        lowercase(lowercase(s)) == lowercase(s),
{
    let low = lowercase(s);
    assert forall|i: int| 0 <= i < low.len() implies (#[trigger] low[i]) as int <= 127 by {
        assert(low[i] == ascii_lower(s[i]));
    }
    assert(lowercase(low) =~= low);
}

/// Texts are ordered by the first character in which they differ; a text stands in
/// front of any longer one that begins with it.
pub proof fn the_first_difference_orders(
    front: Seq<char>,
    x: char,
    a: Seq<char>,
    y: char,
    b: Seq<char>,
)
    ensures
        x != y ==> (precedes(front + seq![x] + a, front + seq![y] + b) <==> (x as int) < (y
            as int)),
        precedes(front, front + seq![y] + b),
        !precedes(front + seq![y] + b, front),
    decreases front.len(),
{
    let one = front + seq![x] + a;
    let other = front + seq![y] + b;
    if front.len() > 0 {
        let rest = front.drop_first();
        the_first_difference_orders(rest, x, a, y, b);
        assert(one.drop_first() =~= rest + seq![x] + a);
        assert(other.drop_first() =~= rest + seq![y] + b);
        assert(one[0] == front[0] && other[0] == front[0]);
    } else {
        assert(one[0] == x && other[0] == y);
    }
}

/// A part of a text occurs in it, wherever it stands.
pub proof fn parts_occur(front: Seq<char>, part: Seq<char>, back: Seq<char>)
    ensures
        occurs(part, front + part + back),
{
    let whole = front + part + back;
    let at = front.len() as int;
    assert(whole.subrange(at, at + part.len()) =~= part);
    assert(stands_at(whole, part, at));
}

/// What occurs in a text is a part of it.
pub proof fn what_occurs_is_a_part(part: Seq<char>, whole: Seq<char>)
    requires
        occurs(part, whole),
    ensures
        exists|front: Seq<char>, back: Seq<char>| whole == #[trigger] (front + part + back),
{
    let at = choose|at: int| stands_at(whole, part, at);
    let front = whole.take(at);
    let back = whole.skip(at + part.len());
    assert(front + part + back =~= whole);
}

/// The texts of a list are those of its strings, each in its place; the text of an
/// optional string is there exactly if the string is, and stands empty where it is not.
pub proof fn texts_are_those_of_the_strings(s: Seq<String>, o: Option<String>)
    ensures
        texts(s).len() == s.len(),
        forall|i: int| 0 <= i < s.len() ==> #[trigger] texts(s)[i] == s[i]@,
        o is None <==> opt_text(o) is None,
        o matches Some(t) ==> opt_text(o) == Some(t@) && or_nothing(opt_text(o)) == t@,
        or_nothing(None).len() == 0,
{
}

/// A text that is empty, or holds anything but digits behind its first character, is
/// no number; nor is one that begins with anything but a digit or a plus sign.
pub proof fn other_texts_are_no_numbers(s: Seq<char>, k: int)
    requires
        s.len() == 0 || (0 <= k < s.len() && !is_digit(s[k]) && (k > 0 || s[0] != '+')),
    ensures
        usize_text(s) is None,
{
    if s.len() > 0 && s[0] == '+' {
        let digits = s.drop_first();
        assert(!is_digit(digits[k - 1]));
    } else if s.len() > 0 {
        assert(!is_digit(s[k]));
    }
}

} // verus!
