//! Character-level string operations used to form URLs, headers and wire text.
use vstd::prelude::*;

verus! {

/// `s` begins with the two characters `ws`.
pub open spec fn starts_with_ws(s: Seq<char>) -> bool {
    s.len() >= 2 && s[0] == 'w' && s[1] == 's'
}

/// `s` with every `/` at its end removed.
pub open spec fn without_trailing_slashes(s: Seq<char>) -> Seq<char>
    decreases s.len(),
{
    if s.len() > 0 && s.last() == '/' {
        without_trailing_slashes(s.drop_last())
    } else {
        s
    }
}

/// The decimal digit character for `d` (`d` below ten).
pub open spec fn digit_char(d: nat) -> char {
    if d == 0 { '0' }
    else if d == 1 { '1' }
    else if d == 2 { '2' }
    else if d == 3 { '3' }
    else if d == 4 { '4' }
    else if d == 5 { '5' }
    else if d == 6 { '6' }
    else if d == 7 { '7' }
    else if d == 8 { '8' }
    else { '9' }
}

/// The decimal notation of `n`, without leading zeros.
pub open spec fn decimal_of(n: nat) -> Seq<char>
    decreases n,
{
    if n < 10 {
        seq![digit_char(n)]
    } else {
        decimal_of(n / 10).push(digit_char(n % 10))
    }
}

/// Whether `s` starts with `ws`.
pub fn has_ws_prefix(s: &str) -> (r: bool)
    ensures
        r == starts_with_ws(s@),
{
    let n = s.unicode_len();
    n >= 2 && s.get_char(0) == 'w' && s.get_char(1) == 's'
}

/// What trimming the trailing slashes gives: a prefix of `s` that does not end
/// with `/`, followed in `s` by nothing but slashes.
pub proof fn lemma_trailing_slashes_removed(s: Seq<char>)
    ensures
        without_trailing_slashes(s).len() <= s.len(),
        without_trailing_slashes(s) == s.subrange(0, without_trailing_slashes(s).len() as int),
        without_trailing_slashes(s).len() == 0 || without_trailing_slashes(s).last() != '/',
        forall|i: int| without_trailing_slashes(s).len() <= i < s.len() ==> s[i] == '/',
    decreases s.len(),
{
    if s.len() > 0 && s.last() == '/' {
        let d = s.drop_last();
        lemma_trailing_slashes_removed(d);
        let w = without_trailing_slashes(d);
        assert(d.subrange(0, w.len() as int) =~= s.subrange(0, w.len() as int));
        assert forall|i: int| w.len() <= i < s.len() implies s[i] == '/' by {
            if i < d.len() {
                assert(d[i] == s[i]);
            }
        }
    } else {
        assert(s.subrange(0, s.len() as int) =~= s);
    }
}

/// `s` without the slashes at its end.
pub fn trim_trailing_slashes(s: &str) -> (r: &str)
    ensures
        r@ == without_trailing_slashes(s@),
        r@.len() <= s@.len(),
        r@ == s@.subrange(0, r@.len() as int),
        r@.len() == 0 || r@.last() != '/',
        forall|i: int| r@.len() <= i < s@.len() ==> s@[i] == '/',
{
    proof {
        lemma_trailing_slashes_removed(s@);
    }
    let mut end = s.unicode_len();
    assert(s@.subrange(0, end as int) =~= s@);
    while end > 0 && s.get_char(end - 1) == '/'
        invariant
            end <= s@.len(),
            without_trailing_slashes(s@) == without_trailing_slashes(s@.subrange(0, end as int)),
        decreases end,
    {
        assert(s@.subrange(0, end as int).drop_last() =~= s@.subrange(0, end - 1));
        end = end - 1;
    }
    s.substring_char(0, end)
}

fn digit_str(d: u32) -> (r: &'static str)
    requires
        d < 10,
    ensures
        r@ == seq![digit_char(d as nat)],
{
    proof {
        reveal_strlit("0");
        reveal_strlit("1");
        reveal_strlit("2");
        reveal_strlit("3");
        reveal_strlit("4");
        reveal_strlit("5");
        reveal_strlit("6");
        reveal_strlit("7");
        reveal_strlit("8");
        reveal_strlit("9");
    }
    if d == 0 { "0" }
    else if d == 1 { "1" }
    else if d == 2 { "2" }
    else if d == 3 { "3" }
    else if d == 4 { "4" }
    else if d == 5 { "5" }
    else if d == 6 { "6" }
    else if d == 7 { "7" }
    else if d == 8 { "8" }
    else { "9" }
}

/// The decimal notation of `n`.
pub fn decimal(n: u32) -> (r: String)
    ensures
        r@ == decimal_of(n as nat),
    decreases n,
{
    if n < 10 {
        String::from_str(digit_str(n))
    } else {
        let head = decimal(n / 10);
        head.concat(digit_str(n % 10))
    }
}

/// `c` has the Unicode `White_Space` property (what `char::is_whitespace` tests).
pub open spec fn is_white_space(c: char) -> bool {
    let u = c as u32;
    ||| 0x9 <= u <= 0xD
    ||| u == 0x20
    ||| u == 0x85
    ||| u == 0xA0
    ||| u == 0x1680
    ||| 0x2000 <= u <= 0x200A
    ||| u == 0x2028
    ||| u == 0x2029
    ||| u == 0x202F
    ||| u == 0x205F
    ||| u == 0x3000
}

/// `s` without the white space at its end.
pub open spec fn trim_end_white(s: Seq<char>) -> Seq<char>
    decreases s.len(),
{
    if s.len() > 0 && is_white_space(s.last()) {
        trim_end_white(s.drop_last())
    } else {
        s
    }
}

/// `s` without the white space at its start.
pub open spec fn trim_start_white(s: Seq<char>) -> Seq<char>
    decreases s.len(),
{
    if s.len() > 0 && is_white_space(s[0]) {
        trim_start_white(s.drop_first())
    } else {
        s
    }
}

/// `s` without white space at either end (what `str::trim` gives).
pub open spec fn trimmed(s: Seq<char>) -> Seq<char> {
    trim_start_white(trim_end_white(s))
}

/// Splitting the text read so far at commas: the finished pieces, and the piece
/// still being read.
pub open spec fn comma_split_state(s: Seq<char>) -> (Seq<Seq<char>>, Seq<char>)
    decreases s.len(),
{
    if s.len() == 0 {
        (Seq::empty(), Seq::empty())
    } else {
        let (done, current) = comma_split_state(s.drop_last());
        if s.last() == ',' {
            (done.push(current), Seq::empty())
        } else {
            (done, current.push(s.last()))
        }
    }
}

/// The pieces of `s` between commas, in order (what `str::split(',')` gives;
/// there is one more piece than there are commas).
pub open spec fn comma_pieces(s: Seq<char>) -> Seq<Seq<char>> {
    comma_split_state(s).0.push(comma_split_state(s).1)
}

/// The pieces, trimmed, without those that are empty once trimmed.
pub open spec fn nonempty_trimmed(pieces: Seq<Seq<char>>) -> Seq<Seq<char>>
    decreases pieces.len(),
{
    if pieces.len() == 0 {
        Seq::empty()
    } else {
        let before = nonempty_trimmed(pieces.drop_last());
        if trimmed(pieces.last()).len() > 0 {
            before.push(trimmed(pieces.last()))
        } else {
            before
        }
    }
}

/// The items of a comma-separated list: split at commas, trimmed, empty ones dropped.
pub open spec fn list_items(s: Seq<char>) -> Seq<Seq<char>> {
    nonempty_trimmed(comma_pieces(s))
}

/// `s` holds no comma.
pub open spec fn comma_free(s: Seq<char>) -> bool {
    forall|i: int| 0 <= i < s.len() ==> s[i] != ','
}

/// An item as a list yields it: not empty, no white space at either end, no comma.
pub open spec fn clean_item(s: Seq<char>) -> bool {
    &&& s.len() > 0
    &&& !is_white_space(s[0])
    &&& !is_white_space(s.last())
    &&& comma_free(s)
}

proof fn lemma_trim_end_white(s: Seq<char>)
    ensures
        trim_end_white(s).len() <= s.len(),
        trim_end_white(s) == s.subrange(0, trim_end_white(s).len() as int),
        trim_end_white(s).len() > 0 ==> !is_white_space(trim_end_white(s).last()),
    decreases s.len(),
{
    if s.len() > 0 && is_white_space(s.last()) {
        lemma_trim_end_white(s.drop_last());
        assert(s.drop_last().subrange(0, trim_end_white(s).len() as int) =~= s.subrange(
            0,
            trim_end_white(s).len() as int,
        ));
    } else {
        assert(s.subrange(0, s.len() as int) =~= s);
    }
}

proof fn lemma_trim_start_white(s: Seq<char>)
    ensures
        trim_start_white(s).len() <= s.len(),
        trim_start_white(s) == s.subrange(s.len() - trim_start_white(s).len(), s.len() as int),
        trim_start_white(s).len() > 0 ==> !is_white_space(trim_start_white(s)[0]),
    decreases s.len(),
{
    if s.len() > 0 && is_white_space(s[0]) {
        lemma_trim_start_white(s.drop_first());
        let t = trim_start_white(s);
        assert(s.drop_first().subrange(s.len() - 1 - t.len(), s.len() - 1) =~= s.subrange(
            s.len() - t.len(),
            s.len() as int,
        ));
    } else {
        assert(s.subrange(0, s.len() as int) =~= s);
    }
}

proof fn lemma_trimmed_clean(s: Seq<char>)
    requires
        comma_free(s),
        trimmed(s).len() > 0,
    ensures
        clean_item(trimmed(s)),
{
    let e = trim_end_white(s);
    lemma_trim_end_white(s);
    lemma_trim_start_white(e);
    let t = trimmed(s);
    assert(t[t.len() - 1] == e[e.len() - 1]);
    assert forall|i: int| 0 <= i < t.len() implies t[i] != ',' by {
        assert(t[i] == e[e.len() - t.len() + i]);
        assert(e[e.len() - t.len() + i] == s[e.len() - t.len() + i]);
    }
}

proof fn lemma_split_pieces_comma_free(s: Seq<char>)
    ensures
        forall|k: int| 0 <= k < comma_split_state(s).0.len() ==> comma_free(#[trigger] comma_split_state(s).0[k]),
        comma_free(comma_split_state(s).1),
    decreases s.len(),
{
    if s.len() > 0 {
        lemma_split_pieces_comma_free(s.drop_last());
    }
}

proof fn lemma_nonempty_trimmed_clean(pieces: Seq<Seq<char>>)
    requires
        forall|k: int| 0 <= k < pieces.len() ==> comma_free(#[trigger] pieces[k]),
    ensures
        forall|k: int| 0 <= k < nonempty_trimmed(pieces).len() ==> clean_item(#[trigger] nonempty_trimmed(pieces)[k]),
    decreases pieces.len(),
{
    if pieces.len() > 0 {
        let before = pieces.drop_last();
        assert forall|k: int| 0 <= k < before.len() implies comma_free(#[trigger] before[k]) by {
            assert(before[k] == pieces[k]);
        }
        lemma_nonempty_trimmed_clean(before);
        assert(comma_free(pieces[pieces.len() - 1]));
        if trimmed(pieces.last()).len() > 0 {
            lemma_trimmed_clean(pieces.last());
        }
        let items = nonempty_trimmed(pieces);
        assert forall|k: int| 0 <= k < items.len() implies clean_item(#[trigger] items[k]) by {
            if k < nonempty_trimmed(before).len() {
                assert(items[k] == nonempty_trimmed(before)[k]);
            }
        }
    }
}

/// Every item of a comma-separated list is non-empty, has no white space at
/// either end, and holds no comma.
pub proof fn lemma_list_items_are_clean(s: Seq<char>)
    ensures
        forall|k: int| 0 <= k < list_items(s).len() ==> clean_item(#[trigger] list_items(s)[k]),
{
    lemma_split_pieces_comma_free(s);
    let pieces = comma_pieces(s);
    assert forall|k: int| 0 <= k < pieces.len() implies comma_free(#[trigger] pieces[k]) by {
        if k < pieces.len() - 1 {
            assert(pieces[k] == comma_split_state(s).0[k]);
        }
    }
    lemma_nonempty_trimmed_clean(pieces);
}

/// Whether `c` is white space.
pub fn white_space(c: char) -> (r: bool)
    ensures
        r == is_white_space(c),
{
    let u = c as u32;
    (0x9 <= u && u <= 0xD) || u == 0x20 || u == 0x85 || u == 0xA0 || u == 0x1680 || (0x2000 <= u && u
        <= 0x200A) || u == 0x2028 || u == 0x2029 || u == 0x202F || u == 0x205F || u == 0x3000
}

/// `s` without white space at either end.
pub fn trim_white(s: &str) -> (r: &str)
    ensures
        r@ == trimmed(s@),
{
    let mut end = s.unicode_len();
    assert(s@.subrange(0, end as int) =~= s@);
    while end > 0 && white_space(s.get_char(end - 1))
        invariant
            end <= s@.len(),
            trim_end_white(s@) == trim_end_white(s@.subrange(0, end as int)),
        decreases end,
    {
        assert(s@.subrange(0, end as int).drop_last() =~= s@.subrange(0, end - 1));
        end = end - 1;
    }
    assert(trim_end_white(s@) == s@.subrange(0, end as int));
    let mut start: usize = 0;
    while start < end && white_space(s.get_char(start))
        invariant
            start <= end <= s@.len(),
            trim_end_white(s@) == s@.subrange(0, end as int),
            trimmed(s@) == trim_start_white(s@.subrange(start as int, end as int)),
        decreases end - start,
    {
        assert(s@.subrange(start as int, end as int).drop_first() =~= s@.subrange(start + 1, end as int));
        start = start + 1;
    }
    s.substring_char(start, end)
}

/// The items of the comma-separated list `s`: split at commas, each trimmed,
/// the empty ones dropped.
pub fn split_list(s: &str) -> (r: Vec<String>)
    ensures
        r@.map_values(|x: String| x@) == list_items(s@),
{
    let n = s.unicode_len();
    let mut out: Vec<String> = Vec::new();
    let mut start: usize = 0;
    let ghost mut done: Seq<Seq<char>> = Seq::empty();
    assert(s@.take(0) =~= Seq::<char>::empty());
    assert(out@.map_values(|x: String| x@) =~= Seq::<Seq<char>>::empty());
    assert(s@.subrange(0, 0) =~= Seq::<char>::empty());
    for i in 0..n
        invariant
            n == s@.len(),
            start <= i,
            comma_split_state(s@.take(i as int)) == (done, s@.subrange(start as int, i as int)),
            out@.map_values(|x: String| x@) == nonempty_trimmed(done),
    {
        let ghost before = out@.map_values(|x: String| x@);
        assert(s@.take(i + 1).drop_last() =~= s@.take(i as int));
        assert(s@.take(i + 1).last() == s@[i as int]);
        if s.get_char(i) == ',' {
            let piece = s.substring_char(start, i);
            let t = trim_white(piece);
            proof {
                assert(done.push(piece@).drop_last() =~= done);
            }
            if t.unicode_len() > 0 {
                out.push(String::from_str(t));
                assert(out@.map_values(|x: String| x@) =~= before.push(t@));
            }
            proof {
                done = done.push(piece@);
            }
            start = i + 1;
            assert(s@.subrange(start as int, (i + 1) as int) =~= Seq::<char>::empty());
        } else {
            assert(s@.subrange(start as int, (i + 1) as int) =~= s@.subrange(start as int, i as int).push(
                s@[i as int],
            ));
        }
    }
    assert(s@.take(n as int) =~= s@);
    let ghost before = out@.map_values(|x: String| x@);
    let piece = s.substring_char(start, n);
    let t = trim_white(piece);
    assert(done.push(piece@).drop_last() =~= done);
    if t.unicode_len() > 0 {
        out.push(String::from_str(t));
        assert(out@.map_values(|x: String| x@) =~= before.push(t@));
    }
    out
}

} // verus!
