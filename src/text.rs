use vstd::prelude::*;
use vstd::string::*;

verus! {

/// The characters that separate words: those with the Unicode property
/// White_Space.
pub open spec fn is_space(c: char) -> bool {
    let u = c as u32;
    (0x9 <= u <= 0xD) || u == 0x20 || u == 0x85 || u == 0xA0 || u == 0x1680 || (0x2000 <= u <= 0x200A)
        || u == 0x2028 || u == 0x2029 || u == 0x202F || u == 0x205F || u == 0x3000
}

/// The pending word `cur`, as a list of at most one word.
pub open spec fn flush(cur: Seq<char>) -> Seq<Seq<char>> {
    if cur.len() == 0 {
        seq![]
    } else {
        seq![cur]
    }
}

/// The words of `s`, where `cur` holds the characters of a word that is
/// already under way when `s` begins.
pub open spec fn words_from(s: Seq<char>, cur: Seq<char>) -> Seq<Seq<char>>
    decreases s.len(),
{
    if s.len() == 0 {
        flush(cur)
    } else if is_space(s[0]) {
        flush(cur) + words_from(s.drop_first(), seq![])
    } else {
        words_from(s.drop_first(), cur.push(s[0]))
    }
}

/// The maximal runs of non-space characters of `s`, in order.
pub open spec fn words(s: Seq<char>) -> Seq<Seq<char>> {
    words_from(s, seq![])
}

pub open spec fn views_of(v: Seq<String>) -> Seq<Seq<char>> {
    v.map_values(|w: String| w@)
}

pub fn is_space_char(c: char) -> (r: bool)
    ensures
        r == is_space(c),
{
    let u = c as u32;
    (0x9 <= u && u <= 0xD) || u == 0x20 || u == 0x85 || u == 0xA0 || u == 0x1680 || (0x2000 <= u && u
        <= 0x200A) || u == 0x2028 || u == 0x2029 || u == 0x202F || u == 0x205F || u == 0x3000
}

/// Whether two strings hold the same characters.
pub fn str_eq(a: &str, b: &str) -> (r: bool)
    ensures
        r == (a@ == b@),
{
    let n = a.unicode_len();
    if n != b.unicode_len() {
        return false;
    }
    let mut i: usize = 0;
    while i < n
        invariant
            n == a@.len(),
            n == b@.len(),
            i <= n,
            forall|k: int| 0 <= k < i ==> a@[k] == b@[k],
        decreases n - i,
    {
        if a.get_char(i) != b.get_char(i) {
            return false;
        }
        i = i + 1;
    }
    assert(a@ =~= b@);
    true
}

/// Splits `text` into its words: the maximal runs of characters that are
/// not Unicode white space, in the order in which they stand.
pub fn split_text(text: &str) -> (r: Vec<String>)
    ensures
        views_of(r@) == words(text@),
        forall|k: int| 0 <= k < r@.len() ==> r@[k]@.len() > 0,
{
    let n = text.unicode_len();
    let mut out: Vec<String> = Vec::new();
    let mut start: usize = 0;
    let mut i: usize = 0;
    assert(text@.subrange(0, n as int) =~= text@);
    assert(text@.subrange(0, 0) =~= seq![]);
    assert(views_of(out@) =~= seq![]);
    while i < n
        invariant
            n == text@.len(),
            start <= i <= n,
            views_of(out@) + words_from(text@.subrange(i as int, n as int), text@.subrange(start as int, i as int))
                == words(text@),
            forall|k: int| 0 <= k < out@.len() ==> out@[k]@.len() > 0,
        decreases n - i,
    {
        let c = text.get_char(i);
        let ghost rest = text@.subrange(i as int, n as int);
        let ghost cur = text@.subrange(start as int, i as int);
        assert(rest[0] == c);
        assert(rest.drop_first() =~= text@.subrange(i + 1, n as int));
        if is_space_char(c) {
            let ghost before = views_of(out@);
            if start < i {
                let w = String::from_str(text.substring_char(start, i));
                out.push(w);
            }
            assert(views_of(out@) =~= before + flush(cur));
            start = i + 1;
            assert(text@.subrange(start as int, i + 1) =~= seq![]);
            let ghost tail = words_from(text@.subrange(i + 1, n as int), seq![]);
            assert((before + flush(cur)) + tail =~= before + (flush(cur) + tail));
        } else {
            assert(cur.push(c) =~= text@.subrange(start as int, i + 1));
        }
        i = i + 1;
    }
    let ghost cur = text@.subrange(start as int, n as int);
    assert(text@.subrange(n as int, n as int) =~= seq![]);
    if start < n {
        let w = String::from_str(text.substring_char(start, n));
        let ghost before = out@;
        out.push(w);
        assert(views_of(out@) =~= views_of(before) + flush(cur));
    } else {
        assert(views_of(out@) + flush(cur) =~= views_of(out@));
    }
    out
}

} // verus!
