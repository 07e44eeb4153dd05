use vstd::prelude::*;

verus! {

/// Path-name rules shared by the catalog's file placer and the scanner:
/// turning a free-form tag into a safe path component, and recognizing the
/// audio files the engine accepts by their extension.
///
/// Paths are treated as sequences of characters with `/` as the separator.
/// Characters a path component must not contain: the separator of either
/// convention and the punctuation reserved by common file systems.
pub open spec fn spec_reserved_char(c: char) -> bool {
    ||| c == '/'
    ||| c == '\\'
    ||| c == ':'
    ||| c == '*'
    ||| c == '?'
    ||| c == '"'
    ||| c == '<'
    ||| c == '>'
    ||| c == '|'
}

pub open spec fn spec_replace_char(c: char) -> char {
    if spec_reserved_char(c) {
        '_'
    } else {
        c
    }
}

/// Blank characters trimmed from a component's ends.
pub open spec fn spec_space(c: char) -> bool {
    c == ' ' || c == '\t' || c == '\n' || c == '\r'
}

/// The component with leading and trailing blanks removed.
pub open spec fn spec_trimmed(s: Seq<char>) -> Seq<char>
    decreases s.len(),
{
    if s.len() > 0 && spec_space(s[0]) {
        spec_trimmed(s.skip(1))
    } else if s.len() > 0 && spec_space(s.last()) {
        spec_trimmed(s.drop_last())
    } else {
        s
    }
}

pub open spec fn spec_replace_all(t: Seq<char>) -> Seq<char> {
    t.map_values(|c: char| spec_replace_char(c))
}

/// A safe path component: trimmed, reserved characters replaced by `_`, and
/// never empty.
pub open spec fn spec_sanitized(s: Seq<char>) -> Seq<char> {
    let t = spec_replace_all(spec_trimmed(s));
    if t.len() == 0 {
        "Untitled"@
    } else {
        t
    }
}

/// Trimming removes exactly the blank prefix and suffix: if everything
/// before `start` and from `end` on is blank, and the ends inside are not,
/// the trimmed component is that middle part.
proof fn lemma_trimmed_is_subrange(s: Seq<char>, start: int, end: int)
    requires
        0 <= start <= end <= s.len(),
        forall|j: int| 0 <= j < start ==> spec_space(#[trigger] s[j]),
        forall|j: int| end <= j < s.len() ==> spec_space(#[trigger] s[j]),
        start < end ==> !spec_space(s[start]) && !spec_space(s[end - 1]),
    ensures
        spec_trimmed(s) == s.subrange(start, end),
    decreases s.len(),
{
    if s.len() == 0 {
        assert(spec_trimmed(s) =~= s.subrange(start, end));
    } else if spec_space(s[0]) {
        // start > 0, or the whole string is blank; either way the head goes.
        let tail = s.skip(1);
        if start > 0 {
            lemma_trimmed_is_subrange(tail, start - 1, end - 1);
            assert(tail.subrange(start - 1, end - 1) =~= s.subrange(start, end));
        } else {
            assert(start == 0 && end == 0);
            lemma_trimmed_is_subrange(tail, 0, 0);
            assert(tail.subrange(0, 0) =~= s.subrange(0, 0));
        }
    } else {
        assert(start == 0);
        if end < s.len() {
            assert(spec_space(s.last()));
            let head = s.drop_last();
            lemma_trimmed_is_subrange(head, 0, end);
            assert(head.subrange(0, end) =~= s.subrange(0, end));
        } else {
            assert(spec_trimmed(s) == s);
            assert(s.subrange(0, s.len() as int) =~= s);
        }
    }
}

fn is_space_c(c: char) -> (r: bool)
    ensures
        r == spec_space(c),
{
    c == ' ' || c == '\t' || c == '\n' || c == '\r'
}

fn replace_c(c: char) -> (r: char)
    ensures
        r == spec_replace_char(c),
{
    if c == '/' || c == '\\' || c == ':' || c == '*' || c == '?' || c == '"' || c == '<' || c
        == '>' || c == '|' {
        '_'
    } else {
        c
    }
}

/// Relies on std's `String::push`: appends one character at the end.
#[verifier::external_body]
fn push_char(s: &mut String, c: char)
    ensures
        final(s)@ == old(s)@.push(c),
{
    s.push(c)
}

/// Turn a free-form name — an artist, album or track tag — into a safe path
/// component: trim blanks, replace reserved characters with `_`, and fall
/// back to `Untitled` when nothing remains.
pub fn sanitize_component(s: &str) -> (r: String)
    ensures
        r@ == spec_sanitized(s@),
{
    let n = s.unicode_len();
    let mut start: usize = 0;
    while start < n && is_space_c(s.get_char(start))
        invariant
            n == s@.len(),
            start <= n,
            forall|j: int| 0 <= j < start ==> spec_space(#[trigger] s@[j]),
        decreases n - start,
    {
        start += 1;
    }
    let mut end: usize = n;
    while end > start && is_space_c(s.get_char(end - 1))
        invariant
            n == s@.len(),
            start <= end <= n,
            forall|j: int| end <= j < n ==> spec_space(#[trigger] s@[j]),
        decreases end,
    {
        end -= 1;
    }
    proof {
        lemma_trimmed_is_subrange(s@, start as int, end as int);
    }
    let mut out = String::new();
    let mut i: usize = start;
    while i < end
        invariant
            n == s@.len(),
            start <= i <= end <= n,
            out@ == spec_replace_all(s@.subrange(start as int, i as int)),
        decreases end - i,
    {
        let c = s.get_char(i);
        push_char(&mut out, replace_c(c));
        proof {
            assert(spec_replace_all(s@.subrange(start as int, i + 1)) =~= spec_replace_all(
                s@.subrange(start as int, i as int),
            ).push(spec_replace_char(s@[i as int])));
        }
        i += 1;
    }
    if start == end {
        "Untitled".to_owned()
    } else {
        out
    }
}

/// The last position of `c` in `s`, or `-1` when it never occurs.
pub open spec fn spec_last_index_of(s: Seq<char>, c: char) -> int
    decreases s.len(),
{
    if s.len() == 0 {
        -1
    } else if s.last() == c {
        s.len() - 1
    } else {
        spec_last_index_of(s.drop_last(), c)
    }
}

/// The extension of a path: what follows the final `.` of the last path
/// segment, provided that dot is not the segment's first character (a name
/// like `.config` has no extension).
pub open spec fn spec_extension(s: Seq<char>) -> Option<Seq<char>> {
    let name_start = spec_last_index_of(s, '/') + 1;
    let dot = spec_last_index_of(s, '.');
    if dot > name_start {
        Option::Some(s.subrange(dot + 1, s.len() as int))
    } else {
        Option::None
    }
}

/// ASCII lowercasing, character by character; extensions are compared
/// case-insensitively.
pub open spec fn spec_lower_char(c: char) -> char {
    if 65 <= c as int && c as int <= 90 {
        ((c as u8) + 32) as char
    } else {
        c
    }
}

pub open spec fn spec_lower(s: Seq<char>) -> Seq<char> {
    s.map_values(|c: char| spec_lower_char(c))
}

/// The extensions the engine accepts; the probe may still recognize other
/// containers, so this is a gate for the scanner, not for playback.
pub open spec fn spec_supported_ext(e: Seq<char>) -> bool {
    ||| e == seq!['m', 'p', '3']
    ||| e == seq!['f', 'l', 'a', 'c']
    ||| e == seq!['w', 'a', 'v']
    ||| e == seq!['o', 'g', 'g']
    ||| e == seq!['m', '4', 'a']
    ||| e == seq!['a', 'a', 'c']
    ||| e == seq!['o', 'p', 'u', 's']
}

pub open spec fn spec_is_audio(s: Seq<char>) -> bool {
    match spec_extension(s) {
        Option::Some(e) => spec_supported_ext(spec_lower(e)),
        Option::None => false,
    }
}

fn lower_c(c: char) -> (r: char)
    ensures
        r == spec_lower_char(c),
{
    let u = c as u32;
    if 65 <= u && u <= 90 {
        ((c as u8) + 32) as char
    } else {
        c
    }
}

/// Whether a path names a file the library treats as audio, judged by its
/// extension, case-insensitively.
pub fn is_audio(path: &str) -> (r: bool)
    ensures
        r == spec_is_audio(path@),
{
    let n = path.unicode_len();
    let mut slash_p1: usize = 0;
    let mut dot_p1: usize = 0;
    let mut i: usize = 0;
    while i < n
        invariant
            n == path@.len(),
            i <= n,
            slash_p1 == spec_last_index_of(path@.take(i as int), '/') + 1,
            dot_p1 == spec_last_index_of(path@.take(i as int), '.') + 1,
            slash_p1 <= i,
            dot_p1 <= i,
        decreases n - i,
    {
        let c = path.get_char(i);
        proof {
            assert(path@.take(i + 1).drop_last() =~= path@.take(i as int));
            assert(path@.take(i + 1).last() == path@[i as int]);
        }
        if c == '/' {
            slash_p1 = i + 1;
        }
        if c == '.' {
            dot_p1 = i + 1;
        }
        i += 1;
    }
    proof {
        assert(path@.take(n as int) =~= path@);
    }
    if !(dot_p1 >= 1 && dot_p1 - 1 > slash_p1) {
        return false;
    }
    let ghost ext = path@.subrange(dot_p1 as int, n as int);
    let ghost le = spec_lower(ext);
    proof {
        assert(spec_extension(path@) == Option::Some(ext));
        assert(le.len() == n - dot_p1);
    }
    let elen = n - dot_p1;
    if elen == 3 {
        let c0 = lower_c(path.get_char(dot_p1));
        let c1 = lower_c(path.get_char(dot_p1 + 1));
        let c2 = lower_c(path.get_char(dot_p1 + 2));
        let r = (c0 == 'm' && c1 == 'p' && c2 == '3') || (c0 == 'w' && c1 == 'a' && c2 == 'v')
            || (c0 == 'o' && c1 == 'g' && c2 == 'g') || (c0 == 'm' && c1 == '4' && c2 == 'a')
            || (c0 == 'a' && c1 == 'a' && c2 == 'c');
        proof {
            assert(le[0] == c0 && le[1] == c1 && le[2] == c2);
            if r {
                if c0 == 'm' && c1 == 'p' && c2 == '3' {
                    assert(le =~= seq!['m', 'p', '3']);
                } else if c0 == 'w' && c1 == 'a' && c2 == 'v' {
                    assert(le =~= seq!['w', 'a', 'v']);
                } else if c0 == 'o' && c1 == 'g' && c2 == 'g' {
                    assert(le =~= seq!['o', 'g', 'g']);
                } else if c0 == 'm' && c1 == '4' && c2 == 'a' {
                    assert(le =~= seq!['m', '4', 'a']);
                } else {
                    assert(le =~= seq!['a', 'a', 'c']);
                }
            }
        }
        r
    } else if elen == 4 {
        let c0 = lower_c(path.get_char(dot_p1));
        let c1 = lower_c(path.get_char(dot_p1 + 1));
        let c2 = lower_c(path.get_char(dot_p1 + 2));
        let c3 = lower_c(path.get_char(dot_p1 + 3));
        let r = (c0 == 'f' && c1 == 'l' && c2 == 'a' && c3 == 'c') || (c0 == 'o' && c1 == 'p'
            && c2 == 'u' && c3 == 's');
        proof {
            assert(le[0] == c0 && le[1] == c1 && le[2] == c2 && le[3] == c3);
            if r {
                if c0 == 'f' {
                    assert(le =~= seq!['f', 'l', 'a', 'c']);
                } else {
                    assert(le =~= seq!['o', 'p', 'u', 's']);
                }
            }
        }
        r
    } else {
        false
    }
}

} // verus!
