use vstd::prelude::*;

verus! {

/// The lines of `s`: the pieces between its line feeds.
pub open spec fn lines_of(s: Seq<char>) -> Seq<Seq<char>>
    decreases s.len(),
{
    if s.len() == 0 {
        seq![Seq::empty()]
    } else {
        let init = lines_of(s.drop_last());
        if s.last() == '\n' {
            init.push(Seq::empty())
        } else {
            init.update(init.len() - 1, init.last().push(s.last()))
        }
    }
}

/// Whether `c` is ASCII white space.
pub open spec fn is_space(c: char) -> bool {
    c == ' ' || c == '\t' || c == '\n' || c == '\r' || c == '\x0B' || c == '\x0C'
}

/// The fields of `s`, split at each run of white space; white space at
/// either end gives an empty first or last field.
pub open spec fn fields_of(s: Seq<char>) -> Seq<Seq<char>>
    decreases s.len(),
{
    if s.len() == 0 {
        seq![Seq::empty()]
    } else {
        let init = fields_of(s.drop_last());
        let c = s.last();
        if is_space(c) {
            if s.len() > 1 && is_space(s[s.len() - 2]) {
                init
            } else {
                init.push(Seq::empty())
            }
        } else {
            init.update(init.len() - 1, init.last().push(c))
        }
    }
}

/// Whether `a` and `b` are the same character, ignoring ASCII case.
pub open spec fn same_letter(a: char, b: char) -> bool {
    a == b || ('A' <= a <= 'Z' && (a as u32) + 32 == b as u32) || ('A' <= b <= 'Z' && (b as u32)
        + 32 == a as u32)
}

/// Whether `needle` occurs in `s` at `at`, ignoring ASCII case.
pub open spec fn occurs_at(s: Seq<char>, needle: Seq<char>, at: int) -> bool {
    0 <= at && at + needle.len() <= s.len() && forall|j: int|
        0 <= j < needle.len() ==> same_letter(#[trigger] s[at + j], needle[j])
}

/// Whether `needle` occurs in `s`, ignoring ASCII case.
pub open spec fn mentions(s: Seq<char>, needle: Seq<char>) -> bool {
    exists|at: int| occurs_at(s, needle, at)
}

/// The index of the first of `lines`, from `k` on, that mentions `needle`.
pub open spec fn first_mention(lines: Seq<Seq<char>>, needle: Seq<char>, k: int) -> Option<int>
    decreases lines.len() - k,
{
    if k < 0 || k >= lines.len() {
        None
    } else if mentions(lines[k], needle) {
        Some(k)
    } else {
        first_mention(lines, needle, k + 1)
    }
}

/// The fourth field of `line`, or nothing where it has fewer.
pub open spec fn fourth_field(line: Seq<char>) -> Seq<char> {
    if fields_of(line).len() > 3 {
        fields_of(line)[3]
    } else {
        Seq::empty()
    }
}

/// The GUID of the power scheme named `name` in a scheme listing: the
/// fourth field of the first line that mentions the name, ignoring case.
pub open spec fn scheme_guid(listing: Seq<char>, name: Seq<char>) -> Option<Seq<char>> {
    match first_mention(lines_of(listing), name, 0) {
        Some(k) => Some(fourth_field(lines_of(listing)[k])),
        None => None,
    }
}

fn char_str(s: &str, i: usize) -> (r: &str)
    requires
        i < s@.len(),
        s@.len() <= usize::MAX,
    ensures
        r@ == seq![s@[i as int]],
{
    let r = s.substring_char(i, i + 1);
    assert(r@ =~= seq![s@[i as int]]);
    r
}

/// Splits `s` into its lines.
pub fn split_lines(s: &str) -> (r: Vec<String>)
    ensures
        r@.map_values(|l: String| l@) == lines_of(s@),
{
    let n = s.unicode_len();
    let mut done: Vec<String> = Vec::new();
    let mut cur = String::new();
    let mut i: usize = 0;
    while i < n
        invariant
            n == s@.len(),
            i <= n,
            done@.map_values(|l: String| l@).push(cur@) == lines_of(s@.take(i as int)),
        decreases n - i,
    {
        let ghost prev = s@.take(i as int);
        let ghost before = done@.map_values(|l: String| l@);
        assert(s@.take(i + 1).drop_last() =~= prev);
        assert(s@.take(i + 1).last() == s@[i as int]);
        assert(lines_of(prev) == before.push(cur@));
        if s.get_char(i) == '\n' {
            let ghost old_cur = cur@;
            done.push(cur);
            cur = String::new();
            assert(done@.map_values(|l: String| l@) =~= before.push(old_cur));
        } else {
            let ghost old_cur = cur@;
            cur.append(char_str(s, i));
            assert(cur@ =~= old_cur.push(s@[i as int]));
            assert(before.push(old_cur).update(before.len() as int, old_cur.push(s@[i as int]))
                =~= before.push(cur@));
        }
        assert(done@.map_values(|l: String| l@).push(cur@) =~= lines_of(s@.take(i + 1)));
        i = i + 1;
    }
    assert(s@.take(n as int) =~= s@);
    done.push(cur);
    done
}

/// Splits `s` into its fields.
pub fn split_fields(s: &str) -> (r: Vec<String>)
    ensures
        r@.map_values(|l: String| l@) == fields_of(s@),
{
    let n = s.unicode_len();
    let mut done: Vec<String> = Vec::new();
    let mut cur = String::new();
    let mut prev_space = false;
    let mut i: usize = 0;
    while i < n
        invariant
            n == s@.len(),
            i <= n,
            prev_space == (i > 0 && is_space(s@[i - 1])),
            done@.map_values(|l: String| l@).push(cur@) == fields_of(s@.take(i as int)),
        decreases n - i,
    {
        let ghost prev = s@.take(i as int);
        let ghost before = done@.map_values(|l: String| l@);
        let ghost t = s@.take(i + 1);
        assert(t.drop_last() =~= prev);
        assert(t.last() == s@[i as int]);
        assert(t.len() > 1 ==> t[t.len() - 2] == s@[i - 1]);
        let c = s.get_char(i);
        let space = c == ' ' || c == '\t' || c == '\n' || c == '\r' || c == '\x0B' || c == '\x0C';
        if space {
            if !prev_space {
                let ghost old_cur = cur@;
                done.push(cur);
                cur = String::new();
                assert(done@.map_values(|l: String| l@) =~= before.push(old_cur));
            }
        } else {
            let ghost old_cur = cur@;
            cur.append(char_str(s, i));
            assert(cur@ =~= old_cur.push(c));
            assert(before.push(old_cur).update(before.len() as int, old_cur.push(c))
                =~= before.push(cur@));
        }
        prev_space = space;
        assert(done@.map_values(|l: String| l@).push(cur@) =~= fields_of(t));
        i = i + 1;
    }
    assert(s@.take(n as int) =~= s@);
    done.push(cur);
    done
}

/// Whether two characters are the same, ignoring ASCII case.
fn same_letter_exec(a: char, b: char) -> (r: bool)
    ensures
        r == same_letter(a, b),
{
    a == b || ('A' <= a && a <= 'Z' && (a as u32) + 32 == b as u32) || ('A' <= b && b <= 'Z'
        && (b as u32) + 32 == a as u32)
}

/// Whether `needle` occurs in `s` at `at`, ignoring ASCII case.
fn occurs_at_exec(s: &str, n: usize, needle: &str, m: usize, at: usize) -> (r: bool)
    requires
        n == s@.len(),
        m == needle@.len(),
        at + m <= n,
    ensures
        r == occurs_at(s@, needle@, at as int),
{
    let mut j: usize = 0;
    while j < m
        invariant
            n == s@.len(),
            m == needle@.len(),
            at + m <= n,
            j <= m,
            forall|k: int| 0 <= k < j ==> same_letter(#[trigger] s@[at + k], needle@[k]),
        decreases m - j,
    {
        if !same_letter_exec(s.get_char(at + j), needle.get_char(j)) {
            return false;
        }
        j = j + 1;
    }
    true
}

/// Whether `needle` occurs in `s`, ignoring ASCII case.
pub fn mentions_exec(s: &str, needle: &str) -> (r: bool)
    ensures
        r == mentions(s@, needle@),
{
    let n = s.unicode_len();
    let m = needle.unicode_len();
    if m > n {
        assert forall|at: int| !occurs_at(s@, needle@, at) by {}
        return false;
    }
    let mut at: usize = 0;
    while at <= n - m
        invariant
            n == s@.len(),
            m == needle@.len(),
            m <= n,
            at <= n - m + 1,
            forall|k: int| 0 <= k < at ==> !occurs_at(s@, needle@, k),
        decreases n - at,
    {
        if occurs_at_exec(s, n, needle, m, at) {
            return true;
        }
        at = at + 1;
    }
    assert forall|k: int| !occurs_at(s@, needle@, k) by {
        if 0 <= k < at {
        }
    }
    false
}

/// The GUID of the power scheme named `name` in a scheme listing.
pub fn find_scheme_guid(listing: &str, name: &str) -> (r: Option<String>)
    ensures
        r matches Some(g) ==> scheme_guid(listing@, name@) == Some(g@),
        r is None ==> scheme_guid(listing@, name@) is None,
{
    let lines = split_lines(listing);
    let ghost views = lines@.map_values(|l: String| l@);
    let mut k: usize = 0;
    while k < lines.len()
        invariant
            k <= lines.len(),
            views == lines@.map_values(|l: String| l@),
            views == lines_of(listing@),
            first_mention(views, name@, 0) == first_mention(views, name@, k as int),
        decreases lines.len() - k,
    {
        assert(views[k as int] == lines[k as int]@);
        if mentions_exec(lines[k].as_str(), name) {
            let fields = split_fields(lines[k].as_str());
            let ghost fviews = fields@.map_values(|l: String| l@);
            if fields.len() > 3 {
                assert(fviews[3] == fields[3]@);
                return Some(fields[3].clone());
            } else {
                return Some(String::new());
            }
        }
        k = k + 1;
    }
    None
}

} // verus!
