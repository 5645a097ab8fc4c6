//! Tokenization of one raw input line.
//!
//! A line is case-folded and split at every character that is not ASCII
//! alphanumeric. A naive split keeps the empty components that adjacent
//! separators produce; so does this one, since no rule ever matches an
//! empty token.

use vstd::prelude::*;

verus! {

/// A character counts as part of a token when it is ASCII alphanumeric;
/// every other character separates tokens.
pub open spec fn is_word_char(c: char) -> bool {
    ('a' <= c && c <= 'z') || ('A' <= c && c <= 'Z') || ('0' <= c && c <= '9')
}

/// ASCII case folding: uppercase letters map to their lowercase forms,
/// everything else is left alone.
pub open spec fn lower_char(c: char) -> char {
    if 'A' <= c && c <= 'Z' {
        (((c as u32) + 32) as u8) as char
    } else {
        c
    }
}

/// The component sequence of a line: split at every separator, each kept
/// character case-folded. The sequence always holds one more component than
/// the line holds separators, so it is never empty.
pub open spec fn components_of(s: Seq<char>) -> Seq<Seq<char>>
    decreases s.len(),
{
    if s.len() == 0 {
        seq![Seq::<char>::empty()]
    } else {
        let prev = components_of(s.drop_last());
        if is_word_char(s.last()) {
            prev.update(prev.len() - 1, prev.last().push(lower_char(s.last())))
        } else {
            prev.push(Seq::<char>::empty())
        }
    }
}

/// `needle` occurs contiguously somewhere inside `hay`.
pub open spec fn contains_seq(hay: Seq<char>, needle: Seq<char>) -> bool {
    exists|k: int|
        0 <= k && k + needle.len() <= hay.len() && #[trigger] hay.subrange(k, k + needle.len())
            == needle
}

fn is_word_char_exec(c: char) -> (r: bool)
    ensures
        r == is_word_char(c),
{
    ('a' <= c && c <= 'z') || ('A' <= c && c <= 'Z') || ('0' <= c && c <= '9')
}

fn lower_char_exec(c: char) -> (r: char)
    ensures
        r == lower_char(c),
{
    if 'A' <= c && c <= 'Z' {
        (((c as u32) + 32) as u8) as char
    } else {
        c
    }
}

/// Character-for-character string equality.
fn str_eq(a: &str, b: &str) -> (r: bool)
    ensures
        r == (a@ == b@),
{
    let n = a.unicode_len();
    if n != b.unicode_len() {
        return false;
    }
    let mut i: usize = 0;
    while i < n
        invariant
            n == a@.len(),
            n == b@.len(),
            i <= n,
            forall|j: int| 0 <= j < i ==> a@[j] == b@[j],
        decreases n - i,
    {
        if a.get_char(i) != b.get_char(i) {
            return false;
        }
        i += 1;
    }
    proof {
        assert(a@ =~= b@);
    }
    true
}

fn char_vec_eq_str(v: &Vec<char>, s: &str) -> (r: bool)
    ensures
        r == (v@ == s@),
{
    let n = s.unicode_len();
    if v.len() != n {
        return false;
    }
    let mut i: usize = 0;
    while i < n
        invariant
            n == s@.len(),
            n == v@.len(),
            i <= n,
            forall|j: int| 0 <= j < i ==> v@[j] == s@[j],
        decreases n - i,
    {
        if v[i] != s.get_char(i) {
            return false;
        }
        i += 1;
    }
    proof {
        assert(v@ =~= s@);
    }
    true
}

/// Whether `needle` occurs in `hay` starting at position `k`.
fn match_at(hay: &str, needle: &str, k: usize) -> (r: bool)
    requires
        k + needle@.len() <= hay@.len(),
    ensures
        r == (hay@.subrange(k as int, k + needle@.len()) == needle@),
{
    let m = needle.unicode_len();
    let n = hay.unicode_len();
    let mut j: usize = 0;
    while j < m
        invariant
            m == needle@.len(),
            n == hay@.len(),
            k + m <= n,
            j <= m,
            forall|t: int| 0 <= t < j ==> hay@[k + t] == needle@[t],
        decreases m - j,
    {
        if hay.get_char(k + j) != needle.get_char(j) {
            proof {
                assert(hay@.subrange(k as int, k + needle@.len())[j as int] != needle@[j as int]);
            }
            return false;
        }
        j += 1;
    }
    proof {
        assert(hay@.subrange(k as int, k + needle@.len()) =~= needle@);
    }
    true
}

/// One input line, tokenized once: the raw text as received, and its
/// case-folded components.
pub struct Message {
    raw: String,
    components: Vec<Vec<char>>,
}

impl Message {
    /// The original line, as a sequence of characters.
    pub closed spec fn raw_seq(&self) -> Seq<char> {
        self.raw@
    }

    /// The cached components are exactly the component sequence of the raw line.
    pub closed spec fn wf(&self) -> bool {
        self.components.deep_view() == components_of(self.raw@)
    }

    /// Tokenize one raw line.
    pub fn from(line: &str) -> (m: Message)
        ensures
            m.wf(),
            m.raw_seq() == line@,
    {
        let n = line.unicode_len();
        let mut components: Vec<Vec<char>> = Vec::new();
        let mut cur: Vec<char> = Vec::new();
        let mut i: usize = 0;
        proof {
            assert(components.deep_view().push(cur.deep_view()) =~~= components_of(
                line@.take(0),
            ));
        }
        while i < n
            invariant
                n == line@.len(),
                i <= n,
                components.deep_view().push(cur.deep_view()) == components_of(
                    line@.take(i as int),
                ),
            decreases n - i,
        {
            let ghost pre = line@.take(i as int);
            let ghost post = line@.take(i as int + 1);
            proof {
                assert(post.drop_last() =~= pre);
                assert(post.last() == line@[i as int]);
            }
            let c = line.get_char(i);
            if is_word_char_exec(c) {
                let lc = lower_char_exec(c);
                cur.push(lc);
                proof {
                    let prev = components_of(pre);
                    assert(prev.update(prev.len() - 1, prev.last().push(lower_char(c)))
                        =~~= components.deep_view().push(cur.deep_view()));
                }
            } else {
                components.push(cur);
                cur = Vec::new();
                proof {
                    assert(components_of(pre).push(Seq::<char>::empty()) =~~= components.deep_view(
                    ).push(cur.deep_view()));
                }
            }
            i += 1;
        }
        proof {
            assert(line@.take(n as int) =~= line@);
        }
        components.push(cur);
        let raw = line.to_owned();
        let m = Message { raw, components };
        proof {
            assert(m.components.deep_view() =~~= components_of(m.raw@));
        }
        m
    }

    /// Exact, case-folded equality of `component` against any component of
    /// the line.
    pub fn contains_component(&self, component: &str) -> (r: bool)
        requires
            self.wf(),
        ensures
            r == components_of(self.raw_seq()).contains(component@),
    {
        let n = self.components.len();
        let mut i: usize = 0;
        while i < n
            invariant
                self.wf(),
                n == self.components@.len(),
                i <= n,
                forall|j: int| 0 <= j < i ==> self.components@[j].deep_view() != component@,
            decreases n - i,
        {
            let hit = char_vec_eq_str(&self.components[i], component);
            proof {
                assert(self.components@[i as int].deep_view() =~= self.components@[i as int]@);
            }
            if hit {
                proof {
                    assert(components_of(self.raw_seq())[i as int] == component@);
                }
                return true;
            }
            i += 1;
        }
        proof {
            assert(forall|j: int|
                0 <= j < components_of(self.raw_seq()).len()
                    ==> components_of(self.raw_seq())[j] != component@);
        }
        false
    }

    /// Raw substring containment against the original line, case preserved.
    pub fn contains(&self, s: &str) -> (r: bool)
        ensures
            r == contains_seq(self.raw_seq(), s@),
    {
        let m = s.unicode_len();
        let n = self.raw.as_str().unicode_len();
        if m > n {
            return false;
        }
        if m == 0 {
            proof {
                assert(self.raw_seq().subrange(0, 0 + s@.len() as int) =~= s@);
            }
            return true;
        }
        let mut k: usize = 0;
        while k <= n - m
            invariant
                m == s@.len(),
                n == self.raw@.len(),
                1 <= m <= n,
                k <= n - m + 1,
                forall|t: int|
                    0 <= t < k ==> #[trigger] self.raw@.subrange(t, t + s@.len()) != s@,
            decreases n - k,
    {
            if match_at(self.raw.as_str(), s, k) {
                return true;
            }
            k += 1;
        }
        false
    }

    /// A copy of the original line.
    pub fn raw_string(&self) -> (r: String)
        ensures
            r@ == self.raw_seq(),
    {
        self.raw.clone()
    }

    /// Raw equality of the whole original line against `s`.
    pub fn raw_equals(&self, s: &str) -> (r: bool)
        ensures
            r == (self.raw_seq() == s@),
    {
        str_eq(self.raw.as_str(), s)
    }
}

} // verus!
