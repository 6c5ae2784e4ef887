//! The pooled regular-expression value: an explicit interning pool
//! deduplicates identical pattern strings into one shared compiled pattern.
//! The pool is an explicit registry handle (tests can use a fresh one);
//! callers check handles out of it and release them back, and an entry is
//! evicted the instant its last outstanding handle is released.

use vstd::prelude::*;

use crate::regex_ext::{
    regex_build, regex_clone, regex_is_match, regex_match, regex_pattern, RegexError,
};

verus! {

/// A pooled compiled regular-expression value, byte-oriented (Unicode mode
/// disabled). Equality of two values is equality of their pattern strings.
#[derive(Debug)]
pub struct PooledRegex {
    compiled: regex::bytes::Regex,
    source: String,
}

impl PooledRegex {
    /// The pattern string this value was built from.
    pub closed spec fn spec_source(&self) -> Seq<char> {
        self.source@
    }

    /// The compiled pattern was built from the stored pattern string.
    pub closed spec fn wf(&self) -> bool {
        regex_pattern(self.compiled) == self.source@
    }

    /// Returns true if and only if the pattern matches the given text.
    pub fn is_match(&self, text: &[u8]) -> (r: bool)
        requires
            self.wf(),
        ensures
            r == regex_match(self.spec_source(), text@),
    {
        regex_is_match(&self.compiled, text)
    }

    /// Returns the original pattern string of this value.
    pub fn as_str(&self) -> (r: &str)
        ensures
            r@ == self.spec_source(),
    {
        self.source.as_str()
    }
}

impl Clone for PooledRegex {
    /// The clone shares the compiled pattern and keeps the pattern string.
    fn clone(&self) -> (r: Self)
        ensures
            r.spec_source() == self.spec_source(),
            self.wf() ==> r.wf(),
    {
        PooledRegex { compiled: regex_clone(&self.compiled), source: self.source.clone() }
    }
}

impl PartialEq for PooledRegex {
    /// Equality is equality of the pattern strings.
    fn eq(&self, other: &Self) -> (r: bool) {
        self.source.eq(&other.source)
    }
}

impl vstd::std_specs::cmp::PartialEqSpecImpl for PooledRegex {
    open spec fn obeys_eq_spec() -> bool {
        true
    }

    closed spec fn eq_spec(&self, other: &Self) -> bool {
        self.source@ == other.source@
    }
}

/// Whether two strings hold the same characters.
fn str_eq(a: &str, b: &str) -> (r: bool)
    ensures
        r == (a@ == b@),
{
    let n = a.unicode_len();
    let m = b.unicode_len();
    if n != m {
        proof {
            assert(a@ != b@);
        }
        return false;
    }
    let mut i: usize = 0;
    while i < n
        invariant
            n == a@.len(),
            n == b@.len(),
            0 <= i <= n,
            forall|k: int| 0 <= k < i ==> a@[k] == b@[k],
        decreases n - i,
    {
        if a.get_char(i) != b.get_char(i) {
            return false;
        }
        i += 1;
    }
    proof {
        assert(a@ =~= b@);
    }
    true
}

struct PoolEntry {
    regex: PooledRegex,
    refs: u64,
}

/// The interning pool: at most one live compiled pattern per distinct
/// pattern string, each with the count of handles checked out of the pool.
pub struct RegexPool {
    entries: Vec<PoolEntry>,
}

impl RegexPool {
    /// The pool's contents: each entry's pattern string with its checked-out
    /// handle count, in insertion order.
    pub closed spec fn view(&self) -> Seq<(Seq<char>, u64)> {
        self.entries@.map_values(|e: PoolEntry| (e.regex.spec_source(), e.refs))
    }

    /// Whether a pattern is interned.
    pub open spec fn contains_pattern(&self, p: Seq<char>) -> bool {
        exists|i: int| 0 <= i < self@.len() && self@[i].0 == p
    }

    /// At most one entry per distinct pattern string, every entry checked
    /// out at least once, and every compiled pattern built from its string.
    pub closed spec fn wf(&self) -> bool {
        &&& forall|i: int, j: int|
            0 <= i < j < self.entries@.len() ==> self.entries@[i].regex.spec_source()
                != self.entries@[j].regex.spec_source()
        &&& forall|i: int|
            0 <= i < self.entries@.len() ==> (#[trigger] self.entries@[i]).refs >= 1
                && self.entries@[i].regex.wf()
    }

    /// No pattern is interned twice: distinct entries of a well-formed pool
    /// hold distinct pattern strings, so at most one compiled pattern exists
    /// per string at any time.
    pub proof fn lemma_no_duplicate_entries(&self)
        requires
            self.wf(),
        ensures
            forall|i: int, j: int| 0 <= i < j < self@.len() ==> self@[i].0 != self@[j].0,
    {
        assert forall|i: int, j: int| 0 <= i < j < self@.len() implies self@[i].0 != self@[j].0 by {
            assert(self@[i].0 == self.entries@[i].regex.spec_source());
            assert(self@[j].0 == self.entries@[j].regex.spec_source());
        }
    }

    /// An empty pool.
    pub fn new() -> (r: RegexPool)
        ensures
            r@ == Seq::<(Seq<char>, u64)>::empty(),
            r.wf(),
    {
        let r = RegexPool { entries: Vec::new() };
        proof {
            assert(r@ =~= Seq::<(Seq<char>, u64)>::empty());
        }
        r
    }

    /// The count of interned patterns.
    pub fn len(&self) -> (r: usize)
        ensures
            r == self@.len(),
    {
        self.entries.len()
    }

    /// Whether the pattern is interned.
    pub fn contains(&self, pattern: &str) -> (r: bool)
        ensures
            r == self.contains_pattern(pattern@),
    {
        self.find(pattern).is_some()
    }

    /// The entry index holding the pattern, if any.
    fn find(&self, pattern: &str) -> (r: Option<usize>)
        ensures
            match r {
                Some(i) => i < self@.len() && self@[i as int].0 == pattern@,
                None => !self.contains_pattern(pattern@),
            },
    {
        let n = self.entries.len();
        let mut i: usize = 0;
        while i < n
            invariant
                n == self.entries@.len(),
                n == self@.len(),
                0 <= i <= n,
                forall|k: int| 0 <= k < i ==> self@[k].0 != pattern@,
            decreases n - i,
        {
            if str_eq(self.entries[i].regex.source.as_str(), pattern) {
                proof {
                    assert(self@[i as int].0 == self.entries@[i as int].regex.spec_source());
                }
                return Some(i);
            }
            proof {
                assert(self@[i as int].0 == self.entries@[i as int].regex.spec_source());
            }
            i += 1;
        }
        None
    }

    /// Checks a handle for the pattern out of the pool: an interned pattern
    /// is shared (its count grows by one and no entry is added or removed);
    /// a new pattern is compiled byte-oriented, interned with a count of one,
    /// and returned; a compilation failure leaves the pool unchanged. An
    /// interned pattern always succeeds; whether a new one compiles is the
    /// engine's decision.
    pub fn intern(&mut self, pattern: &str) -> (r: Result<PooledRegex, RegexError>)
        requires
            old(self).wf(),
        ensures
            final(self).wf(),
            r matches Ok(re) ==> re.spec_source() == pattern@ && re.wf(),
            old(self).contains_pattern(pattern@) ==> (r is Ok && exists|i: int|
                0 <= i < old(self)@.len() && old(self)@[i].0 == pattern@ && final(self)@ == old(
                    self,
                )@.update(
                    i,
                    (
                        old(self)@[i].0,
                        if old(self)@[i].1 == u64::MAX {
                            u64::MAX
                        } else {
                            (old(self)@[i].1 + 1) as u64
                        },
                    ),
                )),
            !old(self).contains_pattern(pattern@) ==> match r {
                Ok(re) => final(self)@ == old(self)@.push((pattern@, 1u64)),
                Err(e) => final(self)@ == old(self)@,
            },
    {
        match self.find(pattern) {
            Some(i) => {
                let ghost old_entries = self.entries@;
                let mut entry = self.entries.remove(i);
                let handle = entry.regex.clone();
                if entry.refs < u64::MAX {
                    entry.refs = entry.refs + 1;
                }
                self.entries.insert(i, entry);
                proof {
                    assert(self.entries@ =~= old_entries.update(i as int, self.entries@[i as int]));
                    assert(self@ =~= old(self)@.update(
                        i as int,
                        (
                            old(self)@[i as int].0,
                            if old(self)@[i as int].1 == u64::MAX {
                                u64::MAX
                            } else {
                                (old(self)@[i as int].1 + 1) as u64
                            },
                        ),
                    ));
                    assert forall|a: int, b: int|
                        0 <= a < b < self.entries@.len() implies self.entries@[a].regex.spec_source()
                        != self.entries@[b].regex.spec_source() by {
                        assert(old_entries[a].regex.spec_source() != old_entries[b].regex.spec_source());
                    }
                    assert forall|a: int|
                        0 <= a < self.entries@.len() implies (#[trigger] self.entries@[a]).refs >= 1
                        && self.entries@[a].regex.wf() by {
                        assert(old_entries[a].refs >= 1 && old_entries[a].regex.wf());
                    }
                }
                Ok(handle)
            },
            None => {
                match regex_build(pattern) {
                    Ok(compiled) => {
                        let handle = PooledRegex { compiled, source: pattern.to_owned() };
                        let entry = PoolEntry { regex: handle.clone(), refs: 1 };
                        let ghost old_entries = self.entries@;
                        self.entries.push(entry);
                        proof {
                            assert(self@ =~= old(self)@.push((pattern@, 1u64)));
                            assert forall|a: int, b: int|
                                0 <= a < b < self.entries@.len() implies self.entries@[a].regex.spec_source()
                                != self.entries@[b].regex.spec_source() by {
                                if b < old_entries.len() {
                                    assert(old_entries[a].regex.spec_source() != old_entries[b].regex.spec_source());
                                } else {
                                    assert(self@[a].0 == self.entries@[a].regex.spec_source());
                                    assert(old(self)@[a].0 != pattern@);
                                }
                            }
                            assert forall|a: int|
                                0 <= a < self.entries@.len() implies (#[trigger] self.entries@[a]).refs >= 1
                                && self.entries@[a].regex.wf() by {
                                if a < old_entries.len() {
                                    assert(old_entries[a].refs >= 1 && old_entries[a].regex.wf());
                                }
                            }
                        }
                        Ok(handle)
                    },
                    Err(e) => {
                        proof {
                            assert(self@ =~= old(self)@);
                        }
                        Err(e)
                    },
                }
            },
        }
    }

    /// Releases a handle back to the pool: the pattern's count shrinks by
    /// one, and the entry whose last handle this was is evicted on the spot
    /// and handed back, so a caller can drop the compiled pattern only after
    /// it has let go of whatever guards the pool. A handle of a pattern this
    /// pool does not hold leaves it unchanged.
    pub fn release(&mut self, handle: PooledRegex) -> (evicted: Option<PooledRegex>)
        requires
            old(self).wf(),
        ensures
            final(self).wf(),
            !old(self).contains_pattern(handle.spec_source()) ==> final(self)@ == old(self)@
                && evicted is None,
            old(self).contains_pattern(handle.spec_source()) ==> exists|i: int|
                0 <= i < old(self)@.len() && old(self)@[i].0 == handle.spec_source()
                    && final(self)@ == (if old(self)@[i].1 == 1 {
                    old(self)@.remove(i)
                } else {
                    old(self)@.update(i, (old(self)@[i].0, (old(self)@[i].1 - 1) as u64))
                }) && (evicted is Some <==> old(self)@[i].1 == 1),
            evicted matches Some(re) ==> re.spec_source() == handle.spec_source(),
    {
        let source = handle.as_str();
        match self.find(source) {
            Some(i) => {
                let ghost old_entries = self.entries@;
                let mut entry = self.entries.remove(i);
                if entry.refs == 1 {
                    proof {
                        assert(self@ =~= old(self)@.remove(i as int));
                    }
                    Some(entry.regex)
                } else {
                    entry.refs = entry.refs - 1;
                    self.entries.insert(i, entry);
                    proof {
                        assert(self.entries@ =~= old_entries.update(
                            i as int,
                            self.entries@[i as int],
                        ));
                        assert(self@ =~= old(self)@.update(
                            i as int,
                            (old(self)@[i as int].0, (old(self)@[i as int].1 - 1) as u64),
                        ));
                    }
                    None
                }
            },
            None => {
                proof {
                    assert(self@ =~= old(self)@);
                }
                None
            },
        }
    }
}

} // verus!
