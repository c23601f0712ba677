//! The admission filter: which modules may log.

use vstd::prelude::*;
use vstd::string::StringSliceAdditionalSpecFns;
use vstd::utf8::*;
use crate::encoding::{
    lemma_encoding_is_injective,
    lemma_encoding_of_concat,
    lemma_encoding_of_prefix,
    lemma_prefix_of_encoding,
    same_text,
};

verus! {

/// The token between the segments of a module path.
pub open spec fn separator() -> Seq<char> {
    seq![':', ':']
}

/// Whether the allowlist entry `entry` lets the module `target` through: the
/// target is the entry itself or lies below it, that is, it is the entry
/// followed by a separator and anything. Sharing a first few letters is not
/// enough.
pub open spec fn covers(entry: Seq<char>, target: Seq<char>) -> bool {
    target == entry || (entry + separator()).is_prefix_of(target)
}

/// Whether some entry of `allowlist` covers `target`.
pub open spec fn allowed_by(allowlist: Set<Seq<char>>, target: Seq<char>) -> bool {
    exists|entry: Seq<char>| allowlist.contains(entry) && #[trigger] covers(entry, target)
}

/// The texts of a list of strings, as a set.
pub open spec fn texts_of(entries: Seq<String>) -> Set<Seq<char>> {
    Set::new(|text: Seq<char>| exists|i: int| 0 <= i < entries.len() && #[trigger] entries[i]@ == text)
}

/// With a single entry, a target is allowed exactly if it is that entry or
/// starts with the entry and a separator.
pub proof fn lemma_single_entry(entry: Seq<char>, target: Seq<char>)
    ensures
        allowed_by(set![entry], target) <==> (target == entry || (entry + seq![':', ':']).is_prefix_of(
            target,
        )),
{
    if covers(entry, target) {
        assert(set![entry].contains(entry));
    }
}

/// Nothing passes an empty allowlist.
pub proof fn lemma_empty_allowlist(target: Seq<char>)
    ensures
        !allowed_by(Set::empty(), target),
{
}

/// A target that is shorter than an entry is not covered by it.
pub proof fn lemma_shorter_target(entry: Seq<char>, target: Seq<char>)
    requires
        target.len() < entry.len(),
    ensures
        !covers(entry, target),
{
}

/// A larger allowlist allows whatever a smaller one allows: adding entries
/// never turns away a target that was let through.
pub proof fn lemma_larger_allowlist_allows_more(
    smaller: Set<Seq<char>>,
    larger: Set<Seq<char>>,
    target: Seq<char>,
)
    requires
        smaller.subset_of(larger),
        allowed_by(smaller, target),
    ensures
        allowed_by(larger, target),
{
    let entry = choose|entry: Seq<char>| smaller.contains(entry) && #[trigger] covers(entry, target);
    assert(larger.contains(entry));
}

/// Allowing a module twice is allowing it once, and so for disallowing.
pub proof fn lemma_allowlist_changes_are_idempotent(allowlist: Set<Seq<char>>, module: Seq<char>)
    ensures
        allowlist.insert(module).insert(module) == allowlist.insert(module),
        allowlist.remove(module).remove(module) == allowlist.remove(module),
{
}

/// Whether the entry `entry` covers the module `target`.
pub fn entry_covers(entry: &str, target: &str) -> (r: bool)
    ensures
        r == covers(entry@, target@),
{
    let e = entry.as_bytes();
    let t = target.as_bytes();
    let n: usize = e.len();
    proof {
        let mark = separator();
        is_ascii_chars_encode_utf8(mark);
        lemma_encoding_of_concat(entry@, mark);
        if (entry@ + mark).is_prefix_of(target@) {
            lemma_encoding_of_prefix(entry@ + mark, target@);
        }
        if (e@ + seq![58u8, 58u8]).is_prefix_of(t@) {
            lemma_prefix_of_encoding(entry@ + mark, target@);
        }
    }
    if t.len() < n {
        return false;
    }
    let mut i: usize = 0;
    while i < n
        invariant
            i <= n,
            n == e@.len(),
            n <= t@.len(),
            e@ == encode_utf8(entry@),
            t@ == encode_utf8(target@),
            (entry@ + separator()).is_prefix_of(target@) <==> (e@ + seq![58u8, 58u8]).is_prefix_of(t@),
            forall|j: int| 0 <= j < i ==> e@[j] == t@[j],
        decreases n - i,
    {
        if e[i] != t[i] {
            proof {
                if (e@ + seq![58u8, 58u8]).is_prefix_of(t@) {
                    assert((e@ + seq![58u8, 58u8])[i as int] == t@.subrange(0, n + 2)[i as int]);
                }
            }
            return false;
        }
        i = i + 1;
    }
    if t.len() == n {
        proof {
            assert(e@ =~= t@);
            lemma_encoding_is_injective(entry@, target@);
        }
        return true;
    }
    let found = t.len() - n >= 2 && t[n] == 58u8 && t[n + 1] == 58u8;
    proof {
        let head = e@ + seq![58u8, 58u8];
        if !found && head.is_prefix_of(t@) {
            assert(head[n as int] == t@.subrange(0, n + 2)[n as int]);
            assert(head[n + 1] == t@.subrange(0, n + 2)[n + 1]);
        }
    }
    found
}

/// Whether no text occurs twice in a list of strings.
pub open spec fn distinct_texts(entries: Seq<String>) -> bool {
    forall|i: int, j: int|
        0 <= i < j < entries.len() ==> (#[trigger] entries[i])@ != (#[trigger] entries[j])@
}

/// The set of module paths that may log. A module may log if it is in the
/// set or lies below a module that is. The entries are kept in a list in
/// which no path occurs twice.
#[derive(Debug)]
pub struct AdmissionFilter {
    entries: Vec<String>,
}

impl View for AdmissionFilter {
    type V = Set<Seq<char>>;

    closed spec fn view(&self) -> Set<Seq<char>> {
        texts_of(self.entries@)
    }
}

impl AdmissionFilter {
    #[verifier::type_invariant]
    spec fn no_entry_twice(self) -> bool {
        distinct_texts(self.entries@)
    }

    /// A filter that lets nothing through.
    pub fn new() -> (r: AdmissionFilter)
        ensures
            r@ == Set::<Seq<char>>::empty(),
    {
        AdmissionFilter { entries: Vec::new() }
    }

    /// The number of entries on the allowlist.
    pub fn len(&self) -> (r: usize)
        ensures
            r == self@.len(),
            self@.finite(),
    {
        proof {
            use_type_invariant(self);
            lemma_texts_of_distinct(self.entries@);
        }
        self.entries.len()
    }

    /// The place of `module` in the list, if it is an entry.
    fn position(&self, module: &str) -> (r: Option<usize>)
        ensures
            r is Some <==> self@.contains(module@),
            r matches Some(i) ==> i < self.entries@.len() && self.entries@[i as int]@ == module@,
    {
        let mut i: usize = 0;
        while i < self.entries.len()
            invariant
                i <= self.entries@.len(),
                forall|j: int| 0 <= j < i ==> (#[trigger] self.entries@[j])@ != module@,
            decreases self.entries@.len() - i,
        {
            if same_text(self.entries[i].as_str(), module) {
                return Some(i);
            }
            i = i + 1;
        }
        None
    }

    /// Whether `module` itself is an entry of the allowlist.
    pub fn contains(&self, module: &str) -> (r: bool)
        ensures
            r == self@.contains(module@),
    {
        self.position(module).is_some()
    }

    /// Puts `module` on the allowlist. Allowing a module twice is the same as
    /// allowing it once.
    pub fn allow(&mut self, module: &str)
        ensures
            final(self)@ == old(self)@.insert(module@),
    {
        proof {
            use_type_invariant(&*self);
        }
        if self.position(module).is_none() {
            let ghost before = self.entries@;
            let mut entries: Vec<String> = Vec::new();
            core::mem::swap(&mut self.entries, &mut entries);
            entries.push(module.to_owned());
            proof {
                lemma_texts_of_push(before, entries@[before.len() as int]);
            }
            core::mem::swap(&mut self.entries, &mut entries);
        }
    }

    /// Takes `module` off the allowlist. Modules that were allowed on their
    /// own stay allowed; taking off a module that is not on the list changes
    /// nothing.
    pub fn disallow(&mut self, module: &str)
        ensures
            final(self)@ == old(self)@.remove(module@),
    {
        proof {
            use_type_invariant(&*self);
        }
        if let Some(i) = self.position(module) {
            let ghost before = self.entries@;
            let mut entries: Vec<String> = Vec::new();
            core::mem::swap(&mut self.entries, &mut entries);
            entries.remove(i);
            proof {
                lemma_texts_of_remove(before, i as int);
            }
            core::mem::swap(&mut self.entries, &mut entries);
        }
    }

    /// Whether the module `target` may log: it is on the allowlist, or a
    /// module above it is.
    pub fn is_allowed(&self, target: &str) -> (r: bool)
        ensures
            r == allowed_by(self@, target@),
    {
        let mut i: usize = 0;
        while i < self.entries.len()
            invariant
                i <= self.entries@.len(),
                forall|j: int| 0 <= j < i ==> !covers((#[trigger] self.entries@[j])@, target@),
            decreases self.entries@.len() - i,
        {
            if entry_covers(self.entries[i].as_str(), target) {
                return true;
            }
            i = i + 1;
        }
        false
    }
}

/// Appending a text that the list does not hold adds it to the set of texts
/// and keeps the list free of repetitions.
proof fn lemma_texts_of_push(entries: Seq<String>, entry: String)
    requires
        distinct_texts(entries),
        !texts_of(entries).contains(entry@),
    ensures
        distinct_texts(entries.push(entry)),
        texts_of(entries.push(entry)) == texts_of(entries).insert(entry@),
{
    let after = entries.push(entry);
    assert forall|text: Seq<char>|
        texts_of(entries).insert(entry@).contains(text) implies texts_of(after).contains(text) by {
        if text == entry@ {
            assert(after[entries.len() as int]@ == text);
        } else {
            let i = choose|i: int| 0 <= i < entries.len() && #[trigger] entries[i]@ == text;
            assert(after[i]@ == text);
        }
    }
}

/// Taking one entry out of a list without repetitions takes its text out of
/// the set of texts and keeps the list free of repetitions.
proof fn lemma_texts_of_remove(entries: Seq<String>, at: int)
    requires
        distinct_texts(entries),
        0 <= at < entries.len(),
    ensures
        distinct_texts(entries.remove(at)),
        texts_of(entries.remove(at)) == texts_of(entries).remove(entries[at]@),
{
    let after = entries.remove(at);
    assert forall|text: Seq<char>|
        texts_of(entries).remove(entries[at]@).contains(text) implies texts_of(after).contains(
        text,
    ) by {
        let k = choose|k: int| 0 <= k < entries.len() && #[trigger] entries[k]@ == text;
        if k < at {
            assert(after[k]@ == text);
        } else {
            assert(after[k - 1]@ == text);
        }
    }
}

/// A list without repetitions has as many entries as it has texts.
proof fn lemma_texts_of_distinct(entries: Seq<String>)
    requires
        distinct_texts(entries),
    ensures
        texts_of(entries).finite(),
        texts_of(entries).len() == entries.len(),
    decreases entries.len(),
{
    if entries.len() == 0 {
        assert(texts_of(entries) =~= Set::<Seq<char>>::empty());
    } else {
        let last = entries.len() - 1;
        let rest = entries.remove(last);
        lemma_texts_of_remove(entries, last);
        lemma_texts_of_distinct(rest);
    }
}

} // verus!
