use vstd::prelude::*;
use crate::text::str_eq;

verus! {

/// A JSON document, as handed to the decoder. Numbers keep their textual
/// form, so that integers of any size pass through exactly.
#[derive(Debug)]
pub enum JsonValue {
    Null,
    Bool(bool),
    /// The number's decimal text, exactly as received.
    Num(String),
    Str(String),
    Arr(Vec<JsonValue>),
    Obj(Vec<(String, JsonValue)>),
}

/// The value under the first occurrence of a key in an object's entries.
pub open spec fn lookup(entries: Seq<(String, JsonValue)>, key: Seq<char>) -> Option<JsonValue>
    decreases entries.len(),
{
    if entries.len() == 0 {
        None
    } else if entries.first().0@ == key {
        Some(entries.first().1)
    } else {
        lookup(entries.drop_first(), key)
    }
}

/// Removing the first entry under one key leaves every other key's first
/// value in place.
proof fn lemma_lookup_remove(s: Seq<(String, JsonValue)>, j: int, key: Seq<char>)
    requires
        0 <= j < s.len(),
        s[j].0@ == key,
        forall|i: int| 0 <= i < j ==> (#[trigger] s[i]).0@ != key,
    ensures
        lookup(s, key) == Some(s[j].1),
        forall|k2: Seq<char>| k2 != key ==> lookup(s.remove(j), k2) == lookup(s, k2),
    decreases j,
{
    if j == 0 {
        assert(s.remove(0) =~= s.drop_first());
        assert forall|k2: Seq<char>| k2 != key implies lookup(s.remove(0), k2) == lookup(
            s,
            k2,
        ) by {
            assert(s.first().0@ == key);
        }
    } else {
        let t = s.drop_first();
        assert(forall|i: int| 0 <= i < j - 1 ==> (#[trigger] t[i]).0@ != key);
        assert(t[j - 1] == s[j]);
        lemma_lookup_remove(t, j - 1, key);
        assert(s.first().0@ != key);
        assert(lookup(s, key) == lookup(t, key));
        assert(s.remove(j).first() == s.first());
        assert(s.remove(j).drop_first() =~= t.remove(j - 1));
        assert forall|k2: Seq<char>| k2 != key implies lookup(s.remove(j), k2) == lookup(
            s,
            k2,
        ) by {
            if s.remove(j).first().0@ == k2 {
            } else {
                assert(lookup(s.remove(j), k2) == lookup(t.remove(j - 1), k2));
                assert(lookup(s, k2) == lookup(t, k2));
            }
        }
    }
}

/// Takes the first entry under the given key out of the entries, returning
/// its value; every other key is left untouched.
pub fn take_field(entries: &mut Vec<(String, JsonValue)>, key: &str) -> (r: Option<JsonValue>)
    ensures
        r == lookup(old(entries)@, key@),
        forall|k2: Seq<char>|
            k2 != key@ ==> #[trigger] lookup(final(entries)@, k2) == lookup(old(entries)@, k2),
{
    let ghost orig = entries@;
    let mut j: usize = 0;
    while j < entries.len()
        invariant
            j <= entries.len(),
            entries@ == orig,
            orig == old(entries)@,
            forall|i: int| 0 <= i < j ==> (#[trigger] orig[i]).0@ != key@,
        decreases entries.len() - j,
    {
        if str_eq(entries[j].0.as_str(), key) {
            proof {
                lemma_lookup_remove(orig, j as int, key@);
            }
            let entry = entries.remove(j);
            return Some(entry.1);
        }
        j += 1;
    }
    proof {
        lemma_lookup_absent(orig, key@);
    }
    None
}

/// A key under no entry looks up to nothing.
proof fn lemma_lookup_absent(s: Seq<(String, JsonValue)>, key: Seq<char>)
    requires
        forall|i: int| 0 <= i < s.len() ==> (#[trigger] s[i]).0@ != key,
    ensures
        lookup(s, key) is None,
    decreases s.len(),
{
    if s.len() > 0 {
        lemma_lookup_absent(s.drop_first(), key);
    }
}

} // verus!
