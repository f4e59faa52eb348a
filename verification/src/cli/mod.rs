//! Command-line front end: argument checks and the pure parts of each
//! command.

pub mod commands;

use vstd::prelude::*;
use crate::text::{
    chars_of, concat3, index_of_char, lemma_index_of_char, owned, string_of, trim_chars,
    trim_seq,
};

verus! {

/// How a `key=value` label reads: the text before the first `=` and the
/// text after it, each trimmed of whitespace.
pub open spec fn label_parts(s: Seq<char>) -> Option<(Seq<char>, Seq<char>)> {
    let k = index_of_char(s, '=');
    if k >= s.len() {
        None
    } else {
        Some((trim_seq(s.take(k as int)), trim_seq(s.skip(k as int + 1))))
    }
}

proof fn lemma_index_of_char_bound(s: Seq<char>, c: char)
    ensures
        index_of_char(s, c) <= s.len(),
        index_of_char(s, c) < s.len() ==> s[index_of_char(s, c) as int] == c,
        forall|j: int| 0 <= j < index_of_char(s, c) ==> s[j] != c,
    decreases s.len(),
{
    if s.len() > 0 && s[0] != c {
        lemma_index_of_char_bound(s.drop_first(), c);
        assert forall|j: int| 0 <= j < index_of_char(s, c) implies s[j] != c by {
            if j > 0 {
                assert(s[j] == s.drop_first()[j - 1]);
            }
        }
    }
}

/// Reads a `key=value` label: the key and the value are trimmed, the value
/// may itself hold `=`, and the key may not be empty.
pub fn parse_label(s: &str) -> (r: Result<(String, String), String>)
    ensures
        match label_parts(s@) {
            None => r matches Err(m) && m@ == "Invalid label format '"@ + s@ + "'. Expected 'key=value'"@,
            Some((k, v)) => if k.len() == 0 {
                r matches Err(m) && m@ == "Label key cannot be empty"@
            } else {
                r matches Ok((key, value)) && key@ == k && value@ == v
            },
        },
{
    let chars = chars_of(s);
    let mut i: usize = 0;
    while i < chars.len() && chars[i] != '='
        invariant
            i <= chars@.len(),
            chars@ == s@,
            forall|j: int| 0 <= j < i ==> chars@[j] != '=',
        decreases chars@.len() - i,
    {
        i = i + 1;
    }
    proof {
        lemma_index_of_char_bound(s@, '=');
        let k = index_of_char(s@, '=');
        if (k as int) < (i as int) {
            assert(chars@[k as int] == '=');
        }
        if (i as int) < (k as int) {
            assert(s@[i as int] != '=');
        }
        assert(k == i);
    }
    if i >= chars.len() {
        return Err(concat3("Invalid label format '", s, "'. Expected 'key=value'"));
    }
    let mut before: Vec<char> = Vec::new();
    let mut j: usize = 0;
    while j < i
        invariant
            j <= i < chars@.len(),
            before@ == chars@.take(j as int),
        decreases i - j,
    {
        before.push(chars[j]);
        proof {
            assert(before@ =~= chars@.take(j + 1));
        }
        j = j + 1;
    }
    let mut after: Vec<char> = Vec::new();
    let mut q: usize = i + 1;
    while q < chars.len()
        invariant
            i + 1 <= q <= chars@.len(),
            after@ == chars@.subrange(i + 1, q as int),
        decreases chars@.len() - q,
    {
        after.push(chars[q]);
        proof {
            assert(after@ =~= chars@.subrange(i + 1, q + 1));
        }
        q = q + 1;
    }
    proof {
        assert(chars@.subrange(i + 1, chars@.len() as int) =~= chars@.skip(i + 1));
    }
    let key = trim_chars(&before);
    let value = trim_chars(&after);
    if key.len() == 0 {
        return Err(owned("Label key cannot be empty"));
    }
    Ok((string_of(&key), string_of(&value)))
}


/// A label written as `key=value` reads back as that key and value, when
/// the key is not empty and holds no `=`, and neither has whitespace
/// around it.
pub proof fn lemma_label_round_trip(key: Seq<char>, value: Seq<char>)
    requires
        key.len() > 0,
        forall|j: int| 0 <= j < key.len() ==> key[j] != '=',
        trim_seq(key) == key,
        trim_seq(value) == value,
    ensures
        label_parts(key + seq!['='] + value) == Some((key, value)),
{
    let s = key + seq!['='] + value;
    assert forall|j: int| 0 <= j < key.len() implies s[j] != '=' by {
        assert(s[j] == key[j]);
    }
    assert(s[key.len() as int] == '=');
    lemma_index_of_char(s, '=', key.len() as int);
    assert(s.take(key.len() as int) =~= key);
    assert(s.skip(key.len() as int + 1) =~= value);
}
} // verus!
