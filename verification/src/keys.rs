//! Key identifiers and the resolver from human-readable key names.
//!
//! A configured key is named either by a single character or by one of a
//! small fixed set of named keys. Names are matched case-insensitively by
//! ASCII folding. The identifiers here are the library's own model of a
//! key; the binary converts them to whatever the input-simulation and
//! input-capture services expect.

use vstd::prelude::*;

verus! {

/// A key the automation can press or match against.
#[derive(Clone, Copy, PartialEq, Eq, Structural, Debug)]
pub enum KeyId {
    /// A single printable character.
    Char(char),
    Home,
    End,
    PageUp,
    PageDown,
    Delete,
}

/// ASCII-lowercases one character; all other characters are unchanged.
pub open spec fn spec_fold_char(c: char) -> char {
    match c {
        'A' => 'a',
        'B' => 'b',
        'C' => 'c',
        'D' => 'd',
        'E' => 'e',
        'F' => 'f',
        'G' => 'g',
        'H' => 'h',
        'I' => 'i',
        'J' => 'j',
        'K' => 'k',
        'L' => 'l',
        'M' => 'm',
        'N' => 'n',
        'O' => 'o',
        'P' => 'p',
        'Q' => 'q',
        'R' => 'r',
        'S' => 's',
        'T' => 't',
        'U' => 'u',
        'V' => 'v',
        'W' => 'w',
        'X' => 'x',
        'Y' => 'y',
        'Z' => 'z',
        _ => c,
    }
}

/// ASCII-lowercases a whole name, character by character.
pub open spec fn spec_fold(s: Seq<char>) -> Seq<char> {
    s.map(|i: int, c: char| spec_fold_char(c))
}

/// The key named by an already-folded name: a single character names
/// itself, a few fixed words name special keys, and everything else is
/// unresolvable.
pub open spec fn spec_resolve_folded(s: Seq<char>) -> Option<KeyId> {
    if s.len() == 1 {
        Some(KeyId::Char(s[0]))
    } else if s == "home"@ {
        Some(KeyId::Home)
    } else if s == "end"@ {
        Some(KeyId::End)
    } else if s == "pageup"@ {
        Some(KeyId::PageUp)
    } else if s == "pagedown"@ {
        Some(KeyId::PageDown)
    } else if s == "delete"@ {
        Some(KeyId::Delete)
    } else {
        None
    }
}

/// The key named by a raw, unfolded name.
pub open spec fn spec_resolve(name: Seq<char>) -> Option<KeyId> {
    spec_resolve_folded(spec_fold(name))
}

fn fold_char(c: char) -> (r: char)
    ensures
        r == spec_fold_char(c),
{
    match c {
        'A' => 'a',
        'B' => 'b',
        'C' => 'c',
        'D' => 'd',
        'E' => 'e',
        'F' => 'f',
        'G' => 'g',
        'H' => 'h',
        'I' => 'i',
        'J' => 'j',
        'K' => 'k',
        'L' => 'l',
        'M' => 'm',
        'N' => 'n',
        'O' => 'o',
        'P' => 'p',
        'Q' => 'q',
        'R' => 'r',
        'S' => 's',
        'T' => 't',
        'U' => 'u',
        'V' => 'v',
        'W' => 'w',
        'X' => 'x',
        'Y' => 'y',
        'Z' => 'z',
        _ => c,
    }
}

/// Character-for-character comparison of a collected name against a word.
fn eq_chars_str(v: &Vec<char>, w: &str) -> (r: bool)
    ensures
        r == (v@ == w@),
{
    let n = w.unicode_len();
    if v.len() != n {
        proof {
            assert(v@.len() != w@.len());
        }
        return false;
    }
    let mut i: usize = 0;
    while i < n
        invariant
            i <= n,
            v@.len() == n,
            w@.len() == n,
            forall|k: int| 0 <= k < i ==> v@[k] == w@[k],
        decreases n - i,
    {
        if v[i] != w.get_char(i) {
            return false;
        }
        i += 1;
    }
    proof {
        assert(v@ =~= w@);
    }
    true
}

/// Resolves a human-readable key name, matched case-insensitively by ASCII
/// folding, to the key it names; `None` for unknown names.
pub fn resolve_key(name: &str) -> (r: Option<KeyId>)
    ensures
        r == spec_resolve(name@),
{
    let n = name.unicode_len();
    let mut folded: Vec<char> = Vec::new();
    let mut i: usize = 0;
    while i < n
        invariant
            i <= n,
            n == name@.len(),
            folded@ == spec_fold(name@).take(i as int),
        decreases n - i,
    {
        folded.push(fold_char(name.get_char(i)));
        proof {
            assert(folded@ =~= spec_fold(name@).take(i + 1));
        }
        i += 1;
    }
    proof {
        assert(folded@ =~= spec_fold(name@));
    }
    if folded.len() == 1 {
        Some(KeyId::Char(folded[0]))
    } else if eq_chars_str(&folded, "home") {
        Some(KeyId::Home)
    } else if eq_chars_str(&folded, "end") {
        Some(KeyId::End)
    } else if eq_chars_str(&folded, "pageup") {
        Some(KeyId::PageUp)
    } else if eq_chars_str(&folded, "pagedown") {
        Some(KeyId::PageDown)
    } else if eq_chars_str(&folded, "delete") {
        Some(KeyId::Delete)
    } else {
        None
    }
}

} // verus!
