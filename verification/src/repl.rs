//! The code the REPL hands its evaluator: an expression wrapped so that a
//! `Note`, or an iterator of notes bound to a fresh variable, comes back as
//! JSON.

use vstd::prelude::*;
use crate::text::{push_char, push_str, to_owned_string};

verus! {

/// The characters of generated identifier suffixes.
pub open spec fn suffix_alphabet() -> Seq<char> {
    "abcdefghijklmnopqrstuvwxyzABCDEFGHIJKLMNOPQRSTUVWXYZ0123456789"@
}

/// Sixteen characters of the suffix alphabet.
pub open spec fn is_suffix(s: Seq<char>) -> bool {
    &&& s.len() == 16
    &&& forall|i: int| 0 <= i < 16 ==> suffix_alphabet().contains(#[trigger] s[i])
}

/// `rand::Rng::random_range(&mut rand::rng(), 0..n)`: a uniformly drawn
/// index below `n`. Which one is left unsaid: it comes from the thread's
/// random generator.
#[verifier::external_body]
fn random_below(n: usize) -> (r: usize)
    requires
        n > 0,
    ensures
        r < n,
{
    rand::Rng::random_range(&mut rand::rng(), 0..n)
}

/// A random identifier suffix: 16 characters drawn from `a-z`, `A-Z` and
/// `0-9`.
pub fn unique_suffix() -> (r: String)
    ensures
        is_suffix(r@),
{
    let chars: [char; 62] = [
        'a', 'b', 'c', 'd', 'e', 'f', 'g', 'h', 'i', 'j', 'k', 'l', 'm', 'n', 'o', 'p', 'q', 'r',
        's', 't', 'u', 'v', 'w', 'x', 'y', 'z', 'A', 'B', 'C', 'D', 'E', 'F', 'G', 'H', 'I', 'J',
        'K', 'L', 'M', 'N', 'O', 'P', 'Q', 'R', 'S', 'T', 'U', 'V', 'W', 'X', 'Y', 'Z', '0', '1',
        '2', '3', '4', '5', '6', '7', '8', '9',
    ];
    proof {
        reveal_strlit("abcdefghijklmnopqrstuvwxyzABCDEFGHIJKLMNOPQRSTUVWXYZ0123456789");
        assert(chars@ =~= suffix_alphabet());
    }
    let mut s = String::new();
    let mut i: usize = 0;
    while i < 16
        invariant
            i <= 16,
            chars@ == suffix_alphabet(),
            s@.len() == i,
            forall|k: int| 0 <= k < i ==> suffix_alphabet().contains(#[trigger] s@[k]),
        decreases 16 - i,
    {
        let k = random_below(62);
        let c = chars[k];
        assert(suffix_alphabet()[k as int] == c);
        push_char(&mut s, c);
        i = i + 1;
    }
    s
}

/// The code that evaluates `expr` as a `Note` bound to `__note_<suffix>`
/// and returns it serialised as JSON.
pub open spec fn note_wrapper(expr: Seq<char>, suffix: Seq<char>) -> Seq<char> {
    "{\n            let __note_"@ + suffix + ": Note = { "@ + expr
        + " };\n            serde_json::to_string(&__note_"@ + suffix + ").unwrap()\n        }"@
}

/// The code that binds the iterator `expr` to `__iter_<suffix>` and
/// returns that name as JSON.
pub open spec fn iter_wrapper(expr: Seq<char>, suffix: Seq<char>) -> Seq<char> {
    "{\n            let result = { "@ + expr + " };\n            let mut __iter_"@ + suffix
        + ": Box<dyn Iterator<Item = Note> + Send + Sync + 'static> =\n                Box::new(result);\n            serde_json::to_string(\"__iter_"@
        + suffix + "\").unwrap()\n        }"@
}

/// `note_wrapper` for a given suffix.
pub fn wrap_note_with(expr: &str, suffix: &str) -> (r: String)
    ensures
        r@ == note_wrapper(expr@, suffix@),
{
    let mut w = to_owned_string("{\n            let __note_");
    push_str(&mut w, suffix);
    push_str(&mut w, ": Note = { ");
    push_str(&mut w, expr);
    push_str(&mut w, " };\n            serde_json::to_string(&__note_");
    push_str(&mut w, suffix);
    push_str(&mut w, ").unwrap()\n        }");
    w
}

/// `iter_wrapper` for a given suffix.
pub fn wrap_iter_with(expr: &str, suffix: &str) -> (r: String)
    ensures
        r@ == iter_wrapper(expr@, suffix@),
{
    let mut w = to_owned_string("{\n            let result = { ");
    push_str(&mut w, expr);
    push_str(&mut w, " };\n            let mut __iter_");
    push_str(&mut w, suffix);
    push_str(&mut w, ": Box<dyn Iterator<Item = Note> + Send + Sync + 'static> =\n                Box::new(result);\n            serde_json::to_string(\"__iter_");
    push_str(&mut w, suffix);
    push_str(&mut w, "\").unwrap()\n        }");
    w
}

/// Wrap an expression so a `Note` result comes back as JSON, under a fresh
/// random variable name.
pub fn wrap_note(expr: &str) -> (r: String)
    ensures
        exists|s: Seq<char>| is_suffix(s) && r@ == note_wrapper(expr@, s),
{
    let s = unique_suffix();
    wrap_note_with(expr, s.as_str())
}

/// Wrap an expression so an `Iterator<Item=Note>` result binds to a fresh
/// variable whose name comes back as JSON.
pub fn wrap_iter(expr: &str) -> (r: String)
    ensures
        exists|s: Seq<char>| is_suffix(s) && r@ == iter_wrapper(expr@, s),
{
    let s = unique_suffix();
    wrap_iter_with(expr, s.as_str())
}

} // verus!
