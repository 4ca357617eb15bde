//! Text normalization: the deterministic cleaning pass every request goes
//! through before it reaches a backend, and the boundary-marker wrapping.
//! Lower-casing is Unicode-wide and delegated to the standard library; the
//! collapse of punctuation and whitespace into single-space word boundaries
//! is verified here.

use vstd::prelude::*;
use vstd::string::StrSliceExecFns;
use vstd::string::StringExecFns;
use crate::text::is_sep;
use crate::text::is_sep_char;
use crate::text::lower_of;
use crate::text::lowercase;
use crate::text::push_char;

verus! {

/// The collapse of a text: every punctuation or whitespace run turned into
/// one single space, trimmed at both ends.
///
/// Reading the recursion right to left: separators at the end of the input
/// contribute nothing; a word character is appended, preceded by one space
/// exactly when output already exists and the character right before it was
/// a separator.
pub open spec fn collapse_of(s: Seq<char>) -> Seq<char>
    decreases s.len(),
{
    if s.len() == 0 {
        Seq::empty()
    } else {
        let prefix = s.drop_last();
        let c = s.last();
        let b = collapse_of(prefix);
        if is_sep_char(c) {
            b
        } else if b.len() == 0 {
            seq![c]
        } else if is_sep_char(prefix.last()) {
            b + seq![' ', c]
        } else {
            b + seq![c]
        }
    }
}

/// The normalized body of a raw text: its Unicode lower-casing, collapsed.
pub open spec fn body_of(s: Seq<char>) -> Seq<char> {
    collapse_of(lower_of(s))
}

/// The full normalized form: the body wrapped in the two literal
/// sequence-boundary markers the backends may rely on.
pub open spec fn normalized(s: Seq<char>) -> Seq<char> {
    "[BEGIN] "@ + body_of(s) + " [END]"@
}

/// The text normalizer. It holds no state: normalization is a pure function
/// of the input text.
pub struct Preprocessor {}

impl Preprocessor {
    pub fn new() -> (r: Preprocessor) {
        Preprocessor {}
    }

    /// Turns punctuation into spaces, collapses whitespace runs into single
    /// spaces, and trims both ends. Takes text that is already lower-cased;
    /// the collapse itself never changes a word character.
    pub fn collapse(&self, text: &str) -> (r: String)
        ensures
            r@ == collapse_of(text@),
    {
        let n = text.unicode_len();
        let mut r = String::new();
        let mut i: usize = 0;
        let mut prev_sep = false;
        while i < n
            invariant
                n == text@.len(),
                i <= n,
                r@ == collapse_of(text@.take(i as int)),
                0 < i ==> prev_sep == is_sep_char(text@[i - 1]),
            decreases n - i,
        {
            let c = text.get_char(i);
            proof {
                assert(text@.take(i + 1).drop_last() =~= text@.take(i as int));
                assert(text@.take(i + 1).last() == text@[i as int]);
            }
            if is_sep(c) {
                // a separator adds nothing by itself
            } else if r.as_str().is_empty() {
                push_char(&mut r, c);
                assert(r@ =~= collapse_of(text@.take(i + 1)));
            } else {
                proof {
                    // output exists, so the consumed prefix is not empty
                    assert(text@.take(i as int).len() > 0);
                    assert(text@.take(i as int).last() == text@[i - 1]);
                }
                if prev_sep {
                    push_char(&mut r, ' ');
                    push_char(&mut r, c);
                    assert(r@ =~= collapse_of(text@.take(i + 1)));
                } else {
                    push_char(&mut r, c);
                    assert(r@ =~= collapse_of(text@.take(i + 1)));
                }
            }
            prev_sep = is_sep(c);
            i = i + 1;
        }
        proof {
            assert(text@.take(n as int) =~= text@);
        }
        r
    }

    /// Lower-cases the text, turns punctuation into spaces, collapses
    /// whitespace runs, and trims both ends.
    pub fn normalize_text(&self, text: &str) -> (r: String)
        ensures
            r@ == body_of(text@),
    {
        let lowered = lowercase(text);
        self.collapse(lowered.as_str())
    }

    /// Wraps an already-clean body in the literal sequence-boundary markers.
    pub fn tokenize(&self, text: &str) -> (r: String)
        ensures
            r@ == "[BEGIN] "@ + text@ + " [END]"@,
    {
        let mut r = String::from_str("[BEGIN] ");
        r.append(text);
        r.append(" [END]");
        r
    }

    /// Normalizes raw text into the one form ever handed to a backend.
    /// Total: empty or whitespace-only input yields an empty body, still
    /// wrapped in the boundary markers.
    pub fn process(&self, text: &str) -> (r: String)
        ensures
            r@ == normalized(text@),
    {
        let cleaned = self.normalize_text(text);
        self.tokenize(cleaned.as_str())
    }
}

/// A character that may stand in a collapsed body: a single space, or a word
/// character.
spec fn body_char(c: char) -> bool {
    c == ' ' || !is_sep_char(c)
}

/// The shape of any prefix of a collapsed body: only body characters, no
/// leading space, and no two spaces in a row. (A strict prefix may still end
/// in a space; a whole body never does.)
spec fn body_shaped_prefix(b: Seq<char>) -> bool {
    &&& forall|i: int| 0 <= i < b.len() ==> body_char(#[trigger] b[i])
    &&& b.len() > 0 ==> b[0] != ' '
    &&& forall|i: int| #![trigger b[i]] 0 <= i < b.len() - 1 ==> !(b[i] == ' ' && b[i + 1] == ' ')
}

/// The shape of a whole collapsed body: additionally trimmed at the end.
spec fn body_shaped(b: Seq<char>) -> bool {
    body_shaped_prefix(b) && (b.len() > 0 ==> b.last() != ' ')
}

/// Every collapsed body has the body shape.
proof fn lemma_collapse_of_shaped(s: Seq<char>)
    ensures
        body_shaped(collapse_of(s)),
    decreases s.len(),
{
    if s.len() == 0 {
    } else {
        let prefix = s.drop_last();
        let c = s.last();
        let b = collapse_of(prefix);
        lemma_collapse_of_shaped(prefix);
        if is_sep_char(c) {
        } else {
            if b.len() == 0 {
                assert(body_shaped(seq![c]));
            } else if is_sep_char(prefix.last()) {
                let b2 = b + seq![' ', c];
                assert forall|i: int| 0 <= i < b2.len() implies body_char(#[trigger] b2[i]) by {
                    if i < b.len() {
                        assert(b2[i] == b[i]);
                    }
                }
                assert forall|i: int| #![trigger b2[i]] 0 <= i < b2.len() - 1 implies !(b2[i] == ' '
                    && b2[i + 1] == ' ') by {
                    if i < b.len() - 1 {
                        assert(b2[i] == b[i] && b2[i + 1] == b[i + 1]);
                    } else if i == b.len() - 1 {
                        assert(b2[i] == b.last() && b.last() != ' ');
                    } else {
                        assert(b2[i + 1] == c && c != ' ');
                    }
                }
                assert(body_shaped(b2));
            } else {
                let b2 = b + seq![c];
                assert forall|i: int| 0 <= i < b2.len() implies body_char(#[trigger] b2[i]) by {
                    if i < b.len() {
                        assert(b2[i] == b[i]);
                    }
                }
                assert forall|i: int| #![trigger b2[i]] 0 <= i < b2.len() - 1 implies !(b2[i] == ' '
                    && b2[i + 1] == ' ') by {
                    if i < b.len() - 1 {
                        assert(b2[i] == b[i] && b2[i + 1] == b[i + 1]);
                    } else {
                        assert(b2[i + 1] == c && c != ' ');
                    }
                }
                assert(body_shaped(b2));
            }
        }
    }
}

/// On a body-shaped prefix, the collapse only removes a trailing space; in
/// particular it is the identity on a whole body.
proof fn lemma_collapse_of_on_shaped_prefix(b: Seq<char>)
    requires
        body_shaped_prefix(b),
    ensures
        collapse_of(b) == if b.len() > 0 && b.last() == ' ' {
            b.drop_last()
        } else {
            b
        },
    decreases b.len(),
{
    if b.len() == 0 {
        assert(collapse_of(b) =~= b);
    } else {
        let p = b.drop_last();
        let c = b.last();
        assert(body_char(c));
        assert forall|i: int| 0 <= i < p.len() implies body_char(#[trigger] p[i]) by {
            assert(p[i] == b[i]);
        }
        assert forall|i: int| #![trigger p[i]] 0 <= i < p.len() - 1 implies !(p[i] == ' ' && p[i
            + 1] == ' ') by {
            assert(p[i] == b[i] && p[i + 1] == b[i + 1]);
        }
        assert(body_shaped_prefix(p));
        lemma_collapse_of_on_shaped_prefix(p);
        if c == ' ' {
            // a space is never first, so something precedes it, and it is not
            // a space either
            assert(b.len() >= 2);
            assert(p.last() == b[b.len() - 2]);
            assert(p.last() != ' ');
            assert(collapse_of(b) == collapse_of(p));
            assert(collapse_of(b) =~= b.drop_last());
        } else {
            assert(!is_sep_char(c));
            let bp = collapse_of(p);
            if p.len() == 0 {
                assert(bp.len() == 0);
                assert(collapse_of(b) =~= seq![c]);
                assert(collapse_of(b) =~= b);
            } else if p.last() == ' ' {
                assert(bp == p.drop_last());
                assert(p[0] == b[0] && p[0] != ' ');
                assert(p.len() >= 2);
                assert(bp.len() > 0);
                assert(is_sep_char(p.last()));
                assert(collapse_of(b) == bp + seq![' ', c]);
                assert(collapse_of(b) =~= b);
            } else {
                assert(bp == p);
                assert(body_char(p.last()) && !is_sep_char(p.last()));
                assert(collapse_of(b) == bp + seq![c]);
                assert(collapse_of(b) =~= b);
            }
        }
    }
}

/// The collapse settles in one pass: running it again on its own output
/// changes nothing further — no whitespace run, stray punctuation or
/// boundary space remains after the first pass.
pub proof fn lemma_collapse_idempotent(s: Seq<char>)
    ensures
        collapse_of(collapse_of(s)) == collapse_of(s),
{
    lemma_collapse_of_shaped(s);
    lemma_collapse_of_on_shaped_prefix(collapse_of(s));
}

} // verus!
