//! Module-versus-script classification.
//!
//! Given raw source text, decide whether the unit must be compiled as a
//! module (participating in `import`/`export` linkage) or as a plain
//! top-level script. The decision is a conservative textual heuristic, not a
//! parse: the literal token `import ` or `export ` counts as a module marker
//! when it stands at the very start of the text or immediately after a
//! statement boundary. An occurrence inside a string literal or a comment is
//! deliberately still taken as a marker; that permissiveness bias is part of
//! the contract.

use vstd::prelude::*;

verus! {

/// A statement boundary for the purposes of the module heuristic: a space, a
/// newline, a tab, or a semicolon.
pub open spec fn is_stmt_boundary(c: char) -> bool {
    c == ' ' || c == '\n' || c == '\t' || c == ';'
}

/// The token `import ` (with its trailing space) starts at position `i`.
pub open spec fn import_at(s: Seq<char>, i: int) -> bool {
    &&& 0 <= i
    &&& i + 7 <= s.len()
    &&& s[i] == 'i'
    &&& s[i + 1] == 'm'
    &&& s[i + 2] == 'p'
    &&& s[i + 3] == 'o'
    &&& s[i + 4] == 'r'
    &&& s[i + 5] == 't'
    &&& s[i + 6] == ' '
}

/// The token `export ` (with its trailing space) starts at position `i`.
pub open spec fn export_at(s: Seq<char>, i: int) -> bool {
    &&& 0 <= i
    &&& i + 7 <= s.len()
    &&& s[i] == 'e'
    &&& s[i + 1] == 'x'
    &&& s[i + 2] == 'p'
    &&& s[i + 3] == 'o'
    &&& s[i + 4] == 'r'
    &&& s[i + 5] == 't'
    &&& s[i + 6] == ' '
}

/// A module marker: `import ` or `export ` standing at the very start of the
/// text or immediately after a statement boundary.
pub open spec fn marker_at(s: Seq<char>, i: int) -> bool {
    &&& import_at(s, i) || export_at(s, i)
    &&& i == 0 || is_stmt_boundary(s[i - 1])
}

/// The module heuristic: the text is framed as a module exactly when some
/// position holds a module marker.
pub open spec fn spec_is_module(s: Seq<char>) -> bool {
    exists|i: int| marker_at(s, i)
}

/// Decides module-versus-script framing for a unit of raw source text.
pub fn is_module(code: &str) -> (r: bool)
    ensures
        r == spec_is_module(code@),
{
    let n: usize = code.unicode_len();
    if n < 7 {
        proof {
            assert forall|k: int| !marker_at(code@, k) by {
                assert(code@.len() < 7);
            }
        }
        return false;
    }
    let mut i: usize = 0;
    while i <= n - 7
        invariant
            n >= 7,
            n == code@.len(),
            i <= n,
            forall|k: int| 0 <= k < i ==> !marker_at(code@, k),
        decreases n - i,
    {
        let boundary_ok: bool = if i == 0 {
            true
        } else {
            let b = code.get_char(i - 1);
            b == ' ' || b == '\n' || b == '\t' || b == ';'
        };
        if boundary_ok {
            let c0 = code.get_char(i);
            if c0 == 'i' || c0 == 'e' {
                let tail_matches: bool = if c0 == 'i' {
                    code.get_char(i + 1) == 'm' && code.get_char(i + 2) == 'p' && code.get_char(
                        i + 3,
                    ) == 'o' && code.get_char(i + 4) == 'r' && code.get_char(i + 5) == 't'
                        && code.get_char(i + 6) == ' '
                } else {
                    code.get_char(i + 1) == 'x' && code.get_char(i + 2) == 'p' && code.get_char(
                        i + 3,
                    ) == 'o' && code.get_char(i + 4) == 'r' && code.get_char(i + 5) == 't'
                        && code.get_char(i + 6) == ' '
                };
                if tail_matches {
                    proof {
                        assert(marker_at(code@, i as int));
                    }
                    return true;
                }
            }
        }
        i = i + 1;
    }
    proof {
        assert forall|k: int| !marker_at(code@, k) by {
            if 0 <= k < i {
            } else if k >= i {
                assert(k + 7 > n);
            }
        }
    }
    false
}

/// Law: a text that starts with `import ` or `export `, or that holds either
/// token immediately after a space, a newline, a tab or a semicolon,
/// classifies as a module.
pub proof fn lemma_marker_classifies_module(s: Seq<char>, i: int)
    requires
        0 <= i,
        i + 7 <= s.len(),
        i == 0 || is_stmt_boundary(s[i - 1]),
        s.subrange(i, i + 7) == "import "@ || s.subrange(i, i + 7) == "export "@,
    ensures
        spec_is_module(s),
{
    reveal_strlit("import ");
    reveal_strlit("export ");
    let w = s.subrange(i, i + 7);
    assert(s[i] == w[0]);
    assert(s[i + 1] == w[1]);
    assert(s[i + 2] == w[2]);
    assert(s[i + 3] == w[3]);
    assert(s[i + 4] == w[4]);
    assert(s[i + 5] == w[5]);
    assert(s[i + 6] == w[6]);
    assert(marker_at(s, i));
}

} // verus!
