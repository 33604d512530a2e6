//! Which text is safe to hand to a shell command, and how safe parts make safe wholes.
use vstd::prelude::*;

use crate::text::{decimal, digit_char};

verus! {

/// The characters that would let a value break out of its argument in a shell.
pub open spec fn is_shell_metachar(c: char) -> bool {
    ||| c == ';'
    ||| c == '&'
    ||| c == '|'
    ||| c == '`'
    ||| c == '$'
    ||| c == '('
    ||| c == ')'
    ||| c == '{'
    ||| c == '}'
    ||| c == '<'
    ||| c == '>'
    ||| c == '!'
    ||| c == '\n'
    ||| c == '\r'
    ||| c == '\0'
}

/// Whether no character of `s` is a shell metacharacter.
pub open spec fn shell_safe(s: Seq<char>) -> bool {
    forall|i: int| 0 <= i < s.len() ==> !is_shell_metachar(#[trigger] s[i])
}

/// Whether every string of `list` is free of shell metacharacters.
pub open spec fn all_shell_safe(list: Seq<Seq<char>>) -> bool {
    forall|k: int| 0 <= k < list.len() ==> shell_safe(#[trigger] list[k])
}

/// Whether an optional string is absent or free of shell metacharacters.
pub open spec fn opt_shell_safe(o: Option<Seq<char>>) -> bool {
    match o {
        Some(s) => shell_safe(s),
        None => true,
    }
}

/// Two safe strings make a safe string.
pub proof fn lemma_shell_safe_concat(a: Seq<char>, b: Seq<char>)
    requires
        shell_safe(a),
        shell_safe(b),
    ensures
        shell_safe(a + b),
{
    assert forall|i: int| 0 <= i < (a + b).len() implies !is_shell_metachar(#[trigger] (a + b)[i]) by {
        if i < a.len() {
            assert((a + b)[i] == a[i]);
        } else {
            assert((a + b)[i] == b[i - a.len()]);
        }
    }
}

/// Two lists of safe strings make a list of safe strings.
pub proof fn lemma_all_shell_safe_concat(a: Seq<Seq<char>>, b: Seq<Seq<char>>)
    requires
        all_shell_safe(a),
        all_shell_safe(b),
    ensures
        all_shell_safe(a + b),
{
    assert forall|k: int| 0 <= k < (a + b).len() implies shell_safe(#[trigger] (a + b)[k]) by {
        if k < a.len() {
            assert((a + b)[k] == a[k]);
        } else {
            assert((a + b)[k] == b[k - a.len()]);
        }
    }
}

/// Decimal notation is made of digits, none of them a shell metacharacter.
pub proof fn lemma_decimal_shell_safe(n: nat)
    ensures
        shell_safe(decimal(n)),
    decreases n,
{
    if n >= 10 {
        lemma_decimal_shell_safe(n / 10);
        let d = digit_char(n % 10);
        assert(!is_shell_metachar(d));
        lemma_shell_safe_concat(decimal(n / 10), seq![d]);
        assert(decimal(n / 10).push(d) =~= decimal(n / 10) + seq![d]);
    } else {
        assert(!is_shell_metachar(digit_char(n)));
    }
}

} // verus!
