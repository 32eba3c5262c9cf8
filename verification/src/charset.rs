//! The character pool that passwords are drawn from.

use vstd::prelude::*;
use vstd::string::*;

verus! {

/// The lowercase letters.
pub const LOWERCASE: &'static str = "abcdefghijklmnopqrstuvwxyz";

/// The uppercase letters.
pub const UPPERCASE: &'static str = "ABCDEFGHIJKLMNOPQRSTUVWXYZ";

/// The digits.
pub const DIGITS: &'static str = "0123456789";

/// The special characters.
pub const SPECIALS: &'static str = "!@#$%^&*()-_=+[{]};:'\",.<>/?";

/// `c` is one of the twenty-six lowercase ASCII letters.
pub open spec fn is_lowercase(c: char) -> bool {
    'a' <= c <= 'z'
}

/// `c` is one of the twenty-six uppercase ASCII letters.
pub open spec fn is_uppercase(c: char) -> bool {
    'A' <= c <= 'Z'
}

/// `c` is one of the ten ASCII digits.
pub open spec fn is_digit(c: char) -> bool {
    '0' <= c <= '9'
}

/// `c` is one of the twenty-eight special characters.
pub open spec fn is_special(c: char) -> bool {
    ||| c == '!' ||| c == '@' ||| c == '#' ||| c == '$' ||| c == '%' ||| c == '^' ||| c == '&'
    ||| c == '*' ||| c == '(' ||| c == ')' ||| c == '-' ||| c == '_' ||| c == '=' ||| c == '+'
    ||| c == '[' ||| c == '{' ||| c == ']' ||| c == '}' ||| c == ';' ||| c == ':' ||| c == '\''
    ||| c == '"' ||| c == ',' ||| c == '.' ||| c == '<' ||| c == '>' ||| c == '/' ||| c == '?'
}

/// `c` may appear in a password: always a letter or a digit, and a special
/// character only where `include_specials` holds.
pub open spec fn in_pool(c: char, include_specials: bool) -> bool {
    is_lowercase(c) || is_uppercase(c) || is_digit(c) || (include_specials && is_special(c))
}

/// The pool as the sequence that characters are sampled from: lowercase,
/// uppercase, digits, then the special characters where they are included.
pub open spec fn pool_chars(include_specials: bool) -> Seq<char> {
    if include_specials {
        LOWERCASE@ + UPPERCASE@ + DIGITS@ + SPECIALS@
    } else {
        LOWERCASE@ + UPPERCASE@ + DIGITS@
    }
}

/// Builds the pool for the given setting.
pub fn build_pool(include_specials: bool) -> (pool: String)
    ensures
        pool@ == pool_chars(include_specials),
{
    let mut pool = String::new();
    pool.append(LOWERCASE);
    pool.append(UPPERCASE);
    pool.append(DIGITS);
    if include_specials {
        pool.append(SPECIALS);
    }
    pool
}

proof fn lemma_lowercase()
    ensures
        LOWERCASE@.len() == 26,
        forall|i: int| 0 <= i < 26 ==> #[trigger] LOWERCASE@[i] as int == 'a' as int + i,
{
    reveal_strlit("abcdefghijklmnopqrstuvwxyz");
}

proof fn lemma_uppercase()
    ensures
        UPPERCASE@.len() == 26,
        forall|i: int| 0 <= i < 26 ==> #[trigger] UPPERCASE@[i] as int == 'A' as int + i,
{
    reveal_strlit("ABCDEFGHIJKLMNOPQRSTUVWXYZ");
}

proof fn lemma_digits()
    ensures
        DIGITS@.len() == 10,
        forall|i: int| 0 <= i < 10 ==> #[trigger] DIGITS@[i] as int == '0' as int + i,
{
    reveal_strlit("0123456789");
}

proof fn lemma_specials()
    ensures
        SPECIALS@.len() == 28,
        forall|c: char| SPECIALS@.contains(c) <==> is_special(c),
{
    reveal_strlit("!@#$%^&*()-_=+[{]};:'\",.<>/?");
    let s = SPECIALS@;
    assert(s[0] == '!' && s[1] == '@' && s[2] == '#' && s[3] == '$' && s[4] == '%' && s[5] == '^'
        && s[6] == '&');
    assert(s[7] == '*' && s[8] == '(' && s[9] == ')' && s[10] == '-' && s[11] == '_' && s[12]
        == '=' && s[13] == '+');
    assert(s[14] == '[' && s[15] == '{' && s[16] == ']' && s[17] == '}' && s[18] == ';' && s[19]
        == ':' && s[20] == '\'');
    assert(s[21] == '"' && s[22] == ',' && s[23] == '.' && s[24] == '<' && s[25] == '>' && s[26]
        == '/' && s[27] == '?');
}

/// The alphanumeric part of the pool holds exactly the letters and digits.
proof fn lemma_alphanumerics()
    ensures
        pool_chars(false).len() == 62,
        forall|c: char| pool_chars(false).contains(c) <==> in_pool(c, false),
{
    lemma_lowercase();
    lemma_uppercase();
    lemma_digits();
    let p = pool_chars(false);
    assert forall|c: char| in_pool(c, false) implies p.contains(c) by {
        if is_lowercase(c) {
            let i = c as int - 'a' as int;
            assert(LOWERCASE@[i] == c);
            assert(p[i] == c);
        } else if is_uppercase(c) {
            let i = c as int - 'A' as int;
            assert(UPPERCASE@[i] == c);
            assert(p[26 + i] == c);
        } else {
            let i = c as int - '0' as int;
            assert(DIGITS@[i] == c);
            assert(p[52 + i] == c);
        }
    }
    assert forall|c: char| p.contains(c) implies in_pool(c, false) by {
        let i = choose|i: int| 0 <= i < p.len() && p[i] == c;
        if i < 26 {
            assert(p[i] == LOWERCASE@[i]);
        } else if i < 52 {
            assert(p[i] == UPPERCASE@[i - 26]);
        } else {
            assert(p[i] == DIGITS@[i - 52]);
        }
    }
}

/// A character occurs in the pool exactly when it belongs to one of the
/// classes that the setting admits.
pub proof fn lemma_pool_membership(include_specials: bool)
    ensures
        pool_chars(include_specials).len() == if include_specials {
            90int
        } else {
            62int
        },
        forall|c: char| #[trigger]
            pool_chars(include_specials).contains(c) <==> in_pool(c, include_specials),
{
    lemma_alphanumerics();
    if include_specials {
        lemma_specials();
        let a = pool_chars(false);
        let p = pool_chars(true);
        assert(p =~= a + SPECIALS@);
        assert forall|c: char| #[trigger] p.contains(c) <==> in_pool(c, true) by {
            if p.contains(c) {
                let i = choose|i: int| 0 <= i < p.len() && p[i] == c;
                if i < 62 {
                    assert(a[i] == c);
                    assert(a.contains(c));
                } else {
                    assert(SPECIALS@[i - 62] == c);
                    assert(SPECIALS@.contains(c));
                }
            }
            if in_pool(c, false) {
                let i = choose|i: int| 0 <= i < a.len() && a[i] == c;
                assert(p[i] == c);
            } else if is_special(c) {
                let i = choose|i: int| 0 <= i < SPECIALS@.len() && SPECIALS@[i] == c;
                assert(p[62 + i] == c);
            }
        }
    }
}

/// A special character is neither a letter nor a digit, so a pool without
/// the specials holds none of them.
pub proof fn lemma_specials_excluded(c: char)
    requires
        in_pool(c, false),
    ensures
        !is_special(c),
{
}

} // verus!
