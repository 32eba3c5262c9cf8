//! Records and the line format of the store: one record per line, the name,
//! a colon and a space, then the password.

use crate::error::PassError;
use vstd::prelude::*;
use vstd::string::*;

verus! {

/// One stored pair of a name and its password.
#[derive(Clone, Debug)]
pub struct Record {
    /// What the password is for. May be empty, and need not be unique.
    pub name: String,
    /// The password itself.
    pub password: String,
}

impl View for Record {
    type V = (Seq<char>, Seq<char>);

    /// A record is its name and its password, as sequences of characters.
    open spec fn view(&self) -> (Seq<char>, Seq<char>) {
        (self.name@, self.password@)
    }
}

/// What stands between the name and the password on a line.
pub open spec fn separator() -> Seq<char> {
    seq![':', ' ']
}

/// The separator stands in `s` at index `k`.
pub open spec fn separator_at(s: Seq<char>, k: int) -> bool {
    0 <= k && k + 1 < s.len() && s[k] == ':' && s[k + 1] == ' '
}

/// The separator occurs somewhere in `s`.
pub open spec fn has_separator(s: Seq<char>) -> bool {
    exists|k: int| separator_at(s, k)
}

/// `k` is where the separator first occurs in `s`.
pub open spec fn is_first_separator(s: Seq<char>, k: int) -> bool {
    separator_at(s, k) && forall|j: int| 0 <= j < k ==> !separator_at(s, j)
}

/// The index of the first occurrence of the separator in `s`, if there is one.
pub open spec fn first_separator(s: Seq<char>) -> Option<int> {
    if has_separator(s) {
        Some(choose|k: int| is_first_separator(s, k))
    } else {
        None
    }
}

/// The name and the password that a line stands for: what comes before
/// the first separator and what comes after it.
pub open spec fn parsed(line: Seq<char>) -> Option<(Seq<char>, Seq<char>)> {
    match first_separator(line) {
        Some(k) => Some((line.subrange(0, k), line.subrange(k + 2, line.len() as int))),
        None => None,
    }
}

/// A record as it stands in the store, without the end of the line.
pub open spec fn record_text(name: Seq<char>, password: Seq<char>) -> Seq<char> {
    name + separator() + password
}

/// A record as one line of the store.
pub open spec fn record_line(name: Seq<char>, password: Seq<char>) -> Seq<char> {
    record_text(name, password).push('\n')
}

/// The first occurrence of the separator is the only index that
/// `is_first_separator` holds of.
pub proof fn lemma_first_separator(s: Seq<char>, k: int)
    requires
        is_first_separator(s, k),
    ensures
        first_separator(s) == Some(k),
{
    assert(separator_at(s, k));
    let c = choose|c: int| is_first_separator(s, c);
    if c < k {
        assert(!separator_at(s, c));
    } else if k < c {
        assert(!separator_at(s, k));
    }
}

/// The line that stores `name` with `password`.
pub fn format_line(name: &str, password: &str) -> (line: String)
    ensures
        line@ == record_line(name@, password@),
{
    let mut line = String::from_str(name);
    line.append(": ");
    line.append(password);
    line.append("\n");
    proof {
        reveal_strlit(": ");
        reveal_strlit("\n");
        assert(": "@ =~= separator());
        assert(line@ =~= record_line(name@, password@));
    }
    line
}

/// Splits a line at the first occurrence of the separator. A line without
/// the separator is refused.
pub fn parse_line(line: &str) -> (result: Result<Record, PassError>)
    ensures
        match result {
            Ok(record) => parsed(line@) == Some(record@),
            Err(e) => parsed(line@) is None && e == PassError::Format,
        },
{
    let n = line.unicode_len();
    let mut k: usize = 0;
    while n - k >= 2
        invariant
            k <= n,
            n == line@.len(),
            forall|j: int| 0 <= j < k ==> !separator_at(line@, j),
        decreases n - k,
    {
        if line.get_char(k) == ':' && line.get_char(k + 1) == ' ' {
            proof {
                lemma_first_separator(line@, k as int);
            }
            let name = String::from_str(line.substring_char(0, k));
            let password = String::from_str(line.substring_char(k + 2, n));
            return Ok(Record { name, password });
        }
        k = k + 1;
    }
    Err(PassError::Format)
}

/// A record's text parses back to the record, provided the separator does
/// not occur in the name.
pub proof fn lemma_parse_record_text(name: Seq<char>, password: Seq<char>)
    requires
        !has_separator(name),
    ensures
        parsed(record_text(name, password)) == Some((name, password)),
{
    let s = record_text(name, password);
    let k = name.len() as int;
    assert(separator_at(s, k));
    assert forall|j: int| 0 <= j < k implies !separator_at(s, j) by {
        if separator_at(s, j) {
            if j + 1 < k {
                assert(separator_at(name, j));
            }
        }
    }
    lemma_first_separator(s, k);
    assert(s.subrange(0, k) =~= name);
    assert(s.subrange(k + 2, s.len() as int) =~= password);
}

} // verus!
