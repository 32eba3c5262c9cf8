//! The retrieval flow's decisions. The finder itself runs outside the
//! library: the caller hands over the store's contents, is told whether the
//! finder is needed, and reports back how the finder ended.

use crate::error::PassError;
use crate::record::{
    has_separator, lemma_parse_record_text, parse_line, parsed, record_line, record_text, Record,
};
use crate::text::{is_whitespace, trim, trim_end, trim_start, trimmed};
use vstd::prelude::*;
use vstd::string::*;

verus! {

/// What to do with the contents of the store.
#[derive(Clone, Copy, Debug, PartialEq, Eq, Structural)]
pub enum SelectorStep {
    /// The store holds no record: there is nothing to select.
    EmptyStore,
    /// Hand the whole contents to the finder and wait for its answer.
    RunFinder,
}

/// How a retrieval ended where nothing went wrong.
#[derive(Clone, Debug)]
pub enum Selection {
    /// The finder ended without a choice.
    NoSelection,
    /// The record of the chosen line, whose password goes to the clipboard.
    Chosen(Record),
}

/// The finder left no choice: it failed, or it printed nothing but
/// whitespace.
pub open spec fn no_selection(success: bool, output: Seq<char>) -> bool {
    !success || trimmed(output).len() == 0
}

/// Decides whether the finder has to run: only on contents that are not
/// empty.
pub fn begin_selection(contents: &str) -> (step: SelectorStep)
    ensures
        step == if contents@.len() == 0 {
            SelectorStep::EmptyStore
        } else {
            SelectorStep::RunFinder
        },
{
    if contents.is_empty() {
        SelectorStep::EmptyStore
    } else {
        SelectorStep::RunFinder
    }
}

/// Reads the finder's answer. `success` tells whether the finder exited
/// with status zero, `output` is what it printed. A finder that failed or
/// printed only whitespace made no selection. Otherwise the chosen line is
/// the output without surrounding whitespace, split at the first separator;
/// a line without the separator is a format error.
pub fn conclude_selection(success: bool, output: &str) -> (result: Result<Selection, PassError>)
    ensures
        match result {
            Ok(Selection::NoSelection) => no_selection(success, output@),
            Ok(Selection::Chosen(record)) => !no_selection(success, output@) && parsed(
                trimmed(output@),
            ) == Some(record@),
            Err(e) => !no_selection(success, output@) && parsed(trimmed(output@)) is None && e
                == PassError::Format,
        },
{
    if !success {
        return Ok(Selection::NoSelection);
    }
    let line = trim(output);
    if line.as_str().is_empty() {
        return Ok(Selection::NoSelection);
    }
    match parse_line(line.as_str()) {
        Ok(record) => Ok(Selection::Chosen(record)),
        Err(e) => Err(e),
    }
}

/// What was stored is what a later selection of its line gives back: the
/// line of a record, as the finder prints it, is read as that record.
/// This needs a name that holds no separator and does not begin with
/// whitespace, and a password that is not empty and does not end in
/// whitespace.
pub proof fn lemma_stored_line_selects_back(name: Seq<char>, password: Seq<char>)
    requires
        !has_separator(name),
        name.len() > 0 ==> !is_whitespace(name.first()),
        password.len() > 0,
        !is_whitespace(password.last()),
    ensures
        !no_selection(true, record_line(name, password)),
        parsed(trimmed(record_line(name, password))) == Some((name, password)),
{
    let text = record_text(name, password);
    let line = record_line(name, password);
    assert(line.first() == if name.len() > 0 {
        name.first()
    } else {
        ':'
    });
    assert(trim_start(line) == line);
    assert(line.drop_last() =~= text);
    assert(text.last() == password.last());
    assert(trim_end(text) == text);
    assert(trim_end(line) == trim_end(line.drop_last()));
    lemma_parse_record_text(name, password);
}

} // verus!
