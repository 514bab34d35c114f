//! Translation of storage failures into errors of the domain.
//!
//! The storage layer names the integrity rule that refused a write. A fixed
//! table maps the names of the two format rules to the message that the
//! caller is shown; every other failure is internal.

use vstd::prelude::*;
use crate::error::{Error, ErrorView};
use crate::text::{opt_chars, owned, same_text};

verus! {

/// A failure reported by the storage layer, in plain values.
#[derive(Debug, Clone, PartialEq, Eq)]
pub struct StorageError {
    /// The name of the integrity rule that was violated, if the failure is
    /// such a violation and the rule has a name.
    pub constraint: Option<String>,
    /// Whether a uniqueness rule was violated.
    pub unique_violation: bool,
    /// The storage layer's own description of the failure.
    pub message: String,
}

/// A [`StorageError`] with its texts as sequences of characters.
pub struct StorageErrorView {
    pub constraint: Option<Seq<char>>,
    pub unique_violation: bool,
    pub message: Seq<char>,
}

impl View for StorageError {
    type V = StorageErrorView;

    open spec fn view(&self) -> StorageErrorView {
        StorageErrorView {
            constraint: opt_chars(self.constraint),
            unique_violation: self.unique_violation,
            message: self.message@,
        }
    }
}

/// The table of format rules: the name of each rule with the message of the
/// validation error that its violation becomes.
pub open spec fn constraint_messages() -> Seq<(Seq<char>, Seq<char>)> {
    seq![("proper_email"@, "invalid email"@), ("proper_username"@, "invalid username"@)]
}

/// The message of the first entry of `table` whose rule is `name`.
pub open spec fn lookup(table: Seq<(Seq<char>, Seq<char>)>, name: Seq<char>) -> Option<Seq<char>>
    decreases table.len(),
{
    if table.len() == 0 {
        None
    } else if table[0].0 == name {
        Some(table[0].1)
    } else {
        lookup(table.drop_first(), name)
    }
}

/// The error that a storage failure becomes: a validation error with the
/// table's message where the violated rule is in the table, and otherwise an
/// internal error that carries the storage layer's description.
pub open spec fn translate(e: StorageErrorView) -> ErrorView {
    match e.constraint {
        Some(name) => match lookup(constraint_messages(), name) {
            Some(message) => ErrorView::ValidationFailed(message),
            None => ErrorView::InternalError(e.message),
        },
        None => ErrorView::InternalError(e.message),
    }
}

/// The two rows of the table, spelled out.
pub proof fn lemma_translate_cases(e: StorageErrorView)
    ensures
        e.constraint == Some("proper_email"@) ==> translate(e) == ErrorView::ValidationFailed(
            "invalid email"@,
        ),
        e.constraint == Some("proper_username"@) ==> translate(e) == ErrorView::ValidationFailed(
            "invalid username"@,
        ),
        e.constraint != Some("proper_email"@) && e.constraint != Some("proper_username"@)
            ==> translate(e) == ErrorView::InternalError(e.message),
{
    reveal_strlit("proper_email");
    reveal_strlit("proper_username");
    reveal_with_fuel(lookup, 3);
    let table = constraint_messages();
    assert(table.drop_first() =~= seq![("proper_username"@, "invalid username"@)]);
    assert(table.drop_first().drop_first() =~= Seq::empty());
    assert("proper_email"@ != "proper_username"@) by {
        assert("proper_email"@.len() == 12);
        assert("proper_username"@.len() == 15);
    }
}

/// The table in executable form.
fn constraint_table() -> (table: Vec<(&'static str, &'static str)>)
    ensures
        table@.len() == constraint_messages().len(),
        forall|i: int|
            0 <= i < table@.len() ==> (#[trigger] table@[i]).0@ == constraint_messages()[i].0
                && table@[i].1@ == constraint_messages()[i].1,
{
    let mut table: Vec<(&'static str, &'static str)> = Vec::new();
    table.push(("proper_email", "invalid email"));
    table.push(("proper_username", "invalid username"));
    table
}

/// `lookup` skips a prefix of the table that holds no entry for `name`.
proof fn lemma_lookup_skip(table: Seq<(Seq<char>, Seq<char>)>, name: Seq<char>, n: int)
    requires
        0 <= n <= table.len(),
        forall|j: int| 0 <= j < n ==> (#[trigger] table[j]).0 != name,
    ensures
        lookup(table, name) == lookup(table.skip(n), name),
    decreases n,
{
    if n == 0 {
        assert(table.skip(0) =~= table);
    } else {
        lemma_lookup_skip(table, name, n - 1);
        let rest = table.skip(n - 1);
        assert(rest[0] == table[n - 1]);
        assert(rest.drop_first() =~= table.skip(n));
    }
}

/// Translates a failure of the storage layer into an error of the domain.
pub fn handle_database_error(e: StorageError) -> (error: Error)
    ensures
        error@ == translate(e@),
{
    let ghost failure = e@;
    let StorageError { constraint, unique_violation: _, message } = e;
    let name = match constraint {
        Some(name) => name,
        None => {
            return Error::InternalError(message);
        },
    };
    let table = constraint_table();
    let mut i: usize = 0;
    while i < table.len()
        invariant
            i <= table@.len(),
            failure == e@,
            failure.constraint == Some(name@),
            failure.message == message@,
            table@.len() == constraint_messages().len(),
            forall|k: int|
                0 <= k < table@.len() ==> (#[trigger] table@[k]).0@ == constraint_messages()[k].0
                    && table@[k].1@ == constraint_messages()[k].1,
            forall|j: int| 0 <= j < i ==> (#[trigger] constraint_messages()[j]).0 != name@,
        decreases table@.len() - i,
    {
        if same_text(table[i].0, name.as_str()) {
            proof {
                let rules = constraint_messages();
                lemma_lookup_skip(rules, name@, i as int);
                assert(table@[i as int].0@ == rules[i as int].0);
                assert(rules.skip(i as int).len() > 0);
                assert(rules.skip(i as int)[0] == rules[i as int]);
            }
            return Error::ValidationFailed(owned(table[i].1));
        }
        i += 1;
    }
    proof {
        lemma_lookup_skip(constraint_messages(), name@, i as int);
        assert(constraint_messages().skip(i as int).len() == 0);
    }
    Error::InternalError(message)
}

} // verus!
