//! Facade-level decisions: how a single-object response is disposed of, and
//! how a log URL is resolved from a record's own metadata.
//!
//! The transport hands these functions the plain facts of a response (its
//! status code, its decoded body); they say what the operation's outcome is.

use vstd::prelude::*;
use crate::models::task::EvgTask;
use crate::text::chars_of;
use crate::urls::log_text_url;

verus! {

/// The kinds of resource the single-object fetches name.
#[derive(Clone, Copy, Debug, PartialEq, Eq, Structural)]
pub enum ResourceKind {
    Task,
    Version,
    Build,
}

/// Whether a missing resource is an expected outcome for this kind.
///
/// Only the build fetch treats absence as a result of its own; for tasks
/// and versions a missing resource surfaces as a failure, since their
/// bodies are decoded regardless of the status code.
pub open spec fn spec_absence_expected(kind: ResourceKind) -> bool {
    kind is Build
}

/// The status code with which the server reports a missing resource.
pub open spec fn missing_status() -> u16 {
    404
}

/// Whether a single-object response is to be answered with an explicit
/// absent result instead of being decoded: exactly when the kind expects
/// absence and the server reported the resource missing. Every other
/// response is decoded, and for a missing task or version that decode
/// fails; that asymmetry is deliberate.
pub fn single_fetch_absent(kind: ResourceKind, status: u16) -> (absent: bool)
    ensures
        absent == (spec_absence_expected(kind) && status == missing_status()),
{
    match kind {
        ResourceKind::Build => status == 404,
        _ => false,
    }
}

/// The pairs of an association list, as characters.
pub open spec fn pairs_view(pairs: Seq<(String, String)>) -> Seq<(Seq<char>, Seq<char>)> {
    pairs.map_values(|p: (String, String)| (p.0@, p.1@))
}

/// The value of the first pair holding the key.
pub open spec fn spec_lookup(pairs: Seq<(Seq<char>, Seq<char>)>, key: Seq<char>) -> Option<
    Seq<char>,
>
    decreases pairs.len(),
{
    if pairs.len() == 0 {
        Option::None
    } else if pairs[0].0 == key {
        Option::Some(pairs[0].1)
    } else {
        spec_lookup(pairs.drop_first(), key)
    }
}

/// Whether two character vectors hold the same characters.
fn chars_eq(a: &Vec<char>, b: &Vec<char>) -> (r: bool)
    ensures
        r == (a@ == b@),
{
    if a.len() != b.len() {
        return false;
    }
    let mut i: usize = 0;
    while i < a.len()
        invariant
            i <= a@.len(),
            a@.len() == b@.len(),
            forall|k: int| 0 <= k < i ==> a@[k] == b@[k],
        decreases a@.len() - i,
    {
        if a[i] != b[i] {
            return false;
        }
        i = i + 1;
    }
    proof {
        assert(a@ =~= b@);
    }
    true
}

/// Resolves the URL of a task's named log and flags it for plain text.
///
/// The task's own metadata maps log names to URLs; the named URL, with the
/// text flag appended, is the one to stream. A name the task does not carry
/// resolves to nothing.
pub fn task_log_url(task: &EvgTask, log_name: &str) -> (r: Option<String>)
    ensures
        match r {
            Option::Some(u) => spec_lookup(pairs_view(task.logs@), log_name@) matches Option::Some(
                base,
            ) && u@ == base + "&text=true"@,
            Option::None => spec_lookup(pairs_view(task.logs@), log_name@) is None,
        },
{
    let key = chars_of(log_name);
    let ghost all = pairs_view(task.logs@);
    proof {
        assert(all.skip(0) =~= all);
    }
    let mut i: usize = 0;
    while i < task.logs.len()
        invariant
            i <= task.logs@.len(),
            key@ == log_name@,
            all == pairs_view(task.logs@),
            spec_lookup(all, log_name@) == spec_lookup(all.skip(i as int), log_name@),
        decreases task.logs@.len() - i,
    {
        let ghost rest = all.skip(i as int);
        let name = chars_of(task.logs[i].0.as_str());
        if chars_eq(&name, &key) {
            proof {
                assert(rest[0] == all[i as int]);
                assert(all[i as int] == (task.logs@[i as int].0@, task.logs@[i as int].1@));
                assert(spec_lookup(rest, log_name@) == Option::Some(all[i as int].1));
            }
            return Option::Some(log_text_url(task.logs[i].1.as_str()));
        }
        i = i + 1;
        proof {
            assert(rest[0] == all[i - 1]);
            assert(rest.drop_first() =~= all.skip(i as int));
        }
    }
    proof {
        assert(all.skip(task.logs@.len() as int) =~= Seq::<(Seq<char>, Seq<char>)>::empty());
    }
    Option::None
}

/// Resolves the URL of a test's log and flags it for plain text. The test
/// record carries its raw log URL directly.
pub fn test_log_url(test: &crate::models::test::EvgTest) -> (url: String)
    ensures
        url@ == test.logs.url_raw@ + "&text=true"@,
{
    log_text_url(test.logs.url_raw.as_str())
}

} // verus!
