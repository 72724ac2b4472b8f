//! Patching of JSON documents: directives that add, remove, replace or test
//! a value at a JSON pointer, applied in order.

use vstd::prelude::*;
use json_patch::{AddOperation, PatchOperation, RemoveOperation, ReplaceOperation, TestOperation};
use serde_json::Value;

verus! {

/// One patch directive. A path is a JSON pointer; a value is the content of
/// a JSON string.
#[derive(Debug, Clone, PartialEq, Eq)]
pub enum PatchDirective {
    /// Sets the member at `path`, or inserts into the array that holds it;
    /// a last segment `-` appends to an array.
    Add { path: String, value: String },
    /// Removes what is at `path`, which must exist.
    Remove { path: String },
    /// Replaces what is at `path`, which must exist.
    Replace { path: String, value: String },
    /// Requires that the string `value` is at `path`.
    Test { path: String, value: String },
}

/// The mathematical form of a directive.
pub enum Directive {
    Add { path: Seq<char>, value: Seq<char> },
    Remove { path: Seq<char> },
    Replace { path: Seq<char>, value: Seq<char> },
    Test { path: Seq<char>, value: Seq<char> },
}

impl View for PatchDirective {
    type V = Directive;

    open spec fn view(&self) -> Directive {
        match *self {
            PatchDirective::Add { path, value } => Directive::Add { path: path@, value: value@ },
            PatchDirective::Remove { path } => Directive::Remove { path: path@ },
            PatchDirective::Replace { path, value } => Directive::Replace {
                path: path@,
                value: value@,
            },
            PatchDirective::Test { path, value } => Directive::Test { path: path@, value: value@ },
        }
    }
}

/// A directive could not be applied: its path is missing where it must
/// exist, its test does not match, or the document is not JSON.
#[derive(Debug, Clone, Copy, PartialEq, Eq, Structural)]
pub struct PatchApplicationError {
    /// The position, in the list, of the directive that failed.
    pub directive: usize,
}

/// The document that `json_patch::patch` makes of the JSON document written
/// in `document` under the single directive `directive`, as compact JSON
/// text; `None` where `document` is not JSON text or the directive fails.
pub uninterp spec fn json_patched(document: Seq<char>, directive: Directive) -> Option<Seq<char>>;

/// The mathematical forms of a list of directives.
pub open spec fn directives_view(directives: Seq<PatchDirective>) -> Seq<Directive> {
    directives.map_values(|d: PatchDirective| d@)
}

/// The document after the directives are applied in order, each to the
/// result of the one before; `None` as soon as one fails.
pub open spec fn patched_by(document: Seq<char>, directives: Seq<Directive>) -> Option<Seq<char>>
    decreases directives.len(),
{
    if directives.len() == 0 {
        Some(document)
    } else {
        match json_patched(document, directives[0]) {
            None => None,
            Some(next) => patched_by(next, directives.drop_first()),
        }
    }
}

/// Directive `index` is the first to fail: those before it apply, and it
/// does not apply to their result.
pub open spec fn first_failure(document: Seq<char>, directives: Seq<Directive>, index: int)
    -> bool {
    &&& 0 <= index < directives.len()
    &&& patched_by(document, directives.take(index)) matches Some(reached)
    &&& json_patched(reached, directives[index]) is None
}

/// What applying the directives comes to: the patched document, or the
/// position of the first directive that fails.
pub open spec fn patch_outcome(
    document: Seq<char>,
    directives: Seq<Directive>,
    out: Result<Seq<char>, PatchApplicationError>,
) -> bool {
    match out {
        Ok(patched) => patched_by(document, directives) == Some(patched),
        Err(e) => first_failure(document, directives, e.directive as int),
    }
}

/// Applying directives one after another is applying the first part, then
/// the rest to what the first part gave.
pub proof fn lemma_patched_by_split(document: Seq<char>, directives: Seq<Directive>, at: int)
    requires
        0 <= at <= directives.len(),
    ensures
        patched_by(document, directives) == match patched_by(document, directives.take(at)) {
            Some(reached) => patched_by(reached, directives.skip(at)),
            None => None,
        },
    decreases at,
{
    if at == 0 {
        assert(directives.take(0) =~= Seq::<Directive>::empty());
        assert(directives.skip(0) =~= directives);
    } else {
        let head = directives.take(at);
        assert(head[0] == directives[0]);
        assert(head.drop_first() =~= directives.drop_first().take(at - 1));
        assert(directives.drop_first().skip(at - 1) =~= directives.skip(at));
        match json_patched(document, directives[0]) {
            None => {},
            Some(next) => {
                lemma_patched_by_split(next, directives.drop_first(), at - 1);
            },
        }
    }
}

/// Applying a single directive is one step of `json_patch::patch`.
pub proof fn lemma_patched_by_one(document: Seq<char>, directive: Directive)
    ensures
        patched_by(document, seq![directive]) == json_patched(document, directive),
{
    let one = seq![directive];
    assert(one[0] == directive);
    assert(one.drop_first() =~= Seq::<Directive>::empty());
    match json_patched(document, directive) {
        None => {},
        Some(next) => {
            assert(patched_by(next, Seq::<Directive>::empty()) == Some(next));
        },
    }
}

/// A failure anywhere makes the whole patch fail: the directives after it
/// cannot mend it.
pub proof fn lemma_failure_is_final(document: Seq<char>, directives: Seq<Directive>, index: int)
    requires
        first_failure(document, directives, index),
    ensures
        patched_by(document, directives) is None,
{
    lemma_patched_by_split(document, directives, index);
    let reached = patched_by(document, directives.take(index))->Some_0;
    assert(directives.skip(index)[0] == directives[index]);
}

/// Applying directives comes to one thing only: two outcomes of the same
/// document and directives are the same patched document, or name the same
/// failing directive.
pub proof fn lemma_patch_outcome_is_unique(
    document: Seq<char>,
    directives: Seq<Directive>,
    first: Result<Seq<char>, PatchApplicationError>,
    second: Result<Seq<char>, PatchApplicationError>,
)
    requires
        patch_outcome(document, directives, first),
        patch_outcome(document, directives, second),
    ensures
        first == second,
{
    match (first, second) {
        (Ok(_), Ok(_)) => {},
        (Ok(_), Err(e)) => {
            lemma_failure_is_final(document, directives, e.directive as int);
        },
        (Err(e), Ok(_)) => {
            lemma_failure_is_final(document, directives, e.directive as int);
        },
        (Err(a), Err(b)) => {
            let i = a.directive as int;
            let j = b.directive as int;
            if i < j {
                assert(directives.take(j).take(i) =~= directives.take(i));
                assert(directives.take(j)[i] == directives[i]);
                lemma_failure_is_final(document, directives.take(j), i);
            } else if j < i {
                assert(directives.take(i).take(j) =~= directives.take(j));
                assert(directives.take(i)[j] == directives[j]);
                lemma_failure_is_final(document, directives.take(i), j);
            }
        },
    }
}

/// Applies one directive. Rests on `serde_json::from_str`, on
/// `json_patch::patch` with a list of the one operation that the directive
/// stands for, its value a JSON string, and on `serde_json::to_string`.
#[verifier::external_body]
fn patch_once(document: &str, directive: &PatchDirective) -> (patched: Option<String>)
    ensures
        match patched {
            Some(text) => json_patched(document@, directive@) == Some(text@),
            None => json_patched(document@, directive@) is None,
        },
{
    let mut doc: Value = serde_json::from_str(document).ok()?;
    let operation = match directive.clone() {
        PatchDirective::Add { path, value } => PatchOperation::Add(AddOperation { path, value: Value::String(value) }),
        PatchDirective::Remove { path } => PatchOperation::Remove(RemoveOperation { path }),
        PatchDirective::Replace { path, value } => PatchOperation::Replace(ReplaceOperation { path, value: Value::String(value) }),
        PatchDirective::Test { path, value } => PatchOperation::Test(TestOperation { path, value: Value::String(value) }),
    };
    json_patch::patch(&mut doc, &[operation]).ok()?;
    serde_json::to_string(&doc).ok()
}

/// The view of a patched document or the error that came in its place.
pub open spec fn patch_result(r: Result<String, PatchApplicationError>) -> Result<
    Seq<char>,
    PatchApplicationError,
> {
    match r {
        Ok(t) => Ok(t@),
        Err(e) => Err(e),
    }
}

/// Applies the directives to the JSON document written in `document`,
/// strictly in order, each to the result of the one before.
///
/// `Ok` holds the patched document. `Err` names the first directive that
/// could not be applied; nothing of a partly patched document is handed out.
pub fn apply(document: &str, directives: &Vec<PatchDirective>) -> (out: Result<
    String,
    PatchApplicationError,
>)
    ensures
        patch_outcome(document@, directives_view(directives@), patch_result(out)),
        out is Ok <==> patched_by(document@, directives_view(directives@)) is Some,
{
    let ghost all = directives_view(directives@);
    let mut current: String = document.to_owned();
    let mut i: usize = 0;
    proof {
        assert(all.take(0) =~= Seq::<Directive>::empty());
    }
    while i < directives.len()
        invariant
            i <= directives.len(),
            all == directives_view(directives@),
            patched_by(document@, all.take(i as int)) == Some(current@),
        decreases directives.len() - i,
    {
        proof {
            lemma_patched_by_split(document@, all.take(i + 1), i as int);
            assert(all.take(i + 1).take(i as int) =~= all.take(i as int));
            assert(all.take(i + 1).skip(i as int) =~= seq![all[i as int]]);
            lemma_patched_by_one(current@, all[i as int]);
            assert(all[i as int] == directives@[i as int]@);
        }
        match patch_once(current.as_str(), &directives[i]) {
            None => {
                proof {
                    lemma_failure_is_final(document@, all, i as int);
                }
                return Err(PatchApplicationError { directive: i });
            },
            Some(next) => {
                current = next;
            },
        }
        i += 1;
    }
    assert(all.take(directives.len() as int) =~= all);
    Ok(current)
}

} // verus!
