//! Identifiers derived from input paths.

use vstd::prelude::*;
use crate::text::{
    ascii_lower, char_is_ascii_alnum, char_to_ascii_lower, is_ascii_alnum, is_lower_alnum,
    lemma_ascii_lower, push_char,
};

verus! {

/// The identifier that stands in for a path without a single letter or digit.
pub open spec fn fallback_id() -> Seq<char> {
    seq!['j', 'o', 'b']
}

/// The letters and digits of `s`, lowered, run by run, with one `-` between
/// two runs: every stretch of other characters inside `s` counts as one
/// separator, and those at either end count for nothing.
pub open spec fn slug(s: Seq<char>) -> Seq<char>
    decreases s.len(),
{
    if s.len() == 0 {
        Seq::empty()
    } else {
        let head = slug(s.drop_last());
        let c = s.last();
        if !is_ascii_alnum(c) {
            head
        } else if head.len() > 0 && !is_ascii_alnum(s[s.len() - 2]) {
            head.push('-').push(ascii_lower(c))
        } else {
            head.push(ascii_lower(c))
        }
    }
}

/// The job id of an input path.
pub open spec fn job_id_of(path: Seq<char>) -> Seq<char> {
    if slug(path).len() == 0 {
        fallback_id()
    } else {
        slug(path)
    }
}

/// The part of `path` behind its last `/`; all of it where it has none.
pub open spec fn file_name_of(path: Seq<char>) -> Seq<char>
    decreases path.len(),
{
    if path.len() == 0 {
        Seq::empty()
    } else if path.last() == '/' {
        Seq::empty()
    } else {
        file_name_of(path.drop_last()).push(path.last())
    }
}

/// What a job id looks like: lower-case letters, digits and single `-`
/// between them, never at either end.
pub open spec fn is_job_id(id: Seq<char>) -> bool {
    &&& id.len() > 0
    &&& forall|i: int| 0 <= i < id.len() ==> is_lower_alnum(#[trigger] id[i]) || id[i] == '-'
    &&& id[0] != '-'
    &&& id.last() != '-'
    &&& forall|i: int| 0 <= i < id.len() - 1 ==> !(#[trigger] id[i] == '-' && id[i + 1] == '-')
}

/// A job id that may still end in a `-`: what a job id looks like while it is
/// being read from left to right.
pub open spec fn is_job_id_prefix(id: Seq<char>) -> bool {
    &&& id.len() > 0
    &&& forall|i: int| 0 <= i < id.len() ==> is_lower_alnum(#[trigger] id[i]) || id[i] == '-'
    &&& id[0] != '-'
    &&& forall|i: int| 0 <= i < id.len() - 1 ==> !(#[trigger] id[i] == '-' && id[i + 1] == '-')
}

/// The slug of a path is empty exactly when the path holds no letter and no
/// digit; otherwise it has the shape of a job id.
pub proof fn lemma_slug_shape(s: Seq<char>)
    ensures
        slug(s).len() > 0 <==> exists|i: int| 0 <= i < s.len() && is_ascii_alnum(#[trigger] s[i]),
        slug(s).len() > 0 ==> is_job_id(slug(s)),
    decreases s.len(),
{
    if s.len() > 0 {
        let front = s.drop_last();
        let head = slug(front);
        let c = s.last();
        lemma_slug_shape(front);
        lemma_ascii_lower(c);
        if is_ascii_alnum(c) {
            assert(is_ascii_alnum(s[s.len() - 1]));
            let r = slug(s);
            if head.len() > 0 {
                assert(is_job_id(head));
                assert(head.last() != '-');
                assert forall|i: int| 0 <= i < r.len() - 1 implies !(#[trigger] r[i] == '-' && r[i
                    + 1] == '-') by {
                    if i < head.len() - 1 {
                        assert(r[i] == head[i] && r[i + 1] == head[i + 1]);
                    }
                }
                assert forall|i: int| 0 <= i < r.len() implies is_lower_alnum(#[trigger] r[i])
                    || r[i] == '-' by {
                    if i < head.len() {
                        assert(r[i] == head[i]);
                    }
                }
                assert(r[0] == head[0]);
            }
            assert(is_job_id(r));
        } else {
            if exists|i: int| 0 <= i < s.len() && is_ascii_alnum(#[trigger] s[i]) {
                let i = choose|i: int| 0 <= i < s.len() && is_ascii_alnum(#[trigger] s[i]);
                assert(is_ascii_alnum(front[i]));
            }
            if head.len() > 0 {
                let i = choose|i: int| 0 <= i < front.len() && is_ascii_alnum(#[trigger] front[i]);
                assert(is_ascii_alnum(s[i]));
            }
        }
    }
}

/// Read as a path, a job id that may end in a `-` has itself as slug, without
/// that last `-`.
pub proof fn lemma_slug_of_job_id_prefix(id: Seq<char>)
    requires
        is_job_id_prefix(id),
    ensures
        slug(id) == if id.last() == '-' {
            id.drop_last()
        } else {
            id
        },
    decreases id.len(),
{
    let front = id.drop_last();
    let c = id.last();
    lemma_ascii_lower(c);
    if front.len() == 0 {
        assert(c == id[0]);
        assert(slug(front) =~= Seq::<char>::empty());
        assert(slug(id) =~= id);
    } else {
        assert(front[0] == id[0]);
        assert forall|i: int| 0 <= i < front.len() implies is_lower_alnum(#[trigger] front[i])
            || front[i] == '-' by {
            assert(front[i] == id[i]);
        }
        assert forall|i: int| 0 <= i < front.len() - 1 implies !(#[trigger] front[i] == '-'
            && front[i + 1] == '-') by {
            assert(front[i] == id[i] && front[i + 1] == id[i + 1]);
        }
        lemma_slug_of_job_id_prefix(front);
        let before = id[id.len() - 2];
        assert(before == front.last());
        if c == '-' {
            assert(!(id[id.len() - 2] == '-' && id[id.len() - 2 + 1] == '-'));
            assert(slug(id) =~= front);
        } else if before == '-' {
            assert(front.len() >= 2);
            assert(slug(id) =~= id);
        } else {
            assert(is_lower_alnum(id[id.len() - 2]));
            assert(slug(id) =~= id);
        }
    }
}

/// Every path has a job id of the stated shape.
pub proof fn lemma_job_id_shape(path: Seq<char>)
    ensures
        is_job_id(job_id_of(path)),
{
    lemma_slug_shape(path);
}

/// A path without a letter or a digit gets the fallback id.
pub proof fn lemma_job_id_fallback(path: Seq<char>)
    requires
        forall|i: int| 0 <= i < path.len() ==> !is_ascii_alnum(#[trigger] path[i]),
    ensures
        job_id_of(path) == fallback_id(),
{
    lemma_slug_shape(path);
}

/// Deriving the job id of a job id changes nothing.
pub proof fn lemma_job_id_idempotent(path: Seq<char>)
    ensures
        job_id_of(job_id_of(path)) == job_id_of(path),
{
    let id = job_id_of(path);
    lemma_job_id_shape(path);
    lemma_slug_of_job_id_prefix(id);
}

/// The file name of a path holds no `/`, ends the path, and starts right
/// behind a `/` or at the start of the path.
pub proof fn lemma_file_name(path: Seq<char>)
    ensures
        file_name_of(path).len() <= path.len(),
        file_name_of(path) == path.skip(path.len() - file_name_of(path).len()),
        forall|i: int|
            0 <= i < file_name_of(path).len() ==> #[trigger] file_name_of(path)[i] != '/',
        file_name_of(path).len() < path.len() ==> path[path.len() - file_name_of(path).len() - 1]
            == '/',
    decreases path.len(),
{
    if path.len() > 0 && path.last() != '/' {
        let front = path.drop_last();
        lemma_file_name(front);
        let name = file_name_of(path);
        assert(name =~= path.skip(path.len() - name.len()));
        assert forall|i: int| 0 <= i < name.len() implies #[trigger] name[i] != '/' by {
            if i < name.len() - 1 {
                assert(name[i] == file_name_of(front)[i]);
            }
        }
        if name.len() < path.len() {
            assert(path[path.len() - name.len() - 1] == front[front.len() - file_name_of(
                front,
            ).len() - 1]);
        }
    } else {
        assert(file_name_of(path) =~= path.skip(path.len() - file_name_of(path).len()));
    }
}

/// The job id of an input path: its letters and digits, lowered, run by run,
/// with one `-` between two runs; `job` where it has none.
pub fn to_job_id(value: &str) -> (id: String)
    ensures
        id@ == job_id_of(value@),
{
    let mut id = String::new();
    let mut started = false;
    let mut gap = false;
    for c in it: value.chars()
        invariant
            it.seq() == value@,
            id@ == slug(value@.take(it.index())),
            started == (id@.len() > 0),
            gap == (it.index() > 0 && !is_ascii_alnum(value@[it.index() - 1])),
    {
        let ghost before = value@.take(it.index());
        let ghost after = value@.take(it.index() + 1);
        assert(after.drop_last() =~= before);
        assert(after.last() == c);
        if char_is_ascii_alnum(c) {
            if started && gap {
                push_char(&mut id, '-');
            }
            push_char(&mut id, char_to_ascii_lower(c));
            started = true;
            gap = false;
        } else {
            gap = true;
        }
    }
    assert(value@.take(value@.len() as int) =~= value@);
    if started {
        id
    } else {
        proof {
            reveal_strlit("job");
            assert("job"@ =~= fallback_id());
        }
        "job".to_owned()
    }
}

/// The file name of a path: what follows its last `/`.
pub fn to_file_name(path: &str) -> (name: String)
    ensures
        name@ == file_name_of(path@),
{
    let mut name = String::new();
    for c in it: path.chars()
        invariant
            it.seq() == path@,
            name@ == file_name_of(path@.take(it.index())),
    {
        let ghost after = path@.take(it.index() + 1);
        assert(after.drop_last() =~= path@.take(it.index()));
        assert(after.last() == c);
        if c == '/' {
            name = String::new();
        } else {
            push_char(&mut name, c);
        }
    }
    assert(path@.take(path@.len() as int) =~= path@);
    name
}

/// A new random identifier for a batch or a task: a version 4 UUID as
/// `uuid` prints it (`Uuid::new_v4`, then its `Display`). It differs from call
/// to call, so nothing is stated of it.
#[verifier::external_body]
pub(crate) fn fresh_id() -> (id: String) {
    uuid::Uuid::new_v4().to_string()
}

} // verus!
