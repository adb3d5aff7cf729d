//! Destinations for downloaded artifacts: one fresh path per requested URL,
//! inside a job-scoped directory, no two alike.

use vstd::prelude::*;
use crate::text::text_eq;
use crate::worker_state::new_uuid;

verus! {

/// Fresh names drawn for one destination before it counts as failed.
pub const NAME_DRAWS: usize = 3;

/// The directory a job's artifacts go to: `job_files/<job id>/`.
pub open spec fn job_dir_of(job_id: Seq<char>) -> Seq<char> {
    "job_files/"@ + job_id + "/"@
}

/// Whether `p` is among the assigned paths.
pub open spec fn is_taken(paths: Seq<Option<String>>, p: Seq<char>) -> bool {
    exists|i: int| 0 <= i < paths.len() && #[trigger] paths[i] is Some && paths[i].unwrap()@ == p
}

/// `p` lies in `dir`, under a name of 36 characters.
pub open spec fn in_dir(p: Seq<char>, dir: Seq<char>) -> bool {
    p.len() == dir.len() + 36 && p.subrange(0, dir.len() as int) == dir
}

fn taken(paths: &Vec<Option<String>>, p: &String) -> (r: bool)
    ensures
        r == is_taken(paths@, p@),
{
    let mut i: usize = 0;
    while i < paths.len()
        invariant
            i <= paths@.len(),
            forall|k: int| 0 <= k < i ==> !(#[trigger] paths@[k] is Some && paths@[k].unwrap()@ == p@),
        decreases paths.len() - i,
    {
        match &paths[i] {
            Some(q) => {
                if text_eq(q.as_str(), p.as_str()) {
                    return true;
                }
            },
            None => {},
        }
        i = i + 1;
    }
    false
}

/// `r` is the first of `cands` that is not among `taken`, or `None` when
/// every one of them is.
pub open spec fn first_free_of(taken: Seq<Option<String>>, cands: Seq<String>, r: Option<String>) -> bool {
    &&& (r is None <==> forall|c: int| 0 <= c < cands.len() ==> is_taken(taken, #[trigger] cands[c]@))
    &&& (r is Some ==> exists|c: int|
        0 <= c < cands.len() && r.unwrap() == #[trigger] cands[c] && !is_taken(taken, cands[c]@)
            && forall|e: int| 0 <= e < c ==> is_taken(taken, #[trigger] cands[e]@))
}

/// The first candidate that is not yet assigned, or `None` when all are.
pub fn first_free(paths: &Vec<Option<String>>, candidates: &Vec<String>) -> (r: Option<String>)
    ensures
        first_free_of(paths@, candidates@, r),
{
    let mut c: usize = 0;
    while c < candidates.len()
        invariant
            c <= candidates@.len(),
            forall|e: int| 0 <= e < c ==> is_taken(paths@, #[trigger] candidates@[e]@),
        decreases candidates.len() - c,
    {
        if !taken(paths, &candidates[c]) {
            let r = candidates[c].clone();
            assert(r == candidates@[c as int]);
            return Some(r);
        }
        c = c + 1;
    }
    None
}

/// Assigns one destination per entry of `draws`, in order: entry `i` gets
/// the first of its candidate names not already assigned to an earlier
/// entry, or `None` when every one of them is. No two assigned paths are equal.
pub fn assign_destinations(draws: &Vec<Vec<String>>) -> (r: Vec<Option<String>>)
    ensures
        r@.len() == draws@.len(),
        forall|i: int|
            0 <= i < draws@.len() ==> first_free_of(r@.subrange(0, i), #[trigger] draws@[i]@, r@[i]),
        forall|i: int, j: int|
            0 <= i < j < r@.len() && #[trigger] r@[i] is Some && #[trigger] r@[j] is Some
                ==> r@[i].unwrap()@ != r@[j].unwrap()@,
{
    let mut out: Vec<Option<String>> = Vec::new();
    while out.len() < draws.len()
        invariant
            out@.len() <= draws@.len(),
            forall|i: int|
                0 <= i < out@.len() ==> first_free_of(out@.subrange(0, i), #[trigger] draws@[i]@, out@[i]),
            forall|i: int, j: int|
                0 <= i < j < out@.len() && #[trigger] out@[i] is Some && #[trigger] out@[j] is Some
                    ==> out@[i].unwrap()@ != out@[j].unwrap()@,
        decreases draws.len() - out@.len(),
    {
        let n = out.len();
        let pick = first_free(&out, &draws[n]);
        let ghost before = out@;
        out.push(pick);
        proof {
            assert(out@.subrange(0, n as int) =~= before);
            assert forall|i: int|
                0 <= i < out@.len() implies first_free_of(out@.subrange(0, i), #[trigger] draws@[i]@, out@[i]) by {
                if i < n {
                    assert(out@.subrange(0, i) =~= before.subrange(0, i));
                    assert(out@[i] == before[i]);
                }
            }
            assert forall|i: int, j: int|
                0 <= i < j < out@.len() && #[trigger] out@[i] is Some && #[trigger] out@[j] is Some
                    implies out@[i].unwrap()@ != out@[j].unwrap()@ by {
                if j < n {
                    assert(before[i] == out@[i] && before[j] == out@[j]);
                } else {
                    assert(before[i] == out@[i]);
                    let c = choose|c: int|
                        0 <= c < draws@[j]@.len() && pick.unwrap() == #[trigger] draws@[j]@[c]
                            && !is_taken(before, draws@[j]@[c]@);
                    if out@[i].unwrap()@ == out@[j].unwrap()@ {
                        assert(is_taken(before, draws@[j]@[c]@));
                    }
                }
            }
        }
    }
    out
}

/// One destination path per URL, in order: the job directory followed by a
/// random name, no two equal. `NAME_DRAWS` names are drawn for each URL and
/// the first one not yet assigned is used; an entry is `None` (that download
/// fails) only when all of them were. The first entry always gets a path.
pub fn plan_destinations(job_id: &str, count: usize) -> (r: Vec<Option<String>>)
    ensures
        r@.len() == count,
        count > 0 ==> r@[0] is Some,
        forall|i: int|
            0 <= i < count && #[trigger] r@[i] is Some ==> in_dir(r@[i].unwrap()@, job_dir_of(job_id@)),
        forall|i: int, j: int|
            0 <= i < j < count && #[trigger] r@[i] is Some && #[trigger] r@[j] is Some
                ==> r@[i].unwrap()@ != r@[j].unwrap()@,
{
    let dir = String::from_str("job_files/").concat(job_id).concat("/");
    let ghost d = job_dir_of(job_id@);
    let mut draws: Vec<Vec<String>> = Vec::new();
    while draws.len() < count
        invariant
            draws@.len() <= count,
            dir@ == d,
            forall|i: int| 0 <= i < draws@.len() ==> (#[trigger] draws@[i])@.len() == NAME_DRAWS,
            forall|i: int, c: int|
                0 <= i < draws@.len() && 0 <= c < draws@[i]@.len() ==> in_dir(#[trigger] draws@[i]@[c]@, d),
        decreases count - draws@.len(),
    {
        let mut candidates: Vec<String> = Vec::new();
        while candidates.len() < NAME_DRAWS
            invariant
                dir@ == d,
                candidates@.len() <= NAME_DRAWS,
                forall|c: int| 0 <= c < candidates@.len() ==> in_dir(#[trigger] candidates@[c]@, d),
            decreases NAME_DRAWS - candidates@.len(),
        {
            let name = new_uuid();
            let path = dir.clone().concat(name.as_str());
            assert(path@.subrange(0, d.len() as int) =~= d);
            candidates.push(path);
        }
        let ghost before = draws@;
        draws.push(candidates);
        proof {
            assert forall|i: int, c: int|
                0 <= i < draws@.len() && 0 <= c < draws@[i]@.len() implies in_dir(#[trigger] draws@[i]@[c]@, d) by {
                if i < before.len() {
                    assert(draws@[i] == before[i]);
                }
            }
        }
    }
    let r = assign_destinations(&draws);
    proof {
        assert forall|i: int|
            0 <= i < count && #[trigger] r@[i] is Some implies in_dir(r@[i].unwrap()@, d) by {
            assert(first_free_of(r@.subrange(0, i), draws@[i]@, r@[i]));
            let c = choose|c: int| 0 <= c < draws@[i]@.len() && r@[i].unwrap() == #[trigger] draws@[i]@[c];
            assert(in_dir(draws@[i]@[c]@, d));
        }
        if count > 0 {
            assert(first_free_of(r@.subrange(0, 0), draws@[0]@, r@[0]));
            assert(!is_taken(r@.subrange(0, 0), draws@[0]@[0]@));
        }
    }
    r
}

} // verus!
