//! The watch-registration policy: register every directory, keep the
//! ones that succeeded, warn about the ones that failed, and never
//! let one bad path block the rest.

use vstd::prelude::*;

verus! {

/// The directories from position `i` on whose registration succeeded,
/// in order.
pub open spec fn watched_from(dirs: Seq<Seq<char>>, ok: Seq<bool>, i: int) -> Seq<Seq<char>>
    decreases dirs.len() - i,
{
    if i < 0 || i >= dirs.len() {
        Seq::empty()
    } else {
        (if ok[i] {
            seq![dirs[i]]
        } else {
            Seq::empty()
        }) + watched_from(dirs, ok, i + 1)
    }
}

/// The directories from position `i` on whose registration failed,
/// in order.
pub open spec fn failed_from(dirs: Seq<Seq<char>>, ok: Seq<bool>, i: int) -> Seq<Seq<char>>
    decreases dirs.len() - i,
{
    if i < 0 || i >= dirs.len() {
        Seq::empty()
    } else {
        (if ok[i] {
            Seq::empty()
        } else {
            seq![dirs[i]]
        }) + failed_from(dirs, ok, i + 1)
    }
}

/// All directories whose registration succeeded, in order.
pub open spec fn watched(dirs: Seq<Seq<char>>, ok: Seq<bool>) -> Seq<Seq<char>> {
    watched_from(dirs, ok, 0)
}

/// All directories whose registration failed, in order.
pub open spec fn failed(dirs: Seq<Seq<char>>, ok: Seq<bool>) -> Seq<Seq<char>> {
    failed_from(dirs, ok, 0)
}

/// The outcome of registering the whole directory list: the reduced
/// watch set the loop starts with, and the directories to warn about.
pub struct RegistrationReport {
    pub watched: Vec<String>,
    pub failed: Vec<String>,
}

/// Split the directory list by registration outcome: `ok[i]` says
/// whether registering a watch on `dirs[i]` succeeded.  Every
/// directory lands in exactly one of the two lists, keeping the
/// order of the input: registration failures are warned about and
/// skipped, never fatal.
pub fn registration_report(dirs: &Vec<String>, ok: &Vec<bool>) -> (r: RegistrationReport)
    requires
        ok@.len() == dirs@.len(),
    ensures
        r.watched.deep_view() == watched(dirs.deep_view(), ok@),
        r.failed.deep_view() == failed(dirs.deep_view(), ok@),
{
    let ghost dv = dirs.deep_view();
    let mut watched_dirs: Vec<String> = Vec::new();
    let mut failed_dirs: Vec<String> = Vec::new();
    let mut i: usize = 0;
    while i < dirs.len()
        invariant
            ok@.len() == dirs@.len(),
            dv == dirs.deep_view(),
            i <= dirs@.len(),
            watched(dv, ok@) == watched_dirs.deep_view() + watched_from(dv, ok@, i as int),
            failed(dv, ok@) == failed_dirs.deep_view() + failed_from(dv, ok@, i as int),
        decreases dirs@.len() - i,
    {
        let ghost prev_w = watched_dirs.deep_view();
        let ghost prev_f = failed_dirs.deep_view();
        let entry = dirs[i].clone();
        assert(entry@ == dv[i as int]);
        if ok[i] {
            watched_dirs.push(entry);
            proof {
                assert(watched_dirs.deep_view() =~= prev_w.push(dv[i as int]));
                assert(watched_from(dv, ok@, i as int) =~= seq![dv[i as int]] + watched_from(
                    dv,
                    ok@,
                    i as int + 1,
                ));
                assert(prev_w + watched_from(dv, ok@, i as int) =~= watched_dirs.deep_view()
                    + watched_from(dv, ok@, i as int + 1));
            }
        } else {
            failed_dirs.push(entry);
            proof {
                assert(failed_dirs.deep_view() =~= prev_f.push(dv[i as int]));
                assert(failed_from(dv, ok@, i as int) =~= seq![dv[i as int]] + failed_from(
                    dv,
                    ok@,
                    i as int + 1,
                ));
                assert(prev_f + failed_from(dv, ok@, i as int) =~= failed_dirs.deep_view()
                    + failed_from(dv, ok@, i as int + 1));
            }
        }
        i = i + 1;
    }
    proof {
        assert(watched_dirs.deep_view() + watched_from(dv, ok@, dirs@.len() as int)
            =~= watched_dirs.deep_view());
        assert(failed_dirs.deep_view() + failed_from(dv, ok@, dirs@.len() as int)
            =~= failed_dirs.deep_view());
    }
    RegistrationReport { watched: watched_dirs, failed: failed_dirs }
}

/// Every directory whose registration succeeded is watched, from
/// wherever the scan starts at or before it.
proof fn lemma_watched_from_contains(dirs: Seq<Seq<char>>, ok: Seq<bool>, i: int, j: int)
    requires
        ok.len() == dirs.len(),
        0 <= i <= j < dirs.len(),
        ok[j],
    ensures
        watched_from(dirs, ok, i).contains(dirs[j]),
    decreases j - i,
{
    if i == j {
        assert(watched_from(dirs, ok, i)[0] == dirs[j]);
    } else {
        lemma_watched_from_contains(dirs, ok, i + 1, j);
        let rest = watched_from(dirs, ok, i + 1);
        let k = choose|k: int| 0 <= k < rest.len() && rest[k] == dirs[j];
        let head = if ok[i] {
            seq![dirs[i]]
        } else {
            Seq::<Seq<char>>::empty()
        };
        assert(watched_from(dirs, ok, i) == head + rest);
        assert((head + rest)[k + head.len()] == dirs[j]);
    }
}

/// A directory that fails to register — for instance because it does
/// not exist — does not prevent any other directory from being
/// watched: every directory whose own registration succeeded is in
/// the final watch set, whatever happened to the rest of the list.
pub proof fn lemma_failed_watch_does_not_block(dirs: Seq<Seq<char>>, ok: Seq<bool>, j: int)
    requires
        ok.len() == dirs.len(),
        0 <= j < dirs.len(),
        ok[j],
    ensures
        watched(dirs, ok).contains(dirs[j]),
{
    lemma_watched_from_contains(dirs, ok, 0, j);
}

} // verus!
