//! Laws of the lifecycle handler, stated and proved over its contracts.
//!
//! Each proof function here is a statement about every input, not a single
//! scenario: what create decides for option sets missing a required field,
//! for contradictory flags, and for unrecognized keys; that the mount path
//! of a name depends on the configuration alone; and that distinct fresh
//! names never collide in the registry.

use vstd::prelude::*;

use crate::driver::{apply_all, create_plan, mount_path_spec};
use crate::errors::ErrModel;
use crate::textops::lower_of;
use crate::volume::{empty_volume, VolumeModel};

verus! {

/// Whether an option key, matched case-insensitively, is one this driver
/// recognizes.
pub open spec fn recognized_key(key: Seq<char>) -> bool {
    let k = lower_of(key);
    ||| k == "repo"@
    ||| k == "commit"@
    ||| k == "username"@
    ||| k == "pat"@
    ||| k == "write"@
    ||| k == "watch"@
}

proof fn lemma_apply_all_fields(m: VolumeModel, opts: Seq<(Seq<char>, Seq<char>)>)
    requires
        forall|i: int| 0 <= i < opts.len() ==> recognized_key((#[trigger] opts[i]).0),
    ensures
        apply_all(m, opts) is Ok,
        (forall|i: int| 0 <= i < opts.len() ==> lower_of((#[trigger] opts[i]).0) != "repo"@)
            ==> apply_all(m, opts)->Ok_0.repo == m.repo,
        (forall|i: int| 0 <= i < opts.len() ==> lower_of((#[trigger] opts[i]).0) != "commit"@)
            ==> apply_all(m, opts)->Ok_0.commit == m.commit,
        (forall|i: int| 0 <= i < opts.len() ==> lower_of((#[trigger] opts[i]).0) != "watch"@)
            ==> apply_all(m, opts)->Ok_0.watch == m.watch,
        (exists|i: int| 0 <= i < opts.len() && lower_of((#[trigger] opts[i]).0) == "watch"@)
            ==> apply_all(m, opts)->Ok_0.watch is Some,
        ((forall|i: int|
            0 <= i < opts.len() && lower_of((#[trigger] opts[i]).0) == "write"@ ==> lower_of(
                opts[i].1,
            ) == "true"@) && (m.writeable || exists|i: int|
            0 <= i < opts.len() && lower_of((#[trigger] opts[i]).0) == "write"@)) ==> apply_all(
            m,
            opts,
        )->Ok_0.writeable,
    decreases opts.len(),
{
    reveal_strlit("repo");
    reveal_strlit("commit");
    reveal_strlit("username");
    reveal_strlit("pat");
    reveal_strlit("write");
    reveal_strlit("watch");
    assert("repo"@.len() == 4);
    assert("commit"@.len() == 6);
    assert("username"@.len() == 8);
    assert("pat"@.len() == 3);
    assert("write"@.len() == 5);
    assert("watch"@.len() == 5);
    assert("write"@[1] == 'r');
    assert("watch"@[1] == 'a');
    if opts.len() > 0 {
        let rest = opts.drop_first();
        assert(forall|i: int| 0 <= i < rest.len() ==> #[trigger] rest[i] == opts[i + 1]);
        let m1 = crate::volume::apply_option(m, opts[0].0, opts[0].1)->Some_0;
        lemma_apply_all_fields(m1, rest);
        if exists|i: int| 0 <= i < opts.len() && lower_of((#[trigger] opts[i]).0) == "watch"@ {
            let i = choose|i: int|
                0 <= i < opts.len() && lower_of((#[trigger] opts[i]).0) == "watch"@;
            if lower_of(opts[0].0) == "watch"@ {
                assert(m1.watch is Some);
                if exists|k: int|
                    0 <= k < rest.len() && lower_of((#[trigger] rest[k]).0) == "watch"@ {
                    assert(apply_all(m1, rest)->Ok_0.watch is Some);
                } else {
                    assert(forall|k: int|
                        0 <= k < rest.len() ==> lower_of((#[trigger] rest[k]).0) != "watch"@);
                    assert(apply_all(m1, rest)->Ok_0.watch == m1.watch);
                }
            } else {
                assert(i > 0);
                assert(lower_of((#[trigger] rest[i - 1]).0) == "watch"@);
                assert(apply_all(m1, rest)->Ok_0.watch is Some);
            }
            assert(apply_all(m, opts)->Ok_0.watch is Some);
        }
        if (forall|i: int|
            0 <= i < opts.len() && lower_of((#[trigger] opts[i]).0) == "write"@ ==> lower_of(
                opts[i].1,
            ) == "true"@) && (m.writeable || exists|i: int|
            0 <= i < opts.len() && lower_of((#[trigger] opts[i]).0) == "write"@) {
            if lower_of(opts[0].0) == "write"@ {
                assert(lower_of(opts[0].1) == "true"@);
                assert(m1.writeable);
            } else {
                assert(m1.writeable == m.writeable);
                if !m.writeable {
                    let i = choose|i: int|
                        0 <= i < opts.len() && lower_of((#[trigger] opts[i]).0) == "write"@;
                    assert(i > 0);
                    assert(lower_of((#[trigger] rest[i - 1]).0) == "write"@);
                }
            }
        }
    }
}

/// For every option set of recognized keys that leaves `repo` or `commit`
/// unset, create fails with an invalid-options error, and so leaves the
/// registry unchanged.
pub proof fn lemma_create_missing_required_fails(
    root: Seq<char>,
    name: Seq<char>,
    opts: Seq<(Seq<char>, Seq<char>)>,
)
    requires
        forall|i: int| 0 <= i < opts.len() ==> recognized_key((#[trigger] opts[i]).0),
        (forall|i: int| 0 <= i < opts.len() ==> lower_of((#[trigger] opts[i]).0) != "repo"@)
            || (forall|i: int|
            0 <= i < opts.len() ==> lower_of((#[trigger] opts[i]).0) != "commit"@),
    ensures
        create_plan(root, name, opts) matches Err(ErrModel::InvalidOptions(_)),
        (forall|i: int| 0 <= i < opts.len() ==> lower_of((#[trigger] opts[i]).0) != "repo"@)
            ==> create_plan(root, name, opts) == Err::<VolumeModel, ErrModel>(
            ErrModel::InvalidOptions("\"repo\" option not set"@),
        ),
{
    lemma_apply_all_fields(empty_volume(), opts);
}

/// For every option set of recognized keys that turns `write` on and sets a
/// `watch` interval, create fails, and so leaves the registry unchanged.
pub proof fn lemma_write_watch_conflict_fails(
    root: Seq<char>,
    name: Seq<char>,
    opts: Seq<(Seq<char>, Seq<char>)>,
)
    requires
        forall|i: int| 0 <= i < opts.len() ==> recognized_key((#[trigger] opts[i]).0),
        exists|i: int|
            0 <= i < opts.len() && lower_of((#[trigger] opts[i]).0) == "write"@ && lower_of(
                opts[i].1,
            ) == "true"@,
        forall|i: int|
            0 <= i < opts.len() && lower_of((#[trigger] opts[i]).0) == "write"@ ==> lower_of(
                opts[i].1,
            ) == "true"@,
        exists|i: int| 0 <= i < opts.len() && lower_of((#[trigger] opts[i]).0) == "watch"@,
    ensures
        create_plan(root, name, opts) matches Err(ErrModel::InvalidOptions(_)),
{
    lemma_apply_all_fields(empty_volume(), opts);
}

proof fn lemma_apply_all_first_unrecognized(
    m: VolumeModel,
    opts: Seq<(Seq<char>, Seq<char>)>,
    i: int,
)
    requires
        0 <= i < opts.len(),
        !recognized_key(opts[i].0),
        forall|j: int| 0 <= j < i ==> recognized_key((#[trigger] opts[j]).0),
    ensures
        apply_all(m, opts) == Err::<VolumeModel, Seq<char>>(opts[i].0),
    decreases opts.len(),
{
    if i == 0 {
    } else {
        let rest = opts.drop_first();
        assert(forall|j: int| 0 <= j < rest.len() ==> #[trigger] rest[j] == opts[j + 1]);
        let m1 = crate::volume::apply_option(m, opts[0].0, opts[0].1)->Some_0;
        lemma_apply_all_first_unrecognized(m1, rest, i - 1);
    }
}

/// For every option set holding a key outside the recognized set, create
/// fails with an unrecognized-option error naming the first such key, and so
/// leaves the registry unchanged.
pub proof fn lemma_unrecognized_key_fails(
    root: Seq<char>,
    name: Seq<char>,
    opts: Seq<(Seq<char>, Seq<char>)>,
    i: int,
)
    requires
        0 <= i < opts.len(),
        !recognized_key(opts[i].0),
        forall|j: int| 0 <= j < i ==> recognized_key((#[trigger] opts[j]).0),
    ensures
        create_plan(root, name, opts) == Err::<VolumeModel, ErrModel>(
            ErrModel::NoOption(opts[i].0),
        ),
{
    lemma_apply_all_first_unrecognized(empty_volume(), opts, i);
}

/// The mount path of a name is a function of the mount root and the name
/// alone: no registry state enters it, so repeated path queries agree
/// whether or not the volume exists.
pub proof fn lemma_path_pure(root: Seq<char>, name: Seq<char>, p1: Seq<char>, p2: Seq<char>)
    requires
        p1 == mount_path_spec(root, name),
        p2 == mount_path_spec(root, name),
    ensures
        p1 == p2,
{
}

/// The combined effect of a sequence of registrations, in the order the
/// registry's write lock serialized them.
pub open spec fn insert_all(
    m: Map<Seq<char>, VolumeModel>,
    entries: Seq<(Seq<char>, VolumeModel)>,
) -> Map<Seq<char>, VolumeModel>
    decreases entries.len(),
{
    if entries.len() == 0 {
        m
    } else {
        insert_all(m.insert(entries[0].0, entries[0].1), entries.drop_first())
    }
}

/// Creates under pairwise-distinct fresh names never collide: however the
/// registry's write lock orders them, registering N records under N distinct
/// names not yet present grows the registry by exactly N entries.
pub proof fn lemma_distinct_fresh_creates_count(
    m: Map<Seq<char>, VolumeModel>,
    entries: Seq<(Seq<char>, VolumeModel)>,
)
    requires
        m.dom().finite(),
        forall|i: int, j: int|
            0 <= i < j < entries.len() ==> (#[trigger] entries[i]).0 != (#[trigger] entries[j]).0,
        forall|i: int| 0 <= i < entries.len() ==> !m.contains_key((#[trigger] entries[i]).0),
    ensures
        insert_all(m, entries).dom().finite(),
        insert_all(m, entries).dom().len() == m.dom().len() + entries.len(),
    decreases entries.len(),
{
    if entries.len() > 0 {
        let m1 = m.insert(entries[0].0, entries[0].1);
        assert(m1.dom() =~= m.dom().insert(entries[0].0));
        let rest = entries.drop_first();
        assert(forall|i: int| 0 <= i < rest.len() ==> #[trigger] rest[i] == entries[i + 1]);
        assert(forall|i: int|
            0 <= i < rest.len() ==> !m1.contains_key((#[trigger] rest[i]).0));
        lemma_distinct_fresh_creates_count(m1, rest);
    }
}

} // verus!


