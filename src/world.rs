//! The registry keys and the PATHEXT value that the commands act on, and what
//! a whole command does to them when every operation it asks for is carried
//! out.
use vstd::prelude::*;
use crate::assoc::{n_deletes, delete_key, ext_token, write_data, write_key};
use crate::pathext::{add_spec, has_token, remove_spec, split_spec};
use crate::session::{deleted_line, ignored_line, removed_line, next_spec, start_spec, Args, AssocErrorV, EventV, IoKind, OpV, SessionV, StepV};

verus! {

/// Registry keys under the classes root with their default values, and the
/// system's PATHEXT value.
pub struct World {
    pub keys: Map<Seq<char>, Seq<char>>,
    pub pathext: Seq<char>,
}

/// `p` names a key above `k`: `k` goes on from `p` after a backslash.
pub open spec fn is_parent(p: Seq<char>, k: Seq<char>) -> bool {
    p.len() < k.len() && k.subrange(0, p.len() as int) == p && k[p.len() as int] == '\\'
}

/// Creating `k` with the keys above it, and setting its default value; keys
/// that existed keep their values.
pub open spec fn set_default(keys: Map<Seq<char>, Seq<char>>, k: Seq<char>, d: Seq<char>) -> Map<
    Seq<char>,
    Seq<char>,
> {
    Map::new(
        |p: Seq<char>| keys.dom().contains(p) || p == k || is_parent(p, k),
        |p: Seq<char>|
            if p == k {
                d
            } else if keys.dom().contains(p) {
                keys[p]
            } else {
                Seq::<char>::empty()
            },
    )
}

/// The world after an operation, and the answer to it, where every
/// operation succeeds but the deletion of a key that is not there, and the
/// launcher is found at `launcher`.
pub open spec fn perform(w: World, op: OpV, launcher: Seq<char>) -> (World, EventV) {
    match op {
        OpV::LocateLauncher => (w, EventV::Launcher { path: launcher, exists: true }),
        OpV::SetDefault { key, data } => (
            World { keys: set_default(w.keys, key, data), pathext: w.pathext },
            EventV::Done,
        ),
        OpV::DeleteKey { key } => if w.keys.dom().contains(key) {
            (World { keys: w.keys.remove(key), pathext: w.pathext }, EventV::Done)
        } else {
            (w, EventV::Failed { kind: IoKind::NotFound, detail: Seq::<char>::empty() })
        },
        OpV::ReadPathext => (w, EventV::Pathext { value: w.pathext }),
        OpV::WritePathext { value } => (World { keys: w.keys, pathext: value }, EventV::Done),
        OpV::Exit { .. } => (w, EventV::Done),
    }
}

/// Where a run ends: the world, the lines printed, and the result, if the
/// run came to its end.
pub struct Outcome {
    pub world: World,
    pub printed: Seq<Seq<char>>,
    pub result: Option<Result<i32, AssocErrorV>>,
}

/// The run of a session from state `s` and step `st`, for at most `fuel`
/// operations.
pub open spec fn run(s: SessionV, st: StepV, w: World, launcher: Seq<char>, fuel: nat) -> Outcome
    decreases fuel,
{
    match st.op {
        OpV::Exit { result } => Outcome { world: w, printed: st.print, result: Some(result) },
        _ => if fuel == 0 {
            Outcome { world: w, printed: st.print, result: None }
        } else {
            let (w2, ev) = perform(w, st.op, launcher);
            let (s2, st2) = next_spec(s, ev);
            let rest = run(s2, st2, w2, launcher, (fuel - 1) as nat);
            Outcome { world: rest.world, printed: st.print + rest.printed, result: rest.result }
        },
    }
}

/// A whole command run on `w`.
pub open spec fn command(args: Args, w: World, launcher: Seq<char>) -> Outcome {
    run(start_spec(args).0, start_spec(args).1, w, launcher, 8)
}

/// The keys after the three writes of the record for `handler`.
pub open spec fn registered(keys: Map<Seq<char>, Seq<char>>, handler: Seq<char>) -> Map<
    Seq<char>,
    Seq<char>,
> {
    set_default(
        set_default(set_default(keys, write_key(0), write_data(0, handler)), write_key(1), write_data(1, handler)),
        write_key(2),
        write_data(2, handler),
    )
}

/// What an install does when every operation succeeds.
pub proof fn lemma_install_run(amend_pathext: bool, w: World, launcher: Seq<char>)
    ensures
        command(Args::Install { amend_pathext }, w, launcher).result == Some(
            Ok::<i32, AssocErrorV>(0),
        ),
        command(Args::Install { amend_pathext }, w, launcher).world == (World {
            keys: registered(w.keys, crate::assoc::strip_verbatim(launcher)),
            pathext: if amend_pathext {
                add_spec(w.pathext, ext_token())
            } else {
                w.pathext
            },
        }),
{
    reveal_with_fuel(run, 9);
    let h = crate::assoc::strip_verbatim(launcher);
    let k1 = set_default(w.keys, write_key(0), write_data(0, h));
    let k2 = set_default(k1, write_key(1), write_data(1, h));
    let k3 = set_default(k2, write_key(2), write_data(2, h));
    if amend_pathext && !has_token(split_spec(w.pathext), ext_token()) {
        assert(command(Args::Install { amend_pathext }, w, launcher).world == World {
            keys: k3,
            pathext: add_spec(w.pathext, ext_token()),
        });
    }
}

/// Setting a key to the value it has, with the keys above it present,
/// changes nothing.
proof fn lemma_set_default_same(keys: Map<Seq<char>, Seq<char>>, k: Seq<char>, d: Seq<char>)
    requires
        keys.dom().contains(k),
        keys[k] == d,
        forall|p: Seq<char>| is_parent(p, k) ==> keys.dom().contains(p),
    ensures
        set_default(keys, k, d) == keys,
{
    assert(set_default(keys, k, d) =~= keys);
}

/// A key without a backslash has no key above it.
proof fn lemma_no_parent(k: Seq<char>)
    requires
        !k.contains('\\'),
    ensures
        forall|p: Seq<char>| !is_parent(p, k),
{
    assert forall|p: Seq<char>| !is_parent(p, k) by {
        if is_parent(p, k) {
            assert(k[p.len() as int] == '\\');
        }
    }
}

/// The keys of the record are distinct, and the first two stand alone.
proof fn lemma_record_keys()
    ensures
        write_key(0) != write_key(1),
        write_key(0) != write_key(2),
        write_key(1) != write_key(2),
        forall|p: Seq<char>| !is_parent(p, write_key(0)),
        forall|p: Seq<char>| !is_parent(p, write_key(1)),
{
    reveal_strlit(".crs");
    reveal_strlit("CargoScript.Crs");
    reveal_strlit("CargoScript.Crs\\shell\\open\\command");
    let k0 = write_key(0);
    let k1 = write_key(1);
    assert(k0.len() != k1.len());
    assert(k0.len() != write_key(2).len());
    assert(k1.len() != write_key(2).len());
    assert(!k0.contains('\\')) by {
        if k0.contains('\\') {
            let i = choose|i: int| 0 <= i < k0.len() && k0[i] == '\\';
            assert(k0[i] == '\\');
        }
    }
    assert(!k1.contains('\\')) by {
        if k1.contains('\\') {
            let i = choose|i: int| 0 <= i < k1.len() && k1[i] == '\\';
            assert(k1[i] == '\\');
        }
    }
    lemma_no_parent(k0);
    lemma_no_parent(k1);
}

/// Writing the record a second time leaves the keys as the first time did.
pub proof fn lemma_registered_twice(keys: Map<Seq<char>, Seq<char>>, handler: Seq<char>)
    ensures
        registered(registered(keys, handler), handler) == registered(keys, handler),
{
    lemma_record_keys();
    let r = registered(keys, handler);
    lemma_set_default_same(r, write_key(0), write_data(0, handler));
    lemma_set_default_same(r, write_key(1), write_data(1, handler));
    lemma_set_default_same(r, write_key(2), write_data(2, handler));
}

/// Installing twice in a row leaves the registry and PATHEXT as installing
/// once does, and both runs succeed.
pub proof fn lemma_install_idempotent(amend_pathext: bool, w: World, launcher: Seq<char>)
    ensures
        ({
            let once = command(Args::Install { amend_pathext }, w, launcher);
            let twice = command(Args::Install { amend_pathext }, once.world, launcher);
            &&& once.result == Some(Ok::<i32, AssocErrorV>(0))
            &&& twice.result == Some(Ok::<i32, AssocErrorV>(0))
            &&& twice.world == once.world
        }),
{
    let once = command(Args::Install { amend_pathext }, w, launcher);
    lemma_install_run(amend_pathext, w, launcher);
    lemma_install_run(amend_pathext, once.world, launcher);
    lemma_registered_twice(w.keys, crate::assoc::strip_verbatim(launcher));
    crate::session::lemma_ext_token_valid();
    crate::pathext::lemma_add_token_idempotent(w.pathext, ext_token());
}

/// The keys after the five deletions of the record.
pub open spec fn unregistered(keys: Map<Seq<char>, Seq<char>>) -> Map<Seq<char>, Seq<char>> {
    keys.remove(delete_key(0)).remove(delete_key(1)).remove(delete_key(2)).remove(
        delete_key(3),
    ).remove(delete_key(4))
}

/// Whether some key of the record is not there.
pub open spec fn some_missing(keys: Map<Seq<char>, Seq<char>>) -> bool {
    exists|i: int| 0 <= i < n_deletes() && !keys.dom().contains(#[trigger] delete_key(i))
}

/// What an uninstall prints when every operation succeeds.
pub open spec fn uninstall_lines(w: World) -> Seq<Seq<char>> {
    (if some_missing(w.keys) {
        seq![ignored_line(), deleted_line()]
    } else {
        seq![deleted_line()]
    }) + if has_token(split_spec(w.pathext), ext_token()) {
        seq![removed_line()]
    } else {
        Seq::<Seq<char>>::empty()
    }
}

/// The keys that the uninstall deletes are distinct.
proof fn lemma_delete_keys()
    ensures
        forall|i: int, j: int|
            0 <= i < n_deletes() && 0 <= j < n_deletes() && i != j ==> delete_key(i) != delete_key(j),
{
    reveal_strlit("CargoScript.Crs\\shell\\open\\command");
    reveal_strlit("CargoScript.Crs\\shell\\open");
    reveal_strlit("CargoScript.Crs\\shell");
    reveal_strlit("CargoScript.Crs");
    reveal_strlit(".crs");
    assert forall|i: int, j: int|
        0 <= i < n_deletes() && 0 <= j < n_deletes() && i != j implies delete_key(i) != delete_key(j) by {
        assert(delete_key(i).len() != delete_key(j).len());
    }
}

/// What an uninstall does when every operation succeeds.
pub proof fn lemma_uninstall_run(w: World, launcher: Seq<char>)
    ensures
        command(Args::Uninstall, w, launcher).result == Some(Ok::<i32, AssocErrorV>(0)),
        command(Args::Uninstall, w, launcher).world == (World {
            keys: unregistered(w.keys),
            pathext: remove_spec(w.pathext, ext_token()),
        }),
        command(Args::Uninstall, w, launcher).printed == uninstall_lines(w),
{
    reveal_with_fuel(run, 9);
    lemma_delete_keys();
    let m0 = w.keys;
    let m1 = m0.remove(delete_key(0));
    let m2 = m1.remove(delete_key(1));
    let m3 = m2.remove(delete_key(2));
    let m4 = m3.remove(delete_key(3));
    let m5 = m4.remove(delete_key(4));
    let c0 = m0.dom().contains(delete_key(0));
    let c1 = m1.dom().contains(delete_key(1));
    let c2 = m2.dom().contains(delete_key(2));
    let c3 = m3.dom().contains(delete_key(3));
    let c4 = m4.dom().contains(delete_key(4));
    assert(c1 == m0.dom().contains(delete_key(1)));
    assert(c2 == m0.dom().contains(delete_key(2)));
    assert(c3 == m0.dom().contains(delete_key(3)));
    assert(c4 == m0.dom().contains(delete_key(4)));
    assert(!c0 ==> m1 =~= m0);
    assert(!c1 ==> m2 =~= m1);
    assert(!c2 ==> m3 =~= m2);
    assert(!c3 ==> m4 =~= m3);
    assert(!c4 ==> m5 =~= m4);
    assert(some_missing(m0) == (!c0 || !c1 || !c2 || !c3 || !c4)) by {
        if !c0 {
            assert(!m0.dom().contains(delete_key(0)));
        }
        if !c1 {
            assert(!m0.dom().contains(delete_key(1)));
        }
        if !c2 {
            assert(!m0.dom().contains(delete_key(2)));
        }
        if !c3 {
            assert(!m0.dom().contains(delete_key(3)));
        }
        if !c4 {
            assert(!m0.dom().contains(delete_key(4)));
        }
    }
    let out = command(Args::Uninstall, w, launcher);
    if has_token(split_spec(w.pathext), ext_token()) {
        assert(out.printed =~= uninstall_lines(w));
    } else {
        assert(out.printed =~= uninstall_lines(w));
    }
}

/// Uninstalling twice in a row leaves the registry and PATHEXT as
/// uninstalling once does; the second run finds every key of the record
/// already gone, says so, writes nothing to PATHEXT, and succeeds.
pub proof fn lemma_uninstall_idempotent(w: World, launcher: Seq<char>)
    ensures
        ({
            let once = command(Args::Uninstall, w, launcher);
            let twice = command(Args::Uninstall, once.world, launcher);
            &&& once.result == Some(Ok::<i32, AssocErrorV>(0))
            &&& twice.result == Some(Ok::<i32, AssocErrorV>(0))
            &&& twice.world == once.world
            &&& forall|i: int|
                0 <= i < n_deletes() ==> !once.world.keys.dom().contains(#[trigger] delete_key(i))
            &&& twice.printed == seq![ignored_line(), deleted_line()]
        }),
{
    lemma_delete_keys();
    let once = command(Args::Uninstall, w, launcher);
    lemma_uninstall_run(w, launcher);
    lemma_uninstall_run(once.world, launcher);
    let u = unregistered(w.keys);
    assert(unregistered(u) =~= u);
    assert(!u.dom().contains(delete_key(0)));
    assert(some_missing(u));
    crate::session::lemma_ext_token_valid();
    crate::pathext::lemma_remove_token_idempotent(w.pathext, ext_token());
    crate::pathext::lemma_remove_token_leaves_none(w.pathext, ext_token());
    assert(uninstall_lines(once.world) =~= seq![ignored_line(), deleted_line()]);
}

/// An install that adds the token to PATHEXT, followed by an uninstall,
/// gives PATHEXT back exactly as it was, where the token was not in it.
pub proof fn lemma_install_uninstall_restores_pathext(w: World, launcher: Seq<char>)
    requires
        !has_token(split_spec(w.pathext), ext_token()),
    ensures
        command(
            Args::Uninstall,
            command(Args::Install { amend_pathext: true }, w, launcher).world,
            launcher,
        ).world.pathext == w.pathext,
{
    let once = command(Args::Install { amend_pathext: true }, w, launcher);
    lemma_install_run(true, w, launcher);
    lemma_uninstall_run(once.world, launcher);
    crate::session::lemma_ext_token_valid();
    crate::pathext::lemma_add_then_remove(w.pathext, ext_token());
}

/// An uninstall where only the leaf key of the record is left succeeds,
/// deletes it, and gives notice of the keys that were already gone.
pub proof fn lemma_uninstall_from_leaf_only(w: World, launcher: Seq<char>)
    requires
        w.keys.dom().contains(delete_key(0)),
        forall|i: int| 1 <= i < n_deletes() ==> !w.keys.dom().contains(#[trigger] delete_key(i)),
    ensures
        ({
            let out = command(Args::Uninstall, w, launcher);
            &&& out.result == Some(Ok::<i32, AssocErrorV>(0))
            &&& out.printed.subrange(0, 2) == seq![ignored_line(), deleted_line()]
            &&& forall|i: int|
                0 <= i < n_deletes() ==> !out.world.keys.dom().contains(#[trigger] delete_key(i))
        }),
{
    lemma_uninstall_run(w, launcher);
    assert(!w.keys.dom().contains(delete_key(1)));
    let out = command(Args::Uninstall, w, launcher);
    assert(out.printed.subrange(0, 2) =~= seq![ignored_line(), deleted_line()]);
}

} // verus!
